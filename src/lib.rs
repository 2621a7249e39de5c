//! Turns a tethered phone into a stylus and touchpad for the host: decoding of
//! the phone's binary event protocol, the touch and stylus state machines that
//! translate decoded events into batches of low-level input events, the
//! per-connection dispatch of messages, and the bookkeeping of device sessions.
pub mod parse;
pub mod event_list;
pub mod finger;
pub mod stylus;
pub mod backend;
pub mod session;
pub mod cli;
pub mod tracker;
