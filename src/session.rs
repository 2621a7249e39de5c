//! The message loop of one connection: each binary message is decoded and
//! routed to the connection's backend pair, which exists only once an init
//! message has arrived.
use crate::backend::{InputBackend, Output};
use crate::finger::FingerBackend;
use crate::parse::{decode, Event, Init};
use crate::stylus::StylusBackend;
use vstd::prelude::*;

verus! {

/// Seconds a session waits after a connection ends or fails before it tries
/// again.
pub const RECONNECT_DELAY_SECS: u64 = 3;

/// The outcome of one message.
#[derive(Debug)]
pub enum Dispatch {
    /// The message did not decode and is dropped.
    Malformed(String),
    /// An init message: the devices are to be built for this size.
    Init(Init),
    /// Events to emit.
    Emit(Output),
    /// The backend refused the event.
    Refused(String),
    /// An input event came before any init message and is dropped.
    Uninitialized,
}

/// Handles one binary message of a connection. An init message leaves the
/// backend as it is and asks for new devices; input events go to the backend
/// when there is one.
pub fn process_buf(lazy_backend: &mut Option<InputBackend>, buf: &[u8]) -> (r: Dispatch)
    requires
        (*old(lazy_backend)) matches Some(b) ==> b.wf(),
    ensures
        (*final(lazy_backend)) matches Some(b) ==> b.wf(),
        decode(buf@) is None ==> r is Malformed && *final(lazy_backend) == *old(lazy_backend),
        decode(buf@) matches Some(Event::Init(i)) ==> r == Dispatch::Init(i)
            && *final(lazy_backend) == *old(lazy_backend),
        decode(buf@) is Some && !(decode(buf@)->0 is Init) && (*old(lazy_backend)) is None
            ==> r is Uninitialized && (*final(lazy_backend)) is None,
        decode(buf@) is Some && !(decode(buf@)->0 is Init) && (*old(lazy_backend)) is Some ==> {
            &&& (*final(lazy_backend)) is Some
            &&& r is Emit || r is Refused
            &&& InputBackend::executes(
                (*old(lazy_backend))->0,
                decode(buf@)->0,
                match r {
                    Dispatch::Emit(o) => Ok(o),
                    Dispatch::Refused(s) => Err(s),
                    _ => Ok(Output::Nothing),
                },
                (*final(lazy_backend))->0,
            )
        },
{
    let event = match Event::parse(buf) {
        Ok(event) => event,
        Err(err) => return Dispatch::Malformed(err),
    };
    if let Event::Init(init) = event {
        return Dispatch::Init(init);
    }
    match lazy_backend {
        Some(backend) => match backend.execute(event) {
            Ok(out) => Dispatch::Emit(out),
            Err(err) => Dispatch::Refused(err),
        },
        None => Dispatch::Uninitialized,
    }
}

/// Replaces the connection's backend after an init message: fresh state
/// machines when the devices were built, none when building them failed.
pub fn reinitialize(lazy_backend: &mut Option<InputBackend>, init: &Init, created: bool)
    ensures
        created ==> ((*final(lazy_backend)) matches Some(b) && b.wf() && b.finger@
            == FingerBackend::new_model() && b.stylus@ == StylusBackend::new_model()
            && b.finger.spec_size() == *init && b.stylus.spec_size() == *init),
        !created ==> (*final(lazy_backend)) is None,
{
    if created {
        *lazy_backend = Some(InputBackend::new(init));
    } else {
        *lazy_backend = None;
    }
}

} // verus!
