//! Low-level input events as the kernel's input layer knows them, and the
//! batches in which a backend collects them before one emission.
use vstd::prelude::*;

verus! {

/// Event type of a key or button transition.
pub const EV_KEY: u16 = 0x01;

/// Event type of an absolute axis value.
pub const EV_ABS: u16 = 0x03;

/// Event type of a miscellaneous channel value.
pub const EV_MSC: u16 = 0x04;

pub const ABS_X: u16 = 0x00;

pub const ABS_Y: u16 = 0x01;

pub const ABS_PRESSURE: u16 = 0x18;

pub const ABS_TILT_X: u16 = 0x1a;

pub const ABS_TILT_Y: u16 = 0x1b;

pub const ABS_MT_SLOT: u16 = 0x2f;

pub const ABS_MT_POSITION_X: u16 = 0x35;

pub const ABS_MT_POSITION_Y: u16 = 0x36;

pub const ABS_MT_TRACKING_ID: u16 = 0x39;

pub const BTN_TOOL_PEN: u16 = 0x140;

pub const BTN_TOOL_RUBBER: u16 = 0x141;

pub const BTN_TOOL_PENCIL: u16 = 0x143;

pub const BTN_TOOL_FINGER: u16 = 0x145;

pub const BTN_TOOL_QUINTTAP: u16 = 0x148;

pub const BTN_TOUCH: u16 = 0x14a;

pub const BTN_STYLUS: u16 = 0x14b;

pub const BTN_STYLUS2: u16 = 0x14c;

pub const BTN_TOOL_DOUBLETAP: u16 = 0x14d;

pub const BTN_TOOL_TRIPLETAP: u16 = 0x14e;

pub const BTN_TOOL_QUADTAP: u16 = 0x14f;

pub const MSC_TIMESTAMP: u16 = 0x05;

/// One low-level input event: its type, its code within that type, and its value.
#[derive(Clone, Copy, Debug, PartialEq, Eq, Structural)]
pub struct InputEvent {
    pub kind: u16,
    pub code: u16,
    pub value: i32,
}

/// Events that are emitted together.
pub type EventList = Vec<InputEvent>;

pub open spec fn abs_event(code: u16, value: i32) -> InputEvent {
    InputEvent { kind: EV_ABS, code, value }
}

pub open spec fn key_event(code: u16, value: i32) -> InputEvent {
    InputEvent { kind: EV_KEY, code, value }
}

pub open spec fn msc_event(code: u16, value: i32) -> InputEvent {
    InputEvent { kind: EV_MSC, code, value }
}

/// Appending events of each type to a batch.
pub trait PushEvent {
    /// The events collected so far, oldest first.
    spec fn pushed(&self) -> Seq<InputEvent>;

    fn push_abs_event(&mut self, code: u16, value: i32)
        ensures
            final(self).pushed() == old(self).pushed().push(abs_event(code, value)),
    ;

    fn push_key(&mut self, code: u16, value: i32)
        ensures
            final(self).pushed() == old(self).pushed().push(key_event(code, value)),
    ;

    fn push_msc(&mut self, code: u16, value: i32)
        ensures
            final(self).pushed() == old(self).pushed().push(msc_event(code, value)),
    ;
}

impl PushEvent for EventList {
    open spec fn pushed(&self) -> Seq<InputEvent> {
        self@
    }

    fn push_abs_event(&mut self, code: u16, value: i32) {
        self.push(InputEvent { kind: EV_ABS, code, value });
    }

    fn push_key(&mut self, code: u16, value: i32) {
        self.push(InputEvent { kind: EV_KEY, code, value });
    }

    fn push_msc(&mut self, code: u16, value: i32) {
        self.push(InputEvent { kind: EV_MSC, code, value });
    }
}

} // verus!
