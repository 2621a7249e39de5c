//! The pair of virtual input devices of one connection: a touchpad and a pen,
//! each with its own state machine.
use crate::event_list::EventList;
use crate::finger::{bad_slot_message, FingerBackend, SLOTS};
use crate::parse::{Event, Init};
use crate::stylus::StylusBackend;
use vstd::prelude::*;

verus! {

/// Tuning of the touchpad's axes.
#[derive(Clone, Copy, Debug, PartialEq, Eq, Structural)]
pub struct BackendConfig {
    pub evdev_trackpad_fuzz: i32,
    pub evdev_trackpad_res: i32,
    pub evdev_trackpad_flat: i32,
}

/// What one event asks the devices to emit.
#[derive(Debug)]
pub enum Output {
    /// One batch for the touchpad.
    Touchpad(EventList),
    /// Batches for the pen, in the order they are to be emitted.
    Stylus(Vec<EventList>),
    /// Nothing: the event carries no input.
    Nothing,
}

/// The state machines behind the two devices of one connection.
pub struct InputBackend {
    pub stylus: StylusBackend,
    pub finger: FingerBackend,
}

impl InputBackend {
    pub open spec fn wf(&self) -> bool {
        self.finger.wf()
    }

    /// Fresh state machines for a screen of the given size.
    pub fn new(init_data: &Init) -> (r: InputBackend)
        ensures
            r.wf(),
            r.finger.spec_size() == *init_data,
            r.stylus.spec_size() == *init_data,
            r.finger@ == FingerBackend::new_model(),
            r.stylus@ == StylusBackend::new_model(),
    {
        InputBackend { stylus: StylusBackend::new(init_data), finger: FingerBackend::new(init_data) }
    }

    /// What executing `event` on `old` returns as `r` and leaves as `new`.
    pub open spec fn executes(
        old: InputBackend,
        event: Event,
        r: Result<Output, String>,
        new: InputBackend,
    ) -> bool {
        match event {
            Event::Finger(f) => {
                &&& new.stylus@ == old.stylus@
                &&& (f.slot as int) < SLOTS ==> (match r {
                    Ok(Output::Touchpad(b)) => b@ == old.finger@.batch(f),
                    _ => false,
                }) && new.finger@ == old.finger@.next(f)
                &&& (f.slot as int) >= SLOTS ==> (match r {
                    Err(e) => e@ == bad_slot_message(),
                    _ => false,
                }) && new.finger@ == old.finger@
            },
            Event::Stylus(s) => {
                &&& new.finger@ == old.finger@
                &&& new.stylus@ == old.stylus@.next(s)
                &&& match r {
                    Ok(Output::Stylus(v)) => v@.map_values(|b: EventList| b@)
                        == old.stylus@.emissions(s),
                    _ => false,
                }
            },
            Event::Init(_) => {
                &&& r matches Ok(Output::Nothing)
                &&& new.finger@ == old.finger@
                &&& new.stylus@ == old.stylus@
            },
        }
    }

    /// Routes a finger update to the touchpad and a pen sample to the pen; an
    /// init event has nothing to emit. Only a finger update with a slot out
    /// of range fails, and it changes nothing.
    pub fn execute(&mut self, event: Event) -> (r: Result<Output, String>)
        requires
            old(self).wf(),
        ensures
            final(self).wf(),
            final(self).finger.spec_size() == old(self).finger.spec_size(),
            final(self).stylus.spec_size() == old(self).stylus.spec_size(),
            Self::executes(*old(self), event, r, *final(self)),
    {
        match event {
            Event::Finger(finger_data) => match self.finger.process(&finger_data) {
                Ok(batch) => Ok(Output::Touchpad(batch)),
                Err(e) => Err(e),
            },
            Event::Stylus(stylus_data) => Ok(Output::Stylus(self.stylus.process(&stylus_data))),
            Event::Init(_) => Ok(Output::Nothing),
        }
    }
}

} // verus!
