//! The virtual touchpad: a multi-touch state machine over a fixed number of
//! contact slots. Each finger update becomes one batch of input events that is
//! emitted as a whole.
use crate::event_list::{
    abs_event, key_event, EventList, InputEvent, PushEvent, ABS_MT_POSITION_X, ABS_MT_POSITION_Y,
    ABS_MT_SLOT, ABS_MT_TRACKING_ID, ABS_X, ABS_Y, BTN_TOOL_DOUBLETAP, BTN_TOOL_FINGER,
    BTN_TOOL_QUADTAP, BTN_TOOL_QUINTTAP, BTN_TOOL_TRIPLETAP, BTN_TOUCH,
};
use crate::parse::{Finger, Init};
use vstd::prelude::*;

verus! {

/// Number of contact slots.
pub const SLOTS: usize = 12;

/// Coordinate value that means "this axis did not move".
pub const NO_UPDATE: i16 = -1;

/// What the touchpad remembers between updates.
pub struct FingerModel {
    /// The slot last selected on the device, `-1` before the first selection.
    pub slot: int,
    /// Whether any contact was active after the last update.
    pub touching: bool,
    /// How many contacts were active after the last update.
    pub count: int,
    /// Last tracking id of each slot.
    pub trackings: Seq<i32>,
    /// Whether each slot is in contact.
    pub active: Seq<bool>,
}

/// Number of `true` entries.
pub open spec fn count_active(a: Seq<bool>) -> int
    decreases a.len(),
{
    if a.len() == 0 {
        0
    } else {
        count_active(a.drop_last()) + if a.last() {
            1int
        } else {
            0
        }
    }
}

/// The tool identity that stands for a number of simultaneous contacts.
/// Five or more contacts are all reported as five.
pub open spec fn touch_tool(count: int) -> u16 {
    if count <= 1 {
        BTN_TOOL_FINGER
    } else if count == 2 {
        BTN_TOOL_DOUBLETAP
    } else if count == 3 {
        BTN_TOOL_TRIPLETAP
    } else if count == 4 {
        BTN_TOOL_QUADTAP
    } else {
        BTN_TOOL_QUINTTAP
    }
}

/// The error text for an update whose slot lies outside the slot range.
pub open spec fn bad_slot_message() -> Seq<char> {
    "Touch slot out of range"@
}

impl FingerModel {
    pub open spec fn wf(self) -> bool {
        &&& self.trackings.len() == SLOTS
        &&& self.active.len() == SLOTS
        &&& -1 <= self.slot < SLOTS
        &&& self.count == count_active(self.active)
        &&& self.touching == (self.count != 0)
    }

    /// Whether the update writes anything into its slot, and so needs that
    /// slot selected.
    pub open spec fn writes_slot(self, f: Finger) -> bool {
        f.x != NO_UPDATE || f.y != NO_UPDATE || self.trackings[f.slot as int] != f.tracking_id
    }

    pub open spec fn select_events(self, f: Finger) -> Seq<InputEvent> {
        if self.writes_slot(f) && self.slot != f.slot as int {
            seq![abs_event(ABS_MT_SLOT, f.slot as i32)]
        } else {
            seq![]
        }
    }

    pub open spec fn position_events(self, f: Finger) -> Seq<InputEvent> {
        (if f.x != NO_UPDATE {
            seq![abs_event(ABS_MT_POSITION_X, f.x as i32), abs_event(ABS_X, f.x as i32)]
        } else {
            seq![]
        }) + (if f.y != NO_UPDATE {
            seq![abs_event(ABS_MT_POSITION_Y, f.y as i32), abs_event(ABS_Y, f.y as i32)]
        } else {
            seq![]
        })
    }

    pub open spec fn tracking_events(self, f: Finger) -> Seq<InputEvent> {
        if self.trackings[f.slot as int] != f.tracking_id {
            seq![abs_event(ABS_MT_TRACKING_ID, f.tracking_id)]
        } else {
            seq![]
        }
    }

    /// The state after an update of an in-range slot.
    pub open spec fn next(self, f: Finger) -> FingerModel {
        let active = self.active.update(f.slot as int, f.down);
        FingerModel {
            slot: if self.writes_slot(f) {
                f.slot as int
            } else {
                self.slot
            },
            touching: count_active(active) != 0,
            count: count_active(active),
            trackings: self.trackings.update(f.slot as int, f.tracking_id),
            active,
        }
    }

    /// Tool identity transitions: the old identity off, the new one on, when
    /// the number of contacts changed.
    pub open spec fn tool_events(self, f: Finger) -> Seq<InputEvent> {
        let n = self.next(f).count;
        if n != self.count {
            (if self.count != 0 {
                seq![key_event(touch_tool(self.count), 0)]
            } else {
                seq![]
            }) + (if n != 0 {
                seq![key_event(touch_tool(n), 1)]
            } else {
                seq![]
            })
        } else {
            seq![]
        }
    }

    /// The touch button, when "any contact active" changed.
    pub open spec fn touch_events(self, f: Finger) -> Seq<InputEvent> {
        let n = self.next(f).count;
        if (n != 0) != self.touching {
            seq![key_event(BTN_TOUCH, if n != 0 { 1 } else { 0 })]
        } else {
            seq![]
        }
    }

    /// The batch that an update of an in-range slot emits.
    pub open spec fn batch(self, f: Finger) -> Seq<InputEvent> {
        self.select_events(f) + self.position_events(f) + self.tracking_events(f)
            + self.tool_events(f) + self.touch_events(f)
    }
}

/// State of the virtual touchpad of one connection.
pub struct FingerBackend {
    size: Init,
    current_slot: i32,
    current_touching: bool,
    current_count: usize,
    touch_trackings: Vec<i32>,
    touch_active: Vec<bool>,
}

impl View for FingerBackend {
    type V = FingerModel;

    closed spec fn view(&self) -> FingerModel {
        FingerModel {
            slot: self.current_slot as int,
            touching: self.current_touching,
            count: self.current_count as int,
            trackings: self.touch_trackings@,
            active: self.touch_active@,
        }
    }
}

impl FingerBackend {
    pub closed spec fn spec_size(&self) -> Init {
        self.size
    }

    pub open spec fn wf(&self) -> bool {
        self@.wf()
    }

    /// The state of a fresh touchpad: every slot released, every tracking id
    /// `-1`, no slot selected.
    pub open spec fn new_model() -> FingerModel {
        FingerModel {
            slot: -1,
            touching: false,
            count: 0,
            trackings: Seq::new(SLOTS as nat, |i: int| -1i32),
            active: Seq::new(SLOTS as nat, |i: int| false),
        }
    }

    /// A touchpad of the given size in its fresh state.
    pub fn new(init_data: &Init) -> (r: FingerBackend)
        ensures
            r.wf(),
            r.spec_size() == *init_data,
            r@ == Self::new_model(),
    {
        let mut touch_trackings: Vec<i32> = Vec::new();
        let mut touch_active: Vec<bool> = Vec::new();
        let mut i: usize = 0;
        while i < SLOTS
            invariant
                i <= SLOTS,
                touch_trackings@ == Seq::new(i as nat, |k: int| -1i32),
                touch_active@ == Seq::new(i as nat, |k: int| false),
                count_active(touch_active@) == 0,
            decreases SLOTS - i,
        {
            touch_trackings.push(-1);
            touch_active.push(false);
            i += 1;
            assert(touch_active@.drop_last() == Seq::new((i - 1) as nat, |k: int| false));
            assert(touch_trackings@ == Seq::new(i as nat, |k: int| -1i32));
            assert(touch_active@ == Seq::new(i as nat, |k: int| false));
        }
        FingerBackend {
            size: *init_data,
            current_slot: -1,
            current_touching: false,
            current_count: 0,
            touch_trackings,
            touch_active,
        }
    }

    /// The size the touchpad was made with.
    pub fn size(&self) -> (r: Init)
        ensures
            r == self.spec_size(),
    {
        self.size
    }

    /// Selects `new_slot` on the device unless it is already selected.
    pub fn update_slot(&mut self, new_slot: u8, inputs: &mut EventList)
        ensures
            final(self)@ == (FingerModel { slot: new_slot as int, ..old(self)@ }),
            final(self).spec_size() == old(self).spec_size(),
            final(inputs)@ == if old(self)@.slot == new_slot as int {
                old(inputs)@
            } else {
                old(inputs)@.push(abs_event(ABS_MT_SLOT, new_slot as i32))
            },
    {
        let slot = new_slot as i32;
        if slot != self.current_slot {
            self.current_slot = slot;
            inputs.push_abs_event(ABS_MT_SLOT, slot);
        }
    }

    fn count_contacts(&self) -> (r: usize)
        requires
            self.touch_active@.len() == SLOTS,
        ensures
            r == count_active(self.touch_active@),
            r <= SLOTS,
    {
        let mut count: usize = 0;
        let mut i: usize = 0;
        while i < SLOTS
            invariant
                i <= SLOTS,
                self.touch_active@.len() == SLOTS,
                count <= i,
                count == count_active(self.touch_active@.take(i as int)),
            decreases SLOTS - i,
        {
            assert(self.touch_active@.take(i + 1).drop_last() == self.touch_active@.take(i as int));
            if self.touch_active[i] {
                count += 1;
            }
            i += 1;
        }
        assert(self.touch_active@.take(SLOTS as int) == self.touch_active@);
        count
    }

    /// Writes the position and tracking id of an in-range update into its
    /// slot, selecting the slot first when anything is written.
    fn write_slot(&mut self, f: &Finger, inputs: &mut EventList)
        requires
            old(self).wf(),
            (f.slot as int) < SLOTS,
            old(inputs)@.len() == 0,
        ensures
            final(self).spec_size() == old(self).spec_size(),
            final(inputs)@ == old(self)@.select_events(*f) + old(self)@.position_events(*f)
                + old(self)@.tracking_events(*f),
            final(self)@ == (FingerModel {
                slot: old(self)@.next(*f).slot,
                trackings: old(self)@.next(*f).trackings,
                ..old(self)@
            }),
    {
        let ghost s0 = self@;
        let index = f.slot as usize;
        let x = f.x as i32;
        let y = f.y as i32;
        if f.x != NO_UPDATE {
            self.update_slot(f.slot, inputs);
            inputs.push_abs_event(ABS_MT_POSITION_X, x);
            inputs.push_abs_event(ABS_X, x);
        }
        if f.y != NO_UPDATE {
            self.update_slot(f.slot, inputs);
            inputs.push_abs_event(ABS_MT_POSITION_Y, y);
            inputs.push_abs_event(ABS_Y, y);
        }
        if f.x != NO_UPDATE || f.y != NO_UPDATE {
            assert(inputs@ == s0.select_events(*f) + s0.position_events(*f));
            assert(self@.slot == f.slot as int);
        } else {
            assert(inputs@ == Seq::<InputEvent>::empty());
            assert(self@ == s0);
        }
        let ghost mid = inputs@;
        if self.touch_trackings[index] != f.tracking_id {
            self.update_slot(f.slot, inputs);
            self.touch_trackings.set(index, f.tracking_id);
            inputs.push_abs_event(ABS_MT_TRACKING_ID, f.tracking_id);
        } else {
            assert(s0.trackings.update(f.slot as int, f.tracking_id) == s0.trackings);
        }
        assert(inputs@ == s0.select_events(*f) + s0.position_events(*f) + s0.tracking_events(*f));
    }

    /// Records the contact state of the update's slot and reports the
    /// resulting tool identity and touch transitions.
    fn write_contact(&mut self, f: &Finger, inputs: &mut EventList)
        requires
            (f.slot as int) < SLOTS,
            old(self)@.trackings.len() == SLOTS,
            old(self)@.active.len() == SLOTS,
            -1 <= old(self)@.slot < SLOTS,
            old(self)@.count == count_active(old(self)@.active),
            old(self)@.touching == (old(self)@.count != 0),
        ensures
            final(self).spec_size() == old(self).spec_size(),
            final(inputs)@ == old(inputs)@ + old(self)@.tool_events(*f) + old(self)@.touch_events(
                *f,
            ),
            final(self)@ == (FingerModel {
                active: old(self)@.next(*f).active,
                count: old(self)@.next(*f).count,
                touching: old(self)@.next(*f).touching,
                ..old(self)@
            }),
    {
        let ghost s0 = self@;
        let ghost i0 = inputs@;
        self.touch_active.set(f.slot as usize, f.down);
        let count = self.count_contacts();
        if self.current_count != count {
            if self.current_count != 0 {
                inputs.push_key(tool_for_count(self.current_count), 0);
            }
            if count != 0 {
                inputs.push_key(tool_for_count(count), 1);
            }
        }
        self.current_count = count;
        assert(inputs@ == i0 + s0.tool_events(*f));
        let ghost i1 = inputs@;
        let touching = count != 0;
        if self.current_touching != touching {
            self.current_touching = touching;
            inputs.push_key(BTN_TOUCH, if touching { 1 } else { 0 });
        }
        assert(inputs@ == i1 + s0.touch_events(*f));
    }

    /// Applies one finger update and returns the batch to emit for it. An
    /// update whose slot lies outside the slot range is refused and changes
    /// nothing.
    pub fn process(&mut self, touch_data: &Finger) -> (r: Result<EventList, String>)
        requires
            old(self).wf(),
        ensures
            final(self).wf(),
            final(self).spec_size() == old(self).spec_size(),
            (touch_data.slot as int) < SLOTS ==> r is Ok && r->Ok_0@ == old(self)@.batch(
                *touch_data,
            ) && final(self)@ == old(self)@.next(*touch_data),
            (touch_data.slot as int) >= SLOTS ==> r is Err && r->Err_0@ == bad_slot_message()
                && final(self)@ == old(self)@,
    {
        if touch_data.slot as usize >= SLOTS {
            return Err(String::from_str("Touch slot out of range"));
        }
        let ghost s0 = self@;
        let mut inputs: EventList = Vec::new();
        self.write_slot(touch_data, &mut inputs);
        self.write_contact(touch_data, &mut inputs);
        assert(self@ == s0.next(*touch_data));
        Ok(inputs)
    }
}

fn tool_for_count(count: usize) -> (r: u16)
    ensures
        r == touch_tool(count as int),
{
    if count <= 1 {
        BTN_TOOL_FINGER
    } else if count == 2 {
        BTN_TOOL_DOUBLETAP
    } else if count == 3 {
        BTN_TOOL_TRIPLETAP
    } else if count == 4 {
        BTN_TOOL_QUADTAP
    } else {
        BTN_TOOL_QUINTTAP
    }
}

proof fn lemma_count_update(a: Seq<bool>, i: int, v: bool)
    requires
        0 <= i < a.len(),
    ensures
        count_active(a.update(i, v)) == count_active(a) - (if a[i] {
            1int
        } else {
            0
        }) + (if v {
            1int
        } else {
            0
        }),
    decreases a.len(),
{
    let b = a.update(i, v);
    if i == a.len() - 1 {
        assert(b.drop_last() == a.drop_last());
    } else {
        lemma_count_update(a.drop_last(), i, v);
        assert(b.drop_last() == a.drop_last().update(i, v));
    }
}

proof fn lemma_count_zero(a: Seq<bool>, i: int)
    requires
        count_active(a) == 0,
        0 <= i < a.len(),
    ensures
        !a[i],
    decreases a.len(),
{
    lemma_count_nonneg(a.drop_last());
    if i < a.len() - 1 {
        lemma_count_zero(a.drop_last(), i);
    }
}

proof fn lemma_count_nonneg(a: Seq<bool>)
    ensures
        count_active(a) >= 0,
    decreases a.len(),
{
    if a.len() > 0 {
        lemma_count_nonneg(a.drop_last());
    }
}

/// Pressing slots 0, 1 and 2 in turn on an idle touchpad and then releasing
/// them in reverse order walks the contact count through 1, 2, 3, 2, 1, 0:
/// each update retracts the identity of the old count and asserts that of the
/// new one, once each, and the last one asserts nothing.
pub proof fn lemma_touch_identity_sequence(s0: FingerModel, f: Seq<Finger>)
    requires
        s0.wf(),
        s0.count == 0,
        f.len() == 6,
        f[0].slot == 0 && f[0].down,
        f[1].slot == 1 && f[1].down,
        f[2].slot == 2 && f[2].down,
        f[3].slot == 2 && !f[3].down,
        f[4].slot == 1 && !f[4].down,
        f[5].slot == 0 && !f[5].down,
    ensures
        ({
            let s1 = s0.next(f[0]);
            let s2 = s1.next(f[1]);
            let s3 = s2.next(f[2]);
            let s4 = s3.next(f[3]);
            let s5 = s4.next(f[4]);
            &&& s0.tool_events(f[0]) == seq![key_event(BTN_TOOL_FINGER, 1)]
            &&& s1.tool_events(f[1]) == seq![
                key_event(BTN_TOOL_FINGER, 0),
                key_event(BTN_TOOL_DOUBLETAP, 1),
            ]
            &&& s2.tool_events(f[2]) == seq![
                key_event(BTN_TOOL_DOUBLETAP, 0),
                key_event(BTN_TOOL_TRIPLETAP, 1),
            ]
            &&& s3.tool_events(f[3]) == seq![
                key_event(BTN_TOOL_TRIPLETAP, 0),
                key_event(BTN_TOOL_DOUBLETAP, 1),
            ]
            &&& s4.tool_events(f[4]) == seq![
                key_event(BTN_TOOL_DOUBLETAP, 0),
                key_event(BTN_TOOL_FINGER, 1),
            ]
            &&& s5.tool_events(f[5]) == seq![key_event(BTN_TOOL_FINGER, 0)]
            &&& s5.next(f[5]).count == 0
        }),
{
    let s1 = s0.next(f[0]);
    let s2 = s1.next(f[1]);
    let s3 = s2.next(f[2]);
    let s4 = s3.next(f[3]);
    let s5 = s4.next(f[4]);
    lemma_count_zero(s0.active, 0);
    lemma_count_zero(s0.active, 1);
    lemma_count_zero(s0.active, 2);
    lemma_count_update(s0.active, 0, true);
    lemma_count_update(s1.active, 1, true);
    lemma_count_update(s2.active, 2, true);
    lemma_count_update(s3.active, 2, false);
    lemma_count_update(s4.active, 1, false);
    lemma_count_update(s5.active, 0, false);
    assert(s1.count == 1);
    assert(s2.count == 2);
    assert(s3.count == 3);
    assert(s4.count == 2);
    assert(s5.count == 1);
}

/// Two consecutive updates of one slot that only change its tracking id
/// select the slot once: the second update emits no slot selection.
pub proof fn lemma_no_repeated_slot_select(s0: FingerModel, f1: Finger, f2: Finger)
    requires
        s0.wf(),
        (f1.slot as int) < SLOTS,
        f2.slot == f1.slot,
        f1.x == NO_UPDATE && f1.y == NO_UPDATE,
        f2.x == NO_UPDATE && f2.y == NO_UPDATE,
        s0.trackings[f1.slot as int] != f1.tracking_id,
    ensures
        s0.next(f1).slot == f1.slot as int,
        s0.next(f1).select_events(f2) == Seq::<InputEvent>::empty(),
{
}

} // verus!
