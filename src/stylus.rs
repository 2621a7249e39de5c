//! The virtual pen: position, pressure and tilt are reported on every sample,
//! while tool identity (pencil or eraser) and contact are edge-triggered. The
//! device never sees both identities asserted at once.
use crate::event_list::{
    abs_event, EV_KEY, key_event, msc_event, EventList, InputEvent, PushEvent, ABS_PRESSURE, ABS_TILT_X,
    ABS_TILT_Y, ABS_X, ABS_Y, BTN_STYLUS, BTN_STYLUS2, BTN_TOOL_PENCIL, BTN_TOOL_RUBBER,
    MSC_TIMESTAMP,
};
use crate::parse::{Init, Stylus};
use vstd::prelude::*;

verus! {

/// What the pen remembers between samples.
pub struct StylusModel {
    pub down: bool,
    pub hover: bool,
    /// Whether the eraser, rather than the pencil, is the current identity.
    pub button: bool,
}

/// The identity that the button state selects.
pub open spec fn tool_of(button: bool) -> u16 {
    if button {
        BTN_TOOL_RUBBER
    } else {
        BTN_TOOL_PENCIL
    }
}

/// The contact code that the identity selects.
pub open spec fn contact_of(button: bool) -> u16 {
    if button {
        BTN_STYLUS2
    } else {
        BTN_STYLUS
    }
}

impl StylusModel {
    /// The continuous telemetry of a sample.
    pub open spec fn axis_events(s: Stylus) -> Seq<InputEvent> {
        seq![
            abs_event(ABS_X, s.x as i32),
            abs_event(ABS_Y, s.y as i32),
            abs_event(ABS_PRESSURE, s.pressure as i32),
            abs_event(ABS_TILT_X, s.tilt_x as i32),
            abs_event(ABS_TILT_Y, s.tilt_y as i32),
        ]
    }

    /// Whether the sample makes the pen assert an identity: hover or button
    /// changed, and the pen hovers without touching.
    pub open spec fn tool_change(self, s: Stylus) -> bool {
        (s.hover != self.hover || s.button != self.button) && s.hover && !s.down
    }

    /// Whether the identity is swapped while the pen keeps hovering.
    pub open spec fn swap(self, s: Stylus) -> bool {
        self.tool_change(s) && s.hover == self.hover
    }

    /// The separate emission that retracts the old identity before a swap.
    pub open spec fn retract_events(self, s: Stylus) -> Seq<InputEvent> {
        seq![key_event(tool_of(!s.button), 0)]
    }

    pub open spec fn next(self, s: Stylus) -> StylusModel {
        StylusModel {
            down: s.down,
            hover: s.hover,
            button: if self.tool_change(s) {
                s.button
            } else {
                self.button
            },
        }
    }

    /// Identity and contact transitions of the main batch, in order.
    pub open spec fn key_events(self, s: Stylus) -> Seq<InputEvent> {
        let b = self.next(s).button;
        (if self.tool_change(s) {
            seq![key_event(tool_of(s.button), 1)]
        } else {
            seq![]
        }) + (if s.hover != self.hover && !s.hover {
            seq![key_event(tool_of(b), 0)]
        } else {
            seq![]
        }) + (if s.down != self.down {
            seq![key_event(contact_of(b), if s.down { 1 } else { 0 })]
        } else {
            seq![]
        })
    }

    /// The main batch of a sample.
    pub open spec fn batch(self, s: Stylus) -> Seq<InputEvent> {
        Self::axis_events(s) + self.key_events(s) + seq![msc_event(MSC_TIMESTAMP, s.timestamp)]
    }

    /// Everything a sample emits, one batch per emission, in order.
    pub open spec fn emissions(self, s: Stylus) -> Seq<Seq<InputEvent>> {
        if self.swap(s) {
            seq![self.retract_events(s), self.batch(s)]
        } else {
            seq![self.batch(s)]
        }
    }
}

/// State of the virtual pen of one connection.
pub struct StylusBackend {
    size: Init,
    current_down: bool,
    current_hover: bool,
    current_button: bool,
}

impl View for StylusBackend {
    type V = StylusModel;

    closed spec fn view(&self) -> StylusModel {
        StylusModel {
            down: self.current_down,
            hover: self.current_hover,
            button: self.current_button,
        }
    }
}

impl StylusBackend {
    pub closed spec fn spec_size(&self) -> Init {
        self.size
    }

    /// The state of a fresh pen: neither down, hovering, nor an eraser.
    pub open spec fn new_model() -> StylusModel {
        StylusModel { down: false, hover: false, button: false }
    }

    /// A pen of the given size in its fresh state.
    pub fn new(init_data: &Init) -> (r: StylusBackend)
        ensures
            r.spec_size() == *init_data,
            r@ == Self::new_model(),
    {
        StylusBackend {
            size: *init_data,
            current_down: false,
            current_hover: false,
            current_button: false,
        }
    }

    /// The size the pen was made with.
    pub fn size(&self) -> (r: Init)
        ensures
            r == self.spec_size(),
    {
        self.size
    }

    /// Applies one sample and returns what to emit, one batch per emission,
    /// in order.
    pub fn process(&mut self, pen_data: &Stylus) -> (r: Vec<EventList>)
        ensures
            r@.map_values(|b: EventList| b@) == old(self)@.emissions(*pen_data),
            final(self)@ == old(self)@.next(*pen_data),
            final(self).spec_size() == old(self).spec_size(),
    {
        let ghost s0 = self@;
        let mut out: Vec<EventList> = Vec::new();
        let hover_changed = pen_data.hover != self.current_hover;
        let button_changed = pen_data.button != self.current_button;
        let mut inputs: EventList = Vec::new();

        inputs.push_abs_event(ABS_X, pen_data.x as i32);
        inputs.push_abs_event(ABS_Y, pen_data.y as i32);
        inputs.push_abs_event(ABS_PRESSURE, pen_data.pressure as i32);
        inputs.push_abs_event(ABS_TILT_X, pen_data.tilt_x as i32);
        inputs.push_abs_event(ABS_TILT_Y, pen_data.tilt_y as i32);
        assert(inputs@ == StylusModel::axis_events(*pen_data));

        if (hover_changed || button_changed) && pen_data.hover && !pen_data.down {
            if !hover_changed {
                let mut retract: EventList = Vec::new();
                retract.push_key(if pen_data.button { BTN_TOOL_PENCIL } else { BTN_TOOL_RUBBER }, 0);
                assert(retract@ == s0.retract_events(*pen_data));
                out.push(retract);
            }
            inputs.push_key(if pen_data.button { BTN_TOOL_RUBBER } else { BTN_TOOL_PENCIL }, 1);
            self.current_button = pen_data.button;
        }

        if hover_changed && !pen_data.hover {
            inputs.push_key(if self.current_button { BTN_TOOL_RUBBER } else { BTN_TOOL_PENCIL }, 0);
        }
        self.current_hover = pen_data.hover;

        if pen_data.down != self.current_down {
            inputs.push_key(
                if self.current_button { BTN_STYLUS2 } else { BTN_STYLUS },
                if pen_data.down { 1 } else { 0 },
            );
            self.current_down = pen_data.down;
        }
        inputs.push_msc(MSC_TIMESTAMP, pen_data.timestamp);
        assert(inputs@ == s0.batch(*pen_data));
        out.push(inputs);
        assert(out@.map_values(|b: EventList| b@) =~= s0.emissions(*pen_data));
        out
    }
}

/// The identities a device holds asserted after it has received `ev`,
/// starting from `d`.
pub open spec fn apply_tools(d: Set<u16>, ev: Seq<InputEvent>) -> Set<u16>
    decreases ev.len(),
{
    if ev.len() == 0 {
        d
    } else {
        let e = ev.last();
        let d0 = apply_tools(d, ev.drop_last());
        if e.kind == EV_KEY && (e.code == BTN_TOOL_PENCIL || e.code == BTN_TOOL_RUBBER) {
            if e.value != 0 {
                d0.insert(e.code)
            } else {
                d0.remove(e.code)
            }
        } else {
            d0
        }
    }
}

/// The identities a device holds agree with the pen's state: at most the
/// current identity while hovering, none otherwise.
pub open spec fn tools_agree(m: StylusModel, d: Set<u16>) -> bool {
    &&& m.hover ==> d.subset_of(set![tool_of(m.button)])
    &&& !m.hover ==> d == Set::<u16>::empty()
}

proof fn lemma_apply_concat(d: Set<u16>, a: Seq<InputEvent>, b: Seq<InputEvent>)
    ensures
        apply_tools(d, a + b) == apply_tools(apply_tools(d, a), b),
    decreases b.len(),
{
    if b.len() == 0 {
        assert(a + b == a);
    } else {
        lemma_apply_concat(d, a, b.drop_last());
        assert((a + b).drop_last() == a + b.drop_last());
    }
}

proof fn lemma_apply_one(d: Set<u16>, e: InputEvent)
    ensures
        apply_tools(d, seq![e]) == if e.kind == EV_KEY && (e.code == BTN_TOOL_PENCIL || e.code
            == BTN_TOOL_RUBBER) {
            if e.value != 0 {
                d.insert(e.code)
            } else {
                d.remove(e.code)
            }
        } else {
            d
        },
{
    assert(seq![e].drop_last() == Seq::<InputEvent>::empty());
    assert(seq![e].last() == e);
    assert(apply_tools(d, Seq::<InputEvent>::empty()) == d);
}

proof fn lemma_apply_axes(d: Set<u16>, s: Stylus)
    ensures
        apply_tools(d, StylusModel::axis_events(s)) == d,
{
    let ev = StylusModel::axis_events(s);
    assert(ev == seq![ev[0]] + seq![ev[1]] + seq![ev[2]] + seq![ev[3]] + seq![ev[4]]);
    lemma_apply_concat(d, seq![ev[0]] + seq![ev[1]] + seq![ev[2]] + seq![ev[3]], seq![ev[4]]);
    lemma_apply_concat(d, seq![ev[0]] + seq![ev[1]] + seq![ev[2]], seq![ev[3]]);
    lemma_apply_concat(d, seq![ev[0]] + seq![ev[1]], seq![ev[2]]);
    lemma_apply_concat(d, seq![ev[0]], seq![ev[1]]);
    lemma_apply_one(d, ev[0]);
    lemma_apply_one(d, ev[1]);
    lemma_apply_one(d, ev[2]);
    lemma_apply_one(d, ev[3]);
    lemma_apply_one(d, ev[4]);
}

/// Whatever a sample brings, the device never holds pencil and eraser at
/// once: a swap first retracts the old identity in its own emission, so the
/// device holds none in between, and after the main batch it holds at most
/// the pen's new identity.
pub proof fn lemma_stylus_identity_exclusive(m: StylusModel, d: Set<u16>, s: Stylus)
    requires
        tools_agree(m, d),
    ensures
        m.swap(s) ==> apply_tools(d, m.retract_events(s)) == Set::<u16>::empty(),
        tools_agree(
            m.next(s),
            apply_tools(
                if m.swap(s) {
                    apply_tools(d, m.retract_events(s))
                } else {
                    d
                },
                m.batch(s),
            ),
        ),
        d.len() <= 1,
{
    let d1 = if m.swap(s) {
        apply_tools(d, m.retract_events(s))
    } else {
        d
    };
    if m.hover {
        vstd::set_lib::lemma_len_subset(d, set![tool_of(m.button)]);
    }
    if m.swap(s) {
        lemma_apply_one(d, m.retract_events(s)[0]);
        assert(m.retract_events(s) == seq![m.retract_events(s)[0]]);
        assert(d1 =~= Set::<u16>::empty());
    }
    let n = m.next(s);
    let p1 = if m.tool_change(s) {
        seq![key_event(tool_of(s.button), 1)]
    } else {
        seq![]
    };
    let p2 = if s.hover != m.hover && !s.hover {
        seq![key_event(tool_of(n.button), 0)]
    } else {
        seq![]
    };
    let p3 = if s.down != m.down {
        seq![key_event(contact_of(n.button), if s.down { 1 } else { 0 })]
    } else {
        seq![]
    };
    let ts = seq![msc_event(MSC_TIMESTAMP, s.timestamp)];
    let ax = StylusModel::axis_events(s);
    assert(m.batch(s) == ax + p1 + p2 + p3 + ts);
    lemma_apply_concat(d1, ax + p1 + p2 + p3, ts);
    lemma_apply_concat(d1, ax + p1 + p2, p3);
    lemma_apply_concat(d1, ax + p1, p2);
    lemma_apply_concat(d1, ax, p1);
    lemma_apply_axes(d1, s);
    let e1 = apply_tools(d1, p1);
    if m.tool_change(s) {
        lemma_apply_one(d1, p1[0]);
        assert(p1 == seq![p1[0]]);
        if !m.swap(s) {
            assert(d1 =~= Set::<u16>::empty());
        }
        assert(e1 =~= set![tool_of(s.button)]);
    } else {
        assert(apply_tools(d1, p1) == d1);
    }
    let e2 = apply_tools(e1, p2);
    if s.hover != m.hover && !s.hover {
        lemma_apply_one(e1, p2[0]);
        assert(p2 == seq![p2[0]]);
        assert(e2 =~= Set::<u16>::empty());
    } else {
        assert(e2 == e1);
    }
    let e3 = apply_tools(e2, p3);
    if s.down != m.down {
        lemma_apply_one(e2, p3[0]);
        assert(p3 == seq![p3[0]]);
    }
    assert(e3 == e2);
    lemma_apply_one(e3, ts[0]);
    assert(ts == seq![ts[0]]);
}

/// Hovering in as a pencil, touching down, lifting and hovering out emits
/// pencil on, contact on, contact off and pencil off, in that order, each in
/// the one batch of its sample, and never the eraser.
pub proof fn lemma_stylus_pencil_stroke(s: Seq<Stylus>)
    requires
        s.len() == 5,
        !s[0].hover && !s[0].down && !s[0].button,
        s[1].hover && !s[1].down && !s[1].button,
        s[2].hover && s[2].down && !s[2].button,
        s[3].hover && !s[3].down && !s[3].button,
        !s[4].hover && !s[4].down && !s[4].button,
    ensures
        ({
            let m0 = StylusModel { down: false, hover: false, button: false };
            let m1 = m0.next(s[0]);
            let m2 = m1.next(s[1]);
            let m3 = m2.next(s[2]);
            let m4 = m3.next(s[3]);
            &&& m0.emissions(s[0]).len() == 1 && m1.emissions(s[1]).len() == 1
            &&& m2.emissions(s[2]).len() == 1 && m3.emissions(s[3]).len() == 1
            &&& m4.emissions(s[4]).len() == 1
            &&& m0.key_events(s[0]) + m1.key_events(s[1]) + m2.key_events(s[2]) + m3.key_events(
                s[3],
            ) + m4.key_events(s[4]) == seq![
                key_event(BTN_TOOL_PENCIL, 1),
                key_event(BTN_STYLUS, 1),
                key_event(BTN_STYLUS, 0),
                key_event(BTN_TOOL_PENCIL, 0),
            ]
        }),
{
    let m0 = StylusModel { down: false, hover: false, button: false };
    let m1 = m0.next(s[0]);
    let m2 = m1.next(s[1]);
    let m3 = m2.next(s[2]);
    let m4 = m3.next(s[3]);
    assert(m0.key_events(s[0]) == Seq::<InputEvent>::empty());
    assert(m1.key_events(s[1]) == seq![key_event(BTN_TOOL_PENCIL, 1)]);
    assert(m2.key_events(s[2]) == seq![key_event(BTN_STYLUS, 1)]);
    assert(m3.key_events(s[3]) == seq![key_event(BTN_STYLUS, 0)]);
    assert(m4.key_events(s[4]) == seq![key_event(BTN_TOOL_PENCIL, 0)]);
    assert(m0.key_events(s[0]) + m1.key_events(s[1]) + m2.key_events(s[2]) + m3.key_events(s[3])
        + m4.key_events(s[4]) =~= seq![
        key_event(BTN_TOOL_PENCIL, 1),
        key_event(BTN_STYLUS, 1),
        key_event(BTN_STYLUS, 0),
        key_event(BTN_TOOL_PENCIL, 0),
    ]);
}

/// Flipping the button while the pen keeps hovering above the surface first
/// emits the old identity's release on its own, then the main batch that
/// asserts the new identity.
pub proof fn lemma_stylus_swap_while_hovering(m: StylusModel, s: Stylus)
    requires
        m.hover && s.hover,
        !s.down,
        s.button != m.button,
    ensures
        m.emissions(s) == seq![seq![key_event(tool_of(m.button), 0)], m.batch(s)],
        m.key_events(s)[0] == key_event(tool_of(s.button), 1),
        m.next(s).button == s.button,
{
}

} // verus!
