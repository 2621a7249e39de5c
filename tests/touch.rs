use pendroid::event_list::{
    InputEvent, ABS_MT_POSITION_X, ABS_MT_POSITION_Y, ABS_MT_SLOT, ABS_MT_TRACKING_ID, ABS_X,
    ABS_Y, BTN_TOOL_DOUBLETAP, BTN_TOOL_FINGER, BTN_TOOL_QUINTTAP, BTN_TOOL_TRIPLETAP, BTN_TOUCH,
    EV_ABS, EV_KEY,
};
use pendroid::finger::FingerBackend;
use pendroid::parse::{Finger, Init};

fn abs(code: u16, value: i32) -> InputEvent {
    InputEvent { kind: EV_ABS, code, value }
}

fn key(code: u16, value: i32) -> InputEvent {
    InputEvent { kind: EV_KEY, code, value }
}

fn finger(slot: u8, down: bool, tracking_id: i32, x: i16, y: i16) -> Finger {
    Finger { slot, down, total_down: 0, tracking_id, x, y }
}

fn pad() -> FingerBackend {
    FingerBackend::new(&Init { width: 1000, height: 2000 })
}

fn tool_events(batch: &[InputEvent]) -> Vec<InputEvent> {
    batch
        .iter()
        .copied()
        .filter(|e| e.kind == EV_KEY && e.code != BTN_TOUCH)
        .collect()
}

#[test]
fn first_contact_batch() {
    let mut b = pad();
    let batch = b.process(&finger(0, true, 7, 10, 20)).unwrap();
    assert_eq!(
        batch,
        vec![
            abs(ABS_MT_SLOT, 0),
            abs(ABS_MT_POSITION_X, 10),
            abs(ABS_X, 10),
            abs(ABS_MT_POSITION_Y, 20),
            abs(ABS_Y, 20),
            abs(ABS_MT_TRACKING_ID, 7),
            key(BTN_TOOL_FINGER, 1),
            key(BTN_TOUCH, 1),
        ]
    );
}

#[test]
fn identity_follows_contact_count() {
    let mut b = pad();
    let updates = [
        finger(0, true, 1, 5, 5),
        finger(1, true, 2, 6, 6),
        finger(2, true, 3, 7, 7),
        finger(2, false, -1, -1, -1),
        finger(1, false, -1, -1, -1),
        finger(0, false, -1, -1, -1),
    ];
    let expected = vec![
        vec![key(BTN_TOOL_FINGER, 1)],
        vec![key(BTN_TOOL_FINGER, 0), key(BTN_TOOL_DOUBLETAP, 1)],
        vec![key(BTN_TOOL_DOUBLETAP, 0), key(BTN_TOOL_TRIPLETAP, 1)],
        vec![key(BTN_TOOL_TRIPLETAP, 0), key(BTN_TOOL_DOUBLETAP, 1)],
        vec![key(BTN_TOOL_DOUBLETAP, 0), key(BTN_TOOL_FINGER, 1)],
        vec![key(BTN_TOOL_FINGER, 0)],
    ];
    for (u, want) in updates.iter().zip(expected) {
        let batch = b.process(u).unwrap();
        assert_eq!(tool_events(&batch), want);
    }
}

#[test]
fn touch_button_on_first_and_off_after_last() {
    let mut b = pad();
    let first = b.process(&finger(4, true, 1, 1, 1)).unwrap();
    assert_eq!(*first.last().unwrap(), key(BTN_TOUCH, 1));
    let release = b.process(&finger(4, false, -1, -1, -1)).unwrap();
    assert_eq!(
        release,
        vec![
            abs(ABS_MT_TRACKING_ID, -1),
            key(BTN_TOOL_FINGER, 0),
            key(BTN_TOUCH, 0),
        ]
    );
}

#[test]
fn slot_selected_once_for_same_slot() {
    let mut b = pad();
    let first = b.process(&finger(3, false, 10, -1, -1)).unwrap();
    assert_eq!(first, vec![abs(ABS_MT_SLOT, 3), abs(ABS_MT_TRACKING_ID, 10)]);
    let second = b.process(&finger(3, false, 11, -1, -1)).unwrap();
    assert_eq!(second, vec![abs(ABS_MT_TRACKING_ID, 11)]);
}

#[test]
fn unchanged_update_emits_nothing() {
    let mut b = pad();
    assert_eq!(b.process(&finger(2, false, -1, -1, -1)).unwrap(), vec![]);
}

#[test]
fn out_of_range_slot_is_refused() {
    let mut b = pad();
    let err = b.process(&finger(12, true, 1, 1, 1)).unwrap_err();
    assert_eq!(err, "Touch slot out of range");
    let batch = b.process(&finger(0, true, 1, -1, -1)).unwrap();
    assert_eq!(batch[0], abs(ABS_MT_SLOT, 0));
}

#[test]
fn six_contacts_stay_quint() {
    let mut b = pad();
    for s in 0..5u8 {
        b.process(&finger(s, true, s as i32, -1, -1)).unwrap();
    }
    let batch = b.process(&finger(5, true, 5, -1, -1)).unwrap();
    assert_eq!(
        tool_events(&batch),
        vec![key(BTN_TOOL_QUINTTAP, 0), key(BTN_TOOL_QUINTTAP, 1)]
    );
}

#[test]
fn update_slot_skips_current() {
    let mut b = pad();
    let mut inputs = Vec::new();
    b.update_slot(5, &mut inputs);
    b.update_slot(5, &mut inputs);
    assert_eq!(inputs, vec![abs(ABS_MT_SLOT, 5)]);
    assert_eq!(b.size(), Init { width: 1000, height: 2000 });
}
