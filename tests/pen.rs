use pendroid::event_list::{
    InputEvent, ABS_PRESSURE, ABS_TILT_X, ABS_TILT_Y, ABS_X, ABS_Y, BTN_STYLUS, BTN_STYLUS2,
    BTN_TOOL_PENCIL, BTN_TOOL_RUBBER, EV_ABS, EV_KEY, EV_MSC, MSC_TIMESTAMP,
};
use pendroid::parse::{Init, Stylus};
use pendroid::stylus::StylusBackend;

fn key(code: u16, value: i32) -> InputEvent {
    InputEvent { kind: EV_KEY, code, value }
}

fn sample(hover: bool, down: bool, button: bool) -> Stylus {
    Stylus { down, button, hover, pressure: 100, tilt_x: 1, tilt_y: 2, x: 30, y: 40, timestamp: 9 }
}

fn keys(batch: &[InputEvent]) -> Vec<InputEvent> {
    batch.iter().copied().filter(|e| e.kind == EV_KEY).collect()
}

fn pen() -> StylusBackend {
    StylusBackend::new(&Init { width: 100, height: 200 })
}

#[test]
fn telemetry_and_timestamp_every_sample() {
    let mut p = pen();
    let s = Stylus { timestamp: -77, ..sample(false, false, false) };
    let out = p.process(&s);
    assert_eq!(out.len(), 1);
    assert_eq!(
        out[0],
        vec![
            InputEvent { kind: EV_ABS, code: ABS_X, value: 30 },
            InputEvent { kind: EV_ABS, code: ABS_Y, value: 40 },
            InputEvent { kind: EV_ABS, code: ABS_PRESSURE, value: 100 },
            InputEvent { kind: EV_ABS, code: ABS_TILT_X, value: 1 },
            InputEvent { kind: EV_ABS, code: ABS_TILT_Y, value: 2 },
            InputEvent { kind: EV_MSC, code: MSC_TIMESTAMP, value: -77 },
        ]
    );
}

#[test]
fn pencil_stroke() {
    let mut p = pen();
    let seq = [
        sample(false, false, false),
        sample(true, false, false),
        sample(true, true, false),
        sample(true, false, false),
        sample(false, false, false),
    ];
    let mut all = Vec::new();
    for s in seq.iter() {
        let out = p.process(s);
        assert_eq!(out.len(), 1);
        all.extend(keys(&out[0]));
    }
    assert_eq!(
        all,
        vec![
            key(BTN_TOOL_PENCIL, 1),
            key(BTN_STYLUS, 1),
            key(BTN_STYLUS, 0),
            key(BTN_TOOL_PENCIL, 0),
        ]
    );
}

#[test]
fn eraser_to_pencil_swap_is_two_emissions() {
    let mut p = pen();
    let out = p.process(&sample(true, false, true));
    assert_eq!(keys(&out[0]), vec![key(BTN_TOOL_RUBBER, 1)]);
    let out = p.process(&sample(true, false, false));
    assert_eq!(out.len(), 2);
    assert_eq!(out[0], vec![key(BTN_TOOL_RUBBER, 0)]);
    assert_eq!(keys(&out[1]), vec![key(BTN_TOOL_PENCIL, 1)]);
}

#[test]
fn eraser_contact_uses_second_code() {
    let mut p = pen();
    p.process(&sample(true, false, true));
    let out = p.process(&sample(true, true, true));
    assert_eq!(keys(&out[0]), vec![key(BTN_STYLUS2, 1)]);
    let out = p.process(&sample(false, false, true));
    assert_eq!(keys(&out[0]), vec![key(BTN_TOOL_RUBBER, 0), key(BTN_STYLUS2, 0)]);
}

#[test]
fn button_ignored_while_down() {
    let mut p = pen();
    p.process(&sample(true, false, false));
    p.process(&sample(true, true, false));
    let out = p.process(&sample(true, true, true));
    assert_eq!(out.len(), 1);
    assert_eq!(keys(&out[0]), vec![]);
}
