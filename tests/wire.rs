use pendroid::parse::{Event, Finger, Init, Stylus};

fn stylus_bytes() -> Vec<u8> {
    vec![
        0x01, 0b0000_0101, 0x00, 0x10, 0x38, 0xff, 0x10, 0x00, 0x34, 0x12, 0xff, 0xff, 0x01,
        0x00, 0x00, 0x80,
    ]
}

#[test]
fn decodes_init() {
    let e = Event::parse(&[0x00, 0x38, 0x04, 0x80, 0x07]).unwrap();
    assert_eq!(e, Event::Init(Init { width: 1080, height: 1920 }));
}

#[test]
fn decodes_stylus() {
    let e = Event::parse(&stylus_bytes()).unwrap();
    assert_eq!(
        e,
        Event::Stylus(Stylus {
            down: true,
            button: false,
            hover: true,
            pressure: 4096,
            tilt_x: -200,
            tilt_y: 16,
            x: 0x1234,
            y: -1,
            timestamp: i32::MIN + 1,
        })
    );
}

#[test]
fn decodes_finger() {
    let bytes = [0x02, 0x03, 0x05, 0x02, 0xfe, 0xff, 0xff, 0xff, 0x64, 0x00, 0xff, 0xff];
    let e = Event::parse(&bytes).unwrap();
    assert_eq!(
        e,
        Event::Finger(Finger { slot: 3, down: true, total_down: 2, tracking_id: -2, x: 100, y: -1 })
    );
}

#[test]
fn ignores_trailing_bytes() {
    let e = Event::parse(&[0x00, 0x01, 0x00, 0x02, 0x00, 0xaa, 0xbb]).unwrap();
    assert_eq!(e, Event::Init(Init { width: 1, height: 2 }));
}

#[test]
fn every_truncated_prefix_fails() {
    let messages: Vec<Vec<u8>> = vec![
        vec![0x00, 0x38, 0x04, 0x80, 0x07],
        stylus_bytes(),
        vec![0x02, 0x03, 0x01, 0x02, 0x05, 0x00, 0x00, 0x00, 0x64, 0x00, 0xff, 0xff],
    ];
    for m in messages {
        assert!(Event::parse(&m).is_ok());
        for n in 0..m.len() {
            let err = Event::parse(&m[..n]).unwrap_err();
            assert_eq!(err, "Unexpected end of event data");
        }
    }
}

#[test]
fn unknown_tag_fails() {
    let err = Event::parse(&[0x07, 0, 0, 0, 0, 0, 0, 0, 0, 0, 0, 0, 0, 0, 0, 0]).unwrap_err();
    assert_eq!(err, "Got unexpected event type");
    assert!(Event::parse(&[0xff]).is_err());
}

#[test]
fn empty_message_fails() {
    assert!(Event::parse(&[]).is_err());
}

#[test]
fn field_readers_start_at_offset() {
    let bytes = [0xaa, 0xbb, 0x10, 0x00, 0x20, 0x00];
    assert_eq!(Init::new(&bytes, 2).unwrap(), Init { width: 16, height: 32 });
    assert!(Init::new(&bytes, 3).is_err());
    assert!(Init::new(&bytes, 100).is_err());
    assert!(Finger::new(&bytes, 0).is_err());
    assert!(Stylus::new(&bytes, 0).is_err());
}

#[test]
fn decodes_extreme_values() {
    let e = Event::parse(&[0x00, 0xff, 0xff, 0x00, 0x00]).unwrap();
    assert_eq!(e, Event::Init(Init { width: 65535, height: 0 }));
    let bytes = [0x02, 0xff, 0x00, 0xff, 0xff, 0xff, 0xff, 0x7f, 0x00, 0x80, 0xff, 0x7f];
    let e = Event::parse(&bytes).unwrap();
    assert_eq!(
        e,
        Event::Finger(Finger {
            slot: 255,
            down: false,
            total_down: 255,
            tracking_id: i32::MAX,
            x: i16::MIN,
            y: i16::MAX,
        })
    );
}

#[test]
fn stylus_flag_bits_are_independent() {
    let mut bytes = stylus_bytes();
    bytes[1] = 0b0000_1010;
    match Event::parse(&bytes).unwrap() {
        Event::Stylus(s) => {
            assert!(!s.down);
            assert!(s.button);
            assert!(!s.hover);
        }
        _ => panic!("expected a stylus sample"),
    }
}
