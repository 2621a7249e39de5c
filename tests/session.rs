use pendroid::backend::{InputBackend, Output};
use pendroid::cli::{parse_device, Command, Device, DeviceListUtil};
use pendroid::event_list::{InputEvent, BTN_TOOL_FINGER, EV_KEY};
use pendroid::parse::{Event, Init};
use pendroid::session::{process_buf, reinitialize, Dispatch};
use pendroid::tracker::{decide, Connectivity, SessionRegistry, TrackerAction};

const FINGER_DOWN: [u8; 12] = [0x02, 0x00, 0x01, 0x01, 0x05, 0x00, 0x00, 0x00, 0x0a, 0x00, 0x0b, 0x00];

#[test]
fn input_before_init_is_dropped() {
    let mut backend: Option<InputBackend> = None;
    assert!(matches!(process_buf(&mut backend, &FINGER_DOWN), Dispatch::Uninitialized));
    assert!(backend.is_none());
}

#[test]
fn init_then_input_is_emitted() {
    let mut backend: Option<InputBackend> = None;
    let init = match process_buf(&mut backend, &[0x00, 0x10, 0x00, 0x20, 0x00]) {
        Dispatch::Init(i) => i,
        _ => panic!("expected init"),
    };
    assert_eq!(init, Init { width: 16, height: 32 });
    reinitialize(&mut backend, &init, true);
    match process_buf(&mut backend, &FINGER_DOWN) {
        Dispatch::Emit(Output::Touchpad(batch)) => {
            assert!(batch.contains(&InputEvent { kind: EV_KEY, code: BTN_TOOL_FINGER, value: 1 }));
        }
        _ => panic!("expected a touchpad batch"),
    }
}

#[test]
fn failed_device_creation_leaves_no_backend() {
    let mut backend: Option<InputBackend> = None;
    reinitialize(&mut backend, &Init { width: 1, height: 1 }, true);
    reinitialize(&mut backend, &Init { width: 1, height: 1 }, false);
    assert!(backend.is_none());
}

#[test]
fn malformed_message_is_dropped() {
    let mut backend: Option<InputBackend> = None;
    assert!(matches!(process_buf(&mut backend, &[0x07]), Dispatch::Malformed(_)));
    assert!(matches!(process_buf(&mut backend, &[0x02, 0x00]), Dispatch::Malformed(_)));
}

#[test]
fn bad_slot_is_refused() {
    let mut backend = Some(InputBackend::new(&Init { width: 1, height: 1 }));
    let mut msg = FINGER_DOWN;
    msg[1] = 40;
    assert!(matches!(process_buf(&mut backend, &msg), Dispatch::Refused(_)));
}

#[test]
fn init_event_emits_nothing() {
    let mut b = InputBackend::new(&Init { width: 1, height: 1 });
    assert!(matches!(b.execute(Event::Init(Init { width: 2, height: 2 })), Ok(Output::Nothing)));
}

fn devices() -> Vec<Device> {
    vec![
        Device { bind_port: 9000, name: "alpha".to_string() },
        Device { bind_port: 9001, name: "beta".to_string() },
        Device { bind_port: 9002, name: "alpha".to_string() },
    ]
}

#[test]
fn get_port_takes_first_match() {
    let d = devices();
    assert_eq!(d.get_port("alpha"), Some(9000));
    assert_eq!(d.get_port("beta"), Some(9001));
    assert_eq!(d.get_port("gamma"), None);
}

#[test]
fn unconfigured_device_is_ignored() {
    let d = devices();
    assert_eq!(decide(&d, "gamma", Connectivity::Connected), TrackerAction::Ignore);
    assert_eq!(decide(&d, "beta", Connectivity::Connected), TrackerAction::Connect(9001));
    assert_eq!(decide(&d, "beta", Connectivity::Offline), TrackerAction::Retire);
    assert_eq!(decide(&d, "beta", Connectivity::Other), TrackerAction::Ignore);
}

#[test]
fn registry_replace_remove_clear() {
    let mut r: SessionRegistry<u32> = SessionRegistry::new();
    assert_eq!(r.insert("a".to_string(), 1), None);
    assert_eq!(r.insert("b".to_string(), 2), None);
    assert_eq!(r.insert("a".to_string(), 3), Some(1));
    assert_eq!(r.remove("zzz"), None);
    assert_eq!(r.remove("a"), Some(3));
    assert_eq!(r.remove("a"), None);
    r.clear();
    assert_eq!(r.remove("b"), None);
}

#[test]
fn parses_device_mappings() {
    let d = parse_device("phone:8080").unwrap();
    assert_eq!(d.name, "phone");
    assert_eq!(d.bind_port, 8080);
    let d = parse_device("tab:+12:extra").unwrap();
    assert_eq!(d.name, "tab");
    assert_eq!(d.bind_port, 12);
    assert_eq!(
        parse_device("phone").unwrap_err(),
        "The device argument must be provided in the DeviceName:port format"
    );
    assert!(parse_device("phone:x1").unwrap_err().starts_with("Failed to parse port number: "));
    assert!(parse_device("phone:").unwrap_err().starts_with("Failed to parse port number: "));
    assert!(parse_device("phone:99999999999").is_err());
    assert_eq!(parse_device("phone:0").unwrap_err(), "Port number must be greater than 0");
    assert_eq!(parse_device("phone:-3").unwrap_err(), "Port number must be greater than 0");
}

#[test]
fn command_gives_backend_config() {
    let c = Command {
        devices: devices(),
        verbose: false,
        daemon: false,
        enable_autolaunch: false,
        disable_autolaunch: false,
        notify_connected: true,
        notify_disconnected: false,
        connected_command: None,
        disconnected_command: Some("true".to_string()),
        evdev_trackpad_fuzz: 6,
        evdev_trackpad_res: 11,
        evdev_trackpad_flat: 10,
    };
    let cfg = c.backend_config();
    assert_eq!(cfg.evdev_trackpad_fuzz, 6);
    assert_eq!(cfg.evdev_trackpad_res, 11);
    assert_eq!(cfg.evdev_trackpad_flat, 10);
    let d = c.devices[1].clone();
    assert_eq!(d.name, "beta");
    assert_eq!(d.bind_port, 9001);
}
