//! Startup configuration: the device mappings given on the command line and
//! the switches that come with them.
use crate::backend::BackendConfig;
use vstd::prelude::*;

verus! {

/// A device identity and the local port its session connects to.
#[derive(Debug)]
pub struct Device {
    pub bind_port: i32,
    pub name: String,
}

impl Clone for Device {
    fn clone(&self) -> (r: Device)
        ensures
            r.bind_port == self.bind_port,
            r.name@ == self.name@,
    {
        Device { bind_port: self.bind_port, name: self.name.clone() }
    }
}

/// The configured devices, in the order they were given.
pub type DeviceList = Vec<Device>;

/// The port of the first device in `devices` named `id`.
pub open spec fn first_port(devices: Seq<Device>, id: Seq<char>) -> Option<i32>
    decreases devices.len(),
{
    if devices.len() == 0 {
        None
    } else if devices[0].name@ == id {
        Some(devices[0].bind_port)
    } else {
        first_port(devices.drop_first(), id)
    }
}

/// Looking up the port configured for a device.
pub trait DeviceListUtil {
    /// The port configured for `id`, if any.
    spec fn port_of(&self, id: Seq<char>) -> Option<i32>;

    fn get_port(&self, id: &str) -> (r: Option<i32>)
        ensures
            r == self.port_of(id@),
    ;
}

impl DeviceListUtil for DeviceList {
    open spec fn port_of(&self, id: Seq<char>) -> Option<i32> {
        first_port(self@, id)
    }

    fn get_port(&self, id: &str) -> (r: Option<i32>) {
        let key = id.to_owned();
        let mut i: usize = 0;
        assert(self@.skip(0) == self@);
        while i < self.len()
            invariant
                i <= self@.len(),
                key@ == id@,
                first_port(self@.skip(i as int), id@) == first_port(self@, id@),
            decreases self@.len() - i,
        {
            assert(self@.skip(i as int).drop_first() == self@.skip(i + 1));
            if self[i].name == key {
                return Some(self[i].bind_port);
            }
            i += 1;
        }
        assert(self@.skip(i as int).len() == 0);
        None
    }
}

/// Program switches and the device mappings.
pub struct Command {
    pub devices: Vec<Device>,
    pub verbose: bool,
    pub daemon: bool,
    pub enable_autolaunch: bool,
    pub disable_autolaunch: bool,
    pub notify_connected: bool,
    pub notify_disconnected: bool,
    /// Shell command run when a connection opens.
    pub connected_command: Option<String>,
    /// Shell command run when a connection ends.
    pub disconnected_command: Option<String>,
    pub evdev_trackpad_fuzz: i32,
    pub evdev_trackpad_res: i32,
    pub evdev_trackpad_flat: i32,
}

impl Command {
    /// The touchpad tuning that the switches give.
    pub fn backend_config(&self) -> (r: BackendConfig)
        ensures
            r.evdev_trackpad_fuzz == self.evdev_trackpad_fuzz,
            r.evdev_trackpad_res == self.evdev_trackpad_res,
            r.evdev_trackpad_flat == self.evdev_trackpad_flat,
    {
        BackendConfig {
            evdev_trackpad_fuzz: self.evdev_trackpad_fuzz,
            evdev_trackpad_res: self.evdev_trackpad_res,
            evdev_trackpad_flat: self.evdev_trackpad_flat,
        }
    }
}

/// Index of the first `:` in `s`, or its length when it holds none.
pub open spec fn first_colon(s: Seq<char>) -> int
    decreases s.len(),
{
    if s.len() == 0 {
        0
    } else if s[0] == ':' {
        0
    } else {
        1 + first_colon(s.drop_first())
    }
}

/// The text between the first and the second `:` of `s` (or its end).
pub open spec fn port_text(s: Seq<char>) -> Seq<char> {
    let rest = s.skip(first_colon(s) + 1);
    rest.take(first_colon(rest))
}

pub open spec fn is_digit(c: char) -> bool {
    '0' <= c <= '9'
}

/// The value of a string of decimal digits.
pub open spec fn digits_value(s: Seq<char>) -> int
    decreases s.len(),
{
    if s.len() == 0 {
        0
    } else {
        digits_value(s.drop_last()) * 10 + (s.last() as int - '0' as int)
    }
}

/// The integer that `s` writes: an optional `+` or `-` and at least one
/// decimal digit, nothing else.
pub open spec fn decimal_value(s: Seq<char>) -> Option<int> {
    let signed = s.len() > 0 && (s[0] == '+' || s[0] == '-');
    let digits = if signed {
        s.drop_first()
    } else {
        s
    };
    if digits.len() > 0 && forall|i: int| 0 <= i < digits.len() ==> is_digit(#[trigger] digits[i]) {
        Some(
            if signed && s[0] == '-' {
                -digits_value(digits)
            } else {
                digits_value(digits)
            },
        )
    } else {
        None
    }
}

/// The `i32` that `s` writes, if it writes one in range.
pub open spec fn decimal_i32(s: Seq<char>) -> Option<i32> {
    match decimal_value(s) {
        Some(v) => if i32::MIN <= v <= i32::MAX {
            Some(v as i32)
        } else {
            None
        },
        None => None,
    }
}

pub open spec fn format_error_message() -> Seq<char> {
    "The device argument must be provided in the DeviceName:port format"@
}

pub open spec fn port_error_prefix() -> Seq<char> {
    "Failed to parse port number: "@
}

pub open spec fn port_not_positive_message() -> Seq<char> {
    "Port number must be greater than 0"@
}

/// Relies on `str::split_once`: the text before the first `:` and the text
/// after it, or nothing when there is no `:`.
#[verifier::external_body]
fn split_colon(s: &str) -> (r: Option<(String, String)>)
    ensures
        r is None <==> first_colon(s@) == s@.len(),
        r matches Some(p) ==> p.0@ == s@.take(first_colon(s@)) && p.1@ == s@.skip(
            first_colon(s@) + 1,
        ),
{
    match s.split_once(':') {
        Some((a, b)) => Some((a.to_string(), b.to_string())),
        None => None,
    }
}

/// Relies on `i32`'s `FromStr`: an optional sign and decimal digits whose
/// value fits, and an error otherwise.
#[verifier::external_body]
fn parse_i32(s: &str) -> (r: Result<i32, String>)
    ensures
        r is Ok <==> decimal_i32(s@) is Some,
        r matches Ok(v) ==> decimal_i32(s@) == Some(v),
{
    match s.parse::<i32>() {
        Ok(v) => Ok(v),
        Err(e) => Err(e.to_string()),
    }
}

/// Reads a `name:port` device mapping. Text after a second `:` is ignored.
pub fn parse_device(arg: &str) -> (r: Result<Device, String>)
    ensures
        first_colon(arg@) == arg@.len() ==> (r matches Err(e) && e@ == format_error_message()),
        first_colon(arg@) < arg@.len() ==> match decimal_i32(port_text(arg@)) {
            None => r matches Err(e) && e@.take(port_error_prefix().len() as int)
                == port_error_prefix(),
            Some(p) => if p <= 0 {
                r matches Err(e) && e@ == port_not_positive_message()
            } else {
                r matches Ok(d) && d.bind_port == p && d.name@ == arg@.take(first_colon(arg@))
            },
        },
{
    let (name, rest) = match split_colon(arg) {
        Some(parts) => parts,
        None => {
            return Err(
                String::from_str(
                    "The device argument must be provided in the DeviceName:port format",
                ),
            );
        },
    };
    let port_str = match split_colon(rest.as_str()) {
        Some((p, _)) => p,
        None => {
            assert(rest@.take(first_colon(rest@)) == rest@);
            rest
        },
    };
    let port = match parse_i32(port_str.as_str()) {
        Ok(p) => p,
        Err(e) => {
            let msg = String::from_str("Failed to parse port number: ").concat(e.as_str());
            assert(msg@.take(port_error_prefix().len() as int) == port_error_prefix());
            return Err(msg);
        },
    };
    if port <= 0 {
        return Err(String::from_str("Port number must be greater than 0"));
    }
    Ok(Device { bind_port: port, name })
}

} // verus!
