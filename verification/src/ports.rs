//! Telling the device among the serial ports of the machine.

use crate::m8::{is_m8, PRODUCT_ID, VENDOR_ID};
use vstd::prelude::*;
use vstd::string::StringExecFns;
use vstd::utf8::encode_utf8;

verus! {

/// What is known of a serial port: its name, and the vendor and product id
/// of the device behind it where that is a USB device.
#[derive(Debug, Clone, PartialEq, Eq)]
pub struct PortInfo {
    pub name: String,
    pub usb: Option<(u16, u16)>,
}

/// Why no port was chosen.
#[derive(Debug, Clone, Copy, PartialEq, Eq, Structural)]
pub enum PortError {
    /// No port has the name asked for.
    DeviceNotFound,
    /// The port asked for is not a tracker.
    NotM8,
    /// No tracker could be opened.
    NoPort,
}

impl PortError {
    /// The error in words.
    pub open spec fn text(self) -> Seq<char> {
        match self {
            PortError::DeviceNotFound => "Device not found"@,
            PortError::NotM8 => "M8 not found"@,
            PortError::NoPort => "No port found"@,
        }
    }

    /// The error in words.
    pub fn message(&self) -> (r: String)
        ensures
            r@ == self.text(),
    {
        match self {
            PortError::DeviceNotFound => String::from_str("Device not found"),
            PortError::NotM8 => String::from_str("M8 not found"),
            PortError::NoPort => String::from_str("No port found"),
        }
    }
}

/// Whether the device behind a port is a tracker.
pub open spec fn is_tracker(port: PortInfo) -> bool {
    match port.usb {
        Some((vid, pid)) => vid == VENDOR_ID && pid == PRODUCT_ID,
        None => false,
    }
}

/// The names of the trackers among the first `n` ports, in their order.
pub open spec fn tracker_names(ports: Seq<PortInfo>, n: int) -> Seq<Seq<char>>
    decreases n,
{
    if n <= 0 {
        Seq::empty()
    } else if is_tracker(ports[n - 1]) {
        tracker_names(ports, n - 1).push(ports[n - 1].name@)
    } else {
        tracker_names(ports, n - 1)
    }
}

/// The places of the trackers among the first `n` ports, in their order.
pub open spec fn tracker_places(ports: Seq<PortInfo>, n: int) -> Seq<usize>
    decreases n,
{
    if n <= 0 {
        Seq::empty()
    } else if is_tracker(ports[n - 1]) {
        tracker_places(ports, n - 1).push((n - 1) as usize)
    } else {
        tracker_places(ports, n - 1)
    }
}

/// The first place from `from` of a port with the name `name`.
pub open spec fn port_place(ports: Seq<PortInfo>, name: Seq<char>, from: int) -> Option<int>
    decreases ports.len() - from,
{
    if from < 0 || from >= ports.len() {
        None
    } else if ports[from].name@ == name {
        Some(from)
    } else {
        port_place(ports, name, from + 1)
    }
}

/// Whether the device behind a port is a tracker.
pub fn port_is_m8(port: &PortInfo) -> (r: bool)
    ensures
        r == is_tracker(*port),
{
    match port.usb {
        Some((vid, pid)) => is_m8(vid, pid),
        None => false,
    }
}

/// The names of the ports behind which a tracker answers.
pub fn list_ports(ports: &Vec<PortInfo>) -> (r: Vec<String>)
    ensures
        crate::names::names_of(r@) == tracker_names(ports@, ports@.len() as int),
{
    let mut v: Vec<String> = Vec::new();
    let mut i: usize = 0;
    while i < ports.len()
        invariant
            i <= ports@.len(),
            crate::names::names_of(v@) == tracker_names(ports@, i as int),
        decreases ports@.len() - i,
    {
        if port_is_m8(&ports[i]) {
            v.push(ports[i].name.clone());
            assert(crate::names::names_of(v@) =~= tracker_names(ports@, i as int).push(
                ports@[i as int].name@,
            ));
        }
        i += 1;
    }
    v
}

/// The place of the port to open for the device `device`: the first port
/// with that name, which must be a tracker.
pub fn open(ports: &Vec<PortInfo>, device: &str) -> (r: Result<usize, PortError>)
    ensures
        match port_place(ports@, device@, 0) {
            Some(i) => if is_tracker(ports@[i]) {
                r == Ok::<usize, PortError>(i as usize) && i < ports@.len()
            } else {
                r == Err::<usize, PortError>(PortError::NotM8)
            },
            None => r == Err::<usize, PortError>(PortError::DeviceNotFound),
        },
{
    let wanted = String::from_str(device);
    let mut i: usize = 0;
    while i < ports.len()
        invariant
            i <= ports@.len(),
            wanted@ == device@,
            port_place(ports@, device@, 0) == port_place(ports@, device@, i as int),
        decreases ports@.len() - i,
    {
        if ports[i].name == wanted {
            if port_is_m8(&ports[i]) {
                return Ok(i);
            }
            return Err(PortError::NotM8);
        }
        i += 1;
    }
    Err(PortError::DeviceNotFound)
}

/// The places of the ports to try when no device is named: the trackers, in
/// the order of the ports. The first that opens is the device.
pub fn detect(ports: &Vec<PortInfo>) -> (r: Vec<usize>)
    ensures
        r@ == tracker_places(ports@, ports@.len() as int),
{
    let mut v: Vec<usize> = Vec::new();
    let mut i: usize = 0;
    while i < ports.len()
        invariant
            i <= ports@.len(),
            v@ == tracker_places(ports@, i as int),
        decreases ports@.len() - i,
    {
        if port_is_m8(&ports[i]) {
            v.push(i);
        }
        i += 1;
    }
    v
}

/// Whether `text` begins with `prefix`.
pub open spec fn begins_with(text: Seq<u8>, prefix: Seq<u8>) -> bool {
    prefix.len() <= text.len() && text.take(prefix.len() as int) == prefix
}

/// Whether the bytes `text` begin with the bytes `prefix`.
pub fn starts_with(text: &[u8], prefix: &[u8]) -> (r: bool)
    ensures
        r == begins_with(text@, prefix@),
{
    if prefix.len() > text.len() {
        return false;
    }
    let mut i: usize = 0;
    while i < prefix.len()
        invariant
            prefix@.len() <= text@.len(),
            i <= prefix@.len(),
            forall|j: int| 0 <= j < i ==> text@[j] == prefix@[j],
        decreases prefix@.len() - i,
    {
        if text[i] != prefix[i] {
            assert(text@.take(prefix@.len() as int)[i as int] != prefix@[i as int]);
            return false;
        }
        i += 1;
    }
    assert(text@.take(prefix@.len() as int) =~= prefix@);
    true
}

/// Whether a capture device of this name is the tracker's: its name begins
/// with `M8 Analog Stereo`.
pub fn is_m8_capture(name: &str) -> (r: bool)
    ensures
        r == begins_with(encode_utf8(name@), encode_utf8("M8 Analog Stereo"@)),
{
    starts_with(name.as_bytes(), "M8 Analog Stereo".as_bytes())
}

} // verus!
