//! Which of the host's serial ports is the keyboard.
//!
//! The keyboard is known by the USB vendor and product identifiers of its
//! port. The host's ports are tried in the order in which the operating
//! system lists them: the first port of the right kind that opens is the
//! keyboard; one that does not open is passed over.

use vstd::prelude::*;

verus! {

/// The keyboard's USB product identifier.
pub const PID: u16 = 598;

/// The keyboard's USB vendor identifier.
pub const VID: u16 = 1452;

/// The speed at which the port is opened, in bits per second.
pub const BAUD_RATE: u32 = 9600;

/// How long one read or write may take, in milliseconds.
pub const TIMEOUT: u64 = 500;

/// How a serial port is attached to the host.
#[derive(Clone, Copy, Debug, PartialEq, Eq, Structural)]
pub enum PortKind {
    /// Over USB, by a device with these identifiers.
    Usb { vid: u16, pid: u16 },
    /// Over PCI.
    Pci,
    /// Over Bluetooth.
    Bluetooth,
    /// In a way the host cannot tell.
    Unknown,
}

/// One serial port as the operating system lists it.
#[derive(Debug)]
pub struct PortInfo {
    /// The name by which the port is opened.
    pub name: String,
    /// How the port is attached.
    pub kind: PortKind,
}

/// The port is attached over USB by a device with exactly these identifiers.
pub open spec fn is_device(kind: PortKind, pid: u16, vid: u16) -> bool {
    kind == (PortKind::Usb { vid, pid })
}

/// No port at an index from `from` up to, not including, `to` is the device.
pub open spec fn none_between(
    ports: Seq<PortInfo>,
    pid: u16,
    vid: u16,
    from: int,
    to: int,
) -> bool {
    forall|j: int|
        from <= j < to && 0 <= j < ports.len() ==> !is_device(#[trigger] ports[j].kind, pid, vid)
}

/// The index of the first port at or after `start` that is the device, if
/// there is one.
pub open spec fn first_candidate(
    ports: Seq<PortInfo>,
    pid: u16,
    vid: u16,
    start: int,
) -> Option<usize>
    decreases ports.len() - start,
{
    if start < 0 || start >= ports.len() {
        None
    } else if is_device(ports[start].kind, pid, vid) {
        Some(start as usize)
    } else {
        first_candidate(ports, pid, vid, start + 1)
    }
}

/// Whether the port is attached over USB by a device with these identifiers.
pub fn port_matches(port: &PortInfo, pid: u16, vid: u16) -> (matches: bool)
    ensures
        matches == is_device(port.kind, pid, vid),
{
    match port.kind {
        PortKind::Usb { vid: port_vid, pid: port_pid } => port_vid == vid && port_pid == pid,
        _ => false,
    }
}

/// Finds the next port to try to open: the first one at or after `start`
/// with the given identifiers. After the port at index `i` has failed to
/// open, the scan goes on from `i + 1`; `None` means that no port is left to
/// try.
pub fn find_serial_port_with_pid_vid(
    ports: &[PortInfo],
    pid: u16,
    vid: u16,
    start: usize,
) -> (found: Option<usize>)
    ensures
        found == first_candidate(ports@, pid, vid, start as int),
        match found {
            Some(index) => {
                &&& start <= index < ports@.len()
                &&& is_device(ports@[index as int].kind, pid, vid)
                &&& none_between(ports@, pid, vid, start as int, index as int)
            },
            None => none_between(ports@, pid, vid, start as int, ports@.len() as int),
        },
{
    let mut index = start;
    while index < ports.len()
        invariant
            start <= index,
            none_between(ports@, pid, vid, start as int, index as int),
        decreases ports.len() - index,
    {
        if port_matches(&ports[index], pid, vid) {
            proof {
                lemma_first_candidate(ports@, pid, vid, start as int, index as int);
            }
            return Some(index);
        }
        index += 1;
    }
    proof {
        lemma_first_candidate_none(ports@, pid, vid, start as int);
    }
    None
}

/// The first candidate is the least index at or after `start` whose port is
/// the device.
pub proof fn lemma_first_candidate(ports: Seq<PortInfo>, pid: u16, vid: u16, start: int, index: int)
    requires
        0 <= start <= index < ports.len() <= usize::MAX,
        is_device(ports[index].kind, pid, vid),
        none_between(ports, pid, vid, start, index),
    ensures
        first_candidate(ports, pid, vid, start) == Some(index as usize),
    decreases index - start,
{
    if start < index {
        assert(!is_device(ports[start].kind, pid, vid));
        lemma_first_candidate(ports, pid, vid, start + 1, index);
    }
}

/// A candidate stands at or after `start`, inside the list, and is the
/// device.
pub proof fn lemma_first_candidate_bounds(ports: Seq<PortInfo>, pid: u16, vid: u16, start: int)
    requires
        0 <= start,
        ports.len() <= usize::MAX,
    ensures
        first_candidate(ports, pid, vid, start) matches Some(index) ==> {
            &&& start <= index < ports.len()
            &&& is_device(ports[index as int].kind, pid, vid)
            &&& none_between(ports, pid, vid, start, index as int)
        },
    decreases ports.len() - start,
{
    if start < ports.len() && !is_device(ports[start].kind, pid, vid) {
        lemma_first_candidate_bounds(ports, pid, vid, start + 1);
    }
}

/// There is no candidate exactly where no port from `start` on is the
/// device.
pub proof fn lemma_first_candidate_none(ports: Seq<PortInfo>, pid: u16, vid: u16, start: int)
    requires
        0 <= start,
    ensures
        first_candidate(ports, pid, vid, start) is None <==> none_between(
            ports,
            pid,
            vid,
            start,
            ports.len() as int,
        ),
    decreases ports.len() - start,
{
    if start < ports.len() {
        lemma_first_candidate_none(ports, pid, vid, start + 1);
        if is_device(ports[start].kind, pid, vid) {
            assert(!none_between(ports, pid, vid, start, ports.len() as int));
        }
    }
}

} // verus!
