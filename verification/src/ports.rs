//! Serial-port selection.
//!
//! The operating system's port enumeration is handed in as plain values:
//! a name, whether the port is USB, its vendor and product ids, and its
//! USB serial number. This module holds the rules that pick the port a
//! laser is opened on — by name, by serial number, by both, or the first
//! recognized device — exactly as the session's open path resolves them.

use vstd::prelude::*;
use crate::CoherentError;
use crate::laser::{LaserType, spec_laser_type_of_pid};

verus! {

/// The USB vendor id of the instruments this library recognizes.
pub const COHERENT_VENDOR_ID: u16 = 3405;

/// One enumerated serial port, as plain values.
#[derive(Debug)]
pub struct PortInfo {
    /// The OS-level port name.
    pub port_name: String,
    /// Whether the port is a USB device (the ids below are meaningful only
    /// then).
    pub is_usb: bool,
    /// The USB vendor id.
    pub vid: u16,
    /// The USB product id.
    pub pid: u16,
    /// The USB serial number, if the device reports one.
    pub serial_number: Option<String>,
}

/// The mathematical shape of an enumerated port.
pub struct PortInfoView {
    pub port_name: Seq<char>,
    pub is_usb: bool,
    pub vid: u16,
    pub pid: u16,
    pub serial_number: Option<Seq<char>>,
}

impl View for PortInfo {
    type V = PortInfoView;

    open spec fn view(&self) -> PortInfoView {
        PortInfoView {
            port_name: self.port_name@,
            is_usb: self.is_usb,
            vid: self.vid,
            pid: self.pid,
            serial_number: match self.serial_number {
                Some(ref s) => Some(s@),
                None => None,
            },
        }
    }
}

impl Clone for PortInfo {
    fn clone(&self) -> (r: Self)
        ensures
            r@ == self@,
    {
        PortInfo {
            port_name: self.port_name.clone(),
            is_usb: self.is_usb,
            vid: self.vid,
            pid: self.pid,
            serial_number: match &self.serial_number {
                Some(s) => Some(s.clone()),
                None => None,
            },
        }
    }
}

/// Whether two strings hold the same characters.
pub fn eq_str(a: &str, b: &str) -> (r: bool)
    ensures
        r == (a@ == b@),
{
    let la = a.unicode_len();
    let lb = b.unicode_len();
    if la != lb {
        return false;
    }
    let mut i: usize = 0;
    while i < la
        invariant
            0 <= i <= la,
            la == a@.len(),
            la == b@.len(),
            forall|j: int| 0 <= j < i ==> a@[j] == b@[j],
        decreases la - i,
    {
        if a.get_char(i) != b.get_char(i) {
            return false;
        }
        i += 1;
    }
    proof {
        assert(a@ =~= b@);
    }
    true
}

/// A port made by the recognized vendor.
pub open spec fn spec_is_coherent(p: PortInfoView) -> bool {
    p.is_usb && p.vid == COHERENT_VENDOR_ID
}

/// The subsequence of ports made by the recognized vendor, in order.
pub open spec fn spec_coherent_filter(s: Seq<PortInfoView>) -> Seq<PortInfoView>
    decreases s.len(),
{
    if s.len() == 0 {
        seq![]
    } else {
        spec_coherent_filter(s.drop_last()) + (if spec_is_coherent(s.last()) {
            seq![s.last()]
        } else {
            seq![]
        })
    }
}

/// Keep exactly the ports made by the recognized vendor, in order.
#[verifier::loop_isolation(false)]
pub fn filter_coherent_devices(ports: &Vec<PortInfo>) -> (r: Vec<PortInfo>)
    ensures
        r@.map_values(|p: PortInfo| p@) == spec_coherent_filter(
            ports@.map_values(|p: PortInfo| p@),
        ),
{
    let ghost all = ports@.map_values(|p: PortInfo| p@);
    let mut r: Vec<PortInfo> = Vec::new();
    let n = ports.len();
    let mut i: usize = 0;
    while i < n
        invariant
            0 <= i <= n,
            r@.map_values(|p: PortInfo| p@) == spec_coherent_filter(
                all.subrange(0, i as int),
            ),
        decreases n - i,
    {
        let p = &ports[i];
        if p.is_usb && p.vid == COHERENT_VENDOR_ID {
            r.push(p.clone());
        }
        i += 1;
        proof {
            let pre = all.subrange(0, i as int);
            assert(pre.drop_last() =~= all.subrange(0, i - 1));
            assert(pre.last() == ports@[i - 1]@);
            assert(r@.map_values(|p: PortInfo| p@) =~= spec_coherent_filter(pre));
        }
    }
    proof {
        assert(all.subrange(0, n as int) =~= all);
    }
    r
}

/// Whether a port can carry a laser of the wanted model. The in-memory
/// debug model accepts any port; a hardware model wants a USB device whose
/// product id names it.
pub open spec fn spec_is_valid_device(p: PortInfoView, want: LaserType) -> bool {
    want is DebugLaser || (p.is_usb && spec_laser_type_of_pid(p.pid) == want)
}

/// Whether this port can carry a laser of the wanted model.
pub fn is_valid_device(p: &PortInfo, want: LaserType) -> (r: bool)
    ensures
        r == spec_is_valid_device(p@, want),
{
    match want {
        LaserType::DebugLaser => true,
        _ => {
            if !p.is_usb {
                false
            } else {
                let t = LaserType::from(p.pid);
                t == want
            }
        },
    }
}

/// The first port with the given name, from position `i`.
pub open spec fn spec_find_name_from(s: Seq<PortInfoView>, name: Seq<char>, i: int) -> Option<int>
    decreases s.len() - i,
{
    if i < 0 || i >= s.len() {
        None
    } else if s[i].port_name == name {
        Some(i)
    } else {
        spec_find_name_from(s, name, i + 1)
    }
}

/// The first port that can carry the wanted model, from position `i`.
pub open spec fn spec_find_valid_from(s: Seq<PortInfoView>, want: LaserType, i: int) -> Option<int>
    decreases s.len() - i,
{
    if i < 0 || i >= s.len() {
        None
    } else if spec_is_valid_device(s[i], want) {
        Some(i)
    } else {
        spec_find_valid_from(s, want, i + 1)
    }
}

/// Whether the port at `i` carries the asked-for serial number: it must be
/// a USB device that reports exactly that number.
pub open spec fn spec_serial_matches(p: PortInfoView, sn: Seq<char>) -> bool {
    p.is_usb && p.serial_number == Some(sn)
}

/// Which port the open path picks, and which error it reports otherwise:
/// a named port is looked up by name; without a name, the first port that
/// can carry the wanted model stands in; an asked-for serial number is then
/// checked against the picked port. A missing named port, a failed serial
/// check, or a fruitless search with a serial number in hand is
/// `UnrecognizedDevice`; a fruitless search without one is
/// `NoRecognizedLasers`.
pub open spec fn spec_select_port(
    s: Seq<PortInfoView>,
    name: Option<Seq<char>>,
    sn: Option<Seq<char>>,
    want: LaserType,
) -> Result<int, CoherentError> {
    let found = match name {
        Some(n) => spec_find_name_from(s, n, 0),
        None => spec_find_valid_from(s, want, 0),
    };
    match found {
        None => if name is None && sn is None {
            Err(CoherentError::NoRecognizedLasers)
        } else {
            Err(CoherentError::UnrecognizedDevice)
        },
        Some(i) => match sn {
            Some(serial) => if spec_serial_matches(s[i], serial) {
                Ok(i)
            } else {
                Err(CoherentError::UnrecognizedDevice)
            },
            None => Ok(i),
        },
    }
}

proof fn lemma_find_name_skip(s: Seq<PortInfoView>, name: Seq<char>, i: int, k: int)
    requires
        0 <= i <= k,
        forall|j: int| i <= j < k ==> s[j].port_name != name,
    ensures
        spec_find_name_from(s, name, i) == spec_find_name_from(s, name, k),
    decreases k - i,
{
    if i < k {
        lemma_find_name_skip(s, name, i + 1, k);
    }
}

proof fn lemma_find_valid_skip(s: Seq<PortInfoView>, want: LaserType, i: int, k: int)
    requires
        0 <= i <= k,
        forall|j: int| i <= j < k ==> !spec_is_valid_device(s[j], want),
    ensures
        spec_find_valid_from(s, want, i) == spec_find_valid_from(s, want, k),
    decreases k - i,
{
    if i < k {
        lemma_find_valid_skip(s, want, i + 1, k);
    }
}

/// Find the first port with the given name.
#[verifier::loop_isolation(false)]
fn find_by_name(ports: &Vec<PortInfo>, name: &str) -> (r: Option<usize>)
    ensures
        match r {
            Some(i) => i < ports@.len() && spec_find_name_from(
                ports@.map_values(|p: PortInfo| p@),
                name@,
                0,
            ) == Some(i as int),
            None => spec_find_name_from(ports@.map_values(|p: PortInfo| p@), name@, 0) is None,
        },
{
    let ghost s = ports@.map_values(|p: PortInfo| p@);
    let n = ports.len();
    let mut i: usize = 0;
    while i < n
        invariant
            0 <= i <= n,
            forall|j: int| 0 <= j < i ==> s[j].port_name != name@,
        decreases n - i,
    {
        if eq_str(ports[i].port_name.as_str(), name) {
            proof {
                lemma_find_name_skip(s, name@, 0, i as int);
            }
            return Some(i);
        }
        i += 1;
    }
    proof {
        lemma_find_name_skip(s, name@, 0, n as int);
    }
    None
}

/// Find the first port that can carry the wanted model.
#[verifier::loop_isolation(false)]
fn find_valid(ports: &Vec<PortInfo>, want: LaserType) -> (r: Option<usize>)
    ensures
        match r {
            Some(i) => i < ports@.len() && spec_find_valid_from(
                ports@.map_values(|p: PortInfo| p@),
                want,
                0,
            ) == Some(i as int),
            None => spec_find_valid_from(ports@.map_values(|p: PortInfo| p@), want, 0) is None,
        },
{
    let ghost s = ports@.map_values(|p: PortInfo| p@);
    let n = ports.len();
    let mut i: usize = 0;
    while i < n
        invariant
            0 <= i <= n,
            forall|j: int| 0 <= j < i ==> !spec_is_valid_device(s[j], want),
        decreases n - i,
    {
        if is_valid_device(&ports[i], want) {
            proof {
                lemma_find_valid_skip(s, want, 0, i as int);
            }
            return Some(i);
        }
        i += 1;
    }
    proof {
        lemma_find_valid_skip(s, want, 0, n as int);
    }
    None
}

/// Pick the port to open a laser of the wanted model on, exactly as
/// [`spec_select_port`] describes, and hand back its index.
pub fn select_port(
    ports: &Vec<PortInfo>,
    port_name: Option<&str>,
    serial_number: Option<&str>,
    want: LaserType,
) -> (r: Result<usize, CoherentError>)
    ensures
        match r {
            Ok(i) => i < ports@.len() && spec_select_port(
                ports@.map_values(|p: PortInfo| p@),
                match port_name {
                    Some(n) => Some(n@),
                    None => None,
                },
                match serial_number {
                    Some(sn) => Some(sn@),
                    None => None,
                },
                want,
            ) == Ok::<int, CoherentError>(i as int),
            Err(e) => spec_select_port(
                ports@.map_values(|p: PortInfo| p@),
                match port_name {
                    Some(n) => Some(n@),
                    None => None,
                },
                match serial_number {
                    Some(sn) => Some(sn@),
                    None => None,
                },
                want,
            ) == Err::<int, _>(e),
        },
{
    let found = match port_name {
        Some(name) => find_by_name(ports, name),
        None => find_valid(ports, want),
    };
    match found {
        None => {
            if port_name.is_none() && serial_number.is_none() {
                Err(CoherentError::NoRecognizedLasers)
            } else {
                Err(CoherentError::UnrecognizedDevice)
            }
        },
        Some(i) => match serial_number {
            Some(serial) => {
                let p = &ports[i];
                let matches = if !p.is_usb {
                    false
                } else {
                    match &p.serial_number {
                        Some(s) => eq_str(s.as_str(), serial),
                        None => false,
                    }
                };
                if matches {
                    Ok(i)
                } else {
                    Err(CoherentError::UnrecognizedDevice)
                }
            },
            None => Ok(i),
        },
    }
}

} // verus!
