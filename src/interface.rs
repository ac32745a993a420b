use vstd::prelude::*;

verus! {

/// Operational status of a network interface.
#[derive(Clone, Copy, Debug, PartialEq, Eq, Structural)]
pub enum OperStatus {
    Up,
    Down,
    Unknown,
}

/// The status that an interface-MIB `ifOperStatus` value stands for: 1 is up,
/// 2 is down, and every other value is reported as unknown.
pub open spec fn status_of_code(code: u32) -> OperStatus {
    if code == 1 {
        OperStatus::Up
    } else if code == 2 {
        OperStatus::Down
    } else {
        OperStatus::Unknown
    }
}

impl OperStatus {
    /// Reads an interface-MIB `ifOperStatus` value, as the operating system
    /// reports it for each adapter.
    pub fn from_oper_status_code(code: u32) -> (r: OperStatus)
        ensures
            r == status_of_code(code),
    {
        if code == 1 {
            OperStatus::Up
        } else if code == 2 {
            OperStatus::Down
        } else {
            OperStatus::Unknown
        }
    }
}

/// A network interface as one enumeration reports it.
pub struct NetworkInterfaceView {
    pub name: Seq<char>,
    pub operational_status: OperStatus,
}

#[derive(Clone, Debug)]
pub struct NetworkInterface {
    pub name: String,
    pub operational_status: OperStatus,
}

impl View for NetworkInterface {
    type V = NetworkInterfaceView;

    open spec fn view(&self) -> NetworkInterfaceView {
        NetworkInterfaceView { name: self.name@, operational_status: self.operational_status }
    }
}

impl NetworkInterface {
    pub fn new(name: String, operational_status: OperStatus) -> (r: NetworkInterface)
        ensures
            r@ == (NetworkInterfaceView { name: name@, operational_status }),
    {
        NetworkInterface { name, operational_status }
    }
}

/// The activity policy: whether the interface named `name` carries traffic
/// worth capturing. Every interface is taken to carry some.
pub open spec fn has_activity(name: Seq<char>) -> bool {
    true
}

/// Decides whether an interface currently carries traffic worth capturing.
/// Fast, side-effect free and non-blocking.
pub fn detect_network_activity(interface_name: &str) -> (r: bool)
    ensures
        r == has_activity(interface_name@),
{
    true
}

} // verus!
