//! Implements discovering vex devices connected over USB: which of the
//! serial ports of the host belong to a V5 device, what each is for, and
//! which of them make up one device.

use vstd::prelude::*;
use crate::devices::{VexDevice, VexDeviceType, VexPortType};

verus! {

/// The USB identifiers that V5 devices announce themselves with.
#[derive(Clone, Copy, Debug, PartialEq, Eq, Structural)]
pub struct VexUsbIds {
    pub vendor: u16,
    pub brain: u16,
    pub controller: u16,
}

/// What the host knows of a USB serial port.
#[derive(Clone, Debug, PartialEq, Eq)]
pub struct UsbPortInfo {
    pub vid: u16,
    pub pid: u16,
    pub product: Option<String>,
}

/// What the host knows of a serial port. A port that is not a USB port has
/// no `usb` part.
#[derive(Clone, Debug, PartialEq, Eq)]
pub struct SerialPortInfo {
    pub port_name: String,
    pub usb: Option<UsbPortInfo>,
}

/// The information of a generic vex serial port
#[derive(Clone, Debug, PartialEq, Eq)]
pub struct VexGenericSerialPort {
    pub port_info: SerialPortInfo,
    pub port_type: VexPortType,
}

/// Whether `pattern` stands somewhere in `text`.
pub open spec fn spec_contains(text: Seq<char>, pattern: Seq<char>) -> bool {
    exists|i: int|
        0 <= i && i + pattern.len() <= text.len() && #[trigger] text.subrange(
            i,
            i + pattern.len(),
        ) == pattern
}

/// `str::contains` with a string as the pattern: whether the pattern
/// matches a part of the text.
#[verifier::external_body]
fn contains(text: &str, pattern: &str) -> (r: bool)
    ensures
        r == spec_contains(text@, pattern@),
{
    text.contains(pattern)
}

/// What a port of a device is for, or `None` where the port is no port of a
/// V5 device. `previous` is what the port found just before is for. A
/// controller has one kind of port. A port of a brain is told by the name
/// of its product; where the name does not tell, it is the user port if it
/// follows a system port and a system port otherwise. A port of a brain
/// without a product name is none.
pub open spec fn spec_port_type(
    port: SerialPortInfo,
    previous: Option<VexPortType>,
    ids: VexUsbIds,
) -> Option<VexPortType> {
    match port.usb {
        None => None,
        Some(usb) => if usb.vid != ids.vendor {
            None
        } else if usb.pid == ids.controller {
            Some(VexPortType::Controller)
        } else if usb.pid == ids.brain {
            match usb.product {
                None => None,
                Some(name) => if spec_contains(name@, "User"@) {
                    Some(VexPortType::User)
                } else if spec_contains(name@, "Communications"@) {
                    Some(VexPortType::System)
                } else if previous == Some(VexPortType::System) {
                    Some(VexPortType::User)
                } else {
                    Some(VexPortType::System)
                },
            }
        } else {
            None
        },
    }
}

/// The ports of V5 devices among `ports`, in their order: for each the
/// place it has in `ports` and what it is for.
pub open spec fn spec_generic_ports(ports: Seq<SerialPortInfo>, ids: VexUsbIds) -> Seq<
    (int, VexPortType),
>
    decreases ports.len(),
{
    if ports.len() == 0 {
        Seq::empty()
    } else {
        let before = spec_generic_ports(ports.drop_last(), ids);
        let previous = if before.len() > 0 {
            Some(before.last().1)
        } else {
            None
        };
        match spec_port_type(ports.last(), previous, ids) {
            Some(t) => before.push((ports.len() - 1, t)),
            None => before,
        }
    }
}

fn port_type(port: &SerialPortInfo, previous: Option<VexPortType>, ids: &VexUsbIds) -> (r: Option<
    VexPortType,
>)
    ensures
        r == spec_port_type(*port, previous, *ids),
{
    match &port.usb {
        None => None,
        Some(usb) => {
            if usb.vid != ids.vendor {
                None
            } else if usb.pid == ids.controller {
                Some(VexPortType::Controller)
            } else if usb.pid == ids.brain {
                match &usb.product {
                    None => None,
                    Some(name) => {
                        if contains(name.as_str(), "User") {
                            Some(VexPortType::User)
                        } else if contains(name.as_str(), "Communications") {
                            Some(VexPortType::System)
                        } else {
                            let after_system = match previous {
                                Some(VexPortType::System) => true,
                                _ => false,
                            };
                            if after_system {
                                Some(VexPortType::User)
                            } else {
                                Some(VexPortType::System)
                            }
                        }
                    },
                }
            } else {
                None
            }
        },
    }
}

fn copy_port(port: &SerialPortInfo) -> (r: SerialPortInfo)
    ensures
        r == *port,
{
    SerialPortInfo {
        port_name: port.port_name.clone(),
        usb: match &port.usb {
            None => None,
            Some(usb) => Some(
                UsbPortInfo {
                    vid: usb.vid,
                    pid: usb.pid,
                    product: match &usb.product {
                        None => None,
                        Some(name) => Some(name.clone()),
                    },
                },
            ),
        },
    }
}

/// Finds all generic vex v5 ports among the serial ports of the host.
pub fn find_generic_ports(ports: &Vec<SerialPortInfo>, ids: &VexUsbIds) -> (r: Vec<
    VexGenericSerialPort,
>)
    ensures
        r@.len() == spec_generic_ports(ports@, *ids).len(),
        forall|j: int|
            0 <= j < r@.len() ==> {
                let found = spec_generic_ports(ports@, *ids)[j];
                &&& 0 <= found.0 < ports@.len()
                &&& (#[trigger] r@[j]).port_info == ports@[found.0]
                &&& r@[j].port_type == found.1
            },
{
    let mut vex_ports: Vec<VexGenericSerialPort> = Vec::new();
    let mut i: usize = 0;
    assert(ports@.subrange(0, 0) =~= Seq::<SerialPortInfo>::empty());
    while i < ports.len()
        invariant
            i <= ports@.len(),
            vex_ports@.len() == spec_generic_ports(ports@.subrange(0, i as int), *ids).len(),
            forall|j: int|
                0 <= j < vex_ports@.len() ==> {
                    let found = spec_generic_ports(ports@.subrange(0, i as int), *ids)[j];
                    &&& 0 <= found.0 < i
                    &&& (#[trigger] vex_ports@[j]).port_info == ports@[found.0]
                    &&& vex_ports@[j].port_type == found.1
                },
        decreases ports@.len() - i,
    {
        let ghost before = spec_generic_ports(ports@.subrange(0, i as int), *ids);
        proof {
            let upto = ports@.subrange(0, i + 1);
            assert(upto.drop_last() =~= ports@.subrange(0, i as int));
            assert(upto.last() == ports@[i as int]);
        }
        let previous: Option<VexPortType> = if vex_ports.len() > 0 {
            Some(vex_ports[vex_ports.len() - 1].port_type)
        } else {
            None
        };
        match port_type(&ports[i], previous, ids) {
            Some(t) => {
                vex_ports.push(VexGenericSerialPort { port_info: copy_port(&ports[i]), port_type: t });
            },
            None => {},
        }
        i = i + 1;
    }
    assert(ports@.subrange(0, i as int) =~= ports@);
    vex_ports
}

/// A device as the places of its ports in the list of ports.
pub struct DevicePorts {
    pub system: int,
    pub user: Option<int>,
    pub device_type: VexDeviceType,
}

/// The devices that the ports from place `from` on make up. A system port
/// and the user port right behind it are a brain. A system port without a
/// user port behind it is a device of unknown kind. A controller port is a
/// controller. A user port that follows no system port is left out.
pub open spec fn spec_generic_devices(types: Seq<VexPortType>, from: int) -> Seq<DevicePorts>
    decreases types.len() - from,
{
    if from < 0 || from >= types.len() {
        Seq::empty()
    } else {
        let next_is = |t: VexPortType| from + 1 < types.len() && types[from + 1] == t;
        match types[from] {
            VexPortType::System => if next_is(VexPortType::User) {
                seq![
                    DevicePorts {
                        system: from,
                        user: Some(from + 1),
                        device_type: VexDeviceType::Brain,
                    },
                ] + spec_generic_devices(types, from + 2)
            } else {
                seq![DevicePorts { system: from, user: None, device_type: VexDeviceType::Unknown }]
                    + spec_generic_devices(types, from + 1)
            },
            VexPortType::Controller => seq![
                DevicePorts { system: from, user: None, device_type: VexDeviceType::Controller },
            ] + spec_generic_devices(types, from + 1),
            VexPortType::User => spec_generic_devices(types, from + 1),
        }
    }
}

/// What the ports in a list are for, in the order of the list.
pub open spec fn spec_port_types(ports: Seq<VexGenericSerialPort>) -> Seq<VexPortType> {
    Seq::new(ports.len(), |i: int| ports[i].port_type)
}

/// Whether `device` is made of the ports that `plan` names.
pub open spec fn spec_device_matches(
    device: VexDevice,
    plan: DevicePorts,
    ports: Seq<VexGenericSerialPort>,
) -> bool {
    &&& device.device_type == plan.device_type
    &&& device.system_port@ == ports[plan.system].port_info.port_name@
    &&& match plan.user {
        Some(u) => device.user_port is Some && device.user_port->Some_0@
            == ports[u].port_info.port_name@,
        None => device.user_port is None,
    }
}

/// Finds all generic V5 devices from their ports
pub fn find_generic_devices(ports: &Vec<VexGenericSerialPort>) -> (r: Vec<VexDevice>)
    ensures
        r@.len() == spec_generic_devices(spec_port_types(ports@), 0).len(),
        r@.len() <= ports@.len(),
        forall|j: int|
            0 <= j < r@.len() ==> spec_device_matches(
                #[trigger] r@[j],
                spec_generic_devices(spec_port_types(ports@), 0)[j],
                ports@,
            ),
{
    let ghost types = spec_port_types(ports@);
    let mut vex_devices: Vec<VexDevice> = Vec::new();
    let mut i: usize = 0;
    while i < ports.len()
        invariant
            i <= ports@.len(),
            types == spec_port_types(ports@),
            spec_generic_devices(types, 0) == Seq::new(
                vex_devices@.len(),
                |j: int| spec_generic_devices(types, 0)[j],
            ) + spec_generic_devices(types, i as int),
            vex_devices@.len() <= spec_generic_devices(types, 0).len(),
            forall|j: int|
                0 <= j < vex_devices@.len() ==> spec_device_matches(
                    #[trigger] vex_devices@[j],
                    spec_generic_devices(types, 0)[j],
                    ports@,
                ),
        decreases ports@.len() - i,
    {
        let ghost whole = spec_generic_devices(types, 0);
        let ghost done = vex_devices@.len() as int;
        let ghost rest = spec_generic_devices(types, i as int);
        let current = &ports[i];
        let next: Option<VexPortType> = if i + 1 < ports.len() {
            Some(ports[i + 1].port_type)
        } else {
            None
        };
        assert(types[i as int] == current.port_type);
        assert(i + 1 < ports@.len() ==> types[i + 1] == ports@[i + 1].port_type);
        match current.port_type {
            VexPortType::System => {
                let paired = match next {
                    Some(VexPortType::User) => true,
                    _ => false,
                };
                if paired {
                    vex_devices.push(
                        VexDevice {
                            system_port: current.port_info.port_name.clone(),
                            user_port: Some(ports[i + 1].port_info.port_name.clone()),
                            device_type: VexDeviceType::Brain,
                        },
                    );
                    i = i + 2;
                } else {
                    vex_devices.push(
                        VexDevice {
                            system_port: current.port_info.port_name.clone(),
                            user_port: None,
                            device_type: VexDeviceType::Unknown,
                        },
                    );
                    i = i + 1;
                }
            },
            VexPortType::Controller => {
                vex_devices.push(
                    VexDevice {
                        system_port: current.port_info.port_name.clone(),
                        user_port: None,
                        device_type: VexDeviceType::Controller,
                    },
                );
                i = i + 1;
            },
            VexPortType::User => {
                // A user port that follows no system port belongs to no device.
                i = i + 1;
            },
        }
        proof {
            let tail = spec_generic_devices(types, i as int);
            if vex_devices@.len() > done {
                assert(rest =~= seq![rest[0]] + tail);
                assert(whole[done] == rest[0]);
                assert(whole =~= Seq::new((done + 1) as nat, |j: int| whole[j]) + tail);
            } else {
                assert(rest == tail);
            }
        }
    }
    proof {
        assert(spec_generic_devices(types, i as int) =~= Seq::<DevicePorts>::empty());
        lemma_generic_devices_count(types, 0);
    }
    vex_devices
}

/// The place of the last port of a device.
pub open spec fn spec_last_port(device: DevicePorts) -> int {
    match device.user {
        Some(u) => u,
        None => device.system,
    }
}

/// Every device found has a system port that is a place in the list from
/// `from` on. A brain, and no other device, has a user port, which is the
/// port right behind its system port. A controller is what a controller
/// port makes, and a system port makes a brain or a device of unknown
/// kind.
pub proof fn lemma_generic_devices(types: Seq<VexPortType>, from: int, j: int)
    requires
        0 <= from,
        0 <= j < spec_generic_devices(types, from).len(),
    ensures
        ({
            let d = spec_generic_devices(types, from)[j];
            &&& from <= d.system < types.len()
            &&& types[d.system] != VexPortType::User
            &&& d.device_type == VexDeviceType::Brain <==> d.user is Some
            &&& d.user matches Some(u) ==> u == d.system + 1 && u < types.len() && types[u]
                == VexPortType::User && types[d.system] == VexPortType::System
            &&& d.device_type == VexDeviceType::Controller <==> types[d.system]
                == VexPortType::Controller
            &&& d.device_type == VexDeviceType::Unknown ==> (d.system + 1 == types.len()
                || types[d.system + 1] != VexPortType::User)
        }),
    decreases types.len() - from,
{
    if from < types.len() {
        let paired_user = from + 1 < types.len() && types[from + 1] == VexPortType::User;
        match types[from] {
            VexPortType::System => {
                if paired_user {
                    if j > 0 {
                        lemma_generic_devices(types, from + 2, j - 1);
                    }
                } else {
                    if j > 0 {
                        lemma_generic_devices(types, from + 1, j - 1);
                    }
                }
            },
            VexPortType::Controller => {
                if j > 0 {
                    lemma_generic_devices(types, from + 1, j - 1);
                }
            },
            VexPortType::User => {
                lemma_generic_devices(types, from + 1, j);
            },
        }
    }
}

/// There are no more devices than ports, and no port belongs to two
/// devices: the devices stand in the order of their ports, each one wholly
/// behind the one before it.
pub proof fn lemma_generic_devices_apart(types: Seq<VexPortType>, from: int, j: int, k: int)
    requires
        0 <= from,
        0 <= j < k < spec_generic_devices(types, from).len(),
    ensures
        spec_generic_devices(types, from).len() <= types.len() - from,
        spec_last_port(spec_generic_devices(types, from)[j]) < spec_generic_devices(
            types,
            from,
        )[k].system,
    decreases types.len() - from,
{
    lemma_generic_devices_count(types, from);
    if from < types.len() {
        let paired_user = from + 1 < types.len() && types[from + 1] == VexPortType::User;
        let step: int = if types[from] == VexPortType::System && paired_user {
            2
        } else {
            1
        };
        if types[from] == VexPortType::User {
            lemma_generic_devices_apart(types, from + 1, j, k);
        } else if j == 0 {
            lemma_generic_devices(types, from + step, k - 1);
        } else {
            lemma_generic_devices_apart(types, from + step, j - 1, k - 1);
        }
    }
}

/// There are no more devices than ports from `from` on.
pub proof fn lemma_generic_devices_count(types: Seq<VexPortType>, from: int)
    requires
        0 <= from,
    ensures
        spec_generic_devices(types, from).len() <= if from <= types.len() {
            types.len() - from
        } else {
            0
        },
    decreases types.len() - from,
{
    if from < types.len() {
        lemma_generic_devices_count(types, from + 1);
        if from + 1 < types.len() {
            lemma_generic_devices_count(types, from + 2);
        }
    }
}

} // verus!
