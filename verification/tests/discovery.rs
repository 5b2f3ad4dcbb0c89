use vex_v5_serial::devices::genericv5::{
    find_generic_devices, find_generic_ports, SerialPortInfo, UsbPortInfo, VexGenericSerialPort,
    VexUsbIds,
};
use vex_v5_serial::devices::{VexDevice, VexDeviceType, VexPortType};

const IDS: VexUsbIds = VexUsbIds { vendor: 0x2888, brain: 0x0501, controller: 0x0503 };

fn usb(name: &str, vid: u16, pid: u16, product: Option<&str>) -> SerialPortInfo {
    SerialPortInfo {
        port_name: name.to_string(),
        usb: Some(UsbPortInfo { vid, pid, product: product.map(|p| p.to_string()) }),
    }
}

fn types(ports: &[VexGenericSerialPort]) -> Vec<(String, VexPortType)> {
    ports.iter().map(|p| (p.port_info.port_name.clone(), p.port_type)).collect()
}

fn generic(name: &str, port_type: VexPortType) -> VexGenericSerialPort {
    VexGenericSerialPort {
        port_info: SerialPortInfo { port_name: name.to_string(), usb: None },
        port_type,
    }
}

fn device(system: &str, user: Option<&str>, device_type: VexDeviceType) -> VexDevice {
    VexDevice {
        system_port: system.to_string(),
        user_port: user.map(|u| u.to_string()),
        device_type,
    }
}

#[test]
fn ports_are_told_by_their_product_name() {
    let ports = vec![
        usb("a", 0x2888, 0x0501, Some("VEX Robotics Communications Port")),
        usb("b", 0x2888, 0x0501, Some("VEX Robotics User Port")),
        usb("c", 0x2888, 0x0503, Some("VEX Robotics Controller")),
        usb("d", 0x2888, 0x0503, None),
    ];
    assert_eq!(
        types(&find_generic_ports(&ports, &IDS)),
        vec![
            ("a".to_string(), VexPortType::System),
            ("b".to_string(), VexPortType::User),
            ("c".to_string(), VexPortType::Controller),
            ("d".to_string(), VexPortType::Controller),
        ]
    );
}

#[test]
fn the_word_user_wins_over_the_word_communications() {
    let ports = vec![usb("a", 0x2888, 0x0501, Some("Communications for the User"))];
    assert_eq!(find_generic_ports(&ports, &IDS)[0].port_type, VexPortType::User);
    let ports = vec![usb("a", 0x2888, 0x0501, Some("user communications"))];
    assert_eq!(find_generic_ports(&ports, &IDS)[0].port_type, VexPortType::System);
}

#[test]
fn ports_of_other_devices_are_left_out() {
    let ports = vec![
        SerialPortInfo { port_name: "pci".to_string(), usb: None },
        usb("other vendor", 0x0403, 0x0501, Some("User")),
        usb("other product", 0x2888, 0x0502, Some("User")),
        usb("brain without a name", 0x2888, 0x0501, None),
        usb("kept", 0x2888, 0x0501, Some("User")),
    ];
    let found = find_generic_ports(&ports, &IDS);
    assert_eq!(types(&found), vec![("kept".to_string(), VexPortType::User)]);
    assert_eq!(found[0].port_info, ports[4]);
}

#[test]
fn a_nameless_port_goes_by_the_port_before_it() {
    let ports = vec![
        usb("a", 0x2888, 0x0501, Some("ttyACM")),
        usb("b", 0x2888, 0x0501, Some("ttyACM")),
        usb("c", 0x2888, 0x0501, Some("ttyACM")),
        usb("x", 0x1111, 0x0501, Some("ttyACM")),
        usb("d", 0x2888, 0x0501, Some("ttyACM")),
        usb("e", 0x2888, 0x0503, Some("ttyACM")),
        usb("f", 0x2888, 0x0501, Some("ttyACM")),
    ];
    assert_eq!(
        find_generic_ports(&ports, &IDS).iter().map(|p| p.port_type).collect::<Vec<_>>(),
        vec![
            VexPortType::System,
            VexPortType::User,
            VexPortType::System,
            VexPortType::User,
            VexPortType::Controller,
            VexPortType::System,
        ]
    );
}

#[test]
fn no_ports_no_devices() {
    assert!(find_generic_ports(&vec![], &IDS).is_empty());
    assert!(find_generic_devices(&vec![]).is_empty());
}

#[test]
fn a_system_port_and_the_user_port_behind_it_are_a_brain() {
    let ports = vec![generic("s", VexPortType::System), generic("u", VexPortType::User)];
    assert_eq!(find_generic_devices(&ports), vec![device("s", Some("u"), VexDeviceType::Brain)]);
}

#[test]
fn a_user_port_before_a_system_port_is_left_out() {
    let ports = vec![generic("u", VexPortType::User), generic("s", VexPortType::System)];
    assert_eq!(find_generic_devices(&ports), vec![device("s", None, VexDeviceType::Unknown)]);
}

#[test]
fn a_system_port_that_is_last_is_unknown() {
    let ports = vec![
        generic("c", VexPortType::Controller),
        generic("u", VexPortType::User),
        generic("s", VexPortType::System),
    ];
    assert_eq!(
        find_generic_devices(&ports),
        vec![device("c", None, VexDeviceType::Controller), device("s", None, VexDeviceType::Unknown)]
    );
}

#[test]
fn a_system_port_before_a_controller_is_unknown() {
    let ports = vec![
        generic("s", VexPortType::System),
        generic("c", VexPortType::Controller),
        generic("u", VexPortType::User),
    ];
    assert_eq!(
        find_generic_devices(&ports),
        vec![device("s", None, VexDeviceType::Unknown), device("c", None, VexDeviceType::Controller)]
    );
}

#[test]
fn a_lone_system_port_is_unknown() {
    let ports = vec![generic("s", VexPortType::System)];
    assert_eq!(find_generic_devices(&ports), vec![device("s", None, VexDeviceType::Unknown)]);
    let ports = vec![generic("s1", VexPortType::System), generic("s2", VexPortType::System)];
    assert_eq!(
        find_generic_devices(&ports),
        vec![device("s1", None, VexDeviceType::Unknown), device("s2", None, VexDeviceType::Unknown)]
    );
}

#[test]
fn a_lone_user_port_is_left_out() {
    let ports = vec![generic("u", VexPortType::User)];
    assert!(find_generic_devices(&ports).is_empty());
    let ports = vec![
        generic("u1", VexPortType::User),
        generic("u2", VexPortType::User),
        generic("c", VexPortType::Controller),
    ];
    assert_eq!(find_generic_devices(&ports), vec![device("c", None, VexDeviceType::Controller)]);
}

#[test]
fn a_port_belongs_to_one_device_only() {
    let ports = vec![
        generic("s1", VexPortType::System),
        generic("u1", VexPortType::User),
        generic("s2", VexPortType::System),
        generic("c", VexPortType::Controller),
        generic("u2", VexPortType::User),
        generic("s3", VexPortType::System),
        generic("u3", VexPortType::User),
    ];
    assert_eq!(
        find_generic_devices(&ports),
        vec![
            device("s1", Some("u1"), VexDeviceType::Brain),
            device("s2", None, VexDeviceType::Unknown),
            device("c", None, VexDeviceType::Controller),
            device("s3", Some("u3"), VexDeviceType::Brain),
        ]
    );
}

#[test]
fn discovery_from_ports_to_devices() {
    let ports = vec![
        usb("/dev/ttyACM0", 0x2888, 0x0501, Some("VEX Robotics V5 Brain - Communications")),
        usb("/dev/ttyACM1", 0x2888, 0x0501, Some("VEX Robotics V5 Brain - User")),
        usb("/dev/ttyUSB0", 0x10c4, 0xea60, Some("CP2102")),
        usb("/dev/ttyACM2", 0x2888, 0x0503, Some("VEX Robotics V5 Controller")),
    ];
    assert_eq!(
        find_generic_devices(&find_generic_ports(&ports, &IDS)),
        vec![
            device("/dev/ttyACM0", Some("/dev/ttyACM1"), VexDeviceType::Brain),
            device("/dev/ttyACM2", None, VexDeviceType::Controller),
        ]
    );
}
