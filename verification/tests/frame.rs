use vex_v5_serial::connection::{Connection, Handshake, HandshakeAction, HandshakeEvent};
use vex_v5_serial::errors::{DecodeError, DeviceError, EncodeError, PacketId};
use vex_v5_serial::packets::system::V5DeviceVersion;
use vex_v5_serial::packets::PacketKind;
use vex_v5_serial::protocol::frame::{
    encode_extended, encode_extended_reply, encode_simple, encode_simple_reply, scan, Scan,
    MAX_GARBAGE,
};
use vex_v5_serial::protocol::{
    decode_any, receive, receive_extended, Packet, Received, Reply, Request,
};
use vex_v5_serial::v5::meta::{V5BrainFlags, V5ControllerChannel, V5ControllerFlags, VexProductType};

fn version_reply() -> Vec<u8> {
    vec![0xAA, 0x55, 0xA4, 0x08, 0x01, 0x00, 0x00, 0x00, 0x00, 0x10, 0x00]
}

fn brain_version() -> V5DeviceVersion {
    V5DeviceVersion {
        system_version: (1, 0, 0, 0, 0),
        product_type: VexProductType::V5Brain(V5BrainFlags { bits: 0 }),
    }
}

#[test]
fn version_handshake_through_the_device() {
    let device = vex_v5_serial::device::vexdevice::VexDevice::new(
        vex_v5_serial::devices::VexSerialInfo {
            port_name: "ttyACM0".to_string(),
            port_type: vex_v5_serial::devices::VexPortType::System,
        },
        None,
    );
    let mut connection = Connection::new();
    let written = connection.send(&device.version_request()).unwrap();
    assert_eq!(written, vec![0xC9, 0x36, 0xB8, 0x47, 0xA4]);
    match connection.receive(PacketKind::GetSystemVersion, &version_reply()).unwrap() {
        Some(Reply::SystemVersion(v)) => assert_eq!(v, brain_version()),
        other => panic!("{:?}", other),
    }
    assert_eq!(device.get_device_version(&version_reply()[4..]), Ok(brain_version()));
}

#[test]
fn commands_outside_the_catalog_come_back_raw() {
    let mut connection = Connection::new();
    let written = connection.send_extended(0x16, &[1, 0]).unwrap();
    assert_eq!(written, encode_extended(0x16, &[1, 0]).unwrap());
    assert_eq!(connection.send_extended(0x16, &[1, 0]), Err(DeviceError::Busy));
    let frame = encode_extended_reply(0x16, 0x76, &[5, 0]).unwrap();
    assert_eq!(connection.receive_extended(0x16, &frame[..3]), Ok(None));
    assert_eq!(connection.receive_extended(0x16, &frame[3..]), Ok(Some(Reply::Raw(vec![5, 0]))));
    assert!(!connection.in_flight());
    assert_eq!(
        connection.send_extended(0x16, &vec![0; 0x8000]),
        Err(DeviceError::Encode(EncodeError::VarShortTooLarge))
    );
    assert!(!connection.in_flight());
}

#[test]
fn commands_outside_the_catalog_fail_like_the_others() {
    let frame = encode_extended_reply(0x16, 0xD0, &[]).unwrap();
    assert_eq!(
        receive_extended(0x16, &frame),
        Received::Failed { error: DeviceError::Nack(0xD0), consumed: frame.len() }
    );
    assert_eq!(
        receive_extended(0x17, &frame),
        Received::Failed {
            error: DeviceError::UnexpectedCommand {
                got: PacketId { command: 0x56, extended: Some(0x16) },
                expected: PacketId { command: 0x56, extended: Some(0x17) },
            },
            consumed: frame.len(),
        }
    );
    assert_eq!(
        receive_extended(0x16, &version_reply()),
        Received::Failed {
            error: DeviceError::UnexpectedCommand {
                got: PacketId { command: 0xA4, extended: None },
                expected: PacketId { command: 0x56, extended: Some(0x16) },
            },
            consumed: 11,
        }
    );
    let mut broken = frame.clone();
    broken[6] ^= 0xFF;
    assert_eq!(
        receive_extended(0x16, &broken),
        Received::Failed { error: DeviceError::FrameCrcError, consumed: frame.len() }
    );
    assert_eq!(receive_extended(0x16, &frame[..5]), Received::Incomplete);
    assert_eq!(
        receive_extended(0x16, &vec![0u8; 5000]),
        Received::Failed { error: DeviceError::NoFrameFound, consumed: 4097 }
    );
}

#[test]
fn version_handshake() {
    let mut connection = Connection::new();
    let written = connection.send(&Request::GetSystemVersion).unwrap();
    assert_eq!(written, vec![0xC9, 0x36, 0xB8, 0x47, 0xA4]);
    assert!(connection.in_flight());
    let reply = connection.receive(PacketKind::GetSystemVersion, &version_reply()).unwrap();
    assert_eq!(reply, Some(Reply::SystemVersion(brain_version())));
    assert!(!connection.in_flight());
    assert_eq!(connection.pending(), 0);
}

#[test]
fn version_reply_in_pieces() {
    let mut connection = Connection::new();
    connection.send(&Request::GetSystemVersion).unwrap();
    let bytes = version_reply();
    for cut in 0..bytes.len() - 1 {
        let got = connection.receive(PacketKind::GetSystemVersion, &bytes[cut..cut + 1]).unwrap();
        assert_eq!(got, None, "after {} bytes", cut + 1);
        assert_eq!(connection.pending(), cut + 1);
    }
    let got = connection.receive(PacketKind::GetSystemVersion, &bytes[bytes.len() - 1..]).unwrap();
    assert_eq!(got, Some(Reply::SystemVersion(brain_version())));
}

#[test]
fn version_of_a_controller_with_its_flags() {
    let frame = encode_simple_reply(0xA4, &[7, 6, 5, 4, 3, 0x11, 0x02, 0x00]).unwrap();
    match receive(PacketKind::GetSystemVersion, &frame) {
        Received::Reply { reply: Reply::SystemVersion(v), consumed } => {
            assert_eq!(v.system_version, (7, 6, 5, 4, 3));
            assert_eq!(v.product_type, VexProductType::V5Controller(V5ControllerFlags { bits: 2 }));
            assert_eq!(consumed, frame.len());
        }
        other => panic!("{:?}", other),
    }
}

#[test]
fn version_of_an_unknown_product_is_an_invalid_device() {
    let frame = encode_simple_reply(0xA4, &[1, 0, 0, 0, 0, 0x12, 0x00]).unwrap();
    assert_eq!(
        receive(PacketKind::GetSystemVersion, &frame),
        Received::Failed { error: DeviceError::InvalidDevice, consumed: frame.len() }
    );
}

#[test]
fn version_reply_that_ends_before_its_schema() {
    let frame = encode_simple_reply(0xA4, &[1, 0, 0]).unwrap();
    assert_eq!(
        receive(PacketKind::GetSystemVersion, &frame),
        Received::Failed {
            error: DeviceError::Decode(DecodeError::UnexpectedEnd),
            consumed: frame.len()
        }
    );
}

#[test]
fn extended_request_frame() {
    let frame = Request::SwitchChannel(V5ControllerChannel::UPLOAD).encode().unwrap();
    assert_eq!(frame, vec![0xC9, 0x36, 0xB8, 0x47, 0x56, 0x10, 0x01, 0x01, 0x18, 0x73]);
    let frame = Request::SwitchChannel(V5ControllerChannel::PIT).encode().unwrap();
    assert_eq!(frame, vec![0xC9, 0x36, 0xB8, 0x47, 0x56, 0x10, 0x01, 0x00, 0x08, 0x52]);
    assert_eq!(encode_extended(0x10, &[0x00]).unwrap(), frame);
}

#[test]
fn simple_request_frame() {
    assert_eq!(encode_simple(0xA4, &[]), vec![0xC9, 0x36, 0xB8, 0x47, 0xA4]);
    assert_eq!(encode_simple(0x21, &[9, 8]), vec![0xC9, 0x36, 0xB8, 0x47, 0x21, 9, 8]);
}

#[test]
fn extended_request_with_a_wide_length() {
    let payload = vec![0x5A; 200];
    let frame = encode_extended(0x2F, &payload).unwrap();
    assert_eq!(&frame[..8], &[0xC9, 0x36, 0xB8, 0x47, 0x56, 0x2F, 0x80, 0xC8]);
    assert_eq!(frame.len(), 4 + 2 + 2 + 200 + 2);
}

#[test]
fn extended_request_of_the_largest_payload() {
    assert!(encode_extended(0x13, &vec![0; 0x7FFF]).is_ok());
    assert_eq!(
        encode_extended(0x13, &vec![0; 0x8000]).unwrap_err(),
        EncodeError::VarShortTooLarge
    );
    assert_eq!(
        Request::KVWrite(vec![0; 0x8000]).encode().unwrap_err(),
        EncodeError::VarShortTooLarge
    );
    assert_eq!(
        encode_extended_reply(0x13, 0x76, &vec![0; 0x7FFE]).unwrap_err(),
        EncodeError::VarShortTooLarge
    );
    assert_eq!(
        encode_simple_reply(0xA4, &vec![0; 0x8000]).unwrap_err(),
        EncodeError::VarShortTooLarge
    );
}

#[test]
fn extended_reply_frame() {
    let frame = encode_extended_reply(0x12, 0x76, &[]).unwrap();
    assert_eq!(frame, vec![0xAA, 0x55, 0x56, 0x02, 0x12, 0x76, 0x16, 0xCD]);
    assert_eq!(
        scan(&frame),
        Scan::Extended { body: vec![0x12, 0x76], consumed: frame.len() }
    );
    assert_eq!(
        receive(PacketKind::ExitFileTransfer, &frame),
        Received::Reply { reply: Reply::Ack, consumed: 8 }
    );
}

#[test]
fn every_extended_kind_comes_back_from_its_frame() {
    let kinds = [
        (PacketKind::GetDeviceStatus, 0x21u8),
        (PacketKind::InitFileTransfer, 0x11),
        (PacketKind::ExitFileTransfer, 0x12),
        (PacketKind::WriteFile, 0x13),
        (PacketKind::ReadFile, 0x14),
        (PacketKind::LinkFile, 0x15),
        (PacketKind::GetFileMetadataByName, 0x19),
        (PacketKind::SwitchChannel, 0x10),
        (PacketKind::UserFifo, 0x27),
        (PacketKind::KVRead, 0x2E),
        (PacketKind::KVWrite, 0x2F),
    ];
    let payload = [1u8, 0, 0, 0, 5, 0, 0, 0, 9, 0, 0];
    for (kind, ext) in kinds {
        assert_eq!(kind.id(), PacketId { command: 0x56, extended: Some(ext) });
        assert_eq!(PacketKind::from_id(kind.id()), Some(kind));
        let frame = encode_extended_reply(ext, 0x76, &payload).unwrap();
        match receive(kind, &frame) {
            Received::Reply { consumed, .. } => assert_eq!(consumed, frame.len()),
            other => panic!("{:?}: {:?}", kind, other),
        }
    }
    assert_eq!(
        PacketKind::GetSystemVersion.id(),
        PacketId { command: 0xA4, extended: None }
    );
    assert_eq!(PacketKind::from_id(PacketId { command: 0x56, extended: Some(0x99) }), None);
    assert_eq!(PacketKind::from_id(PacketId { command: 0xA4, extended: Some(0x11) }), None);
    assert_eq!(PacketKind::from_id(PacketId { command: 0x56, extended: None }), None);
}

#[test]
fn raw_payloads_are_handed_on_as_they_are() {
    let frame = encode_extended_reply(0x21, 0x76, &[2, 9, 9]).unwrap();
    assert_eq!(
        receive(PacketKind::GetDeviceStatus, &frame),
        Received::Reply { reply: Reply::Raw(vec![2, 9, 9]), consumed: frame.len() }
    );
}

#[test]
fn every_nack_code_surfaces_with_its_byte() {
    for code in [0xCEu8, 0xD0, 0xD1, 0xD2, 0xD3, 0xD4, 0xFF, 0x00, 0x75, 0x77] {
        let frame = encode_extended_reply(0x11, code, &[1, 2, 3, 4, 5, 6, 7, 8, 9, 10]).unwrap();
        assert_eq!(
            receive(PacketKind::InitFileTransfer, &frame),
            Received::Failed { error: DeviceError::Nack(code), consumed: frame.len() }
        );
    }
}

#[test]
fn wrong_crc_is_a_frame_crc_error() {
    let mut frame = encode_extended_reply(0x12, 0x76, &[]).unwrap();
    let last = frame.len() - 1;
    frame[last] ^= 0x01;
    assert_eq!(scan(&frame), Scan::CrcError { consumed: frame.len() });
    assert_eq!(
        receive(PacketKind::ExitFileTransfer, &frame),
        Received::Failed { error: DeviceError::FrameCrcError, consumed: frame.len() }
    );
    let mut frame = encode_extended_reply(0x12, 0x76, &[]).unwrap();
    frame[5] = 0x77;
    assert_eq!(scan(&frame), Scan::CrcError { consumed: frame.len() });
}

#[test]
fn reply_of_another_kind_is_an_unexpected_command() {
    let frame = encode_extended_reply(0x12, 0x76, &[]).unwrap();
    assert_eq!(
        receive(PacketKind::WriteFile, &frame),
        Received::Failed {
            error: DeviceError::UnexpectedCommand {
                got: PacketId { command: 0x56, extended: Some(0x12) },
                expected: PacketId { command: 0x56, extended: Some(0x13) },
            },
            consumed: frame.len(),
        }
    );
    assert_eq!(
        receive(PacketKind::GetSystemVersion, &frame),
        Received::Failed {
            error: DeviceError::UnexpectedCommand {
                got: PacketId { command: 0x56, extended: Some(0x12) },
                expected: PacketId { command: 0xA4, extended: None },
            },
            consumed: frame.len(),
        }
    );
    assert_eq!(
        receive(PacketKind::WriteFile, &version_reply()),
        Received::Failed {
            error: DeviceError::UnexpectedCommand {
                got: PacketId { command: 0xA4, extended: None },
                expected: PacketId { command: 0x56, extended: Some(0x13) },
            },
            consumed: 11,
        }
    );
}

#[test]
fn body_without_an_acknowledgement_is_an_unexpected_end() {
    let mut frame = vec![0xAA, 0x55, 0x56, 0x01, 0x12];
    let crc = vex_v5_serial::crc::crc16(&frame);
    frame.push((crc >> 8) as u8);
    frame.push(crc as u8);
    assert_eq!(
        receive(PacketKind::ExitFileTransfer, &frame),
        Received::Failed {
            error: DeviceError::Decode(DecodeError::UnexpectedEnd),
            consumed: frame.len()
        }
    );
}

#[test]
fn partial_frames_are_incomplete() {
    let frame = encode_extended_reply(0x14, 0x76, &[0, 0, 0x80, 0x03, b'h', b'i']).unwrap();
    for cut in 0..frame.len() {
        assert_eq!(scan(&frame[..cut]), Scan::Incomplete, "{} bytes", cut);
    }
    assert!(matches!(scan(&frame), Scan::Extended { .. }));
}

#[test]
fn garbage_up_to_the_limit_is_skipped() {
    let frame = encode_extended_reply(0x12, 0x76, &[]).unwrap();
    for garbage in [0usize, 1, 17, MAX_GARBAGE - 1, MAX_GARBAGE] {
        let mut stream = vec![0x00u8; garbage];
        stream.extend(&frame);
        stream.extend([0xEE, 0xEE]);
        assert_eq!(
            receive(PacketKind::ExitFileTransfer, &stream),
            Received::Reply { reply: Reply::Ack, consumed: garbage + frame.len() },
            "{} bytes of garbage",
            garbage
        );
    }
}

#[test]
fn garbage_over_the_limit_is_no_frame_found() {
    assert_eq!(MAX_GARBAGE, 4096);
    let frame = encode_extended_reply(0x12, 0x76, &[]).unwrap();
    let mut stream = vec![0x00u8; 4097];
    stream.extend(&frame);
    assert_eq!(
        receive(PacketKind::ExitFileTransfer, &stream),
        Received::Failed { error: DeviceError::NoFrameFound, consumed: 4097 }
    );
    assert_eq!(scan(&stream), Scan::NoFrameFound { consumed: 4097 });
}

#[test]
fn garbage_that_looks_like_half_a_preamble_is_skipped() {
    let frame = encode_extended_reply(0x12, 0x76, &[]).unwrap();
    let mut stream = vec![0xAA, 0xAA, 0x54, 0x55, 0xAA];
    stream.extend(&frame);
    assert_eq!(
        receive(PacketKind::ExitFileTransfer, &stream),
        Received::Reply { reply: Reply::Ack, consumed: 5 + frame.len() }
    );
}

#[test]
fn garbage_alone_waits_until_the_limit() {
    assert_eq!(scan(&vec![0u8; 4097]), Scan::Incomplete);
    assert_eq!(scan(&vec![0u8; 4098]), Scan::NoFrameFound { consumed: 4097 });
}

#[test]
fn connection_keeps_what_follows_a_frame() {
    let mut connection = Connection::new();
    connection.send(&Request::ExitFileTransfer(vex_v5_serial::v5::meta::FileExitAction::Halt)).unwrap();
    let mut stream = encode_extended_reply(0x12, 0x76, &[]).unwrap();
    stream.extend([0xAA, 0x55, 0x56]);
    assert_eq!(connection.receive(PacketKind::ExitFileTransfer, &stream), Ok(Some(Reply::Ack)));
    assert_eq!(connection.pending(), 3);
}

#[test]
fn connection_is_busy_while_a_request_is_in_flight() {
    let mut connection = Connection::new();
    connection.send(&Request::GetSystemVersion).unwrap();
    assert_eq!(connection.send(&Request::GetDeviceStatus), Err(DeviceError::Busy));
    assert!(connection.in_flight());
    connection.receive(PacketKind::GetSystemVersion, &version_reply()).unwrap();
    assert!(connection.send(&Request::GetDeviceStatus).is_ok());
}

#[test]
fn connection_stays_free_when_a_request_cannot_be_encoded() {
    let mut connection = Connection::new();
    assert_eq!(
        connection.send(&Request::KVRead(vec![0; 40000])),
        Err(DeviceError::Encode(EncodeError::VarShortTooLarge))
    );
    assert!(!connection.in_flight());
}

#[test]
fn timeout_keeps_the_partial_frame() {
    let mut connection = Connection::new();
    connection.send(&Request::GetSystemVersion).unwrap();
    let bytes = version_reply();
    assert_eq!(connection.receive(PacketKind::GetSystemVersion, &bytes[..6]), Ok(None));
    assert_eq!(connection.expire(), DeviceError::Timeout);
    assert!(!connection.in_flight());
    assert_eq!(connection.pending(), 6);
    let got = connection.receive(PacketKind::GetSystemVersion, &bytes[6..]).unwrap();
    assert_eq!(got, Some(Reply::SystemVersion(brain_version())));
}

#[test]
fn failure_ends_the_flight_and_drops_the_frame() {
    let mut connection = Connection::new();
    connection.send(&Request::GetDeviceStatus).unwrap();
    let frame = encode_extended_reply(0x21, 0xFF, &[]).unwrap();
    assert_eq!(
        connection.receive(PacketKind::GetDeviceStatus, &frame),
        Err(DeviceError::Nack(0xFF))
    );
    assert!(!connection.in_flight());
    assert_eq!(connection.pending(), 0);
}

#[test]
fn handshake_sends_again_on_every_timeout_while_tries_are_left() {
    let (mut handshake, first) = Handshake::start(&Request::GetDeviceStatus, 2).unwrap();
    assert_eq!(first, Request::GetDeviceStatus.encode().unwrap());
    assert_eq!(
        handshake.step(HandshakeEvent::Error(DeviceError::Timeout)),
        HandshakeAction::Send(first.clone())
    );
    assert_eq!(
        handshake.step(HandshakeEvent::Error(DeviceError::Timeout)),
        HandshakeAction::Send(first.clone())
    );
    assert_eq!(
        handshake.step(HandshakeEvent::Error(DeviceError::Timeout)),
        HandshakeAction::Abort(DeviceError::Timeout)
    );
}

#[test]
fn handshake_returns_the_reply() {
    let (mut handshake, _) = Handshake::start(&Request::GetDeviceStatus, 10).unwrap();
    assert_eq!(
        handshake.step(HandshakeEvent::Error(DeviceError::Timeout)),
        HandshakeAction::Send(Request::GetDeviceStatus.encode().unwrap())
    );
    assert_eq!(
        handshake.step(HandshakeEvent::Reply(Reply::Raw(vec![1]))),
        HandshakeAction::Return(Reply::Raw(vec![1]))
    );
}

#[test]
fn handshake_gives_up_on_any_other_error() {
    for error in [
        DeviceError::Io,
        DeviceError::FrameCrcError,
        DeviceError::Nack(0xD0),
        DeviceError::NoFrameFound,
        DeviceError::Busy,
    ] {
        let (mut handshake, _) = Handshake::start(&Request::GetDeviceStatus, 10).unwrap();
        assert_eq!(handshake.step(HandshakeEvent::Error(error)), HandshakeAction::Abort(error));
    }
    assert_eq!(
        Handshake::start(&Request::KVRead(vec![0; 40000]), 1).unwrap_err(),
        DeviceError::Encode(EncodeError::VarShortTooLarge)
    );
}

#[test]
fn packet_trait_splits_command_and_data() {
    assert_eq!(Request::GetSystemVersion.encode_request(), Ok((0xA4, vec![])));
    assert_eq!(
        Request::SwitchChannel(V5ControllerChannel::UPLOAD).encode_request(),
        Ok((0x56, vec![0x10, 0x01, 0x01]))
    );
    assert_eq!(
        <Request as Packet>::decode_response(0x56, vec![0x12, 0x76]),
        Ok(Reply::Ack)
    );
    assert_eq!(
        <Request as Packet>::decode_response(0xA4, vec![1, 0, 0, 0, 0, 0x10, 0]),
        Ok(Reply::SystemVersion(brain_version()))
    );
    assert_eq!(decode_any(0x56, &[0x99, 0x76]), Err(DeviceError::NotSupported));
    assert_eq!(decode_any(0x01, &[]), Err(DeviceError::NotSupported));
    assert_eq!(decode_any(0x56, &[]), Err(DeviceError::Decode(DecodeError::UnexpectedEnd)));
    assert_eq!(decode_any(0x56, &[0x11, 0xD2]), Err(DeviceError::Nack(0xD2)));
}
