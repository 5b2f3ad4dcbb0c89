use vex_v5_serial::device::file::{
    VexFileMode, VexFileTarget, VexFiletransferFinished, VexInitialFileMetadata, COLD_START,
};
use vex_v5_serial::device::vexdevice::{
    ChannelAction, ChannelEvent, ChannelPhase, ChannelScope, SerialWrite, VexDevice,
    DEFAULT_TIMEOUT_MS,
};
use vex_v5_serial::devices::{VexPortType, VexSerialInfo};
use vex_v5_serial::errors::{DecodeError, DeviceError, EncodeError};
use vex_v5_serial::packets::file::{InitFileTransferPayload, Version};
use vex_v5_serial::packets::system::V5DeviceVersion;
use vex_v5_serial::protocol::frame::encode_extended;
use vex_v5_serial::protocol::Request;
use vex_v5_serial::string::FixedLengthString;
use vex_v5_serial::v5::meta::{
    FileExitAction, FileInitAction, FileTransferFunction, FileTransferOptions, FileTransferTarget,
    FileTransferVID, V5BrainFlags, V5ControllerChannel, V5ControllerFlags, VexProductType,
};

fn port(name: &str, port_type: VexPortType) -> VexSerialInfo {
    VexSerialInfo { port_name: name.to_string(), port_type }
}

fn brain() -> VexDevice {
    VexDevice::new(port("ttyACM0", VexPortType::System), Some(port("ttyACM1", VexPortType::User)))
}

fn controller() -> VexDevice {
    VexDevice::new(port("ttyACM2", VexPortType::Controller), None)
}

fn controller_version() -> V5DeviceVersion {
    V5DeviceVersion {
        system_version: (1, 0, 13, 0, 0),
        product_type: VexProductType::V5Controller(V5ControllerFlags { bits: 1 }),
    }
}

fn brain_version() -> V5DeviceVersion {
    V5DeviceVersion {
        system_version: (1, 0, 13, 0, 0),
        product_type: VexProductType::V5Brain(V5BrainFlags { bits: 0 }),
    }
}

fn name_field(name: &str) -> Vec<u8> {
    let mut field = name.as_bytes().to_vec();
    field.resize(24, 0);
    field
}

#[test]
fn new_device_starts_with_the_default_timeout_and_nothing_buffered() {
    let device = brain();
    assert_eq!(device.port, port("ttyACM0", VexPortType::System));
    assert_eq!(device.user_port, Some(port("ttyACM1", VexPortType::User)));
    assert_eq!(device.timeout_ms(), DEFAULT_TIMEOUT_MS);
    assert!(device.serial_buffer.is_empty());
}

#[test]
fn set_timeout_falls_back_to_the_default() {
    let mut device = brain();
    device.set_timeout(Some(2500));
    assert_eq!(device.timeout_ms(), 2500);
    device.set_timeout(None);
    assert_eq!(device.timeout_ms(), 100);
}

#[test]
fn version_request_is_the_simple_version_query() {
    let request = brain().version_request();
    assert_eq!(request, Request::GetSystemVersion);
    assert_eq!(request.encode().unwrap(), vec![0xC9, 0x36, 0xB8, 0x47, 0xA4]);
    assert_eq!(request.encode_payload(), Vec::<u8>::new());
}

#[test]
fn set_program_file_metadata_payload() {
    let device = brain();
    let metadata = [1u8, 0, 0x00, 0x00, 0x80, 0x03, b'b', b'i', b'n', 0];
    let mut expected = metadata.to_vec();
    expected.extend(name_field("slot1.bin"));
    assert_eq!(device.set_program_file_metadata("slot1.bin", &metadata), Ok(expected));
    assert_eq!(device.set_program_file_metadata("x", &[]), Ok(name_field("x")));
    assert_eq!(
        device.set_program_file_metadata("abcdefghijklmnopqrstuvwx", &metadata),
        Err(DeviceError::Encode(EncodeError::StringTooLong))
    );
    assert_eq!(
        device.set_program_file_metadata("\u{e9}", &metadata),
        Err(DeviceError::Encode(EncodeError::NotAscii))
    );
}

#[test]
fn device_version_from_its_reply() {
    let device = brain();
    assert_eq!(device.get_device_version(&[1, 0, 13, 0, 0, 0x10, 0]), Ok(brain_version()));
    assert_eq!(device.get_device_version(&[1, 0, 13, 0, 0, 0x11, 1, 9]), Ok(controller_version()));
    assert_eq!(
        device.get_device_version(&[1, 0, 13, 0, 0, 0x11, 0xF0]),
        Ok(V5DeviceVersion {
            system_version: (1, 0, 13, 0, 0),
            product_type: VexProductType::V5Controller(V5ControllerFlags { bits: 0 }),
        })
    );
    assert_eq!(
        device.get_device_version(&[1, 0, 13, 0, 0, 0x10]),
        Err(DeviceError::Decode(DecodeError::UnexpectedEnd))
    );
    assert_eq!(
        device.get_device_version(&[1, 0, 13, 0, 0, 0x0F, 0]),
        Err(DeviceError::InvalidDevice)
    );
}

#[test]
fn product_bytes() {
    assert_eq!(u8::from(VexProductType::V5Brain(V5BrainFlags { bits: 0 })), 0x10);
    assert_eq!(u8::from(VexProductType::V5Controller(V5ControllerFlags { bits: 3 })), 0x11);
    assert_eq!(
        VexProductType::try_from((0x10, 0xFF)),
        Ok(VexProductType::V5Brain(V5BrainFlags { bits: 0 }))
    );
    assert_eq!(
        VexProductType::try_from((0x11, 0x03)),
        Ok(VexProductType::V5Controller(V5ControllerFlags { bits: 3 }))
    );
    assert_eq!(
        VexProductType::try_from((0x11, 0x04)),
        Ok(VexProductType::V5Controller(V5ControllerFlags { bits: 0 }))
    );
    assert_eq!(VexProductType::try_from((0x12, 0)), Err(DeviceError::InvalidDevice));
    assert_eq!(V5ControllerFlags::from_bits(4), None);
    assert_eq!(V5BrainFlags::from_bits(1), None);
    let both = V5ControllerFlags::from_bits(3).unwrap();
    assert!(both.connected_cable() && both.connected_wireless());
    let radio = V5ControllerFlags::from_bits(2).unwrap();
    assert!(!radio.connected_cable() && radio.connected_wireless());
    assert_eq!(radio.bits(), 2);
    assert_eq!(V5ControllerFlags::none().bits(), 0);
    assert_eq!(V5BrainFlags::none().bits(), 0);
}

#[test]
fn wire_codes() {
    assert_eq!(V5ControllerChannel::PIT.code(), 0);
    assert_eq!(V5ControllerChannel::UPLOAD.code(), 1);
    assert_eq!(FileInitAction::Read.code(), 1);
    assert_eq!(FileInitAction::Write.code(), 2);
    assert_eq!(FileTransferFunction::Upload.action(), FileInitAction::Write);
    assert_eq!(FileTransferFunction::Download.action(), FileInitAction::Read);
    assert_eq!(FileTransferTarget::Flash.code(), 1);
    assert_eq!(FileTransferTarget::Screen.code(), 2);
    assert_eq!(VexFileTarget::DDR.code(), 0);
    assert_eq!(VexFileTarget::FLASH.code(), 1);
    assert_eq!(VexFileTarget::SCREEN.code(), 2);
    assert_eq!(VexFileTarget::qspi(), VexFileTarget::FLASH);
    assert_eq!(FileTransferOptions::NONE.bits(), 0);
    assert_eq!(FileTransferOptions::OVERWRITE.bits(), 1);
    assert_eq!(FileExitAction::DoNothing.code(), 0);
    assert_eq!(FileExitAction::RunProgram.code(), 1);
    assert_eq!(FileExitAction::Halt.code(), 2);
    assert_eq!(FileExitAction::ShowRunScreen.code(), 3);
    for (vid, code) in [
        (FileTransferVID::User, 1u8),
        (FileTransferVID::System, 15),
        (FileTransferVID::RMS, 16),
        (FileTransferVID::PROS, 24),
        (FileTransferVID::MW, 32),
    ] {
        assert_eq!(vid.code(), code);
        assert_eq!(FileTransferVID::from_code(code), Some(vid));
    }
    assert_eq!(FileTransferVID::from_code(2), None);
    assert_eq!(FileTransferVID::default(), FileTransferVID::User);
    assert_eq!(VexFiletransferFinished::default(), VexFiletransferFinished::DoNothing);
    assert_eq!(VexFiletransferFinished::ShowRunScreen.action(), FileExitAction::ShowRunScreen);
    assert_eq!(VexFiletransferFinished::RunProgram.action(), FileExitAction::RunProgram);
    assert_eq!(
        VexFileMode::Download(VexFileTarget::SCREEN, false).parts(),
        (FileInitAction::Read, VexFileTarget::SCREEN, false)
    );
}

#[test]
fn switch_channel_applies_to_controllers_only() {
    let device = controller();
    assert_eq!(
        device.switch_channel(&controller_version(), Some(V5ControllerChannel::UPLOAD)),
        Some(V5ControllerChannel::UPLOAD)
    );
    assert_eq!(
        device.switch_channel(&controller_version(), None),
        Some(V5ControllerChannel::PIT)
    );
    assert_eq!(device.switch_channel(&brain_version(), Some(V5ControllerChannel::UPLOAD)), None);
}

fn run_scope(
    version: Result<V5DeviceVersion, DeviceError>,
    work: Result<(), DeviceError>,
) -> (Vec<ChannelAction>, Option<DeviceError>) {
    let mut scope = controller().with_channel(V5ControllerChannel::UPLOAD);
    assert_eq!(scope.phase, ChannelPhase::Idle);
    let mut actions = Vec::new();
    let mut event = ChannelEvent::Start;
    loop {
        let action = scope.step(event);
        actions.push(action);
        event = match action {
            ChannelAction::QueryVersion => match version {
                Ok(v) => ChannelEvent::Version(v),
                Err(e) => ChannelEvent::Error(e),
            },
            ChannelAction::Switch(_) => ChannelEvent::Switched,
            ChannelAction::Work => match work {
                Ok(()) => ChannelEvent::WorkDone,
                Err(e) => ChannelEvent::WorkFailed(e),
            },
            ChannelAction::Finish(result) => {
                assert_eq!(scope.phase, ChannelPhase::Done);
                return (actions, result);
            }
        };
    }
}

#[test]
fn channel_switch_scope() {
    let (actions, result) = run_scope(Ok(controller_version()), Ok(()));
    assert_eq!(
        actions,
        vec![
            ChannelAction::QueryVersion,
            ChannelAction::Switch(V5ControllerChannel::UPLOAD),
            ChannelAction::Work,
            ChannelAction::QueryVersion,
            ChannelAction::Switch(V5ControllerChannel::PIT),
            ChannelAction::Finish(None),
        ]
    );
    assert_eq!(result, None);
}

#[test]
fn channel_is_switched_back_when_the_work_fails() {
    let (actions, result) = run_scope(Ok(controller_version()), Err(DeviceError::Nack(0xD3)));
    assert_eq!(
        actions,
        vec![
            ChannelAction::QueryVersion,
            ChannelAction::Switch(V5ControllerChannel::UPLOAD),
            ChannelAction::Work,
            ChannelAction::QueryVersion,
            ChannelAction::Switch(V5ControllerChannel::PIT),
            ChannelAction::Finish(Some(DeviceError::Nack(0xD3))),
        ]
    );
    assert_eq!(result, Some(DeviceError::Nack(0xD3)));
}

#[test]
fn channel_scope_on_a_brain_switches_nothing() {
    let (actions, result) = run_scope(Ok(brain_version()), Ok(()));
    assert_eq!(
        actions,
        vec![
            ChannelAction::QueryVersion,
            ChannelAction::Work,
            ChannelAction::QueryVersion,
            ChannelAction::Finish(None),
        ]
    );
    assert_eq!(result, None);
}

#[test]
fn channel_scope_without_a_version_does_no_work() {
    let (actions, result) = run_scope(Err(DeviceError::Timeout), Ok(()));
    assert_eq!(
        actions,
        vec![ChannelAction::QueryVersion, ChannelAction::Finish(Some(DeviceError::Timeout))]
    );
    assert_eq!(result, Some(DeviceError::Timeout));
}

#[test]
fn channel_scope_keeps_the_failure_of_the_work() {
    let mut scope = ChannelScope {
        phase: ChannelPhase::SwitchAfter,
        channel: V5ControllerChannel::UPLOAD,
        failure: Some(DeviceError::Io),
    };
    assert_eq!(
        scope.step(ChannelEvent::Error(DeviceError::Timeout)),
        ChannelAction::Finish(Some(DeviceError::Io))
    );
    let mut scope = ChannelScope {
        phase: ChannelPhase::SwitchAfter,
        channel: V5ControllerChannel::UPLOAD,
        failure: None,
    };
    assert_eq!(
        scope.step(ChannelEvent::Error(DeviceError::Timeout)),
        ChannelAction::Finish(Some(DeviceError::Timeout))
    );
    assert_eq!(
        scope.step(ChannelEvent::Start),
        ChannelAction::Finish(Some(DeviceError::NotSupported))
    );
}

#[test]
fn read_serial_waits_for_the_bytes_asked_for() {
    let mut device = brain();
    assert_eq!(device.read_serial(4, b"ab"), None);
    assert_eq!(device.read_serial(4, b"c"), None);
    assert_eq!(device.read_serial(4, b"defg"), Some(b"abcd".to_vec()));
    assert_eq!(device.serial_buffer, b"efg".to_vec());
    assert_eq!(device.read_serial(0, b"h"), Some(b"efgh".to_vec()));
    assert!(device.serial_buffer.is_empty());
    assert_eq!(device.read_serial(0, b""), Some(vec![]));
}

#[test]
fn read_hands_out_what_is_there() {
    let mut device = brain();
    assert_eq!(device.read(4, b"ab"), b"ab".to_vec());
    assert_eq!(device.read(2, b"cdef"), b"cd".to_vec());
    assert_eq!(device.read(8, b""), b"ef".to_vec());
    assert_eq!(device.read(8, b""), Vec::<u8>::new());
}

#[test]
fn serial_read_request() {
    assert_eq!(
        controller().read_serial_raw(),
        vec![0xC9, 0x36, 0xB8, 0x47, 0x56, 0x27, 0x02, 0x01, 0x40, 0x8C, 0x69]
    );
}

#[test]
fn write_serial_goes_to_the_user_port_where_there_is_one() {
    assert_eq!(brain().write_serial(b"hello".to_vec()), (5, SerialWrite::UserPort(b"hello".to_vec())));
}

#[test]
fn write_serial_goes_in_frames_to_the_system_port() {
    let data: Vec<u8> = (0..500u32).map(|i| i as u8).collect();
    let (len, write) = controller().write_serial(data.clone());
    assert_eq!(len, 500);
    let frames = match write {
        SerialWrite::SystemPort(frames) => frames,
        other => panic!("{:?}", other),
    };
    assert_eq!(frames.len(), 3);
    let mut offset = 0;
    for (frame, size) in frames.iter().zip([224usize, 224, 52]) {
        let mut payload = vec![0x01, 0x00];
        payload.extend(&data[offset..offset + size]);
        assert_eq!(*frame, encode_extended(0x27, &payload).unwrap());
        offset += size;
    }
}

#[test]
fn write_serial_raw_frame_counts() {
    let device = controller();
    assert_eq!(device.write_serial_raw(&[]).len(), 0);
    assert_eq!(device.write_serial_raw(&[7]).len(), 1);
    assert_eq!(device.write_serial_raw(&[7; 224]).len(), 1);
    assert_eq!(device.write_serial_raw(&[7; 225]).len(), 2);
    assert_eq!(device.write_serial_raw(&[7; 448]).len(), 2);
    assert_eq!(device.write_serial_raw(&[7; 449]).len(), 3);
    assert_eq!(
        device.write_serial_raw(&[7]),
        vec![encode_extended(0x27, &[0x01, 0x00, 7]).unwrap()]
    );
}

#[test]
fn execute_program_file_payload() {
    let device = brain();
    let mut expected = vec![1, 0];
    expected.extend(name_field("slot1.bin"));
    assert_eq!(device.execute_program_file("slot1.bin", None, None), Ok(expected));
    let mut expected = vec![24, 0x80];
    expected.extend(name_field("a"));
    assert_eq!(
        device.execute_program_file("a", Some(FileTransferVID::PROS), Some(0x80)),
        Ok(expected)
    );
}

#[test]
fn file_names_must_be_ascii_and_fit_the_field() {
    let device = brain();
    let long = "abcdefghijklmnopqrstuvwx";
    assert_eq!(
        device.execute_program_file(long, None, None),
        Err(DeviceError::Encode(EncodeError::StringTooLong))
    );
    assert_eq!(
        device.execute_program_file("caf\u{e9}", None, None),
        Err(DeviceError::Encode(EncodeError::NotAscii))
    );
    assert_eq!(
        device.open(long, None).unwrap_err(),
        DeviceError::Encode(EncodeError::StringTooLong)
    );
    assert_eq!(
        device.file_metadata_from_name("\u{2603}", None, None).unwrap_err(),
        DeviceError::Encode(EncodeError::NotAscii)
    );
    assert_eq!(
        device.delete_file(long, None, None).unwrap_err(),
        DeviceError::Encode(EncodeError::StringTooLong)
    );
    assert!(device.open(&long[..23], None).is_ok());
}

#[test]
fn open_builds_the_request_from_the_metadata() {
    let metadata = VexInitialFileMetadata {
        function: VexFileMode::Download(VexFileTarget::SCREEN, false),
        vid: FileTransferVID::System,
        options: 0,
        length: 77,
        addr: 0x1000,
        crc: 0xCAFE_F00D,
        file_type: *b"bm\0\0",
        timestamp: 0xFFFF_FFFE,
        version: 0x0403_0201,
    };
    let request = brain().open("screen.bmp", Some(metadata)).unwrap();
    assert_eq!(
        request,
        Request::InitFileTransfer(InitFileTransferPayload {
            operation: FileInitAction::Read,
            target: VexFileTarget::SCREEN,
            vendor: FileTransferVID::System,
            options: FileTransferOptions::NONE,
            write_file_size: 77,
            load_address: 0x1000,
            write_file_crc: 0xCAFE_F00D,
            file_extension: FixedLengthString::new("bm").unwrap(),
            timestamp: -2,
            version: Version { major: 1, minor: 2, build: 3, beta: 4 },
            file_name: FixedLengthString::new("screen.bmp").unwrap(),
        })
    );
}

#[test]
fn open_overwrites_when_either_flag_says_so() {
    let mut metadata = VexInitialFileMetadata::at(946684800);
    metadata.function = VexFileMode::Upload(VexFileTarget::FLASH, false);
    let options = |m: VexInitialFileMetadata| match brain().open("f", Some(m)).unwrap() {
        Request::InitFileTransfer(p) => p.options,
        other => panic!("{:?}", other),
    };
    assert_eq!(options(metadata), FileTransferOptions::NONE);
    metadata.options = 1;
    assert_eq!(options(metadata), FileTransferOptions::OVERWRITE);
    metadata.options = 2;
    assert_eq!(options(metadata), FileTransferOptions::NONE);
    metadata.function = VexFileMode::Upload(VexFileTarget::FLASH, true);
    assert_eq!(options(metadata), FileTransferOptions::OVERWRITE);
}

#[test]
fn default_metadata_at_a_given_time() {
    assert_eq!(
        VexInitialFileMetadata::at(946684800 + 5),
        VexInitialFileMetadata {
            function: VexFileMode::Upload(VexFileTarget::FLASH, true),
            vid: FileTransferVID::User,
            options: 0,
            length: 0,
            addr: 0x3800000,
            crc: 0,
            file_type: *b"bin\0",
            timestamp: 5,
            version: 0,
        }
    );
    assert_eq!(COLD_START, 0x0380_0000);
}

#[test]
fn default_metadata_is_stamped_by_the_clock() {
    let before = VexInitialFileMetadata::default();
    let after = VexInitialFileMetadata::default();
    // Seconds since 2000: past the year 2020 and not running backwards.
    assert!(before.timestamp > 631_152_000);
    assert!(after.timestamp >= before.timestamp);
    assert_eq!(
        VexInitialFileMetadata { timestamp: 0, ..before },
        VexInitialFileMetadata::at(946684800)
    );
}

#[test]
fn open_without_metadata_is_an_overwriting_upload() {
    match brain().open("slot1.bin", None).unwrap() {
        Request::InitFileTransfer(p) => {
            assert_eq!(p.operation, FileInitAction::Write);
            assert_eq!(p.target, VexFileTarget::FLASH);
            assert_eq!(p.vendor, FileTransferVID::User);
            assert_eq!(p.options, FileTransferOptions::OVERWRITE);
            assert_eq!(p.load_address, COLD_START);
            assert_eq!(p.file_extension, FixedLengthString::new("bin").unwrap());
            assert!(p.timestamp > 631_152_000);
        }
        other => panic!("{:?}", other),
    }
}

#[test]
fn file_transfer_close_asks_for_nothing_by_default() {
    let device = brain();
    assert_eq!(
        device.file_transfer_close(None),
        Request::ExitFileTransfer(FileExitAction::DoNothing)
    );
    assert_eq!(
        device.file_transfer_close(Some(VexFiletransferFinished::RunProgram)),
        Request::ExitFileTransfer(FileExitAction::RunProgram)
    );
}

#[test]
fn metadata_requests() {
    let device = brain();
    assert_eq!(device.file_metadata_from_index(3, None), vec![3, 0]);
    assert_eq!(device.file_metadata_from_index(3, Some(9)), vec![3, 9]);
    let request = device.file_metadata_from_name("slot2.ini", Some(FileTransferVID::MW), Some(1)).unwrap();
    let mut expected = vec![32, 1];
    expected.extend(name_field("slot2.ini"));
    assert_eq!(request.encode_payload(), expected);
    assert_eq!(request.kind().id().extended, Some(0x19));
}

#[test]
fn directory_count() {
    let device = brain();
    assert_eq!(device.get_directory_count(None, None), vec![1, 0]);
    assert_eq!(device.get_directory_count(Some(FileTransferVID::RMS), Some(4)), vec![16, 4]);
    assert_eq!(device.directory_count(&[0x05, 0x00]), Ok(5));
    assert_eq!(device.directory_count(&[0xFF, 0xFF, 0x01]), Ok(-1));
    assert_eq!(device.directory_count(&[0x00, 0x80]), Ok(i16::MIN));
    assert_eq!(device.directory_count(&[0x05]), Err(DeviceError::Decode(DecodeError::UnexpectedEnd)));
}

#[test]
fn delete_file_erases_all_by_default_and_closes_the_transfer() {
    let device = brain();
    let (payload, close) = device.delete_file("slot1.bin", None, None).unwrap();
    let mut expected = vec![1, 0x80];
    expected.extend(name_field("slot1.bin"));
    assert_eq!(payload, expected);
    assert_eq!(close, Request::ExitFileTransfer(FileExitAction::DoNothing));
    let (payload, _) = device.delete_file("x", Some(FileTransferVID::PROS), Some(false)).unwrap();
    assert_eq!(payload[..2], [24, 0x00]);
    let (payload, _) = device.delete_file("x", None, Some(true)).unwrap();
    assert_eq!(payload[..2], [1, 0x80]);
}
