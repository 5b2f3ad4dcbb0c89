use vex_v5_serial::commands::file::{
    DownloadFile, DownloadState, LinkedFile, UploadFile, UploadState, HOT_START,
};
use vex_v5_serial::commands::program::{next_session, ProgramAction, ProgramData, UploadProgram};
use vex_v5_serial::commands::{
    download_chunk_size, upload_chunk_size, Progress, TransferAction, TransferEvent,
    TransferPhase,
};
use vex_v5_serial::connection::Connection;
use vex_v5_serial::crc::crc32;
use vex_v5_serial::device::file::{VexFileTarget, VexFiletransferMetadata, COLD_START};
use vex_v5_serial::errors::{DeviceError, EncodeError};
use vex_v5_serial::packets::file::{
    InitFileTransferPayload, LinkFilePayload, ReadFilePayload, Version, WriteFilePayload,
};
use vex_v5_serial::protocol::frame::encode_extended_reply;
use vex_v5_serial::protocol::{Reply, Request};
use vex_v5_serial::string::FixedLengthString;
use vex_v5_serial::v5::meta::{
    FileExitAction, FileInitAction, FileTransferOptions, FileTransferVID,
};

const STAMP: i32 = 777;

/// What a scripted device has seen and what it answers.
struct Script {
    replies: Vec<Option<Vec<u8>>>,
    sent: Vec<Request>,
    waits: Vec<u64>,
    progress: Vec<(u64, u64)>,
}

impl Script {
    fn new(replies: Vec<Option<Vec<u8>>>) -> Script {
        Script { replies, sent: Vec::new(), waits: Vec::new(), progress: Vec::new() }
    }

    fn exchange(
        &mut self,
        connection: &mut Connection,
        request: Request,
        timeout_ms: u64,
        progress: Option<Progress>,
    ) -> TransferEvent {
        if let Some(p) = progress {
            self.progress.push((p.done, p.total));
        }
        let written = match connection.send(&request) {
            Ok(bytes) => bytes,
            Err(e) => return TransferEvent::Error(e),
        };
        assert_eq!(written, request.encode().unwrap());
        let kind = request.kind();
        let answer = self.replies.get(self.sent.len()).cloned().flatten();
        self.sent.push(request);
        self.waits.push(timeout_ms);
        match answer {
            None => TransferEvent::Error(connection.expire()).into_timeout(),
            Some(bytes) => match connection.receive(kind, &bytes) {
                Ok(Some(reply)) => TransferEvent::Reply(reply),
                Ok(None) => TransferEvent::Error(connection.expire()).into_timeout(),
                Err(e) => TransferEvent::Error(e),
            },
        }
    }
}

trait IntoTimeout {
    fn into_timeout(self) -> TransferEvent;
}

impl IntoTimeout for TransferEvent {
    fn into_timeout(self) -> TransferEvent {
        match self {
            TransferEvent::Error(DeviceError::Timeout) => TransferEvent::Timeout,
            other => other,
        }
    }
}

fn run_upload(file: &UploadFile, script: &mut Script) -> Result<UploadState, DeviceError> {
    let mut connection = Connection::new();
    let mut state = UploadState::new();
    let mut event = TransferEvent::Start;
    loop {
        let (next, action) = file.execute(STAMP, state, event);
        state = next;
        match action {
            TransferAction::Send { request, timeout_ms, progress } => {
                event = script.exchange(&mut connection, request, timeout_ms, progress);
            }
            TransferAction::Done => return Ok(state),
            TransferAction::Abort(e) => {
                assert_eq!(state.phase, TransferPhase::Failed);
                return Err(e);
            }
        }
    }
}

fn run_download(file: &DownloadFile, script: &mut Script) -> Result<Vec<u8>, DeviceError> {
    let mut connection = Connection::new();
    let mut state = DownloadState::new();
    let mut event = TransferEvent::Start;
    loop {
        let (next, action) = file.execute(STAMP, state, event);
        state = next;
        match action {
            TransferAction::Send { request, timeout_ms, progress } => {
                event = script.exchange(&mut connection, request, timeout_ms, progress);
            }
            TransferAction::Done => return Ok(state.into_data()),
            TransferAction::Abort(e) => return Err(e),
        }
    }
}

fn ack(ext: u8) -> Option<Vec<u8>> {
    Some(encode_extended_reply(ext, 0x76, &[]).unwrap())
}

fn init_reply(window: u16, size: u32, crc: u32) -> Option<Vec<u8>> {
    let mut payload = Vec::new();
    payload.extend(window.to_le_bytes());
    payload.extend(size.to_le_bytes());
    payload.extend(crc.to_le_bytes());
    Some(encode_extended_reply(0x11, 0x76, &payload).unwrap())
}

fn read_reply(address: u32, data: &[u8]) -> Option<Vec<u8>> {
    let mut payload = Vec::new();
    payload.extend(address.to_le_bytes());
    payload.extend(data);
    Some(encode_extended_reply(0x14, 0x76, &payload).unwrap())
}

fn name(text: &str) -> FixedLengthString<23> {
    FixedLengthString::new(text).unwrap()
}

fn kind(text: &str) -> FixedLengthString<3> {
    FixedLengthString::new(text).unwrap()
}

fn upload(data: &[u8], after_upload: FileExitAction) -> UploadFile {
    UploadFile {
        filename: name("slot1.bin"),
        filetype: kind("bin"),
        vendor: None,
        data: data.to_vec(),
        target: None,
        load_addr: COLD_START,
        linked_file: None,
        after_upload,
    }
}

fn download(size: u32) -> DownloadFile {
    DownloadFile {
        filename: name("hello.txt"),
        filetype: kind("txt"),
        size,
        vendor: FileTransferVID::User,
        target: None,
        load_addr: COLD_START,
    }
}

fn upload_init(file: &UploadFile) -> Request {
    Request::InitFileTransfer(InitFileTransferPayload {
        operation: FileInitAction::Write,
        target: VexFileTarget::FLASH,
        vendor: FileTransferVID::User,
        options: FileTransferOptions::OVERWRITE,
        write_file_size: file.data.len() as u32,
        load_address: file.load_addr,
        write_file_crc: crc32(&file.data),
        file_extension: file.filetype.clone(),
        timestamp: STAMP,
        version: Version { major: 1, minor: 0, build: 0, beta: 0 },
        file_name: file.filename.clone(),
    })
}

fn write(address: u32, data: &[u8]) -> Request {
    Request::WriteFile(WriteFilePayload { address, chunk_data: data.to_vec() })
}

fn read(address: u32, size: u16) -> Request {
    Request::ReadFile(ReadFilePayload { address, size })
}

#[test]
fn download_a_six_byte_file() {
    let file = download(6);
    let mut script = Script::new(vec![
        init_reply(4, 6, crc32(b"hello\n")),
        read_reply(COLD_START, b"hell"),
        read_reply(COLD_START + 4, b"o\n"),
        ack(0x12),
    ]);
    let data = run_download(&file, &mut script).unwrap();
    assert_eq!(data, b"hello\n".to_vec());
    let init = Request::InitFileTransfer(InitFileTransferPayload {
        operation: FileInitAction::Read,
        target: VexFileTarget::FLASH,
        vendor: FileTransferVID::User,
        options: FileTransferOptions::NONE,
        write_file_size: 6,
        load_address: COLD_START,
        write_file_crc: 0,
        file_extension: kind("txt"),
        timestamp: STAMP,
        version: Version { major: 1, minor: 0, build: 0, beta: 0 },
        file_name: name("hello.txt"),
    });
    assert_eq!(
        script.sent,
        vec![
            init,
            read(COLD_START, 4),
            read(COLD_START + 4, 4),
            Request::ExitFileTransfer(FileExitAction::DoNothing),
        ]
    );
    assert_eq!(script.progress, vec![(4, 6), (6, 6)]);
    assert_eq!(script.waits, vec![100, 100, 100, 100]);
}

#[test]
fn download_with_a_window_of_zero_asks_for_the_largest_chunk() {
    let file = download(3);
    let mut script =
        Script::new(vec![init_reply(0, 3, crc32(b"abc")), read_reply(COLD_START, b"abc"), ack(0x12)]);
    assert_eq!(run_download(&file, &mut script).unwrap(), b"abc".to_vec());
    assert_eq!(script.sent[1], read(COLD_START, 4096));
}

#[test]
fn download_checks_the_crc_of_the_file() {
    let file = download(6);
    let mut script = Script::new(vec![
        init_reply(4, 6, 0x1234_5678),
        read_reply(COLD_START, b"hell"),
        read_reply(COLD_START + 4, b"o\n"),
        ack(0x12),
    ]);
    assert_eq!(
        run_download(&file, &mut script).unwrap_err(),
        DeviceError::FileCrcMismatch { host: crc32(b"hello\n"), device: 0x1234_5678 }
    );
    assert_eq!(script.sent.len(), 3);
}

#[test]
fn download_asks_once_more_after_a_timeout() {
    let file = download(2);
    let mut script = Script::new(vec![
        init_reply(8, 2, crc32(b"ok")),
        None,
        read_reply(COLD_START, b"ok"),
        ack(0x12),
    ]);
    assert_eq!(run_download(&file, &mut script).unwrap(), b"ok".to_vec());
    assert_eq!(script.sent[1], read(COLD_START, 8));
    assert_eq!(script.sent[2], read(COLD_START, 8));
}

#[test]
fn download_gives_up_after_the_second_timeout() {
    let file = download(2);
    let mut script = Script::new(vec![init_reply(8, 2, 0), None, None]);
    assert_eq!(run_download(&file, &mut script).unwrap_err(), DeviceError::Timeout);
    assert_eq!(script.sent.len(), 3);
}

#[test]
fn download_that_runs_over_the_address_space_is_given_up() {
    let mut file = download(100);
    file.load_addr = u32::MAX - 5;
    let mut script = Script::new(vec![
        init_reply(4, 100, 0),
        read_reply(u32::MAX - 5, b"abcd"),
        read_reply(u32::MAX - 1, b"efgh"),
        read_reply(3, b"ijkl"),
    ]);
    assert_eq!(
        run_download(&file, &mut script).unwrap_err(),
        DeviceError::Encode(EncodeError::ValueTooLarge)
    );
    assert_eq!(script.sent[1..], [read(u32::MAX - 5, 4), read(u32::MAX - 1, 4)]);
}

#[test]
fn download_keeps_what_the_device_sends_beyond_the_file() {
    let file = download(6);
    let mut script = Script::new(vec![
        init_reply(4, 6, crc32(b"hello\n")),
        read_reply(COLD_START, b"hell"),
        read_reply(COLD_START + 4, b"o\n\0\0"),
        ack(0x12),
    ]);
    assert_eq!(run_download(&file, &mut script).unwrap(), b"hello\n\0\0".to_vec());
    assert_eq!(script.progress, vec![(4, 6), (8, 6)]);
}

#[test]
fn upload_a_nine_byte_file() {
    let file = upload(b"abcdefghi", FileExitAction::RunProgram);
    let mut script = Script::new(vec![
        init_reply(6, 0, crc32(b"abcdefghi")),
        ack(0x13),
        ack(0x13),
        ack(0x12),
    ]);
    let state = run_upload(&file, &mut script).unwrap();
    assert_eq!(state.phase, TransferPhase::Done);
    assert_eq!(state.chunk_size, 8);
    assert_eq!(
        script.sent,
        vec![
            upload_init(&file),
            write(COLD_START, b"abcdefgh"),
            write(COLD_START + 8, b"i"),
            Request::ExitFileTransfer(FileExitAction::RunProgram),
        ]
    );
    assert_eq!(script.progress, vec![(0, 9), (8, 9), (9, 9)]);
    assert_eq!(script.waits, vec![100, 100, 100, 200]);
}

#[test]
fn upload_chunks_are_multiples_of_four_but_the_last() {
    let data: Vec<u8> = (0..1001u32).map(|i| i as u8).collect();
    for window in [1u16, 2, 3, 4, 5, 7, 250, 4095, 4096, 4097, 0, 65535] {
        let file = upload(&data, FileExitAction::DoNothing);
        let chunk = upload_chunk_size(window) as usize;
        let count = (data.len() + chunk - 1) / chunk;
        let mut replies = vec![init_reply(window, 0, crc32(&data))];
        replies.extend((0..count).map(|_| ack(0x13)));
        replies.push(ack(0x12));
        let mut script = Script::new(replies);
        run_upload(&file, &mut script).unwrap();
        assert_eq!(script.sent.len(), count + 2);
        let mut whole: Vec<u8> = Vec::new();
        for (i, request) in script.sent[1..=count].iter().enumerate() {
            match request {
                Request::WriteFile(p) => {
                    assert_eq!(p.address as usize, COLD_START as usize + i * chunk);
                    if i + 1 < count {
                        assert_eq!(p.chunk_data.len(), chunk);
                        assert_eq!(p.chunk_data.len() % 4, 0);
                    } else {
                        assert_eq!(p.chunk_data.len(), data.len() - i * chunk);
                    }
                    whole.extend(&p.chunk_data);
                }
                other => panic!("{:?}", other),
            }
        }
        assert_eq!(whole, data);
    }
}

#[test]
fn chunk_sizes() {
    assert_eq!(download_chunk_size(0), 4096);
    assert_eq!(download_chunk_size(1), 1);
    assert_eq!(download_chunk_size(4), 4);
    assert_eq!(download_chunk_size(4096), 4096);
    assert_eq!(download_chunk_size(4097), 4096);
    assert_eq!(upload_chunk_size(0), 4096);
    assert_eq!(upload_chunk_size(1), 4);
    assert_eq!(upload_chunk_size(6), 8);
    assert_eq!(upload_chunk_size(8), 8);
    assert_eq!(upload_chunk_size(4093), 4096);
    assert_eq!(upload_chunk_size(5000), 4096);
}

#[test]
fn upload_of_nothing_opens_and_closes() {
    let file = upload(b"", FileExitAction::Halt);
    let mut script = Script::new(vec![init_reply(512, 0, 0), ack(0x12)]);
    run_upload(&file, &mut script).unwrap();
    assert_eq!(
        script.sent,
        vec![upload_init(&file), Request::ExitFileTransfer(FileExitAction::Halt)]
    );
    assert_eq!(script.progress, vec![(0, 0)]);
}

#[test]
fn upload_names_its_linked_file_before_the_first_chunk() {
    let mut file = upload(b"abcd", FileExitAction::DoNothing);
    file.vendor = Some(FileTransferVID::PROS);
    file.target = Some(VexFileTarget::DDR);
    file.linked_file =
        Some(LinkedFile { filename: name("slot1_lib.bin"), vendor: Some(FileTransferVID::System) });
    let mut script =
        Script::new(vec![init_reply(4096, 0, crc32(b"abcd")), ack(0x15), ack(0x13), ack(0x12)]);
    run_upload(&file, &mut script).unwrap();
    assert_eq!(
        script.sent[1],
        Request::LinkFile(LinkFilePayload {
            vendor: FileTransferVID::System,
            option: 0,
            required_file: name("slot1_lib.bin"),
        })
    );
    assert_eq!(script.sent[2], write(COLD_START, b"abcd"));
    match &script.sent[0] {
        Request::InitFileTransfer(p) => {
            assert_eq!(p.vendor, FileTransferVID::PROS);
            assert_eq!(p.target, VexFileTarget::DDR);
        }
        other => panic!("{:?}", other),
    }
}

#[test]
fn nack_ends_the_session() {
    let file = upload(b"abcdefghi", FileExitAction::RunProgram);
    let nack = encode_extended_reply(0x11, 0xD2, &[]).unwrap();
    assert_eq!(nack, vec![0xAA, 0x55, 0x56, 0x02, 0x11, 0xD2, 0xB6, 0xF0]);
    let mut script = Script::new(vec![Some(nack), ack(0x13), ack(0x13), ack(0x12)]);
    assert_eq!(run_upload(&file, &mut script).unwrap_err(), DeviceError::Nack(0xD2));
    assert_eq!(script.sent, vec![upload_init(&file)]);
}

#[test]
fn nack_of_a_chunk_ends_the_session() {
    let file = upload(b"abcdefghi", FileExitAction::RunProgram);
    let nack = encode_extended_reply(0x13, 0xD0, &[]).unwrap();
    let mut script =
        Script::new(vec![init_reply(4, 0, crc32(b"abcdefghi")), ack(0x13), Some(nack), ack(0x13)]);
    assert_eq!(run_upload(&file, &mut script).unwrap_err(), DeviceError::Nack(0xD0));
    assert_eq!(script.sent.len(), 3);
}

#[test]
fn nothing_is_sent_after_a_failure() {
    let file = upload(b"abcdefghi", FileExitAction::RunProgram);
    let (state, _) = file.execute(STAMP, UploadState::new(), TransferEvent::Start);
    let (state, action) = file.execute(STAMP, state, TransferEvent::Error(DeviceError::Io));
    assert_eq!(action, TransferAction::Abort(DeviceError::Io));
    let meta = VexFiletransferMetadata { max_packet_size: 4, file_size: 0, crc: 0 };
    for event in [
        TransferEvent::Start,
        TransferEvent::Timeout,
        TransferEvent::Reply(Reply::Ack),
        TransferEvent::Reply(Reply::InitFileTransfer(meta)),
    ] {
        let (after, action) = file.execute(STAMP, state, event);
        assert_eq!(action, TransferAction::Abort(DeviceError::NotSupported));
        assert_eq!(after, state);
    }
}

#[test]
fn upload_sends_a_chunk_once_more_after_a_timeout() {
    let file = upload(b"abcdefghi", FileExitAction::DoNothing);
    let mut script = Script::new(vec![
        init_reply(8, 0, crc32(b"abcdefghi")),
        None,
        ack(0x13),
        None,
        ack(0x13),
        ack(0x12),
    ]);
    run_upload(&file, &mut script).unwrap();
    assert_eq!(
        script.sent[1..5],
        [
            write(COLD_START, b"abcdefgh"),
            write(COLD_START, b"abcdefgh"),
            write(COLD_START + 8, b"i"),
            write(COLD_START + 8, b"i"),
        ]
    );
}

#[test]
fn upload_gives_up_after_the_second_timeout_of_a_chunk() {
    let file = upload(b"abcdefghi", FileExitAction::DoNothing);
    let mut script = Script::new(vec![init_reply(8, 0, crc32(b"abcdefghi")), None, None, ack(0x13)]);
    assert_eq!(run_upload(&file, &mut script).unwrap_err(), DeviceError::Timeout);
    assert_eq!(script.sent.len(), 3);
}

#[test]
fn upload_does_not_wait_twice_for_the_opening() {
    let file = upload(b"abcdefghi", FileExitAction::DoNothing);
    let mut script = Script::new(vec![None, init_reply(8, 0, crc32(b"abcdefghi"))]);
    assert_eq!(run_upload(&file, &mut script).unwrap_err(), DeviceError::Timeout);
    assert_eq!(script.sent.len(), 1);
}

#[test]
fn upload_checks_the_crc_the_device_reports() {
    let file = upload(b"abcdefghi", FileExitAction::DoNothing);
    let mut script = Script::new(vec![init_reply(8, 0, 1), ack(0x13)]);
    assert_eq!(
        run_upload(&file, &mut script).unwrap_err(),
        DeviceError::FileCrcMismatch { host: 0x16C8_2CB3, device: 1 }
    );
    assert_eq!(script.sent.len(), 1);
}

#[test]
fn upload_that_runs_over_the_address_space_is_refused() {
    let mut file = upload(b"abcdefghi", FileExitAction::DoNothing);
    file.load_addr = u32::MAX - 8;
    let (state, action) = file.execute(STAMP, UploadState::new(), TransferEvent::Start);
    assert_eq!(action, TransferAction::Abort(DeviceError::Encode(EncodeError::ValueTooLarge)));
    assert_eq!(state.phase, TransferPhase::Failed);
    file.load_addr = u32::MAX - 9;
    let (_, action) = file.execute(STAMP, UploadState::new(), TransferEvent::Start);
    assert!(matches!(action, TransferAction::Send { .. }));
}

fn program(data: ProgramData, after_upload: FileExitAction) -> UploadProgram {
    UploadProgram {
        name: "Clawbot".to_string(),
        description: "drives".to_string(),
        icon: "USER921x.bmp".to_string(),
        program_type: "PROS".to_string(),
        slot: 0,
        data,
        after_upload,
    }
}

#[test]
fn upload_program_both() {
    let both = ProgramData::Both { hot: b"hot image".to_vec(), cold: b"cold image".to_vec() };
    let sessions =
        program(both, FileExitAction::RunProgram).execute(b"[program]\r\n".to_vec());
    assert_eq!(sessions.len(), 3);
    assert_eq!(
        sessions[0],
        UploadFile {
            filename: name("slot1.ini"),
            filetype: kind("ini"),
            vendor: None,
            data: b"[program]\r\n".to_vec(),
            target: None,
            load_addr: 0x0380_0000,
            linked_file: None,
            after_upload: FileExitAction::DoNothing,
        }
    );
    assert_eq!(
        sessions[1],
        UploadFile {
            filename: name("slot1.bin"),
            filetype: kind("bin"),
            vendor: None,
            data: b"cold image".to_vec(),
            target: None,
            load_addr: 0x0380_0000,
            linked_file: None,
            after_upload: FileExitAction::DoNothing,
        }
    );
    assert_eq!(
        sessions[2],
        UploadFile {
            filename: name("slot1.bin"),
            filetype: kind("bin"),
            vendor: None,
            data: b"hot image".to_vec(),
            target: None,
            load_addr: 0x0780_0000,
            linked_file: Some(LinkedFile { filename: name("slot1_lib.bin"), vendor: None }),
            after_upload: FileExitAction::RunProgram,
        }
    );
    assert_eq!(HOT_START, 0x0780_0000);
}

#[test]
fn upload_program_makes_its_uploads_in_order() {
    assert_eq!(next_session(0, 3, None), ProgramAction::Upload(0));
    assert_eq!(next_session(1, 3, None), ProgramAction::Upload(1));
    assert_eq!(next_session(2, 3, None), ProgramAction::Upload(2));
    assert_eq!(next_session(3, 3, None), ProgramAction::Done);
    assert_eq!(next_session(0, 0, None), ProgramAction::Done);
}

#[test]
fn upload_program_ends_with_the_first_failure() {
    for done in 0..4 {
        assert_eq!(
            next_session(done, 3, Some(DeviceError::Nack(0xD2))),
            ProgramAction::Abort(DeviceError::Nack(0xD2))
        );
    }
}

#[test]
fn upload_program_begins_no_session_after_a_failed_one() {
    let both = ProgramData::Both { hot: b"hot image".to_vec(), cold: b"cold image".to_vec() };
    let sessions = program(both, FileExitAction::RunProgram).execute(b"[program]".to_vec());
    let nack = encode_extended_reply(0x11, 0xD3, &[]).unwrap();
    let mut script = Script::new(vec![Some(nack)]);
    let mut done = 0;
    let mut failure = None;
    let result = loop {
        match next_session(done, sessions.len(), failure) {
            ProgramAction::Upload(i) => match run_upload(&sessions[i], &mut script) {
                Ok(_) => done += 1,
                Err(e) => failure = Some(e),
            },
            ProgramAction::Done => break Ok(()),
            ProgramAction::Abort(e) => break Err(e),
        }
    };
    assert_eq!(result, Err(DeviceError::Nack(0xD3)));
    assert_eq!(script.sent.len(), 1);
    assert!(matches!(&script.sent[0], Request::InitFileTransfer(p) if p.file_name == name("slot1.ini")));
}

#[test]
fn upload_program_cold_alone_acts_after_the_cold_image() {
    let sessions = program(ProgramData::Cold(vec![1, 2]), FileExitAction::ShowRunScreen)
        .execute(vec![9]);
    assert_eq!(sessions.len(), 2);
    assert_eq!(sessions[0].after_upload, FileExitAction::DoNothing);
    assert_eq!(sessions[1].after_upload, FileExitAction::ShowRunScreen);
    assert_eq!(sessions[1].load_addr, COLD_START);
    assert_eq!(sessions[1].linked_file, None);
}

#[test]
fn upload_program_hot_alone() {
    let sessions =
        program(ProgramData::Hot(vec![1, 2]), FileExitAction::Halt).execute(vec![9]);
    assert_eq!(sessions.len(), 2);
    assert_eq!(sessions[1].load_addr, HOT_START);
    assert_eq!(sessions[1].after_upload, FileExitAction::Halt);
    assert!(sessions[1].linked_file.is_some());
}

#[test]
fn upload_program_names_count_slots_from_one() {
    for (slot, base) in [(0u8, "slot1"), (7, "slot8"), (8, "slot9"), (9, "slot10"), (98, "slot99"),
        (99, "slot100"), (254, "slot255"), (255, "slot256")]
    {
        let mut p = program(ProgramData::Hot(vec![]), FileExitAction::DoNothing);
        p.slot = slot;
        let sessions = p.execute(vec![]);
        assert_eq!(sessions[0].filename, name(&format!("{}.ini", base)));
        assert_eq!(sessions[1].filename, name(&format!("{}.bin", base)));
        assert_eq!(
            sessions[1].linked_file.as_ref().unwrap().filename,
            name(&format!("{}_lib.bin", base))
        );
    }
}

#[test]
fn upload_program_description() {
    let mut p = program(ProgramData::Hot(vec![]), FileExitAction::DoNothing);
    p.slot = 3;
    let ini = p.ini_config();
    assert_eq!(ini.project.ide, "PROS");
    assert_eq!(ini.program.name, "Clawbot");
    assert_eq!(ini.program.slot, 3);
    assert_eq!(ini.program.icon, "USER921x.bmp");
    assert_eq!(ini.program.iconalt, "");
    assert_eq!(ini.program.description, "drives");
}
