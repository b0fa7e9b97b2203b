use atomic_disk_drive::command_type::ClientCommandType;
use atomic_disk_drive::command_type::CommandType;
use atomic_disk_drive::command_type::SystemCommandType;
use atomic_disk_drive::domain::ClientCommandHeader;
use atomic_disk_drive::domain::ClientRegisterCommand;
use atomic_disk_drive::domain::ClientRegisterCommandContent;
use atomic_disk_drive::domain::OperationReturn;
use atomic_disk_drive::domain::ReadReturn;
use atomic_disk_drive::domain::RegisterCommand;
use atomic_disk_drive::domain::SectorVec;
use atomic_disk_drive::domain::StatusCode;
use atomic_disk_drive::domain::SystemCommandHeader;
use atomic_disk_drive::domain::SystemRegisterCommand;
use atomic_disk_drive::domain::SystemRegisterCommandContent;
use atomic_disk_drive::frame_reader::read_until_magic_number;
use atomic_disk_drive::frame_reader::deserialize_register_command;
use atomic_disk_drive::frame_reader::DeserializeOutcome;
use atomic_disk_drive::message_header::MessageHeader;
use atomic_disk_drive::wire::encode_response_failure;
use atomic_disk_drive::wire::encode_response_success;
use atomic_disk_drive::wire::serialize_register_command;
use atomic_disk_drive::wire::MAGIC_NUMBER;

fn system_key() -> Vec<u8> {
    (0u8..64).collect()
}

fn client_key() -> Vec<u8> {
    (100u8..132).collect()
}

fn sample_client_read(request_identifier: u64, sector_idx: u64) -> RegisterCommand {
    RegisterCommand::Client(ClientRegisterCommand {
        header: ClientCommandHeader { request_identifier, sector_idx },
        content: ClientRegisterCommandContent::Read,
    })
}

fn sample_client_write(request_identifier: u64, sector_idx: u64, byte: u8) -> RegisterCommand {
    RegisterCommand::Client(ClientRegisterCommand {
        header: ClientCommandHeader { request_identifier, sector_idx },
        content: ClientRegisterCommandContent::Write { data: SectorVec(vec![byte; 4096]) },
    })
}

fn sample_system_value() -> RegisterCommand {
    RegisterCommand::System(SystemRegisterCommand {
        header: SystemCommandHeader {
            process_identifier: 2,
            msg_ident: 0x0102030405060708090a0b0c0d0e0f10,
            read_ident: 7,
            sector_idx: 3,
        },
        content: SystemRegisterCommandContent::Value {
            timestamp: 11,
            write_rank: 2,
            sector_data: SectorVec(vec![0x5A; 4096]),
        },
    })
}

#[test]
fn test_command_type_constructor() {
    assert_eq!(None, CommandType::try_new(0x00));
    assert_eq!(
        Some(CommandType::Client(ClientCommandType::Read)),
        CommandType::try_new(0x01)
    );
    assert_eq!(
        Some(CommandType::Client(ClientCommandType::Write)),
        CommandType::try_new(0x02)
    );
    assert_eq!(
        Some(CommandType::System(SystemCommandType::ReadProc)),
        CommandType::try_new(0x03)
    );
    assert_eq!(
        Some(CommandType::System(SystemCommandType::Value)),
        CommandType::try_new(0x04)
    );
    assert_eq!(
        Some(CommandType::System(SystemCommandType::WriteProc)),
        CommandType::try_new(0x05)
    );
    assert_eq!(
        Some(CommandType::System(SystemCommandType::Ack)),
        CommandType::try_new(0x06)
    );
    assert_eq!(None, CommandType::try_new(0x07));

    assert_eq!(None, CommandType::try_new(0x41));
}

#[test]
fn test_read_until_magic_number_give_magic_number() {
    let test: Vec<u8> = MAGIC_NUMBER.to_vec();
    assert!(read_until_magic_number(&test, 0).is_some());
}

#[test]
fn test_read_until_magic_number_dont_give_magic_number() {
    let test: Vec<u8> = vec![0; 10];
    assert!(read_until_magic_number(&test, 0).is_none());
}

#[test]
fn test_read_until_magic_number_hard() {
    let test: Vec<u8> = vec![0x32, 0x61, 0x74, 0x64, 0x61, 0x74, 0x64, 0x64, 0x18];
    assert!(read_until_magic_number(&test, 0).is_some());
}

#[test]
fn magic_number_is_first_four_frame_bytes() {
    let frame = serialize_register_command(&sample_client_read(1, 0), &client_key());
    assert_eq!(&frame[0..4], &MAGIC_NUMBER);
}

#[test]
fn client_read_frame_round_trips() {
    let cmd = sample_client_read(7, 5);
    let frame = serialize_register_command(&cmd, &client_key());
    // 4 magic + 4 header + 16 payload + 32 tag
    assert_eq!(frame.len(), 56);
    match deserialize_register_command(&frame, &system_key(), &client_key()) {
        DeserializeOutcome::Frame { cmd: parsed, valid, consumed } => {
            assert!(valid);
            assert_eq!(consumed, frame.len());
            assert_eq!(parsed, cmd);
        }
        DeserializeOutcome::NeedMore => panic!("expected a complete frame"),
    }
}

#[test]
fn client_write_frame_round_trips() {
    let cmd = sample_client_write(8, 1, 0xAA);
    let frame = serialize_register_command(&cmd, &client_key());
    assert_eq!(frame.len(), 4 + 4 + 16 + 4096 + 32);
    match deserialize_register_command(&frame, &system_key(), &client_key()) {
        DeserializeOutcome::Frame { cmd: parsed, valid, consumed } => {
            assert!(valid);
            assert_eq!(consumed, frame.len());
            assert_eq!(parsed, cmd);
        }
        DeserializeOutcome::NeedMore => panic!("expected a complete frame"),
    }
}

#[test]
fn system_value_frame_round_trips() {
    let cmd = sample_system_value();
    let frame = serialize_register_command(&cmd, &system_key());
    assert_eq!(frame.len(), 4 + 4 + 32 + 16 + 4096 + 32);
    match deserialize_register_command(&frame, &system_key(), &client_key()) {
        DeserializeOutcome::Frame { cmd: parsed, valid, consumed } => {
            assert!(valid);
            assert_eq!(consumed, frame.len());
            assert_eq!(parsed, cmd);
        }
        DeserializeOutcome::NeedMore => panic!("expected a complete frame"),
    }
}

#[test]
fn flipped_bit_fails_authentication() {
    let cmd = sample_client_read(9, 2);
    let mut frame = serialize_register_command(&cmd, &client_key());
    // flip one bit of the payload
    frame[10] ^= 0x01;
    match deserialize_register_command(&frame, &system_key(), &client_key()) {
        DeserializeOutcome::Frame { cmd: parsed, valid, .. } => {
            assert!(!valid);
            // the command itself still parses, so the client can be answered
            match parsed {
                RegisterCommand::Client(c) => {
                    assert_ne!(c.header.request_identifier, 9);
                }
                _ => panic!("expected a client command"),
            }
        }
        DeserializeOutcome::NeedMore => panic!("expected a complete frame"),
    }
}

#[test]
fn wrong_key_fails_authentication() {
    let cmd = sample_client_read(4, 0);
    let other_key: Vec<u8> = (7u8..39).collect();
    let frame = serialize_register_command(&cmd, &other_key);
    match deserialize_register_command(&frame, &system_key(), &client_key()) {
        DeserializeOutcome::Frame { cmd: parsed, valid, .. } => {
            assert!(!valid);
            assert_eq!(parsed, cmd);
        }
        DeserializeOutcome::NeedMore => panic!("expected a complete frame"),
    }
}

#[test]
fn garbage_before_frame_is_consumed() {
    let cmd = sample_client_read(3, 1);
    let frame = serialize_register_command(&cmd, &client_key());
    let mut buffer: Vec<u8> = vec![0x11, 0x22, 0x33];
    buffer.extend_from_slice(&frame);
    match deserialize_register_command(&buffer, &system_key(), &client_key()) {
        DeserializeOutcome::Frame { cmd: parsed, valid, consumed } => {
            assert!(valid);
            assert_eq!(consumed, buffer.len());
            assert_eq!(parsed, cmd);
        }
        DeserializeOutcome::NeedMore => panic!("expected a complete frame"),
    }
}

#[test]
fn unknown_type_code_is_skipped() {
    let cmd = sample_client_read(5, 0);
    let frame = serialize_register_command(&cmd, &client_key());
    // magic followed by a header with an unknown message type
    let mut buffer: Vec<u8> = vec![0x61, 0x74, 0x64, 0x64, 0, 0, 0, 0x3F];
    buffer.extend_from_slice(&frame);
    match deserialize_register_command(&buffer, &system_key(), &client_key()) {
        DeserializeOutcome::Frame { cmd: parsed, valid, consumed } => {
            assert!(valid);
            assert_eq!(consumed, buffer.len());
            assert_eq!(parsed, cmd);
        }
        DeserializeOutcome::NeedMore => panic!("expected a complete frame"),
    }
}

#[test]
fn partial_frame_needs_more_bytes() {
    let cmd = sample_client_write(6, 0, 0x01);
    let frame = serialize_register_command(&cmd, &client_key());
    let partial: Vec<u8> = frame[..frame.len() - 1].to_vec();
    match deserialize_register_command(&partial, &system_key(), &client_key()) {
        DeserializeOutcome::NeedMore => {}
        DeserializeOutcome::Frame { .. } => panic!("an incomplete frame must not parse"),
    }
}

#[test]
fn empty_buffer_needs_more_bytes() {
    let empty: Vec<u8> = Vec::new();
    match deserialize_register_command(&empty, &system_key(), &client_key()) {
        DeserializeOutcome::NeedMore => {}
        DeserializeOutcome::Frame { .. } => panic!("nothing to parse"),
    }
}

#[test]
fn two_frames_parse_in_sequence() {
    let first = sample_client_read(1, 0);
    let second = sample_client_write(2, 1, 0x77);
    let mut buffer = serialize_register_command(&first, &client_key());
    buffer.extend_from_slice(&serialize_register_command(&second, &client_key()));
    let consumed = match deserialize_register_command(&buffer, &system_key(), &client_key()) {
        DeserializeOutcome::Frame { cmd, valid, consumed } => {
            assert!(valid);
            assert_eq!(cmd, first);
            consumed
        }
        DeserializeOutcome::NeedMore => panic!("the first frame is complete"),
    };
    let rest: Vec<u8> = buffer[consumed..].to_vec();
    match deserialize_register_command(&rest, &system_key(), &client_key()) {
        DeserializeOutcome::Frame { cmd, valid, consumed } => {
            assert!(valid);
            assert_eq!(cmd, second);
            assert_eq!(consumed, rest.len());
        }
        DeserializeOutcome::NeedMore => panic!("the second frame is complete"),
    }
}

#[test]
fn failure_response_carries_status_and_request() {
    let frame = encode_response_failure(
        &client_key(),
        99,
        StatusCode::InvalidSectorIndex,
        ClientCommandType::Read,
    );
    assert_eq!(&frame[0..4], &MAGIC_NUMBER);
    assert_eq!(frame[4], 0);
    assert_eq!(frame[5], 0);
    assert_eq!(frame[6], 2); // InvalidSectorIndex
    assert_eq!(frame[7], 0x41); // READ response
    assert_eq!(&frame[8..16], &99u64.to_be_bytes());
    assert_eq!(frame.len(), 16 + 32);
}

#[test]
fn auth_failure_response_status_byte() {
    let frame = encode_response_failure(
        &client_key(),
        7,
        StatusCode::AuthFailure,
        ClientCommandType::Write,
    );
    assert_eq!(frame[6], 1); // AuthFailure
    assert_eq!(frame[7], 0x42); // WRITE response
    assert_eq!(&frame[8..16], &7u64.to_be_bytes());
}

#[test]
fn success_write_response_has_no_payload() {
    let frame = encode_response_success(&client_key(), 12, &OperationReturn::Write);
    assert_eq!(&frame[0..4], &MAGIC_NUMBER);
    assert_eq!(frame[6], 0); // status OK
    assert_eq!(frame[7], 0x42);
    assert_eq!(&frame[8..16], &12u64.to_be_bytes());
    assert_eq!(frame.len(), 16 + 32);
}

#[test]
fn success_read_response_carries_sector() {
    let data = SectorVec(vec![0xCD; 4096]);
    let frame = encode_response_success(
        &client_key(),
        13,
        &OperationReturn::Read(ReadReturn { read_data: data }),
    );
    assert_eq!(frame[7], 0x41);
    assert_eq!(&frame[8..16], &13u64.to_be_bytes());
    assert_eq!(frame.len(), 16 + 4096 + 32);
    assert!(frame[16..16 + 4096].iter().all(|b| *b == 0xCD));
}

#[test]
fn header_bytes_round_trip() {
    let bytes: [u8; 4] = [0x12, 0x34, 0x05, 0x03];
    let header = MessageHeader::new_from_be_bytes(&bytes);
    assert_eq!(header.padding, 0x1234);
    assert_eq!(header.auxiliary, 0x05);
    assert_eq!(header.message_type, 0x03);
    assert_eq!(header.to_be_bytes(), bytes.to_vec());
}
