//! The binary wire framing: every frame is the 4-byte magic number, the
//! 4-byte typed header, the type-specific payload, and a 32-byte
//! HMAC-SHA256 tag over everything before it.
//!
//! Integers are big-endian; sector payloads are exactly [`SECTOR_LEN`]
//! bytes; client frames authenticate with the client key and protocol
//! frames with the system key.
use vstd::prelude::*;
use crate::command_type::ClientCommandType;
use crate::command_type::CommandType;
use crate::command_type::spec_client_type_value;
use crate::command_type::spec_command_type_value;
use crate::command_type::spec_type_of_command;
use crate::command_type::RESPONSE_BIT;
use crate::domain::ClientContentView;
use crate::domain::ClientRegisterCommand;
use crate::domain::ClientRegisterCommandContent;
use crate::domain::OperationReturn;
use crate::domain::OperationReturnView;
use crate::domain::RegisterCommand;
use crate::domain::RegisterCommandView;
use crate::domain::SECTOR_LEN;
use crate::domain::SectorVec;
use crate::domain::StatusCode;
use crate::domain::SystemRegisterCommand;
use crate::domain::SystemRegisterCommandContent;
use crate::domain::spec_status_code_value;
use crate::hashes::hmac_sha256_of;
use crate::hashes::hmac_sha256_tag;
use crate::message_header::MessageHeader;
use crate::message_header::spec_aux_of_command;
use crate::wirebytes::push_u128_be;
use crate::wirebytes::push_u64_be;
use crate::wirebytes::spec_u128_to_be_bytes;
use crate::wirebytes::spec_u64_to_be_bytes;

verus! {

/// First four bytes of every frame.
pub const MAGIC_NUMBER: [u8; 4] = [0x61, 0x74, 0x64, 0x64];

/// The magic number as a byte sequence.
pub open spec fn spec_magic() -> Seq<u8> {
    seq![0x61u8, 0x74u8, 0x64u8, 0x64u8]
}

/// Appends the magic number to `out`.
pub fn push_magic(out: &mut Vec<u8>)
    ensures
        final(out)@ == old(out)@ + spec_magic(),
{
    out.push(0x61);
    out.push(0x74);
    out.push(0x64);
    out.push(0x64);
    proof {
        assert(out@ =~= old(out)@ + spec_magic());
    }
}

/// The payload bytes of a client command: request number, sector index,
/// and the sector data of a write.
pub open spec fn spec_client_payload(c: crate::domain::ClientCommandView) -> Seq<u8> {
    spec_u64_to_be_bytes(c.header.request_identifier) + spec_u64_to_be_bytes(c.header.sector_idx)
        + (match c.content {
        ClientContentView::Read => Seq::<u8>::empty(),
        ClientContentView::Write { data } => data,
    })
}

/// The payload bytes of a protocol message: operation identifier, request
/// counter, sector index, and for a carried value its timestamp,
/// write rank (as eight bytes) and sector data.
pub open spec fn spec_system_payload(c: crate::domain::SystemCommandView) -> Seq<u8> {
    spec_u128_to_be_bytes(c.header.msg_ident) + spec_u64_to_be_bytes(c.header.read_ident)
        + spec_u64_to_be_bytes(c.header.sector_idx) + (match c.content {
        crate::domain::SystemContentView::ReadProc => Seq::<u8>::empty(),
        crate::domain::SystemContentView::Value { timestamp, write_rank, sector_data } => (
        spec_u64_to_be_bytes(timestamp) + spec_u64_to_be_bytes(write_rank as u64) + sector_data),
        crate::domain::SystemContentView::WriteProc { timestamp, write_rank, data_to_write } => (
        spec_u64_to_be_bytes(timestamp) + spec_u64_to_be_bytes(write_rank as u64) + data_to_write),
        crate::domain::SystemContentView::Ack => Seq::<u8>::empty(),
    })
}

/// The payload bytes of any command.
pub open spec fn spec_payload(cmd: RegisterCommandView) -> Seq<u8> {
    match cmd {
        RegisterCommandView::Client(c) => spec_client_payload(c),
        RegisterCommandView::System(c) => spec_system_payload(c),
    }
}

/// Everything of a frame before the tag: magic, header, payload.
pub open spec fn spec_frame_body(cmd: RegisterCommandView) -> Seq<u8> {
    spec_magic() + seq![
        0u8,
        0u8,
        spec_aux_of_command(cmd),
        spec_command_type_value(spec_type_of_command(cmd)),
    ] + spec_payload(cmd)
}

/// A complete frame: body followed by its HMAC-SHA256 tag under `key`.
pub open spec fn spec_frame(cmd: RegisterCommandView, key: Seq<u8>) -> Seq<u8> {
    spec_frame_body(cmd) + hmac_sha256_of(key, spec_frame_body(cmd))
}

/// Appends the sector payload of `sector_vec` to `out`.
pub fn write_sector_vec(out: &mut Vec<u8>, sector_vec: &SectorVec)
    ensures
        final(out)@ == old(out)@ + sector_vec@,
{
    out.extend_from_slice(sector_vec.0.as_slice());
}

/// Appends the sixteen bytes of an operation identifier to `out`.
pub fn write_uuid(out: &mut Vec<u8>, msg_ident: u128)
    ensures
        final(out)@ == old(out)@ + spec_u128_to_be_bytes(msg_ident),
{
    push_u128_be(out, msg_ident);
}

/// Appends the payload of `cmd` to `out`.
pub fn write_command(out: &mut Vec<u8>, cmd: &RegisterCommand)
    ensures
        final(out)@ == old(out)@ + spec_payload(cmd@),
{
    match cmd {
        RegisterCommand::Client(ClientRegisterCommand { header, content }) => {
            push_u64_be(out, header.request_identifier);
            push_u64_be(out, header.sector_idx);
            match content {
                ClientRegisterCommandContent::Read => {},
                ClientRegisterCommandContent::Write { data } => {
                    write_sector_vec(out, data);
                },
            }
            proof {
                assert(out@ =~= old(out)@ + spec_payload(cmd@));
            }
        },
        RegisterCommand::System(SystemRegisterCommand { header, content }) => {
            write_uuid(out, header.msg_ident);
            push_u64_be(out, header.read_ident);
            push_u64_be(out, header.sector_idx);
            match content {
                SystemRegisterCommandContent::ReadProc => {},
                SystemRegisterCommandContent::Value { timestamp, write_rank, sector_data } => {
                    push_u64_be(out, *timestamp);
                    push_u64_be(out, (*write_rank) as u64);
                    write_sector_vec(out, sector_data);
                },
                SystemRegisterCommandContent::WriteProc { timestamp, write_rank, data_to_write } => {
                    push_u64_be(out, *timestamp);
                    push_u64_be(out, (*write_rank) as u64);
                    write_sector_vec(out, data_to_write);
                },
                SystemRegisterCommandContent::Ack => {},
            }
            proof {
                assert(out@ =~= old(out)@ + spec_payload(cmd@));
            }
        },
    }
}

/// Serializes `cmd` as a complete authenticated frame under `hmac_key`.
pub fn serialize_register_command(cmd: &RegisterCommand, hmac_key: &[u8]) -> (r: Vec<u8>)
    ensures
        r@ == spec_frame(cmd@, hmac_key@),
{
    let mut byte_view: Vec<u8> = Vec::new();
    push_magic(&mut byte_view);
    let header = MessageHeader::new_from_register_command(cmd);
    let mut header_bytes = header.to_be_bytes();
    byte_view.append(&mut header_bytes);
    write_command(&mut byte_view, cmd);
    proof {
        let p = header.padding;
        assert((p >> 8) as u8 == 0 && (p & 0xff) as u8 == 0) by (bit_vector)
            requires
                p == 0u16,
        ;
        assert(byte_view@ =~= spec_frame_body(cmd@));
    }
    let mut tag = hmac_sha256_tag(hmac_key, byte_view.as_slice());
    byte_view.append(&mut tag);
    proof {
        assert(byte_view@ =~= spec_frame(cmd@, hmac_key@));
    }
    byte_view
}

/// A failure response frame: zero padding, the status code as auxiliary,
/// the response bit on the command code, the request number, and the tag.
pub open spec fn spec_response_failure_frame(
    request_number: u64,
    status_code: StatusCode,
    cct: ClientCommandType,
    key: Seq<u8>,
) -> Seq<u8> {
    let body = spec_magic() + seq![
        0u8,
        0u8,
        spec_status_code_value(status_code),
        (spec_client_type_value(cct) + RESPONSE_BIT) as u8,
    ] + spec_u64_to_be_bytes(request_number);
    body + hmac_sha256_of(key, body)
}

/// A success response frame: the request number, then for a read the
/// sector that was read, and the tag.
pub open spec fn spec_response_success_frame(
    request_number: u64,
    opret: OperationReturnView,
    key: Seq<u8>,
) -> Seq<u8> {
    let code = match opret {
        OperationReturnView::Read { .. } => spec_client_type_value(ClientCommandType::Read),
        OperationReturnView::Write => spec_client_type_value(ClientCommandType::Write),
    };
    let body = spec_magic() + seq![
        0u8,
        0u8,
        spec_status_code_value(StatusCode::Okay),
        (code + RESPONSE_BIT) as u8,
    ] + spec_u64_to_be_bytes(request_number) + (match opret {
        OperationReturnView::Read { read_data } => read_data,
        OperationReturnView::Write => Seq::<u8>::empty(),
    });
    body + hmac_sha256_of(key, body)
}

/// Serializes the response to a failed client command.
pub fn encode_response_failure(
    hmac_key: &[u8],
    request_number: u64,
    status_code: StatusCode,
    client_command_type: ClientCommandType,
) -> (r: Vec<u8>)
    requires
        status_code != StatusCode::Okay,
    ensures
        r@ == spec_response_failure_frame(request_number, status_code, client_command_type,
            hmac_key@),
{
    let header = MessageHeader::new_from_client_failure(&status_code, &client_command_type);
    let mut byte_view: Vec<u8> = Vec::new();
    push_magic(&mut byte_view);
    let mut header_bytes = header.to_be_bytes();
    byte_view.append(&mut header_bytes);
    push_u64_be(&mut byte_view, request_number);
    proof {
        let p = header.padding;
        assert((p >> 8) as u8 == 0 && (p & 0xff) as u8 == 0) by (bit_vector)
            requires
                p == 0u16,
        ;
        assert(byte_view@ =~= spec_magic() + seq![
            0u8,
            0u8,
            spec_status_code_value(status_code),
            (spec_client_type_value(client_command_type) + RESPONSE_BIT) as u8,
        ] + spec_u64_to_be_bytes(request_number));
    }
    let mut tag = hmac_sha256_tag(hmac_key, byte_view.as_slice());
    byte_view.append(&mut tag);
    proof {
        assert(byte_view@ =~= spec_response_failure_frame(request_number, status_code,
            client_command_type, hmac_key@));
    }
    byte_view
}

/// Serializes the response to a completed client command.
pub fn encode_response_success(hmac_key: &[u8], request_number: u64, opret: &OperationReturn) -> (r:
    Vec<u8>)
    ensures
        r@ == spec_response_success_frame(request_number, opret@, hmac_key@),
{
    let cct = CommandType::new_from_operation_return(opret);
    let header = MessageHeader::new_from_client_success(&cct);
    let mut byte_view: Vec<u8> = Vec::new();
    push_magic(&mut byte_view);
    let mut header_bytes = header.to_be_bytes();
    byte_view.append(&mut header_bytes);
    push_u64_be(&mut byte_view, request_number);
    match opret {
        OperationReturn::Read(rr) => {
            write_sector_vec(&mut byte_view, &rr.read_data);
        },
        OperationReturn::Write => {},
    }
    proof {
        let p = header.padding;
        assert((p >> 8) as u8 == 0 && (p & 0xff) as u8 == 0) by (bit_vector)
            requires
                p == 0u16,
        ;
        let code = match opret@ {
            OperationReturnView::Read { .. } => spec_client_type_value(ClientCommandType::Read),
            OperationReturnView::Write => spec_client_type_value(ClientCommandType::Write),
        };
        assert(byte_view@ =~= spec_magic() + seq![
            0u8,
            0u8,
            spec_status_code_value(StatusCode::Okay),
            (code + RESPONSE_BIT) as u8,
        ] + spec_u64_to_be_bytes(request_number) + (match opret@ {
            OperationReturnView::Read { read_data } => read_data,
            OperationReturnView::Write => Seq::<u8>::empty(),
        }));
    }
    let mut tag = hmac_sha256_tag(hmac_key, byte_view.as_slice());
    byte_view.append(&mut tag);
    proof {
        assert(byte_view@ =~= spec_response_success_frame(request_number, opret@, hmac_key@));
    }
    byte_view
}

} // verus!
