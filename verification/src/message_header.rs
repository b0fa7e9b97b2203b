//! The 4-byte typed header that follows the magic number on the wire:
//! two zero padding bytes, one auxiliary byte (sender rank on protocol
//! messages, status code on responses) and the message-type code.
use vstd::prelude::*;
use crate::command_type::ClientCommandType;
use crate::command_type::CommandType;
use crate::command_type::RESPONSE_BIT;
use crate::command_type::spec_client_type_value;
use crate::command_type::spec_command_type_of;
use crate::command_type::spec_command_type_value;
use crate::command_type::spec_type_of_command;
use crate::domain::RegisterCommand;
use crate::domain::RegisterCommandView;
use crate::domain::StatusCode;
use crate::domain::spec_status_code_value;
use crate::domain::status_code_value;

verus! {

/// The header of every frame, as read from or written to the wire.
#[derive(Clone, Copy, Debug, PartialEq, Eq, Structural)]
pub struct MessageHeader {
    pub padding: u16,
    pub auxiliary: u8,
    pub message_type: u8,
}

/// The four big-endian bytes of a header.
pub open spec fn spec_header_bytes(h: MessageHeader) -> Seq<u8> {
    seq![(h.padding >> 8) as u8, (h.padding & 0xff) as u8, h.auxiliary, h.message_type]
}

/// The header whose big-endian bytes are `s`.
pub open spec fn spec_header_from_bytes(s: Seq<u8>) -> MessageHeader
    recommends
        s.len() == 4,
{
    MessageHeader {
        padding: ((s[0] as u16) << 8) | (s[1] as u16),
        auxiliary: s[2],
        message_type: s[3],
    }
}

/// The auxiliary byte a command is framed with: the sender's rank on a
/// protocol message, zero on a client command.
pub open spec fn spec_aux_of_command(cmd: RegisterCommandView) -> u8 {
    match cmd {
        RegisterCommandView::System(s) => s.header.process_identifier,
        RegisterCommandView::Client(..) => 0,
    }
}

/// The auxiliary byte a command is framed with.
pub fn get_auxiliary(command: &RegisterCommand) -> (r: u8)
    ensures
        r == spec_aux_of_command(command@),
{
    match command {
        RegisterCommand::System(cmd) => cmd.header.process_identifier,
        RegisterCommand::Client(..) => 0,
    }
}

impl MessageHeader {
    /// Reads a header from its four wire bytes.
    pub fn new_from_be_bytes(bytes: &[u8; 4]) -> (r: Self)
        ensures
            r == spec_header_from_bytes(bytes@),
    {
        let b0 = bytes[0];
        let b1 = bytes[1];
        let padding = ((b0 as u16) << 8) | (b1 as u16);
        MessageHeader { padding, auxiliary: bytes[2], message_type: bytes[3] }
    }

    /// The header a command is framed with: zero padding, the command's
    /// auxiliary byte and its type code.
    pub fn new_from_register_command(command: &RegisterCommand) -> (r: Self)
        ensures
            r.padding == 0,
            r.auxiliary == spec_aux_of_command(command@),
            r.message_type == spec_command_type_value(spec_type_of_command(command@)),
    {
        MessageHeader {
            padding: 0,
            auxiliary: get_auxiliary(command),
            message_type: CommandType::new_from_command(command).value(),
        }
    }

    /// The header of a failure response: the status code in the auxiliary
    /// byte and the response bit set on the command's type code.
    pub fn new_from_client_failure(
        status_code: &StatusCode,
        client_command_type: &ClientCommandType,
    ) -> (r: Self)
        ensures
            r.padding == 0,
            r.auxiliary == spec_status_code_value(*status_code),
            r.message_type == spec_client_type_value(*client_command_type) + RESPONSE_BIT,
    {
        MessageHeader {
            padding: 0,
            auxiliary: status_code_value(status_code),
            message_type: client_command_type.value() + RESPONSE_BIT,
        }
    }

    /// The header of a success response: a zero status code and the
    /// response bit set on the command's type code.
    pub fn new_from_client_success(client_command_type: &ClientCommandType) -> (r: Self)
        ensures
            r.padding == 0,
            r.auxiliary == spec_status_code_value(StatusCode::Okay),
            r.message_type == spec_client_type_value(*client_command_type) + RESPONSE_BIT,
    {
        MessageHeader {
            padding: 0,
            auxiliary: status_code_value(&StatusCode::Okay),
            message_type: client_command_type.value() + RESPONSE_BIT,
        }
    }

    /// Writes the header back as its four wire bytes.
    pub fn to_be_bytes(&self) -> (r: Vec<u8>)
        ensures
            r@ == spec_header_bytes(*self),
    {
        let mut bytes: Vec<u8> = Vec::new();
        bytes.push((self.padding >> 8) as u8);
        bytes.push((self.padding & 0xff) as u8);
        bytes.push(self.auxiliary);
        bytes.push(self.message_type);
        proof {
            assert(bytes@ =~= spec_header_bytes(*self));
        }
        bytes
    }

    /// The command type this header announces, if its code is known.
    pub fn command_type(&self) -> (r: Option<CommandType>)
        ensures
            r == spec_command_type_of(self.message_type),
    {
        CommandType::try_new(self.message_type)
    }
}

} // verus!
