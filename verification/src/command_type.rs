//! The `message_type` byte of the wire header: which commands exist and
//! how each maps to its numeric code.
use vstd::prelude::*;
use crate::domain::ClientRegisterCommand;
use crate::domain::ClientRegisterCommandContent;
use crate::domain::OperationReturn;
use crate::domain::RegisterCommand;
use crate::domain::RegisterCommandView;
use crate::domain::ClientContentView;
use crate::domain::SystemContentView;

verus! {

/// Code bit that marks a response to a client command.
pub const RESPONSE_BIT: u8 = 0x40;

/// Kinds of client commands.
#[derive(Clone, Copy, Debug, PartialEq, Eq, Structural)]
pub enum ClientCommandType {
    Read,
    Write,
}

/// Kinds of protocol messages between processes.
#[derive(Clone, Copy, Debug, PartialEq, Eq, Structural)]
pub enum SystemCommandType {
    ReadProc,
    Value,
    WriteProc,
    Ack,
}

/// Kind of any command on the wire.
#[derive(Clone, Copy, Debug, PartialEq, Eq, Structural)]
pub enum CommandType {
    Client(ClientCommandType),
    System(SystemCommandType),
}

/// Wire code of each client command type.
pub open spec fn spec_client_type_value(t: ClientCommandType) -> u8 {
    match t {
        ClientCommandType::Read => 0x01,
        ClientCommandType::Write => 0x02,
    }
}

/// Wire code of each protocol message type.
pub open spec fn spec_system_type_value(t: SystemCommandType) -> u8 {
    match t {
        SystemCommandType::ReadProc => 0x03,
        SystemCommandType::Value => 0x04,
        SystemCommandType::WriteProc => 0x05,
        SystemCommandType::Ack => 0x06,
    }
}

/// Wire code of any command type.
pub open spec fn spec_command_type_value(t: CommandType) -> u8 {
    match t {
        CommandType::Client(c) => spec_client_type_value(c),
        CommandType::System(s) => spec_system_type_value(s),
    }
}

/// The command type a wire code stands for, if any.
pub open spec fn spec_command_type_of(value: u8) -> Option<CommandType> {
    if value == 0x01 {
        Some(CommandType::Client(ClientCommandType::Read))
    } else if value == 0x02 {
        Some(CommandType::Client(ClientCommandType::Write))
    } else if value == 0x03 {
        Some(CommandType::System(SystemCommandType::ReadProc))
    } else if value == 0x04 {
        Some(CommandType::System(SystemCommandType::Value))
    } else if value == 0x05 {
        Some(CommandType::System(SystemCommandType::WriteProc))
    } else if value == 0x06 {
        Some(CommandType::System(SystemCommandType::Ack))
    } else {
        None
    }
}

/// The type of a command, at the model level.
pub open spec fn spec_type_of_command(cmd: RegisterCommandView) -> CommandType {
    match cmd {
        RegisterCommandView::Client(c) => match c.content {
            ClientContentView::Read => CommandType::Client(ClientCommandType::Read),
            ClientContentView::Write { .. } => CommandType::Client(ClientCommandType::Write),
        },
        RegisterCommandView::System(s) => match s.content {
            SystemContentView::ReadProc => CommandType::System(SystemCommandType::ReadProc),
            SystemContentView::Value { .. } => CommandType::System(SystemCommandType::Value),
            SystemContentView::WriteProc { .. } => CommandType::System(
                SystemCommandType::WriteProc,
            ),
            SystemContentView::Ack => CommandType::System(SystemCommandType::Ack),
        },
    }
}

impl ClientCommandType {
    /// The client command type a wire code stands for, if any.
    pub fn try_new(value: u8) -> (r: Option<ClientCommandType>)
        ensures
            r == (match spec_command_type_of(value) {
                Some(CommandType::Client(c)) => Some(c),
                _ => None::<ClientCommandType>,
            }),
    {
        match value {
            0x01 => Some(ClientCommandType::Read),
            0x02 => Some(ClientCommandType::Write),
            _ => None,
        }
    }

    /// The type of a client command.
    pub fn new_from_command(command: &ClientRegisterCommand) -> (r: Self)
        ensures
            CommandType::Client(r) == spec_type_of_command(RegisterCommandView::Client(command@)),
    {
        match command.content {
            ClientRegisterCommandContent::Read => ClientCommandType::Read,
            ClientRegisterCommandContent::Write { .. } => ClientCommandType::Write,
        }
    }

    /// The wire code of this client command type.
    pub fn value(&self) -> (r: u8)
        ensures
            r == spec_client_type_value(*self),
    {
        match self {
            ClientCommandType::Read => 0x01,
            ClientCommandType::Write => 0x02,
        }
    }
}

impl SystemCommandType {
    /// The protocol message type a wire code stands for, if any.
    pub fn try_new(value: u8) -> (r: Option<SystemCommandType>)
        ensures
            r == (match spec_command_type_of(value) {
                Some(CommandType::System(s)) => Some(s),
                _ => None::<SystemCommandType>,
            }),
    {
        match value {
            0x03 => Some(SystemCommandType::ReadProc),
            0x04 => Some(SystemCommandType::Value),
            0x05 => Some(SystemCommandType::WriteProc),
            0x06 => Some(SystemCommandType::Ack),
            _ => None,
        }
    }
}

impl CommandType {
    /// The command type a wire code stands for, if any.
    pub fn try_new(value: u8) -> (r: Option<CommandType>)
        ensures
            r == spec_command_type_of(value),
    {
        if let Some(cct) = ClientCommandType::try_new(value) {
            Some(CommandType::Client(cct))
        } else if let Some(sct) = SystemCommandType::try_new(value) {
            Some(CommandType::System(sct))
        } else {
            None
        }
    }

    /// The type of any command.
    pub fn new_from_command(command: &RegisterCommand) -> (r: CommandType)
        ensures
            r == spec_type_of_command(command@),
    {
        match command {
            RegisterCommand::Client(crc) => match crc.content {
                ClientRegisterCommandContent::Read => CommandType::Client(ClientCommandType::Read),
                ClientRegisterCommandContent::Write { .. } => CommandType::Client(
                    ClientCommandType::Write,
                ),
            },
            RegisterCommand::System(src) => match src.content {
                crate::domain::SystemRegisterCommandContent::ReadProc => CommandType::System(
                    SystemCommandType::ReadProc,
                ),
                crate::domain::SystemRegisterCommandContent::Value { .. } => CommandType::System(
                    SystemCommandType::Value,
                ),
                crate::domain::SystemRegisterCommandContent::WriteProc { .. } => (
                CommandType::System(SystemCommandType::WriteProc)),
                crate::domain::SystemRegisterCommandContent::Ack => CommandType::System(
                    SystemCommandType::Ack,
                ),
            },
        }
    }

    /// The client command type a completed operation answers.
    pub fn new_from_operation_return(opret: &OperationReturn) -> (r: ClientCommandType)
        ensures
            r == (match opret@ {
                crate::domain::OperationReturnView::Read { .. } => ClientCommandType::Read,
                crate::domain::OperationReturnView::Write => ClientCommandType::Write,
            }),
    {
        match opret {
            OperationReturn::Read(..) => ClientCommandType::Read,
            OperationReturn::Write => ClientCommandType::Write,
        }
    }

    /// The wire code of this command type.
    pub fn value(&self) -> (r: u8)
        ensures
            r == spec_command_type_value(*self),
    {
        match self {
            CommandType::Client(val) => val.value(),
            CommandType::System(val) => match val {
                SystemCommandType::ReadProc => 0x03,
                SystemCommandType::Value => 0x04,
                SystemCommandType::WriteProc => 0x05,
                SystemCommandType::Ack => 0x06,
            },
        }
    }
}

} // verus!
