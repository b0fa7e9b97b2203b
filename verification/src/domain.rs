//! Core data model of the replicated block device: sectors, register
//! commands exchanged between clients and processes, and the messages of
//! the per-sector atomic-register protocol.
use vstd::prelude::*;

verus! {

/// Number of bytes in one sector, the atomic storage granularity.
pub const SECTOR_LEN: usize = 4096;

/// Number of single-threaded workers a process shards its sectors over.
pub const NUMBER_OF_WORKERS: usize = 16;

/// Index of a sector on the drive.
pub type SectorIdx = u64;

/// Payload of one sector; a well-formed value holds exactly [`SECTOR_LEN`] bytes.
#[derive(Debug, PartialEq, Eq)]
pub struct SectorVec(pub Vec<u8>);

impl Clone for SectorVec {
    /// Cloning a sector payload keeps its bytes.
    fn clone(&self) -> (r: Self)
        ensures
            r@ == self@,
    {
        SectorVec(self.0.clone())
    }
}

impl SectorVec {
    /// A sector payload is well formed when it holds exactly one sector of bytes.
    pub open spec fn wf(self) -> bool {
        self.0@.len() == SECTOR_LEN
    }

    /// An unwritten sector reads as all zero bytes.
    pub open spec fn all_zeros(self) -> bool {
        self.0@ == Seq::<u8>::new(SECTOR_LEN as nat, |i: int| 0u8)
    }
}

/// Header of a client request: the request number chosen by the client and
/// the sector it addresses.
#[derive(Clone, Copy, Debug, PartialEq, Eq, Structural)]
pub struct ClientCommandHeader {
    pub request_identifier: u64,
    pub sector_idx: SectorIdx,
}

/// Body of a client request: a read, or a write carrying a full sector.
#[derive(Clone, Debug, PartialEq, Eq)]
pub enum ClientRegisterCommandContent {
    Read,
    Write { data: SectorVec },
}

/// A complete client request.
#[derive(Clone, Debug, PartialEq, Eq)]
pub struct ClientRegisterCommand {
    pub header: ClientCommandHeader,
    pub content: ClientRegisterCommandContent,
}

/// Header shared by every message of the atomic-register protocol.
///
/// `msg_ident` identifies one client operation across the whole system,
/// `read_ident` is the issuing worker's monotonic request counter.
#[derive(Clone, Copy, Debug, PartialEq, Eq, Structural)]
pub struct SystemCommandHeader {
    pub process_identifier: u8,
    pub msg_ident: u128,
    pub read_ident: u64,
    pub sector_idx: SectorIdx,
}

/// Body of a protocol message. `ReadProc` and `WriteProc` are questions
/// (broadcast to all peers), `Value` and `Ack` are answers (unicast).
#[derive(Debug, PartialEq, Eq)]
pub enum SystemRegisterCommandContent {
    ReadProc,
    Value { timestamp: u64, write_rank: u8, sector_data: SectorVec },
    WriteProc { timestamp: u64, write_rank: u8, data_to_write: SectorVec },
    Ack,
}

/// A complete protocol message.
#[derive(Debug, PartialEq, Eq)]
pub struct SystemRegisterCommand {
    pub header: SystemCommandHeader,
    pub content: SystemRegisterCommandContent,
}

impl Clone for SystemRegisterCommandContent {
    /// Cloning a message body keeps its model.
    fn clone(&self) -> (r: Self)
        ensures
            r@ == self@,
    {
        match self {
            SystemRegisterCommandContent::ReadProc => SystemRegisterCommandContent::ReadProc,
            SystemRegisterCommandContent::Value { timestamp, write_rank, sector_data } => (
            SystemRegisterCommandContent::Value {
                timestamp: *timestamp,
                write_rank: *write_rank,
                sector_data: sector_data.clone(),
            }),
            SystemRegisterCommandContent::WriteProc { timestamp, write_rank, data_to_write } => (
            SystemRegisterCommandContent::WriteProc {
                timestamp: *timestamp,
                write_rank: *write_rank,
                data_to_write: data_to_write.clone(),
            }),
            SystemRegisterCommandContent::Ack => SystemRegisterCommandContent::Ack,
        }
    }
}

impl Clone for SystemRegisterCommand {
    /// Cloning a protocol message keeps its model.
    fn clone(&self) -> (r: Self)
        ensures
            r@ == self@,
    {
        SystemRegisterCommand { header: self.header, content: self.content.clone() }
    }
}

/// Any command that can arrive on the wire.
#[derive(Clone, Debug, PartialEq, Eq)]
pub enum RegisterCommand {
    Client(ClientRegisterCommand),
    System(SystemRegisterCommand),
}

/// Status of a response sent back to a client.
#[derive(Clone, Copy, Debug, PartialEq, Eq, Structural)]
pub enum StatusCode {
    Okay,
    AuthFailure,
    InvalidSectorIndex,
}

/// Payload of a successful read returned to the client.
#[derive(Clone, Debug, PartialEq, Eq)]
pub struct ReadReturn {
    pub read_data: SectorVec,
}

/// What a completed operation returns: the sector read, or nothing for a write.
#[derive(Clone, Debug, PartialEq, Eq)]
pub enum OperationReturn {
    Read(ReadReturn),
    Write,
}

/// A completed client operation, handed back with the client's request number.
#[derive(Clone, Debug, PartialEq, Eq)]
pub struct OperationSuccess {
    pub request_identifier: u64,
    pub op_return: OperationReturn,
}

/// A question message to be delivered to every peer.
#[derive(Clone, Debug, PartialEq, Eq)]
pub struct Broadcast {
    pub cmd: SystemRegisterCommand,
}

/// An answer message to be delivered to one peer.
#[derive(Clone, Debug, PartialEq, Eq)]
pub struct Unicast {
    pub target: u8,
    pub cmd: SystemRegisterCommand,
}

/// Mathematical model of a client request body.
pub enum ClientContentView {
    Read,
    Write { data: Seq<u8> },
}

/// Mathematical model of a client request.
pub struct ClientCommandView {
    pub header: ClientCommandHeader,
    pub content: ClientContentView,
}

/// Mathematical model of a protocol message body.
pub enum SystemContentView {
    ReadProc,
    Value { timestamp: u64, write_rank: u8, sector_data: Seq<u8> },
    WriteProc { timestamp: u64, write_rank: u8, data_to_write: Seq<u8> },
    Ack,
}

/// Mathematical model of a protocol message.
pub struct SystemCommandView {
    pub header: SystemCommandHeader,
    pub content: SystemContentView,
}

/// Mathematical model of any command on the wire.
pub enum RegisterCommandView {
    Client(ClientCommandView),
    System(SystemCommandView),
}

/// Mathematical model of an operation result.
pub enum OperationReturnView {
    Read { read_data: Seq<u8> },
    Write,
}

impl View for SectorVec {
    type V = Seq<u8>;

    open spec fn view(&self) -> Seq<u8> {
        self.0@
    }
}

impl View for ClientRegisterCommandContent {
    type V = ClientContentView;

    open spec fn view(&self) -> ClientContentView {
        match self {
            ClientRegisterCommandContent::Read => ClientContentView::Read,
            ClientRegisterCommandContent::Write { data } => ClientContentView::Write {
                data: data@,
            },
        }
    }
}

impl View for ClientRegisterCommand {
    type V = ClientCommandView;

    open spec fn view(&self) -> ClientCommandView {
        ClientCommandView { header: self.header, content: self.content@ }
    }
}

impl View for SystemRegisterCommandContent {
    type V = SystemContentView;

    open spec fn view(&self) -> SystemContentView {
        match self {
            SystemRegisterCommandContent::ReadProc => SystemContentView::ReadProc,
            SystemRegisterCommandContent::Value { timestamp, write_rank, sector_data } => (
            SystemContentView::Value {
                timestamp: *timestamp,
                write_rank: *write_rank,
                sector_data: sector_data@,
            }),
            SystemRegisterCommandContent::WriteProc { timestamp, write_rank, data_to_write } => (
            SystemContentView::WriteProc {
                timestamp: *timestamp,
                write_rank: *write_rank,
                data_to_write: data_to_write@,
            }),
            SystemRegisterCommandContent::Ack => SystemContentView::Ack,
        }
    }
}

impl View for SystemRegisterCommand {
    type V = SystemCommandView;

    open spec fn view(&self) -> SystemCommandView {
        SystemCommandView { header: self.header, content: self.content@ }
    }
}

impl View for RegisterCommand {
    type V = RegisterCommandView;

    open spec fn view(&self) -> RegisterCommandView {
        match self {
            RegisterCommand::Client(c) => RegisterCommandView::Client(c@),
            RegisterCommand::System(c) => RegisterCommandView::System(c@),
        }
    }
}

impl View for OperationReturn {
    type V = OperationReturnView;

    open spec fn view(&self) -> OperationReturnView {
        match self {
            OperationReturn::Read(rr) => OperationReturnView::Read {
                read_data: rr.read_data@,
            },
            OperationReturn::Write => OperationReturnView::Write,
        }
    }
}

impl ClientCommandView {
    /// A client command is well formed when a write carries a full sector.
    pub open spec fn wf(self) -> bool {
        match self.content {
            ClientContentView::Read => true,
            ClientContentView::Write { data } => data.len() == SECTOR_LEN,
        }
    }
}

impl SystemCommandView {
    /// A protocol message is well formed when a carried value is a full sector.
    pub open spec fn wf(self) -> bool {
        match self.content {
            SystemContentView::ReadProc => true,
            SystemContentView::Value { sector_data, .. } => sector_data.len() == SECTOR_LEN,
            SystemContentView::WriteProc { data_to_write, .. } => data_to_write.len()
                == SECTOR_LEN,
            SystemContentView::Ack => true,
        }
    }
}

impl RegisterCommandView {
    /// A command is well formed when any sector payload it carries is full size.
    pub open spec fn wf(self) -> bool {
        match self {
            RegisterCommandView::Client(c) => c.wf(),
            RegisterCommandView::System(c) => c.wf(),
        }
    }
}

/// The numeric value of a [`StatusCode`] as carried in a response header.
pub fn status_code_value(status: &StatusCode) -> (r: u8)
    ensures
        r == spec_status_code_value(*status),
{
    match status {
        StatusCode::Okay => 0,
        StatusCode::AuthFailure => 1,
        StatusCode::InvalidSectorIndex => 2,
    }
}

/// Wire value of each status code.
pub open spec fn spec_status_code_value(status: StatusCode) -> u8 {
    match status {
        StatusCode::Okay => 0,
        StatusCode::AuthFailure => 1,
        StatusCode::InvalidSectorIndex => 2,
    }
}

/// Builds the all-zero payload an unwritten sector reads as.
pub fn empty_sector() -> (r: SectorVec)
    ensures
        r.wf(),
        r.all_zeros(),
{
    let mut data: Vec<u8> = Vec::new();
    let mut i: usize = 0;
    while i < SECTOR_LEN
        invariant
            i <= SECTOR_LEN,
            data@ == Seq::<u8>::new(i as nat, |j: int| 0u8),
        decreases SECTOR_LEN - i,
    {
        data.push(0);
        i = i + 1;
        proof {
            assert(data@ =~= Seq::<u8>::new(i as nat, |j: int| 0u8));
        }
    }
    SectorVec(data)
}

} // verus!
