//! What becomes of a frame once it is read off a connection: which
//! worker owns its sector, whether it is answered with a failure, and
//! whether it is dropped. The sockets and channels that carry out the
//! decision live outside.
use vstd::prelude::*;
use crate::command_type::ClientCommandType;
use crate::domain::ClientContentView;
use crate::domain::NUMBER_OF_WORKERS;
use crate::domain::RegisterCommand;
use crate::domain::StatusCode;

verus! {

/// The worker owning a sector: its index modulo the number of workers.
pub open spec fn spec_worker_for_sector(sector_idx: u64) -> int {
    sector_idx as int % NUMBER_OF_WORKERS as int
}

/// The worker owning a sector.
pub fn worker_for_sector(sector_idx: u64) -> (r: usize)
    ensures
        r == spec_worker_for_sector(sector_idx),
        r < NUMBER_OF_WORKERS,
{
    (sector_idx % (NUMBER_OF_WORKERS as u64)) as usize
}

/// What to do with one deserialized frame.
#[derive(Debug, PartialEq, Eq)]
pub enum RouteDecision {
    /// Answer the client with a failure status, echoing its request number.
    RespondFailure { request_identifier: u64, status_code: StatusCode, command_type: ClientCommandType },
    /// Hand the client command to the worker owning its sector.
    DispatchClient { worker: usize },
    /// Hand the protocol message to the worker owning its sector.
    DispatchSystem { worker: usize },
    /// Drop the frame: a misauthenticated or malformed protocol message.
    Drop,
}

/// The client command type of a client command's content.
pub open spec fn spec_client_type_of(cmd: crate::domain::ClientCommandView) -> ClientCommandType {
    match cmd.content {
        ClientContentView::Read => ClientCommandType::Read,
        ClientContentView::Write { .. } => ClientCommandType::Write,
    }
}

/// Decides the fate of one frame, exactly as the connection front-end
/// must act on it:
/// a client frame with a bad tag is answered `AuthFailure`; a client
/// frame addressing a sector outside `0 .. n_sectors` is answered
/// `InvalidSectorIndex`; a valid client frame goes to the worker owning
/// its sector; a protocol message goes to that worker too, unless its
/// tag, sender rank or sector is bad, in which case it is dropped.
pub fn route_command(cmd: &RegisterCommand, valid: bool, processes_count: u8, n_sectors: u64)
    -> (r: RouteDecision)
    ensures
        (match cmd@ {
            crate::domain::RegisterCommandView::Client(c) => {
                if !valid {
                    r == (RouteDecision::RespondFailure {
                        request_identifier: c.header.request_identifier,
                        status_code: StatusCode::AuthFailure,
                        command_type: spec_client_type_of(c),
                    })
                } else if c.header.sector_idx >= n_sectors {
                    r == (RouteDecision::RespondFailure {
                        request_identifier: c.header.request_identifier,
                        status_code: StatusCode::InvalidSectorIndex,
                        command_type: spec_client_type_of(c),
                    })
                } else {
                    r == (RouteDecision::DispatchClient {
                        worker: spec_worker_for_sector(c.header.sector_idx) as usize,
                    })
                }
            },
            crate::domain::RegisterCommandView::System(s) => {
                if !valid {
                    r == RouteDecision::Drop
                } else if s.header.process_identifier < 1 || s.header.process_identifier
                    > processes_count {
                    r == RouteDecision::Drop
                } else if s.header.sector_idx >= n_sectors {
                    r == RouteDecision::Drop
                } else {
                    r == (RouteDecision::DispatchSystem {
                        worker: spec_worker_for_sector(s.header.sector_idx) as usize,
                    })
                }
            },
        }),
{
    match cmd {
        RegisterCommand::Client(c) => {
            let command_type = ClientCommandType::new_from_command(c);
            if !valid {
                RouteDecision::RespondFailure {
                    request_identifier: c.header.request_identifier,
                    status_code: StatusCode::AuthFailure,
                    command_type,
                }
            } else if c.header.sector_idx >= n_sectors {
                RouteDecision::RespondFailure {
                    request_identifier: c.header.request_identifier,
                    status_code: StatusCode::InvalidSectorIndex,
                    command_type,
                }
            } else {
                RouteDecision::DispatchClient { worker: worker_for_sector(c.header.sector_idx) }
            }
        },
        RegisterCommand::System(s) => {
            if !valid {
                RouteDecision::Drop
            } else if s.header.process_identifier < 1 || s.header.process_identifier
                > processes_count {
                RouteDecision::Drop
            } else if s.header.sector_idx >= n_sectors {
                RouteDecision::Drop
            } else {
                RouteDecision::DispatchSystem { worker: worker_for_sector(s.header.sector_idx) }
            }
        },
    }
}

} // verus!
