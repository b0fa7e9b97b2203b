use atomic_disk_drive::atomic_register::build_atomic_register;
use atomic_disk_drive::atomic_register::build_answer;
use atomic_disk_drive::atomic_register::is_answer_command;
use atomic_disk_drive::atomic_register::is_proc_command;
use atomic_disk_drive::atomic_register::Effects;
use atomic_disk_drive::command_type::ClientCommandType;
use atomic_disk_drive::dispatch::route_command;
use atomic_disk_drive::dispatch::worker_for_sector;
use atomic_disk_drive::dispatch::RouteDecision;
use atomic_disk_drive::domain::ClientCommandHeader;
use atomic_disk_drive::domain::ClientRegisterCommand;
use atomic_disk_drive::domain::ClientRegisterCommandContent;
use atomic_disk_drive::domain::OperationReturn;
use atomic_disk_drive::domain::RegisterCommand;
use atomic_disk_drive::domain::SectorVec;
use atomic_disk_drive::domain::StatusCode;
use atomic_disk_drive::domain::SystemCommandHeader;
use atomic_disk_drive::domain::SystemRegisterCommand;
use atomic_disk_drive::domain::SystemRegisterCommandContent;
use atomic_disk_drive::domain::Unicast;
use atomic_disk_drive::register_client::SolutionRegisterClient;

fn zeros() -> SectorVec {
    SectorVec(vec![0u8; 4096])
}

fn sector(byte: u8) -> SectorVec {
    SectorVec(vec![byte; 4096])
}

fn read_command(request_identifier: u64, sector_idx: u64) -> ClientRegisterCommand {
    ClientRegisterCommand {
        header: ClientCommandHeader { request_identifier, sector_idx },
        content: ClientRegisterCommandContent::Read,
    }
}

fn write_command(request_identifier: u64, sector_idx: u64, byte: u8) -> ClientRegisterCommand {
    ClientRegisterCommand {
        header: ClientCommandHeader { request_identifier, sector_idx },
        content: ClientRegisterCommandContent::Write { data: sector(byte) },
    }
}

fn value_answer(
    header: SystemCommandHeader,
    sender: u8,
    timestamp: u64,
    write_rank: u8,
    data: SectorVec,
) -> SystemRegisterCommand {
    SystemRegisterCommand {
        header: SystemCommandHeader {
            process_identifier: sender,
            msg_ident: header.msg_ident,
            read_ident: header.read_ident,
            sector_idx: header.sector_idx,
        },
        content: SystemRegisterCommandContent::Value { timestamp, write_rank, sector_data: data },
    }
}

fn ack_answer(header: SystemCommandHeader, sender: u8) -> SystemRegisterCommand {
    SystemRegisterCommand {
        header: SystemCommandHeader {
            process_identifier: sender,
            msg_ident: header.msg_ident,
            read_ident: header.read_ident,
            sector_idx: header.sector_idx,
        },
        content: SystemRegisterCommandContent::Ack,
    }
}

/// A fresh three-process cluster answers an unwritten read with zeros.
#[test]
fn unwritten_sector_reads_as_zeros() {
    let mut register = build_atomic_register(1, 3);
    let mut fx = Effects::new();
    register.client_command(read_command(8, 0), None, (0, 0), zeros(), &mut fx);

    // the request counter is persisted before use
    assert_eq!(fx.persist_rid, Some(1));
    assert_eq!(fx.broadcasts.len(), 1);
    let header = fx.broadcasts[0].cmd.header;
    assert_eq!(header.process_identifier, 1);
    assert_eq!(header.read_ident, 1);
    assert_eq!(header.sector_idx, 0);
    assert!(matches!(
        fx.broadcasts[0].cmd.content,
        SystemRegisterCommandContent::ReadProc
    ));
    assert!(fx.complete.is_none());
    assert!(!register.ready_for_client());

    // the second process answers with its own unwritten sector: majority
    let mut fx2 = Effects::new();
    register.system_command(value_answer(header, 2, 0, 0, zeros()), (0, 0), zeros(), &mut fx2);
    assert_eq!(fx2.broadcasts.len(), 1);
    match &fx2.broadcasts[0].cmd.content {
        SystemRegisterCommandContent::WriteProc { timestamp, write_rank, data_to_write } => {
            assert_eq!(*timestamp, 0);
            assert_eq!(*write_rank, 0);
            assert_eq!(data_to_write.0, vec![0u8; 4096]);
        }
        _ => panic!("expected the install question"),
    }
    // a read installs nothing new locally
    assert!(fx2.store.is_none());
    assert!(fx2.complete.is_none());

    // one peer acknowledgement completes the operation (2 of 3 with self)
    let mut fx3 = Effects::new();
    register.system_command(ack_answer(header, 2), (0, 0), zeros(), &mut fx3);
    let success = fx3.complete.expect("2 of 3 acknowledgements are a majority");
    assert_eq!(success.request_identifier, 8);
    match success.op_return {
        OperationReturn::Read(rr) => assert_eq!(rr.read_data.0, vec![0u8; 4096]),
        OperationReturn::Write => panic!("a read must return the sector"),
    }
    // the self-addressed acknowledgement cancels the retransmission
    assert_eq!(fx3.sends.len(), 1);
    assert_eq!(fx3.sends[0].target, 1);
    assert!(register.ready_for_client());
}

/// On a single-process cluster a write completes at once, and a read
/// returns what was written.
#[test]
fn write_then_read_single_process() {
    let mut register = build_atomic_register(1, 1);
    let mut fx = Effects::new();
    register.client_command(write_command(7, 0, 0xAA), None, (0, 0), zeros(), &mut fx);

    assert_eq!(fx.persist_rid, Some(1));
    let store = fx.store.expect("the write must reach storage");
    assert_eq!(store.sector_idx, 0);
    assert_eq!(store.ts, 1);
    assert_eq!(store.wr, 1);
    assert_eq!(store.data.0, vec![0xAA; 4096]);
    let success = fx.complete.expect("a single process is its own majority");
    assert_eq!(success.request_identifier, 7);
    assert!(matches!(success.op_return, OperationReturn::Write));
    assert!(register.ready_for_client());

    let mut fx2 = Effects::new();
    register.client_command(read_command(8, 0), None, (1, 1), sector(0xAA), &mut fx2);
    assert_eq!(fx2.persist_rid, Some(2));
    let success = fx2.complete.expect("a single process is its own majority");
    assert_eq!(success.request_identifier, 8);
    match success.op_return {
        OperationReturn::Read(rr) => assert_eq!(rr.read_data.0, vec![0xAA; 4096]),
        OperationReturn::Write => panic!("a read must return the sector"),
    }
}

/// The install phase carries the greatest gathered `(timestamp, rank)`.
#[test]
fn quorum_installs_the_newest_gathered_value() {
    let mut register = build_atomic_register(1, 3);
    let mut fx = Effects::new();
    register.client_command(read_command(9, 4), None, (1, 1), sector(0x01), &mut fx);
    let header = fx.broadcasts[0].cmd.header;

    let mut fx2 = Effects::new();
    register.system_command(
        value_answer(header, 3, 5, 2, sector(0x0B)),
        (1, 1),
        sector(0x01),
        &mut fx2,
    );
    match &fx2.broadcasts[0].cmd.content {
        SystemRegisterCommandContent::WriteProc { timestamp, write_rank, data_to_write } => {
            assert_eq!((*timestamp, *write_rank), (5, 2));
            assert_eq!(data_to_write.0, vec![0x0B; 4096]);
        }
        _ => panic!("expected the install question"),
    }
}

/// A write steps past the greatest gathered timestamp with its own rank.
#[test]
fn quorum_write_steps_past_the_maximum() {
    let mut register = build_atomic_register(2, 3);
    let mut fx = Effects::new();
    register.client_command(write_command(10, 4, 0x0A), None, (3, 1), zeros(), &mut fx);
    let header = fx.broadcasts[0].cmd.header;

    let mut fx2 = Effects::new();
    register.system_command(
        value_answer(header, 3, 5, 3, sector(0x0C)),
        (3, 1),
        zeros(),
        &mut fx2,
    );
    let store = fx2.store.expect("the write must reach storage at quorum");
    assert_eq!(store.ts, 6);
    assert_eq!(store.wr, 2);
    match &fx2.broadcasts[0].cmd.content {
        SystemRegisterCommandContent::WriteProc { timestamp, write_rank, .. } => {
            assert_eq!((*timestamp, *write_rank), (6, 2));
        }
        _ => panic!("expected the install question"),
    }
}

/// A question carrying an older triple is acknowledged but stores nothing.
#[test]
fn stale_write_proc_is_a_no_op() {
    let mut register = build_atomic_register(1, 3);
    let question = SystemRegisterCommand {
        header: SystemCommandHeader {
            process_identifier: 2,
            msg_ident: 77,
            read_ident: 5,
            sector_idx: 9,
        },
        content: SystemRegisterCommandContent::WriteProc {
            timestamp: 3,
            write_rank: 1,
            data_to_write: sector(0x0D),
        },
    };
    let mut fx = Effects::new();
    register.system_command(question, (3, 2), zeros(), &mut fx);
    assert!(fx.store.is_none(), "an older triple must not be stored");
    assert_eq!(fx.sends.len(), 1);
    assert_eq!(fx.sends[0].target, 2);
    assert!(matches!(
        fx.sends[0].cmd.content,
        SystemRegisterCommandContent::Ack
    ));
}

/// A question carrying a newer triple is stored and acknowledged.
#[test]
fn newer_write_proc_is_stored() {
    let mut register = build_atomic_register(1, 3);
    let question = SystemRegisterCommand {
        header: SystemCommandHeader {
            process_identifier: 3,
            msg_ident: 78,
            read_ident: 6,
            sector_idx: 9,
        },
        content: SystemRegisterCommandContent::WriteProc {
            timestamp: 4,
            write_rank: 1,
            data_to_write: sector(0x0E),
        },
    };
    let mut fx = Effects::new();
    register.system_command(question, (3, 2), zeros(), &mut fx);
    let store = fx.store.expect("a newer triple must be stored");
    assert_eq!((store.sector_idx, store.ts, store.wr), (9, 4, 1));
    assert_eq!(store.data.0, vec![0x0E; 4096]);
    assert_eq!(register.data.meta_cache.get(&9), Some(&atomic_disk_drive::register_data::SectorMetadata { ts: 4, wr: 1 }));
}

/// A `ReadProc` question is answered with the stored triple.
#[test]
fn read_proc_is_answered_with_local_state() {
    let mut register = build_atomic_register(1, 3);
    let question = SystemRegisterCommand {
        header: SystemCommandHeader {
            process_identifier: 2,
            msg_ident: 79,
            read_ident: 7,
            sector_idx: 1,
        },
        content: SystemRegisterCommandContent::ReadProc,
    };
    let mut fx = Effects::new();
    register.system_command(question, (2, 1), sector(0x0F), &mut fx);
    assert_eq!(fx.sends.len(), 1);
    let answer = &fx.sends[0];
    assert_eq!(answer.target, 2);
    assert_eq!(answer.cmd.header.process_identifier, 1);
    assert_eq!(answer.cmd.header.msg_ident, 79);
    match &answer.cmd.content {
        SystemRegisterCommandContent::Value { timestamp, write_rank, sector_data } => {
            assert_eq!((*timestamp, *write_rank), (2, 1));
            assert_eq!(sector_data.0, vec![0x0F; 4096]);
        }
        _ => panic!("a ReadProc is answered with a Value"),
    }
}

/// An answer whose operation identifier does not match is dropped.
#[test]
fn mismatched_answer_is_dropped() {
    let mut register = build_atomic_register(1, 3);
    let mut fx = Effects::new();
    register.client_command(read_command(11, 0), None, (0, 0), zeros(), &mut fx);
    let header = fx.broadcasts[0].cmd.header;

    let stranger = SystemCommandHeader {
        process_identifier: 2,
        msg_ident: header.msg_ident.wrapping_add(1),
        read_ident: header.read_ident,
        sector_idx: header.sector_idx,
    };
    let mut fx2 = Effects::new();
    register.system_command(
        value_answer(stranger, 2, 9, 9, sector(0x10)),
        (0, 0),
        zeros(),
        &mut fx2,
    );
    assert!(fx2.broadcasts.is_empty());
    assert!(fx2.sends.is_empty());
    assert!(fx2.complete.is_none());
    assert!(!register.ready_for_client());
}

/// The stored request counter is decoded from its eight bytes and keeps
/// increasing across operations.
#[test]
fn request_counter_resumes_from_storage() {
    let mut register = build_atomic_register(1, 1);
    let mut fx = Effects::new();
    let stored = 41u64.to_be_bytes().to_vec();
    register.client_command(read_command(1, 0), Some(stored), (0, 0), zeros(), &mut fx);
    assert_eq!(fx.persist_rid, Some(42));

    let mut fx2 = Effects::new();
    register.client_command(read_command(2, 0), None, (0, 0), zeros(), &mut fx2);
    assert_eq!(fx2.persist_rid, Some(43));
}

/// Stored counter bytes of the wrong length reset the counter.
#[test]
fn corrupted_request_counter_resets() {
    let mut register = build_atomic_register(1, 1);
    let mut fx = Effects::new();
    register.client_command(read_command(1, 0), Some(vec![1, 2, 3]), (0, 0), zeros(), &mut fx);
    assert_eq!(fx.persist_rid, Some(1));
}

#[test]
fn questions_and_answers_are_told_apart() {
    let header = SystemCommandHeader {
        process_identifier: 1,
        msg_ident: 5,
        read_ident: 1,
        sector_idx: 0,
    };
    let read_proc = SystemRegisterCommand { header, content: SystemRegisterCommandContent::ReadProc };
    let ack = SystemRegisterCommand { header, content: SystemRegisterCommandContent::Ack };
    assert!(is_proc_command(&read_proc));
    assert!(!is_answer_command(&read_proc));
    assert!(!is_proc_command(&ack));
    assert!(is_answer_command(&ack));
}

#[test]
fn answers_go_back_to_the_sender() {
    let question = SystemRegisterCommand {
        header: SystemCommandHeader {
            process_identifier: 3,
            msg_ident: 6,
            read_ident: 2,
            sector_idx: 8,
        },
        content: SystemRegisterCommandContent::ReadProc,
    };
    let answer = build_answer(1, &question, SystemRegisterCommandContent::Ack);
    assert_eq!(answer.target, 3);
    assert_eq!(answer.cmd.header.process_identifier, 1);
    assert_eq!(answer.cmd.header.msg_ident, 6);
    assert_eq!(answer.cmd.header.read_ident, 2);
    assert_eq!(answer.cmd.header.sector_idx, 8);
}

#[test]
fn out_of_range_sector_is_answered_invalid() {
    let cmd = RegisterCommand::Client(read_command(21, 99));
    match route_command(&cmd, true, 3, 4) {
        RouteDecision::RespondFailure { request_identifier, status_code, command_type } => {
            assert_eq!(request_identifier, 21);
            assert_eq!(status_code, StatusCode::InvalidSectorIndex);
            assert_eq!(command_type, ClientCommandType::Read);
        }
        _ => panic!("sector 99 of 4 must be rejected"),
    }
}

#[test]
fn misauthenticated_client_frame_is_answered() {
    let cmd = RegisterCommand::Client(write_command(22, 0, 0x11));
    match route_command(&cmd, false, 3, 4) {
        RouteDecision::RespondFailure { request_identifier, status_code, command_type } => {
            assert_eq!(request_identifier, 22);
            assert_eq!(status_code, StatusCode::AuthFailure);
            assert_eq!(command_type, ClientCommandType::Write);
        }
        _ => panic!("a bad tag must be answered, not dropped"),
    }
}

#[test]
fn valid_client_frame_goes_to_its_worker() {
    let cmd = RegisterCommand::Client(read_command(23, 18));
    match route_command(&cmd, true, 3, 1024) {
        RouteDecision::DispatchClient { worker } => assert_eq!(worker, 2),
        _ => panic!("a valid client frame is dispatched"),
    }
    assert_eq!(worker_for_sector(18), 2);
    assert_eq!(worker_for_sector(16), 0);
}

#[test]
fn bad_system_frames_are_dropped() {
    let question = SystemRegisterCommand {
        header: SystemCommandHeader {
            process_identifier: 9,
            msg_ident: 1,
            read_ident: 1,
            sector_idx: 0,
        },
        content: SystemRegisterCommandContent::ReadProc,
    };
    // sender rank outside 1..=3
    assert_eq!(route_command(&RegisterCommand::System(question.clone()), true, 3, 4), RouteDecision::Drop);
    // bad tag
    let mut ok = question.clone();
    ok.header.process_identifier = 2;
    assert_eq!(route_command(&RegisterCommand::System(ok.clone()), false, 3, 4), RouteDecision::Drop);
    // sector out of range
    ok.header.sector_idx = 4;
    assert_eq!(route_command(&RegisterCommand::System(ok.clone()), true, 3, 4), RouteDecision::Drop);
    // all valid
    ok.header.sector_idx = 3;
    assert_eq!(
        route_command(&RegisterCommand::System(ok), true, 3, 4),
        RouteDecision::DispatchSystem { worker: 3 }
    );
}

#[test]
fn broadcast_fans_out_to_all_peers() {
    let mut client = SolutionRegisterClient::new(2, 3);
    let question = SystemRegisterCommand {
        header: SystemCommandHeader {
            process_identifier: 2,
            msg_ident: 50,
            read_ident: 1,
            sector_idx: 0,
        },
        content: SystemRegisterCommandContent::ReadProc,
    };
    let deliveries = client.broadcast(atomic_disk_drive::domain::Broadcast { cmd: question });
    let targets: Vec<u8> = deliveries.iter().map(|u| u.target).collect();
    assert_eq!(targets, vec![1, 3]);
    assert_eq!(client.resender.pending().len(), 1);
    assert_eq!(client.resender.pending()[0].0, 50);
}

#[test]
fn self_answer_cancels_retransmission() {
    let mut client = SolutionRegisterClient::new(1, 3);
    let header = SystemCommandHeader {
        process_identifier: 1,
        msg_ident: 51,
        read_ident: 1,
        sector_idx: 0,
    };
    let question = SystemRegisterCommand { header, content: SystemRegisterCommandContent::WriteProc {
        timestamp: 1,
        write_rank: 1,
        data_to_write: sector(0x01),
    } };
    client.broadcast(atomic_disk_drive::domain::Broadcast { cmd: question });
    assert_eq!(client.resender.pending().len(), 1);

    // the worker's self-addressed acknowledgement: nothing on the wire
    let self_ack = Unicast {
        target: 1,
        cmd: SystemRegisterCommand { header, content: SystemRegisterCommandContent::Ack },
    };
    let deliveries = client.send(self_ack);
    assert!(deliveries.is_empty());
    assert!(client.resender.pending().is_empty());
}

#[test]
fn answer_to_peer_is_delivered_and_cancels_nothing_else() {
    let mut client = SolutionRegisterClient::new(1, 3);
    let header = SystemCommandHeader {
        process_identifier: 1,
        msg_ident: 52,
        read_ident: 1,
        sector_idx: 0,
    };
    let other = SystemCommandHeader { msg_ident: 53, ..header };
    client.broadcast(atomic_disk_drive::domain::Broadcast {
        cmd: SystemRegisterCommand { header: other, content: SystemRegisterCommandContent::ReadProc },
    });

    let answer = Unicast {
        target: 2,
        cmd: SystemRegisterCommand { header, content: SystemRegisterCommandContent::Ack },
    };
    let deliveries = client.send(answer);
    assert_eq!(deliveries.len(), 1);
    assert_eq!(deliveries[0].target, 2);
    // the other operation's broadcast is still pending
    assert_eq!(client.resender.pending().len(), 1);
    assert_eq!(client.resender.pending()[0].0, 53);
}

#[test]
fn newer_broadcast_replaces_the_recorded_one() {
    let mut client = SolutionRegisterClient::new(1, 2);
    let header = SystemCommandHeader {
        process_identifier: 1,
        msg_ident: 54,
        read_ident: 1,
        sector_idx: 0,
    };
    client.broadcast(atomic_disk_drive::domain::Broadcast {
        cmd: SystemRegisterCommand { header, content: SystemRegisterCommandContent::ReadProc },
    });
    client.broadcast(atomic_disk_drive::domain::Broadcast {
        cmd: SystemRegisterCommand { header, content: SystemRegisterCommandContent::WriteProc {
            timestamp: 2,
            write_rank: 1,
            data_to_write: sector(0x02),
        } },
    });
    assert_eq!(client.resender.pending().len(), 1);
    assert!(matches!(
        client.resender.pending()[0].1.cmd.content,
        SystemRegisterCommandContent::WriteProc { .. }
    ));
}

/// Two processes write the same sector concurrently: both writes are
/// confirmed, the later quorum wins the `(timestamp, rank)` race, and a
/// subsequent read returns exactly that payload.
#[test]
fn concurrent_writers_converge_on_one_payload() {
    let mut reg_a = build_atomic_register(1, 2);
    let mut reg_b = build_atomic_register(2, 2);

    // both start a write of their own payload
    let mut fx_a = Effects::new();
    reg_a.client_command(write_command(100, 0, 0xAA), None, (0, 0), zeros(), &mut fx_a);
    let header_a = fx_a.broadcasts[0].cmd.header;
    assert!(fx_a.complete.is_none(), "1 of 2 answers is no majority");

    let mut fx_b = Effects::new();
    reg_b.client_command(write_command(200, 0, 0xBB), None, (0, 0), zeros(), &mut fx_b);
    let header_b = fx_b.broadcasts[0].cmd.header;

    // B answers A's collection question from its unwritten sector
    let mut fx = Effects::new();
    reg_b.system_command(fx_a.broadcasts[0].cmd.clone(), (0, 0), zeros(), &mut fx);
    assert_eq!(fx.sends.len(), 1);
    let value_for_a = fx.sends.pop().unwrap();
    assert_eq!(value_for_a.target, 1);

    // A reaches its quorum and installs (1, 1)
    let mut fx = Effects::new();
    reg_a.system_command(value_for_a.cmd, (0, 0), zeros(), &mut fx);
    let store_a = fx.store.expect("the write must reach storage at quorum");
    assert_eq!((store_a.ts, store_a.wr), (1, 1));
    assert_eq!(store_a.data.0, vec![0xAA; 4096]);
    let install_a = fx.broadcasts.pop().expect("the install question goes out");

    // A answers B's collection question with its freshly installed triple
    let mut fx = Effects::new();
    reg_a.system_command(fx_b.broadcasts[0].cmd.clone(), (1, 1), sector(0xAA), &mut fx);
    let value_for_b = fx.sends.pop().unwrap();
    assert_eq!(value_for_b.target, 2);

    // B reaches its quorum, sees (1, 1) and steps past it with rank 2
    let mut fx = Effects::new();
    reg_b.system_command(value_for_b.cmd, (0, 0), zeros(), &mut fx);
    let store_b = fx.store.expect("the write must reach storage at quorum");
    assert_eq!((store_b.ts, store_b.wr), (2, 2));
    assert_eq!(store_b.data.0, vec![0xBB; 4096]);
    let install_b = fx.broadcasts.pop().expect("the install question goes out");

    // A's older install question reaches B: acknowledged, nothing stored
    let mut fx = Effects::new();
    reg_b.system_command(install_a.cmd, (2, 2), zeros(), &mut fx);
    assert!(fx.store.is_none(), "an older triple must not replace a newer one");
    let ack_for_a = fx.sends.pop().unwrap();
    assert_eq!(ack_for_a.target, 1);

    // A completes its write on B's acknowledgement
    let mut fx = Effects::new();
    reg_a.system_command(ack_for_a.cmd, (1, 1), zeros(), &mut fx);
    let success_a = fx.complete.expect("2 of 2 acknowledgements are a majority");
    assert_eq!(success_a.request_identifier, 100);
    assert!(matches!(success_a.op_return, OperationReturn::Write));

    // B's newer install question reaches A: stored and acknowledged
    let mut fx = Effects::new();
    reg_a.system_command(install_b.cmd, (1, 1), zeros(), &mut fx);
    let store = fx.store.expect("the newer triple must be stored");
    assert_eq!((store.ts, store.wr), (2, 2));
    assert_eq!(store.data.0, vec![0xBB; 4096]);
    let ack_for_b = fx.sends.pop().unwrap();

    // B completes its write on A's acknowledgement
    let mut fx = Effects::new();
    reg_b.system_command(ack_for_b.cmd, (2, 2), zeros(), &mut fx);
    let success_b = fx.complete.expect("2 of 2 acknowledgements are a majority");
    assert_eq!(success_b.request_identifier, 200);
    assert!(matches!(success_b.op_return, OperationReturn::Write));
    let _ = (header_a, header_b);

    // a subsequent read through A returns the payload that won the race
    let mut fx = Effects::new();
    reg_a.client_command(read_command(101, 0), None, (2, 2), sector(0xBB), &mut fx);
    let header_r = fx.broadcasts[0].cmd.header;
    let mut fx2 = Effects::new();
    reg_a.system_command(
        value_answer(header_r, 2, 2, 2, sector(0xBB)),
        (2, 2),
        sector(0xBB),
        &mut fx2,
    );
    let mut fx3 = Effects::new();
    reg_a.system_command(ack_answer(header_r, 2), (2, 2), zeros(), &mut fx3);
    let read_result = fx3.complete.expect("the read completes on the second acknowledgement");
    assert_eq!(read_result.request_identifier, 101);
    match read_result.op_return {
        OperationReturn::Read(rr) => assert_eq!(rr.read_data.0, vec![0xBB; 4096]),
        OperationReturn::Write => panic!("a read must return the sector"),
    }
}
