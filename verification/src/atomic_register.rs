//! The per-sector atomic-register state machine: the quorum protocol
//! that makes every sector a linearizable read/write register.
//!
//! Each call decides one protocol step. Everything the step demands of
//! the outside world — messages to deliver, a triple to store, the new
//! request counter to persist, a finished operation to answer — comes
//! back in an [`Effects`] value; the caller performs it and feeds later
//! arrivals back in. What the step needs from storage (the sector's
//! current metadata and payload, the stored request counter) is passed
//! in as arguments.
use vstd::prelude::*;
use crate::client_command_state::ClientCommandEnum;
use crate::client_command_state::ClientCommandState;
use crate::client_command_state::ReadList;
use crate::domain::Broadcast;
use crate::domain::OperationReturn;
use crate::domain::OperationSuccess;
use crate::domain::SectorIdx;
use crate::domain::SectorVec;
use crate::domain::SystemCommandHeader;
use crate::domain::SystemRegisterCommand;
use crate::domain::SystemRegisterCommandContent;
use crate::domain::Unicast;
use crate::register_data::SectorMetadata;
use crate::register_data::SolutionAtomicRegisterData;
use crate::sectors_manager::spec_meta_le;
use crate::sectors_manager::spec_meta_lt;

verus! {

/// Whether a protocol message is a question (`ReadProc` or `WriteProc`),
/// to be answered from local state, rather than an answer to collect.
pub open spec fn spec_is_proc_command(cmd: SystemRegisterCommand) -> bool {
    match cmd.content {
        SystemRegisterCommandContent::ReadProc => true,
        SystemRegisterCommandContent::WriteProc { .. } => true,
        _ => false,
    }
}

/// Whether a protocol message is a question.
pub fn is_proc_command(cmd: &SystemRegisterCommand) -> (r: bool)
    ensures
        r == spec_is_proc_command(*cmd),
{
    match cmd.content {
        SystemRegisterCommandContent::ReadProc => true,
        SystemRegisterCommandContent::WriteProc { .. } => true,
        _ => false,
    }
}

/// Whether a protocol message is an answer (`Value` or `Ack`).
pub fn is_answer_command(cmd: &SystemRegisterCommand) -> (r: bool)
    ensures
        r == !spec_is_proc_command(*cmd),
{
    !is_proc_command(cmd)
}

/// An answer to the sender of `prev`, under `prev`'s operation header
/// but naming this process as the sender.
pub fn build_answer(
    self_ident: u8,
    prev: &SystemRegisterCommand,
    content: SystemRegisterCommandContent,
) -> (r: Unicast)
    ensures
        r.target == prev.header.process_identifier,
        r.cmd.header == (SystemCommandHeader {
            process_identifier: self_ident,
            msg_ident: prev.header.msg_ident,
            read_ident: prev.header.read_ident,
            sector_idx: prev.header.sector_idx,
        }),
        r.cmd.content == content,
{
    Unicast {
        cmd: SystemRegisterCommand {
            header: SystemCommandHeader {
                process_identifier: self_ident,
                msg_ident: prev.header.msg_ident,
                read_ident: prev.header.read_ident,
                sector_idx: prev.header.sector_idx,
            },
            content,
        },
        target: prev.header.process_identifier,
    }
}

/// A triple the caller must write to the sector store.
pub struct StoreSector {
    pub sector_idx: SectorIdx,
    pub data: SectorVec,
    pub ts: u64,
    pub wr: u8,
}

/// What one protocol step asks of the outside world.
pub struct Effects {
    pub broadcasts: Vec<Broadcast>,
    pub sends: Vec<Unicast>,
    pub store: Option<StoreSector>,
    pub persist_rid: Option<u64>,
    pub complete: Option<OperationSuccess>,
}

impl Effects {
    /// A step that asks nothing yet.
    pub fn new() -> (r: Effects)
        ensures
            r.broadcasts@.len() == 0,
            r.sends@.len() == 0,
            r.store is None,
            r.persist_rid is None,
            r.complete is None,
    {
        Effects {
            broadcasts: Vec::new(),
            sends: Vec::new(),
            store: None,
            persist_rid: None,
            complete: None,
        }
    }
}

/// Whether `count` processes are a strict majority of `n`.
pub open spec fn spec_majority(n: u8, count: int) -> bool {
    2 * count > n as int
}

/// Whether `m` is a greatest gathered triple once `pid`'s answer
/// `(ts, wr, data)` joins the collection `rl0`: it is the new answer or
/// a surviving one, and no candidate has a newer `(timestamp, rank)`.
/// Payloads are compared by content.
pub open spec fn spec_is_highest_after(
    rl0: ReadList,
    pid: u8,
    ts: u64,
    wr: u8,
    data: SectorVec,
    m: (u64, u8, Seq<u8>),
) -> bool {
    &&& ((m.0 == ts && m.1 == wr && m.2 == data@) || exists|i: int|
        0 <= i < rl0.entries@.len() && (#[trigger] rl0.entries@[i]).0 != pid && (
        rl0.entries@[i].1).0 == m.0 && (rl0.entries@[i].1).1 == m.1 && (rl0.entries@[i].1).2@
            == m.2)
    &&& spec_meta_le((ts, wr), (m.0, m.1))
    &&& forall|i: int|
        0 <= i < rl0.entries@.len() && (#[trigger] rl0.entries@[i]).0 != pid ==> spec_meta_le(((
        rl0.entries@[i].1).0, (rl0.entries@[i].1).1), (m.0, m.1))
}

/// The per-sector atomic register of one worker: its rank, the size of
/// the process set, its cached storage state, and the at most one
/// in-flight client operation.
pub struct SolutionAtomicRegister {
    pub self_ident: u8,
    pub processes_count: u8,
    pub data: SolutionAtomicRegisterData,
    pub cmd_state: Option<ClientCommandState>,
}

impl SolutionAtomicRegister {
    /// The register is owned by a real rank of the process set, and its
    /// in-flight operation, if any, is well formed and its own.
    pub open spec fn wf(self) -> bool {
        &&& 1 <= self.self_ident <= self.processes_count
        &&& match self.cmd_state {
            Some(st) => st.wf() && st.header.process_identifier == self.self_ident,
            None => true,
        }
    }

    /// Whether this worker may accept the next client command.
    pub fn ready_for_client(&self) -> (r: bool)
        ensures
            r == (self.cmd_state is None),
    {
        self.cmd_state.is_none()
    }
}

/// The outcome of feeding one acknowledgement to an operation in its
/// install phase: the acknowledging process joins the set, and on a
/// strict majority the operation completes — exactly once, since the
/// state is cleared — with a self-addressed `Ack` that cancels its
/// retransmission.
pub open spec fn spec_ack_step(
    self_ident: u8,
    n: u8,
    st: ClientCommandState,
    pid: u8,
    fx0: Effects,
    post: SolutionAtomicRegister,
    fx1: Effects,
) -> bool {
    match st.state {
        ClientCommandEnum::WriteProc { acklist, readval } => {
            let newlen = acklist.entries@.len() + (if acklist.entries@.contains(pid) {
                0int
            } else {
                1int
            });
            &&& fx1.broadcasts == fx0.broadcasts
            &&& fx1.store == fx0.store
            &&& fx1.persist_rid == fx0.persist_rid
            &&& if spec_majority(n, newlen) {
                &&& post.cmd_state is None
                &&& fx1.sends@ == fx0.sends@.push(Unicast {
                    target: self_ident,
                    cmd: SystemRegisterCommand {
                        header: st.header,
                        content: SystemRegisterCommandContent::Ack,
                    },
                })
                &&& match fx1.complete {
                    Some(os) => {
                        &&& os.request_identifier == st.request_identifier
                        &&& match readval {
                            Some(v) => os.op_return matches OperationReturn::Read(rr)
                                && rr.read_data == v,
                            None => os.op_return == OperationReturn::Write,
                        }
                    },
                    None => false,
                }
            } else {
                &&& post.cmd_state matches Some(st2) && st2.header == st.header
                    && st2.request_identifier == st.request_identifier && (
                st2.state matches ClientCommandEnum::WriteProc { acklist: a2, readval: rv2 } && rv2
                    == readval && a2.entries@.len() == newlen && (forall|p: u8|
                    a2.entries@.contains(p) <==> (acklist.entries@.contains(p) || p == pid)))
                &&& fx1.sends == fx0.sends
                &&& fx1.complete == fx0.complete
            }
        },
        _ => false,
    }
}

/// The tail every quorum of `Value` answers runs: broadcast the install
/// question carrying `(bts, bwr, bdata)`, then count this process's own
/// acknowledgement, which on a single-process set already completes the
/// operation.
pub open spec fn spec_quorum_tail(
    self_ident: u8,
    n: u8,
    st: ClientCommandState,
    readval: Option<Seq<u8>>,
    bts: u64,
    bwr: u8,
    bdata: Seq<u8>,
    fx0: Effects,
    post: SolutionAtomicRegister,
    fx1: Effects,
) -> bool {
    &&& fx1.broadcasts@.len() == fx0.broadcasts@.len() + 1
    &&& fx1.broadcasts@.subrange(0, fx0.broadcasts@.len() as int) == fx0.broadcasts@
    &&& fx1.broadcasts@.last().cmd.header == st.header
    &&& fx1.broadcasts@.last().cmd.content matches SystemRegisterCommandContent::WriteProc {
        timestamp,
        write_rank,
        data_to_write,
    } && timestamp == bts && write_rank == bwr && data_to_write@ == bdata
    &&& if spec_majority(n, 1) {
        &&& post.cmd_state is None
        &&& fx1.sends@ == fx0.sends@.push(Unicast {
            target: self_ident,
            cmd: SystemRegisterCommand {
                header: st.header,
                content: SystemRegisterCommandContent::Ack,
            },
        })
        &&& match fx1.complete {
            Some(os) => {
                &&& os.request_identifier == st.request_identifier
                &&& match readval {
                    Some(v) => os.op_return matches OperationReturn::Read(rr) && rr.read_data@
                        == v,
                    None => os.op_return == OperationReturn::Write,
                }
            },
            None => false,
        }
    } else {
        &&& post.cmd_state matches Some(st2) && st2.header == st.header
            && st2.request_identifier == st.request_identifier && (
        st2.state matches ClientCommandEnum::WriteProc { acklist: a2, readval: rv2 } && a2.entries@
            == seq![self_ident] && (match readval {
            Some(v) => rv2 matches Some(x) && x@ == v,
            None => rv2 is None,
        }))
        &&& fx1.sends == fx0.sends
        &&& fx1.complete == fx0.complete
    }
}

/// The outcome of feeding one gathered `Value` to an operation in its
/// collection phase: the answer joins the collection, and on a strict
/// majority the operation picks a greatest gathered triple `m` and moves
/// to the install phase — stepping past `m` with its own payload for a
/// write, reading `m`'s payload back for a read. Which of several
/// equally-new triples is picked is left open; any member of the
/// majority holding the maximum suffices.
pub open spec fn spec_value_step(
    self_ident: u8,
    n: u8,
    st: ClientCommandState,
    pid: u8,
    ts: u64,
    wr: u8,
    data: SectorVec,
    pre_data: SolutionAtomicRegisterData,
    fx0: Effects,
    post: SolutionAtomicRegister,
    fx1: Effects,
) -> bool {
    match st.state {
        ClientCommandEnum::ReadProc { readlist: rl0, writeval } => {
            let newlen = rl0.entries@.len() + (if rl0.spec_has_key(pid) {
                0int
            } else {
                1int
            });
            &&& fx1.persist_rid == fx0.persist_rid
            &&& if spec_majority(n, newlen) {
                exists|m: (u64, u8, Seq<u8>)|
                    {
                        &&& #[trigger] spec_is_highest_after(rl0, pid, ts, wr, data, m)
                        &&& match writeval {
                            Some(v) => {
                                &&& m.0 < u64::MAX
                                &&& fx1.store matches Some(ss) && ss.sector_idx
                                    == st.header.sector_idx && ss.ts == m.0 + 1 && ss.wr
                                    == self_ident && ss.data@ == v@
                                &&& post.data.meta_cache@ == pre_data.meta_cache@.insert(
                                    st.header.sector_idx,
                                    SectorMetadata { ts: (m.0 + 1) as u64, wr: self_ident },
                                )
                                &&& post.data.rid_cache == pre_data.rid_cache
                                &&& spec_quorum_tail(self_ident, n, st, None, (m.0 + 1) as u64,
                                    self_ident, v@, fx0, post, fx1)
                            },
                            None => {
                                &&& fx1.store == fx0.store
                                &&& post.data == pre_data
                                &&& spec_quorum_tail(self_ident, n, st, Some(m.2), m.0, m.1, m.2,
                                    fx0, post, fx1)
                            },
                        }
                    }
            } else {
                &&& post.cmd_state matches Some(st2) && st2.header == st.header
                    && st2.request_identifier == st.request_identifier && (
                st2.state matches ClientCommandEnum::ReadProc { readlist: rl2, writeval: wv2 }
                    && wv2 == writeval && rl2.entries@.len() == newlen && (forall|
                    p: (u8, (u64, u8, SectorVec)),
                |
                    #[trigger] rl2.entries@.contains(p) <==> (if p.0 == pid {
                        p == (pid, (ts, wr, data))
                    } else {
                        rl0.entries@.contains(p)
                    })))
                &&& post.data == pre_data
                &&& fx1.broadcasts == fx0.broadcasts
                &&& fx1.sends == fx0.sends
                &&& fx1.store == fx0.store
                &&& fx1.complete == fx0.complete
            }
        },
        _ => false,
    }
}

/// The outcome of feeding any answer to the in-flight operation: a
/// `Value` drives the collection phase, an `Ack` the install phase, and
/// anything else — a late `Value`, a stray `Ack`, a question passed in
/// error — changes nothing.
pub open spec fn spec_answer_step(
    self_ident: u8,
    n: u8,
    st: ClientCommandState,
    pid: u8,
    content: SystemRegisterCommandContent,
    pre_data: SolutionAtomicRegisterData,
    fx0: Effects,
    post: SolutionAtomicRegister,
    fx1: Effects,
) -> bool {
    match content {
        SystemRegisterCommandContent::Ack => {
            match st.state {
                ClientCommandEnum::WriteProc { .. } => {
                    &&& spec_ack_step(self_ident, n, st, pid, fx0, post, fx1)
                    &&& post.data == pre_data
                },
                _ => post.cmd_state == Some(st) && post.data == pre_data && fx1 == fx0,
            }
        },
        SystemRegisterCommandContent::Value { timestamp, write_rank, sector_data } => {
            match st.state {
                ClientCommandEnum::ReadProc { .. } => spec_value_step(
                    self_ident,
                    n,
                    st,
                    pid,
                    timestamp,
                    write_rank,
                    sector_data,
                    pre_data,
                    fx0,
                    post,
                    fx1,
                ),
                _ => post.cmd_state == Some(st) && post.data == pre_data && fx1 == fx0,
            }
        },
        _ => post.cmd_state == Some(st) && post.data == pre_data && fx1 == fx0,
    }
}

/// The outcome of answering a question from local state: a `ReadProc`
/// is answered with the sector's current triple; a `WriteProc` stores
/// the carried triple exactly when it is strictly newer — the stored
/// `(timestamp, write rank)` never decreases — and is acknowledged
/// either way. The in-flight operation is untouched.
pub open spec fn spec_question_step(
    self_ident: u8,
    cmd: SystemRegisterCommand,
    stored_meta: (u64, u8),
    stored_data: SectorVec,
    pre_data: SolutionAtomicRegisterData,
    fx0: Effects,
    post: SolutionAtomicRegister,
    fx1: Effects,
) -> bool {
    let idx = cmd.header.sector_idx;
    let meta = pre_data.spec_local_meta(idx, stored_meta);
    &&& fx1.broadcasts == fx0.broadcasts
    &&& fx1.persist_rid == fx0.persist_rid
    &&& fx1.complete == fx0.complete
    &&& post.data.rid_cache == pre_data.rid_cache
    &&& fx1.sends@.len() == fx0.sends@.len() + 1
    &&& fx1.sends@.subrange(0, fx0.sends@.len() as int) == fx0.sends@
    &&& fx1.sends@.last().target == cmd.header.process_identifier
    &&& fx1.sends@.last().cmd.header == (SystemCommandHeader {
        process_identifier: self_ident,
        msg_ident: cmd.header.msg_ident,
        read_ident: cmd.header.read_ident,
        sector_idx: idx,
    })
    &&& match cmd.content {
        SystemRegisterCommandContent::ReadProc => {
            &&& post.data.meta_cache@ == pre_data.meta_cache@.insert(idx, meta)
            &&& fx1.store == fx0.store
            &&& fx1.sends@.last().cmd.content matches SystemRegisterCommandContent::Value {
                timestamp,
                write_rank,
                sector_data,
            } && timestamp == meta.ts && write_rank == meta.wr && sector_data == stored_data
        },
        SystemRegisterCommandContent::WriteProc { timestamp, write_rank, data_to_write } => {
            &&& if spec_meta_lt((meta.ts, meta.wr), (timestamp, write_rank)) {
                &&& fx1.store matches Some(ss) && ss.sector_idx == idx && ss.ts == timestamp
                    && ss.wr == write_rank && ss.data@ == data_to_write@
                &&& post.data.meta_cache@ == pre_data.meta_cache@.insert(
                    idx,
                    SectorMetadata { ts: timestamp, wr: write_rank },
                )
            } else {
                &&& fx1.store == fx0.store
                &&& post.data.meta_cache@ == pre_data.meta_cache@.insert(idx, meta)
            }
            &&& fx1.sends@.last().cmd.content == SystemRegisterCommandContent::Ack
        },
        _ => false,
    }
}

impl SolutionAtomicRegister {
    /// Completes or extends the install phase with `st` already taken
    /// out of the register.
    fn ack_into(&mut self, st: ClientCommandState, process_id: u8, fx: &mut Effects)
        requires
            old(self).cmd_state is None,
            1 <= old(self).self_ident <= old(self).processes_count,
            st.wf(),
            st.header.process_identifier == old(self).self_ident,
            st.state is WriteProc,
        ensures
            final(self).wf(),
            final(self).self_ident == old(self).self_ident,
            final(self).processes_count == old(self).processes_count,
            final(self).data == old(self).data,
            spec_ack_step(old(self).self_ident, old(self).processes_count, st, process_id, *old(
                fx), *final(self), *final(fx)),
    {
        let mut st = st;
        let processes_count = self.processes_count;
        match &mut st.state {
            ClientCommandEnum::WriteProc { acklist, .. } => {
                acklist.insert(process_id);
                let count = acklist.count();
                if 2 * (count as u128) > (processes_count as u128) {
                    let msg = st.build_self_message(SystemRegisterCommandContent::Ack);
                    let success = st.finish();
                    fx.complete = Some(success);
                    fx.sends.push(msg);
                } else {
                    self.cmd_state = Some(st);
                }
            },
            _ => {
                proof {
                    assert(false);
                }
            },
        }
    }

    /// Counts one acknowledgement for the in-flight operation.
    fn add_ack(&mut self, process_id: u8, fx: &mut Effects)
        requires
            old(self).wf(),
            old(self).cmd_state matches Some(st) && st.state is WriteProc,
        ensures
            final(self).wf(),
            final(self).self_ident == old(self).self_ident,
            final(self).processes_count == old(self).processes_count,
            final(self).data == old(self).data,
            old(self).cmd_state matches Some(st) ==> spec_ack_step(old(self).self_ident, old(
                self).processes_count, st, process_id, *old(fx), *final(self), *final(fx)),
    {
        let st = self.cmd_state.take().unwrap();
        self.ack_into(st, process_id, fx);
    }

    /// Feeds one answer to the in-flight operation.
    pub fn add_answer(
        &mut self,
        process_id: u8,
        cmd: SystemRegisterCommandContent,
        fx: &mut Effects,
    )
        requires
            old(self).wf(),
            old(self).cmd_state is Some,
            (match old(self).cmd_state {
                Some(st) => match (cmd, st.state) {
                    (
                        SystemRegisterCommandContent::Value { timestamp, .. },
                        ClientCommandEnum::ReadProc { writeval: Some(_), .. },
                    ) => timestamp < u64::MAX,
                    _ => true,
                },
                None => true,
            }),
        ensures
            final(self).wf(),
            final(self).self_ident == old(self).self_ident,
            final(self).processes_count == old(self).processes_count,
            old(self).cmd_state matches Some(st) ==> spec_answer_step(old(self).self_ident, old(
                self).processes_count, st, process_id, cmd, old(self).data, *old(fx), *final(
            self), *final(fx)),
    {
        let self_ident = self.self_ident;
        let processes_count = self.processes_count;
        match cmd {
            SystemRegisterCommandContent::Ack => {
                let st = self.cmd_state.take().unwrap();
                let in_write = match &st.state {
                    ClientCommandEnum::WriteProc { .. } => true,
                    _ => false,
                };
                if in_write {
                    self.ack_into(st, process_id, fx);
                } else {
                    self.cmd_state = Some(st);
                }
            },
            SystemRegisterCommandContent::Value { timestamp, write_rank, sector_data } => {
                let mut st = self.cmd_state.take().unwrap();
                let ghost old_st = st;
                let ghost rl0 = match old_st.state {
                    ClientCommandEnum::ReadProc { readlist, .. } => readlist,
                    _ => vstd::pervasive::arbitrary(),
                };
                let ghost wv0 = match old_st.state {
                    ClientCommandEnum::ReadProc { writeval, .. } => writeval,
                    _ => vstd::pervasive::arbitrary(),
                };
                let in_read = match &st.state {
                    ClientCommandEnum::ReadProc { .. } => true,
                    _ => false,
                };
                if !in_read {
                    self.cmd_state = Some(st);
                    return ;
                }
                let mut at_quorum = false;
                let ghost mut rl1: ReadList = vstd::pervasive::arbitrary();
                match &mut st.state {
                    ClientCommandEnum::ReadProc { readlist, .. } => {
                        readlist.insert(process_id, (timestamp, write_rank, sector_data));
                        proof {
                            rl1 = *readlist;
                        }
                        let count = readlist.count();
                        if 2 * (count as u128) > (processes_count as u128) {
                            at_quorum = true;
                        }
                    },
                    _ => {
                        proof {
                            assert(false);
                        }
                    },
                }
                proof {
                    if wv0 is Some {
                        assert forall|i: int|
                            0 <= i < rl1.entries@.len() implies ((#[trigger] rl1.entries@[
                        i]).1).0 < u64::MAX by {
                            let p = rl1.entries@[i];
                            assert(rl1.entries@.contains(p));
                            if p.0 != process_id {
                                assert(rl0.entries@.contains(p));
                                let j = choose|j: int|
                                    0 <= j < rl0.entries@.len() && rl0.entries@[j] == p;
                            }
                        }
                    }
                }
                if !at_quorum {
                    self.cmd_state = Some(st);
                    return ;
                }
                let mut highest: (u64, u8, SectorVec) = (0, 0, SectorVec(Vec::new()));
                let mut writeval: Option<SectorVec> = None;
                match &mut st.state {
                    ClientCommandEnum::ReadProc { readlist, writeval: wv } => {
                        highest = readlist.highest();
                        writeval = wv.take();
                    },
                    _ => {
                        proof {
                            assert(false);
                        }
                    },
                }
                let ghost m = (highest.0, highest.1, highest.2@);
                proof {
                    lemma_highest_after_insert(rl0, rl1, process_id, timestamp, write_rank,
                        sector_data, m);
                }
                let sector_idx = st.get_sector_idx();
                let mut readval: Option<SectorVec> = None;
                if let Some(v) = writeval {
                    proof {
                        assert(m.0 < u64::MAX) by {
                            let i = choose|i: int|
                                0 <= i < rl1.entries@.len() && ((#[trigger] rl1.entries@[
                                i]).1).0 == m.0 && (rl1.entries@[i].1).1 == m.1 && (rl1.entries@[
                                i].1).2@ == m.2;
                            let p = rl1.entries@[i];
                            assert(rl1.entries@.contains(p));
                            if p.0 != process_id {
                                let j = choose|j: int|
                                    0 <= j < rl0.entries@.len() && rl0.entries@[j] == p;
                                assert(((rl0.entries@[j]).1).0 < u64::MAX);
                            }
                        }
                    }
                    let new_ts = highest.0 + 1;
                    let stored = v.clone();
                    self.data.put_meta(sector_idx, SectorMetadata { ts: new_ts, wr: self_ident });
                    fx.store = Some(
                        StoreSector { sector_idx, data: stored, ts: new_ts, wr: self_ident },
                    );
                    highest = (new_ts, self_ident, v);
                } else {
                    readval = Some(highest.2.clone());
                }
                st.put_write_proc(readval);
                let msg = st.build_message(
                    SystemRegisterCommandContent::WriteProc {
                        timestamp: highest.0,
                        write_rank: highest.1,
                        data_to_write: highest.2,
                    },
                );
                fx.broadcasts.push(msg);
                self.cmd_state = Some(st);
                self.add_ack(self_ident, fx);
                proof {
                    assert(final(fx).broadcasts@.subrange(0, old(fx).broadcasts@.len() as int)
                        =~= old(fx).broadcasts@);
                    if !spec_majority(processes_count, 1) {
                        let st2 = self.cmd_state.unwrap();
                        let a2 = match st2.state {
                            ClientCommandEnum::WriteProc { acklist, .. } => acklist,
                            _ => vstd::pervasive::arbitrary(),
                        };
                        assert(a2.entries@.len() == 1);
                        assert(a2.entries@.contains(a2.entries@[0]));
                        assert(a2.entries@ =~= seq![self_ident]);
                    }
                    assert(spec_value_step(self_ident, processes_count, old_st, process_id,
                        timestamp, write_rank, sector_data, old(self).data, *old(fx), *final(
                    self), *final(fx))) by {
                        assert(spec_is_highest_after(rl0, process_id, timestamp, write_rank,
                            sector_data, m));
                    }
                }
            },
            _ => {},
        }
    }

    /// Answers a question from the sector's local state.
    fn give_answer(
        &mut self,
        cmd: SystemRegisterCommand,
        stored_meta: (u64, u8),
        stored_data: SectorVec,
        fx: &mut Effects,
    )
        requires
            old(self).wf(),
            spec_is_proc_command(cmd),
        ensures
            final(self).wf(),
            final(self).self_ident == old(self).self_ident,
            final(self).processes_count == old(self).processes_count,
            final(self).cmd_state == old(self).cmd_state,
            spec_question_step(old(self).self_ident, cmd, stored_meta, stored_data, old(
                self).data, *old(fx), *final(self), *final(fx)),
    {
        let self_ident = self.self_ident;
        let sector_idx = cmd.header.sector_idx;
        match cmd.content {
            SystemRegisterCommandContent::ReadProc => {
                let meta = self.data.get_meta(sector_idx, stored_meta);
                let answer = build_answer(
                    self_ident,
                    &cmd,
                    SystemRegisterCommandContent::Value {
                        timestamp: meta.ts,
                        write_rank: meta.wr,
                        sector_data: stored_data,
                    },
                );
                fx.sends.push(answer);
                proof {
                    assert(final(fx).sends@.subrange(0, old(fx).sends@.len() as int) =~= old(
                        fx).sends@);
                }
            },
            SystemRegisterCommandContent::WriteProc { timestamp, write_rank, ref data_to_write } => {
                let meta = self.data.get_meta(sector_idx, stored_meta);
                if crate::sectors_manager::meta_lt((meta.ts, meta.wr), (timestamp, write_rank)) {
                    self.data.put_meta(
                        sector_idx,
                        SectorMetadata { ts: timestamp, wr: write_rank },
                    );
                    fx.store = Some(
                        StoreSector {
                            sector_idx,
                            data: data_to_write.clone(),
                            ts: timestamp,
                            wr: write_rank,
                        },
                    );
                    proof {
                        assert(self.data.meta_cache@ =~= old(self).data.meta_cache@.insert(
                            sector_idx,
                            SectorMetadata { ts: timestamp, wr: write_rank },
                        ));
                    }
                }
                let answer = build_answer(self_ident, &cmd, SystemRegisterCommandContent::Ack);
                fx.sends.push(answer);
                proof {
                    assert(final(fx).sends@.subrange(0, old(fx).sends@.len() as int) =~= old(
                        fx).sends@);
                }
            },
            _ => {
                proof {
                    assert(false);
                }
            },
        }
    }
}



/// The outcome of starting a client operation, witnessed by the fresh
/// collection state `st1`, the caches `d1` and the effects `fx1` as they
/// stand after the counter was drawn and the collection question
/// broadcast; the rest is this process's own triple joining the
/// collection as the first answer. The operation identifier under
/// `st1.header` is freshly drawn at random, so nothing is stated of it.
pub open spec fn spec_client_start(
    pre: SolutionAtomicRegister,
    cmd: crate::domain::ClientRegisterCommand,
    stored_rid: Option<Vec<u8>>,
    stored_meta: (u64, u8),
    stored_data: SectorVec,
    fx0: Effects,
    st1: ClientCommandState,
    d1: SolutionAtomicRegisterData,
    fx1: Effects,
    post: SolutionAtomicRegister,
    fxf: Effects,
) -> bool {
    let rid = (pre.data.spec_rid(stored_rid) + 1) as u64;
    let meta = pre.data.spec_local_meta(cmd.header.sector_idx, stored_meta);
    &&& st1.header.process_identifier == pre.self_ident
    &&& st1.header.read_ident == rid
    &&& st1.header.sector_idx == cmd.header.sector_idx
    &&& st1.request_identifier == cmd.header.request_identifier
    &&& st1.state matches ClientCommandEnum::ReadProc { readlist: rl, writeval: wv }
        && rl.entries@.len() == 0 && (match cmd.content {
        crate::domain::ClientRegisterCommandContent::Write { data } => wv == Some(data),
        crate::domain::ClientRegisterCommandContent::Read => wv is None,
    })
    &&& fx1.broadcasts@ == fx0.broadcasts@.push(Broadcast {
        cmd: SystemRegisterCommand {
            header: st1.header,
            content: SystemRegisterCommandContent::ReadProc,
        },
    })
    &&& fx1.sends == fx0.sends
    &&& fx1.store == fx0.store
    &&& fx1.complete == fx0.complete
    &&& fx1.persist_rid == Some(rid)
    &&& d1.meta_cache@ == pre.data.meta_cache@.insert(cmd.header.sector_idx, meta)
    &&& d1.rid_cache == Some(rid)
    &&& spec_value_step(pre.self_ident, pre.processes_count, st1, pre.self_ident, meta.ts,
        meta.wr, stored_data, d1, fx1, post, fxf)
}

/// Whether an answer's header belongs to the operation headed `own`.
pub open spec fn spec_compatible(own: SystemCommandHeader, h: SystemCommandHeader) -> bool {
    h.msg_ident == own.msg_ident && h.read_ident == own.read_ident && h.sector_idx
        == own.sector_idx
}

impl SolutionAtomicRegister {
    /// Feeds one protocol message to the register. A question is
    /// answered from the sector's stored state (`stored_meta`,
    /// `stored_data`, as read by the caller); an answer that matches the
    /// in-flight operation drives it forward; anything else is dropped.
    pub fn system_command(
        &mut self,
        cmd: SystemRegisterCommand,
        stored_meta: (u64, u8),
        stored_data: SectorVec,
        fx: &mut Effects,
    )
        requires
            old(self).wf(),
            cmd.content matches SystemRegisterCommandContent::Value { timestamp, .. }
                ==> timestamp < u64::MAX,
        ensures
            final(self).wf(),
            final(self).self_ident == old(self).self_ident,
            final(self).processes_count == old(self).processes_count,
            spec_is_proc_command(cmd) ==> final(self).cmd_state == old(self).cmd_state
                && spec_question_step(old(self).self_ident, cmd, stored_meta, stored_data, old(
            self).data, *old(fx), *final(self), *final(fx)),
            !spec_is_proc_command(cmd) ==> (match old(self).cmd_state {
                Some(st) => {
                    if spec_compatible(st.header, cmd.header) {
                        spec_answer_step(old(self).self_ident, old(self).processes_count, st,
                            cmd.header.process_identifier, cmd.content, old(self).data, *old(fx),
                            *final(self), *final(fx))
                    } else {
                        final(self).cmd_state == old(self).cmd_state && final(self).data == old(
                        self).data && *final(fx) == *old(fx)
                    }
                },
                None => final(self).cmd_state == old(self).cmd_state && final(self).data == old(
                self).data && *final(fx) == *old(fx),
            }),
    {
        if is_proc_command(&cmd) {
            self.give_answer(cmd, stored_meta, stored_data, fx);
        } else {
            let compatible = match &self.cmd_state {
                Some(state) => state.is_compatible(&cmd.header),
                None => false,
            };
            if compatible {
                self.add_answer(cmd.header.process_identifier, cmd.content, fx);
            }
        }
    }

    /// Starts the single client operation this worker may run: draws the
    /// next request counter (to be persisted before anything is sent),
    /// installs the collection phase under a fresh operation identifier,
    /// broadcasts the collection question, and counts this process's own
    /// stored triple as the first answer.
    pub fn client_command(
        &mut self,
        cmd: crate::domain::ClientRegisterCommand,
        stored_rid: Option<Vec<u8>>,
        stored_meta: (u64, u8),
        stored_data: SectorVec,
        fx: &mut Effects,
    )
        requires
            old(self).wf(),
            old(self).cmd_state is None,
            old(self).data.spec_rid(stored_rid) < u64::MAX,
            cmd.content matches crate::domain::ClientRegisterCommandContent::Write { .. } ==> old(
                self).data.spec_local_meta(cmd.header.sector_idx, stored_meta).ts < u64::MAX,
        ensures
            final(self).wf(),
            final(self).self_ident == old(self).self_ident,
            final(self).processes_count == old(self).processes_count,
            final(fx).persist_rid == Some((old(self).data.spec_rid(stored_rid) + 1) as u64),
            final(self).data.rid_cache == Some((old(self).data.spec_rid(stored_rid) + 1) as u64),
            exists|st1: ClientCommandState, d1: SolutionAtomicRegisterData, fx1: Effects|
                #[trigger] spec_client_start(*old(self), cmd, stored_rid, stored_meta,
                    stored_data, *old(fx), st1, d1, fx1, *final(self), *final(fx)),
    {
        let self_ident = self.self_ident;
        let request_identifier = cmd.header.request_identifier;
        let sector_idx = cmd.header.sector_idx;
        let mut writeval: Option<SectorVec> = None;
        if let crate::domain::ClientRegisterCommandContent::Write { data } = cmd.content {
            writeval = Some(data);
        }
        let rid0 = self.data.get_rid(&stored_rid);
        let rid = rid0 + 1;
        self.data.put_rid(rid);
        fx.persist_rid = Some(rid);
        let msg_ident = crate::hashes::fresh_msg_ident();
        let st = ClientCommandState::new_in_read_proc(
            self_ident,
            msg_ident,
            rid,
            sector_idx,
            request_identifier,
            writeval,
        );
        let meta = self.data.get_meta(sector_idx, stored_meta);
        let bmsg = st.build_message(SystemRegisterCommandContent::ReadProc);
        fx.broadcasts.push(bmsg);
        self.cmd_state = Some(st);
        let ghost st1 = self.cmd_state.unwrap();
        let ghost d1 = self.data;
        let ghost fx1 = *fx;
        self.add_answer(
            self_ident,
            SystemRegisterCommandContent::Value {
                timestamp: meta.ts,
                write_rank: meta.wr,
                sector_data: stored_data,
            },
            fx,
        );
        proof {
            assert(spec_client_start(*old(self), cmd, stored_rid, stored_meta, stored_data, *old(
            fx), st1, d1, fx1, *final(self), *final(fx)));
        }
    }
}

/// A fresh register for process `self_ident` of `processes_count`, with
/// nothing cached and no operation in flight.
pub fn build_atomic_register(self_ident: u8, processes_count: u8) -> (r: SolutionAtomicRegister)
    requires
        1 <= self_ident <= processes_count,
    ensures
        r.wf(),
        r.self_ident == self_ident,
        r.processes_count == processes_count,
        r.cmd_state is None,
        r.data.meta_cache@ == Map::<SectorIdx, SectorMetadata>::empty(),
        r.data.rid_cache is None,
{
    SolutionAtomicRegister {
        self_ident,
        processes_count,
        data: SolutionAtomicRegisterData::new(),
        cmd_state: None,
    }
}


/// The stored `(timestamp, write rank)` of a sector never decreases
/// under a question step: after handling any question, the pair the
/// register holds for the sector is at least what it held before, and a
/// carried triple that is not strictly newer stores nothing.
pub proof fn lemma_question_step_monotone(
    self_ident: u8,
    cmd: SystemRegisterCommand,
    stored_meta: (u64, u8),
    stored_data: SectorVec,
    pre_data: SolutionAtomicRegisterData,
    fx0: Effects,
    post: SolutionAtomicRegister,
    fx1: Effects,
)
    requires
        spec_is_proc_command(cmd),
        spec_question_step(self_ident, cmd, stored_meta, stored_data, pre_data, fx0, post, fx1),
    ensures
        ({
            let idx = cmd.header.sector_idx;
            let before = pre_data.spec_local_meta(idx, stored_meta);
            let after = post.data.spec_local_meta(idx, stored_meta);
            &&& spec_meta_le((before.ts, before.wr), (after.ts, after.wr))
            &&& (match cmd.content {
                SystemRegisterCommandContent::WriteProc { timestamp, write_rank, .. } => (
                !spec_meta_lt((before.ts, before.wr), (timestamp, write_rank)) ==> fx1.store
                    == fx0.store),
                _ => true,
            })
        }),
{
}

/// A maximal element of the collection after an insert is maximal in the
/// sense of [`spec_is_highest_after`] over the collection before it.
proof fn lemma_highest_after_insert(
    rl0: ReadList,
    rl1: ReadList,
    pid: u8,
    ts: u64,
    wr: u8,
    data: SectorVec,
    m: (u64, u8, Seq<u8>),
)
    requires
        forall|p: (u8, (u64, u8, SectorVec))|
            #[trigger] rl1.entries@.contains(p) <==> (if p.0 == pid {
                p == (pid, (ts, wr, data))
            } else {
                rl0.entries@.contains(p)
            }),
        exists|i: int|
            0 <= i < rl1.entries@.len() && ((#[trigger] rl1.entries@[i]).1).0 == m.0 && (
            rl1.entries@[i].1).1 == m.1 && (rl1.entries@[i].1).2@ == m.2,
        forall|i: int|
            0 <= i < rl1.entries@.len() ==> spec_meta_le((((#[trigger] rl1.entries@[i]).1).0, (
            rl1.entries@[i].1).1), (m.0, m.1)),
    ensures
        spec_is_highest_after(rl0, pid, ts, wr, data, m),
{
    let iw = choose|i: int|
        0 <= i < rl1.entries@.len() && ((#[trigger] rl1.entries@[i]).1).0 == m.0 && (
        rl1.entries@[i].1).1 == m.1 && (rl1.entries@[i].1).2@ == m.2;
    let pw = rl1.entries@[iw];
    assert(rl1.entries@.contains(pw));
    if pw.0 != pid {
        let j = choose|j: int| 0 <= j < rl0.entries@.len() && rl0.entries@[j] == pw;
        assert((#[trigger] rl0.entries@[j]).0 != pid && (rl0.entries@[j].1).0 == m.0 && (
        rl0.entries@[j].1).1 == m.1 && (rl0.entries@[j].1).2@ == m.2);
    }
    assert(rl1.entries@.contains((pid, (ts, wr, data))));
    let k = choose|k: int|
        0 <= k < rl1.entries@.len() && rl1.entries@[k] == (pid, (ts, wr, data));
    assert(spec_meta_le((ts, wr), (m.0, m.1)));
    assert forall|i: int|
        0 <= i < rl0.entries@.len() && (#[trigger] rl0.entries@[i]).0 != pid implies spec_meta_le(
        ((rl0.entries@[i].1).0, (rl0.entries@[i].1).1), (m.0, m.1)) by {
        let p = rl0.entries@[i];
        assert(rl0.entries@.contains(p));
        assert(rl1.entries@.contains(p));
        let j = choose|j: int| 0 <= j < rl1.entries@.len() && rl1.entries@[j] == p;
    }
}

} // verus!
