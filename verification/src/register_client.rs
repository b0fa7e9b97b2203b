//! The stubborn register-client's decisions: which peers a question is
//! fanned out to, and which broadcast is retransmitted until the worker
//! answers itself. The connections, queues and the timer live outside;
//! they only deliver what these functions return.
//!
//! Self-messages are never delivered over a connection: the worker
//! short-circuits them, and a self-addressed answer only cancels the
//! retransmission of the operation it names.
use vstd::prelude::*;
use crate::atomic_register::spec_is_proc_command;
use crate::domain::Broadcast;
use crate::domain::SystemRegisterCommand;
use crate::domain::Unicast;

verus! {

/// The retransmission table: for each in-flight operation identifier,
/// the latest question broadcast under it. Every entry is re-broadcast
/// on each tick until the operation's own answer cancels it.
pub struct Resender {
    pub entries: Vec<(u128, Broadcast)>,
}

impl Resender {
    /// No two entries share an operation identifier.
    pub open spec fn wf(self) -> bool {
        forall|i: int, j: int|
            0 <= i < j < self.entries@.len() ==> (#[trigger] self.entries@[i]).0 != (
            #[trigger] self.entries@[j]).0
    }

    /// Whether some entry carries the operation identifier `key`.
    pub open spec fn spec_has_key(self, key: u128) -> bool {
        exists|i: int| 0 <= i < self.entries@.len() && (#[trigger] self.entries@[i]).0 == key
    }

    /// An empty table.
    pub fn new() -> (r: Resender)
        ensures
            r.wf(),
            r.entries@.len() == 0,
    {
        Resender { entries: Vec::new() }
    }

    /// Records `broadcast` as the one to retransmit for its operation,
    /// replacing any earlier broadcast under the same identifier.
    pub fn record(&mut self, broadcast: Broadcast)
        requires
            old(self).wf(),
        ensures
            final(self).wf(),
            final(self).spec_has_key(broadcast.cmd.header.msg_ident),
            forall|p: (u128, Broadcast)|
                #[trigger] final(self).entries@.contains(p) <==> (if p.0
                    == broadcast.cmd.header.msg_ident {
                    p == (broadcast.cmd.header.msg_ident, broadcast)
                } else {
                    old(self).entries@.contains(p)
                }),
    {
        let key = broadcast.cmd.header.msg_ident;
        let n = self.entries.len();
        let mut i: usize = 0;
        while i < n
            invariant
                i <= n,
                n == self.entries@.len(),
                self.wf(),
                self == old(self),
                forall|j: int| 0 <= j < i ==> (#[trigger] self.entries@[j]).0 != key,
                key == broadcast.cmd.header.msg_ident,
            decreases n - i,
        {
            if self.entries[i].0 == key {
                self.entries.set(i, (key, broadcast));
                proof {
                    assert((self.entries@[i as int]).0 == key);
                    assert forall|a: int, b: int| 0 <= a < b < self.entries@.len() implies (
                    #[trigger] self.entries@[a]).0 != (#[trigger] self.entries@[b]).0 by {
                        assert((old(self).entries@[a]).0 != (old(self).entries@[b]).0);
                    }
                    assert forall|p: (u128, Broadcast)|
                        #[trigger] self.entries@.contains(p) <==> (if p.0 == key {
                            p == (key, broadcast)
                        } else {
                            old(self).entries@.contains(p)
                        }) by {
                        let s_new = self.entries@;
                        let s_old = old(self).entries@;
                        if p.0 == key {
                            if s_new.contains(p) {
                                let j = choose|j: int| 0 <= j < s_new.len() && s_new[j] == p;
                                assert(s_old[j].0 == key ==> j == i);
                            }
                            assert(s_new[i as int] == (key, broadcast));
                        } else {
                            if s_new.contains(p) {
                                let j = choose|j: int| 0 <= j < s_new.len() && s_new[j] == p;
                                assert(s_old[j] == p);
                            }
                            if s_old.contains(p) {
                                let j = choose|j: int| 0 <= j < s_old.len() && s_old[j] == p;
                                assert(s_new[j] == p);
                            }
                        }
                    }
                }
                return ;
            }
            i = i + 1;
        }
        self.entries.push((key, broadcast));
        proof {
            let s_new = self.entries@;
            let s_old = old(self).entries@;
            assert(s_new[n as int] == (key, broadcast));
            assert((s_new[n as int]).0 == key);
            assert forall|p: (u128, Broadcast)|
                #[trigger] s_new.contains(p) <==> (if p.0 == key {
                    p == (key, broadcast)
                } else {
                    s_old.contains(p)
                }) by {
                if s_new.contains(p) {
                    let j = choose|j: int| 0 <= j < s_new.len() && s_new[j] == p;
                    if j < n {
                        assert(s_old[j] == p);
                    }
                }
                if s_old.contains(p) {
                    let j = choose|j: int| 0 <= j < s_old.len() && s_old[j] == p;
                    assert(s_new[j] == p);
                }
            }
        }
    }

    /// Drops the broadcast recorded under `key`, if any: the operation
    /// has answered itself and needs no further retransmission.
    pub fn cancel(&mut self, key: u128)
        requires
            old(self).wf(),
        ensures
            final(self).wf(),
            !final(self).spec_has_key(key),
            forall|p: (u128, Broadcast)|
                #[trigger] final(self).entries@.contains(p) <==> (old(self).entries@.contains(p)
                    && p.0 != key),
    {
        let n = self.entries.len();
        let mut i: usize = 0;
        while i < n
            invariant
                i <= n,
                n == self.entries@.len(),
                self.wf(),
                self == old(self),
                forall|j: int| 0 <= j < i ==> (#[trigger] self.entries@[j]).0 != key,
            decreases n - i,
        {
            if self.entries[i].0 == key {
                self.entries.remove(i);
                proof {
                    let s_new = self.entries@;
                    let s_old = old(self).entries@;
                    assert forall|p: (u128, Broadcast)|
                        #[trigger] s_new.contains(p) <==> (s_old.contains(p) && p.0 != key) by {
                        if s_new.contains(p) {
                            let j = choose|j: int| 0 <= j < s_new.len() && s_new[j] == p;
                            if j < i {
                                assert(s_old[j] == p);
                            } else {
                                assert(s_old[j + 1] == p);
                            }
                        }
                        if s_old.contains(p) && p.0 != key {
                            let j = choose|j: int| 0 <= j < s_old.len() && s_old[j] == p;
                            if j < i {
                                assert(s_new[j] == p);
                            } else {
                                assert(j != i);
                                assert(s_new[j - 1] == p);
                            }
                        }
                    }
                    assert forall|i2: int, j2: int|
                        0 <= i2 < j2 < s_new.len() implies (#[trigger] s_new[i2]).0 != (
                    #[trigger] s_new[j2]).0 by {
                        if j2 < i {
                        } else if i2 < i {
                            assert(s_new[j2] == s_old[j2 + 1]);
                        } else {
                            assert(s_new[i2] == s_old[i2 + 1] && s_new[j2] == s_old[j2 + 1]);
                        }
                    }
                }
                return ;
            }
            i = i + 1;
        }
    }

    /// The broadcasts currently due for retransmission.
    pub fn pending(&self) -> (r: &Vec<(u128, Broadcast)>)
        ensures
            r == &self.entries,
    {
        &self.entries
    }
}

/// The rank delivered at position `i` when fanning out to every process
/// but `self_rank`, in increasing order: ranks below the sender keep
/// their position, ranks above it close the gap.
pub open spec fn spec_peer_rank_at(self_rank: u8, i: int) -> int {
    if i + 1 < self_rank as int {
        i + 1
    } else {
        i + 2
    }
}

/// The register client: fans questions out to all peers, answers to one
/// peer, and keeps the retransmission table. Delivery of what it returns
/// — FIFO per-peer queues over reconnecting TCP — happens outside.
pub struct SolutionRegisterClient {
    pub self_rank: u8,
    pub processes_count: u8,
    pub resender: Resender,
}

impl SolutionRegisterClient {
    pub open spec fn wf(self) -> bool {
        &&& self.resender.wf()
        &&& 1 <= self.self_rank
        &&& self.self_rank <= self.processes_count
    }

    /// A client for process `self_rank` of `processes_count`.
    pub fn new(self_rank: u8, processes_count: u8) -> (r: SolutionRegisterClient)
        requires
            1 <= self_rank <= processes_count,
        ensures
            r.wf(),
            r.self_rank == self_rank,
            r.processes_count == processes_count,
            r.resender.entries@.len() == 0,
    {
        SolutionRegisterClient { self_rank, processes_count, resender: Resender::new() }
    }

    /// One copy of `cmd` for every process but this one, in increasing
    /// order of rank.
    pub fn fan_out(&self, cmd: &SystemRegisterCommand) -> (r: Vec<Unicast>)
        requires
            1 <= self.self_rank <= self.processes_count,
        ensures
            r@.len() == self.processes_count - 1,
            forall|i: int|
                0 <= i < r@.len() ==> (#[trigger] r@[i]).target == spec_peer_rank_at(
                    self.self_rank, i),
            forall|i: int| 0 <= i < r@.len() ==> (#[trigger] r@[i]).cmd@ == cmd@,
    {
        let mut out: Vec<Unicast> = Vec::new();
        let mut rank: u16 = 1;
        let count = self.processes_count as u16;
        while rank <= count
            invariant
                1 <= rank <= count + 1,
                count == self.processes_count as u16,
                1 <= self.self_rank <= self.processes_count,
                out@.len() == rank - 1 - (if (self.self_rank as u16) < rank {
                    1int
                } else {
                    0int
                }),
                forall|i: int|
                    0 <= i < out@.len() ==> (#[trigger] out@[i]).target == spec_peer_rank_at(
                        self.self_rank, i),
                forall|i: int| 0 <= i < out@.len() ==> (#[trigger] out@[i]).cmd@ == cmd@,
            decreases count + 1 - rank,
        {
            let this_rank = rank as u8;
            if this_rank != self.self_rank {
                out.push(Unicast { target: this_rank, cmd: cmd.clone() });
            }
            rank = rank + 1;
        }
        out
    }

    /// Hands an answer over for delivery: nothing goes on the wire for a
    /// self-addressed answer, and either way the answer cancels the
    /// retransmission of the operation it belongs to.
    pub fn send(&mut self, msg: Unicast) -> (deliveries: Vec<Unicast>)
        requires
            old(self).wf(),
            spec_is_proc_command(msg.cmd) == false,
            1 <= msg.target <= old(self).processes_count,
        ensures
            final(self).wf(),
            final(self).self_rank == old(self).self_rank,
            final(self).processes_count == old(self).processes_count,
            !final(self).resender.spec_has_key(msg.cmd.header.msg_ident),
            forall|p: (u128, Broadcast)|
                #[trigger] final(self).resender.entries@.contains(p) <==> (old(
                self).resender.entries@.contains(p) && p.0 != msg.cmd.header.msg_ident),
            msg.target == old(self).self_rank ==> deliveries@.len() == 0,
            msg.target != old(self).self_rank ==> deliveries@ =~= seq![msg],
    {
        let key = msg.cmd.header.msg_ident;
        let target = msg.target;
        let mut deliveries: Vec<Unicast> = Vec::new();
        if target != self.self_rank {
            deliveries.push(msg);
        }
        self.resender.cancel(key);
        deliveries
    }

    /// Hands a question over for delivery to every peer and records it
    /// for retransmission until it is cancelled.
    pub fn broadcast(&mut self, msg: Broadcast) -> (deliveries: Vec<Unicast>)
        requires
            old(self).wf(),
            spec_is_proc_command(msg.cmd),
        ensures
            final(self).wf(),
            final(self).self_rank == old(self).self_rank,
            final(self).processes_count == old(self).processes_count,
            final(self).resender.spec_has_key(msg.cmd.header.msg_ident),
            forall|p: (u128, Broadcast)|
                #[trigger] final(self).resender.entries@.contains(p) <==> (if p.0
                    == msg.cmd.header.msg_ident {
                    p == (msg.cmd.header.msg_ident, msg)
                } else {
                    old(self).resender.entries@.contains(p)
                }),
            deliveries@.len() == old(self).processes_count - 1,
            forall|i: int|
                0 <= i < deliveries@.len() ==> (#[trigger] deliveries@[i]).target
                    == spec_peer_rank_at(old(self).self_rank, i),
            forall|i: int| 0 <= i < deliveries@.len() ==> (#[trigger] deliveries@[i]).cmd@
                == msg.cmd@,
    {
        let deliveries = self.fan_out(&msg.cmd);
        self.resender.record(msg);
        deliveries
    }
}

} // verus!
