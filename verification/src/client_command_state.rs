//! State of the single in-flight client operation of a worker: the
//! collection phase (`ReadProc`, gathering one `Value` per process) and
//! the install phase (`WriteProc`, gathering one `Ack` per process),
//! with the operation's header and the client's request number.
use vstd::prelude::*;
use crate::domain::Broadcast;
use crate::domain::OperationReturn;
use crate::domain::OperationSuccess;
use crate::domain::ReadReturn;
use crate::domain::SectorIdx;
use crate::domain::SectorVec;
use crate::domain::SystemCommandHeader;
use crate::domain::SystemRegisterCommand;
use crate::domain::SystemRegisterCommandContent;
use crate::domain::Unicast;
use crate::sectors_manager::spec_meta_le;

verus! {

/// The values gathered in the collection phase: for each answering
/// process, the `(timestamp, write rank, data)` it reported.
pub struct ReadList {
    pub entries: Vec<(u8, (u64, u8, SectorVec))>,
}

impl ReadList {
    /// No process appears twice.
    pub open spec fn wf(self) -> bool {
        forall|i: int, j: int|
            0 <= i < j < self.entries@.len() ==> (#[trigger] self.entries@[i]).0 != (
            #[trigger] self.entries@[j]).0
    }

    /// Whether `pid` has answered already.
    pub open spec fn spec_has_key(self, pid: u8) -> bool {
        exists|i: int| 0 <= i < self.entries@.len() && (#[trigger] self.entries@[i]).0 == pid
    }

    /// Every gathered timestamp is below the largest one, so the install
    /// phase of a write can step past all of them.
    pub open spec fn spec_ts_bounded(self) -> bool {
        forall|i: int|
            0 <= i < self.entries@.len() ==> ((#[trigger] self.entries@[i]).1).0 < u64::MAX
    }

    /// An empty collection.
    pub fn new() -> (r: ReadList)
        ensures
            r.wf(),
            r.spec_ts_bounded(),
            r.entries@.len() == 0,
    {
        ReadList { entries: Vec::new() }
    }

    /// Records the answer of `pid`, replacing an earlier one.
    pub fn insert(&mut self, pid: u8, value: (u64, u8, SectorVec))
        requires
            old(self).wf(),
        ensures
            final(self).wf(),
            forall|p: (u8, (u64, u8, SectorVec))|
                #[trigger] final(self).entries@.contains(p) <==> (if p.0 == pid {
                    p == (pid, value)
                } else {
                    old(self).entries@.contains(p)
                }),
            final(self).entries@.len() == old(self).entries@.len() + (if old(self).spec_has_key(
                pid) {
                0int
            } else {
                1int
            }),
    {
        let n = self.entries.len();
        let mut i: usize = 0;
        while i < n
            invariant
                i <= n,
                n == self.entries@.len(),
                self.wf(),
                self == old(self),
                forall|j: int| 0 <= j < i ==> (#[trigger] self.entries@[j]).0 != pid,
            decreases n - i,
        {
            if self.entries[i].0 == pid {
                self.entries.set(i, (pid, value));
                proof {
                    let s_new = self.entries@;
                    let s_old = old(self).entries@;
                    assert(s_old[i as int].0 == pid);
                    assert forall|a: int, b: int| 0 <= a < b < s_new.len() implies (
                    #[trigger] s_new[a]).0 != (#[trigger] s_new[b]).0 by {
                        assert(s_old[a].0 != s_old[b].0);
                    }
                    assert forall|p: (u8, (u64, u8, SectorVec))|
                        #[trigger] s_new.contains(p) <==> (if p.0 == pid {
                            p == (pid, value)
                        } else {
                            s_old.contains(p)
                        }) by {
                        if p.0 == pid {
                            if s_new.contains(p) {
                                let j = choose|j: int| 0 <= j < s_new.len() && s_new[j] == p;
                                assert(s_old[j].0 == pid ==> j == i);
                            }
                            assert(s_new[i as int] == (pid, value));
                        } else {
                            if s_new.contains(p) {
                                let j = choose|j: int| 0 <= j < s_new.len() && s_new[j] == p;
                                assert(s_old[j] == p);
                            }
                            if s_old.contains(p) {
                                let j = choose|j: int| 0 <= j < s_old.len() && s_old[j] == p;
                                assert(s_new[j] == p);
                            }
                        }
                    }
                }
                return ;
            }
            i = i + 1;
        }
        self.entries.push((pid, value));
        proof {
            let s_new = self.entries@;
            let s_old = old(self).entries@;
            assert(s_new[n as int] == (pid, value));
            assert forall|p: (u8, (u64, u8, SectorVec))|
                #[trigger] s_new.contains(p) <==> (if p.0 == pid {
                    p == (pid, value)
                } else {
                    s_old.contains(p)
                }) by {
                if s_new.contains(p) {
                    let j = choose|j: int| 0 <= j < s_new.len() && s_new[j] == p;
                    if j < n {
                        assert(s_old[j] == p);
                    }
                }
                if s_old.contains(p) {
                    let j = choose|j: int| 0 <= j < s_old.len() && s_old[j] == p;
                    assert(s_new[j] == p);
                }
            }
        }
    }

    /// How many processes have answered.
    pub fn count(&self) -> (r: usize)
        ensures
            r == self.entries@.len(),
    {
        self.entries.len()
    }

    /// A gathered triple with the greatest `(timestamp, write rank)`.
    /// Any process of the majority holding the maximum will do.
    pub fn highest(&self) -> (r: (u64, u8, SectorVec))
        requires
            self.entries@.len() > 0,
        ensures
            exists|i: int|
                0 <= i < self.entries@.len() && ((#[trigger] self.entries@[i]).1).0 == r.0 && (
                self.entries@[i].1).1 == r.1 && (self.entries@[i].1).2@ == r.2@,
            forall|i: int|
                0 <= i < self.entries@.len() ==> spec_meta_le((((#[trigger] self.entries@[i]).1).0,
                (self.entries@[i].1).1), (r.0, r.1)),
    {
        let n = self.entries.len();
        let mut best: usize = 0;
        let mut i: usize = 1;
        while i < n
            invariant
                1 <= i <= n,
                best < i,
                n == self.entries@.len(),
                forall|j: int|
                    0 <= j < i ==> spec_meta_le((((#[trigger] self.entries@[j]).1).0, (
                    self.entries@[j].1).1), ((self.entries@[best as int].1).0, (self.entries@[
                    best as int].1).1)),
            decreases n - i,
        {
            let cur = (self.entries[best].1.0, self.entries[best].1.1);
            let cand = (self.entries[i].1.0, self.entries[i].1.1);
            if crate::sectors_manager::meta_lt(cur, cand) {
                best = i;
            }
            i = i + 1;
        }
        let entry = &self.entries[best].1;
        (entry.0, entry.1, entry.2.clone())
    }
}

/// The processes that acknowledged the install phase.
pub struct AckList {
    pub entries: Vec<u8>,
}

impl AckList {
    /// No process appears twice.
    pub open spec fn wf(self) -> bool {
        forall|i: int, j: int|
            0 <= i < j < self.entries@.len() ==> #[trigger] self.entries@[i]
                != #[trigger] self.entries@[j]
    }

    /// An empty acknowledgement set.
    pub fn new() -> (r: AckList)
        ensures
            r.wf(),
            r.entries@.len() == 0,
    {
        AckList { entries: Vec::new() }
    }

    /// Records the acknowledgement of `pid`.
    pub fn insert(&mut self, pid: u8)
        requires
            old(self).wf(),
        ensures
            final(self).wf(),
            forall|p: u8|
                final(self).entries@.contains(p) <==> (old(self).entries@.contains(p) || p
                    == pid),
            final(self).entries@.len() == old(self).entries@.len() + (if old(
                self).entries@.contains(pid) {
                0int
            } else {
                1int
            }),
    {
        let n = self.entries.len();
        let mut i: usize = 0;
        while i < n
            invariant
                i <= n,
                n == self.entries@.len(),
                self.wf(),
                self == old(self),
                forall|j: int| 0 <= j < i ==> self.entries@[j] != pid,
            decreases n - i,
        {
            if self.entries[i] == pid {
                proof {
                    assert(self.entries@[i as int] == pid);
                    assert(self.entries@.contains(pid));
                }
                return ;
            }
            i = i + 1;
        }
        self.entries.push(pid);
        proof {
            let s_new = self.entries@;
            let s_old = old(self).entries@;
            assert(s_new[n as int] == pid);
            assert forall|p: u8| s_new.contains(p) <==> (s_old.contains(p) || p == pid) by {
                if s_new.contains(p) {
                    let j = choose|j: int| 0 <= j < s_new.len() && s_new[j] == p;
                    if j < n {
                        assert(s_old[j] == p);
                    }
                }
                if s_old.contains(p) {
                    let j = choose|j: int| 0 <= j < s_old.len() && s_old[j] == p;
                    assert(s_new[j] == p);
                }
            }
            assert(!s_old.contains(pid));
        }
    }

    /// How many processes have acknowledged.
    pub fn count(&self) -> (r: usize)
        ensures
            r == self.entries@.len(),
    {
        self.entries.len()
    }
}

/// The two phases of one client operation.
pub enum ClientCommandEnum {
    ReadProc { readlist: ReadList, writeval: Option<SectorVec> },
    WriteProc { acklist: AckList, readval: Option<SectorVec> },
}

impl ClientCommandEnum {
    /// Collections hold each process once, and in the collection phase of
    /// a write every gathered timestamp leaves room to step past it.
    pub open spec fn wf(self) -> bool {
        match self {
            ClientCommandEnum::ReadProc { readlist, writeval } => readlist.wf() && (
            writeval is Some ==> readlist.spec_ts_bounded()),
            ClientCommandEnum::WriteProc { acklist, .. } => acklist.wf(),
        }
    }
}

/// One in-flight client operation: its protocol header, its phase, and
/// the client's request number for the final response.
pub struct ClientCommandState {
    pub header: SystemCommandHeader,
    pub state: ClientCommandEnum,
    pub request_identifier: u64,
}

impl ClientCommandState {
    pub open spec fn wf(self) -> bool {
        self.state.wf()
    }

    /// A fresh operation in the collection phase. `writeval` carries the
    /// sector to install for a write; `None` marks a read.
    pub fn new_in_read_proc(
        self_ident: u8,
        msg_ident: u128,
        read_ident: u64,
        sector_idx: SectorIdx,
        request_identifier: u64,
        writeval: Option<SectorVec>,
    ) -> (r: Self)
        ensures
            r.wf(),
            r.header == (SystemCommandHeader {
                process_identifier: self_ident,
                msg_ident,
                read_ident,
                sector_idx,
            }),
            r.request_identifier == request_identifier,
            r.state matches ClientCommandEnum::ReadProc { readlist, writeval: w } && readlist
                .entries@.len() == 0 && w == writeval,
    {
        ClientCommandState {
            header: SystemCommandHeader {
                process_identifier: self_ident,
                msg_ident,
                read_ident,
                sector_idx,
            },
            state: ClientCommandEnum::ReadProc { readlist: ReadList::new(), writeval },
            request_identifier,
        }
    }

    /// Whether an answer's header belongs to this operation: its
    /// operation identifier must match, and then its request counter and
    /// sector must match too — a mismatch there is a protocol violation
    /// and the answer is dropped.
    pub fn is_compatible(&self, header: &SystemCommandHeader) -> (r: bool)
        ensures
            r == (header.msg_ident == self.header.msg_ident && header.read_ident
                == self.header.read_ident && header.sector_idx == self.header.sector_idx),
    {
        if header.msg_ident == self.header.msg_ident {
            if header.read_ident != self.header.read_ident || header.sector_idx
                != self.header.sector_idx {
                return false;
            }
            true
        } else {
            false
        }
    }

    /// A question under this operation's header, for every peer.
    pub fn build_message(&self, content: SystemRegisterCommandContent) -> (r: Broadcast)
        ensures
            r.cmd.header == self.header,
            r.cmd.content == content,
    {
        Broadcast { cmd: SystemRegisterCommand { header: self.header, content } }
    }

    /// An answer under this operation's header, addressed to this
    /// process itself: it is never put on the wire, it only cancels the
    /// operation's retransmission.
    pub fn build_self_message(&self, content: SystemRegisterCommandContent) -> (r: Unicast)
        ensures
            r.target == self.header.process_identifier,
            r.cmd.header == self.header,
            r.cmd.content == content,
    {
        Unicast {
            target: self.header.process_identifier,
            cmd: SystemRegisterCommand { header: self.header, content },
        }
    }

    /// The current phase.
    pub fn get(&self) -> (r: &ClientCommandEnum)
        ensures
            r == &self.state,
    {
        &self.state
    }

    /// Moves to the install phase with an empty acknowledgement set.
    /// `readval` carries the value to return for a read; `None` marks a
    /// write.
    pub fn put_write_proc(&mut self, readval: Option<SectorVec>)
        ensures
            final(self).header == old(self).header,
            final(self).request_identifier == old(self).request_identifier,
            final(self).state matches ClientCommandEnum::WriteProc { acklist, readval: rv }
                && acklist.entries@.len() == 0 && rv == readval,
            final(self).wf(),
    {
        self.state = ClientCommandEnum::WriteProc { acklist: AckList::new(), readval };
    }

    /// The completed operation's result: the gathered value for a read,
    /// a bare confirmation for a write.
    pub fn finish(self) -> (r: OperationSuccess)
        ensures
            r.request_identifier == self.request_identifier,
            (match self.state {
                ClientCommandEnum::WriteProc { readval: Some(v), .. } => r.op_return matches
                    OperationReturn::Read(rr) && rr.read_data == v,
                _ => r.op_return == OperationReturn::Write,
            }),
    {
        let mut val: Option<SectorVec> = None;
        match self.state {
            ClientCommandEnum::WriteProc { readval, .. } => {
                val = readval;
            },
            _ => {},
        }
        let op_return = if let Some(v) = val {
            OperationReturn::Read(ReadReturn { read_data: v })
        } else {
            OperationReturn::Write
        };
        OperationSuccess { request_identifier: self.request_identifier, op_return }
    }

    /// The sector this operation addresses.
    pub fn get_sector_idx(&self) -> (r: SectorIdx)
        ensures
            r == self.header.sector_idx,
    {
        self.header.sector_idx
    }
}

} // verus!
