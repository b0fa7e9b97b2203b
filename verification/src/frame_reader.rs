//! Reading frames back out of a byte stream: scan for the magic number,
//! skip unknown message-type codes, parse the typed payload, and check
//! the HMAC-SHA256 tag by recomputing it over the re-serialized bytes.
//!
//! The reader never drops a malformed client frame silently: the parsed
//! command is returned together with a validity flag so the caller can
//! answer it with an authentication failure.
use vstd::prelude::*;
use crate::command_type::CommandType;
use crate::command_type::spec_command_type_of;
use crate::command_type::spec_command_type_value;
use crate::command_type::spec_type_of_command;
use crate::domain::ClientCommandHeader;
use crate::domain::ClientContentView;
use crate::domain::ClientRegisterCommand;
use crate::domain::ClientRegisterCommandContent;
use crate::domain::ClientCommandView;
use crate::domain::RegisterCommand;
use crate::domain::RegisterCommandView;
use crate::domain::SECTOR_LEN;
use crate::domain::SectorVec;
use crate::domain::SystemCommandHeader;
use crate::domain::SystemCommandView;
use crate::domain::SystemContentView;
use crate::domain::SystemRegisterCommand;
use crate::domain::SystemRegisterCommandContent;
use crate::hashes::hmac_sha256_of;
use crate::message_header::spec_aux_of_command;
use crate::hashes::hmac_sha256_tag;
use crate::wire::push_magic;
use crate::wire::spec_magic;
use crate::wire::spec_payload;
use crate::wire::write_command;
use crate::wirebytes::read_u128_be;
use crate::wirebytes::read_u64_be;
use crate::wirebytes::spec_u128_from_be_bytes;
use crate::wirebytes::spec_u128_to_be_bytes;
use crate::wirebytes::spec_u64_to_be_bytes;
use crate::wirebytes::spec_u64_from_be_bytes;

verus! {

/// Whether the magic number stands at position `q` of `s`.
pub open spec fn spec_magic_at(s: Seq<u8>, q: int) -> bool {
    s.subrange(q, q + 4) == spec_magic()
}

/// Position of the first occurrence of the magic number in `s`, if any.
pub open spec fn spec_first_magic(s: Seq<u8>) -> Option<nat>
    decreases s.len(),
{
    if s.len() < 4 {
        None
    } else if spec_magic_at(s, 0) {
        Some(0 as nat)
    } else {
        match spec_first_magic(s.skip(1)) {
            None => None,
            Some(q) => Some((q + 1) as nat),
        }
    }
}

/// If the magic number stands at `p` and nowhere earlier, then `p` is its
/// first occurrence.
pub proof fn lemma_first_magic_at(s: Seq<u8>, p: int)
    requires
        0 <= p,
        p + 4 <= s.len(),
        s.subrange(p, p + 4) == spec_magic(),
        forall|q: int| 0 <= q < p ==> !(#[trigger] spec_magic_at(s, q)),
    ensures
        spec_first_magic(s) == Some(p as nat),
    decreases p,
{
    if p == 0 {
    } else {
        assert(!spec_magic_at(s, 0));
        assert(s.subrange(0, 4) != spec_magic());
        let t = s.skip(1);
        assert(t.subrange(p - 1, p + 3) =~= s.subrange(p, p + 4));
        assert forall|q: int| 0 <= q < p - 1 implies !(#[trigger] spec_magic_at(t, q)) by {
            assert(t.subrange(q, q + 4) =~= s.subrange(q + 1, q + 5));
            assert(!spec_magic_at(s, q + 1));
        }
        lemma_first_magic_at(t, p - 1);
    }
}

/// If the magic number stands nowhere in `s`, the scan finds nothing.
pub proof fn lemma_first_magic_none(s: Seq<u8>)
    requires
        forall|q: int| 0 <= q && q + 4 <= s.len() ==> !(#[trigger] spec_magic_at(s, q)),
    ensures
        spec_first_magic(s) == None::<nat>,
    decreases s.len(),
{
    if s.len() < 4 {
    } else {
        assert(!spec_magic_at(s, 0));
        assert(s.subrange(0, 4) != spec_magic());
        let t = s.skip(1);
        assert forall|q: int| 0 <= q && q + 4 <= t.len() implies !(#[trigger] spec_magic_at(t, q)) by {
            assert(t.subrange(q, q + 4) =~= s.subrange(q + 1, q + 5));
            assert(!spec_magic_at(s, q + 1));
        }
        lemma_first_magic_none(t);
    }
}

/// Scans `buf` from `start` for the first occurrence of the magic number.
pub fn read_until_magic_number(buf: &Vec<u8>, start: usize) -> (r: Option<usize>)
    requires
        start <= buf@.len(),
    ensures
        match r {
            Some(p) => start <= p && p + 4 <= buf@.len() && spec_magic_at(buf@, p as int) && (
            forall|q: int| start <= q < p ==> !(#[trigger] spec_magic_at(buf@, q))),
            None => forall|q: int|
                start <= q && q + 4 <= buf@.len() ==> !(#[trigger] spec_magic_at(buf@, q)),
        },
{
    let n = buf.len();
    if n < 4 {
        return None;
    }
    let mut i: usize = start;
    while i <= n - 4
        invariant
            start <= i,
            i <= n,
            n == buf@.len(),
            n >= 4,
            forall|q: int| start <= q < i ==> !(#[trigger] spec_magic_at(buf@, q)),
        decreases n - i,
    {
        if buf[i] == 0x61 && buf[i + 1] == 0x74 && buf[i + 2] == 0x64 && buf[i + 3] == 0x64 {
            proof {
                assert(buf@.subrange(i as int, i as int + 4) =~= spec_magic());
            }
            return Some(i);
        }
        proof {
            let sub = buf@.subrange(i as int, i as int + 4);
            if sub == spec_magic() {
                assert(sub[0] == 0x61 && sub[1] == 0x74 && sub[2] == 0x64 && sub[3] == 0x64);
            }
            assert(!spec_magic_at(buf@, i as int));
        }
        i = i + 1;
    }
    None
}

/// Whether a message-type code is one the codec knows.
pub open spec fn spec_known_code(code: u8) -> bool {
    1 <= code && code <= 6
}

/// Payload length (before the tag) of each known message-type code.
pub open spec fn spec_payload_len(code: u8) -> int
    recommends
        spec_known_code(code),
{
    if code == 1 {
        16
    } else if code == 2 {
        16 + SECTOR_LEN
    } else if code == 3 || code == 6 {
        32
    } else {
        32 + 16 + SECTOR_LEN
    }
}

/// Payload length of a known message-type code.
pub fn payload_len(code: u8) -> (r: usize)
    requires
        spec_known_code(code),
    ensures
        r == spec_payload_len(code),
{
    if code == 1 {
        16
    } else if code == 2 {
        16 + SECTOR_LEN
    } else if code == 3 || code == 6 {
        32
    } else {
        32 + 16 + SECTOR_LEN
    }
}

/// The client command whose payload bytes are `s`.
pub open spec fn spec_parse_client(code: u8, s: Seq<u8>) -> ClientCommandView
    recommends
        code == 1 || code == 2,
        s.len() == spec_payload_len(code),
{
    ClientCommandView {
        header: ClientCommandHeader {
            request_identifier: spec_u64_from_be_bytes(s.subrange(0, 8)),
            sector_idx: spec_u64_from_be_bytes(s.subrange(8, 16)),
        },
        content: if code == 1 {
            ClientContentView::Read
        } else {
            ClientContentView::Write { data: s.subrange(16, 16 + SECTOR_LEN as int) }
        },
    }
}

/// The protocol message whose payload bytes are `s`, sent by process `aux`.
pub open spec fn spec_parse_system(code: u8, aux: u8, s: Seq<u8>) -> SystemCommandView
    recommends
        3 <= code <= 6,
        s.len() == spec_payload_len(code),
{
    SystemCommandView {
        header: SystemCommandHeader {
            process_identifier: aux,
            msg_ident: spec_u128_from_be_bytes(s.subrange(0, 16)),
            read_ident: spec_u64_from_be_bytes(s.subrange(16, 24)),
            sector_idx: spec_u64_from_be_bytes(s.subrange(24, 32)),
        },
        content: if code == 3 {
            SystemContentView::ReadProc
        } else if code == 6 {
            SystemContentView::Ack
        } else {
            let timestamp = spec_u64_from_be_bytes(s.subrange(32, 40));
            let write_rank = spec_u64_from_be_bytes(s.subrange(40, 48)) as u8;
            let data = s.subrange(48, 48 + SECTOR_LEN as int);
            if code == 4 {
                SystemContentView::Value { timestamp, write_rank, sector_data: data }
            } else {
                SystemContentView::WriteProc { timestamp, write_rank, data_to_write: data }
            }
        },
    }
}

/// The command whose payload bytes are `s`, under code `code` and
/// auxiliary byte `aux`.
pub open spec fn spec_parse_command(code: u8, aux: u8, s: Seq<u8>) -> RegisterCommandView
    recommends
        spec_known_code(code),
        s.len() == spec_payload_len(code),
{
    if code <= 2 {
        RegisterCommandView::Client(spec_parse_client(code, s))
    } else {
        RegisterCommandView::System(spec_parse_system(code, aux, s))
    }
}

/// Copies `buf[from .. from + SECTOR_LEN]` out as a sector payload.
pub fn read_sector_vec(buf: &Vec<u8>, from: usize) -> (r: SectorVec)
    requires
        from + SECTOR_LEN <= buf@.len(),
    ensures
        r@ == buf@.subrange(from as int, from as int + SECTOR_LEN as int),
        r.wf(),
{
    let n = buf.len();
    let s = vstd::slice::slice_subrange(buf.as_slice(), from, from + SECTOR_LEN);
    SectorVec(vstd::slice::slice_to_vec(s))
}

/// Reads the sixteen bytes of an operation identifier at `from`.
pub fn read_uuid(buf: &Vec<u8>, from: usize) -> (r: u128)
    requires
        from + 16 <= buf@.len(),
    ensures
        r == spec_u128_from_be_bytes(buf@.subrange(from as int, from as int + 16)),
{
    read_u128_be(buf, from)
}

/// Parses the payload of a known message-type code at `pos`.
pub fn read_command(buf: &Vec<u8>, pos: usize, code: u8, aux: u8) -> (r: RegisterCommand)
    requires
        spec_known_code(code),
        pos + spec_payload_len(code) <= buf@.len(),
    ensures
        r@ == spec_parse_command(code, aux, buf@.subrange(pos as int, pos as int
            + spec_payload_len(code))),
{
    let n = buf.len();
    let ghost s = buf@.subrange(pos as int, pos as int + spec_payload_len(code));
    if code <= 2 {
        let request_identifier = read_u64_be(buf, pos);
        let sector_idx = read_u64_be(buf, pos + 8);
        proof {
            assert(s.subrange(0, 8) =~= buf@.subrange(pos as int, pos as int + 8));
            assert(s.subrange(8, 16) =~= buf@.subrange(pos as int + 8, pos as int + 16));
        }
        let content = if code == 1 {
            ClientRegisterCommandContent::Read
        } else {
            let data = read_sector_vec(buf, pos + 16);
            proof {
                assert(s.subrange(16, 16 + SECTOR_LEN as int) =~= buf@.subrange(pos as int + 16,
                    pos as int + 16 + SECTOR_LEN as int));
            }
            ClientRegisterCommandContent::Write { data }
        };
        RegisterCommand::Client(ClientRegisterCommand {
            header: ClientCommandHeader { request_identifier, sector_idx },
            content,
        })
    } else {
        let msg_ident = read_uuid(buf, pos);
        let read_ident = read_u64_be(buf, pos + 16);
        let sector_idx = read_u64_be(buf, pos + 24);
        proof {
            assert(s.subrange(0, 16) =~= buf@.subrange(pos as int, pos as int + 16));
            assert(s.subrange(16, 24) =~= buf@.subrange(pos as int + 16, pos as int + 24));
            assert(s.subrange(24, 32) =~= buf@.subrange(pos as int + 24, pos as int + 32));
        }
        let content = if code == 3 {
            SystemRegisterCommandContent::ReadProc
        } else if code == 6 {
            SystemRegisterCommandContent::Ack
        } else {
            let timestamp = read_u64_be(buf, pos + 32);
            let write_rank = #[verifier::truncate] (read_u64_be(buf, pos + 40) as u8);
            let data = read_sector_vec(buf, pos + 48);
            proof {
                assert(s.subrange(32, 40) =~= buf@.subrange(pos as int + 32, pos as int + 40));
                assert(s.subrange(40, 48) =~= buf@.subrange(pos as int + 40, pos as int + 48));
                assert(s.subrange(48, 48 + SECTOR_LEN as int) =~= buf@.subrange(pos as int + 48,
                    pos as int + 48 + SECTOR_LEN as int));
            }
            if code == 4 {
                SystemRegisterCommandContent::Value { timestamp, write_rank, sector_data: data }
            } else {
                SystemRegisterCommandContent::WriteProc {
                    timestamp,
                    write_rank,
                    data_to_write: data,
                }
            }
        };
        RegisterCommand::System(SystemRegisterCommand {
            header: SystemCommandHeader { process_identifier: aux, msg_ident, read_ident, sector_idx },
            content,
        })
    }
}

/// What one attempt to read a frame out of a buffer yields: more bytes
/// are needed, or a parsed command with its validity flag and the number
/// of bytes consumed (garbage and skipped codes included).
pub enum DeserializeOutcome {
    NeedMore,
    Frame { cmd: RegisterCommand, valid: bool, consumed: usize },
}

/// Model of a read attempt's outcome.
pub enum DeserializeOutcomeView {
    NeedMore,
    Frame { cmd: RegisterCommandView, valid: bool, consumed: int },
}

impl View for DeserializeOutcome {
    type V = DeserializeOutcomeView;

    open spec fn view(&self) -> DeserializeOutcomeView {
        match self {
            DeserializeOutcome::NeedMore => DeserializeOutcomeView::NeedMore,
            DeserializeOutcome::Frame { cmd, valid, consumed } => DeserializeOutcomeView::Frame {
                cmd: cmd@,
                valid: *valid,
                consumed: *consumed as int,
            },
        }
    }
}

/// The same outcome with `k` more bytes counted as consumed.
pub open spec fn spec_shift_outcome(o: DeserializeOutcomeView, k: int) -> DeserializeOutcomeView {
    match o {
        DeserializeOutcomeView::NeedMore => DeserializeOutcomeView::NeedMore,
        DeserializeOutcomeView::Frame { cmd, valid, consumed } => DeserializeOutcomeView::Frame {
            cmd,
            valid,
            consumed: consumed + k,
        },
    }
}

pub proof fn lemma_shift_outcome_zero(o: DeserializeOutcomeView)
    ensures
        spec_shift_outcome(o, 0) == o,
{
    match o {
        DeserializeOutcomeView::NeedMore => {},
        DeserializeOutcomeView::Frame { cmd, valid, consumed } => {},
    }
}

pub proof fn lemma_shift_outcome_add(o: DeserializeOutcomeView, a: int, b: int)
    ensures
        spec_shift_outcome(spec_shift_outcome(o, a), b) == spec_shift_outcome(o, a + b),
{
    match o {
        DeserializeOutcomeView::NeedMore => {},
        DeserializeOutcomeView::Frame { cmd, valid, consumed } => {},
    }
}

/// What reading one frame from `s` yields: the first magic number is
/// found, the header read, unknown codes skipped, and on a complete frame
/// the parsed command together with whether its tag verifies under the
/// key its kind selects (the client key for client commands, the system
/// key for protocol messages). The tag is checked against the HMAC of the
/// re-serialized bytes, exactly as the writer would have produced them.
pub open spec fn spec_deserialize(s: Seq<u8>, system_key: Seq<u8>, client_key: Seq<u8>)
    -> DeserializeOutcomeView
    decreases s.len(),
{
    match spec_first_magic(s) {
        None => DeserializeOutcomeView::NeedMore,
        Some(p0) => {
            let p = p0 as int;
            if s.len() < p + 8 {
                DeserializeOutcomeView::NeedMore
            } else {
                let aux = s[p + 6];
                let code = s[p + 7];
                if !spec_known_code(code) {
                    spec_shift_outcome(spec_deserialize(s.skip(p + 8), system_key, client_key), p
                        + 8)
                } else {
                    let plen = spec_payload_len(code);
                    if s.len() < p + 8 + plen + 32 {
                        DeserializeOutcomeView::NeedMore
                    } else {
                        let payload = s.subrange(p + 8, p + 8 + plen);
                        let cmd = spec_parse_command(code, aux, payload);
                        let mac_input = spec_magic() + s.subrange(p + 4, p + 8) + spec_payload(
                            cmd);
                        let key = if code <= 2 { client_key } else { system_key };
                        let tag = s.subrange(p + 8 + plen, p + 8 + plen + 32);
                        DeserializeOutcomeView::Frame {
                            cmd,
                            valid: tag == hmac_sha256_of(key, mac_input),
                            consumed: p + 8 + plen + 32,
                        }
                    }
                }
            }
        },
    }
}

/// Compares `other` against `buf[from .. from + other.len()]`.
fn range_eq(buf: &Vec<u8>, from: usize, other: &Vec<u8>) -> (r: bool)
    requires
        from + other@.len() <= buf@.len(),
    ensures
        r == (buf@.subrange(from as int, from as int + other@.len() as int) == other@),
{
    let n = buf.len();
    let m = other.len();
    let mut j: usize = 0;
    while j < m
        invariant
            j <= m,
            m == other@.len(),
            from + m <= n == buf@.len(),
            forall|k: int| 0 <= k < j ==> buf@[from + k] == other@[k],
        decreases m - j,
    {
        if buf[from + j] != other[j] {
            proof {
                let sub = buf@.subrange(from as int, from as int + m as int);
                assert(sub[j as int] != other@[j as int]);
            }
            return false;
        }
        j = j + 1;
    }
    proof {
        assert(buf@.subrange(from as int, from as int + m as int) =~= other@);
    }
    true
}

/// Reads one frame out of `buf`, scanning past garbage and unknown codes,
/// and checks its authenticity under the key its kind selects.
pub fn deserialize_register_command(
    buf: &Vec<u8>,
    hmac_system_key: &[u8],
    hmac_client_key: &[u8],
) -> (r: DeserializeOutcome)
    ensures
        r@ == spec_deserialize(buf@, hmac_system_key@, hmac_client_key@),
{
    let ghost skey = hmac_system_key@;
    let ghost ckey = hmac_client_key@;
    let n = buf.len();
    let mut cur: usize = 0;
    proof {
        assert(buf@.skip(0) =~= buf@);
        lemma_shift_outcome_zero(spec_deserialize(buf@, skey, ckey));
    }
    loop
        invariant
            cur <= n,
            n == buf@.len(),
            spec_deserialize(buf@, skey, ckey) == spec_shift_outcome(spec_deserialize(buf@.skip(
                cur as int), skey, ckey), cur as int),
            skey == hmac_system_key@,
            ckey == hmac_client_key@,
        decreases n - cur,
    {
        let ghost t = buf@.skip(cur as int);
        match read_until_magic_number(buf, cur) {
            None => {
                proof {
                    assert forall|q: int| 0 <= q && q + 4 <= t.len() implies !(
                    #[trigger] spec_magic_at(t, q)) by {
                        assert(t.subrange(q, q + 4) =~= buf@.subrange(cur + q, cur + q + 4));
                        assert(!spec_magic_at(buf@, cur + q));
                    }
                    lemma_first_magic_none(t);
                }
                return DeserializeOutcome::NeedMore;
            },
            Some(p) => {
                let ghost rel = p - cur as int;
                proof {
                    assert(t.subrange(rel, rel + 4) =~= buf@.subrange(p as int, p as int + 4));
                    assert(spec_magic_at(t, rel));
                    assert forall|q: int| 0 <= q < rel implies !(#[trigger] spec_magic_at(t, q)) by {
                        assert(t.subrange(q, q + 4) =~= buf@.subrange(cur + q, cur + q + 4));
                        assert(!spec_magic_at(buf@, cur + q));
                    }
                    lemma_first_magic_at(t, rel);
                }
                if n - p < 8 {
                    return DeserializeOutcome::NeedMore;
                }
                let aux = buf[p + 6];
                let code = buf[p + 7];
                proof {
                    assert(t[rel + 6] == buf@[p + 6] && t[rel + 7] == buf@[p + 7]);
                    assert(spec_known_code(code) == (spec_command_type_of(code) is Some));
                }
                if CommandType::try_new(code).is_none() {
                    proof {
                        assert(t.skip(rel + 8) =~= buf@.skip(p as int + 8));
                        lemma_shift_outcome_add(spec_deserialize(buf@.skip(p as int + 8), skey,
                            ckey), rel + 8, cur as int);
                    }
                    cur = p + 8;
                } else {
                    let plen = payload_len(code);
                    if n - (p + 8) < plen {
                        return DeserializeOutcome::NeedMore;
                    }
                    if n - (p + 8) - plen < 32 {
                        return DeserializeOutcome::NeedMore;
                    }
                    let cmd = read_command(buf, p + 8, code, aux);
                    proof {
                        assert(t.subrange(rel + 8, rel + 8 + plen as int) =~= buf@.subrange(
                            p as int + 8, p as int + 8 + plen as int));
                    }
                    let mut byte_view: Vec<u8> = Vec::new();
                    push_magic(&mut byte_view);
                    byte_view.push(buf[p + 4]);
                    byte_view.push(buf[p + 5]);
                    byte_view.push(buf[p + 6]);
                    byte_view.push(buf[p + 7]);
                    write_command(&mut byte_view, &cmd);
                    proof {
                        assert(byte_view@ =~= spec_magic() + t.subrange(rel + 4, rel + 8)
                            + spec_payload(cmd@));
                    }
                    let key: &[u8] = if code <= 2 {
                        hmac_client_key
                    } else {
                        hmac_system_key
                    };
                    let tag = hmac_sha256_tag(key, byte_view.as_slice());
                    let valid = range_eq(buf, p + 8 + plen, &tag);
                    proof {
                        assert(t.subrange(rel + 8 + plen as int, rel + 8 + plen as int + 32)
                            =~= buf@.subrange(p as int + 8 + plen as int, p as int + 8
                            + plen as int + 32));
                    }
                    return DeserializeOutcome::Frame { cmd, valid, consumed: p + 8 + plen + 32 };
                }
            },
        }
    }
}


/// The key a frame of `cmd` is authenticated with: the client key for
/// client commands, the system key for protocol messages.
pub open spec fn spec_frame_key(
    cmd: RegisterCommandView,
    system_key: Seq<u8>,
    client_key: Seq<u8>,
) -> Seq<u8> {
    match cmd {
        RegisterCommandView::Client(..) => client_key,
        RegisterCommandView::System(..) => system_key,
    }
}

/// Parsing the serialized payload of a well-formed command yields the
/// command back, and the payload has the length its code announces.
pub proof fn lemma_parse_payload_inverse(cmd: RegisterCommandView)
    requires
        cmd.wf(),
    ensures
        spec_known_code(spec_command_type_value(spec_type_of_command(cmd))),
        spec_payload(cmd).len() == spec_payload_len(spec_command_type_value(spec_type_of_command(
            cmd))),
        spec_parse_command(spec_command_type_value(spec_type_of_command(cmd)),
            spec_aux_of_command(cmd), spec_payload(cmd)) == cmd,
{
    crate::wirebytes::lemma_u64_be_bytes_round_trip();
    crate::wirebytes::lemma_u128_be_bytes_round_trip();
    let code = spec_command_type_value(spec_type_of_command(cmd));
    let aux = spec_aux_of_command(cmd);
    let payload = spec_payload(cmd);
    match cmd {
        RegisterCommandView::Client(c) => {
            let a = spec_u64_to_be_bytes(c.header.request_identifier);
            let b = spec_u64_to_be_bytes(c.header.sector_idx);
            assert(payload.subrange(0, 8) =~= a);
            assert(payload.subrange(8, 16) =~= b);
            match c.content {
                ClientContentView::Read => {
                    assert(spec_parse_command(code, aux, payload) == cmd);
                },
                ClientContentView::Write { data } => {
                    assert(payload.subrange(16, 16 + SECTOR_LEN as int) =~= data);
                    assert(spec_parse_command(code, aux, payload) == cmd);
                },
            }
        },
        RegisterCommandView::System(c) => {
            let a = spec_u128_to_be_bytes(c.header.msg_ident);
            let b = spec_u64_to_be_bytes(c.header.read_ident);
            let d = spec_u64_to_be_bytes(c.header.sector_idx);
            assert(payload.subrange(0, 16) =~= a);
            assert(payload.subrange(16, 24) =~= b);
            assert(payload.subrange(24, 32) =~= d);
            match c.content {
                SystemContentView::ReadProc => {
                    assert(spec_parse_command(code, aux, payload) == cmd);
                },
                SystemContentView::Ack => {
                    assert(spec_parse_command(code, aux, payload) == cmd);
                },
                SystemContentView::Value { timestamp, write_rank, sector_data } => {
                    assert(payload.subrange(32, 40) =~= spec_u64_to_be_bytes(timestamp));
                    assert(payload.subrange(40, 48) =~= spec_u64_to_be_bytes(write_rank as u64));
                    assert(payload.subrange(48, 48 + SECTOR_LEN as int) =~= sector_data);
                    assert(spec_u64_from_be_bytes(payload.subrange(40, 48)) as u8 == write_rank);
                    assert(spec_parse_command(code, aux, payload) == cmd);
                },
                SystemContentView::WriteProc { timestamp, write_rank, data_to_write } => {
                    assert(payload.subrange(32, 40) =~= spec_u64_to_be_bytes(timestamp));
                    assert(payload.subrange(40, 48) =~= spec_u64_to_be_bytes(write_rank as u64));
                    assert(payload.subrange(48, 48 + SECTOR_LEN as int) =~= data_to_write);
                    assert(spec_u64_from_be_bytes(payload.subrange(40, 48)) as u8 == write_rank);
                    assert(spec_parse_command(code, aux, payload) == cmd);
                },
            }
        },
    }
}

/// Round trip of the wire codec: reading back a serialized well-formed
/// command yields exactly that command, marked valid, consuming the whole
/// frame. The single hypothesis on the digest is what the trusted
/// HMAC-SHA256 binding states: its tag is 32 bytes long.
pub proof fn lemma_wire_round_trip(
    cmd: RegisterCommandView,
    system_key: Seq<u8>,
    client_key: Seq<u8>,
)
    requires
        cmd.wf(),
        hmac_sha256_of(spec_frame_key(cmd, system_key, client_key), crate::wire::spec_frame_body(
            cmd)).len() == 32,
    ensures
        spec_deserialize(crate::wire::spec_frame(cmd, spec_frame_key(cmd, system_key, client_key)),
            system_key, client_key) == (DeserializeOutcomeView::Frame {
            cmd,
            valid: true,
            consumed: crate::wire::spec_frame(cmd, spec_frame_key(cmd, system_key,
                client_key)).len() as int,
        }),
{
    lemma_parse_payload_inverse(cmd);
    let key = spec_frame_key(cmd, system_key, client_key);
    let code = spec_command_type_value(spec_type_of_command(cmd));
    let aux = spec_aux_of_command(cmd);
    let payload = spec_payload(cmd);
    let plen = spec_payload_len(code);
    let body = crate::wire::spec_frame_body(cmd);
    let tag = hmac_sha256_of(key, body);
    let s = crate::wire::spec_frame(cmd, key);
    assert(body.len() == 8 + plen);
    assert(s.len() == 8 + plen + 32);
    assert(s.subrange(0, 4) =~= spec_magic());
    lemma_first_magic_at(s, 0);
    assert(s[6] == aux && s[7] == code);
    assert(spec_known_code(code));
    assert(s.subrange(8, 8 + plen) =~= payload);
    assert(s.subrange(4, 8) =~= seq![0u8, 0u8, aux, code]);
    let parsed = spec_parse_command(code, aux, s.subrange(8, 8 + plen));
    assert(parsed == cmd);
    let mac_input = spec_magic() + s.subrange(4, 8) + spec_payload(parsed);
    assert(mac_input =~= body);
    assert(s.subrange(8 + plen, 8 + plen + 32) =~= tag);
    assert((if code <= 2 { client_key } else { system_key }) == key);
}

} // verus!
