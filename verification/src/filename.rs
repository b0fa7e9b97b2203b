//! On-disk names of stored sectors: the 18-byte packing of
//! `(sector index, timestamp, write rank)` — two little-endian 8-byte
//! integers, the rank byte and one zero byte — rendered as 24 characters
//! of URL-safe unpadded base64.
use vstd::prelude::*;
use vstd::bytes::lemma_auto_spec_u64_to_from_le_bytes;
use vstd::bytes::spec_u64_to_le_bytes;
use vstd::bytes::u64_from_le_bytes;
use vstd::bytes::u64_to_le_bytes;
use crate::base64url::b64url_decode;
use crate::base64url::b64url_encode;
use crate::base64url::b64url_of;

verus! {

/// The 18 packed bytes a stored sector's name encodes.
pub open spec fn spec_pack_entry(sector_idx: u64, ts: u64, wr: u8) -> Seq<u8> {
    spec_u64_to_le_bytes(sector_idx) + spec_u64_to_le_bytes(ts) + seq![wr, 0u8]
}

/// The file name of the sector triple `(sector_idx, ts, wr)`.
pub open spec fn spec_filename_of(sector_idx: u64, ts: u64, wr: u8) -> Seq<char> {
    b64url_of(spec_pack_entry(sector_idx, ts, wr))
}

/// Encodes a sector triple as its 24-character file name.
pub fn encode_filename(data: (u64, u64, u8)) -> (r: String)
    ensures
        r@ == spec_filename_of(data.0, data.1, data.2),
        r@.len() == 24,
{
    proof {
        lemma_auto_spec_u64_to_from_le_bytes();
    }
    let (sector_idx, ts, wr) = data;
    let mut buf = u64_to_le_bytes(sector_idx);
    let mut rest = u64_to_le_bytes(ts);
    buf.append(&mut rest);
    buf.push(wr);
    buf.push(0);
    proof {
        assert(buf@ =~= spec_pack_entry(sector_idx, ts, wr));
    }
    b64url_encode(buf.as_slice())
}

/// Decodes a sector file name back to its triple. On the name of any
/// triple it returns exactly that triple; text that is not a valid
/// 18-byte name is rejected.
pub fn decode_filename(filename: &str) -> (r: Option<(u64, u64, u8)>)
    ensures
        forall|si: u64, ts: u64, wr: u8|
            filename@ == #[trigger] spec_filename_of(si, ts, wr) ==> r == Some((si, ts, wr)),
{
    proof {
        lemma_auto_spec_u64_to_from_le_bytes();
    }
    match b64url_decode(filename) {
        None => None,
        Some(buf) => {
            if buf.len() != 18 {
                proof {
                    assert forall|si: u64, ts: u64, wr: u8|
                        filename@ == #[trigger] spec_filename_of(si, ts, wr) implies false by {
                        assert(buf@ == spec_pack_entry(si, ts, wr));
                    }
                }
                None
            } else {
                let sector_idx = u64_from_le_bytes(vstd::slice::slice_subrange(buf.as_slice(), 0,
                    8));
                let ts = u64_from_le_bytes(vstd::slice::slice_subrange(buf.as_slice(), 8, 16));
                let wr = buf[16];
                proof {
                    assert forall|si: u64, ts2: u64, wr2: u8|
                        filename@ == #[trigger] spec_filename_of(si, ts2, wr2) implies (Some((
                    sector_idx, ts, wr)) == Some((si, ts2, wr2))) by {
                        assert(buf@ == spec_pack_entry(si, ts2, wr2));
                        assert(buf@.subrange(0, 8) =~= spec_u64_to_le_bytes(si));
                        assert(buf@.subrange(8, 16) =~= spec_u64_to_le_bytes(ts2));
                        assert(buf@[16] == wr2);
                    }
                }
                Some((sector_idx, ts, wr))
            }
        },
    }
}

} // verus!
