//! Big-endian integer fields of the wire format, specified as the reverse
//! of vstd's little-endian byte sequences.
use vstd::prelude::*;
use vstd::bytes::*;

verus! {

/// The 8 bytes of `x` in big-endian order.
pub open spec fn spec_u64_to_be_bytes(x: u64) -> Seq<u8> {
    spec_u64_to_le_bytes(x).reverse()
}

/// The value whose big-endian bytes are `s`.
pub open spec fn spec_u64_from_be_bytes(s: Seq<u8>) -> u64
    recommends
        s.len() == 8,
{
    spec_u64_from_le_bytes(s.reverse())
}

/// The 16 bytes of `x` in big-endian order.
pub open spec fn spec_u128_to_be_bytes(x: u128) -> Seq<u8> {
    spec_u128_to_le_bytes(x).reverse()
}

/// The value whose big-endian bytes are `s`.
pub open spec fn spec_u128_from_be_bytes(s: Seq<u8>) -> u128
    recommends
        s.len() == 16,
{
    spec_u128_from_le_bytes(s.reverse())
}

pub proof fn lemma_reverse_involutive<A>(s: Seq<A>)
    ensures
        s.reverse().reverse() =~= s,
{
}

/// Big-endian encoding of a `u64` is 8 bytes long and decoding inverts it.
pub proof fn lemma_u64_be_bytes_round_trip()
    ensures
        forall|x: u64|
            #[trigger] spec_u64_to_be_bytes(x).len() == 8
                && spec_u64_from_be_bytes(spec_u64_to_be_bytes(x)) == x,
{
    lemma_auto_spec_u64_to_from_le_bytes();
    assert forall|x: u64|
        #[trigger] spec_u64_to_be_bytes(x).len() == 8
            && spec_u64_from_be_bytes(spec_u64_to_be_bytes(x)) == x by {
        lemma_reverse_involutive(spec_u64_to_le_bytes(x));
    }
}

/// Big-endian encoding of a `u128` is 16 bytes long and decoding inverts it.
pub proof fn lemma_u128_be_bytes_round_trip()
    ensures
        forall|x: u128|
            #[trigger] spec_u128_to_be_bytes(x).len() == 16
                && spec_u128_from_be_bytes(spec_u128_to_be_bytes(x)) == x,
{
    lemma_auto_spec_u128_to_from_le_bytes();
    assert forall|x: u128|
        #[trigger] spec_u128_to_be_bytes(x).len() == 16
            && spec_u128_from_be_bytes(spec_u128_to_be_bytes(x)) == x by {
        lemma_reverse_involutive(spec_u128_to_le_bytes(x));
    }
}

/// Copies `v` in reverse order.
pub fn reverse_u8_vec(v: &Vec<u8>) -> (r: Vec<u8>)
    ensures
        r@ == v@.reverse(),
{
    let n = v.len();
    let mut r: Vec<u8> = Vec::new();
    let mut i: usize = 0;
    while i < n
        invariant
            i <= n,
            n == v@.len(),
            r@ == Seq::new(i as nat, |j: int| v@[n - 1 - j]),
        decreases n - i,
    {
        r.push(v[n - 1 - i]);
        i = i + 1;
        proof {
            assert(r@ =~= Seq::new(i as nat, |j: int| v@[n - 1 - j]));
        }
    }
    proof {
        assert(r@ =~= v@.reverse());
    }
    r
}

/// The big-endian bytes of `x`.
pub fn u64_to_be_vec(x: u64) -> (r: Vec<u8>)
    ensures
        r@ == spec_u64_to_be_bytes(x),
        r@.len() == 8,
{
    proof {
        lemma_auto_spec_u64_to_from_le_bytes();
    }
    let le = u64_to_le_bytes(x);
    reverse_u8_vec(&le)
}

/// The big-endian bytes of `x`.
pub fn u128_to_be_vec(x: u128) -> (r: Vec<u8>)
    ensures
        r@ == spec_u128_to_be_bytes(x),
        r@.len() == 16,
{
    proof {
        lemma_auto_spec_u128_to_from_le_bytes();
    }
    let le = u128_to_le_bytes(x);
    reverse_u8_vec(&le)
}

/// Appends the big-endian bytes of `x` to `out`.
pub fn push_u64_be(out: &mut Vec<u8>, x: u64)
    ensures
        final(out)@ == old(out)@ + spec_u64_to_be_bytes(x),
{
    let mut b = u64_to_be_vec(x);
    out.append(&mut b);
}

/// Appends the big-endian bytes of `x` to `out`.
pub fn push_u128_be(out: &mut Vec<u8>, x: u128)
    ensures
        final(out)@ == old(out)@ + spec_u128_to_be_bytes(x),
{
    let mut b = u128_to_be_vec(x);
    out.append(&mut b);
}

/// Reads the big-endian `u64` stored at `buf[pos .. pos + 8]`.
pub fn read_u64_be(buf: &Vec<u8>, pos: usize) -> (x: u64)
    requires
        pos + 8 <= buf@.len(),
    ensures
        x == spec_u64_from_be_bytes(buf@.subrange(pos as int, pos as int + 8)),
{
    let n = buf.len();
    let mut tmp: Vec<u8> = Vec::new();
    let mut j: usize = 0;
    while j < 8
        invariant
            j <= 8,
            pos + 8 <= n == buf@.len(),
            tmp@ == Seq::new(j as nat, |k: int| buf@[pos + 7 - k]),
        decreases 8 - j,
    {
        tmp.push(buf[pos + 7 - j]);
        j = j + 1;
        proof {
            assert(tmp@ =~= Seq::new(j as nat, |k: int| buf@[pos + 7 - k]));
        }
    }
    proof {
        assert(tmp@ =~= buf@.subrange(pos as int, pos as int + 8).reverse());
    }
    u64_from_le_bytes(tmp.as_slice())
}

/// Reads the big-endian `u128` stored at `buf[pos .. pos + 16]`.
pub fn read_u128_be(buf: &Vec<u8>, pos: usize) -> (x: u128)
    requires
        pos + 16 <= buf@.len(),
    ensures
        x == spec_u128_from_be_bytes(buf@.subrange(pos as int, pos as int + 16)),
{
    let n = buf.len();
    let mut tmp: Vec<u8> = Vec::new();
    let mut j: usize = 0;
    while j < 16
        invariant
            j <= 16,
            pos + 16 <= n == buf@.len(),
            tmp@ == Seq::new(j as nat, |k: int| buf@[pos + 15 - k]),
        decreases 16 - j,
    {
        tmp.push(buf[pos + 15 - j]);
        j = j + 1;
        proof {
            assert(tmp@ =~= Seq::new(j as nat, |k: int| buf@[pos + 15 - k]));
        }
    }
    proof {
        assert(tmp@ =~= buf@.subrange(pos as int, pos as int + 16).reverse());
    }
    u128_from_le_bytes(tmp.as_slice())
}

} // verus!
