//! Trusted bindings to base64's URL-safe unpadded alphabet, used for the
//! on-disk file names of sectors and of stable-storage keys.
//!
//! The alphabet itself is not modelled: the encoding is named by an
//! uninterpreted spec function, decoding is promised to invert it, and the
//! unpadded output length is the documented `ceil(4 * n / 3)`.
use vstd::prelude::*;

verus! {

/// The URL-safe unpadded base64 text of `bytes`.
pub uninterp spec fn b64url_of(bytes: Seq<u8>) -> Seq<char>;

/// Relies on base64's `encode_config` with `URL_SAFE_NO_PAD`: the text
/// depends on the input bytes alone and an unpadded encoding of `n` bytes
/// has `(4 * n + 2) / 3` characters. The length bound keeps the call away
/// from the crate's internal buffer-size overflow panic.
#[verifier::external_body]
pub(crate) fn b64url_encode(bytes: &[u8]) -> (r: String)
    requires
        bytes@.len() <= 0x1000_0000,
    ensures
        r@ == b64url_of(bytes@),
        r@.len() == (4 * bytes@.len() + 2) / 3,
{
    base64::encode_config(bytes, base64::URL_SAFE_NO_PAD)
}

/// Relies on base64's `decode_config` with `URL_SAFE_NO_PAD`: decoding
/// inverts encoding, so on the encoding of any byte sequence it returns
/// exactly that sequence.
#[verifier::external_body]
pub(crate) fn b64url_decode(text: &str) -> (r: Option<Vec<u8>>)
    ensures
        forall|b: Seq<u8>| text@ == #[trigger] b64url_of(b) ==> r is Some && r->0@ == b,
{
    base64::decode_config(text, base64::URL_SAFE_NO_PAD).ok()
}

} // verus!
