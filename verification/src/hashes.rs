//! Trusted bindings to the cryptographic routines the drive relies on:
//! HMAC-SHA256 frame authentication, SHA-256 key hashing for the stable
//! storage, and fresh random operation identifiers.
//!
//! The digests themselves are not modelled: each is named by an
//! uninterpreted spec function of its inputs, so verified callers may rely
//! on determinism and output length and on nothing else.
use vstd::prelude::*;
use hmac::Mac;
use sha2::Digest;

verus! {

/// The 32-byte HMAC-SHA256 tag of `data` under `key`.
pub uninterp spec fn hmac_sha256_of(key: Seq<u8>, data: Seq<u8>) -> Seq<u8>;

/// The 32-byte SHA-256 digest of `data`.
pub uninterp spec fn sha256_of(data: Seq<u8>) -> Seq<u8>;

/// Relies on hmac's `Hmac<Sha256>`: the tag is 32 bytes and depends on the
/// key and the hashed bytes alone; `new_from_slice` accepts keys of any
/// length for an HMAC.
#[verifier::external_body]
pub(crate) fn hmac_sha256_tag(key: &[u8], data: &[u8]) -> (r: Vec<u8>)
    ensures
        r@ == hmac_sha256_of(key@, data@),
        r@.len() == 32,
{
    let mut mac = <hmac::Hmac<sha2::Sha256> as hmac::Mac>::new_from_slice(key).unwrap();
    mac.update(data);
    mac.finalize().into_bytes().to_vec()
}

/// Relies on sha2's `Sha256`: the digest is 32 bytes and depends on the
/// hashed bytes alone.
#[verifier::external_body]
pub(crate) fn sha256_digest(data: &[u8]) -> (r: Vec<u8>)
    ensures
        r@ == sha256_of(data@),
        r@.len() == 32,
{
    let mut hasher = sha2::Sha256::new();
    hasher.update(data);
    hasher.finalize().to_vec()
}

/// Relies on uuid's `Uuid::new_v4` for a fresh random operation identifier.
/// The value is random, so nothing is assumed about it.
#[verifier::external_body]
pub(crate) fn fresh_msg_ident() -> u128 {
    uuid::Uuid::new_v4().as_u128()
}

} // verus!
