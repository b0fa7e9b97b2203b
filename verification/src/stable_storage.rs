//! The compute side of the durable key/value store that persists each
//! worker's request counter: key and value validation and the file name a
//! key is stored under — URL-safe base64 of the key's SHA-256 digest.
//! The tmpfile/fsync/rename dance itself is driven outside on the file
//! names these functions return.
use vstd::prelude::*;
use vstd::string::StringSliceAdditionalSpecFns;
use crate::base64url::b64url_encode;
use crate::base64url::b64url_of;
use crate::hashes::sha256_digest;
use crate::hashes::sha256_of;

verus! {

/// Longest key the store accepts, in bytes.
pub const MAX_KEY_LEN: usize = 255;

/// Largest value the store accepts, in bytes.
pub const MAX_VALUE_LEN: usize = 65535;

/// Why a `put` was rejected.
#[derive(Clone, Copy, Debug, PartialEq, Eq, Structural)]
pub enum StableStorageError {
    KeyTooLong,
    ValueTooLong,
}

/// The file name a key's value is stored under.
pub open spec fn spec_key_filename(key_bytes: Seq<u8>) -> Seq<char> {
    b64url_of(sha256_of(key_bytes))
}

/// A durable key/value store rooted at one directory of a POSIX file
/// system; this verified part owns the naming and validation rules.
pub struct POSIXFileSystemStableStorage {
    pub dir: String,
}

impl POSIXFileSystemStableStorage {
    /// A store rooted at `dir`.
    pub fn new(dir: String) -> (r: Self)
        ensures
            r.dir == dir,
    {
        POSIXFileSystemStableStorage { dir }
    }

    /// The file name `key`'s value lives under, if the key is short
    /// enough for the store; `None` exactly on over-long keys.
    pub fn lookup_filename(&self, key: &str) -> (r: Option<String>)
        ensures
            match r {
                Some(name) => key.spec_bytes().len() <= MAX_KEY_LEN && name@
                    == spec_key_filename(key.spec_bytes()),
                None => key.spec_bytes().len() > MAX_KEY_LEN,
            },
    {
        let key_bytes = key.as_bytes();
        if key_bytes.len() > MAX_KEY_LEN {
            return None;
        }
        let digest = sha256_digest(key_bytes);
        Some(b64url_encode(digest.as_slice()))
    }

    /// Validates a `put` and returns the file name to write `value`
    /// under: `Err` exactly on an over-long key or value.
    pub fn put_plan(&self, key: &str, value: &[u8]) -> (r: Result<String, StableStorageError>)
        ensures
            match r {
                Ok(name) => key.spec_bytes().len() <= MAX_KEY_LEN && value@.len()
                    <= MAX_VALUE_LEN && name@ == spec_key_filename(key.spec_bytes()),
                Err(StableStorageError::KeyTooLong) => key.spec_bytes().len() > MAX_KEY_LEN,
                Err(StableStorageError::ValueTooLong) => key.spec_bytes().len() <= MAX_KEY_LEN
                    && value@.len() > MAX_VALUE_LEN,
            },
    {
        match self.lookup_filename(key) {
            None => Err(StableStorageError::KeyTooLong),
            Some(name) => {
                if value.len() > MAX_VALUE_LEN {
                    Err(StableStorageError::ValueTooLong)
                } else {
                    Ok(name)
                }
            },
        }
    }
}

} // verus!
