//! BLAKE3 hashing used by the verification primitives.

use vstd::prelude::*;

verus! {

/// The BLAKE3 keyed hash of `data` under the 32-byte `key`.
pub uninterp spec fn blake3_keyed_hash(key: Seq<u8>, data: Seq<u8>) -> Seq<u8>;

/// The BLAKE3 hash of `data`.
pub uninterp spec fn blake3_hash(data: Seq<u8>) -> Seq<u8>;

/// The BLAKE3 keyed hash of `data` under `key`, computed by `blake3::keyed_hash`; its 32 bytes
/// depend on the key and the data alone.
#[verifier::external_body]
pub(crate) fn keyed_hash(key: &[u8; 32], data: &[u8]) -> (hash: [u8; 32])
    ensures
        hash@ == blake3_keyed_hash(key@, data@),
{
    *blake3::keyed_hash(key, data).as_bytes()
}

/// The BLAKE3 hash of `data`, computed by `blake3::hash`; its 32 bytes depend on the data
/// alone.
#[verifier::external_body]
pub(crate) fn hash(data: &[u8]) -> (digest: [u8; 32])
    ensures
        digest@ == blake3_hash(data@),
{
    *blake3::hash(data).as_bytes()
}

} // verus!
