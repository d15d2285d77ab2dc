//! Hashing and the proof-of-work target.
use vstd::prelude::*;

use sha2::Digest;

use crate::encoding::{encode_hex, hex_lower};

verus! {

/// The SHA-256 digest of a byte string (32 bytes).
pub uninterp spec fn sha256(data: Seq<u8>) -> Seq<u8>;

/// The lowercase hexadecimal text of the SHA-256 digest of `data`.
pub open spec fn sha256_hex(data: Seq<u8>) -> Seq<char> {
    hex_lower(sha256(data))
}

/// `sha2::Sha256` (`new`, `update`, `finalize`): the digest of `data`. Its
/// value is a function of `data` alone; its length is fixed at 32 bytes by
/// the output type.
#[verifier::external_body]
pub(crate) fn sha256_digest(data: &[u8]) -> (digest: [u8; 32])
    ensures
        digest@ == sha256(data@),
{
    let mut hasher = sha2::Sha256::new();
    hasher.update(data);
    let result = hasher.finalize();
    let mut digest = [0u8; 32];
    digest.copy_from_slice(&result);
    digest
}

/// SHA-256 of `data`, as 64 lowercase hexadecimal characters.
pub fn hash_sha256(data: &[u8]) -> (hash: String)
    ensures
        hash@ == sha256_hex(data@),
        hash@.len() == 64,
{
    let digest = sha256_digest(data);
    encode_hex(&digest)
}

/// Hashing is a function of the input: equal inputs give equal hashes.
pub proof fn lemma_hash_deterministic(a: Seq<u8>, b: Seq<u8>)
    requires
        a == b,
    ensures
        sha256_hex(a) == sha256_hex(b),
{
}

/// A hash meets a proof-of-work target of `difficulty` when its first
/// `difficulty` characters are all `'0'`.
pub open spec fn meets_difficulty(hash: Seq<char>, difficulty: u32) -> bool {
    &&& difficulty <= hash.len()
    &&& forall|i: int| 0 <= i < difficulty ==> hash[i] == '0'
}

/// Checks whether `hash` starts with `difficulty` zero characters.
pub fn check_pow(hash: &str, difficulty: u32) -> (ok: bool)
    ensures
        ok == meets_difficulty(hash@, difficulty),
{
    let len = hash.unicode_len();
    let target = difficulty as usize;
    if target > len {
        return false;
    }
    let mut i: usize = 0;
    while i < target
        invariant
            target == difficulty,
            target <= len == hash@.len(),
            i <= target,
            forall|j: int| 0 <= j < i ==> hash@[j] == '0',
        decreases target - i,
    {
        if hash.get_char(i) != '0' {
            return false;
        }
        i = i + 1;
    }
    true
}

} // verus!
