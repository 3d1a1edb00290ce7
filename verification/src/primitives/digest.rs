//! SHA-256.

use sha2::{Digest, Sha256};
use vstd::prelude::*;

verus! {

/// The SHA-256 digest of a message, as `sha2` computes it.
pub uninterp spec fn sha256(message: Seq<u8>) -> Seq<u8>;

/// `sha2::Digest::digest` on `sha2::Sha256`: the digest of `message`. It
/// depends on the bytes of the message alone.
#[verifier::external_body]
pub(crate) fn sha256_of(message: &[u8]) -> (digest: Vec<u8>)
    ensures
        digest@ == sha256(message@),
{
    Sha256::digest(message).to_vec()
}

} // verus!
