//! Random bytes from the operating system.

use rand::rngs::OsRng;
use rand::RngCore;
use vstd::prelude::*;

verus! {

/// The error with which `rand`'s generators report a failing source.
#[verifier::external_type_specification]
#[verifier::external_body]
pub struct ExRandError(rand::Error);

/// `rand::RngCore::try_fill_bytes` on `rand::rngs::OsRng`: 32 bytes from the
/// operating system's generator, or its error where the system has none to
/// give. Nothing is claimed of the bytes.
#[verifier::external_body]
pub(crate) fn random_seed() -> (seed: Result<[u8; 32], rand::Error>) {
    let mut bytes = [0u8; 32];
    OsRng.try_fill_bytes(&mut bytes)?;
    Ok(bytes)
}

} // verus!
