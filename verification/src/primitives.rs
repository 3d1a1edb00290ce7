//! The cryptographic libraries that the benchmarks measure.
//!
//! Every module below stands for one of them. Their key and signature types
//! are opaque here, and each function is a single call into the library whose
//! contract is taken on trust: where a contract is silent, nothing is known of
//! what the call returns.

pub mod clock;
pub mod digest;
pub mod ecdh_p256;
pub mod ecdsa_p256;
pub mod ed25519;
pub mod entropy;
pub mod falcon;
pub mod mldsa;
pub mod mlkem;
pub mod rsa_keys;
pub mod system;
pub mod x25519;

use vstd::prelude::*;

verus! {

/// The error with which the post-quantum signature libraries refuse a signed
/// message.
#[verifier::external_type_specification]
#[verifier::external_body]
pub struct ExVerificationError(pqcrypto_traits::sign::VerificationError);

} // verus!
