//! ECDSA over P-256 of the `p256` crate.
//!
//! The crate's key and signature types are instances of types generic in the
//! curve, which cannot be declared to the verifier; each is held in a struct
//! of this module instead, and nothing is visible inside.

use p256::ecdsa::signature::{Signer, Verifier};
use rand::rngs::OsRng;
use vstd::prelude::*;

verus! {

/// A P-256 signing key (`p256::ecdsa::SigningKey`).
#[verifier::external_body]
pub struct EcdsaSigningKey {
    pub key: p256::ecdsa::SigningKey,
}

/// A P-256 verifying key (`p256::ecdsa::VerifyingKey`).
#[verifier::external_body]
pub struct EcdsaVerifyingKey {
    pub key: p256::ecdsa::VerifyingKey,
}

/// A P-256 ECDSA signature (`p256::ecdsa::Signature`).
#[verifier::external_body]
pub struct EcdsaSignature {
    pub signature: p256::ecdsa::Signature,
}

/// The 32 bytes of the secret scalar that a P-256 signing key holds.
pub uninterp spec fn signing_key_content(key: EcdsaSigningKey) -> Seq<u8>;

/// The signature that `p256` makes of a message under a signing key, or
/// `None` where it makes none. The nonce is derived from key and message
/// alone, so nothing else decides.
pub uninterp spec fn ecdsa_signed(key: EcdsaSigningKey, message: Seq<u8>) -> Option<
    EcdsaSignature,
>;

/// Whether `p256` accepts a signature for a message under a verifying key.
pub uninterp spec fn ecdsa_accepts(
    key: EcdsaVerifyingKey,
    message: Seq<u8>,
    signature: EcdsaSignature,
) -> bool;

/// `p256::ecdsa::SigningKey::random` with the operating system's generator:
/// a fresh signing key, a scalar of 32 bytes. Where the generator fails, the
/// library panics.
#[verifier::external_body]
pub(crate) fn random_signing_key() -> (key: EcdsaSigningKey)
    ensures
        signing_key_content(key).len() == 32,
{
    EcdsaSigningKey { key: p256::ecdsa::SigningKey::random(&mut OsRng) }
}

/// The verifying key that `p256` keeps with a signing key.
pub uninterp spec fn public_half(key: EcdsaSigningKey) -> EcdsaVerifyingKey;

/// `p256::ecdsa::SigningKey::verifying_key`: a copy of the verifying key that
/// belongs to the signing key.
#[verifier::external_body]
pub(crate) fn verifying_key_of(key: &EcdsaSigningKey) -> (public: EcdsaVerifyingKey)
    ensures
        public == public_half(*key),
{
    EcdsaVerifyingKey { key: *key.key.verifying_key() }
}

/// `signature::Signer::try_sign` on `p256::ecdsa::SigningKey`: the signature
/// of the message under the key, or the library's error. Key and message
/// decide which.
#[verifier::external_body]
pub(crate) fn sign(key: &EcdsaSigningKey, message: &[u8]) -> (signed: Result<
    EcdsaSignature,
    p256::ecdsa::Error,
>)
    ensures
        signed matches Ok(signature) ==> ecdsa_signed(*key, message@) == Some(signature),
        signed is Err ==> ecdsa_signed(*key, message@) is None,
{
    let signature: p256::ecdsa::Signature = key.key.try_sign(message)?;
    Ok(EcdsaSignature { signature })
}

/// `signature::Verifier::verify` on `p256::ecdsa::VerifyingKey`: `Ok` where
/// the library accepts the signature for this message and key, which the
/// three decide alone.
#[verifier::external_body]
pub(crate) fn verify(key: &EcdsaVerifyingKey, message: &[u8], signature: &EcdsaSignature) -> (accepted:
    Result<(), p256::ecdsa::Error>)
    ensures
        accepted is Ok <==> ecdsa_accepts(*key, message@, *signature),
{
    key.key.verify(message, &signature.signature)
}

/// `p256::ecdsa::Signature::to_vec`: the bytes of the signature, two scalars
/// of 32 bytes each.
#[verifier::external_body]
pub(crate) fn signature_bytes(signature: &EcdsaSignature) -> (bytes: Vec<u8>)
    ensures
        bytes@.len() == 64,
{
    signature.signature.to_vec()
}

} // verus!
