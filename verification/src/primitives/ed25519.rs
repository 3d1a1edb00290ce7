//! Ed25519 signatures of `ed25519_dalek`.

use ed25519_dalek::{Signature, SignatureError, Signer, SigningKey, Verifier, VerifyingKey};
use vstd::prelude::*;

verus! {

/// An Ed25519 signing key.
#[verifier::external_type_specification]
#[verifier::external_body]
pub struct ExSigningKey(SigningKey);

/// An Ed25519 verifying key.
#[verifier::external_type_specification]
#[verifier::external_body]
pub struct ExVerifyingKey(VerifyingKey);

/// An Ed25519 signature.
#[verifier::external_type_specification]
#[verifier::external_body]
pub struct ExSignature(Signature);

/// The error of the `signature` traits, which says nothing of its cause.
#[verifier::external_type_specification]
#[verifier::external_body]
pub struct ExSignatureError(SignatureError);

/// The 32 bytes of seed that an Ed25519 signing key holds.
pub uninterp spec fn signing_key_seed(key: SigningKey) -> Seq<u8>;

/// The 32 bytes that an Ed25519 verifying key holds.
pub uninterp spec fn verifying_key_content(key: VerifyingKey) -> Seq<u8>;

/// The bytes of the Ed25519 verifying key that `ed25519_dalek` derives from
/// the bytes of a seed.
pub uninterp spec fn ed25519_public_of(seed: Seq<u8>) -> Seq<u8>;

/// `ed25519_dalek::SigningKey::from_bytes`: the signing key with this seed.
/// The library keeps the seed as it is and derives the rest from it alone.
#[verifier::external_body]
pub(crate) fn signing_key_from_seed(seed: &[u8; 32]) -> (key: SigningKey)
    ensures
        signing_key_seed(key) == seed@,
{
    SigningKey::from_bytes(seed)
}

/// `ed25519_dalek::SigningKey::verifying_key`: the verifying key that belongs
/// to the signing key, which is the one derived from the key's seed.
#[verifier::external_body]
pub(crate) fn verifying_key_of(key: &SigningKey) -> (public: VerifyingKey)
    ensures
        verifying_key_content(public) == ed25519_public_of(signing_key_seed(*key)),
        verifying_key_content(public).len() == 32,
{
    key.verifying_key()
}

/// The signature that `ed25519_dalek` makes of a message under a signing key.
pub uninterp spec fn ed25519_signed(key: SigningKey, message: Seq<u8>) -> Signature;

/// Whether `ed25519_dalek` accepts a signature for a message under a
/// verifying key.
pub uninterp spec fn ed25519_accepts(key: VerifyingKey, message: Seq<u8>, signature: Signature) -> bool;

/// `signature::Signer::try_sign` on `ed25519_dalek::SigningKey`: the signature
/// of the message under the key. The library always signs, and key and
/// message decide the signature.
#[verifier::external_body]
pub(crate) fn sign(key: &SigningKey, message: &[u8]) -> (signed: Result<Signature, SignatureError>)
    ensures
        signed is Ok,
        signed matches Ok(signature) ==> signature == ed25519_signed(*key, message@),
{
    key.try_sign(message)
}

/// `signature::Verifier::verify` on `ed25519_dalek::VerifyingKey`: `Ok` where
/// the library accepts the signature for this message and key, which the
/// three decide alone.
#[verifier::external_body]
pub(crate) fn verify(key: &VerifyingKey, message: &[u8], signature: &Signature) -> (accepted:
    Result<(), SignatureError>)
    ensures
        accepted is Ok <==> ed25519_accepts(*key, message@, *signature),
{
    key.verify(message, signature)
}

/// `ed25519_dalek::Signature::to_bytes`: the 64 bytes of the signature.
#[verifier::external_body]
pub(crate) fn signature_bytes(signature: &Signature) -> (bytes: [u8; 64]) {
    signature.to_bytes()
}

} // verus!
