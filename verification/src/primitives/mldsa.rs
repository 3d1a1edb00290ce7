//! ML-DSA-44 signatures of `pqcrypto_mldsa`.

use pqcrypto_mldsa::mldsa44::{PublicKey, SecretKey, SignedMessage};
use pqcrypto_traits::sign::VerificationError;
use vstd::prelude::*;

verus! {

/// A ML-DSA-44 public key.
#[verifier::external_type_specification]
#[verifier::external_body]
pub struct ExPublicKey(PublicKey);

/// A ML-DSA-44 secret key.
#[verifier::external_type_specification]
#[verifier::external_body]
pub struct ExSecretKey(SecretKey);

/// A message together with its ML-DSA-44 signature.
#[verifier::external_type_specification]
#[verifier::external_body]
pub struct ExSignedMessage(SignedMessage);

/// The 1312 bytes that an ML-DSA-44 public key holds.
pub uninterp spec fn public_key_content(key: PublicKey) -> Seq<u8>;

/// The 2560 bytes that an ML-DSA-44 secret key holds.
pub uninterp spec fn secret_key_content(key: SecretKey) -> Seq<u8>;

/// The bytes that a signed ML-DSA-44 message holds.
pub uninterp spec fn signed_message_content(signed: SignedMessage) -> Seq<u8>;

/// `pqcrypto_mldsa::mldsa44::keypair`: a fresh public and secret key. Where the
/// operating system's generator fails, or the C routine reports a failure,
/// the library panics or aborts.
#[verifier::external_body]
pub(crate) fn keypair() -> (keys: (PublicKey, SecretKey))
    ensures
        public_key_content(keys.0).len() == 1312,
        secret_key_content(keys.1).len() == 2560,
{
    pqcrypto_mldsa::mldsa44::keypair()
}

/// `pqcrypto_mldsa::mldsa44::sign`: the message with its signature under the
/// secret key. The signature is drawn with fresh randomness and nothing is
/// claimed of it but its place: the library writes 2420 bytes of signature
/// and the message, unchanged, behind them. Where the operating system's
/// generator fails, the library aborts.
#[verifier::external_body]
pub(crate) fn sign(message: &[u8], key: &SecretKey) -> (signed: SignedMessage)
    ensures
        signed_message_content(signed).len() == message@.len() + 2420,
        signed_message_content(signed).skip(2420) == message@,
{
    pqcrypto_mldsa::mldsa44::sign(message, key)
}

/// `pqcrypto_mldsa::mldsa44::open`: the message inside, where the library
/// accepts its signature under the public key, and its error where not.
#[verifier::external_body]
pub(crate) fn open(signed: &SignedMessage, key: &PublicKey) -> (opened: Result<
    Vec<u8>,
    VerificationError,
>) {
    pqcrypto_mldsa::mldsa44::open(signed, key)
}

/// `pqcrypto_mldsa::mldsa44::public_key_bytes`: the length of a public key,
/// which the library fixes at 1312 bytes.
#[verifier::external_body]
pub(crate) fn public_key_bytes() -> (length: usize)
    ensures
        length == 1312,
{
    pqcrypto_mldsa::mldsa44::public_key_bytes()
}

/// `pqcrypto_mldsa::mldsa44::secret_key_bytes`: the length of a secret key,
/// which the library fixes at 2560 bytes.
#[verifier::external_body]
pub(crate) fn secret_key_bytes() -> (length: usize)
    ensures
        length == 2560,
{
    pqcrypto_mldsa::mldsa44::secret_key_bytes()
}

/// `pqcrypto_mldsa::mldsa44::signature_bytes`: the greatest length of a
/// signature, which the library fixes at 2420 bytes.
#[verifier::external_body]
pub(crate) fn signature_bytes() -> (length: usize)
    ensures
        length == 2420,
{
    pqcrypto_mldsa::mldsa44::signature_bytes()
}

} // verus!
