//! Falcon-512 signatures of `pqcrypto_falcon`.

use pqcrypto_falcon::falcon512::{PublicKey, SecretKey, SignedMessage};
use pqcrypto_traits::sign::VerificationError;
use vstd::prelude::*;

verus! {

/// A Falcon-512 public key.
#[verifier::external_type_specification]
#[verifier::external_body]
pub struct ExPublicKey(PublicKey);

/// A Falcon-512 secret key.
#[verifier::external_type_specification]
#[verifier::external_body]
pub struct ExSecretKey(SecretKey);

/// A message together with its Falcon-512 signature.
#[verifier::external_type_specification]
#[verifier::external_body]
pub struct ExSignedMessage(SignedMessage);

/// The 897 bytes that a Falcon-512 public key holds.
pub uninterp spec fn public_key_content(key: PublicKey) -> Seq<u8>;

/// The 1281 bytes that a Falcon-512 secret key holds.
pub uninterp spec fn secret_key_content(key: SecretKey) -> Seq<u8>;

/// The bytes that a signed Falcon-512 message holds.
pub uninterp spec fn signed_message_content(signed: SignedMessage) -> Seq<u8>;

/// `pqcrypto_falcon::falcon512::keypair`: a fresh public and secret key. Where the
/// operating system's generator fails, or the C routine reports a failure,
/// the library panics or aborts.
#[verifier::external_body]
pub(crate) fn keypair() -> (keys: (PublicKey, SecretKey))
    ensures
        public_key_content(keys.0).len() == 897,
        secret_key_content(keys.1).len() == 1281,
{
    pqcrypto_falcon::falcon512::keypair()
}

/// `pqcrypto_falcon::falcon512::sign`: the message with its signature under the
/// secret key. The signature is drawn with fresh randomness and nothing is
/// claimed of it but its place. Where the library cannot sign, it hands out
/// no bytes at all; otherwise it writes 42 bytes of length and nonce, then
/// the message, unchanged, then the signature, in at most 752 bytes over the
/// message's length. Where the operating system's generator fails, the
/// library aborts.
#[verifier::external_body]
pub(crate) fn sign(message: &[u8], key: &SecretKey) -> (signed: SignedMessage)
    ensures
        signed_message_content(signed).len() == 0 || {
            &&& message@.len() + 42 < signed_message_content(signed).len() <= message@.len() + 752
            &&& signed_message_content(signed).subrange(42, (message@.len() + 42) as int) == message@
        },
{
    pqcrypto_falcon::falcon512::sign(message, key)
}

/// `pqcrypto_falcon::falcon512::open`: the message inside, where the library
/// accepts its signature under the public key, and its error where not.
#[verifier::external_body]
pub(crate) fn open(signed: &SignedMessage, key: &PublicKey) -> (opened: Result<
    Vec<u8>,
    VerificationError,
>) {
    pqcrypto_falcon::falcon512::open(signed, key)
}

/// `pqcrypto_falcon::falcon512::public_key_bytes`: the length of a public key,
/// which the library fixes at 897 bytes.
#[verifier::external_body]
pub(crate) fn public_key_bytes() -> (length: usize)
    ensures
        length == 897,
{
    pqcrypto_falcon::falcon512::public_key_bytes()
}

/// `pqcrypto_falcon::falcon512::secret_key_bytes`: the length of a secret key,
/// which the library fixes at 1281 bytes.
#[verifier::external_body]
pub(crate) fn secret_key_bytes() -> (length: usize)
    ensures
        length == 1281,
{
    pqcrypto_falcon::falcon512::secret_key_bytes()
}

/// `pqcrypto_falcon::falcon512::signature_bytes`: the greatest length of a
/// signature, which the library fixes at 752 bytes.
#[verifier::external_body]
pub(crate) fn signature_bytes() -> (length: usize)
    ensures
        length == 752,
{
    pqcrypto_falcon::falcon512::signature_bytes()
}

} // verus!
