//! Ephemeral Diffie-Hellman over P-256 of the `p256` crate.
//!
//! As with the signatures over this curve, the crate's types are held in
//! structs of this module.

use rand::rngs::OsRng;
use vstd::prelude::*;

verus! {

/// An ephemeral P-256 secret (`p256::ecdh::EphemeralSecret`).
#[verifier::external_body]
pub struct EcdhSecret {
    pub secret: p256::ecdh::EphemeralSecret,
}

/// A P-256 public key (`p256::PublicKey`).
#[verifier::external_body]
pub struct EcdhPublicKey {
    pub key: p256::PublicKey,
}

/// `p256::ecdh::EphemeralSecret::random` with the operating system's
/// generator: a fresh secret. Where the generator fails, the library panics.
#[verifier::external_body]
pub(crate) fn random_secret() -> (secret: EcdhSecret) {
    EcdhSecret { secret: p256::ecdh::EphemeralSecret::random(&mut OsRng) }
}

/// `p256::ecdh::EphemeralSecret::public_key`: the public key that belongs to
/// the secret.
#[verifier::external_body]
pub(crate) fn public_key_of(secret: &EcdhSecret) -> (public: EcdhPublicKey) {
    EcdhPublicKey { key: secret.secret.public_key() }
}

/// `p256::ecdh::EphemeralSecret::diffie_hellman`, then
/// `SharedSecret::raw_secret_bytes`: the bytes of the secret that this side
/// shares with the owner of `public`. The secret is one field element of the
/// curve, which the library holds in 32 bytes.
#[verifier::external_body]
pub(crate) fn shared_secret(secret: &EcdhSecret, public: &EcdhPublicKey) -> (bytes: Vec<u8>)
    ensures
        bytes@.len() == 32,
{
    secret.secret.diffie_hellman(&public.key).raw_secret_bytes().to_vec()
}

} // verus!
