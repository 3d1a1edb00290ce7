//! Ephemeral Diffie-Hellman over Curve25519 of `x25519_dalek`.

use rand::rngs::OsRng;
use vstd::prelude::*;
use x25519_dalek::{EphemeralSecret, PublicKey, ReusableSecret, SharedSecret};

verus! {

/// An ephemeral X25519 secret, which one exchange uses up.
#[verifier::external_type_specification]
#[verifier::external_body]
pub struct ExEphemeralSecret(EphemeralSecret);

/// An X25519 secret that may take part in more than one exchange.
#[verifier::external_type_specification]
#[verifier::external_body]
pub struct ExReusableSecret(ReusableSecret);

/// An X25519 public key.
#[verifier::external_type_specification]
#[verifier::external_body]
pub struct ExPublicKey(PublicKey);

/// The secret that two sides of an X25519 exchange share.
#[verifier::external_type_specification]
#[verifier::external_body]
pub struct ExSharedSecret(SharedSecret);

/// `x25519_dalek::EphemeralSecret::random_from_rng` with the operating
/// system's generator: a fresh secret. Where the generator fails, the library
/// panics.
#[verifier::external_body]
pub(crate) fn random_secret() -> (secret: EphemeralSecret) {
    EphemeralSecret::random_from_rng(OsRng)
}

/// `PublicKey::from(&EphemeralSecret)`: the public key that belongs to the
/// secret.
#[verifier::external_body]
pub(crate) fn public_key_of(secret: &EphemeralSecret) -> (public: PublicKey) {
    PublicKey::from(secret)
}

/// `x25519_dalek::EphemeralSecret::diffie_hellman`: the secret that this side
/// shares with the owner of `public`.
#[verifier::external_body]
pub(crate) fn diffie_hellman(secret: EphemeralSecret, public: &PublicKey) -> (shared: SharedSecret) {
    secret.diffie_hellman(public)
}

/// `x25519_dalek::ReusableSecret::random_from_rng` with the operating
/// system's generator: a fresh secret. Where the generator fails, the library
/// panics.
#[verifier::external_body]
pub(crate) fn random_reusable_secret() -> (secret: ReusableSecret) {
    ReusableSecret::random_from_rng(OsRng)
}

/// `PublicKey::from(&ReusableSecret)`: the public key that belongs to the
/// secret.
#[verifier::external_body]
pub(crate) fn reusable_public_key_of(secret: &ReusableSecret) -> (public: PublicKey) {
    PublicKey::from(secret)
}

/// `x25519_dalek::ReusableSecret::diffie_hellman`: the secret that this side
/// shares with the owner of `public`.
#[verifier::external_body]
pub(crate) fn reusable_diffie_hellman(secret: &ReusableSecret, public: &PublicKey) -> (shared:
    SharedSecret) {
    secret.diffie_hellman(public)
}

/// `x25519_dalek::SharedSecret::to_bytes`: the 32 bytes of the shared secret.
#[verifier::external_body]
pub(crate) fn shared_secret_bytes(shared: &SharedSecret) -> (bytes: [u8; 32]) {
    shared.to_bytes()
}

} // verus!
