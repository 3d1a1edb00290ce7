//! RSA with PSS signatures and OAEP encryption of the `rsa` crate, both over
//! SHA-256.

use rand::rngs::OsRng;
use rsa::{Oaep, Pss, RsaPrivateKey, RsaPublicKey};
use sha2::Sha256;
use vstd::prelude::*;

verus! {

/// An RSA private key.
#[verifier::external_type_specification]
#[verifier::external_body]
pub struct ExRsaPrivateKey(RsaPrivateKey);

/// An RSA public key.
#[verifier::external_type_specification]
#[verifier::external_body]
pub struct ExRsaPublicKey(RsaPublicKey);

/// The error of the `rsa` crate.
#[verifier::external_type_specification]
#[verifier::external_body]
pub struct ExRsaError(rsa::Error);

/// The number of bits of an RSA private key's modulus.
pub uninterp spec fn modulus_bits(key: RsaPrivateKey) -> nat;

/// The number of bits of an RSA public key's modulus.
pub uninterp spec fn public_modulus_bits(key: RsaPublicKey) -> nat;

/// The public key that the `rsa` crate takes out of a private key.
pub uninterp spec fn public_half(key: RsaPrivateKey) -> RsaPublicKey;

/// An `rsa::Error` in the library's own words.
pub uninterp spec fn error_words(error: rsa::Error) -> Seq<char>;

/// The number of bytes that hold a modulus of `bits` bits.
pub open spec fn modulus_bytes(bits: nat) -> nat {
    (bits + 7) / 8
}

/// `rsa::RsaPrivateKey::new` with the operating system's generator: a fresh
/// private key, or the library's error. The library searches until the
/// modulus has exactly `bits` bits. The contract covers moduli of 64 to 4096
/// bits: the library treats shorter ones apart and accepts no longer ones.
/// Where the operating system's generator fails, the library panics.
#[verifier::external_body]
pub(crate) fn generate_private_key(bits: usize) -> (generated: Result<RsaPrivateKey, rsa::Error>)
    requires
        64 <= bits <= 4096,
    ensures
        generated matches Ok(key) ==> modulus_bits(key) == bits,
{
    RsaPrivateKey::new(&mut OsRng, bits)
}

/// `RsaPublicKey::from(&RsaPrivateKey)`: the public half of the key, which
/// has the private key's modulus.
#[verifier::external_body]
pub(crate) fn public_key_of(key: &RsaPrivateKey) -> (public: RsaPublicKey)
    ensures
        public == public_half(*key),
        public_modulus_bits(public) == modulus_bits(*key),
{
    RsaPublicKey::from(key)
}

/// `rsa::RsaPrivateKey::sign_with_rng` with `Pss::new::<Sha256>()` and the
/// operating system's generator: a PSS signature of the digest, or the
/// library's error. The salt is drawn at random; the library pads the
/// signature to the modulus's length in bytes. Where the operating system's
/// generator fails, the library panics.
#[verifier::external_body]
pub(crate) fn sign_pss(key: &RsaPrivateKey, digest: &[u8]) -> (signed: Result<Vec<u8>, rsa::Error>)
    ensures
        signed matches Ok(signature) ==> signature@.len() == modulus_bytes(modulus_bits(*key)),
{
    key.sign_with_rng(&mut OsRng, Pss::new::<Sha256>(), digest)
}

/// `rsa::RsaPublicKey::verify` with `Pss::new::<Sha256>()`: `Ok` where the
/// library accepts the signature for this digest and key.
#[verifier::external_body]
pub(crate) fn verify_pss(key: &RsaPublicKey, digest: &[u8], signature: &[u8]) -> (accepted: Result<
    (),
    rsa::Error,
>) {
    key.verify(Pss::new::<Sha256>(), digest, signature)
}

/// `rsa::RsaPublicKey::encrypt` with `Oaep::new::<Sha256>()` and the operating
/// system's generator: the ciphertext of `data`, or the library's error. The
/// padding is drawn at random; the library pads the ciphertext to the
/// modulus's length in bytes. Where the operating system's generator fails,
/// the library panics.
#[verifier::external_body]
pub(crate) fn encrypt_oaep(key: &RsaPublicKey, data: &[u8]) -> (sealed: Result<Vec<u8>, rsa::Error>)
    ensures
        sealed matches Ok(ciphertext) ==> ciphertext@.len() == modulus_bytes(
            public_modulus_bits(*key),
        ),
{
    key.encrypt(&mut OsRng, Oaep::new::<Sha256>(), data)
}

/// `rsa::RsaPrivateKey::decrypt` with `Oaep::new::<Sha256>()`: the plaintext
/// of `ciphertext`, or the library's error.
#[verifier::external_body]
pub(crate) fn decrypt_oaep(key: &RsaPrivateKey, ciphertext: &[u8]) -> (opened: Result<
    Vec<u8>,
    rsa::Error,
>) {
    key.decrypt(Oaep::new::<Sha256>(), ciphertext)
}

/// `ToString::to_string` on `rsa::Error`: the error as the library words it.
#[verifier::external_body]
pub(crate) fn error_text(error: &rsa::Error) -> (text: String)
    ensures
        text@ == error_words(*error),
{
    error.to_string()
}

} // verus!
