//! ML-KEM-512 key encapsulation of `pqcrypto_mlkem`.

use pqcrypto_mlkem::mlkem512::{Ciphertext, PublicKey, SecretKey, SharedSecret};
use vstd::prelude::*;

verus! {

/// An ML-KEM-512 public key.
#[verifier::external_type_specification]
#[verifier::external_body]
pub struct ExPublicKey(PublicKey);

/// An ML-KEM-512 secret key.
#[verifier::external_type_specification]
#[verifier::external_body]
pub struct ExSecretKey(SecretKey);

/// An ML-KEM-512 ciphertext.
#[verifier::external_type_specification]
#[verifier::external_body]
pub struct ExCiphertext(Ciphertext);

/// The secret that the two sides of an encapsulation share.
#[verifier::external_type_specification]
#[verifier::external_body]
pub struct ExSharedSecret(SharedSecret);

/// The bytes that an ML-KEM-512 ciphertext holds.
pub uninterp spec fn ciphertext_content(ciphertext: Ciphertext) -> Seq<u8>;

/// The 800 bytes that an ML-KEM-512 public key holds.
pub uninterp spec fn public_key_content(key: PublicKey) -> Seq<u8>;

/// The 1632 bytes that an ML-KEM-512 secret key holds.
pub uninterp spec fn secret_key_content(key: SecretKey) -> Seq<u8>;

/// The bytes that an ML-KEM-512 shared secret holds.
pub uninterp spec fn shared_secret_content(shared: SharedSecret) -> Seq<u8>;

/// The bytes of the shared secret that ML-KEM-512 decapsulation, as
/// `pqcrypto_mlkem` computes it, recovers from the bytes of a ciphertext with
/// the bytes of a secret key.
pub uninterp spec fn mlkem512_decapsulation(ciphertext: Seq<u8>, secret_key: Seq<u8>) -> Seq<u8>;

/// `pqcrypto_mlkem::mlkem512::keypair`: a fresh public and secret key. Where the
/// operating system's generator fails, or the C routine reports a failure,
/// the library panics or aborts.
#[verifier::external_body]
pub(crate) fn keypair() -> (keys: (PublicKey, SecretKey))
    ensures
        public_key_content(keys.0).len() == 800,
        secret_key_content(keys.1).len() == 1632,
{
    pqcrypto_mlkem::mlkem512::keypair()
}

/// `pqcrypto_mlkem::mlkem512::encapsulate`: a fresh shared secret and the
/// ciphertext that carries it to the owner of the public key. Both are drawn
/// at random; the library's types fix the shared secret at 32 bytes and the
/// ciphertext at 768. Where the operating system's generator fails, or the C
/// routine reports a failure, the library panics or aborts.
#[verifier::external_body]
pub(crate) fn encapsulate(key: &PublicKey) -> (sealed: (SharedSecret, Ciphertext))
    ensures
        shared_secret_content(sealed.0).len() == 32,
        ciphertext_content(sealed.1).len() == 768,
{
    pqcrypto_mlkem::mlkem512::encapsulate(key)
}

/// `pqcrypto_mlkem::mlkem512::decapsulate`: the shared secret that the
/// secret key recovers from the ciphertext. The library draws nothing at
/// random here: the bytes of the result depend on the bytes of the ciphertext
/// and of the key alone.
#[verifier::external_body]
pub(crate) fn decapsulate(ciphertext: &Ciphertext, key: &SecretKey) -> (shared: SharedSecret)
    ensures
        shared_secret_content(shared) == mlkem512_decapsulation(
            ciphertext_content(*ciphertext),
            secret_key_content(*key),
        ),
{
    pqcrypto_mlkem::mlkem512::decapsulate(ciphertext, key)
}

/// `pqcrypto_mlkem::mlkem512::public_key_bytes`: the length of a public key,
/// which the library fixes at 800 bytes.
#[verifier::external_body]
pub(crate) fn public_key_bytes() -> (length: usize)
    ensures
        length == 800,
{
    pqcrypto_mlkem::mlkem512::public_key_bytes()
}

/// `pqcrypto_mlkem::mlkem512::secret_key_bytes`: the length of a secret key,
/// which the library fixes at 1632 bytes.
#[verifier::external_body]
pub(crate) fn secret_key_bytes() -> (length: usize)
    ensures
        length == 1632,
{
    pqcrypto_mlkem::mlkem512::secret_key_bytes()
}

/// `pqcrypto_mlkem::mlkem512::ciphertext_bytes`: the length of a ciphertext,
/// which the library fixes at 768 bytes.
#[verifier::external_body]
pub(crate) fn ciphertext_bytes() -> (length: usize)
    ensures
        length == 768,
{
    pqcrypto_mlkem::mlkem512::ciphertext_bytes()
}

/// `pqcrypto_mlkem::mlkem512::shared_secret_bytes`: the length of a shared
/// secret, which the library fixes at 32 bytes.
#[verifier::external_body]
pub(crate) fn shared_secret_bytes() -> (length: usize)
    ensures
        length == 32,
{
    pqcrypto_mlkem::mlkem512::shared_secret_bytes()
}

} // verus!
