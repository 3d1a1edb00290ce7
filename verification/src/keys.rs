//! The key bundle: one set of keys for every algorithm that is measured,
//! generated once and then only read.

use crate::constants::RSA_KEY_SIZE;
use crate::error::{key_generation_outcome, BenchmarkError};
use crate::primitives::ecdsa_p256::{EcdsaSigningKey, EcdsaVerifyingKey};
use crate::primitives::{ecdsa_p256, ed25519, entropy, falcon, mldsa, mlkem, rsa_keys};
use rsa::{RsaPrivateKey, RsaPublicKey};
use vstd::prelude::*;
use vstd::string::StringExecFns;

verus! {

/// Keys for all algorithms. Generating them is slow next to any single
/// operation, which is why a session does it once: suites borrow the bundle
/// and never change it.
///
/// A value of this type always holds every key; a generation that fails
/// hands out no bundle at all.
///
/// The bundle lives as long as its owner keeps it. When it is dropped, the
/// Ed25519, RSA and ECDSA secret keys overwrite themselves, which is the
/// work of their libraries; the post-quantum secret keys are plain byte
/// arrays to which their library gives no write access.
pub struct BenchmarkKeys {
    pub ed25519_signing: ed25519_dalek::SigningKey,
    pub ed25519_verifying: ed25519_dalek::VerifyingKey,
    pub rsa_private: RsaPrivateKey,
    pub rsa_public: RsaPublicKey,
    pub ecdsa_signing: EcdsaSigningKey,
    pub ecdsa_verifying: EcdsaVerifyingKey,
    pub dilithium_public: pqcrypto_mldsa::mldsa44::PublicKey,
    pub dilithium_secret: pqcrypto_mldsa::mldsa44::SecretKey,
    pub falcon_public: pqcrypto_falcon::falcon512::PublicKey,
    pub falcon_secret: pqcrypto_falcon::falcon512::SecretKey,
    pub kyber_public: pqcrypto_mlkem::mlkem512::PublicKey,
    pub kyber_secret: pqcrypto_mlkem::mlkem512::SecretKey,
}

/// The RSA key that was generated, or the failure to report: the library's
/// own words after "RSA: ".
pub fn rsa_key_or_error(generated: Result<RsaPrivateKey, rsa::Error>) -> (outcome: Result<
    RsaPrivateKey,
    BenchmarkError,
>)
    ensures
        generated matches Ok(key) ==> outcome == Ok::<RsaPrivateKey, BenchmarkError>(key),
        generated matches Err(cause) ==> (outcome matches Err(e) && e is KeyGeneration && e.detail()
            == "RSA: "@ + rsa_keys::error_words(cause)),
{
    match generated {
        Ok(key) => Ok(key),
        Err(cause) => {
            let text = rsa_keys::error_text(&cause);
            Err(BenchmarkError::KeyGeneration(String::from_str("RSA: ").concat(text.as_str())))
        },
    }
}

/// The failures that a key generation reports: no randomness for the
/// Ed25519 seed, or the RSA library's error in its own words.
pub open spec fn generation_failure(e: BenchmarkError) -> bool {
    &&& e is KeyGeneration
    &&& (e.detail() == "Ed25519: no randomness available"@ || exists|cause: rsa::Error|
        e.detail() == "RSA: "@ + #[trigger] rsa_keys::error_words(cause))
}

impl BenchmarkKeys {
    /// Every key has the length that its algorithm documents, and the keys
    /// of each classical pair belong together: the Ed25519 verifying key is
    /// the one derived from the signing key's 32-byte seed, the RSA modulus
    /// has `RSA_KEY_SIZE` bits and the public key is taken from the private
    /// key, and the ECDSA verifying key is the one kept with the signing key.
    pub open spec fn paired(&self) -> bool {
        &&& ed25519::verifying_key_content(self.ed25519_verifying).len() == 32
        &&& ecdsa_p256::signing_key_content(self.ecdsa_signing).len() == 32
        &&& mldsa::public_key_content(self.dilithium_public).len() == 1312
        &&& mldsa::secret_key_content(self.dilithium_secret).len() == 2560
        &&& falcon::public_key_content(self.falcon_public).len() == 897
        &&& falcon::secret_key_content(self.falcon_secret).len() == 1281
        &&& mlkem::public_key_content(self.kyber_public).len() == 800
        &&& mlkem::secret_key_content(self.kyber_secret).len() == 1632
        &&& ed25519::signing_key_seed(self.ed25519_signing).len() == 32
        &&& ed25519::verifying_key_content(self.ed25519_verifying) == ed25519::ed25519_public_of(
            ed25519::signing_key_seed(self.ed25519_signing),
        )
        &&& rsa_keys::modulus_bits(self.rsa_private) == RSA_KEY_SIZE
        &&& self.rsa_public == rsa_keys::public_half(self.rsa_private)
        &&& rsa_keys::public_modulus_bits(self.rsa_public) == RSA_KEY_SIZE
        &&& self.ecdsa_verifying == ecdsa_p256::public_half(self.ecdsa_signing)
    }

    /// Generates every key, one algorithm after the other: Ed25519, RSA,
    /// ECDSA, ML-DSA, Falcon, ML-KEM. A failure that a step reports ends the
    /// generation, and no key made before it is handed out: the system
    /// giving no randomness for the Ed25519 seed, and the RSA library's
    /// error. The other steps report nothing: where the operating system's
    /// generator fails inside them, their libraries panic or abort.
    pub fn generate() -> (outcome: Result<BenchmarkKeys, BenchmarkError>)
        ensures
            outcome matches Ok(keys) ==> keys.paired(),
            outcome matches Err(e) ==> generation_failure(e),
    {
        let seed = key_generation_outcome(
            entropy::random_seed(),
            "Ed25519: no randomness available",
        )?;
        let ed25519_signing = ed25519::signing_key_from_seed(&seed);
        let ed25519_verifying = ed25519::verifying_key_of(&ed25519_signing);
        let rsa_private = rsa_key_or_error(rsa_keys::generate_private_key(RSA_KEY_SIZE))?;
        let rsa_public = rsa_keys::public_key_of(&rsa_private);
        let ecdsa_signing = ecdsa_p256::random_signing_key();
        let ecdsa_verifying = ecdsa_p256::verifying_key_of(&ecdsa_signing);
        let (dilithium_public, dilithium_secret) = mldsa::keypair();
        let (falcon_public, falcon_secret) = falcon::keypair();
        let (kyber_public, kyber_secret) = mlkem::keypair();
        Ok(
            BenchmarkKeys {
                ed25519_signing,
                ed25519_verifying,
                rsa_private,
                rsa_public,
                ecdsa_signing,
                ecdsa_verifying,
                dilithium_public,
                dilithium_secret,
                falcon_public,
                falcon_secret,
                kyber_public,
                kyber_secret,
            },
        )
    }
}

} // verus!
