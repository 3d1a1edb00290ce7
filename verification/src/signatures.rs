//! The signature suites: for each algorithm, signing and verifying the
//! default message with the keys of the bundle, under the measurement engine.

use crate::constants::{
    default_message, DEFAULT_MEASUREMENT_ITERATIONS, DEFAULT_MESSAGE, ED25519_KEY_SIZE, ECDSA_KEY_SIZE,
    RSA_KEY_SIZE, SLOW_MEASUREMENT_ITERATIONS,
};
use crate::error::{key_generation_outcome, signing_outcome, verification_outcome, BenchmarkError};
use crate::keys::{rsa_key_or_error, BenchmarkKeys};
use crate::measurement::{benchmark_operation, try_benchmark_operation};
use crate::models::{BenchmarkMetric, ExtraInfo};
use crate::primitives::digest::{sha256, sha256_of};
use crate::primitives::ecdsa_p256::{
    ecdsa_accepts, ecdsa_signed, EcdsaSignature, EcdsaSigningKey, EcdsaVerifyingKey,
};
use crate::primitives::ed25519::{ed25519_accepts, ed25519_signed};
use vstd::string::StringSliceAdditionalSpecFns;
use crate::primitives::rsa_keys::{modulus_bits, modulus_bytes};
use crate::primitives::{ecdsa_p256, ed25519, entropy, falcon, mldsa, rsa_keys};
use crate::text::{bit_count, byte_count, spec_bit_count, spec_byte_count};
use vstd::prelude::*;
use vstd::string::StringExecFns;

verus! {

/// The facts of an algorithm with one key size: that size, and the length of
/// a signature in bytes.
pub open spec fn spec_signature_facts(key_size: Seq<char>, signature_size: nat) -> Map<
    Seq<char>,
    Seq<char>,
> {
    Map::<Seq<char>, Seq<char>>::empty().insert("Key Size"@, key_size).insert(
        "Signature Size"@,
        spec_byte_count(signature_size),
    )
}

/// The facts of an algorithm whose two keys differ in size: the lengths of a
/// public key, of a secret key and of a signature, in bytes.
pub open spec fn spec_keypair_facts(public_size: nat, secret_size: nat, signature_size: nat) -> Map<
    Seq<char>,
    Seq<char>,
> {
    Map::<Seq<char>, Seq<char>>::empty().insert(
        "Public Key Size"@,
        spec_byte_count(public_size),
    ).insert("Secret Key Size"@, spec_byte_count(secret_size)).insert(
        "Signature Size"@,
        spec_byte_count(signature_size),
    )
}

/// Two metrics of one algorithm with the same facts: signing first, over
/// `sign_iterations` timed invocations, then verifying, over
/// `verify_iterations`.
pub open spec fn sign_verify_pair(
    sign: BenchmarkMetric,
    verify: BenchmarkMetric,
    name: Seq<char>,
    sign_iterations: nat,
    verify_iterations: nat,
    facts: Map<Seq<char>, Seq<char>>,
) -> bool {
    &&& sign.describes(name, "Sign"@, sign_iterations)
    &&& verify.describes(name, "Verify"@, verify_iterations)
    &&& sign.extra_info@ == facts
    &&& verify.extra_info@ == facts
}

/// The Ed25519 suite can run to its end with these keys: the library
/// accepts, under the verifying key, the signature that it makes of the
/// default message under the signing key.
pub open spec fn ed25519_round(keys: BenchmarkKeys) -> bool {
    ed25519_accepts(
        keys.ed25519_verifying,
        DEFAULT_MESSAGE.spec_bytes(),
        ed25519_signed(keys.ed25519_signing, DEFAULT_MESSAGE.spec_bytes()),
    )
}

/// The ECDSA suite can run to its end with these keys: the library signs the
/// default message under the signing key, and accepts that signature under
/// the verifying key.
pub open spec fn ecdsa_round(keys: BenchmarkKeys) -> bool {
    ecdsa_signed(keys.ecdsa_signing, DEFAULT_MESSAGE.spec_bytes()) matches Some(signature)
        && ecdsa_accepts(keys.ecdsa_verifying, DEFAULT_MESSAGE.spec_bytes(), signature)
}

/// [`ecdsa_accepts`] for a key and a signature that are only borrowed.
pub open spec fn ecdsa_accepts_given(
    key: &EcdsaVerifyingKey,
    message: Seq<u8>,
    signature: &EcdsaSignature,
) -> bool {
    ecdsa_accepts(*key, message, *signature)
}

/// The errors that a signature suite can end in.
pub open spec fn suite_failure(e: BenchmarkError) -> bool {
    e is SignatureOperation || e is VerificationFailed
}

fn signature_facts(key_size: String, signature_size: usize) -> (facts: ExtraInfo)
    ensures
        facts.well_formed(),
        facts@ == spec_signature_facts(key_size@, signature_size as nat),
{
    let mut facts = ExtraInfo::new();
    facts.insert(String::from_str("Key Size"), key_size);
    facts.insert(String::from_str("Signature Size"), byte_count(signature_size as u64));
    facts
}

fn keypair_facts(public_size: usize, secret_size: usize, signature_size: usize) -> (facts:
    ExtraInfo)
    ensures
        facts.well_formed(),
        facts@ == spec_keypair_facts(
            public_size as nat,
            secret_size as nat,
            signature_size as nat,
        ),
{
    let mut facts = ExtraInfo::new();
    facts.insert(String::from_str("Public Key Size"), byte_count(public_size as u64));
    facts.insert(String::from_str("Secret Key Size"), byte_count(secret_size as u64));
    facts.insert(String::from_str("Signature Size"), byte_count(signature_size as u64));
    facts
}

/// The SHA-256 digest of a message: what the RSA benchmarks sign in its
/// place.
pub fn message_digest(message: &[u8]) -> (digest: Vec<u8>)
    ensures
        digest@ == sha256(message@),
{
    sha256_of(message)
}

fn benchmark_ed25519_optimized(keys: &BenchmarkKeys) -> (outcome: Result<
    (BenchmarkMetric, BenchmarkMetric),
    BenchmarkError,
>)
    ensures
        outcome is Ok <==> ed25519_round(*keys),
        outcome matches Ok(pair) ==> sign_verify_pair(
            pair.0,
            pair.1,
            "Ed25519"@,
            100,
            100,
            spec_signature_facts(spec_byte_count(32), 64),
        ),
        outcome matches Err(e) ==> e is VerificationFailed,
{
    let message = default_message();
    let sign = || -> (signed: Result<ed25519_dalek::Signature, BenchmarkError>)
        ensures
            signed is Ok,
        { signing_outcome(ed25519::sign(&keys.ed25519_signing, message), "Ed25519 signing failed")
        };
    let sign_result = try_benchmark_operation(sign, DEFAULT_MEASUREMENT_ITERATIONS)?;
    let signature = signing_outcome(
        ed25519::sign(&keys.ed25519_signing, message),
        "Ed25519 signing failed",
    )?;
    let verify = || -> (accepted: Result<(), BenchmarkError>)
        ensures
            accepted is Ok <==> ed25519_accepts(keys.ed25519_verifying, message@, signature),
            accepted matches Err(e) ==> e is VerificationFailed,
        {
            verification_outcome(
                ed25519::verify(&keys.ed25519_verifying, message, &signature),
                "Ed25519 verification failed",
            )
        };
    let verify_result = try_benchmark_operation(verify, DEFAULT_MEASUREMENT_ITERATIONS)?;
    let signature_size = ed25519::signature_bytes(&signature).len();
    Ok(
        (
            BenchmarkMetric::from_result("Ed25519", "Sign", &sign_result).with_facts(
                signature_facts(byte_count(ED25519_KEY_SIZE as u64), signature_size),
            ),
            BenchmarkMetric::from_result("Ed25519", "Verify", &verify_result).with_facts(
                signature_facts(byte_count(ED25519_KEY_SIZE as u64), signature_size),
            ),
        ),
    )
}

fn benchmark_rsa_optimized(keys: &BenchmarkKeys) -> (outcome: Result<
    (BenchmarkMetric, BenchmarkMetric),
    BenchmarkError,
>)
    ensures
        outcome matches Ok(pair) ==> sign_verify_pair(
            pair.0,
            pair.1,
            "RSA-2048"@,
            50,
            100,
            spec_signature_facts(
                spec_bit_count(2048),
                modulus_bytes(modulus_bits(keys.rsa_private)),
            ),
        ),
        outcome matches Err(e) ==> suite_failure(e),
{
    let digest = message_digest(default_message());
    let sign = || -> (signed: Result<Vec<u8>, BenchmarkError>)
        ensures
            signed matches Err(e) ==> e is SignatureOperation,
        { signing_outcome(rsa_keys::sign_pss(&keys.rsa_private, digest.as_slice()), "RSA signing failed")
        };
    let sign_result = try_benchmark_operation(sign, SLOW_MEASUREMENT_ITERATIONS)?;
    let signature = signing_outcome(
        rsa_keys::sign_pss(&keys.rsa_private, digest.as_slice()),
        "RSA signing failed",
    )?;
    let verify = || -> (accepted: Result<(), BenchmarkError>)
        ensures
            accepted matches Err(e) ==> e is VerificationFailed,
        {
            verification_outcome(
                rsa_keys::verify_pss(&keys.rsa_public, digest.as_slice(), signature.as_slice()),
                "RSA verification failed",
            )
        };
    let verify_result = try_benchmark_operation(verify, DEFAULT_MEASUREMENT_ITERATIONS)?;
    let signature_size = signature.len();
    Ok(
        (
            BenchmarkMetric::from_result("RSA-2048", "Sign", &sign_result).with_facts(
                signature_facts(bit_count(RSA_KEY_SIZE as u64), signature_size),
            ),
            BenchmarkMetric::from_result("RSA-2048", "Verify", &verify_result).with_facts(
                signature_facts(bit_count(RSA_KEY_SIZE as u64), signature_size),
            ),
        ),
    )
}

fn benchmark_ecdsa_optimized(keys: &BenchmarkKeys) -> (outcome: Result<
    (BenchmarkMetric, BenchmarkMetric),
    BenchmarkError,
>)
    ensures
        outcome is Ok <==> ecdsa_round(*keys),
        outcome matches Ok(pair) ==> sign_verify_pair(
            pair.0,
            pair.1,
            "ECDSA P-256"@,
            100,
            100,
            spec_signature_facts(spec_byte_count(32), 64),
        ),
        outcome matches Err(e) ==> suite_failure(e) && (e is SignatureOperation <==> ecdsa_signed(
            keys.ecdsa_signing,
            DEFAULT_MESSAGE.spec_bytes(),
        ) is None),
{
    let message = default_message();
    let sign = || -> (signed: Result<EcdsaSignature, BenchmarkError>)
        ensures
            signed is Ok <==> ecdsa_signed(keys.ecdsa_signing, message@) is Some,
            signed matches Err(e) ==> e is SignatureOperation,
        { signing_outcome(ecdsa_p256::sign(&keys.ecdsa_signing, message), "ECDSA signing failed")
        };
    let sign_result = try_benchmark_operation(sign, DEFAULT_MEASUREMENT_ITERATIONS)?;
    let signature = signing_outcome(
        ecdsa_p256::sign(&keys.ecdsa_signing, message),
        "ECDSA signing failed",
    )?;
    let verify = || -> (accepted: Result<(), BenchmarkError>)
        ensures
            accepted is Ok <==> ecdsa_accepts_given(&keys.ecdsa_verifying, message@, &signature),
            accepted matches Err(e) ==> e is VerificationFailed,
        {
            verification_outcome(
                ecdsa_p256::verify(&keys.ecdsa_verifying, message, &signature),
                "ECDSA verification failed",
            )
        };
    let verify_result = try_benchmark_operation(verify, DEFAULT_MEASUREMENT_ITERATIONS)?;
    let signature_size = ecdsa_p256::signature_bytes(&signature).len();
    Ok(
        (
            BenchmarkMetric::from_result("ECDSA P-256", "Sign", &sign_result).with_facts(
                signature_facts(byte_count(ECDSA_KEY_SIZE as u64), signature_size),
            ),
            BenchmarkMetric::from_result("ECDSA P-256", "Verify", &verify_result).with_facts(
                signature_facts(byte_count(ECDSA_KEY_SIZE as u64), signature_size),
            ),
        ),
    )
}

fn benchmark_dilithium_optimized(keys: &BenchmarkKeys) -> (outcome: Result<
    (BenchmarkMetric, BenchmarkMetric),
    BenchmarkError,
>)
    ensures
        outcome matches Ok(pair) ==> sign_verify_pair(
            pair.0,
            pair.1,
            "ML-DSA-44"@,
            50,
            100,
            spec_keypair_facts(1312, 2560, 2420),
        ),
        outcome matches Err(e) ==> suite_failure(e),
{
    let message = default_message();
    let sign = || -> (signed: pqcrypto_mldsa::mldsa44::SignedMessage)
        { mldsa::sign(message, &keys.dilithium_secret) };
    let sign_result = benchmark_operation(sign, SLOW_MEASUREMENT_ITERATIONS)?;
    let signed = mldsa::sign(message, &keys.dilithium_secret);
    let verify = || -> (opened: Result<Vec<u8>, BenchmarkError>)
        ensures
            opened matches Err(e) ==> e is VerificationFailed,
        {
            verification_outcome(
                mldsa::open(&signed, &keys.dilithium_public),
                "Dilithium verification failed",
            )
        };
    let verify_result = try_benchmark_operation(verify, DEFAULT_MEASUREMENT_ITERATIONS)?;
    Ok(
        (
            BenchmarkMetric::from_result("ML-DSA-44", "Sign", &sign_result).with_facts(
                keypair_facts(
                    mldsa::public_key_bytes(),
                    mldsa::secret_key_bytes(),
                    mldsa::signature_bytes(),
                ),
            ),
            BenchmarkMetric::from_result("ML-DSA-44", "Verify", &verify_result).with_facts(
                keypair_facts(
                    mldsa::public_key_bytes(),
                    mldsa::secret_key_bytes(),
                    mldsa::signature_bytes(),
                ),
            ),
        ),
    )
}

fn benchmark_falcon_optimized(keys: &BenchmarkKeys) -> (outcome: Result<
    (BenchmarkMetric, BenchmarkMetric),
    BenchmarkError,
>)
    ensures
        outcome matches Ok(pair) ==> sign_verify_pair(
            pair.0,
            pair.1,
            "Falcon-512"@,
            50,
            100,
            spec_keypair_facts(897, 1281, 752),
        ),
        outcome matches Err(e) ==> suite_failure(e),
{
    let message = default_message();
    let sign = || -> (signed: pqcrypto_falcon::falcon512::SignedMessage)
        { falcon::sign(message, &keys.falcon_secret) };
    let sign_result = benchmark_operation(sign, SLOW_MEASUREMENT_ITERATIONS)?;
    let signed = falcon::sign(message, &keys.falcon_secret);
    let verify = || -> (opened: Result<Vec<u8>, BenchmarkError>)
        ensures
            opened matches Err(e) ==> e is VerificationFailed,
        {
            verification_outcome(
                falcon::open(&signed, &keys.falcon_public),
                "Falcon verification failed",
            )
        };
    let verify_result = try_benchmark_operation(verify, DEFAULT_MEASUREMENT_ITERATIONS)?;
    Ok(
        (
            BenchmarkMetric::from_result("Falcon-512", "Sign", &sign_result).with_facts(
                keypair_facts(
                    falcon::public_key_bytes(),
                    falcon::secret_key_bytes(),
                    falcon::signature_bytes(),
                ),
            ),
            BenchmarkMetric::from_result("Falcon-512", "Verify", &verify_result).with_facts(
                keypair_facts(
                    falcon::public_key_bytes(),
                    falcon::secret_key_bytes(),
                    falcon::signature_bytes(),
                ),
            ),
        ),
    )
}

/// What a pass over all signature algorithms reports: ten metrics, signing
/// and verifying for Ed25519, RSA, ECDSA, ML-DSA and Falcon in this order,
/// each pair with the facts of its algorithm. An RSA signature is as long
/// as the modulus of the key in use, `rsa_signature_size` bytes.
pub open spec fn signature_report(metrics: Seq<BenchmarkMetric>, rsa_signature_size: nat) -> bool {
    &&& metrics.len() == 10
    &&& sign_verify_pair(
        metrics[0],
        metrics[1],
        "Ed25519"@,
        100,
        100,
        spec_signature_facts(spec_byte_count(32), 64),
    )
    &&& sign_verify_pair(
        metrics[2],
        metrics[3],
        "RSA-2048"@,
        50,
        100,
        spec_signature_facts(spec_bit_count(2048), rsa_signature_size),
    )
    &&& sign_verify_pair(
        metrics[4],
        metrics[5],
        "ECDSA P-256"@,
        100,
        100,
        spec_signature_facts(spec_byte_count(32), 64),
    )
    &&& sign_verify_pair(
        metrics[6],
        metrics[7],
        "ML-DSA-44"@,
        50,
        100,
        spec_keypair_facts(1312, 2560, 2420),
    )
    &&& sign_verify_pair(
        metrics[8],
        metrics[9],
        "Falcon-512"@,
        50,
        100,
        spec_keypair_facts(897, 1281, 752),
    )
}

/// Measures signing and verifying for every signature algorithm, with the
/// keys of the bundle, and reports one metric per operation. The first
/// operation that fails ends the pass with its error.
pub fn benchmark_signatures_optimized(keys: &BenchmarkKeys) -> (outcome: Result<
    Vec<BenchmarkMetric>,
    BenchmarkError,
>)
    ensures
        outcome matches Ok(metrics) ==> signature_report(
            metrics@,
            modulus_bytes(modulus_bits(keys.rsa_private)),
        ),
        outcome is Ok ==> ed25519_round(*keys) && ecdsa_round(*keys),
        outcome matches Err(e) ==> suite_failure(e),
{
    let mut metrics: Vec<BenchmarkMetric> = Vec::new();
    let ed25519 = benchmark_ed25519_optimized(keys)?;
    metrics.push(ed25519.0);
    metrics.push(ed25519.1);
    let rsa = benchmark_rsa_optimized(keys)?;
    metrics.push(rsa.0);
    metrics.push(rsa.1);
    let ecdsa = benchmark_ecdsa_optimized(keys)?;
    metrics.push(ecdsa.0);
    metrics.push(ecdsa.1);
    let dilithium = benchmark_dilithium_optimized(keys)?;
    metrics.push(dilithium.0);
    metrics.push(dilithium.1);
    let falcon = benchmark_falcon_optimized(keys)?;
    metrics.push(falcon.0);
    metrics.push(falcon.1);
    Ok(metrics)
}

/// The errors that a stand-alone signing or verifying round can end in.
pub open spec fn round_failure(e: BenchmarkError) -> bool {
    e is KeyGeneration || e is SignatureOperation || e is VerificationFailed
}

/// What a round of signing and verifying with this Ed25519 pair comes to:
/// whether the library accepts, under `public`, the signature that it makes
/// of the message under `key`.
pub open spec fn ed25519_round_with(
    key: ed25519_dalek::SigningKey,
    public: ed25519_dalek::VerifyingKey,
    message: Seq<u8>,
) -> bool {
    ed25519_accepts(public, message, ed25519_signed(key, message))
}

/// The verifying key is the one derived from the signing key's seed.
pub open spec fn ed25519_pair(
    key: ed25519_dalek::SigningKey,
    public: ed25519_dalek::VerifyingKey,
) -> bool {
    ed25519::verifying_key_content(public) == ed25519::ed25519_public_of(
        ed25519::signing_key_seed(key),
    )
}

/// What a round of signing and verifying with this P-256 key comes to:
/// whether the library signs the message under `key` and accepts that
/// signature under the key's public half.
pub open spec fn ecdsa_round_with(key: EcdsaSigningKey, message: Seq<u8>) -> bool {
    ecdsa_signed(key, message) matches Some(signature) && ecdsa_accepts(
        ecdsa_p256::public_half(key),
        message,
        signature,
    )
}

/// What signing with this P-256 key comes to: the signature, where the
/// library makes one.
pub open spec fn ecdsa_signing_with(
    key: EcdsaSigningKey,
    message: Seq<u8>,
    outcome: Result<EcdsaSignature, BenchmarkError>,
) -> bool {
    match outcome {
        Ok(signature) => ecdsa_signed(key, message) == Some(signature),
        Err(e) => ecdsa_signed(key, message) is None && e is SignatureOperation,
    }
}

/// Signs `message` with a fresh Ed25519 key. The only failure is the system
/// giving no randomness for the key; the signature is the library's, of this
/// message, under some key with a seed of 32 bytes.
pub fn ed25519_sign(message: &[u8]) -> (outcome: Result<ed25519_dalek::Signature, BenchmarkError>)
    ensures
        outcome matches Err(e) ==> e is KeyGeneration,
        outcome matches Ok(signature) ==> exists|key: ed25519_dalek::SigningKey|
            ed25519::signing_key_seed(key).len() == 32 && signature == #[trigger] ed25519_signed(
                key,
                message@,
            ),
{
    let seed = key_generation_outcome(entropy::random_seed(), "Ed25519: no randomness available")?;
    let signing_key = ed25519::signing_key_from_seed(&seed);
    let outcome = signing_outcome(ed25519::sign(&signing_key, message), "Ed25519 signing failed");
    proof {
        if let Ok(signature) = outcome {
            assert(signature == ed25519_signed(signing_key, message@));
        }
    }
    outcome
}

/// Signs `message` with a fresh Ed25519 key and verifies the signature with
/// the key's public half.
pub fn ed25519_verify(message: &[u8]) -> (outcome: Result<(), BenchmarkError>)
    ensures
        outcome matches Err(e) ==> e is KeyGeneration || e is VerificationFailed,
        outcome is Ok ==> exists|key: ed25519_dalek::SigningKey, public: ed25519_dalek::VerifyingKey|
            ed25519_pair(key, public) && #[trigger] ed25519_round_with(key, public, message@),
        outcome matches Err(e) && e is VerificationFailed ==> exists|
            key: ed25519_dalek::SigningKey,
            public: ed25519_dalek::VerifyingKey,
        | ed25519_pair(key, public) && !#[trigger] ed25519_round_with(key, public, message@),
{
    let seed = key_generation_outcome(entropy::random_seed(), "Ed25519: no randomness available")?;
    let signing_key = ed25519::signing_key_from_seed(&seed);
    let verifying_key = ed25519::verifying_key_of(&signing_key);
    let signature = signing_outcome(
        ed25519::sign(&signing_key, message),
        "Ed25519 signing failed",
    )?;
    let outcome = verification_outcome(
        ed25519::verify(&verifying_key, message, &signature),
        "Ed25519 verification failed",
    );
    proof {
        assert(ed25519_pair(signing_key, verifying_key));
        assert(outcome is Ok <==> ed25519_round_with(signing_key, verifying_key, message@));
    }
    outcome
}

/// Signs the SHA-256 digest of `message` with a fresh RSA key, with PSS
/// padding.
pub fn rsa_sign(message: &[u8]) -> (outcome: Result<Vec<u8>, BenchmarkError>)
    ensures
        outcome matches Ok(signature) ==> signature@.len() == 256,
        outcome matches Err(e) ==> e is KeyGeneration || e is SignatureOperation,
{
    let private_key = rsa_key_or_error(rsa_keys::generate_private_key(RSA_KEY_SIZE))?;
    let digest = message_digest(message);
    signing_outcome(rsa_keys::sign_pss(&private_key, digest.as_slice()), "RSA signing failed")
}

/// Signs the SHA-256 digest of `message` with a fresh RSA key and verifies
/// the signature with the key's public half.
pub fn rsa_verify(message: &[u8]) -> (outcome: Result<(), BenchmarkError>)
    ensures
        outcome matches Err(e) ==> round_failure(e),
{
    let private_key = rsa_key_or_error(rsa_keys::generate_private_key(RSA_KEY_SIZE))?;
    let public_key = rsa_keys::public_key_of(&private_key);
    let digest = message_digest(message);
    let signature = signing_outcome(
        rsa_keys::sign_pss(&private_key, digest.as_slice()),
        "RSA signing failed",
    )?;
    verification_outcome(
        rsa_keys::verify_pss(&public_key, digest.as_slice(), signature.as_slice()),
        "RSA verification failed",
    )
}

/// Signs `message` with a fresh P-256 key: the outcome is what signing this
/// message comes to under some key.
pub fn ecdsa_sign(message: &[u8]) -> (outcome: Result<EcdsaSignature, BenchmarkError>)
    ensures
        exists|key: EcdsaSigningKey| #[trigger] ecdsa_signing_with(key, message@, outcome),
{
    let signing_key = ecdsa_p256::random_signing_key();
    let outcome = signing_outcome(ecdsa_p256::sign(&signing_key, message), "ECDSA signing failed");
    proof {
        assert(ecdsa_signing_with(signing_key, message@, outcome));
    }
    outcome
}

/// Signs `message` with a fresh P-256 key and verifies the signature with
/// the key's public half.
pub fn ecdsa_verify(message: &[u8]) -> (outcome: Result<(), BenchmarkError>)
    ensures
        outcome matches Err(e) ==> e is SignatureOperation || e is VerificationFailed,
        exists|key: EcdsaSigningKey| outcome is Ok <==> #[trigger] ecdsa_round_with(key, message@),
{
    let signing_key = ecdsa_p256::random_signing_key();
    let verifying_key = ecdsa_p256::verifying_key_of(&signing_key);
    match signing_outcome(ecdsa_p256::sign(&signing_key, message), "ECDSA signing failed") {
        Ok(signature) => {
            let outcome = verification_outcome(
                ecdsa_p256::verify(&verifying_key, message, &signature),
                "ECDSA verification failed",
            );
            proof {
                assert(outcome is Ok <==> ecdsa_round_with(signing_key, message@));
            }
            outcome
        },
        Err(e) => {
            proof {
                assert(!ecdsa_round_with(signing_key, message@));
            }
            Err(e)
        },
    }
}

/// Signs `message` with a fresh ML-DSA-44 key. Whichever key was drawn, the
/// signed message is a signature of 2420 bytes with the message behind it.
pub fn dilithium_sign(message: &[u8]) -> (signed: pqcrypto_mldsa::mldsa44::SignedMessage)
    ensures
        mldsa::signed_message_content(signed).len() == message@.len() + 2420,
        mldsa::signed_message_content(signed).skip(2420) == message@,
{
    let (_, secret_key) = mldsa::keypair();
    mldsa::sign(message, &secret_key)
}

/// Signs `message` with a fresh ML-DSA-44 key and opens the signed message
/// with the key's public half.
pub fn dilithium_verify(message: &[u8]) -> (outcome: Result<(), BenchmarkError>)
    ensures
        outcome matches Err(e) ==> e is VerificationFailed,
{
    let (public_key, secret_key) = mldsa::keypair();
    let signed = mldsa::sign(message, &secret_key);
    match verification_outcome(mldsa::open(&signed, &public_key), "Dilithium verification failed") {
        Ok(_) => Ok(()),
        Err(e) => Err(e),
    }
}

/// Signs `message` with a fresh Falcon-512 key. Whichever key was drawn, the
/// signed message is empty where the library could not sign, and otherwise
/// holds the message from its 43rd byte on, between a nonce and a signature
/// that take at most 752 bytes together.
pub fn falcon_sign(message: &[u8]) -> (signed: pqcrypto_falcon::falcon512::SignedMessage)
    ensures
        falcon::signed_message_content(signed).len() == 0 || {
            &&& message@.len() + 42 < falcon::signed_message_content(signed).len()
                <= message@.len() + 752
            &&& falcon::signed_message_content(signed).subrange(42, (message@.len() + 42) as int)
                == message@
        },
{
    let (_, secret_key) = falcon::keypair();
    falcon::sign(message, &secret_key)
}

/// Signs `message` with a fresh Falcon-512 key and opens the signed message
/// with the key's public half.
pub fn falcon_verify(message: &[u8]) -> (outcome: Result<(), BenchmarkError>)
    ensures
        outcome matches Err(e) ==> e is VerificationFailed,
{
    let (public_key, secret_key) = falcon::keypair();
    let signed = falcon::sign(message, &secret_key);
    match verification_outcome(falcon::open(&signed, &public_key), "Falcon verification failed") {
        Ok(_) => Ok(()),
        Err(e) => Err(e),
    }
}

} // verus!
