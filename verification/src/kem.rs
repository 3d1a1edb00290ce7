//! The key-exchange suites: X25519 and P-256 Diffie-Hellman between two
//! sides whose keys are made before the clock starts, and ML-KEM with the
//! keys of the bundle, under the measurement engine.

use crate::constants::{
    DEFAULT_MEASUREMENT_ITERATIONS, ECDH_KEY_SIZE, RSA_KEY_SIZE, SLOW_MEASUREMENT_ITERATIONS,
    X25519_KEY_SIZE,
};
use crate::error::{decapsulation_outcome, encapsulation_outcome, BenchmarkError};
use crate::keys::{rsa_key_or_error, BenchmarkKeys};
use crate::measurement::benchmark_operation;
use crate::models::{BenchmarkMetric, ExtraInfo};
use crate::primitives::mlkem::{
    ciphertext_content, mlkem512_decapsulation, secret_key_content, shared_secret_content,
};
use crate::primitives::{ecdh_p256, mlkem, rsa_keys, x25519};
use crate::text::{byte_count, same_bytes, spec_byte_count};
use pqcrypto_mlkem::mlkem512::{Ciphertext, SecretKey, SharedSecret};
use vstd::prelude::*;
use vstd::string::StringExecFns;

verus! {

/// The facts of a Diffie-Hellman exchange: the length of a key and of the
/// shared secret, in bytes.
pub open spec fn spec_exchange_facts(key_size: nat, shared_size: nat) -> Map<Seq<char>, Seq<char>> {
    Map::<Seq<char>, Seq<char>>::empty().insert("Key Size"@, spec_byte_count(key_size)).insert(
        "Shared Secret Size"@,
        spec_byte_count(shared_size),
    )
}

/// The facts of a key encapsulation mechanism: the lengths of a public key,
/// a secret key, a ciphertext and the shared secret, in bytes.
pub open spec fn spec_encapsulation_facts(
    public_size: nat,
    secret_size: nat,
    ciphertext_size: nat,
    shared_size: nat,
) -> Map<Seq<char>, Seq<char>> {
    Map::<Seq<char>, Seq<char>>::empty().insert(
        "Public Key Size"@,
        spec_byte_count(public_size),
    ).insert("Secret Key Size"@, spec_byte_count(secret_size)).insert(
        "Ciphertext Size"@,
        spec_byte_count(ciphertext_size),
    ).insert("Shared Secret Size"@, spec_byte_count(shared_size))
}

/// The metric of one key exchange between two sides, over a hundred timed
/// invocations, with these facts.
pub open spec fn exchange_metric(
    metric: BenchmarkMetric,
    name: Seq<char>,
    facts: Map<Seq<char>, Seq<char>>,
) -> bool {
    &&& metric.describes(name, "Key Exchange"@, 100)
    &&& metric.extra_info@ == facts
}

/// The errors that a key-exchange suite can end in.
pub open spec fn exchange_failure(e: BenchmarkError) -> bool {
    e is DecapsulationFailed
}

fn exchange_facts(key_size: usize, shared_size: usize) -> (facts: ExtraInfo)
    ensures
        facts.well_formed(),
        facts@ == spec_exchange_facts(key_size as nat, shared_size as nat),
{
    let mut facts = ExtraInfo::new();
    facts.insert(String::from_str("Key Size"), byte_count(key_size as u64));
    facts.insert(String::from_str("Shared Secret Size"), byte_count(shared_size as u64));
    facts
}

fn encapsulation_facts(
    public_size: usize,
    secret_size: usize,
    ciphertext_size: usize,
    shared_size: usize,
) -> (facts: ExtraInfo)
    ensures
        facts.well_formed(),
        facts@ == spec_encapsulation_facts(
            public_size as nat,
            secret_size as nat,
            ciphertext_size as nat,
            shared_size as nat,
        ),
{
    let mut facts = ExtraInfo::new();
    facts.insert(String::from_str("Public Key Size"), byte_count(public_size as u64));
    facts.insert(String::from_str("Secret Key Size"), byte_count(secret_size as u64));
    facts.insert(String::from_str("Ciphertext Size"), byte_count(ciphertext_size as u64));
    facts.insert(String::from_str("Shared Secret Size"), byte_count(shared_size as u64));
    facts
}

/// The shared secret, where both sides of an exchange arrived at the same
/// bytes, and the failure to report where they did not.
pub fn agreed_secret(ours: Vec<u8>, theirs: &[u8], detail: &str) -> (outcome: Result<
    Vec<u8>,
    BenchmarkError,
>)
    ensures
        ours@ == theirs@ ==> outcome == Ok::<Vec<u8>, BenchmarkError>(ours),
        ours@ != theirs@ ==> (outcome matches Err(e) && e is DecapsulationFailed && e.detail()
            == detail@),
{
    if same_bytes(ours.as_slice(), theirs) {
        Ok(ours)
    } else {
        Err(BenchmarkError::DecapsulationFailed(String::from_str(detail)))
    }
}

fn benchmark_dh_optimized() -> (outcome: Result<BenchmarkMetric, BenchmarkError>)
    ensures
        outcome matches Ok(metric) ==> exchange_metric(
            metric,
            "X25519"@,
            spec_exchange_facts(32, 32),
        ),
        outcome matches Err(e) ==> exchange_failure(e),
{
    let alice_secret = x25519::random_reusable_secret();
    let alice_public = x25519::reusable_public_key_of(&alice_secret);
    let bob_secret = x25519::random_reusable_secret();
    let bob_public = x25519::reusable_public_key_of(&bob_secret);
    let exchange = || -> (shared: x25519_dalek::SharedSecret)
        { x25519::reusable_diffie_hellman(&alice_secret, &bob_public) };
    let exchange_result = benchmark_operation(exchange, DEFAULT_MEASUREMENT_ITERATIONS)?;
    let alice_shared = x25519::shared_secret_bytes(
        &x25519::reusable_diffie_hellman(&alice_secret, &bob_public),
    );
    let bob_shared = x25519::shared_secret_bytes(
        &x25519::reusable_diffie_hellman(&bob_secret, &alice_public),
    );
    let mut ours: Vec<u8> = Vec::new();
    ours.extend_from_slice(alice_shared.as_slice());
    let shared = agreed_secret(ours, bob_shared.as_slice(), "DH shared secret mismatch")?;
    let shared_size = shared.len();
    Ok(
        BenchmarkMetric::from_result("X25519", "Key Exchange", &exchange_result).with_facts(
            exchange_facts(X25519_KEY_SIZE, shared_size),
        ),
    )
}

fn benchmark_ecdh_optimized() -> (outcome: Result<BenchmarkMetric, BenchmarkError>)
    ensures
        outcome matches Ok(metric) ==> exchange_metric(
            metric,
            "ECDH P-256"@,
            spec_exchange_facts(32, 32),
        ),
        outcome matches Err(e) ==> exchange_failure(e),
{
    let alice_secret = ecdh_p256::random_secret();
    let alice_public = ecdh_p256::public_key_of(&alice_secret);
    let bob_secret = ecdh_p256::random_secret();
    let bob_public = ecdh_p256::public_key_of(&bob_secret);
    let exchange = || -> (shared: Vec<u8>)
        { ecdh_p256::shared_secret(&alice_secret, &bob_public) };
    let exchange_result = benchmark_operation(exchange, DEFAULT_MEASUREMENT_ITERATIONS)?;
    let alice_shared = ecdh_p256::shared_secret(&alice_secret, &bob_public);
    let bob_shared = ecdh_p256::shared_secret(&bob_secret, &alice_public);
    let shared = agreed_secret(alice_shared, bob_shared.as_slice(), "ECDH shared secret mismatch")?;
    let shared_size = shared.len();
    Ok(
        BenchmarkMetric::from_result("ECDH P-256", "Key Exchange", &exchange_result).with_facts(
            exchange_facts(ECDH_KEY_SIZE, shared_size),
        ),
    )
}

fn benchmark_kyber_optimized(keys: &BenchmarkKeys) -> (outcome: Result<
    (BenchmarkMetric, BenchmarkMetric),
    BenchmarkError,
>)
    ensures
        outcome matches Ok(pair) && {
            &&& pair.0.describes("ML-KEM-512"@, "Encapsulate"@, 50)
            &&& pair.1.describes("ML-KEM-512"@, "Decapsulate"@, 100)
            &&& pair.0.extra_info@ == spec_encapsulation_facts(800, 1632, 768, 32)
            &&& pair.1.extra_info@ == spec_encapsulation_facts(800, 1632, 768, 32)
        },
{
    let encapsulate = || -> (sealed: (SharedSecret, Ciphertext))
        { mlkem::encapsulate(&keys.kyber_public) };
    let encapsulate_result = benchmark_operation(encapsulate, SLOW_MEASUREMENT_ITERATIONS)?;
    let sealed = mlkem::encapsulate(&keys.kyber_public);
    let ciphertext = sealed.1;
    let decapsulate = || -> (shared: SharedSecret)
        { mlkem::decapsulate(&ciphertext, &keys.kyber_secret) };
    let decapsulate_result = benchmark_operation(decapsulate, DEFAULT_MEASUREMENT_ITERATIONS)?;
    Ok(
        (
            BenchmarkMetric::from_result("ML-KEM-512", "Encapsulate", &encapsulate_result).with_facts(
                encapsulation_facts(
                    mlkem::public_key_bytes(),
                    mlkem::secret_key_bytes(),
                    mlkem::ciphertext_bytes(),
                    mlkem::shared_secret_bytes(),
                ),
            ),
            BenchmarkMetric::from_result("ML-KEM-512", "Decapsulate", &decapsulate_result).with_facts(
                encapsulation_facts(
                    mlkem::public_key_bytes(),
                    mlkem::secret_key_bytes(),
                    mlkem::ciphertext_bytes(),
                    mlkem::shared_secret_bytes(),
                ),
            ),
        ),
    )
}

/// What a pass over all key-exchange algorithms reports: four metrics, one
/// exchange each for X25519 and P-256, then encapsulating and decapsulating
/// with ML-KEM, each with the facts of its algorithm.
pub open spec fn exchange_report(metrics: Seq<BenchmarkMetric>) -> bool {
    &&& metrics.len() == 4
    &&& exchange_metric(metrics[0], "X25519"@, spec_exchange_facts(32, 32))
    &&& exchange_metric(metrics[1], "ECDH P-256"@, spec_exchange_facts(32, 32))
    &&& metrics[2].describes("ML-KEM-512"@, "Encapsulate"@, 50)
    &&& metrics[3].describes("ML-KEM-512"@, "Decapsulate"@, 100)
    &&& metrics[2].extra_info@ == spec_encapsulation_facts(800, 1632, 768, 32)
    &&& metrics[3].extra_info@ == spec_encapsulation_facts(800, 1632, 768, 32)
}

/// Measures every key-exchange algorithm and reports one metric per
/// operation. The Diffie-Hellman suites make the keys of both sides before
/// the clock starts, time the exchange alone, and check that both sides
/// arrive at the same secret; ML-KEM uses the keys of the bundle. The first
/// failure ends the pass with its error.
pub fn benchmark_kem_optimized(keys: &BenchmarkKeys) -> (outcome: Result<
    Vec<BenchmarkMetric>,
    BenchmarkError,
>)
    ensures
        outcome matches Ok(metrics) ==> exchange_report(metrics@),
        outcome matches Err(e) ==> exchange_failure(e),
{
    let mut metrics: Vec<BenchmarkMetric> = Vec::new();
    metrics.push(benchmark_dh_optimized()?);
    metrics.push(benchmark_ecdh_optimized()?);
    let kyber = benchmark_kyber_optimized(keys)?;
    metrics.push(kyber.0);
    metrics.push(kyber.1);
    Ok(metrics)
}

/// Encrypts a short secret to a fresh RSA key, with OAEP padding.
pub fn rsa_kem_encapsulate() -> (outcome: Result<Vec<u8>, BenchmarkError>)
    ensures
        outcome matches Ok(ciphertext) ==> ciphertext@.len() == 256,
        outcome matches Err(e) ==> e is KeyGeneration || e is EncapsulationFailed,
{
    let private_key = rsa_key_or_error(rsa_keys::generate_private_key(RSA_KEY_SIZE))?;
    let public_key = rsa_keys::public_key_of(&private_key);
    encapsulation_outcome(
        rsa_keys::encrypt_oaep(&public_key, "secret data".as_bytes()),
        "RSA encryption failed",
    )
}

/// Encrypts a short secret to a fresh RSA key and decrypts it again.
pub fn rsa_kem_decapsulate() -> (outcome: Result<Vec<u8>, BenchmarkError>)
    ensures
        outcome matches Err(e) ==> e is KeyGeneration || e is EncapsulationFailed || e
            is DecapsulationFailed,
{
    let private_key = rsa_key_or_error(rsa_keys::generate_private_key(RSA_KEY_SIZE))?;
    let public_key = rsa_keys::public_key_of(&private_key);
    let encrypted = encapsulation_outcome(
        rsa_keys::encrypt_oaep(&public_key, "secret data".as_bytes()),
        "RSA encryption failed",
    )?;
    decapsulation_outcome(
        rsa_keys::decrypt_oaep(&private_key, encrypted.as_slice()),
        "RSA decryption failed",
    )
}

/// The secret that a fresh X25519 key shares with another fresh key's
/// public half.
pub fn dh_encapsulate() -> (shared: [u8; 32]) {
    let alice_secret = x25519::random_secret();
    let bob_public = x25519::public_key_of(&x25519::random_secret());
    x25519::shared_secret_bytes(&x25519::diffie_hellman(alice_secret, &bob_public))
}

/// The same exchange as [`dh_encapsulate`], seen from the other side.
pub fn dh_decapsulate() -> (shared: [u8; 32]) {
    let bob_secret = x25519::random_secret();
    let alice_public = x25519::public_key_of(&x25519::random_secret());
    x25519::shared_secret_bytes(&x25519::diffie_hellman(bob_secret, &alice_public))
}

/// The secret that a fresh P-256 key shares with another fresh key's public
/// half: 32 bytes, whichever keys were drawn.
pub fn ecdh_encapsulate() -> (shared: Vec<u8>)
    ensures
        shared@.len() == 32,
{
    let alice_secret = ecdh_p256::random_secret();
    let bob_public = ecdh_p256::public_key_of(&ecdh_p256::random_secret());
    ecdh_p256::shared_secret(&alice_secret, &bob_public)
}

/// The same exchange as [`ecdh_encapsulate`], seen from the other side.
pub fn ecdh_decapsulate() -> (shared: Vec<u8>)
    ensures
        shared@.len() == 32,
{
    let bob_secret = ecdh_p256::random_secret();
    let alice_public = ecdh_p256::public_key_of(&ecdh_p256::random_secret());
    ecdh_p256::shared_secret(&bob_secret, &alice_public)
}

/// A shared secret and its ciphertext for a fresh ML-KEM-512 key: 32 and 768
/// bytes, whichever key and secret were drawn.
pub fn kyber_encapsulate() -> (sealed: (SharedSecret, Ciphertext))
    ensures
        shared_secret_content(sealed.0).len() == 32,
        ciphertext_content(sealed.1).len() == 768,
{
    let (public_key, _) = mlkem::keypair();
    mlkem::encapsulate(&public_key)
}

/// The shared secret that `sk` recovers from `ciphertext`: its bytes are the
/// ML-KEM-512 decapsulation of the ciphertext's bytes with the key's bytes.
pub fn kyber_decapsulate(ciphertext: Ciphertext, sk: SecretKey) -> (shared: SharedSecret)
    ensures
        shared_secret_content(shared) == mlkem512_decapsulation(
            ciphertext_content(ciphertext),
            secret_key_content(sk),
        ),
{
    mlkem::decapsulate(&ciphertext, &sk)
}

} // verus!
