use crypto_benchmark::models::BenchmarkMetric;
use crypto_benchmark::{kem, signatures, BenchmarkError, BenchmarkKeys};
use std::sync::OnceLock;

static KEYS: OnceLock<Result<BenchmarkKeys, BenchmarkError>> = OnceLock::new();

/// One generation for all tests of this file: it is the slow part, and no
/// test changes the bundle.
fn generate_once() -> Result<&'static BenchmarkKeys, &'static BenchmarkError> {
    KEYS.get_or_init(BenchmarkKeys::generate).as_ref()
}

fn info<'a>(metric: &'a BenchmarkMetric, key: &str) -> &'a str {
    match metric.extra_info.get(key) {
        Some(value) => value.as_str(),
        None => panic!("{} {} has no {}", metric.name, metric.operation, key),
    }
}

fn check_metric(metric: &BenchmarkMetric, name: &str, operation: &str, iterations: usize) {
    assert_eq!(metric.name, name);
    assert_eq!(metric.operation, operation);
    assert_eq!(metric.iterations, iterations);
    assert!(metric.min_micros <= metric.mean_micros);
    assert!(metric.mean_micros <= metric.max_micros);
}

#[test]
fn test_benchmark_keys_generation() {
    let keys = generate_once().expect("Key generation failed");
    // Ed25519 key should be 32 bytes
    assert_eq!(keys.ed25519_signing.as_bytes().len(), 32);

    // every other key has the size that its algorithm documents, and the
    // public half of each pair belongs to the secret half
    assert_eq!(keys.ed25519_verifying.as_bytes().len(), 32);
    assert_eq!(keys.ed25519_verifying, keys.ed25519_signing.verifying_key());
    assert_eq!(rsa::traits::PublicKeyParts::size(&keys.rsa_private), 256);
    assert_eq!(rsa::traits::PublicKeyParts::size(&keys.rsa_public), 256);
    assert_eq!(keys.rsa_public, rsa::RsaPublicKey::from(&keys.rsa_private));
    assert_eq!(keys.ecdsa_signing.key.to_bytes().len(), 32);
    assert_eq!(keys.ecdsa_verifying.key, *keys.ecdsa_signing.key.verifying_key());
    assert_eq!(pqcrypto_traits::sign::PublicKey::as_bytes(&keys.dilithium_public).len(), 1312);
    assert_eq!(pqcrypto_traits::sign::SecretKey::as_bytes(&keys.dilithium_secret).len(), 2560);
    assert_eq!(pqcrypto_traits::sign::PublicKey::as_bytes(&keys.falcon_public).len(), 897);
    assert_eq!(pqcrypto_traits::sign::SecretKey::as_bytes(&keys.falcon_secret).len(), 1281);
    assert_eq!(pqcrypto_traits::kem::PublicKey::as_bytes(&keys.kyber_public).len(), 800);
    assert_eq!(pqcrypto_traits::kem::SecretKey::as_bytes(&keys.kyber_secret).len(), 1632);
}

#[test]
fn test_signatures_benchmark_runs() {
    let keys = generate_once().expect("Key generation failed");
    let outcome = signatures::benchmark_signatures_optimized(keys);
    // No failure means success
    assert!(outcome.is_ok());

    let metrics = outcome.unwrap();
    assert_eq!(metrics.len(), 10);
    check_metric(&metrics[0], "Ed25519", "Sign", 100);
    check_metric(&metrics[1], "Ed25519", "Verify", 100);
    check_metric(&metrics[2], "RSA-2048", "Sign", 50);
    check_metric(&metrics[3], "RSA-2048", "Verify", 100);
    check_metric(&metrics[4], "ECDSA P-256", "Sign", 100);
    check_metric(&metrics[5], "ECDSA P-256", "Verify", 100);
    check_metric(&metrics[6], "ML-DSA-44", "Sign", 50);
    check_metric(&metrics[7], "ML-DSA-44", "Verify", 100);
    check_metric(&metrics[8], "Falcon-512", "Sign", 50);
    check_metric(&metrics[9], "Falcon-512", "Verify", 100);
    for metric in &metrics[0..2] {
        assert_eq!(metric.extra_info.len(), 2);
        assert_eq!(info(metric, "Key Size"), "32 bytes");
        assert_eq!(info(metric, "Signature Size"), "64 bytes");
    }
    for metric in &metrics[2..4] {
        assert_eq!(metric.extra_info.len(), 2);
        assert_eq!(info(metric, "Key Size"), "2048 bits");
        assert_eq!(info(metric, "Signature Size"), "256 bytes");
    }
    for metric in &metrics[4..6] {
        assert_eq!(metric.extra_info.len(), 2);
        assert_eq!(info(metric, "Key Size"), "32 bytes");
        assert_eq!(info(metric, "Signature Size"), "64 bytes");
    }
    for metric in &metrics[6..8] {
        assert_eq!(metric.extra_info.len(), 3);
        assert_eq!(info(metric, "Public Key Size"), "1312 bytes");
        assert_eq!(info(metric, "Secret Key Size"), "2560 bytes");
        assert_eq!(info(metric, "Signature Size"), "2420 bytes");
    }
    for metric in &metrics[8..10] {
        assert_eq!(metric.extra_info.len(), 3);
        assert_eq!(info(metric, "Public Key Size"), "897 bytes");
        assert_eq!(info(metric, "Secret Key Size"), "1281 bytes");
        assert_eq!(info(metric, "Signature Size"), "752 bytes");
    }
}

#[test]
fn test_kem_benchmark_runs() {
    let keys = generate_once().expect("Key generation failed");
    let outcome = kem::benchmark_kem_optimized(keys);
    // No failure means success
    assert!(outcome.is_ok());

    let metrics = outcome.unwrap();
    assert_eq!(metrics.len(), 4);
    check_metric(&metrics[0], "X25519", "Key Exchange", 100);
    check_metric(&metrics[1], "ECDH P-256", "Key Exchange", 100);
    check_metric(&metrics[2], "ML-KEM-512", "Encapsulate", 50);
    check_metric(&metrics[3], "ML-KEM-512", "Decapsulate", 100);
    for metric in &metrics[0..2] {
        assert_eq!(metric.extra_info.len(), 2);
        assert_eq!(info(metric, "Key Size"), "32 bytes");
        assert_eq!(info(metric, "Shared Secret Size"), "32 bytes");
    }
    for metric in &metrics[2..4] {
        assert_eq!(metric.extra_info.len(), 4);
        assert_eq!(info(metric, "Public Key Size"), "800 bytes");
        assert_eq!(info(metric, "Secret Key Size"), "1632 bytes");
        assert_eq!(info(metric, "Ciphertext Size"), "768 bytes");
        assert_eq!(info(metric, "Shared Secret Size"), "32 bytes");
    }
}

#[test]
fn test_kyber_encapsulate_decapsulate() {
    let keys = generate_once().unwrap();
    // Encapsulate with public key - returns (SharedSecret, Ciphertext)
    let (shared_secret_enc, ciphertext) = pqcrypto_mlkem::mlkem512::encapsulate(&keys.kyber_public);
    // Decapsulate with secret key
    let shared_secret_dec = pqcrypto_mlkem::mlkem512::decapsulate(&ciphertext, &keys.kyber_secret);
    // Compare shared secrets
    assert_eq!(shared_secret_enc, shared_secret_dec, "Kyber shared secret mismatch");
}
