use crypto_benchmark::constants::{default_message, DEFAULT_MESSAGE};
use crypto_benchmark::kem::{
    agreed_secret, dh_decapsulate, dh_encapsulate, ecdh_decapsulate, ecdh_encapsulate,
    kyber_decapsulate, kyber_encapsulate, rsa_kem_decapsulate, rsa_kem_encapsulate,
};
use crypto_benchmark::keys::rsa_key_or_error;
use crypto_benchmark::report::run_optimized_benchmarks;
use crypto_benchmark::signatures::{
    dilithium_sign, dilithium_verify, ecdsa_sign, ecdsa_verify, ed25519_sign, ed25519_verify,
    falcon_sign, falcon_verify, message_digest, rsa_sign, rsa_verify,
};
use crypto_benchmark::{measure_resources, BenchmarkError};

#[test]
fn default_message_is_the_documented_text() {
    assert_eq!(
        default_message(),
        b"Hello, world! This is a test message for cryptographic benchmarking."
    );
    assert_eq!(default_message(), DEFAULT_MESSAGE.as_bytes());
    assert_eq!(default_message().len(), 68);
}

#[test]
fn digest_is_sha256() {
    let expected: [u8; 32] = [
        0xba, 0x78, 0x16, 0xbf, 0x8f, 0x01, 0xcf, 0xea, 0x41, 0x41, 0x40, 0xde, 0x5d, 0xae, 0x22,
        0x23, 0xb0, 0x03, 0x61, 0xa3, 0x96, 0x17, 0x7a, 0x9c, 0xb4, 0x10, 0xff, 0x61, 0xf2, 0x00,
        0x15, 0xad,
    ];
    assert_eq!(message_digest(b"abc"), expected.to_vec());
    let empty: [u8; 32] = [
        0xe3, 0xb0, 0xc4, 0x42, 0x98, 0xfc, 0x1c, 0x14, 0x9a, 0xfb, 0xf4, 0xc8, 0x99, 0x6f, 0xb9,
        0x24, 0x27, 0xae, 0x41, 0xe4, 0x64, 0x9b, 0x93, 0x4c, 0xa4, 0x95, 0x99, 0x1b, 0x78, 0x52,
        0xb8, 0x55,
    ];
    assert_eq!(message_digest(b""), empty.to_vec());
}

#[test]
fn ed25519_round() {
    let signature = ed25519_sign(b"Hello, world!").expect("signing works");
    assert_eq!(signature.to_bytes().len(), 64);
    assert!(ed25519_verify(b"Hello, world!").is_ok());
}

#[test]
fn ecdsa_round() {
    let signature = ecdsa_sign(b"Hello, world!").expect("signing works");
    assert_eq!(signature.signature.to_vec().len(), 64);
    assert!(ecdsa_verify(b"Hello, world!").is_ok());
}

#[test]
fn dilithium_round() {
    let message = b"Hello, world!";
    let signed = dilithium_sign(message);
    let bytes = pqcrypto_traits::sign::SignedMessage::as_bytes(&signed);
    assert_eq!(bytes.len(), 2420 + message.len());
    assert_eq!(&bytes[2420..], &message[..]);
    assert!(dilithium_verify(message).is_ok());
}

#[test]
fn falcon_round() {
    let message = b"Hello, world!";
    let signed = falcon_sign(message);
    let bytes = pqcrypto_traits::sign::SignedMessage::as_bytes(&signed);
    assert!(bytes.len() > 42 + message.len());
    assert!(bytes.len() <= 752 + message.len());
    assert_eq!(&bytes[42..42 + message.len()], &message[..]);
    assert!(falcon_verify(message).is_ok());
}

#[test]
fn rsa_signature_is_as_long_as_the_modulus() {
    let signature = rsa_sign(b"Hello, world!").expect("signing works");
    assert_eq!(signature.len(), 256);
}

#[test]
fn rsa_round() {
    assert!(rsa_verify(b"Hello, world!").is_ok());
}

#[test]
fn rsa_encryption_is_as_long_as_the_modulus() {
    let sealed = rsa_kem_encapsulate().expect("encryption works");
    assert_eq!(sealed.len(), 256);
}

#[test]
fn rsa_decryption_returns_the_secret() {
    let opened = rsa_kem_decapsulate().expect("decryption works");
    assert_eq!(opened, b"secret data".to_vec());
}

#[test]
fn rsa_failure_is_reported_in_the_library_words() {
    match rsa_key_or_error(Err(rsa::Error::TooFewPrimes)) {
        Err(BenchmarkError::KeyGeneration(detail)) => {
            assert_eq!(detail, format!("RSA: {}", rsa::Error::TooFewPrimes));
            assert!(detail.len() > "RSA: ".len());
        }
        _ => panic!("a failed generation is a key generation error"),
    }
}

#[test]
fn diffie_hellman_secrets_have_32_bytes() {
    let first = dh_encapsulate();
    let second = dh_decapsulate();
    assert_eq!(first.len(), 32);
    assert_ne!(first, [0u8; 32]);
    assert_ne!(first, second);
    let first = ecdh_encapsulate();
    let second = ecdh_decapsulate();
    assert_eq!(first.len(), 32);
    assert_eq!(second.len(), 32);
    assert_ne!(first, second);
}

#[test]
fn agreement_is_equality_of_bytes() {
    assert_eq!(agreed_secret(vec![1, 2, 3], &[1, 2, 3], "mismatch").unwrap(), vec![1, 2, 3]);
    match agreed_secret(vec![1, 2, 3], &[1, 2, 4], "DH shared secret mismatch") {
        Err(BenchmarkError::DecapsulationFailed(detail)) => {
            assert_eq!(detail, "DH shared secret mismatch")
        }
        other => panic!("unexpected {:?}", other),
    }
    assert!(agreed_secret(vec![1, 2, 3], &[1, 2], "mismatch").is_err());
    assert!(agreed_secret(Vec::new(), &[], "mismatch").is_ok());
}

#[test]
fn kyber_round() {
    let (shared, ciphertext) = kyber_encapsulate();
    assert_eq!(pqcrypto_traits::kem::SharedSecret::as_bytes(&shared).len(), 32);
    assert_eq!(pqcrypto_traits::kem::Ciphertext::as_bytes(&ciphertext).len(), 768);

    let (public_key, secret_key) = pqcrypto_mlkem::mlkem512::keypair();
    let (sent, ciphertext) = pqcrypto_mlkem::mlkem512::encapsulate(&public_key);
    let received = kyber_decapsulate(ciphertext, secret_key);
    assert_eq!(sent, received);
}

#[test]
fn resources_are_measured_around_one_call() {
    let mut system = sysinfo::System::new();
    let calls = std::cell::Cell::new(0usize);
    let (micros, _cpu, _memory) = measure_resources(&mut system, || calls.set(calls.get() + 1));
    assert_eq!(calls.get(), 1);
    assert!(micros < 60_000_000);
}

#[test]
fn session_reports_every_operation() {
    let report = run_optimized_benchmarks().expect("the session completes");
    assert_eq!(report.signatures.len(), 10);
    assert_eq!(report.kem.len(), 4);
    assert!(report.keygen_time_micros > 0);
    assert!(report.total_time_micros >= report.keygen_time_micros);
    for metric in report.signatures.iter().chain(report.kem.iter()) {
        assert!(metric.iterations == 50 || metric.iterations == 100);
        assert!(metric.min_micros <= metric.mean_micros);
        assert!(metric.mean_micros <= metric.max_micros);
    }
}
