//! The fixed parameters of a benchmarking session.

use vstd::prelude::*;
use vstd::string::StringSliceAdditionalSpecFns;

verus! {

/// The message that every signature benchmark signs and verifies.
pub const DEFAULT_MESSAGE: &'static str =
    "Hello, world! This is a test message for cryptographic benchmarking.";

/// Length of an Ed25519 key, in bytes.
pub const ED25519_KEY_SIZE: usize = 32;

/// Length of the RSA modulus, in bits.
pub const RSA_KEY_SIZE: usize = 2048;

/// Length of a P-256 ECDSA key, in bytes.
pub const ECDSA_KEY_SIZE: usize = 32;

/// Length of an X25519 key, in bytes.
pub const X25519_KEY_SIZE: usize = 32;

/// Length of a P-256 Diffie-Hellman key, in bytes.
pub const ECDH_KEY_SIZE: usize = 32;

/// The most untimed invocations that precede a run.
pub const DEFAULT_WARMUP_ITERATIONS: usize = 10;

/// Timed invocations of a fast operation.
pub const DEFAULT_MEASUREMENT_ITERATIONS: usize = 100;

/// Timed invocations of a slow operation.
pub const SLOW_MEASUREMENT_ITERATIONS: usize = 50;

/// The shortest time a measurement should cover, in milliseconds.
pub const MIN_MEASUREMENT_TIME_MS: u64 = 100;

/// Time between two readings of the system's load, in milliseconds.
pub const SYSTEM_REFRESH_INTERVAL_MS: u64 = 100;

/// Readings of the processor's load that go into one figure.
pub const CPU_SAMPLE_COUNT: usize = 5;

/// The bytes of [`DEFAULT_MESSAGE`].
pub fn default_message() -> (message: &'static [u8])
    ensures
        message@ == DEFAULT_MESSAGE.spec_bytes(),
{
    DEFAULT_MESSAGE.as_bytes()
}

} // verus!
