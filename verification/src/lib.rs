//! Latency benchmarking of cryptographic primitives.
//!
//! The measurement engine in [`measurement`] times an operation over many
//! invocations and summarises the samples; the key bundle in [`keys`] is
//! generated once and shared by the suites in [`signatures`] and [`kem`];
//! [`report`] runs them all and keeps the last report.

pub mod constants;
pub mod error;
pub mod kem;
pub mod keys;
pub mod measurement;
pub mod models;
pub mod primitives;
pub mod report;
pub mod signatures;
pub mod stats;
pub mod text;

pub use constants::{
    default_message, CPU_SAMPLE_COUNT, DEFAULT_MEASUREMENT_ITERATIONS, DEFAULT_MESSAGE,
    DEFAULT_WARMUP_ITERATIONS, ECDH_KEY_SIZE, ECDSA_KEY_SIZE, ED25519_KEY_SIZE,
    MIN_MEASUREMENT_TIME_MS, RSA_KEY_SIZE, SLOW_MEASUREMENT_ITERATIONS,
    SYSTEM_REFRESH_INTERVAL_MS, X25519_KEY_SIZE,
};
pub use error::BenchmarkError;
pub use keys::BenchmarkKeys;
pub use measurement::{benchmark_operation, BenchmarkResult};

use primitives::system;
use std::time::Instant;
use sysinfo::System;
use vstd::prelude::*;

verus! {

/// By how much a reading grew from `before` to `after`; a reading that fell
/// counts as no growth.
pub fn growth(before: u64, after: u64) -> (grown: u64)
    ensures
        grown == if after >= before {
            after - before
        } else {
            0
        },
{
    if after >= before {
        after - before
    } else {
        0
    }
}

/// Runs `f` once and reports the microseconds it took, and by how much the
/// processors' load (in percent) and the memory in use (in bytes) grew over
/// the call. A single run is a coarse measure: for the time of an operation
/// use [`benchmark_operation`].
pub fn measure_resources<F>(sys: &mut System, f: F) -> (readings: (u64, u64, u64)) where
    F: FnOnce(),

    requires
        f.requires(()),
    ensures
        f.ensures((), ()),
{
    system::refresh_all(sys);
    let cpu_before = system::global_cpu_usage(sys);
    let mem_before = system::used_memory(sys);
    let start = Instant::now();
    f();
    let elapsed = start.elapsed();
    let micros: u128 = elapsed.as_nanos() / 1000;
    let duration: u64 = #[verifier::truncate] (micros as u64);
    system::refresh_all(sys);
    let cpu_after = system::global_cpu_usage(sys);
    let mem_after = system::used_memory(sys);
    (duration, growth(cpu_before, cpu_after), growth(mem_before, mem_after))
}

} // verus!
