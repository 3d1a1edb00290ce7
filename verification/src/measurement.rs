//! The measurement engine: warm up, time every invocation, summarise.

use crate::constants::DEFAULT_WARMUP_ITERATIONS;
use crate::error::BenchmarkError;
use crate::stats::{
    floor_sqrt, is_floor_sqrt, is_maximum, is_minimum, lemma_extremes_unique,
    lemma_floor_sqrt_unique, lemma_mean_between, max_sample, mean, mean_squared_deviation, micros,
    min_sample, sum_samples, variance, NANOS_PER_MICRO,
};
use std::time::{Duration, Instant};
use vstd::prelude::*;
use vstd::string::StringExecFns;

verus! {

/// The summary of one benchmark run.
///
/// `mean_duration`, `min_duration` and `max_duration` are in nanoseconds;
/// `std_deviation` is in microseconds; `iterations` is the number of timed
/// invocations that went into them.
#[derive(Debug, Clone, Copy, PartialEq, Eq, Structural)]
pub struct BenchmarkResult {
    pub mean_duration: u64,
    pub min_duration: u64,
    pub max_duration: u64,
    pub std_deviation: u64,
    pub iterations: usize,
}

impl BenchmarkResult {
    /// This is the summary of exactly these samples (nanoseconds each): every
    /// one of them counts, and nothing else does.
    pub open spec fn summarizes(&self, samples: Seq<u64>) -> bool {
        &&& samples.len() > 0
        &&& self.iterations == samples.len()
        &&& self.mean_duration == mean(samples)
        &&& is_minimum(samples, self.min_duration)
        &&& is_maximum(samples, self.max_duration)
        &&& is_floor_sqrt(variance(samples), self.std_deviation as nat)
    }

    /// What holds of every summary the engine hands out.
    pub open spec fn well_formed(&self) -> bool {
        &&& self.iterations > 0
        &&& self.min_duration <= self.mean_duration <= self.max_duration
        &&& self.std_deviation >= 0
    }

    /// The mean in whole microseconds.
    pub fn mean_micros(&self) -> (whole: u64)
        ensures
            whole == micros(self.mean_duration as nat),
    {
        self.mean_duration / NANOS_PER_MICRO
    }
}

/// The summary of a non-empty run of samples is well formed: the mean lies
/// between the smallest and the largest sample, the standard deviation is
/// not negative, and at least one invocation was counted.
pub proof fn lemma_summary_well_formed(result: BenchmarkResult, samples: Seq<u64>)
    requires
        result.summarizes(samples),
    ensures
        result.well_formed(),
{
    lemma_mean_between(samples, result.min_duration, result.max_duration);
}

/// A run of samples has one summary only.
pub proof fn lemma_summary_unique(first: BenchmarkResult, second: BenchmarkResult, samples: Seq<u64>)
    requires
        first.summarizes(samples),
        second.summarizes(samples),
    ensures
        first == second,
{
    lemma_extremes_unique(samples, first.min_duration, second.min_duration);
    lemma_extremes_unique(samples, first.max_duration, second.max_duration);
    lemma_floor_sqrt_unique(
        variance(samples),
        first.std_deviation as nat,
        second.std_deviation as nat,
    );
}

/// The number of warm-up invocations for a run of `iterations` timed ones.
pub open spec fn spec_warmup_count(iterations: nat) -> nat {
    if iterations / 10 < 10 {
        iterations / 10
    } else {
        10
    }
}

/// The number of untimed invocations that precede the timed ones: a tenth of
/// the timed count, and never more than `DEFAULT_WARMUP_ITERATIONS`.
pub fn warmup_count(iterations: usize) -> (count: usize)
    ensures
        count == spec_warmup_count(iterations as nat),
{
    let tenth: usize = iterations / 10;
    if tenth < DEFAULT_WARMUP_ITERATIONS {
        tenth
    } else {
        DEFAULT_WARMUP_ITERATIONS
    }
}

/// Mean, minimum, maximum and population standard deviation of the samples
/// (nanoseconds each). An empty run has no summary.
pub fn summarize(samples: &Vec<u64>) -> (outcome: Result<BenchmarkResult, BenchmarkError>)
    ensures
        outcome is Err <==> samples.len() == 0,
        outcome matches Err(e) ==> e is InvalidConfiguration,
        outcome matches Ok(result) ==> result.summarizes(samples@) && result.well_formed(),
{
    if samples.len() == 0 {
        return Err(
            BenchmarkError::InvalidConfiguration(
                String::from_str("iterations must be greater than zero"),
            ),
        );
    }
    let least = min_sample(samples);
    let greatest = max_sample(samples);
    let sum = sum_samples(samples);
    proof {
        lemma_mean_between(samples@, least, greatest);
    }
    let mean_nanos: u64 = (sum / (samples.len() as u128)) as u64;
    let center: u64 = mean_nanos / NANOS_PER_MICRO;
    let spread = mean_squared_deviation(samples, center);
    let result = BenchmarkResult {
        mean_duration: mean_nanos,
        min_duration: least,
        max_duration: greatest,
        std_deviation: floor_sqrt(spread),
        iterations: samples.len(),
    };
    Ok(result)
}

/// A reading of the clock, in nanoseconds, as a sample: itself, and the
/// longest sample there is where it is longer than that.
pub open spec fn as_sample(reading: u128) -> u64 {
    if reading > u64::MAX {
        u64::MAX
    } else {
        reading as u64
    }
}

/// The readings as samples.
pub open spec fn as_samples(readings: Seq<u128>) -> Seq<u64> {
    Seq::new(readings.len(), |i: int| as_sample(readings[i]))
}

/// What a run that took these readings, one per timed invocation, comes to:
/// no readings are refused, and all others have the summary of their
/// samples.
pub open spec fn is_outcome_of(
    outcome: Result<BenchmarkResult, BenchmarkError>,
    readings: Seq<u128>,
) -> bool {
    if readings.len() == 0 {
        outcome matches Err(e) && e is InvalidConfiguration
    } else {
        outcome matches Ok(result) && result.summarizes(as_samples(readings))
    }
}

/// The summary of a run from the clock's readings (nanoseconds each), one
/// per timed invocation. A reading of more than `u64::MAX` nanoseconds, some
/// 584 years, counts as that many.
pub fn summarize_readings(readings: &Vec<u128>) -> (outcome: Result<
    BenchmarkResult,
    BenchmarkError,
>)
    ensures
        is_outcome_of(outcome, readings@),
        outcome matches Ok(result) ==> result.well_formed(),
{
    let mut samples: Vec<u64> = Vec::new();
    let mut i: usize = 0;
    while i < readings.len()
        invariant
            i <= readings.len(),
            samples.len() == i,
            forall|k: int| 0 <= k < i ==> samples@[k] == as_sample(readings@[k]),
        decreases readings.len() - i,
    {
        let sample: u64 = if readings[i] > u64::MAX as u128 {
            u64::MAX
        } else {
            readings[i] as u64
        };
        samples.push(sample);
        i = i + 1;
    }
    assert(samples@ =~= as_samples(readings@));
    summarize(&samples)
}

/// Runs `f` a few times untimed, then `iterations` times under the clock,
/// and summarises the timed invocations: all of them, and no other.
///
/// With `iterations == 0` the run is refused before `f` is ever invoked: the
/// contract asks nothing of `f` then, so no call of it could be verified.
/// What `f` returns is dropped.
pub fn benchmark_operation<F, R>(f: F, iterations: usize) -> (outcome: Result<
    BenchmarkResult,
    BenchmarkError,
>) where F: FnMut() -> R
    requires
        iterations > 0 ==> f.requires(()),
    ensures
        outcome is Ok <==> iterations > 0,
        exists|readings: Seq<u128>|
            readings.len() == iterations && #[trigger] is_outcome_of(outcome, readings),
        outcome matches Ok(result) ==> result.iterations == iterations && result.well_formed(),
        iterations > 0 ==> exists|returned: R| f.ensures((), returned),
{
    let mut readings: Vec<u128> = Vec::new();
    if iterations == 0 {
        return summarize_readings(&readings);
    }
    let mut operation = f;
    let warmup = warmup_count(iterations);
    let mut warmed: usize = 0;
    while warmed < warmup
        invariant
            operation == f,
            f.requires(()),
        decreases warmup - warmed,
    {
        let _ = operation();
        warmed = warmed + 1;
    }
    let mut timed: usize = 0;
    while timed < iterations
        invariant
            operation == f,
            f.requires(()),
            timed <= iterations,
            readings.len() == timed,
            timed > 0 ==> exists|returned: R| f.ensures((), returned),
        decreases iterations - timed,
    {
        let start = Instant::now();
        let _ = operation();
        let elapsed = start.elapsed();
        readings.push(elapsed.as_nanos());
        timed = timed + 1;
    }
    summarize_readings(&readings)
}

/// As [`benchmark_operation`], for an operation that can fail: the first
/// failure, in the warm-up or under the clock, ends the run and is handed
/// back as it is. A run that is summarised counted `iterations` invocations,
/// each of which returned `Ok`.
pub fn try_benchmark_operation<F, T>(f: F, iterations: usize) -> (outcome: Result<
    BenchmarkResult,
    BenchmarkError,
>) where F: FnMut() -> Result<T, BenchmarkError>
    requires
        iterations > 0 ==> f.requires(()),
    ensures
        iterations == 0 ==> (outcome matches Err(e) && e is InvalidConfiguration),
        iterations > 0 && outcome is Err ==> f.ensures(
            (),
            Err::<T, BenchmarkError>(outcome->Err_0),
        ),
        outcome is Ok ==> exists|readings: Seq<u128>|
            readings.len() == iterations && #[trigger] is_outcome_of(outcome, readings),
        outcome matches Ok(result) ==> {
            &&& result.iterations == iterations
            &&& result.well_formed()
            &&& exists|value: T| f.ensures((), Ok(value))
        },
{
    let mut readings: Vec<u128> = Vec::new();
    if iterations == 0 {
        return summarize_readings(&readings);
    }
    let mut operation = f;
    let warmup = warmup_count(iterations);
    let mut warmed: usize = 0;
    while warmed < warmup
        invariant
            operation == f,
            f.requires(()),
            iterations > 0,
        decreases warmup - warmed,
    {
        match operation() {
            Ok(_) => {},
            Err(e) => {
                return Err(e);
            },
        }
        warmed = warmed + 1;
    }
    let mut timed: usize = 0;
    while timed < iterations
        invariant
            operation == f,
            f.requires(()),
            iterations > 0,
            timed <= iterations,
            readings.len() == timed,
            timed > 0 ==> exists|value: T| f.ensures((), Ok(value)),
        decreases iterations - timed,
    {
        let start = Instant::now();
        let returned = operation();
        let elapsed = start.elapsed();
        match returned {
            Ok(_) => {},
            Err(e) => {
                return Err(e);
            },
        }
        readings.push(elapsed.as_nanos());
        timed = timed + 1;
    }
    summarize_readings(&readings)
}

/// Times a single invocation of `f`, without warm-up, and drops what it
/// returns. The operation has run when this returns; of the time itself
/// nothing can be promised.
pub fn quick_benchmark<F, R>(f: F) -> (elapsed: Duration) where F: FnOnce() -> R
    requires
        f.requires(()),
    ensures
        exists|returned: R| f.ensures((), returned),
{
    let start = Instant::now();
    let _ = f();
    start.elapsed()
}

} // verus!
