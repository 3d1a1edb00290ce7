use crypto_benchmark::constants::DEFAULT_WARMUP_ITERATIONS;
use crypto_benchmark::measurement::{
    benchmark_operation, quick_benchmark, summarize, summarize_readings, try_benchmark_operation,
    warmup_count, BenchmarkResult,
};
use crypto_benchmark::BenchmarkError;
use std::cell::Cell;
use std::hint::black_box;

#[test]
fn summary_of_two_samples() {
    let summary = summarize(&vec![1000, 3000]).expect("two samples have a summary");
    assert_eq!(summary.mean_duration, 2000);
    assert_eq!(summary.min_duration, 1000);
    assert_eq!(summary.max_duration, 3000);
    assert_eq!(summary.std_deviation, 1);
    assert_eq!(summary.iterations, 2);
}

#[test]
fn summary_of_one_sample_has_no_spread() {
    let summary = summarize(&vec![123_456]).expect("one sample has a summary");
    assert_eq!(
        summary,
        BenchmarkResult {
            mean_duration: 123_456,
            min_duration: 123_456,
            max_duration: 123_456,
            std_deviation: 0,
            iterations: 1,
        }
    );
    assert_eq!(summary.mean_micros(), 123);
}

#[test]
fn summary_of_no_samples_is_refused() {
    let outcome = summarize(&Vec::new());
    assert!(matches!(outcome, Err(BenchmarkError::InvalidConfiguration(_))));
}

#[test]
fn readings_are_summarised_as_samples() {
    let summary = summarize_readings(&vec![1_000, 3_000]).unwrap();
    assert_eq!(summary, summarize(&vec![1_000, 3_000]).unwrap());
    let longest = u64::MAX as u128;
    let summary = summarize_readings(&vec![longest]).unwrap();
    assert_eq!(summary.max_duration, u64::MAX);
    assert_eq!(summary.mean_duration, u64::MAX);
    assert_eq!(summary.std_deviation, 0);
}

#[test]
fn reading_beyond_a_sample_counts_as_the_longest() {
    let too_long = u64::MAX as u128 + 1;
    let summary = summarize_readings(&vec![5, too_long, 7]).unwrap();
    assert_eq!(summary, summarize(&vec![5, u64::MAX, 7]).unwrap());
    assert_eq!(summary.max_duration, u64::MAX);
    assert_eq!(summary.min_duration, 5);
    assert_eq!(summary.iterations, 3);
    let summary = summarize_readings(&vec![u128::MAX]).unwrap();
    assert_eq!(summary.mean_duration, u64::MAX);
    assert_eq!(summary.std_deviation, 0);
}

#[test]
fn no_readings_are_refused() {
    let outcome = summarize_readings(&Vec::new());
    match outcome {
        Err(BenchmarkError::InvalidConfiguration(detail)) => {
            assert_eq!(detail, "iterations must be greater than zero")
        }
        other => panic!("unexpected {:?}", other),
    }
}

#[test]
fn standard_deviation_divides_by_the_count() {
    // Microseconds 2, 4, 4, 4, 5, 5, 7, 9: mean 5, squared deviations 32,
    // population variance 4, standard deviation 2. The divisor one less
    // would give 32 / 7 and a root of 2 as well, so a second run tells
    // them apart: 1 and 3 have variance 1 (divisor 2) and not 2 (divisor 1).
    let samples = vec![2_000, 4_000, 4_000, 4_000, 5_000, 5_000, 7_000, 9_000];
    let summary = summarize(&samples).unwrap();
    assert_eq!(summary.mean_duration, 5_000);
    assert_eq!(summary.std_deviation, 2);
    let wide = summarize(&vec![0, 20_000]).unwrap();
    // deviations 10 and 10: variance 100 with divisor 2, 200 with divisor 1
    assert_eq!(wide.std_deviation, 10);
}

#[test]
fn standard_deviation_is_rounded_down() {
    // Microseconds 0, 0, 3: mean 1, squared deviations 1 + 1 + 4 = 6,
    // variance 2, root 1.41..
    let summary = summarize(&vec![0, 0, 3_000]).unwrap();
    assert_eq!(summary.mean_duration, 1_000);
    assert_eq!(summary.std_deviation, 1);
}

#[test]
fn deviations_are_taken_between_whole_microseconds() {
    // 1999 ns is 1 us, 4001 ns is 4 us; the mean of 3000 ns is 3 us.
    // Squared deviations 4 + 1 = 5, variance 2, root 1.
    let summary = summarize(&vec![1_999, 4_001]).unwrap();
    assert_eq!(summary.mean_duration, 3_000);
    assert_eq!(summary.mean_micros(), 3);
    assert_eq!(summary.std_deviation, 1);
}

#[test]
fn mean_is_rounded_down() {
    let summary = summarize(&vec![1, 2, 2]).unwrap();
    assert_eq!(summary.mean_duration, 1);
    assert_eq!(summary.min_duration, 1);
    assert_eq!(summary.max_duration, 2);
}

#[test]
fn summary_of_the_longest_samples_does_not_overflow() {
    let summary = summarize(&vec![u64::MAX, u64::MAX, 0, u64::MAX]).unwrap();
    assert_eq!(summary.min_duration, 0);
    assert_eq!(summary.max_duration, u64::MAX);
    // floor(3 * (2^64 - 1) / 4)
    assert_eq!(summary.mean_duration, 13_835_058_055_282_163_711);
    // Microseconds: 18446744073709551 three times and 0 once, the mean is
    // 13835058055282163. Three deviations of 4611686018427388 and one of
    // 13835058055282163: the root of a quarter of the sum of their squares.
    assert_eq!(summary.std_deviation, 7_987_674_492_471_257);
    assert_eq!(summary.iterations, 4);
}

#[test]
fn summary_is_ordered() {
    let runs: Vec<Vec<u64>> = vec![
        vec![5],
        vec![9, 1],
        vec![3, 3, 3],
        vec![1_000_000, 2, 999, 50_000, 7],
        vec![u64::MAX, 0],
    ];
    for samples in runs.iter() {
        let summary = summarize(samples).unwrap();
        assert!(summary.min_duration <= summary.mean_duration);
        assert!(summary.mean_duration <= summary.max_duration);
        assert_eq!(summary.iterations, samples.len());
        assert!(samples.contains(&summary.min_duration));
        assert!(samples.contains(&summary.max_duration));
    }
}

#[test]
fn warmup_is_a_tenth_and_at_most_ten() {
    assert_eq!(DEFAULT_WARMUP_ITERATIONS, 10);
    assert_eq!(warmup_count(0), 0);
    assert_eq!(warmup_count(9), 0);
    assert_eq!(warmup_count(10), 1);
    assert_eq!(warmup_count(50), 5);
    assert_eq!(warmup_count(99), 9);
    assert_eq!(warmup_count(100), 10);
    assert_eq!(warmup_count(101), 10);
    assert_eq!(warmup_count(usize::MAX), 10);
}

#[test]
fn hundred_additions_are_timed() {
    let summary = benchmark_operation(|| 1 + 1, 100).expect("the run completes");
    assert_eq!(summary.iterations, 100);
    assert!(summary.min_duration <= summary.mean_duration);
    assert!(summary.mean_duration <= summary.max_duration);
}

#[test]
fn operation_runs_once_per_sample_after_the_warmup() {
    let calls = Cell::new(0usize);
    let summary = benchmark_operation(|| calls.set(calls.get() + 1), 50).unwrap();
    assert_eq!(summary.iterations, 50);
    // five untimed invocations, fifty timed ones
    assert_eq!(calls.get(), 55);

    let mut count = 0usize;
    let summary = benchmark_operation(|| count += 1, 7).unwrap();
    assert_eq!(summary.iterations, 7);
    assert_eq!(count, 7);

    let calls = Cell::new(0usize);
    let summary = benchmark_operation(|| calls.set(calls.get() + 1), 1000).unwrap();
    assert_eq!(summary.iterations, 1000);
    assert_eq!(calls.get(), 1010);
}

#[test]
fn zero_iterations_are_refused_before_any_invocation() {
    let calls = Cell::new(0usize);
    let outcome = benchmark_operation(|| calls.set(calls.get() + 1), 0);
    assert!(matches!(outcome, Err(BenchmarkError::InvalidConfiguration(_))));
    assert_eq!(calls.get(), 0);

    let outcome = try_benchmark_operation(
        || {
            calls.set(calls.get() + 1);
            Ok::<(), BenchmarkError>(())
        },
        0,
    );
    assert!(matches!(outcome, Err(BenchmarkError::InvalidConfiguration(_))));
    assert_eq!(calls.get(), 0);
}

#[test]
fn fallible_operation_that_succeeds_is_summarised() {
    let calls = Cell::new(0usize);
    let summary = try_benchmark_operation(
        || {
            calls.set(calls.get() + 1);
            Ok::<usize, BenchmarkError>(calls.get())
        },
        20,
    )
    .unwrap();
    assert_eq!(summary.iterations, 20);
    assert_eq!(calls.get(), 22);
}

#[test]
fn first_failure_ends_the_run() {
    let calls = Cell::new(0usize);
    let outcome = try_benchmark_operation(
        || {
            calls.set(calls.get() + 1);
            if calls.get() == 14 {
                Err(BenchmarkError::VerificationFailed("bad signature".to_string()))
            } else {
                Ok(())
            }
        },
        30,
    );
    match outcome {
        Err(BenchmarkError::VerificationFailed(detail)) => assert_eq!(detail, "bad signature"),
        other => panic!("expected the operation's own error, got {:?}", other),
    }
    // three warm-up invocations, then the eleventh timed one failed
    assert_eq!(calls.get(), 14);
}

#[test]
fn failure_in_the_warmup_ends_the_run() {
    let calls = Cell::new(0usize);
    let outcome = try_benchmark_operation(
        || {
            calls.set(calls.get() + 1);
            Err::<(), BenchmarkError>(BenchmarkError::SignatureOperation("no key".to_string()))
        },
        100,
    );
    assert!(matches!(outcome, Err(BenchmarkError::SignatureOperation(_))));
    assert_eq!(calls.get(), 1);
}

#[test]
fn repeated_runs_agree_within_an_order_of_magnitude() {
    let work = || {
        let mut sum = 0u64;
        for i in 0..20_000u64 {
            sum = sum.wrapping_add(black_box(i) * black_box(i));
        }
        black_box(sum)
    };
    let first = benchmark_operation(work, 200).unwrap();
    let second = benchmark_operation(work, 200).unwrap();
    assert_eq!(first.iterations, second.iterations);
    let low = first.mean_duration.min(second.mean_duration) as u128;
    let high = first.mean_duration.max(second.mean_duration) as u128;
    assert!(high <= 10 * low + 1_000_000, "means {} and {} nanoseconds", low, high);
}

#[test]
fn quick_benchmark_runs_the_operation_once() {
    let calls = Cell::new(0usize);
    let elapsed = quick_benchmark(|| calls.set(calls.get() + 1));
    assert_eq!(calls.get(), 1);
    assert!(elapsed.as_secs() < 5);
}
