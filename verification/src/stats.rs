//! Summary statistics over a run of timing samples.
//!
//! A sample is the elapsed time of one invocation, in whole nanoseconds.
//! Everything here is integer arithmetic: the mean is the floor of the
//! exact quotient, deviations are taken between whole microseconds, and the
//! standard deviation is the floor of the exact square root.

use vstd::prelude::*;

verus! {

/// Nanoseconds in one microsecond.
pub const NANOS_PER_MICRO: u64 = 1000;

/// The sum of all samples.
pub open spec fn total(samples: Seq<u64>) -> nat
    decreases samples.len(),
{
    if samples.len() == 0 {
        0
    } else {
        total(samples.drop_last()) + samples.last() as nat
    }
}

/// `m` occurs among the samples and none is smaller.
pub open spec fn is_minimum(samples: Seq<u64>, m: u64) -> bool {
    &&& exists|i: int| 0 <= i < samples.len() && samples[i] == m
    &&& forall|i: int| 0 <= i < samples.len() ==> m <= samples[i]
}

/// `m` occurs among the samples and none is larger.
pub open spec fn is_maximum(samples: Seq<u64>, m: u64) -> bool {
    &&& exists|i: int| 0 <= i < samples.len() && samples[i] == m
    &&& forall|i: int| 0 <= i < samples.len() ==> samples[i] <= m
}

/// The arithmetic mean of the samples, rounded down.
pub open spec fn mean(samples: Seq<u64>) -> nat
    recommends
        samples.len() > 0,
{
    total(samples) / samples.len()
}

/// A duration in nanoseconds as whole microseconds.
pub open spec fn micros(nanos: nat) -> nat {
    nanos / 1000
}

/// The square of an integer.
pub open spec fn square(x: int) -> nat {
    (x * x) as nat
}

/// The sum, over all samples, of the squared distance in microseconds
/// between the sample and `center`.
pub open spec fn squared_deviations(samples: Seq<u64>, center: nat) -> nat
    decreases samples.len(),
{
    if samples.len() == 0 {
        0
    } else {
        squared_deviations(samples.drop_last(), center) + square(
            micros(samples.last() as nat) - center,
        )
    }
}

/// The population variance in square microseconds, rounded down: the divisor
/// is the number of samples, not one less.
pub open spec fn variance(samples: Seq<u64>) -> nat
    recommends
        samples.len() > 0,
{
    squared_deviations(samples, micros(mean(samples))) / samples.len()
}

/// `root` is the largest integer whose square does not exceed `value`.
pub open spec fn is_floor_sqrt(value: nat, root: nat) -> bool {
    root * root <= value < (root + 1) * (root + 1)
}

/// The largest square a `u64` can have.
pub open spec fn max_square() -> nat {
    0xffff_ffff_ffff_ffff * 0xffff_ffff_ffff_ffff
}

/// A prefix extended by one sample has the old prefix's sum plus that sample.
pub proof fn lemma_total_step(samples: Seq<u64>, i: int)
    requires
        0 <= i < samples.len(),
    ensures
        total(samples.take(i + 1)) == total(samples.take(i)) + samples[i],
{
    assert(samples.take(i + 1).drop_last() =~= samples.take(i));
}

/// A prefix extended by one sample adds that sample's squared deviation.
pub proof fn lemma_squared_deviations_step(samples: Seq<u64>, center: nat, i: int)
    requires
        0 <= i < samples.len(),
    ensures
        squared_deviations(samples.take(i + 1), center) == squared_deviations(
            samples.take(i),
            center,
        ) + square(micros(samples[i] as nat) - center),
{
    assert(samples.take(i + 1).drop_last() =~= samples.take(i));
}

/// When every sample lies between `low` and `high`, the sum lies between
/// that many times `low` and that many times `high`.
pub proof fn lemma_total_bounds(samples: Seq<u64>, low: nat, high: nat)
    requires
        forall|i: int| 0 <= i < samples.len() ==> low <= #[trigger] samples[i] <= high,
    ensures
        samples.len() * low <= total(samples) <= samples.len() * high,
    decreases samples.len(),
{
    if samples.len() > 0 {
        let rest = samples.drop_last();
        assert forall|i: int| 0 <= i < rest.len() implies low <= #[trigger] rest[i] <= high by {
            assert(rest[i] == samples[i]);
        }
        lemma_total_bounds(rest, low, high);
        assert(low <= samples[samples.len() - 1] <= high);
        assert(samples.len() * low == rest.len() * low + low) by (nonlinear_arith)
            requires
                samples.len() == rest.len() + 1,
        ;
        assert(samples.len() * high == rest.len() * high + high) by (nonlinear_arith)
            requires
                samples.len() == rest.len() + 1,
        ;
    }
}

/// The mean of a non-empty run lies between its smallest and its largest
/// sample.
pub proof fn lemma_mean_between(samples: Seq<u64>, low: u64, high: u64)
    requires
        samples.len() > 0,
        is_minimum(samples, low),
        is_maximum(samples, high),
    ensures
        low <= mean(samples) <= high,
{
    lemma_total_bounds(samples, low as nat, high as nat);
    let n = samples.len() as int;
    let t = total(samples) as int;
    let lo = low as int;
    let hi = high as int;
    assert(lo <= t / n <= hi) by (nonlinear_arith)
        requires
            n > 0,
            n * lo <= t <= n * hi,
    ;
}

/// Two runs whose samples all lie between `low` and `high` have means that
/// lie between them too, and so differ by no more than `high - low`.
pub proof fn lemma_means_within_band(first: Seq<u64>, second: Seq<u64>, low: nat, high: nat)
    requires
        first.len() > 0,
        second.len() > 0,
        forall|i: int| 0 <= i < first.len() ==> low <= #[trigger] first[i] <= high,
        forall|i: int| 0 <= i < second.len() ==> low <= #[trigger] second[i] <= high,
    ensures
        low <= mean(first) <= high,
        low <= mean(second) <= high,
        mean(first) - mean(second) <= high - low,
        mean(second) - mean(first) <= high - low,
{
    lemma_total_bounds(first, low, high);
    lemma_total_bounds(second, low, high);
    let lo = low as int;
    let hi = high as int;
    let n = first.len() as int;
    let t = total(first) as int;
    assert(lo <= t / n <= hi) by (nonlinear_arith)
        requires
            n > 0,
            n * lo <= t <= n * hi,
    ;
    let m = second.len() as int;
    let u = total(second) as int;
    assert(lo <= u / m <= hi) by (nonlinear_arith)
        requires
            m > 0,
            m * lo <= u <= m * hi,
    ;
}

/// The smallest (or largest) sample of a run is determined by the run.
pub proof fn lemma_extremes_unique(samples: Seq<u64>, a: u64, b: u64)
    ensures
        is_minimum(samples, a) && is_minimum(samples, b) ==> a == b,
        is_maximum(samples, a) && is_maximum(samples, b) ==> a == b,
{
}

/// A number has at most one floor square root.
pub proof fn lemma_floor_sqrt_unique(value: nat, a: nat, b: nat)
    requires
        is_floor_sqrt(value, a),
        is_floor_sqrt(value, b),
    ensures
        a == b,
{
    assert(a == b) by (nonlinear_arith)
        requires
            a * a <= value < (a + 1) * (a + 1),
            b * b <= value < (b + 1) * (b + 1),
    ;
}

/// Adds up the samples. The sum of `usize::MAX` many `u64` values still fits.
pub fn sum_samples(samples: &Vec<u64>) -> (sum: u128)
    ensures
        sum == total(samples@),
{
    let mut sum: u128 = 0;
    let mut i: usize = 0;
    while i < samples.len()
        invariant
            i <= samples.len(),
            sum == total(samples@.take(i as int)),
            sum <= i * 0xffff_ffff_ffff_ffff,
        decreases samples.len() - i,
    {
        proof {
            lemma_total_step(samples@, i as int);
        }
        sum = sum + samples[i] as u128;
        i = i + 1;
    }
    assert(samples@.take(samples.len() as int) =~= samples@);
    sum
}

/// The smallest sample of a non-empty run, by one pass over it.
pub fn min_sample(samples: &Vec<u64>) -> (least: u64)
    requires
        samples.len() > 0,
    ensures
        is_minimum(samples@, least),
{
    let mut least: u64 = samples[0];
    let mut i: usize = 1;
    assert(samples@.take(1)[0] == least);
    while i < samples.len()
        invariant
            1 <= i <= samples.len(),
            is_minimum(samples@.take(i as int), least),
        decreases samples.len() - i,
    {
        let ghost seen = samples@.take(i as int);
        let ghost next = samples@.take(i + 1);
        let ghost at = choose|k: int| 0 <= k < seen.len() && seen[k] == least;
        if samples[i] < least {
            least = samples[i];
            assert(next[i as int] == least);
        } else {
            assert(next[at] == least);
        }
        assert forall|k: int| 0 <= k < next.len() implies least <= next[k] by {
            if k < i {
                assert(seen[k] == next[k]);
            }
        }
        i = i + 1;
    }
    assert(samples@.take(samples.len() as int) =~= samples@);
    least
}

/// The largest sample of a non-empty run, by one pass over it.
pub fn max_sample(samples: &Vec<u64>) -> (greatest: u64)
    requires
        samples.len() > 0,
    ensures
        is_maximum(samples@, greatest),
{
    let mut greatest: u64 = samples[0];
    let mut i: usize = 1;
    assert(samples@.take(1)[0] == greatest);
    while i < samples.len()
        invariant
            1 <= i <= samples.len(),
            is_maximum(samples@.take(i as int), greatest),
        decreases samples.len() - i,
    {
        let ghost seen = samples@.take(i as int);
        let ghost next = samples@.take(i + 1);
        let ghost at = choose|k: int| 0 <= k < seen.len() && seen[k] == greatest;
        if samples[i] > greatest {
            greatest = samples[i];
            assert(next[i as int] == greatest);
        } else {
            assert(next[at] == greatest);
        }
        assert forall|k: int| 0 <= k < next.len() implies next[k] <= greatest by {
            if k < i {
                assert(seen[k] == next[k]);
            }
        }
        i = i + 1;
    }
    assert(samples@.take(samples.len() as int) =~= samples@);
    greatest
}

/// The sum of squared deviations from `center` (in microseconds) divided by
/// the number of samples, rounded down.
///
/// The sum itself may exceed any machine integer, so it is never formed:
/// the loop carries its quotient and remainder by the number of samples.
pub fn mean_squared_deviation(samples: &Vec<u64>, center: u64) -> (quotient: u128)
    requires
        samples.len() > 0,
    ensures
        quotient == squared_deviations(samples@, center as nat) / samples.len() as nat,
{
    let count: u128 = samples.len() as u128;
    let mut quotient: u128 = 0;
    let mut remainder: u128 = 0;
    let mut i: usize = 0;
    while i < samples.len()
        invariant
            i <= samples.len(),
            count == samples.len(),
            count > 0,
            remainder < count,
            count * quotient + remainder == squared_deviations(
                samples@.take(i as int),
                center as nat,
            ),
            squared_deviations(samples@.take(i as int), center as nat) <= i * max_square(),
        decreases samples.len() - i,
    {
        let sample_micros: u64 = samples[i] / NANOS_PER_MICRO;
        let distance: u64 = if sample_micros >= center {
            sample_micros - center
        } else {
            center - sample_micros
        };
        let ghost before = squared_deviations(samples@.take(i as int), center as nat);
        let ghost after = squared_deviations(samples@.take(i + 1), center as nat);
        assert(distance * distance <= max_square()) by (nonlinear_arith)
            requires
                distance <= 0xffff_ffff_ffff_ffff,
        ;
        assert(max_square() < 0x1_0000_0000_0000_0000_0000_0000_0000_0000) by (nonlinear_arith);
        let squared: u128 = (distance as u128) * (distance as u128);
        proof {
            lemma_squared_deviations_step(samples@, center as nat, i as int);
            let signed = micros(samples[i as int] as nat) - center as nat;
            assert(square(signed) == distance * distance) by (nonlinear_arith)
                requires
                    signed == distance || signed == -distance,
            ;
            assert(after == before + squared);
            assert(after <= (i + 1) * max_square()) by (nonlinear_arith)
                requires
                    before <= i * max_square(),
                    after == before + squared,
                    squared <= max_square(),
            ;
        }
        let step_quotient: u128 = squared / count;
        let step_remainder: u128 = squared % count;
        let ghost bound = max_square();
        proof {
            assert(count * step_quotient + step_remainder == squared) by (nonlinear_arith)
                requires
                    count > 0,
                    step_quotient == squared / count,
                    step_remainder == squared % count,
            ;
            assert(count * (quotient + step_quotient) + (remainder + step_remainder) == after)
                by (nonlinear_arith)
                requires
                    count * quotient + remainder == before,
                    count * step_quotient + step_remainder == squared,
                    after == before + squared,
            ;
            assert(quotient + step_quotient + 1 <= bound || (quotient + step_quotient <= bound
                && remainder + step_remainder < count)) by (nonlinear_arith)
                requires
                    count > 0,
                    count * (quotient + step_quotient) + (remainder + step_remainder) == after,
                    after <= (i + 1) * bound,
                    i + 1 <= count,
                    remainder >= 0,
                    step_remainder >= 0,
            ;
        }
        quotient = quotient + step_quotient;
        remainder = remainder + step_remainder;
        if remainder >= count {
            assert(count * (quotient + 1) + (remainder - count) == count * quotient + remainder)
                by (nonlinear_arith);
            quotient = quotient + 1;
            remainder = remainder - count;
        }
        i = i + 1;
    }
    proof {
        assert(samples@.take(samples.len() as int) =~= samples@);
        let whole = squared_deviations(samples@, center as nat);
        assert(whole / count as nat == quotient) by (nonlinear_arith)
            requires
                count > 0,
                0 <= remainder < count,
                count * quotient + remainder == whole,
        ;
    }
    quotient
}

/// The floor of the square root, by bisection.
pub fn floor_sqrt(value: u128) -> (root: u64)
    ensures
        is_floor_sqrt(value as nat, root as nat),
{
    let mut low: u128 = 0;
    let mut high: u128 = 0x1_0000_0000_0000_0000;
    assert(value < high * high) by (nonlinear_arith)
        requires
            high == 0x1_0000_0000_0000_0000,
            value <= 0xffff_ffff_ffff_ffff_ffff_ffff_ffff_ffff,
    ;
    while high - low > 1
        invariant
            low < high <= 0x1_0000_0000_0000_0000,
            low * low <= value < high * high,
        decreases high - low,
    {
        let middle: u128 = low + (high - low) / 2;
        assert(middle * middle <= max_square()) by (nonlinear_arith)
            requires
                middle <= 0xffff_ffff_ffff_ffff,
        ;
        assert(max_square() < 0x1_0000_0000_0000_0000_0000_0000_0000_0000) by (nonlinear_arith);
        if middle * middle <= value {
            low = middle;
        } else {
            high = middle;
        }
    }
    low as u64
}

} // verus!
