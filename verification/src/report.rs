//! A whole benchmark pass, and the slot that keeps the last report.

use crate::error::BenchmarkError;
use crate::kem::{benchmark_kem_optimized, exchange_failure, exchange_report};
use crate::keys::{generation_failure, BenchmarkKeys};
use crate::primitives::rsa_keys::{modulus_bits, modulus_bytes};
use crate::models::BenchmarkReport;
use crate::signatures::{benchmark_signatures_optimized, signature_report, suite_failure};
use crate::stats::NANOS_PER_MICRO;
use std::time::Instant;
use vstd::prelude::*;

verus! {

/// The report holds what a pass over all signature suites and a pass over
/// all key-exchange suites report, in this order, for an RSA key whose
/// signatures have `rsa_signature_size` bytes.
pub open spec fn complete_report(report: BenchmarkReport, rsa_signature_size: nat) -> bool {
    &&& signature_report(report.signatures@, rsa_signature_size)
    &&& exchange_report(report.kem@)
}

/// The errors that a pass can end in.
pub open spec fn pass_failure(e: BenchmarkError) -> bool {
    suite_failure(e) || exchange_failure(e)
}

/// The whole microseconds that have passed since `start`, as the clock
/// reads them.
fn micros_since(start: &Instant) -> (micros: u128) {
    let elapsed = start.elapsed();
    elapsed.as_nanos() / (NANOS_PER_MICRO as u128)
}

/// Runs every suite once with keys that exist already, signatures first, and
/// collects the metrics. Key generation counts as no time, and the total is
/// the time of the pass. A suite that fails ends the pass: there is no
/// partial report.
pub fn run_benchmarks(keys: &BenchmarkKeys) -> (outcome: Result<BenchmarkReport, BenchmarkError>)
    ensures
        outcome matches Ok(report) ==> complete_report(
            report,
            modulus_bytes(modulus_bits(keys.rsa_private)),
        ) && report.keygen_time_micros == 0,
        outcome matches Err(e) ==> pass_failure(e),
{
    let start = Instant::now();
    let signatures = benchmark_signatures_optimized(keys)?;
    let kem = benchmark_kem_optimized(keys)?;
    Ok(
        BenchmarkReport {
            signatures,
            kem,
            keygen_time_micros: 0,
            total_time_micros: micros_since(&start),
        },
    )
}

/// A whole session: generates the keys, once, then runs every suite with
/// them. The report says how long the generation took and how long the
/// session took in all.
pub fn run_optimized_benchmarks() -> (outcome: Result<BenchmarkReport, BenchmarkError>)
    ensures
        outcome matches Ok(report) ==> complete_report(report, 256),
        outcome matches Err(e) ==> generation_failure(e) || pass_failure(e),
{
    let start = Instant::now();
    let keys = BenchmarkKeys::generate()?;
    let keygen_time_micros = micros_since(&start);
    let signatures = benchmark_signatures_optimized(&keys)?;
    let kem = benchmark_kem_optimized(&keys)?;
    Ok(
        BenchmarkReport {
            signatures,
            kem,
            keygen_time_micros,
            total_time_micros: micros_since(&start),
        },
    )
}

/// The slot for the most recent report. It is empty until the first report
/// is stored; after that it holds the one that was stored last, whole.
#[derive(Debug)]
pub struct ReportCache {
    latest: Option<BenchmarkReport>,
}

impl View for ReportCache {
    type V = Option<BenchmarkReport>;

    closed spec fn view(&self) -> Option<BenchmarkReport> {
        self.latest
    }
}

/// What a slot holds once `report` was stored in it: that report, whatever
/// was there.
pub open spec fn stored(slot: Option<BenchmarkReport>, report: BenchmarkReport) -> Option<
    BenchmarkReport,
> {
    Some(report)
}

/// What the slot holds after these reports were stored in this order,
/// starting from an empty slot.
pub open spec fn after_storing(reports: Seq<BenchmarkReport>) -> Option<BenchmarkReport>
    decreases reports.len(),
{
    if reports.len() == 0 {
        None
    } else {
        stored(after_storing(reports.drop_last()), reports.last())
    }
}

/// The last writer wins: after any number of stores the slot holds the
/// report that was stored last, and nothing while none was stored.
pub proof fn lemma_last_writer_wins(reports: Seq<BenchmarkReport>)
    ensures
        reports.len() == 0 ==> after_storing(reports) is None,
        reports.len() > 0 ==> after_storing(reports) == Some(reports.last()),
{
}

/// What a slot holds once the outcome of a pass was committed to it: the
/// report of a pass that succeeded, and what was there before where the pass
/// failed.
pub open spec fn committed(
    slot: Option<BenchmarkReport>,
    outcome: Result<BenchmarkReport, BenchmarkError>,
) -> Option<BenchmarkReport> {
    match outcome {
        Ok(report) => Some(report),
        Err(_) => slot,
    }
}

/// What the slot holds after the outcomes of these passes were committed in
/// this order, starting from an empty slot.
pub open spec fn after_committing(outcomes: Seq<Result<BenchmarkReport, BenchmarkError>>) -> Option<
    BenchmarkReport,
>
    decreases outcomes.len(),
{
    if outcomes.len() == 0 {
        None
    } else {
        committed(after_committing(outcomes.drop_last()), outcomes.last())
    }
}

/// In whatever order passes commit their outcomes, a reader finds the slot
/// empty only while no pass has succeeded, and otherwise finds one whole
/// report: that of the last pass that succeeded, never parts of two.
pub proof fn lemma_slot_holds_one_whole_report(
    outcomes: Seq<Result<BenchmarkReport, BenchmarkError>>,
)
    ensures
        after_committing(outcomes) is None ==> forall|i: int|
            0 <= i < outcomes.len() ==> (#[trigger] outcomes[i]) is Err,
        after_committing(outcomes) is Some ==> exists|i: int|
            0 <= i < outcomes.len() && #[trigger] outcomes[i] == Ok::<
                BenchmarkReport,
                BenchmarkError,
            >(after_committing(outcomes)->Some_0) && forall|j: int|
                i < j < outcomes.len() ==> (#[trigger] outcomes[j]) is Err,
    decreases outcomes.len(),
{
    if outcomes.len() > 0 {
        let earlier = outcomes.drop_last();
        let last = outcomes.len() - 1;
        lemma_slot_holds_one_whole_report(earlier);
        if outcomes.last() is Ok {
            assert(outcomes[last] == Ok::<BenchmarkReport, BenchmarkError>(
                after_committing(outcomes)->Some_0,
            ));
        } else {
            assert forall|i: int| 0 <= i < earlier.len() implies earlier[i] == outcomes[i] by {}
            if after_committing(earlier) is Some {
                let at = choose|i: int|
                    0 <= i < earlier.len() && #[trigger] earlier[i] == Ok::<
                        BenchmarkReport,
                        BenchmarkError,
                    >(after_committing(earlier)->Some_0) && forall|j: int|
                        i < j < earlier.len() ==> (#[trigger] earlier[j]) is Err;
                assert(outcomes[at] == earlier[at]);
                assert forall|j: int| at < j < outcomes.len() implies (#[trigger] outcomes[j])
                    is Err by {
                    if j < last {
                        assert(earlier[j] == outcomes[j]);
                    }
                }
            } else {
                assert forall|i: int| 0 <= i < outcomes.len() implies (#[trigger] outcomes[i])
                    is Err by {
                    if i < last {
                        assert(earlier[i] == outcomes[i]);
                    }
                }
            }
        }
    }
}

impl ReportCache {
    /// The empty slot.
    pub fn new() -> (cache: ReportCache)
        ensures
            cache@ is None,
    {
        ReportCache { latest: None }
    }

    /// Puts `report` in the slot, in place of what was there.
    pub fn store(&mut self, report: BenchmarkReport)
        ensures
            final(self)@ == stored(old(self)@, report),
    {
        self.latest = Some(report);
    }

    /// Takes in what a pass came to. A report goes into the slot; a failure
    /// leaves the slot as it was, so that the last good report stays
    /// available, and is handed back.
    pub fn commit(&mut self, outcome: Result<BenchmarkReport, BenchmarkError>) -> (failure: Option<
        BenchmarkError,
    >)
        ensures
            final(self)@ == committed(old(self)@, outcome),
            outcome is Ok ==> failure is None,
            outcome matches Err(e) ==> failure == Some(e),
    {
        match outcome {
            Ok(report) => {
                self.store(report);
                None
            },
            Err(e) => Some(e),
        }
    }

    /// The report in the slot, if there is one.
    pub fn latest(&self) -> (report: Option<&BenchmarkReport>)
        ensures
            match report {
                Some(held) => self@ == Some(*held),
                None => self@ is None,
            },
    {
        self.latest.as_ref()
    }
}

} // verus!
