//! What a benchmark pass reports: one metric per measured operation, with
//! the facts that belong to the algorithm, and the report that collects them.

use crate::measurement::BenchmarkResult;
use crate::stats::{micros, NANOS_PER_MICRO};
use crate::text::same_text;
use vstd::prelude::*;
use vstd::string::StringExecFns;

verus! {

/// No two entries have the same key.
pub open spec fn distinct_keys(entries: Seq<(String, String)>) -> bool {
    forall|i: int, j: int|
        0 <= i < j < entries.len() ==> (#[trigger] entries[i]).0@ != (#[trigger] entries[j]).0@
}

/// Some entry has this key.
pub open spec fn has_key(entries: Seq<(String, String)>, key: Seq<char>) -> bool {
    exists|i: int| 0 <= i < entries.len() && (#[trigger] entries[i]).0@ == key
}

/// The place of an entry with this key.
pub open spec fn key_index(entries: Seq<(String, String)>, key: Seq<char>) -> int {
    choose|i: int| 0 <= i < entries.len() && (#[trigger] entries[i]).0@ == key
}

/// The mapping that a list of entries stands for.
pub open spec fn entries_map(entries: Seq<(String, String)>) -> Map<Seq<char>, Seq<char>> {
    Map::new(
        |key: Seq<char>| has_key(entries, key),
        |key: Seq<char>| entries[key_index(entries, key)].1@,
    )
}

/// Facts about one algorithm, as text under a text key: key size, signature
/// size and the like. A key occurs once; entries keep the order in which
/// their keys first came.
#[derive(Debug, Clone)]
pub struct ExtraInfo {
    entries: Vec<(String, String)>,
}

impl View for ExtraInfo {
    type V = Map<Seq<char>, Seq<char>>;

    closed spec fn view(&self) -> Map<Seq<char>, Seq<char>> {
        entries_map(self.entries@)
    }
}

impl ExtraInfo {
    /// No key occurs twice. Every value that this module hands out is well
    /// formed, and every method keeps it so.
    pub closed spec fn well_formed(&self) -> bool {
        distinct_keys(self.entries@)
    }

    /// The entries in order, as a sequence of key and value.
    pub closed spec fn listing(&self) -> Seq<(String, String)> {
        self.entries@
    }

    /// No facts at all.
    pub fn new() -> (info: ExtraInfo)
        ensures
            info.well_formed(),
            info@ == Map::<Seq<char>, Seq<char>>::empty(),
            info.listing().len() == 0,
    {
        let info = ExtraInfo { entries: Vec::new() };
        assert(info@ =~= Map::<Seq<char>, Seq<char>>::empty());
        info
    }

    /// The number of facts.
    pub fn len(&self) -> (count: usize)
        ensures
            count == self.listing().len(),
    {
        self.entries.len()
    }

    /// The place of `key` among the entries, if it is there.
    fn position(&self, key: &str) -> (place: Option<usize>)
        ensures
            match place {
                Some(i) => i < self.entries@.len() && self.entries@[i as int].0@ == key@,
                None => !has_key(self.entries@, key@),
            },
    {
        let mut i: usize = 0;
        while i < self.entries.len()
            invariant
                i <= self.entries@.len(),
                forall|k: int| 0 <= k < i ==> (#[trigger] self.entries@[k]).0@ != key@,
            decreases self.entries@.len() - i,
        {
            if same_text(self.entries[i].0.as_str(), key) {
                return Some(i);
            }
            i = i + 1;
        }
        None
    }

    /// The value under `key`, if there is one.
    pub fn get(&self, key: &str) -> (value: Option<&String>)
        requires
            self.well_formed(),
        ensures
            match value {
                Some(text) => self@.contains_key(key@) && self@[key@] == text@,
                None => !self@.contains_key(key@),
            },
    {
        match self.position(key) {
            Some(i) => {
                assert(has_key(self.entries@, key@));
                assert(key_index(self.entries@, key@) == i as int);
                Some(&self.entries[i].1)
            },
            None => None,
        }
    }

    /// Puts `value` under `key`, in place of what was there under it.
    pub fn insert(&mut self, key: String, value: String)
        requires
            old(self).well_formed(),
        ensures
            final(self).well_formed(),
            final(self)@ == old(self)@.insert(key@, value@),
            final(self).listing().len() == if old(self)@.contains_key(key@) {
                old(self).listing().len()
            } else {
                old(self).listing().len() + 1
            },
    {
        let ghost before = self.entries@;
        match self.position(key.as_str()) {
            Some(i) => {
                self.entries.set(i, (key, value));
                let ghost after = self.entries@;
                assert forall|a: int, b: int| 0 <= a < b < after.len() implies (#[trigger] after[a]).0@
                    != (#[trigger] after[b]).0@ by {
                    assert(after[a].0@ == before[a].0@);
                    assert(after[b].0@ == before[b].0@);
                }
                assert forall|k: Seq<char>| has_key(after, k) == #[trigger] has_key(before, k) by {
                    if has_key(before, k) {
                        let at = key_index(before, k);
                        assert(after[at].0@ == k);
                    }
                    if has_key(after, k) {
                        let at = key_index(after, k);
                        assert(before[at].0@ == k);
                    }
                }
                assert forall|k: Seq<char>| has_key(after, k) implies #[trigger] entries_map(after)[k]
                    == entries_map(before).insert(key@, value@)[k] by {
                    let at = key_index(after, k);
                    assert(before[at].0@ == k);
                    if k != key@ {
                        assert(key_index(before, k) == at);
                    } else {
                        assert(after[i as int].0@ == k);
                        assert(at == i);
                    }
                }
                assert(has_key(before, key@));
                assert(entries_map(after) =~= entries_map(before).insert(key@, value@));
            },
            None => {
                self.entries.push((key, value));
                let ghost after = self.entries@;
                let ghost last = before.len() as int;
                assert forall|a: int, b: int| 0 <= a < b < after.len() implies (#[trigger] after[a]).0@
                    != (#[trigger] after[b]).0@ by {
                    assert(after[a] == before[a]);
                    if b < last {
                        assert(after[b] == before[b]);
                    }
                }
                assert forall|k: Seq<char>|
                    has_key(after, k) == (#[trigger] has_key(before, k) || k == key@) by {
                    if has_key(before, k) {
                        let at = key_index(before, k);
                        assert(after[at].0@ == k);
                    }
                    if k == key@ {
                        assert(after[last].0@ == k);
                    }
                    if has_key(after, k) {
                        let at = key_index(after, k);
                        if at < last {
                            assert(before[at].0@ == k);
                        }
                    }
                }
                assert forall|k: Seq<char>| has_key(after, k) implies #[trigger] entries_map(after)[k]
                    == entries_map(before).insert(key@, value@)[k] by {
                    let at = key_index(after, k);
                    if k == key@ {
                        assert(after[last].0@ == k);
                        assert(at == last);
                    } else {
                        assert(at < last);
                        assert(before[at].0@ == k);
                        assert(key_index(before, k) == at);
                    }
                }
                assert(entries_map(after) =~= entries_map(before).insert(key@, value@));
            },
        }
    }

    /// The entries in order, for a caller that walks them all: no key comes
    /// twice, and together they are the mapping.
    pub fn entries(&self) -> (all: &Vec<(String, String)>)
        ensures
            all@ == self.listing(),
            self.well_formed() ==> distinct_keys(all@),
            entries_map(all@) == self@,
    {
        &self.entries
    }
}

/// One measured operation of one algorithm, with all times in whole
/// microseconds.
#[derive(Debug, Clone)]
pub struct BenchmarkMetric {
    pub name: String,
    pub operation: String,
    pub mean_micros: u64,
    pub min_micros: u64,
    pub max_micros: u64,
    pub std_dev_micros: u64,
    pub iterations: usize,
    pub extra_info: ExtraInfo,
}

impl BenchmarkMetric {
    /// The metric carries this name and operation and these statistics.
    pub open spec fn reports(&self, name: Seq<char>, operation: Seq<char>, result: BenchmarkResult)
        -> bool {
        &&& self.name@ == name
        &&& self.operation@ == operation
        &&& self.mean_micros == micros(result.mean_duration as nat)
        &&& self.min_micros == micros(result.min_duration as nat)
        &&& self.max_micros == micros(result.max_duration as nat)
        &&& self.std_dev_micros == result.std_deviation
        &&& self.iterations == result.iterations
    }

    /// The metric is a well-formed one of this operation on this algorithm,
    /// over this many timed invocations.
    pub open spec fn describes(&self, name: Seq<char>, operation: Seq<char>, iterations: nat)
        -> bool {
        &&& self.name@ == name
        &&& self.operation@ == operation
        &&& self.iterations == iterations
        &&& self.well_formed()
    }

    /// What holds of every metric made from a summary of the engine.
    pub open spec fn well_formed(&self) -> bool {
        &&& self.iterations > 0
        &&& self.min_micros <= self.mean_micros <= self.max_micros
        &&& self.std_dev_micros >= 0
        &&& self.extra_info.well_formed()
    }

    /// The metric of `operation` on the algorithm `name`, from the summary of
    /// its run, with no further facts yet.
    pub fn from_result(name: &str, operation: &str, result: &BenchmarkResult) -> (metric:
        BenchmarkMetric)
        ensures
            metric.reports(name@, operation@, *result),
            metric.extra_info@ == Map::<Seq<char>, Seq<char>>::empty(),
            metric.extra_info.well_formed(),
            result.well_formed() ==> metric.well_formed(),
    {
        BenchmarkMetric {
            name: String::from_str(name),
            operation: String::from_str(operation),
            mean_micros: result.mean_duration / NANOS_PER_MICRO,
            min_micros: result.min_duration / NANOS_PER_MICRO,
            max_micros: result.max_duration / NANOS_PER_MICRO,
            std_dev_micros: result.std_deviation,
            iterations: result.iterations,
            extra_info: ExtraInfo::new(),
        }
    }

    /// The same metric with `facts` in place of its further facts.
    pub fn with_facts(self, facts: ExtraInfo) -> (metric: BenchmarkMetric)
        ensures
            metric.extra_info == facts,
            metric.name == self.name,
            metric.operation == self.operation,
            metric.mean_micros == self.mean_micros,
            metric.min_micros == self.min_micros,
            metric.max_micros == self.max_micros,
            metric.std_dev_micros == self.std_dev_micros,
            metric.iterations == self.iterations,
    {
        let mut metric = self;
        metric.extra_info = facts;
        metric
    }

    /// The same metric with one more fact: `value` under `key`.
    pub fn with_info(self, key: &str, value: String) -> (metric: BenchmarkMetric)
        requires
            self.extra_info.well_formed(),
        ensures
            metric.extra_info.well_formed(),
            metric.extra_info@ == self.extra_info@.insert(key@, value@),
            metric.name == self.name,
            metric.operation == self.operation,
            metric.mean_micros == self.mean_micros,
            metric.min_micros == self.min_micros,
            metric.max_micros == self.max_micros,
            metric.std_dev_micros == self.std_dev_micros,
            metric.iterations == self.iterations,
    {
        let mut metric = self;
        metric.extra_info.insert(String::from_str(key), value);
        metric
    }
}

/// The metrics of one benchmark pass, by category and in the order in which
/// the operations ran, with the time that key generation and the whole
/// session took, in microseconds.
#[derive(Debug, Clone)]
pub struct BenchmarkReport {
    pub signatures: Vec<BenchmarkMetric>,
    pub kem: Vec<BenchmarkMetric>,
    pub keygen_time_micros: u128,
    pub total_time_micros: u128,
}

} // verus!
