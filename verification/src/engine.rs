//! The fuzzing engine's driver logic: per-generator counters, the worker's
//! trial step and loop, and the periodic reporting snapshot.
//!
//! A worker draws a target uniformly at random, generates one case, runs
//! its job, and accounts the trial: the total counter always, the failed
//! counter and one failure report exactly when the job reported failures.
//! The counters only ever grow, and the failed count never passes the
//! total. The threads, the channel and the clock around this live outside
//! the library; the logic here is what they drive.

use vstd::prelude::*;
use crate::fuzzer::FuzzerCaseGenerator;
use crate::registry::FuzzerRegistry;
use crate::rng::rand_index;
use vstd::pervasive::VecAdditionalExecFns;

verus! {

/// What a failing trial leaves behind: the generator's name and the
/// serialized input, enough to replay the trial offline.
#[derive(Debug)]
pub struct FailureReport {
    pub fuzzer_name: String,
    pub input: Vec<u8>,
}

/// The sum of a sequence of counters.
pub open spec fn seq_sum(s: Seq<u64>) -> int
    decreases s.len(),
{
    if s.len() == 0 {
        0
    } else {
        seq_sum(s.drop_last()) + s.last()
    }
}

pub proof fn lemma_seq_sum_nonneg(s: Seq<u64>)
    ensures
        seq_sum(s) >= 0,
    decreases s.len(),
{
    if s.len() > 0 {
        lemma_seq_sum_nonneg(s.drop_last());
    }
}

pub proof fn lemma_seq_sum_update(s: Seq<u64>, i: int, v: u64)
    requires
        0 <= i < s.len(),
    ensures
        seq_sum(s.update(i, v)) == seq_sum(s) - s[i] + v,
    decreases s.len(),
{
    if i == s.len() - 1 {
        assert(s.update(i, v).drop_last() =~= s.drop_last());
        assert(s.update(i, v).last() == v);
    } else {
        lemma_seq_sum_update(s.drop_last(), i, v);
        assert(s.update(i, v).drop_last() =~= s.drop_last().update(i, v));
        assert(s.update(i, v).last() == s.last());
    }
}

pub proof fn lemma_elem_le_seq_sum(s: Seq<u64>, i: int)
    requires
        0 <= i < s.len(),
    ensures
        s[i] <= seq_sum(s),
    decreases s.len(),
{
    if i == s.len() - 1 {
        lemma_seq_sum_nonneg(s.drop_last());
    } else {
        lemma_elem_le_seq_sum(s.drop_last(), i);
    }
}

/// How many reports in a batch name a given generator.
pub open spec fn count_of_name(reports: Seq<FailureReport>, name: Seq<char>) -> int
    decreases reports.len(),
{
    if reports.len() == 0 {
        0
    } else {
        count_of_name(reports.drop_last(), name) + if reports.last().fuzzer_name@ == name {
            1int
        } else {
            0int
        }
    }
}

pub proof fn lemma_count_of_name_push(reports: Seq<FailureReport>, rep: FailureReport, name: Seq<char>)
    ensures
        count_of_name(reports.push(rep), name) == count_of_name(reports, name) + if rep.fuzzer_name@
            == name {
            1int
        } else {
            0int
        },
{
    assert(reports.push(rep).drop_last() =~= reports);
    assert(reports.push(rep).last() == rep);
}

/// The per-generator counters: for each registered generator, how many of
/// its trials failed and how many ran in all.
#[derive(Debug)]
pub struct FuzzerCounters {
    pub failed: Vec<u64>,
    pub total: Vec<u64>,
}

impl FuzzerCounters {
    /// Counter soundness: one pair per generator, and the failed count
    /// never passes the total.
    pub open spec fn wf(self) -> bool {
        &&& self.failed@.len() == self.total@.len()
        &&& forall|i: int| 0 <= i < self.failed@.len() ==> self.failed@[i] <= self.total@[i]
    }

    /// Fresh counters for `n` generators, all zero.
    pub fn new(n: usize) -> (r: Self)
        ensures
            r.wf(),
            r.failed@.len() == n,
            r.total@.len() == n,
            forall|i: int| 0 <= i < n ==> r.failed@[i] == 0 && r.total@[i] == 0,
            seq_sum(r.failed@) == 0,
            seq_sum(r.total@) == 0,
    {
        let mut failed: Vec<u64> = Vec::new();
        let mut total: Vec<u64> = Vec::new();
        let mut i: usize = 0;
        while i < n
            invariant
                i <= n,
                failed@.len() == i,
                total@.len() == i,
                forall|k: int| 0 <= k < i ==> failed@[k] == 0 && total@[k] == 0,
                seq_sum(failed@) == 0,
                seq_sum(total@) == 0,
            decreases n - i,
        {
            let ghost pre_failed = failed@;
            let ghost pre_total = total@;
            failed.push(0);
            total.push(0);
            proof {
                assert(failed@.drop_last() =~= pre_failed);
                assert(total@.drop_last() =~= pre_total);
            }
            i = i + 1;
        }
        FuzzerCounters { failed, total }
    }

    /// Account one finished trial of generator `idx`: the total count rises
    /// by one, the failed count exactly when the trial failed, and nothing
    /// ever decreases.
    pub fn record_trial(&mut self, idx: usize, trial_failed: bool)
        requires
            old(self).wf(),
            idx < old(self).total@.len(),
            old(self).total@[idx as int] < u64::MAX,
        ensures
            final(self).wf(),
            final(self).total@ == old(self).total@.update(
                idx as int,
                (old(self).total@[idx as int] + 1) as u64,
            ),
            trial_failed ==> final(self).failed@ == old(self).failed@.update(
                idx as int,
                (old(self).failed@[idx as int] + 1) as u64,
            ),
            !trial_failed ==> final(self).failed@ == old(self).failed@,
            seq_sum(final(self).total@) == seq_sum(old(self).total@) + 1,
            seq_sum(final(self).failed@) == seq_sum(old(self).failed@) + if trial_failed {
                1int
            } else {
                0int
            },
            forall|i: int|
                0 <= i < old(self).failed@.len() ==> old(self).failed@[i] <= final(self).failed@[i] && old(self).total@[i] <= final(self).total@[i],
    {
        if trial_failed {
            let f = self.failed[idx];
            self.failed.set(idx, f + 1);
            proof {
                lemma_seq_sum_update(old(self).failed@, idx as int, (f + 1) as u64);
            }
        }
        let t = self.total[idx];
        self.total.set(idx, t + 1);
        proof {
            lemma_seq_sum_update(old(self).total@, idx as int, (t + 1) as u64);
        }
    }
}

/// How many workers the engine spawns: all available parallel units but
/// one, kept back for the reporting loop, unless only one unit exists.
pub fn worker_count(n_cpus: usize) -> (r: usize)
    requires
        n_cpus >= 1,
    ensures
        n_cpus == 1 ==> r == 1,
        n_cpus > 1 ==> r == n_cpus - 1,
        r >= 1,
{
    if n_cpus == 1 {
        1
    } else {
        n_cpus - 1
    }
}

/// A worker execution context: it owns no state of its own; everything it
/// touches — registry, counters, randomness — is handed to it.
#[derive(Debug)]
pub struct FuzzerWorker {}

impl FuzzerWorker {
    /// One trial: draw a target uniformly, generate a case, run its job,
    /// account the outcome. Exactly the failing trials hand back a report,
    /// and the report names a registered generator.
    pub fn step(
        registry: &FuzzerRegistry,
        counters: &mut FuzzerCounters,
        rng: &mut rand::rngs::StdRng,
    ) -> (r: Option<FailureReport>)
        requires
            registry.entries@.len() > 0,
            old(counters).wf(),
            old(counters).total@.len() == registry.entries@.len(),
            seq_sum(old(counters).total@) < u64::MAX,
        ensures
            final(counters).wf(),
            final(counters).total@.len() == registry.entries@.len(),
            seq_sum(final(counters).total@) == seq_sum(old(counters).total@) + 1,
            seq_sum(final(counters).failed@) == seq_sum(old(counters).failed@) + if r is Some {
                1int
            } else {
                0int
            },
            forall|i: int|
                0 <= i < old(counters).failed@.len() ==> old(counters).failed@[i] <= final(counters).failed@[i] && old(counters).total@[i] <= final(counters).total@[i],
            r matches Some(rep) ==> registry.spec_has_name(rep.fuzzer_name@),
            exists|i: int|
                0 <= i < registry.entries@.len() && #[trigger] final(counters).total@ == old(
                    counters,
                ).total@.update(i, (old(counters).total@[i] + 1) as u64) && (match r {
                    Some(rep) => final(counters).failed@ == old(counters).failed@.update(
                        i,
                        (old(counters).failed@[i] + 1) as u64,
                    ) && rep.fuzzer_name@ == registry.spec_names()[i],
                    None => final(counters).failed@ == old(counters).failed@,
                }),
    {
        let idx = rand_index(rng, 0, registry.entries.len());
        proof {
            lemma_elem_le_seq_sum(old(counters).total@, idx as int);
        }
        let generator = &registry.entries[idx];
        let case = generator.gen_test_case(rng);
        let fuzzer_name = generator.name();
        let input = case.input.serialize();
        match case.test_builder.run_catch() {
            Ok(_) => {
                counters.record_trial(idx, false);
                None
            },
            Err(_) => {
                proof {
                    assert(registry.spec_has_name(registry.entries@[idx as int].spec_name()));
                }
                let report = FailureReport { fuzzer_name, input };
                counters.record_trial(idx, true);
                Some(report)
            },
        }
    }

    /// A bounded worker loop: check the stop flag, then run up to `trials`
    /// trials. A stop flag already set means no trial runs and nothing is
    /// accounted; otherwise every trial is accounted, exactly the failing
    /// ones leave a report, and each generator's failed counter rises by
    /// exactly the number of reports that name it — none duplicated, none
    /// dropped.
    pub fn run_trials(
        registry: &FuzzerRegistry,
        counters: &mut FuzzerCounters,
        rng: &mut rand::rngs::StdRng,
        stop: bool,
        trials: usize,
    ) -> (r: Vec<FailureReport>)
        requires
            registry.wf(),
            registry.entries@.len() > 0,
            old(counters).wf(),
            old(counters).total@.len() == registry.entries@.len(),
            seq_sum(old(counters).total@) + trials <= u64::MAX,
        ensures
            final(counters).wf(),
            final(counters).total@.len() == registry.entries@.len(),
            stop ==> *final(counters) == *old(counters) && r@.len() == 0,
            !stop ==> seq_sum(final(counters).total@) == seq_sum(old(counters).total@) + trials,
            seq_sum(final(counters).failed@) == seq_sum(old(counters).failed@) + r@.len(),
            forall|i: int|
                0 <= i < old(counters).failed@.len() ==> old(counters).failed@[i] <= final(counters).failed@[i] && old(counters).total@[i] <= final(counters).total@[i],
            forall|k: int|
                0 <= k < r@.len() ==> registry.spec_has_name(#[trigger] r@[k].fuzzer_name@),
            forall|i: int|
                0 <= i < registry.entries@.len() ==> #[trigger] final(counters).failed@[i] == old(
                    counters,
                ).failed@[i] + count_of_name(r@, registry.spec_names()[i]),
    {
        let mut reports: Vec<FailureReport> = Vec::new();
        if stop {
            return reports;
        }
        let mut t: usize = 0;
        while t < trials
            invariant
                t <= trials,
                registry.entries@.len() > 0,
                counters.wf(),
                counters.total@.len() == registry.entries@.len(),
                counters.failed@.len() == old(counters).failed@.len(),
                seq_sum(counters.total@) == seq_sum(old(counters).total@) + t,
                seq_sum(old(counters).total@) + trials <= u64::MAX,
                seq_sum(counters.failed@) == seq_sum(old(counters).failed@) + reports@.len(),
                forall|i: int|
                    0 <= i < old(counters).failed@.len() ==> old(counters).failed@[i]
                        <= counters.failed@[i] && old(counters).total@[i] <= counters.total@[i],
                forall|k: int|
                    0 <= k < reports@.len() ==> registry.spec_has_name(
                        #[trigger] reports@[k].fuzzer_name@,
                    ),
                registry.wf(),
                forall|i: int|
                    0 <= i < registry.entries@.len() ==> #[trigger] counters.failed@[i] == old(
                        counters,
                    ).failed@[i] + count_of_name(reports@, registry.spec_names()[i]),
            decreases trials - t,
        {
            let ghost pre_failed = counters.failed@;
            let ghost pre_total = counters.total@;
            let ghost pre_reports = reports@;
            match Self::step(registry, counters, rng) {
                Some(report) => {
                    reports.push(report);
                    proof {
                        let i0 = choose|i: int|
                            0 <= i < registry.entries@.len() && #[trigger] counters.total@
                                == pre_total.update(i, (pre_total[i] + 1) as u64)
                                && counters.failed@ == pre_failed.update(
                                i,
                                (pre_failed[i] + 1) as u64,
                            ) && report.fuzzer_name@ == registry.spec_names()[i];
                        assert(counters.failed@ == pre_failed.update(
                            i0,
                            (pre_failed[i0] + 1) as u64,
                        ));
                        assert(reports@ == pre_reports.push(report));
                        assert forall|i: int| 0 <= i < registry.entries@.len() implies #[trigger] counters.failed@[i]
                            == old(counters).failed@[i] + count_of_name(
                            reports@,
                            registry.spec_names()[i],
                        ) by {
                            lemma_count_of_name_push(pre_reports, report, registry.spec_names()[i]);
                            assert(registry.spec_names()[i] == registry.entries@[i].spec_name());
                            assert(registry.spec_names()[i0] == registry.entries@[i0].spec_name());
                            assert(pre_failed[i] == old(counters).failed@[i] + count_of_name(
                                pre_reports,
                                registry.spec_names()[i],
                            ));
                            if i < i0 {
                                assert(registry.entries@[i].spec_name() != registry.entries@[
                                    i0
                                ].spec_name());
                            } else if i0 < i {
                                assert(registry.entries@[i0].spec_name() != registry.entries@[
                                    i
                                ].spec_name());
                            }
                            if i == i0 {
                                lemma_elem_le_seq_sum(pre_total, i);
                                assert(pre_failed[i] < u64::MAX);
                                assert(counters.failed@[i] == pre_failed[i] + 1);
                                assert(report.fuzzer_name@ == registry.spec_names()[i]);
                                assert(count_of_name(reports@, registry.spec_names()[i])
                                    == count_of_name(pre_reports, registry.spec_names()[i]) + 1);
                            } else {
                                assert(counters.failed@[i] == pre_failed[i]);
                                assert(report.fuzzer_name@ != registry.spec_names()[i]);
                                assert(count_of_name(reports@, registry.spec_names()[i])
                                    == count_of_name(pre_reports, registry.spec_names()[i]));
                            }
                        }
                    }
                },
                None => {},
            }
            t = t + 1;
        }
        reports
    }
}

/// One line of the periodic report: a generator and its counters.
#[derive(Debug)]
pub struct CounterSnapshot {
    pub fuzzer_name: String,
    pub failed: u64,
    pub total: u64,
}

/// The full per-generator snapshot the reporting loop logs each period.
pub fn snapshot(registry: &FuzzerRegistry, counters: &FuzzerCounters) -> (r: Vec<CounterSnapshot>)
    requires
        counters.wf(),
        counters.total@.len() == registry.entries@.len(),
    ensures
        r@.len() == registry.entries@.len(),
        forall|i: int|
            0 <= i < r@.len() ==> (#[trigger] r@[i]).fuzzer_name@ == registry.spec_names()[i]
                && r@[i].failed == counters.failed@[i] && r@[i].total == counters.total@[i],
{
    let n = registry.entries.len();
    let mut out: Vec<CounterSnapshot> = Vec::new();
    let mut i: usize = 0;
    while i < n
        invariant
            i <= n,
            n == registry.entries@.len(),
            counters.wf(),
            counters.total@.len() == n,
            out@.len() == i,
            forall|k: int|
                0 <= k < i ==> (#[trigger] out@[k]).fuzzer_name@ == registry.spec_names()[k]
                    && out@[k].failed == counters.failed@[k] && out@[k].total
                    == counters.total@[k],
        decreases n - i,
    {
        let entry = CounterSnapshot {
            fuzzer_name: registry.entries[i].name(),
            failed: counters.failed[i],
            total: counters.total[i],
        };
        out.push(entry);
        i = i + 1;
    }
    out
}

/// The reporting period boundary that follows `now`: the smallest instant
/// strictly after `now` that lies a whole number of periods after `start`.
/// Sleeping to the boundary rather than for a fixed span keeps the periods
/// from drifting under logging overhead.
pub fn next_period_boundary(start: u64, period: u64, now: u64) -> (r: u64)
    requires
        period > 0,
        start <= now,
        now <= u64::MAX - period,
    ensures
        r > now,
        r - period <= now,
        exists|k: nat| r == start + #[trigger] ((k * period) as int),
{
    let elapsed = now - start;
    let k = elapsed / period + 1;
    proof {
        assert((elapsed / period) * period <= elapsed) by (nonlinear_arith)
            requires
                period > 0,
        ;
        assert(elapsed < (elapsed / period + 1) * period) by (nonlinear_arith)
            requires
                period > 0,
        ;
        assert((elapsed / period + 1) * period == (elapsed / period) * period + period)
            by (nonlinear_arith);
    }
    let r = start + k * period;
    proof {
        let kk = k as nat;
        assert(r == start + ((kk * period) as int));
    }
    r
}

} // verus!
