use crate::clock::{elapsed, elapsed_between, NANOS_PER_SECOND};
use crate::rounding::{div_ceil, lemma_div_ceil_bounded, lemma_div_ceil_is_least};
use vstd::prelude::*;

verus! {

/// The running time that the benchmark's workload stands for, in seconds of
/// the emulated machine at its own clock rate.
pub const BENCH_NOMINAL_SECONDS: u64 = 20;

/// The sum of two counts, held at the largest count where it would pass it.
pub open spec fn capped_sum(a: u64, b: u64) -> u64 {
    if a + b > u64::MAX {
        u64::MAX
    } else {
        (a + b) as u64
    }
}

/// The cycles that a machine of `hz` cycles per second runs through in
/// `seconds` seconds, or `None` where that count is beyond a `u64`.
pub fn nominal_cycles(seconds: u64, hz: u64) -> (cycles: Option<u64>)
    ensures
        match cycles {
            Some(count) => count == seconds * hz,
            None => seconds * hz > u64::MAX,
        },
{
    seconds.checked_mul(hz)
}

/// The progress of one benchmark: the engine is stepped, unpaced, until the
/// cycles it reports add up to the target.
#[derive(Clone, Copy, Debug, PartialEq, Eq, Structural)]
pub struct BenchmarkRun {
    /// The cycles to reach.
    pub target: u64,
    /// The cycles that the steps so far have reported, all told.
    pub total: u64,
    /// The steps taken so far.
    pub calls: u64,
}

impl BenchmarkRun {
    /// Whether the run has reached its target.
    pub open spec fn complete(&self) -> bool {
        self.total >= self.target
    }

    /// The run after the engine has been asked for one more step, which
    /// reported `cycles`. A run that has reached its target takes no further
    /// step.
    pub open spec fn after_step(self, cycles: u32) -> BenchmarkRun {
        if self.complete() {
            self
        } else {
            BenchmarkRun {
                target: self.target,
                total: capped_sum(self.total, cycles as u64),
                calls: capped_sum(self.calls, 1),
            }
        }
    }

    /// The run after steps that reported `cycles` each, `steps` times over.
    pub open spec fn after_even_steps(self, cycles: u32, steps: nat) -> BenchmarkRun
        decreases steps,
    {
        if steps == 0 {
            self
        } else {
            self.after_even_steps(cycles, (steps - 1) as nat).after_step(cycles)
        }
    }

    /// With an engine that reports the same `cycles` for every step, a run
    /// from nothing takes the least number of steps that reaches the target
    /// and no step after that: `target / cycles`, rounded up. Its total is
    /// what those steps reported (held at the largest count), and it is
    /// complete from that step on and never before.
    pub proof fn lemma_even_steps(target: u64, cycles: u32, steps: nat)
        requires
            cycles > 0,
        ensures
            ({
                let run = (BenchmarkRun { target, total: 0, calls: 0 }).after_even_steps(
                    cycles,
                    steps,
                );
                let needed = div_ceil(target as nat, cycles as nat);
                &&& run.target == target
                &&& run.calls == if steps <= needed {
                    steps
                } else {
                    needed
                }
                &&& run.total == if run.calls * cycles > u64::MAX {
                    u64::MAX as int
                } else {
                    run.calls * cycles
                }
                &&& run.complete() <==> steps >= needed
            }),
        decreases steps,
    {
        lemma_div_ceil_bounded(target as nat, cycles as nat);
        lemma_div_ceil_is_least(target as nat, cycles as nat, steps);
        if steps == 0 {
            assert(0 * cycles == 0);
        } else {
            Self::lemma_even_steps(target, cycles, (steps - 1) as nat);
            lemma_div_ceil_is_least(target as nat, cycles as nat, (steps - 1) as nat);
            assert(steps * cycles == (steps - 1) * cycles + cycles) by (nonlinear_arith);
        }
    }

    /// A run towards `target` cycles, before its first step.
    pub fn new(target: u64) -> (run: BenchmarkRun)
        ensures
            run == (BenchmarkRun { target, total: 0, calls: 0 }),
    {
        BenchmarkRun { target, total: 0, calls: 0 }
    }

    /// Whether the run has reached its target.
    pub fn is_complete(&self) -> (done: bool)
        ensures
            done == self.complete(),
    {
        self.total >= self.target
    }

    /// Takes in the cycles that one step of the engine reported, and says
    /// whether the run is now complete. The engine chooses how much a step
    /// does, so the total may pass the target, by less than the last step.
    pub fn record_step(&mut self, cycles: u32) -> (done: bool)
        ensures
            *final(self) == old(self).after_step(cycles),
            done == final(self).complete(),
            !old(self).complete() ==> final(self).total - cycles <= old(self).total < old(
                self,
            ).target,
    {
        if self.total < self.target {
            self.total = self.total.saturating_add(cycles as u64);
            self.calls = self.calls.saturating_add(1);
        }
        self.total >= self.target
    }

    /// The report of the run as it stands, for a clock that read `started`
    /// before the first step and `now` after the last.
    pub fn report(&self, started: u64, now: u64) -> (report: BenchmarkReport)
        ensures
            report.elapsed_nanos == elapsed_between(started, now),
            report.total_cycles == self.total,
            report.target_cycles == self.target,
            report.calls == self.calls,
    {
        BenchmarkReport {
            elapsed_nanos: elapsed(started, now),
            total_cycles: self.total,
            target_cycles: self.target,
            calls: self.calls,
        }
    }
}

/// What a benchmark found.
#[derive(Clone, Copy, Debug, PartialEq, Eq, Structural)]
pub struct BenchmarkReport {
    /// The wall-clock time that the run took, in nanoseconds.
    pub elapsed_nanos: u64,
    /// The cycles that the engine ran through.
    pub total_cycles: u64,
    /// The cycles that were asked for.
    pub target_cycles: u64,
    /// The steps that the engine took.
    pub calls: u64,
}

impl BenchmarkReport {
    /// The cycles per second that the engine sustained, rounded down; not
    /// defined for a run that took no measurable time.
    pub open spec fn throughput(&self) -> Option<nat> {
        if self.elapsed_nanos == 0 {
            None
        } else {
            Some((self.total_cycles * NANOS_PER_SECOND / self.elapsed_nanos as int) as nat)
        }
    }

    /// How many times faster than a machine that takes `nominal_seconds` for
    /// the run the engine was, in thousandths and rounded down; not defined
    /// for a run that took no measurable time.
    pub open spec fn speed_in_thousandths(&self, nominal_seconds: u64) -> Option<nat> {
        if self.elapsed_nanos == 0 {
            None
        } else {
            Some(
                (nominal_seconds * NANOS_PER_SECOND * 1000 / self.elapsed_nanos as int) as nat,
            )
        }
    }

    /// The cycles per second that the engine sustained, rounded down, or
    /// `None` for a run that took no measurable time.
    pub fn cycles_per_second(&self) -> (rate: Option<u128>)
        ensures
            match rate {
                Some(cycles) => self.throughput() == Some(cycles as nat),
                None => self.throughput().is_none(),
            },
    {
        if self.elapsed_nanos == 0 {
            None
        } else {
            assert(self.total_cycles * NANOS_PER_SECOND <= u128::MAX) by (nonlinear_arith)
                requires
                    self.total_cycles <= u64::MAX,
                    NANOS_PER_SECOND == 1_000_000_000,
            ;
            let scaled: u128 = self.total_cycles as u128 * NANOS_PER_SECOND as u128;
            Some(scaled / self.elapsed_nanos as u128)
        }
    }

    /// How many times faster than real time the engine was, in thousandths
    /// and rounded down, where real time for the run is `nominal_seconds`;
    /// `None` for a run that took no measurable time.
    pub fn speed_ratio(&self, nominal_seconds: u64) -> (thousandths: Option<u128>)
        ensures
            match thousandths {
                Some(ratio) => self.speed_in_thousandths(nominal_seconds) == Some(ratio as nat),
                None => self.speed_in_thousandths(nominal_seconds).is_none(),
            },
    {
        if self.elapsed_nanos == 0 {
            None
        } else {
            assert(nominal_seconds * NANOS_PER_SECOND * 1000 <= u128::MAX) by (nonlinear_arith)
                requires
                    nominal_seconds <= u64::MAX,
                    NANOS_PER_SECOND == 1_000_000_000,
            ;
            let scaled: u128 = nominal_seconds as u128 * NANOS_PER_SECOND as u128 * 1000;
            Some(scaled / self.elapsed_nanos as u128)
        }
    }
}

} // verus!
