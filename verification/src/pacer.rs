use crate::clock::{elapsed, elapsed_between, NANOS_PER_SECOND};
use crate::rounding::{div_ceil, lemma_div_ceil_is_least, lemma_div_ceil_of_zero};
use vstd::prelude::*;

verus! {

/// The clock rate of the emulated machine, in cycles per second.
pub const TARGET_CLOCK_HZ: u64 = 6_000_000;

/// The wall-clock time that `cycles` cycles take at `hz` cycles per second,
/// in whole nanoseconds, rounded up.
pub open spec fn cycle_budget_nanos(cycles: nat, hz: nat) -> nat
    recommends
        hz > 0,
{
    div_ceil(cycles * NANOS_PER_SECOND as nat, hz)
}

/// The budget is the least whole number of nanoseconds in which `cycles`
/// cycles fit at `hz` cycles per second: a wait of `waited` nanoseconds
/// covers the cycles exactly when it is no shorter than the budget.
pub proof fn lemma_budget_is_least(cycles: nat, hz: nat, waited: nat)
    requires
        hz > 0,
    ensures
        waited >= cycle_budget_nanos(cycles, hz) <==> waited * hz >= cycles
            * NANOS_PER_SECOND as nat,
{
    lemma_div_ceil_is_least(cycles * NANOS_PER_SECOND as nat, hz, waited);
}

/// No cycles take no time.
pub proof fn lemma_budget_of_nothing(hz: nat)
    requires
        hz > 0,
    ensures
        cycle_budget_nanos(0, hz) == 0,
{
    lemma_div_ceil_of_zero(hz);
}

/// The wall-clock time that `cycles` cycles take at `hz` cycles per second,
/// in whole nanoseconds, rounded up.
pub fn budget_nanos(cycles: u32, hz: u64) -> (nanos: u64)
    requires
        hz > 0,
    ensures
        nanos == cycle_budget_nanos(cycles as nat, hz as nat),
{
    assert(cycles * NANOS_PER_SECOND <= u64::MAX - 1) by (nonlinear_arith)
        requires
            cycles <= u32::MAX,
            NANOS_PER_SECOND == 1_000_000_000,
    ;
    let total: u64 = cycles as u64 * NANOS_PER_SECOND;
    let whole: u64 = total / hz;
    if total % hz == 0 {
        whole
    } else {
        assert(whole <= total) by (nonlinear_arith)
            requires
                whole == total / hz,
                hz > 0,
        ;
        whole + 1
    }
}

/// Whether, at the clock mark `now`, the wall clock has caught up with a step
/// of `cycles` cycles of a machine of `hz` cycles per second that was let go
/// at `last_step`: at least the budget of the step has gone by since then.
pub open spec fn budget_met(last_step: u64, hz: u64, cycles: u32, now: u64) -> bool {
    elapsed_between(last_step, now) >= cycle_budget_nanos(cycles as nat, hz as nat)
}

/// One step of the engine that the pacer has waited out.
pub struct PacedStep {
    /// The cycles that the step took.
    pub cycles: u32,
    /// The clock mark at which the pacer let the loop go on after it.
    pub released: u64,
}

/// The clock mark from which the budget of the step numbered `i` counts: the
/// mark at which the step before it was let go, or `start` for the first.
pub open spec fn mark_before(start: u64, steps: Seq<PacedStep>, i: int) -> u64 {
    if i <= 0 {
        start
    } else {
        steps[i - 1].released
    }
}

/// Whether `steps` is a run that the pacer allows on a clock that does not
/// run backwards: each step was let go only once its budget was met.
pub open spec fn paced(start: u64, hz: u64, steps: Seq<PacedStep>) -> bool {
    forall|i: int|
        #![trigger steps[i]]
        0 <= i < steps.len() ==> {
            &&& mark_before(start, steps, i) <= steps[i].released
            &&& budget_met(mark_before(start, steps, i), hz, steps[i].cycles, steps[i].released)
        }
}

/// The cycles of all `steps` together.
pub open spec fn cycles_of(steps: Seq<PacedStep>) -> nat
    decreases steps.len(),
{
    if steps.len() == 0 {
        0
    } else {
        cycles_of(steps.drop_last()) + steps.last().cycles as nat
    }
}

/// A paced machine never runs ahead of the wall clock: over any run that the
/// pacer allows, the cycles taken are no more than the emulated clock rate
/// yields in the wall-clock time that went by.
pub proof fn lemma_never_ahead_of_the_clock(start: u64, hz: u64, steps: Seq<PacedStep>)
    requires
        hz > 0,
        paced(start, hz, steps),
    ensures
        start <= mark_before(start, steps, steps.len() as int),
        cycles_of(steps) * NANOS_PER_SECOND <= (mark_before(start, steps, steps.len() as int)
            - start) * hz,
    decreases steps.len(),
{
    if steps.len() > 0 {
        let earlier = steps.drop_last();
        let last = steps.last();
        assert(paced(start, hz, earlier)) by {
            assert forall|i: int| 0 <= i < earlier.len() implies {
                &&& mark_before(start, earlier, i) <= (#[trigger] earlier[i]).released
                &&& budget_met(
                    mark_before(start, earlier, i),
                    hz,
                    earlier[i].cycles,
                    earlier[i].released,
                )
            } by {
                assert(earlier[i] == steps[i]);
            }
        }
        lemma_never_ahead_of_the_clock(start, hz, earlier);
        let before = mark_before(start, steps, steps.len() - 1);
        let gone = before - start;
        let waited = (last.released - before) as nat;
        lemma_budget_is_least(last.cycles as nat, hz as nat, waited);
        assert((last.released - start) * hz == gone * hz + waited * hz) by (nonlinear_arith)
            requires
                last.released - start == gone + waited,
        ;
        assert((cycles_of(earlier) + last.cycles as nat) * NANOS_PER_SECOND == cycles_of(earlier)
            * NANOS_PER_SECOND + last.cycles as nat * NANOS_PER_SECOND) by (nonlinear_arith);
    }
}

/// Holds the loop back after each step of the engine until the wall clock has
/// caught up with the cycles that the step took.
#[derive(Debug)]
pub struct CyclePacer {
    target_hz: u64,
    last_step: u64,
}

impl CyclePacer {
    #[verifier::type_invariant]
    spec fn clock_runs(self) -> bool {
        self.target_hz > 0
    }

    /// The emulated clock rate, in cycles per second.
    pub closed spec fn spec_target_hz(&self) -> u64 {
        self.target_hz
    }

    /// The clock mark at which the pacer last let the loop go on.
    pub closed spec fn spec_last_step(&self) -> u64 {
        self.last_step
    }

    /// Whether, at `now`, the wall clock has caught up with a step of
    /// `cycles` cycles: at least their budget has gone by since the pacer
    /// last let the loop go on.
    pub open spec fn caught_up(&self, cycles: u32, now: u64) -> bool {
        budget_met(self.last_step(), self.target_hz(), cycles, now)
    }

    /// A pacer for a machine of `target_hz` cycles per second, which counts
    /// its first budget from `now`.
    pub fn new(target_hz: u64, now: u64) -> (pacer: CyclePacer)
        requires
            target_hz > 0,
        ensures
            pacer.target_hz() == target_hz,
            pacer.last_step() == now,
    {
        CyclePacer { target_hz, last_step: now }
    }

    /// The emulated clock rate, in cycles per second.
    #[verifier::when_used_as_spec(spec_target_hz)]
    pub fn target_hz(&self) -> (hz: u64)
        ensures
            hz == self.target_hz(),
            hz > 0,
    {
        proof {
            use_type_invariant(self);
        }
        self.target_hz
    }

    /// The clock mark at which the pacer last let the loop go on.
    #[verifier::when_used_as_spec(spec_last_step)]
    pub fn last_step(&self) -> (mark: u64)
        ensures
            mark == self.last_step(),
    {
        self.last_step
    }

    /// The wall-clock time that a step of `cycles` cycles has to take, in
    /// nanoseconds.
    pub fn budget(&self, cycles: u32) -> (nanos: u64)
        ensures
            nanos == cycle_budget_nanos(cycles as nat, self.target_hz() as nat),
    {
        proof {
            use_type_invariant(self);
        }
        budget_nanos(cycles, self.target_hz)
    }

    /// One look at the clock while waiting out a step of `cycles` cycles.
    ///
    /// Where the wall clock has caught up the answer is `true` and the next
    /// budget counts from `now`; where it has not the answer is `false`,
    /// nothing changes, and the caller looks again.
    pub fn poll(&mut self, cycles: u32, now: u64) -> (released: bool)
        ensures
            released == old(self).caught_up(cycles, now),
            final(self).target_hz() == old(self).target_hz(),
            final(self).last_step() == if released {
                now
            } else {
                old(self).last_step()
            },
            released <==> elapsed_between(old(self).last_step(), now) * old(self).target_hz()
                >= cycles * NANOS_PER_SECOND,
            cycles == 0 ==> released,
    {
        proof {
            use_type_invariant(&*self);
            lemma_budget_of_nothing(self.target_hz as nat);
            lemma_budget_is_least(
                cycles as nat,
                self.target_hz as nat,
                elapsed_between(self.last_step, now),
            );
        }
        if elapsed(self.last_step, now) >= budget_nanos(cycles, self.target_hz) {
            self.last_step = now;
            true
        } else {
            false
        }
    }
}

} // verus!
