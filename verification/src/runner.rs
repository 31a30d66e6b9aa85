//! Sequential execution of an action sequence with invariant checks after every step.

use vstd::prelude::*;
use crate::adapter::{ActionResult, ContractAdapter};
use crate::invariants::{
    initial_violations, opt_chars, step_violations, Invariant, InvariantSet, ViolationView,
};
use crate::report::InvariantViolationReport;
use crate::transition::{StepRecord, Trace};

verus! {

/// Configuration options for invariant test runs.
#[derive(Debug, Clone)]
pub struct RunnerConfig {
    /// Maximum actions run per sequence; actions beyond this limit are ignored.
    pub max_steps: Option<usize>,
}

impl Default for RunnerConfig {
    fn default() -> (r: Self)
        ensures
            r.max_steps == Some(250usize),
    {
        Self { max_steps: Some(250) }
    }
}

impl RunnerConfig {
    /// How many of `n` actions a run executes.
    pub open spec fn steps_for(&self, n: nat) -> nat {
        match self.max_steps {
            Some(max) => if n < max {
                n
            } else {
                max as nat
            },
            None => n,
        }
    }

    /// A run executes every action when no limit is set, and otherwise as many as the limit
    /// allows: all of them when fewer, else exactly the limit.
    pub proof fn law_steps_for(&self, n: nat)
        ensures
            self.steps_for(n) <= n,
            self.max_steps is None ==> self.steps_for(n) == n,
            self.max_steps matches Some(m) ==> (n <= m ==> self.steps_for(n) == n) && (m <= n
                ==> self.steps_for(n) == m),
    {
    }

    fn steps_to_run(&self, n: usize) -> (r: usize)
        ensures
            r == self.steps_for(n as nat),
    {
        match self.max_steps {
            Some(max) => if n < max {
                n
            } else {
                max
            },
            None => n,
        }
    }
}

/// The stage at which the adapter failed during a run.
#[derive(Debug, Clone, PartialEq, Eq)]
pub enum RunFailure<E> {
    /// Setting up the environment failed.
    Setup(E),
    /// The snapshot right after setup failed.
    InitialSnapshot(E),
    /// The snapshot before the given step (numbered from 1) failed.
    SnapshotBefore(usize, E),
    /// Executing the given step failed.
    Step(usize, E),
    /// The snapshot after the given step failed.
    SnapshotAfter(usize, E),
}

/// The invariant name, reason and details of a report, as a violation model; where the
/// violation occurred and the trace are stated separately.
pub open spec fn report_view<A: ContractAdapter>(r: InvariantViolationReport<A>) -> ViolationView {
    ViolationView { name: r.invariant_name@, reason: r.reason@, details: opt_chars(r.details) }
}

/// The first `n` steps of `trace` passed every invariant of `invs`, where step `i` applied
/// `actions[i]` and recorded a clone of it; the initial state passed too, and steps are
/// numbered from 1.
pub open spec fn clean_prefix<A: ContractAdapter>(
    invs: Seq<Box<dyn Invariant<A>>>,
    actions: Seq<A::Action>,
    trace: Trace<A>,
    n: int,
) -> bool {
    &&& trace.well_numbered()
    &&& n <= trace.steps@.len()
    &&& n <= actions.len()
    &&& initial_violations(invs, trace.initial_state).len() == 0
    &&& forall|i: int|
        0 <= i < n ==> (#[trigger] step_violations(
            invs,
            trace.steps@[i].state_before,
            trace.steps@[i].state_after,
            actions[i],
            trace.steps@[i].result,
        )).len() == 0 && cloned(actions[i], trace.steps@[i].action)
}

/// What a run that found no violation returned: the trace of exactly the executed steps,
/// all of them clean.
pub open spec fn passed_run<A: ContractAdapter>(
    invs: Seq<Box<dyn Invariant<A>>>,
    actions: Seq<A::Action>,
    n: nat,
    trace: Trace<A>,
) -> bool {
    &&& trace.steps@.len() == n
    &&& clean_prefix(invs, actions, trace, n as int)
}

/// What a run that found a violation returned: the report of the first violation, on the
/// initial state or on the first failing step, with the trace up to that point.
pub open spec fn failed_run<A: ContractAdapter>(
    invs: Seq<Box<dyn Invariant<A>>>,
    actions: Seq<A::Action>,
    n: nat,
    report: InvariantViolationReport<A>,
) -> bool {
    let trace = report.trace;
    match report.failing_step_index {
        None => {
            &&& trace.steps@.len() == 0
            &&& initial_violations(invs, trace.initial_state).len() > 0
            &&& initial_violations(invs, trace.initial_state)[0] == report_view(report)
        },
        Some(k) => {
            let last = trace.steps@[k - 1];
            let vs = step_violations(
                invs,
                last.state_before,
                last.state_after,
                actions[k - 1],
                last.result,
            );
            &&& 1 <= k <= n
            &&& trace.steps@.len() == k
            &&& clean_prefix(invs, actions, trace, k - 1)
            &&& cloned(actions[k - 1], last.action)
            &&& vs.len() > 0
            &&& vs[0] == report_view(report)
        },
    }
}

/// `adapters` are the successive values of the run's adapter: the first, fresh from setup,
/// has executed no action, each next one has executed one more action of `actions`, in
/// order, and the trace records what they observed: its initial state is the first
/// adapter's state, and step `i` was taken from the state of adapter `i` to that of
/// adapter `i + 1`, recording the result adapter `i + 1`'s `step` returned.
pub open spec fn follows_adapters<A: ContractAdapter>(
    actions: Seq<A::Action>,
    trace: Trace<A>,
    adapters: Seq<A>,
) -> bool {
    &&& adapters.len() == trace.steps@.len() + 1
    &&& forall|i: int|
        0 <= i < adapters.len() ==> #[trigger] adapters[i].spec_applied() == actions.take(i)
    &&& trace.initial_state == adapters[0].spec_state()
    &&& adapters[0].spec_results() == Seq::<ActionResult>::empty()
    &&& forall|i: int|
        0 <= i < trace.steps@.len() ==> {
            &&& (#[trigger] trace.steps@[i]).state_before == adapters[i].spec_state()
            &&& trace.steps@[i].state_after == adapters[i + 1].spec_state()
            &&& adapters[i + 1].spec_results() == adapters[i].spec_results().push(
                trace.steps@[i].result,
            )
        }
}

/// Orchestrates state machine execution and invariant validation.
pub struct InvariantRunner<A: ContractAdapter> {
    config: RunnerConfig,
    _marker: core::marker::PhantomData<A>,
}

impl<A: ContractAdapter> Default for InvariantRunner<A> {
    fn default() -> (r: Self)
        ensures
            r.config().max_steps == Some(250usize),
    {
        Self::new(RunnerConfig::default())
    }
}

impl<A: ContractAdapter> InvariantRunner<A> {
    /// The runner's configuration.
    pub closed spec fn config(&self) -> RunnerConfig {
        self.config
    }

    /// A runner with the given configuration.
    pub fn new(config: RunnerConfig) -> (r: Self)
        ensures
            r.config() == config,
    {
        Self { config, _marker: core::marker::PhantomData }
    }

    /// Executes the first `config.max_steps` actions (all of them when unlimited) on a
    /// freshly set-up adapter, checking every invariant after setup and after each step,
    /// and stops at the first violation.
    ///
    /// Returns `Ok(Ok(trace))` when no invariant was violated, `Ok(Err(report))` with the
    /// first violation, and `Err(failure)` when the adapter itself failed. The returned trace
    /// records, for each step, the snapshots taken just before and just after the adapter
    /// executed that step's action.
    pub fn try_run_sequence(&self, actions: &[A::Action], invariants: &InvariantSet<A>) -> (r:
        Result<Result<Trace<A>, InvariantViolationReport<A>>, RunFailure<A::Error>>)
        ensures
            match r {
                Ok(Ok(trace)) => passed_run(
                    invariants@,
                    actions@,
                    self.config().steps_for(actions@.len()),
                    trace,
                ) && (exists|adapters: Seq<A>| #[trigger] follows_adapters(actions@, trace, adapters)),
                Ok(Err(report)) => failed_run(
                    invariants@,
                    actions@,
                    self.config().steps_for(actions@.len()),
                    report,
                ) && (exists|adapters: Seq<A>|
                    #[trigger] follows_adapters(actions@, report.trace, adapters)),
                Err(RunFailure::SnapshotBefore(k, _)) => 1 <= k <= self.config().steps_for(
                    actions@.len(),
                ),
                Err(RunFailure::Step(k, _)) => 1 <= k <= self.config().steps_for(actions@.len()),
                Err(RunFailure::SnapshotAfter(k, _)) => 1 <= k <= self.config().steps_for(
                    actions@.len(),
                ),
                Err(_) => true,
            },
    {
        let mut adapter = match A::setup() {
            Ok(a) => a,
            Err(e) => {
                return Err(RunFailure::Setup(e));
            },
        };
        let initial_state = match adapter.snapshot() {
            Ok(s) => s,
            Err(e) => {
                return Err(RunFailure::InitialSnapshot(e));
            },
        };
        let mut initial = invariants.check_initial(&initial_state);
        if initial.len() > 0 {
            let v = initial.remove(0);
            assert(actions@.take(0) == Seq::<A::Action>::empty());
            let ghost adapters = seq![adapter];
            let report = InvariantViolationReport::new_initial(
                v.invariant_name,
                v.reason,
                v.details,
                initial_state,
            );
            assert(follows_adapters(actions@, report.trace, adapters));
            return Ok(Err(report));
        }
        assert(actions@.take(0) == Seq::<A::Action>::empty());
        let ghost mut adapters = seq![adapter];
        let mut trace = Trace::new(initial_state);
        let n = self.config.steps_to_run(actions.len());
        let mut idx: usize = 0;
        while idx < n
            invariant
                n == self.config().steps_for(actions@.len()),
                n <= actions@.len(),
                idx <= n,
                trace.steps@.len() == idx,
                clean_prefix(invariants@, actions@, trace, idx as int),
                adapter.spec_applied() == actions@.take(idx as int),
                adapters.len() == idx + 1,
                adapters.last() == adapter,
                follows_adapters(actions@, trace, adapters),
            decreases n - idx,
        {
            let action = &actions[idx];
            let before = match adapter.snapshot() {
                Ok(b) => b,
                Err(e) => {
                    return Err(RunFailure::SnapshotBefore(idx + 1, e));
                },
            };
            let step_res = match adapter.step(action) {
                Ok(res) => res,
                Err(e) => {
                    return Err(RunFailure::Step(idx + 1, e));
                },
            };
            let after = match adapter.snapshot() {
                Ok(a) => a,
                Err(e) => {
                    return Err(RunFailure::SnapshotAfter(idx + 1, e));
                },
            };
            assert(adapter.spec_applied() == actions@.take(idx + 1)) by {
                assert(actions@.take(idx + 1) =~= actions@.take(idx as int).push(actions@[idx as int]));
            }
            let ghost prev_adapters = adapters;
            proof {
                adapters = adapters.push(adapter);
            }
            let mut violations = invariants.check_step(&before, &after, action, &step_res);
            let ghost old_steps = trace.steps@;
            trace.add_step(action.clone(), before, after, step_res);
            assert(forall|i: int| 0 <= i < idx ==> trace.steps@[i] == old_steps[i]);
            assert(clean_prefix(invariants@, actions@, trace, idx as int));
            assert(follows_adapters(actions@, trace, adapters)) by {
                assert forall|i: int| 0 <= i < adapters.len() implies #[trigger] adapters[i].spec_applied()
                    == actions@.take(i) by {
                    if i < idx + 1 {
                        assert(adapters[i] == prev_adapters[i]);
                    }
                }
                assert forall|i: int| 0 <= i < trace.steps@.len() implies (
                #[trigger] trace.steps@[i]).state_before == adapters[i].spec_state()
                    && trace.steps@[i].state_after == adapters[i + 1].spec_state() by {
                    if i < idx {
                        assert(trace.steps@[i] == old_steps[i]);
                        assert(adapters[i] == prev_adapters[i]);
                        assert(adapters[i + 1] == prev_adapters[i + 1]);
                    }
                }
            }
            if violations.len() > 0 {
                let v = violations.remove(0);
                return Ok(
                    Err(
                        InvariantViolationReport::new_step(
                            v.invariant_name,
                            v.reason,
                            v.details,
                            idx + 1,
                            trace,
                        ),
                    ),
                );
            }
            assert(step_violations(
                invariants@,
                trace.steps@[idx as int].state_before,
                trace.steps@[idx as int].state_after,
                actions@[idx as int],
                trace.steps@[idx as int].result,
            ).len() == 0);
            assert(cloned(actions@[idx as int], trace.steps@[idx as int].action));
            assert(trace.well_numbered());
            idx = idx + 1;
        }
        Ok(Ok(trace))
    }
}

} // verus!
