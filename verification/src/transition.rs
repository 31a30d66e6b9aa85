//! Execution traces: the initial snapshot and every step applied after it.

use vstd::prelude::*;
use crate::adapter::{ActionResult, ContractAdapter};

verus! {

/// A single step in an execution trace.
pub struct StepRecord<A: ContractAdapter> {
    pub step_index: usize,
    pub action: A::Action,
    pub state_before: A::State,
    pub state_after: A::State,
    pub result: ActionResult,
}

impl<A: ContractAdapter> Clone for StepRecord<A> {
    fn clone(&self) -> (r: Self)
        ensures
            step_cloned(*self, r),
    {
        Self {
            step_index: self.step_index,
            action: self.action.clone(),
            state_before: self.state_before.clone(),
            state_after: self.state_after.clone(),
            result: self.result.clone(),
        }
    }
}

/// `b` is a clone of the step `a`: same number, and a clone of each recorded value.
pub open spec fn step_cloned<A: ContractAdapter>(a: StepRecord<A>, b: StepRecord<A>) -> bool {
    &&& b.step_index == a.step_index
    &&& cloned(a.action, b.action)
    &&& cloned(a.state_before, b.state_before)
    &&& cloned(a.state_after, b.state_after)
    &&& cloned(a.result, b.result)
}

/// A complete trace of an execution run from setup through sequential steps.
pub struct Trace<A: ContractAdapter> {
    pub initial_state: A::State,
    pub steps: Vec<StepRecord<A>>,
}

impl<A: ContractAdapter> Clone for Trace<A> {
    fn clone(&self) -> (r: Self)
        ensures
            cloned(self.initial_state, r.initial_state),
            r.steps@.len() == self.steps@.len(),
            forall|i: int| 0 <= i < self.steps@.len() ==> step_cloned(self.steps@[i], #[trigger] r.steps@[i]),
    {
        let mut steps: Vec<StepRecord<A>> = Vec::new();
        let mut i: usize = 0;
        while i < self.steps.len()
            invariant
                i <= self.steps@.len(),
                steps@.len() == i,
                forall|j: int| 0 <= j < i ==> step_cloned(self.steps@[j], #[trigger] steps@[j]),
            decreases self.steps@.len() - i,
        {
            steps.push(self.steps[i].clone());
            i = i + 1;
        }
        Self { initial_state: self.initial_state.clone(), steps }
    }
}

impl<A: ContractAdapter> Trace<A> {
    /// Steps are numbered consecutively from 1 in the order they were applied.
    pub open spec fn well_numbered(&self) -> bool {
        forall|i: int| 0 <= i < self.steps@.len() ==> #[trigger] self.steps@[i].step_index == i + 1
    }

    /// A trace with the given initial state and no steps.
    pub fn new(initial_state: A::State) -> (r: Self)
        ensures
            r.initial_state == initial_state,
            r.steps@.len() == 0,
            r.well_numbered(),
    {
        Self { initial_state, steps: Vec::new() }
    }

    /// Appends a step, numbered one past the current number of steps.
    pub fn add_step(
        &mut self,
        action: A::Action,
        state_before: A::State,
        state_after: A::State,
        result: ActionResult,
    )
        requires
            old(self).steps@.len() < usize::MAX,
        ensures
            final(self).initial_state == old(self).initial_state,
            final(self).steps@ == old(self).steps@.push(
                StepRecord {
                    step_index: (old(self).steps@.len() + 1) as usize,
                    action,
                    state_before,
                    state_after,
                    result,
                },
            ),
            old(self).well_numbered() ==> final(self).well_numbered(),
    {
        let step_index = self.steps.len() + 1;
        self.steps.push(StepRecord { step_index, action, state_before, state_after, result });
    }

    /// Number of recorded steps.
    pub fn len(&self) -> (r: usize)
        ensures
            r == self.steps@.len(),
    {
        self.steps.len()
    }

    /// Whether no step was recorded.
    pub fn is_empty(&self) -> (r: bool)
        ensures
            r == (self.steps@.len() == 0),
    {
        self.steps.len() == 0
    }

    /// The most recent step, if any.
    pub fn last_step(&self) -> (r: Option<&StepRecord<A>>)
        ensures
            match r {
                None => self.steps@.len() == 0,
                Some(s) => self.steps@.len() > 0 && *s == self.steps@.last(),
            },
    {
        self.steps.last()
    }
}

} // verus!
