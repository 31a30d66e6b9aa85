//! The boundary between the invariant engine and a concrete contract deployment.

use vstd::prelude::*;

verus! {

/// Outcome of executing one action against the contracts under test.
#[derive(Debug, Clone, PartialEq, Eq)]
pub enum ActionResult {
    /// The contract call succeeded.
    Success,
    /// The contract call reverted, with a description of the revert.
    Reverted(String),
}

impl ActionResult {
    /// Whether the action succeeded.
    pub fn is_ok(&self) -> (r: bool)
        ensures
            r == (*self is Success),
    {
        match self {
            ActionResult::Success => true,
            ActionResult::Reverted(_) => false,
        }
    }

    /// Whether the action reverted.
    pub fn is_reverted(&self) -> (r: bool)
        ensures
            r == (*self is Reverted),
    {
        match self {
            ActionResult::Success => false,
            ActionResult::Reverted(_) => true,
        }
    }
}

/// Bridge between abstract fuzzing actions and a concrete contract deployment.
///
/// Implementors set up the environment, execute actions and take state snapshots.
///
/// The contracts of `setup`, `snapshot` and `step` speak of three specification functions: the
/// logs of executed actions and of their results, and the observed state. An implementation verified with Verus
/// defines them to match its code and is checked against them. An implementation written
/// outside Verus keeps the defaults, for which those contracts are false, so what the
/// runner's contract says of the adapter's states and actions does not hold for it.
pub trait ContractAdapter: Sized {
    /// Abstract operation the test engine can perform.
    type Action: Clone;
    /// Snapshot of the observable contract state.
    type State: Clone;
    /// Fatal adapter failure (not a contract revert).
    type Error;

    /// The actions this adapter has executed since setup, in order.
    open spec fn spec_applied(&self) -> Seq<Self::Action> {
        Seq::empty()
    }

    /// The results `step` returned since setup, in order.
    open spec fn spec_results(&self) -> Seq<ActionResult> {
        Seq::empty()
    }

    /// The contract state this adapter currently observes: what `snapshot` returns.
    open spec fn spec_state(&self) -> Self::State {
        arbitrary()
    }

    /// Creates a fresh environment with the contracts deployed.
    fn setup() -> (r: Result<Self, Self::Error>)
        ensures
            r matches Ok(a) ==> a.spec_applied() == Seq::<Self::Action>::empty()
                && a.spec_results() == Seq::<ActionResult>::empty(),
    ;

    /// Takes a snapshot of the current state.
    fn snapshot(&self) -> (r: Result<Self::State, Self::Error>)
        ensures
            r matches Ok(s) ==> s == self.spec_state(),
    ;

    /// Executes one action and reports whether it succeeded or reverted.
    fn step(&mut self, action: &Self::Action) -> (r: Result<ActionResult, Self::Error>)
        ensures
            r is Ok ==> final(self).spec_applied() == old(self).spec_applied().push(*action),
            r matches Ok(res) ==> final(self).spec_results() == old(self).spec_results().push(
                res,
            ),
    ;
}

} // verus!
