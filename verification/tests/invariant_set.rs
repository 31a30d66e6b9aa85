use soroban_invariant_kit::{
    ActionResult, ContractAdapter, Invariant, InvariantResult, InvariantSet,
};

struct DummyAdapter;

#[derive(Debug, Clone, PartialEq, Eq)]
struct DummyAction;

#[derive(Debug, Clone, PartialEq, Eq)]
struct DummyState(i32);

#[derive(Debug)]
struct DummyError;

impl ContractAdapter for DummyAdapter {
    type Action = DummyAction;
    type State = DummyState;
    type Error = DummyError;

    fn setup() -> Result<Self, Self::Error> {
        Ok(Self)
    }

    fn snapshot(&self) -> Result<Self::State, Self::Error> {
        Ok(DummyState(0))
    }

    fn step(&mut self, _action: &Self::Action) -> Result<ActionResult, Self::Error> {
        Ok(ActionResult::Success)
    }
}

struct NonNegativeInvariant;

impl Invariant<DummyAdapter> for NonNegativeInvariant {
    fn name(&self) -> &'static str {
        "NonNegative"
    }

    fn check_state(&self, state: &DummyState) -> InvariantResult {
        if state.0 >= 0 {
            InvariantResult::Pass
        } else {
            InvariantResult::violation(format!("Negative state: {}", state.0))
        }
    }

    fn check_transition(
        &self,
        _before: &DummyState,
        _after: &DummyState,
        _action: &DummyAction,
        _result: &ActionResult,
    ) -> InvariantResult {
        InvariantResult::Pass
    }
}

#[test]
fn test_invariant_set_evaluation() {
    let set = InvariantSet::<DummyAdapter>::new().with(NonNegativeInvariant);
    assert_eq!(set.len(), 1);
    assert!(!set.is_empty());

    let ok_violations = set.check_initial(&DummyState(10));
    assert!(ok_violations.is_empty());

    let bad_violations = set.check_initial(&DummyState(-5));
    assert_eq!(bad_violations.len(), 1);
    assert_eq!(bad_violations[0].invariant_name, "NonNegative");
    assert!(bad_violations[0].reason.contains("Negative state: -5"));
}
