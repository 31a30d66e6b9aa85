use soroban_invariant_kit::{
    ActionResult, ContractAdapter, Invariant, InvariantResult, InvariantRunner,
    InvariantSet, InvariantViolationReport, KitError, RunFailure, RunnerConfig, StepText, Trace,
};

#[derive(Debug, Clone, PartialEq, Eq)]
enum CounterAction {
    Increment { amount: u32 },
    Decrement { amount: u32 },
    Reset,
    Crash,
}

#[derive(Debug, Clone, PartialEq, Eq)]
struct CounterState {
    value: i64,
}

#[derive(Debug, PartialEq, Eq)]
struct CounterError(String);

struct CounterAdapter {
    value: i64,
}

impl ContractAdapter for CounterAdapter {
    type Action = CounterAction;
    type State = CounterState;
    type Error = CounterError;

    fn setup() -> Result<Self, Self::Error> {
        Ok(CounterAdapter { value: 0 })
    }

    fn snapshot(&self) -> Result<Self::State, Self::Error> {
        Ok(CounterState { value: self.value })
    }

    fn step(&mut self, action: &Self::Action) -> Result<ActionResult, Self::Error> {
        match action {
            CounterAction::Increment { amount } => {
                self.value += *amount as i64;
                Ok(ActionResult::Success)
            }
            CounterAction::Decrement { amount } => {
                let a = *amount as i64;
                if self.value >= a {
                    self.value -= a;
                } else {
                    self.value = 0;
                }
                Ok(ActionResult::Success)
            }
            CounterAction::Reset => {
                self.value = 0;
                Ok(ActionResult::Success)
            }
            CounterAction::Crash => Err(CounterError("host failure".to_string())),
        }
    }
}

struct CounterMustStaySmall;

impl Invariant<CounterAdapter> for CounterMustStaySmall {
    fn name(&self) -> &'static str {
        "CounterMustStaySmall"
    }

    fn check_state(&self, state: &CounterState) -> InvariantResult {
        if state.value <= 10 {
            InvariantResult::Pass
        } else {
            InvariantResult::violation(format!("Counter exceeded 10: value is {}", state.value))
        }
    }

    fn check_transition(
        &self,
        _before: &CounterState,
        _after: &CounterState,
        _action: &CounterAction,
        _result: &ActionResult,
    ) -> InvariantResult {
        InvariantResult::Pass
    }
}

struct ResetSetsToZero;

impl Invariant<CounterAdapter> for ResetSetsToZero {
    fn name(&self) -> &'static str {
        "ResetSetsToZero"
    }

    fn check_state(&self, _state: &CounterState) -> InvariantResult {
        InvariantResult::Pass
    }

    fn check_transition(
        &self,
        _before: &CounterState,
        after: &CounterState,
        action: &CounterAction,
        result: &ActionResult,
    ) -> InvariantResult {
        if result.is_ok() && *action == CounterAction::Reset && after.value != 0 {
            InvariantResult::violation_with_details("Reset did not set counter to 0", format!("value {}", after.value))
        } else {
            InvariantResult::Pass
        }
    }
}

struct CounterMustStartAt999;

impl Invariant<CounterAdapter> for CounterMustStartAt999 {
    fn name(&self) -> &'static str {
        "CounterMustStartAt999"
    }

    fn check_state(&self, state: &CounterState) -> InvariantResult {
        if state.value == 999 {
            InvariantResult::Pass
        } else {
            InvariantResult::violation(format!("Expected initial 999, got {}", state.value))
        }
    }

    fn check_transition(
        &self,
        _before: &CounterState,
        _after: &CounterState,
        _action: &CounterAction,
        _result: &ActionResult,
    ) -> InvariantResult {
        InvariantResult::Pass
    }
}

#[test]
fn runner_stops_at_first_violating_step() {
    let runner = InvariantRunner::<CounterAdapter>::default();
    let invariants = InvariantSet::new().with(CounterMustStaySmall);
    let actions = vec![
        CounterAction::Increment { amount: 5 },
        CounterAction::Increment { amount: 10 },
        CounterAction::Reset,
    ];
    let report = match runner.try_run_sequence(&actions, &invariants) {
        Ok(Err(report)) => report,
        _ => panic!("expected a violation report"),
    };
    assert_eq!(report.invariant_name, "CounterMustStaySmall");
    assert_eq!(report.failing_step_index, Some(2));
    assert_eq!(report.reason, "Counter exceeded 10: value is 15");
    assert_eq!(report.details, None);
    assert_eq!(report.trace.len(), 2);
    assert_eq!(report.trace.initial_state, CounterState { value: 0 });
    let last = report.trace.last_step().unwrap();
    assert_eq!(last.step_index, 2);
    assert_eq!(last.action, CounterAction::Increment { amount: 10 });
    assert_eq!(last.state_before, CounterState { value: 5 });
    assert_eq!(last.state_after, CounterState { value: 15 });
    assert_eq!(last.result, ActionResult::Success);
}

#[test]
fn runner_reports_initial_state_violation() {
    let runner = InvariantRunner::<CounterAdapter>::default();
    let invariants = InvariantSet::new().with(CounterMustStaySmall).with(CounterMustStartAt999);
    let actions = vec![CounterAction::Increment { amount: 1 }];
    let report = match runner.try_run_sequence(&actions, &invariants) {
        Ok(Err(report)) => report,
        _ => panic!("expected a violation report"),
    };
    assert_eq!(report.invariant_name, "CounterMustStartAt999");
    assert_eq!(report.reason, "Expected initial 999, got 0");
    assert_eq!(report.failing_step_index, None);
    assert!(report.trace.is_empty());
}

#[test]
fn runner_respects_max_steps() {
    let runner = InvariantRunner::<CounterAdapter>::new(RunnerConfig { max_steps: Some(2) });
    let invariants = InvariantSet::new().with(CounterMustStaySmall).with(ResetSetsToZero);
    let actions = vec![
        CounterAction::Increment { amount: 3 },
        CounterAction::Decrement { amount: 7 },
        CounterAction::Increment { amount: 50 },
    ];
    let trace = match runner.try_run_sequence(&actions, &invariants) {
        Ok(Ok(trace)) => trace,
        _ => panic!("expected a clean run"),
    };
    assert_eq!(trace.len(), 2);
    assert_eq!(trace.steps[1].state_after, CounterState { value: 0 });

    let unlimited = InvariantRunner::<CounterAdapter>::new(RunnerConfig { max_steps: None });
    match unlimited.try_run_sequence(&actions, &invariants) {
        Ok(Err(report)) => assert_eq!(report.failing_step_index, Some(3)),
        _ => panic!("expected a violation at step 3"),
    }
}

#[test]
fn runner_default_config_limits_to_250_steps() {
    assert_eq!(RunnerConfig::default().max_steps, Some(250));
    let runner = InvariantRunner::<CounterAdapter>::default();
    let invariants = InvariantSet::new().with(ResetSetsToZero);
    let actions = vec![CounterAction::Reset; 300];
    match runner.try_run_sequence(&actions, &invariants) {
        Ok(Ok(trace)) => {
            assert_eq!(trace.len(), 250);
            assert_eq!(trace.steps[249].step_index, 250);
        }
        _ => panic!("expected a clean run"),
    }
}

#[test]
fn runner_reports_adapter_failure_stage() {
    let runner = InvariantRunner::<CounterAdapter>::default();
    let invariants = InvariantSet::new().with(CounterMustStaySmall);
    let actions = vec![CounterAction::Reset, CounterAction::Crash];
    match runner.try_run_sequence(&actions, &invariants) {
        Err(RunFailure::Step(2, CounterError(m))) => assert_eq!(m, "host failure"),
        _ => panic!("expected a step failure"),
    }
}

#[test]
fn empty_action_sequence_yields_initial_trace() {
    let runner = InvariantRunner::<CounterAdapter>::default();
    let invariants: InvariantSet<CounterAdapter> = InvariantSet::default();
    assert!(invariants.is_empty());
    match runner.try_run_sequence(&[], &invariants) {
        Ok(Ok(trace)) => {
            assert!(trace.is_empty());
            assert_eq!(trace.initial_state, CounterState { value: 0 });
        }
        _ => panic!("expected a clean run"),
    }
}

#[test]
fn check_reports_state_violation_before_transition() {
    let inv = CounterMustStaySmall;
    let before = CounterState { value: 1 };
    let after = CounterState { value: 11 };
    let r = inv.check(&before, &after, &CounterAction::Reset, &ActionResult::Success);
    assert_eq!(r.reason().unwrap(), "Counter exceeded 10: value is 11");
    let reset = ResetSetsToZero;
    let r2 = reset.check(&before, &after, &CounterAction::Reset, &ActionResult::Success);
    assert_eq!(
        r2,
        InvariantResult::Violation {
            reason: "Reset did not set counter to 0".to_string(),
            details: Some("value 11".to_string()),
        }
    );
    let r3 = reset.check(&before, &after, &CounterAction::Reset, &ActionResult::Reverted("x".to_string()));
    assert!(r3.is_pass());
}

#[test]
fn check_step_collects_violations_in_registration_order() {
    let mut set = InvariantSet::<CounterAdapter>::new();
    set.add(ResetSetsToZero).add(CounterMustStaySmall);
    assert_eq!(set.len(), 2);
    assert_eq!(set.iter().count(), 2);
    let names: Vec<&str> = set.iter().map(|i| i.name()).collect();
    assert_eq!(names, vec!["ResetSetsToZero", "CounterMustStaySmall"]);
    let before = CounterState { value: 3 };
    let after = CounterState { value: 12 };
    let vs = set.check_step(&before, &after, &CounterAction::Reset, &ActionResult::Success);
    assert_eq!(vs.len(), 2);
    assert_eq!(vs[0].invariant_name, "ResetSetsToZero");
    assert_eq!(vs[0].details.as_deref(), Some("value 12"));
    assert_eq!(vs[1].invariant_name, "CounterMustStaySmall");
    let ok = set.check_step(&before, &CounterState { value: 0 }, &CounterAction::Reset, &ActionResult::Success);
    assert!(ok.is_empty());
}

#[test]
fn trace_numbers_steps_from_one() {
    let mut trace = Trace::<CounterAdapter>::new(CounterState { value: 0 });
    assert!(trace.is_empty());
    assert!(trace.last_step().is_none());
    trace.add_step(CounterAction::Reset, CounterState { value: 0 }, CounterState { value: 0 }, ActionResult::Success);
    trace.add_step(
        CounterAction::Increment { amount: 2 },
        CounterState { value: 0 },
        CounterState { value: 2 },
        ActionResult::Reverted("NotFunded".to_string()),
    );
    assert_eq!(trace.len(), 2);
    assert_eq!(trace.steps[0].step_index, 1);
    assert_eq!(trace.steps[1].step_index, 2);
    assert!(trace.last_step().unwrap().result.is_reverted());
    let copy = trace.clone();
    assert_eq!(copy.len(), 2);
    assert_eq!(copy.steps[1].state_after, CounterState { value: 2 });
}

#[test]
fn report_constructors_record_failure_position() {
    let initial = InvariantViolationReport::<CounterAdapter>::new_initial(
        "Inv",
        "bad start".to_string(),
        None,
        CounterState { value: 4 },
    );
    assert_eq!(initial.failing_step_index, None);
    assert!(initial.trace.is_empty());
    assert_eq!(initial.trace.initial_state, CounterState { value: 4 });
    let mut trace = Trace::<CounterAdapter>::new(CounterState { value: 0 });
    trace.add_step(CounterAction::Reset, CounterState { value: 0 }, CounterState { value: 0 }, ActionResult::Success);
    let step = InvariantViolationReport::new_step("Inv", "bad step".to_string(), Some("d".to_string()), 1, trace);
    assert_eq!(step.failing_step_index, Some(1));
    assert_eq!(step.trace.len(), 1);
    let copy = step.clone();
    assert_eq!(copy.invariant_name, "Inv");
    assert_eq!(copy.details, Some("d".to_string()));
}

#[test]
fn action_result_predicates() {
    assert!(ActionResult::Success.is_ok());
    assert!(!ActionResult::Success.is_reverted());
    let r = ActionResult::Reverted("NotFunded".to_string());
    assert!(r.is_reverted());
    assert!(!r.is_ok());
}

#[test]
fn invariant_result_accessors() {
    assert!(InvariantResult::Pass.is_pass());
    assert!(InvariantResult::Pass.reason().is_none());
    let v = InvariantResult::violation("boom".to_string());
    assert!(v.is_violation());
    assert_eq!(v.reason().unwrap(), "boom");
}

#[test]
fn kit_error_messages() {
    assert_eq!(KitError::SetupFailed("x".to_string()).message(), "Adapter setup failed: x");
    assert_eq!(
        KitError::SnapshotFailed("y".to_string()).message(),
        "Adapter state snapshot extraction failed: y"
    );
    assert_eq!(KitError::ExecutionFailed("z".to_string()).message(), "Adapter execution failed fatally: z");
    assert_eq!(KitError::InvariantError("w".to_string()).message(), "Invariant check error: w");
}

#[test]
fn report_renders_heading_failure_position_and_steps() {
    let mut trace = Trace::<CounterAdapter>::new(CounterState { value: 0 });
    trace.add_step(
        CounterAction::Increment { amount: 12 },
        CounterState { value: 0 },
        CounterState { value: 12 },
        ActionResult::Success,
    );
    let report = InvariantViolationReport::new_step(
        "CounterMustStaySmall",
        "Counter exceeded 10: value is 12".to_string(),
        Some("limit 10".to_string()),
        1,
        trace,
    );
    let steps = vec![StepText {
        action: format!("{:?}", report.trace.steps[0].action),
        result: "Ok".to_string(),
        state_before: format!("{:?}", report.trace.steps[0].state_before),
        state_after: format!("{:?}", report.trace.steps[0].state_after),
    }];
    let text = report.render(&format!("{:?}", report.trace.initial_state), &steps);
    let rule = "============================================================";
    let expected = format!(
        "\n{rule}\n  INVARIANT VIOLATION: CounterMustStaySmall\n{rule}\n\
         Reason: Counter exceeded 10: value is 12\n\
         Details: limit 10\n\
         Failed at step: #1\n\
         ------------------------------------------------------------\n\
         Trace (Total steps: 1):\n\
         \x20 [Step 0 - Initial] State: CounterState {{ value: 0 }}\n\
         \x20 [Step 1] Action: Increment {{ amount: 12 }} => Result: Ok\n\
         \x20          State Before: CounterState {{ value: 0 }}\n\
         \x20          State After:  CounterState {{ value: 12 }}\n\
         {rule}\n\n"
    );
    assert_eq!(text, expected);

    let initial = InvariantViolationReport::<CounterAdapter>::new_initial(
        "CounterMustStartAt999",
        "Counter starts at 0".to_string(),
        None,
        CounterState { value: 0 },
    );
    let text = initial.render("start", &Vec::new());
    let expected = format!(
        "\n{rule}\n  INVARIANT VIOLATION: CounterMustStartAt999\n{rule}\n\
         Reason: Counter starts at 0\n\
         Failed at: Initial State (prior to actions)\n\
         ------------------------------------------------------------\n\
         Trace (Total steps: 0):\n\
         \x20 [Step 0 - Initial] State: start\n\
         {rule}\n\n"
    );
    assert_eq!(text, expected);
}

#[test]
fn violation_constructors_keep_slice_texts() {
    let v = InvariantResult::violation("Negative state: -5");
    assert_eq!(v, InvariantResult::Violation { reason: String::from("Negative state: -5"), details: None });
    let d = InvariantResult::violation_with_details("r", "d");
    assert_eq!(
        d,
        InvariantResult::Violation { reason: String::from("r"), details: Some(String::from("d")) }
    );
}
