use soroban_invariant_kit::{
    streaming_invariant_pack, ActionResult, ClaimableNeverExceedsAccrual, ContractAdapter,
    Invariant, NoClaimAfterCloseOrCancel, StreamSnapshot, StreamStatusKind, StreamingActionKind,
    StreamingAdapter, StreamingBalanceConservation, StreamingMonotonicProgress,
    StreamingStateSnapshot,
};

struct MockStreamingAdapter;

#[derive(Debug, Clone)]
struct MockAction(StreamingActionKind);

#[derive(Debug, Clone)]
struct MockState(StreamingStateSnapshot);

#[derive(Debug)]
struct MockError;

impl ContractAdapter for MockStreamingAdapter {
    type Action = MockAction;
    type State = MockState;
    type Error = MockError;

    fn setup() -> Result<Self, Self::Error> {
        Ok(Self)
    }

    fn snapshot(&self) -> Result<Self::State, Self::Error> {
        Err(MockError)
    }

    fn step(&mut self, _action: &Self::Action) -> Result<ActionResult, Self::Error> {
        Ok(ActionResult::Success)
    }
}

impl StreamingAdapter for MockStreamingAdapter {
    fn inspect_streaming(state: &Self::State) -> StreamingStateSnapshot {
        state.0.clone()
    }

    fn classify_action(action: &Self::Action) -> Option<StreamingActionKind> {
        Some(action.0.clone())
    }
}

fn sample_stream(id: u64) -> StreamSnapshot {
    StreamSnapshot {
        id,
        total: 10_000,
        withdrawn: 2_000,
        remaining: 8_000,
        refunded_sender: 0,
        start_time: 100,
        end_time: 1_100,
        status: StreamStatusKind::Active,
        accrued_vested: 3_000,
    }
}

fn sample_state(streams: Vec<StreamSnapshot>, timestamp: u64) -> MockState {
    let total_deposited = streams.iter().map(|s| s.total).sum();
    let total_withdrawn = streams.iter().map(|s| s.withdrawn).sum();
    let total_refunded = streams.iter().map(|s| s.refunded_sender).sum();
    let total_remaining: i128 = streams.iter().map(|s| s.remaining).sum();

    MockState(StreamingStateSnapshot {
        timestamp,
        streams,
        total_deposited,
        total_withdrawn,
        total_refunded,
        contract_token_balance: Some(total_remaining),
    })
}

#[test]
fn test_claimable_never_exceeds_accrual_passes() {
    let invariant = ClaimableNeverExceedsAccrual;
    let state = sample_state(vec![sample_stream(1)], 400);
    let res = Invariant::<MockStreamingAdapter>::check_state(&invariant, &state);
    assert!(res.is_pass());
}

#[test]
fn test_claimable_never_exceeds_accrual_catches_over_withdrawal() {
    let invariant = ClaimableNeverExceedsAccrual;
    let mut s = sample_stream(1);
    s.withdrawn = 5_000;
    s.accrued_vested = 3_000;
    s.remaining = 5_000;
    let state = sample_state(vec![s], 400);
    let res = Invariant::<MockStreamingAdapter>::check_state(&invariant, &state);
    assert!(res.is_violation());
    assert!(res.reason().unwrap().contains("Over-withdrawal detected"));
}

#[test]
fn test_balance_conservation_passes() {
    let invariant = StreamingBalanceConservation;
    let state = sample_state(vec![sample_stream(1)], 400);
    let res = Invariant::<MockStreamingAdapter>::check_state(&invariant, &state);
    assert!(res.is_pass());
}

#[test]
fn test_balance_conservation_catches_mismatch() {
    let invariant = StreamingBalanceConservation;
    let mut s = sample_stream(1);
    s.remaining = 7_000; // 2_000 + 7_000 != 10_000
    let state = sample_state(vec![s], 400);
    let res = Invariant::<MockStreamingAdapter>::check_state(&invariant, &state);
    assert!(res.is_violation());
    assert!(res.reason().unwrap().contains("Per-stream balance conservation broken"));
}

#[test]
fn test_balance_conservation_catches_insolvency() {
    let invariant = StreamingBalanceConservation;
    let mut s = sample_state(vec![sample_stream(1)], 400);
    s.0.contract_token_balance = Some(5_000); // remaining liabilities are 8_000
    let res = Invariant::<MockStreamingAdapter>::check_state(&invariant, &s);
    assert!(res.is_violation());
    assert!(res.reason().unwrap().contains("token balance insolvency"));
}

#[test]
fn test_no_claim_after_close_or_cancel() {
    let invariant = NoClaimAfterCloseOrCancel;
    let mut s1 = sample_stream(1);
    s1.status = StreamStatusKind::Cancelled;
    s1.remaining = 0;
    s1.refunded_sender = 7_000;
    s1.withdrawn = 3_000;
    let state_before = sample_state(vec![s1.clone()], 500);

    let mut s2 = s1.clone();
    s2.withdrawn = 4_000; // attempted withdrawal after cancellation!
    let state_after = sample_state(vec![s2], 600);

    let action = MockAction(StreamingActionKind::Withdraw { id: 1, amount: 1_000 });
    let res = Invariant::<MockStreamingAdapter>::check_transition(
        &invariant,
        &state_before,
        &state_after,
        &action,
        &ActionResult::Success,
    );
    assert!(res.is_violation());
    assert!(res.reason().unwrap().contains("Post-termination claim detected"));
}

#[test]
fn test_streaming_monotonic_progress() {
    let invariant = StreamingMonotonicProgress;
    let s1 = sample_stream(1); // accrued_vested = 3_000
    let state_before = sample_state(vec![s1], 400);

    let mut s2 = sample_stream(1);
    s2.accrued_vested = 2_500; // decreased!
    let state_after = sample_state(vec![s2], 500);

    let action = MockAction(StreamingActionKind::AdvanceTime { seconds: 100 });
    let res = Invariant::<MockStreamingAdapter>::check_transition(
        &invariant,
        &state_before,
        &state_after,
        &action,
        &ActionResult::Success,
    );
    assert!(res.is_violation());
    assert!(res.reason().unwrap().contains("Monotonicity violation"));
}

#[test]
fn test_streaming_invariant_pack_builder() {
    let pack = streaming_invariant_pack::<MockStreamingAdapter>();
    assert_eq!(pack.len(), 4);
}
