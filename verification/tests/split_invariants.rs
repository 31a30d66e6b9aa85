use soroban_invariant_kit::{
    split_invariant_pack, ActionResult, ContractAdapter, Invariant, NoDuplicatePayout,
    RecipientShareSnapshot, ShareSumConservation, SplitActionKind, SplitAdapter,
    SplitBatchSnapshot, SplitPayoutConservation, SplitSolvency, SplitStateSnapshot,
};

struct MockSplitAdapter;

#[derive(Debug, Clone)]
struct MockAction(SplitActionKind);

#[derive(Debug, Clone)]
struct MockState(SplitStateSnapshot);

#[derive(Debug)]
struct MockError;

impl ContractAdapter for MockSplitAdapter {
    type Action = MockAction;
    type State = MockState;
    type Error = MockError;

    fn setup() -> Result<Self, Self::Error> {
        Ok(Self)
    }

    fn snapshot(&self) -> Result<Self::State, Self::Error> {
        Err(MockError)
    }

    fn step(&mut self, _action: &Self::Action) -> Result<ActionResult, Self::Error> {
        Ok(ActionResult::Success)
    }
}

impl SplitAdapter for MockSplitAdapter {
    fn inspect_split(state: &Self::State) -> SplitStateSnapshot {
        state.0.clone()
    }

    fn classify_action(action: &Self::Action) -> Option<SplitActionKind> {
        Some(action.0.clone())
    }
}

fn sample_recipients() -> Vec<RecipientShareSnapshot> {
    vec![
        RecipientShareSnapshot {
            recipient: "alice".into(),
            share_bps: 6_000,
            total_allocated: 6_000,
            total_claimed: 2_000,
            unclaimed_balance: 4_000,
        },
        RecipientShareSnapshot {
            recipient: "bob".into(),
            share_bps: 4_000,
            total_allocated: 4_000,
            total_claimed: 1_000,
            unclaimed_balance: 3_000,
        },
    ]
}

fn sample_state(recipients: Vec<RecipientShareSnapshot>, total_shares: u32) -> MockState {
    let batches = vec![SplitBatchSnapshot {
        batch_id: 1,
        total_amount: 10_000,
        distributed_amount: 10_000,
        unallocated_dust: 0,
        is_distributed: true,
    }];

    let total_claimed: i128 = recipients.iter().map(|r| r.total_claimed).sum();
    let total_unclaimed: i128 = recipients.iter().map(|r| r.unclaimed_balance).sum();

    MockState(SplitStateSnapshot {
        total_shares_bps: total_shares,
        recipients,
        batches,
        total_deposited: 10_000,
        total_distributed: total_claimed,
        total_dust: 0,
        contract_token_balance: Some(total_unclaimed),
    })
}

#[test]
fn test_share_sum_conservation_passes() {
    let inv = ShareSumConservation;
    let state = sample_state(sample_recipients(), 10_000);
    let res = Invariant::<MockSplitAdapter>::check_state(&inv, &state);
    assert!(res.is_pass());
}

#[test]
fn test_share_sum_conservation_catches_under_allocation() {
    let inv = ShareSumConservation;
    let mut recs = sample_recipients();
    recs[0].share_bps = 5_000; // sum = 5,000 + 4,000 = 9,000 != 10,000
    let state = sample_state(recs, 9_000);
    let res = Invariant::<MockSplitAdapter>::check_state(&inv, &state);
    assert!(res.is_violation());
    assert!(res.reason().unwrap().contains("Share sum broken"));
}

#[test]
fn test_payout_conservation_passes() {
    let inv = SplitPayoutConservation;
    let state = sample_state(sample_recipients(), 10_000);
    let res = Invariant::<MockSplitAdapter>::check_state(&inv, &state);
    assert!(res.is_pass());
}

#[test]
fn test_payout_conservation_catches_mismatch() {
    let inv = SplitPayoutConservation;
    let mut state = sample_state(sample_recipients(), 10_000);
    state.0.batches[0].distributed_amount = 12_000; // distributed > total!
    let res = Invariant::<MockSplitAdapter>::check_state(&inv, &state);
    assert!(res.is_violation());
    assert!(res.reason().unwrap().contains("exceeds total_amount"));
}

#[test]
fn test_no_duplicate_payout_catches_replay() {
    let inv = NoDuplicatePayout;
    let state_before = sample_state(sample_recipients(), 10_000);

    let mut state_after = state_before.clone();
    state_after.0.batches[0].distributed_amount = 20_000; // paid twice!

    let action = MockAction(SplitActionKind::DistributeBatch { batch_id: 1 });
    let res = Invariant::<MockSplitAdapter>::check_transition(
        &inv,
        &state_before,
        &state_after,
        &action,
        &ActionResult::Success,
    );
    assert!(res.is_violation());
    assert!(res.reason().unwrap().contains("Duplicate payout on batch"));
}

#[test]
fn test_solvency_catches_balance_deficit() {
    let inv = SplitSolvency;
    let mut state = sample_state(sample_recipients(), 10_000);
    state.0.contract_token_balance = Some(3_000); // liabilities are 7_000!
    let res = Invariant::<MockSplitAdapter>::check_state(&inv, &state);
    assert!(res.is_violation());
    assert!(res.reason().unwrap().contains("contract insolvency"));
}

#[test]
fn test_split_pack_builder() {
    let pack = split_invariant_pack::<MockSplitAdapter>();
    assert_eq!(pack.len(), 4);
}
