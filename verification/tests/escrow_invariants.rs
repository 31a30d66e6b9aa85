use soroban_invariant_kit::{
    escrow_invariant_pack, ActionResult, ContractAdapter, DisputeFreezeCannotBeBypassed,
    EscrowActionKind, EscrowAdapter, EscrowStateSnapshot, Invariant, MilestoneSnapshot,
    MilestoneStatusKind, NoDoubleRelease, NoReleaseWithoutApproval, TotalLockedConservation,
};

struct MockEscrowAdapter;

#[derive(Debug, Clone)]
struct MockAction(EscrowActionKind);

#[derive(Debug, Clone)]
struct MockState(EscrowStateSnapshot);

#[derive(Debug)]
struct MockError;

impl ContractAdapter for MockEscrowAdapter {
    type Action = MockAction;
    type State = MockState;
    type Error = MockError;

    fn setup() -> Result<Self, Self::Error> {
        Ok(Self)
    }

    fn snapshot(&self) -> Result<Self::State, Self::Error> {
        Err(MockError)
    }

    fn step(&mut self, _action: &Self::Action) -> Result<ActionResult, Self::Error> {
        Ok(ActionResult::Success)
    }
}

impl EscrowAdapter for MockEscrowAdapter {
    fn inspect_escrow(state: &Self::State) -> EscrowStateSnapshot {
        state.0.clone()
    }

    fn classify_action(action: &Self::Action) -> Option<EscrowActionKind> {
        Some(action.0.clone())
    }
}

fn sample_snapshot(locked: i128, released: i128, refunded: i128) -> EscrowStateSnapshot {
    EscrowStateSnapshot {
        total_locked: locked,
        total_released: released,
        total_refunded: refunded,
        is_funded: true,
        is_disputed: false,
        milestones: vec![
            MilestoneSnapshot {
                id: 0,
                amount: 5000,
                released_amount: released,
                is_approved: true,
                is_released: released == 5000,
                is_refunded: false,
                is_disputed: false,
                status: if released == 5000 {
                    MilestoneStatusKind::Released
                } else {
                    MilestoneStatusKind::Delivered
                },
            },
            MilestoneSnapshot {
                id: 1,
                amount: 5000,
                released_amount: 0,
                is_approved: false,
                is_released: false,
                is_refunded: refunded == 5000,
                is_disputed: false,
                status: if refunded == 5000 {
                    MilestoneStatusKind::Refunded
                } else {
                    MilestoneStatusKind::Pending
                },
            },
        ],
        contract_token_balance: Some(locked),
    }
}

#[test]
fn test_total_locked_conservation_holds() {
    let pack = escrow_invariant_pack::<MockEscrowAdapter>();

    // Total = 10000, locked = 10000, released = 0, refunded = 0
    let s0 = MockState(sample_snapshot(10000, 0, 0));
    assert!(pack.check_initial(&s0).is_empty());

    // Milestone 0 released: locked = 5000, released = 5000, refunded = 0
    let s1 = MockState(sample_snapshot(5000, 5000, 0));
    assert!(pack.check_initial(&s1).is_empty());

    // Milestone 1 refunded: locked = 0, released = 5000, refunded = 5000
    let s2 = MockState(sample_snapshot(0, 5000, 5000));
    assert!(pack.check_initial(&s2).is_empty());
}

#[test]
fn test_total_locked_conservation_detects_leak() {
    let inv: Box<dyn Invariant<MockEscrowAdapter>> = Box::new(TotalLockedConservation);

    // Leaked 100 tokens: locked is 4900 instead of 5000
    let bad_state = MockState(sample_snapshot(4900, 5000, 0));
    let res = inv.check_state(&bad_state);
    assert!(res.is_violation());
}

#[test]
fn test_no_double_release_detects_violation() {
    let inv: Box<dyn Invariant<MockEscrowAdapter>> = Box::new(NoDoubleRelease);

    let before = MockState(sample_snapshot(5000, 5000, 0)); // Milestone 0 already released (5000)
    let mut bad_snap = sample_snapshot(5000, 5000, 0);
    bad_snap.milestones[0].released_amount = 6000; // Increased released amount!
    let after = MockState(bad_snap);

    let action = MockAction(EscrowActionKind::ApproveMilestone { milestone_id: 0 });
    let res = inv.check_transition(&before, &after, &action, &ActionResult::Success);
    assert!(res.is_violation());
}

#[test]
fn test_no_release_without_approval_detects_violation() {
    let inv: Box<dyn Invariant<MockEscrowAdapter>> = Box::new(NoReleaseWithoutApproval);

    let before = MockState(sample_snapshot(10000, 0, 0)); // Milestone 1 is_approved == false
    let mut after_snap = sample_snapshot(5000, 0, 0);
    after_snap.milestones[1].released_amount = 5000; // Released unapproved milestone 1!
    let after = MockState(after_snap);

    let action = MockAction(EscrowActionKind::ApproveMilestone { milestone_id: 1 });
    let res = inv.check_transition(&before, &after, &action, &ActionResult::Success);
    assert!(res.is_violation());
}

#[test]
fn test_dispute_freeze_detects_violation() {
    let inv: Box<dyn Invariant<MockEscrowAdapter>> = Box::new(DisputeFreezeCannotBeBypassed);

    let mut before_snap = sample_snapshot(10000, 0, 0);
    before_snap.is_disputed = true;
    before_snap.milestones[0].is_disputed = true;
    let before = MockState(before_snap);

    let mut after_snap = sample_snapshot(5000, 5000, 0);
    after_snap.milestones[0].released_amount = 5000;
    let after = MockState(after_snap);

    // Regular approve action instead of dispute resolution
    let action = MockAction(EscrowActionKind::ApproveMilestone { milestone_id: 0 });
    let res = inv.check_transition(&before, &after, &action, &ActionResult::Success);
    assert!(res.is_violation());
}
