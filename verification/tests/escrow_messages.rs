use soroban_invariant_kit::{
    ActionResult, ContractAdapter, DisputeFreezeCannotBeBypassed, EscrowActionKind,
    EscrowAdapter, EscrowStateSnapshot, Invariant, InvariantResult, MilestoneSnapshot,
    MilestoneStatusKind, NoDoubleRelease, NoReleaseWithoutApproval, TotalLockedConservation,
};

struct Esc;

#[derive(Debug, Clone)]
struct Act(Option<EscrowActionKind>);

#[derive(Debug, Clone)]
struct St(EscrowStateSnapshot);

#[derive(Debug)]
struct NoError;

impl ContractAdapter for Esc {
    type Action = Act;
    type State = St;
    type Error = NoError;

    fn setup() -> Result<Self, Self::Error> {
        Ok(Esc)
    }

    fn snapshot(&self) -> Result<Self::State, Self::Error> {
        Err(NoError)
    }

    fn step(&mut self, _action: &Self::Action) -> Result<ActionResult, Self::Error> {
        Ok(ActionResult::Success)
    }
}

impl EscrowAdapter for Esc {
    fn inspect_escrow(state: &Self::State) -> EscrowStateSnapshot {
        state.0.clone()
    }

    fn classify_action(action: &Self::Action) -> Option<EscrowActionKind> {
        action.0.clone()
    }
}

fn milestone(id: u32, amount: i128, released: i128) -> MilestoneSnapshot {
    MilestoneSnapshot {
        id,
        amount,
        released_amount: released,
        is_approved: false,
        is_released: false,
        is_refunded: false,
        is_disputed: false,
        status: MilestoneStatusKind::Pending,
    }
}

fn escrow(locked: i128, released: i128, refunded: i128, ms: Vec<MilestoneSnapshot>) -> St {
    St(EscrowStateSnapshot {
        total_locked: locked,
        total_released: released,
        total_refunded: refunded,
        is_funded: true,
        is_disputed: false,
        milestones: ms,
        contract_token_balance: None,
    })
}

fn reason(r: &InvariantResult) -> String {
    r.reason().unwrap().clone()
}

fn state(inv: &dyn Invariant<Esc>, s: &St) -> InvariantResult {
    inv.check_state(s)
}

fn trans(inv: &dyn Invariant<Esc>, b: &St, a: &St, k: Option<EscrowActionKind>, ok: bool) -> InvariantResult {
    let result = if ok { ActionResult::Success } else { ActionResult::Reverted("Err".to_string()) };
    inv.check_transition(b, a, &Act(k), &result)
}

#[test]
fn total_locked_exact_balance_message() {
    let s = escrow(4900, 5000, 0, vec![milestone(0, 5000, 5000), milestone(1, 5000, 0)]);
    let r = state(&TotalLockedConservation, &s);
    assert_eq!(
        reason(&r),
        "Balance conservation broken: total_locked (4900) != sum(milestones) (10000) - released (5000) - refunded (0) [expected: 5000]"
    );
}

#[test]
fn total_locked_unfunded_and_negative_messages() {
    let mut s = escrow(7, 0, 0, vec![]);
    s.0.is_funded = false;
    assert_eq!(reason(&state(&TotalLockedConservation, &s)), "Unfunded escrow has non-zero total_locked: 7");
    s.0.total_locked = 0;
    s.0.total_released = -3;
    assert_eq!(reason(&state(&TotalLockedConservation, &s)), "Unfunded escrow has non-zero total_released: -3");
    s.0.total_released = 0;
    assert!(state(&TotalLockedConservation, &s).is_pass());
    let neg = escrow(-12, 0, 0, vec![]);
    assert_eq!(reason(&state(&TotalLockedConservation, &neg)), "Total locked balance is negative: -12");
}

#[test]
fn total_locked_token_balance_mismatch_message() {
    let mut s = escrow(100, 0, 0, vec![milestone(0, 100, 0)]);
    s.0.contract_token_balance = Some(99);
    assert_eq!(
        reason(&state(&TotalLockedConservation, &s)),
        "Token contract balance (99) does not match escrow total_locked (100)"
    );
    s.0.contract_token_balance = Some(100);
    assert!(state(&TotalLockedConservation, &s).is_pass());
}

#[test]
fn total_locked_overflow_message() {
    let s = escrow(0, 0, 0, vec![milestone(0, i128::MAX, 0), milestone(1, 1, 0)]);
    assert_eq!(
        reason(&state(&TotalLockedConservation, &s)),
        "Overflow occurred computing expected locked balance"
    );
    let s2 = escrow(0, i128::MIN, 0, vec![milestone(0, 1, 0)]);
    assert_eq!(
        reason(&state(&TotalLockedConservation, &s2)),
        "Overflow occurred computing expected locked balance"
    );
}

#[test]
fn no_double_release_state_messages() {
    let s = escrow(0, 0, 0, vec![milestone(3, 100, 150)]);
    assert_eq!(
        reason(&state(&NoDoubleRelease, &s)),
        "Milestone 3 released_amount (150) exceeds total amount (100)"
    );
    let mut m = milestone(4, 100, 40);
    m.is_released = true;
    let s2 = escrow(0, 0, 0, vec![m]);
    assert_eq!(
        reason(&state(&NoDoubleRelease, &s2)),
        "Milestone 4 marked is_released but released_amount (40) != amount (100)"
    );
}

#[test]
fn no_double_release_transition_messages() {
    let mut released = milestone(0, 100, 100);
    released.is_released = true;
    let before = escrow(0, 0, 0, vec![released.clone()]);
    let mut reverted = released.clone();
    reverted.is_released = false;
    let after = escrow(0, 0, 0, vec![reverted]);
    assert_eq!(
        reason(&trans(&NoDoubleRelease, &before, &after, None, true)),
        "Milestone 0 reverted from terminal released status"
    );
    let mut refunded = milestone(1, 100, 0);
    refunded.is_refunded = true;
    let before2 = escrow(0, 0, 0, vec![refunded.clone()]);
    let mut grew = refunded.clone();
    grew.released_amount = 10;
    let after2 = escrow(0, 0, 0, vec![grew]);
    assert_eq!(
        reason(&trans(&NoDoubleRelease, &before2, &after2, None, true)),
        "Invalid release on refunded milestone: milestone 1 was refunded, but released amount increased from 0 to 10"
    );
    let mut more = released.clone();
    more.released_amount = 120;
    let after3 = escrow(0, 0, 0, vec![more]);
    assert_eq!(
        reason(&trans(&NoDoubleRelease, &before, &after3, None, true)),
        "Double-release detected: milestone 0 was already released (100 released), but released amount increased to 120"
    );
}

#[test]
fn release_without_approval_messages() {
    let before = escrow(0, 0, 0, vec![milestone(2, 100, 0)]);
    let after = escrow(0, 0, 0, vec![milestone(2, 100, 30)]);
    assert_eq!(
        reason(&trans(&NoReleaseWithoutApproval, &before, &after, None, true)),
        "Release without prior approval: milestone 2 released 30 (from 0 to 30) but before.is_approved was false (status was Pending)"
    );
    let resolve = Some(EscrowActionKind::ResolveDispute { milestone_id: 2, release_to_freelancer: true });
    assert!(trans(&NoReleaseWithoutApproval, &before, &after, resolve, true).is_pass());
    let approve = Some(EscrowActionKind::ApproveMilestone { milestone_id: 2 });
    assert_eq!(
        reason(&trans(&NoReleaseWithoutApproval, &before, &before, approve.clone(), true)),
        "ApproveMilestone succeeded on milestone 2 which was not in approved state (status: Pending)"
    );
    assert!(trans(&NoReleaseWithoutApproval, &before, &before, approve, false).is_pass());
}

#[test]
fn release_without_approval_extreme_delta() {
    let before = escrow(0, 0, 0, vec![milestone(0, 0, i128::MIN)]);
    let after = escrow(0, 0, 0, vec![milestone(0, 0, i128::MAX)]);
    assert_eq!(
        reason(&trans(&NoReleaseWithoutApproval, &before, &after, None, true)),
        format!(
            "Release without prior approval: milestone 0 released {} (from {} to {}) but before.is_approved was false (status was Pending)",
            u128::MAX,
            i128::MIN,
            i128::MAX
        )
    );
}

#[test]
fn dispute_freeze_messages() {
    let mut disputed = milestone(5, 100, 0);
    disputed.is_disputed = true;
    disputed.status = MilestoneStatusKind::Disputed;
    let before = escrow(0, 0, 0, vec![disputed.clone()]);
    let mut paid = disputed.clone();
    paid.released_amount = 60;
    let after = escrow(0, 0, 0, vec![paid]);
    assert_eq!(
        reason(&trans(&DisputeFreezeCannotBeBypassed, &before, &after, None, true)),
        "Dispute freeze bypassed: milestone 5 released funds (0 -> 60) while in dispute without dispute resolution"
    );
    let partial = Some(EscrowActionKind::ApprovePartial { milestone_id: 5, amount: 25 });
    assert_eq!(
        reason(&trans(&DisputeFreezeCannotBeBypassed, &before, &before, partial, true)),
        "Dispute freeze bypassed: action ApprovePartial { milestone_id: 5, amount: 25 } succeeded on disputed milestone 5"
    );
    let auto = Some(EscrowActionKind::ClaimAutoRelease { milestone_id: 5 });
    assert_eq!(
        reason(&trans(&DisputeFreezeCannotBeBypassed, &before, &before, auto.clone(), true)),
        "Dispute freeze bypassed: action ClaimAutoRelease { milestone_id: 5 } succeeded on disputed milestone 5"
    );
    assert!(trans(&DisputeFreezeCannotBeBypassed, &before, &before, auto, false).is_pass());
    let approve = Some(EscrowActionKind::ApproveMilestone { milestone_id: 5 });
    assert_eq!(
        reason(&trans(&DisputeFreezeCannotBeBypassed, &before, &before, approve, true)),
        "Dispute freeze bypassed: action ApproveMilestone { milestone_id: 5 } succeeded on disputed milestone 5"
    );
    let resolve = Some(EscrowActionKind::ResolveDispute { milestone_id: 5, release_to_freelancer: true });
    assert!(trans(&DisputeFreezeCannotBeBypassed, &before, &after, resolve, true).is_pass());
}

#[test]
fn matching_uses_first_milestone_with_id() {
    // Two milestones share id 0 in `after`: the first one decides.
    let mut released = milestone(0, 100, 100);
    released.is_released = true;
    let before = escrow(0, 0, 0, vec![released.clone()]);
    let mut later = released.clone();
    later.released_amount = 500;
    let after = escrow(0, 0, 0, vec![released.clone(), later]);
    assert!(trans(&NoDoubleRelease, &before, &after, None, true).is_pass());
}

#[test]
fn total_locked_flags_refund_on_unfunded_escrow() {
    let mut s = escrow(0, 0, 5000, vec![milestone(0, 5000, 0)]);
    s.0.is_funded = false;
    let r = state(&TotalLockedConservation, &s);
    assert!(r.is_violation());
    assert_eq!(reason(&r), "Balance conservation broken: unfunded escrow attempted refund transition");
}

#[test]
fn dispute_freeze_honours_escrow_level_dispute() {
    let mut before = escrow(0, 0, 0, vec![milestone(0, 5000, 0)]);
    before.0.is_disputed = true;
    let after = escrow(0, 0, 0, vec![milestone(0, 5000, 5000)]);
    assert_eq!(
        reason(&trans(&DisputeFreezeCannotBeBypassed, &before, &after, None, true)),
        "Dispute freeze bypassed: milestone 0 released funds (0 -> 5000) while in dispute without dispute resolution"
    );
    let approve = Some(EscrowActionKind::ApproveMilestone { milestone_id: 0 });
    assert_eq!(
        reason(&trans(&DisputeFreezeCannotBeBypassed, &before, &before, approve, true)),
        "Dispute freeze bypassed: action ApproveMilestone { milestone_id: 0 } succeeded on disputed milestone 0"
    );
    let resolve = Some(EscrowActionKind::ResolveDispute { milestone_id: 0, release_to_freelancer: true });
    assert!(trans(&DisputeFreezeCannotBeBypassed, &before, &after, resolve, true).is_pass());
    let calm = escrow(0, 0, 0, vec![milestone(0, 5000, 0)]);
    assert!(trans(&DisputeFreezeCannotBeBypassed, &calm, &after, None, true).is_pass());
}

#[test]
fn escrow_pack_members_in_order() {
    let pack = soroban_invariant_kit::escrow_invariant_pack::<Esc>();
    let names: Vec<&str> = pack.iter().map(|i| i.name()).collect();
    assert_eq!(
        names,
        vec![
            "TotalLockedConservation",
            "NoDoubleRelease",
            "NoReleaseWithoutApproval",
            "DisputeFreezeCannotBeBypassed"
        ]
    );
}
