use soroban_invariant_kit::{
    ActionResult, ContractAdapter, Invariant, InvariantResult, NoDuplicatePayout,
    RecipientShareSnapshot, ShareSumConservation, SplitActionKind, SplitAdapter,
    SplitBatchSnapshot, SplitPayoutConservation, SplitSolvency, SplitStateSnapshot,
};

struct Spl;

#[derive(Debug, Clone)]
struct Act(Option<SplitActionKind>);

#[derive(Debug, Clone)]
struct St(SplitStateSnapshot);

#[derive(Debug)]
struct NoError;

impl ContractAdapter for Spl {
    type Action = Act;
    type State = St;
    type Error = NoError;

    fn setup() -> Result<Self, Self::Error> {
        Ok(Spl)
    }

    fn snapshot(&self) -> Result<Self::State, Self::Error> {
        Err(NoError)
    }

    fn step(&mut self, _action: &Self::Action) -> Result<ActionResult, Self::Error> {
        Ok(ActionResult::Success)
    }
}

impl SplitAdapter for Spl {
    fn inspect_split(state: &Self::State) -> SplitStateSnapshot {
        state.0.clone()
    }

    fn classify_action(action: &Self::Action) -> Option<SplitActionKind> {
        action.0.clone()
    }
}

fn recipient(name: &str, share: u32, allocated: i128, claimed: i128) -> RecipientShareSnapshot {
    RecipientShareSnapshot {
        recipient: name.to_string(),
        share_bps: share,
        total_allocated: allocated,
        total_claimed: claimed,
        unclaimed_balance: allocated - claimed,
    }
}

fn batch(id: u64, total: i128, distributed: i128) -> SplitBatchSnapshot {
    SplitBatchSnapshot {
        batch_id: id,
        total_amount: total,
        distributed_amount: distributed,
        unallocated_dust: total - distributed,
        is_distributed: true,
    }
}

fn split(recipients: Vec<RecipientShareSnapshot>, batches: Vec<SplitBatchSnapshot>) -> St {
    let total_shares_bps = recipients.iter().map(|r| r.share_bps).sum();
    let total_deposited = batches.iter().map(|b| b.total_amount).sum();
    let total_dust = batches.iter().map(|b| b.unallocated_dust).sum();
    let total_distributed = recipients.iter().map(|r| r.total_claimed).sum();
    let unclaimed: i128 = recipients.iter().map(|r| r.unclaimed_balance).sum();
    St(SplitStateSnapshot {
        total_shares_bps,
        recipients,
        batches,
        total_deposited,
        total_distributed,
        total_dust,
        contract_token_balance: Some(unclaimed + total_dust),
    })
}

fn reason(r: &InvariantResult) -> String {
    r.reason().unwrap().clone()
}

fn sample() -> St {
    split(
        vec![recipient("alice", 6_000, 5_999, 1_000), recipient("bob", 4_000, 3_999, 0)],
        vec![batch(1, 10_000, 9_998)],
    )
}

#[test]
fn sample_passes_all_split_invariants() {
    let s = sample();
    assert!(Invariant::<Spl>::check_state(&ShareSumConservation, &s).is_pass());
    assert!(Invariant::<Spl>::check_state(&SplitPayoutConservation, &s).is_pass());
    assert!(Invariant::<Spl>::check_state(&NoDuplicatePayout, &s).is_pass());
    assert!(Invariant::<Spl>::check_state(&SplitSolvency, &s).is_pass());
}

#[test]
fn share_sum_messages() {
    let check = |s: &St| Invariant::<Spl>::check_state(&ShareSumConservation, s);
    let unconfigured = split(vec![], vec![]);
    assert!(check(&unconfigured).is_pass());
    let mut s = sample();
    s.0.recipients[0].share_bps = 10_001;
    assert_eq!(reason(&check(&s)), "Recipient alice has invalid share_bps 10001 > 10000");
    let mut s2 = sample();
    s2.0.total_shares_bps = 9_999;
    assert_eq!(
        reason(&check(&s2)),
        "Reported total_shares_bps (9999) != actual sum of recipient shares (10000)"
    );
    let mut s3 = sample();
    s3.0.recipients[1].share_bps = 3_000;
    assert_eq!(
        reason(&check(&s3)),
        "Share sum broken: sum of recipient shares is 9000 bps, expected exactly 10000 bps (100.00%)"
    );
    let configure = Act(Some(SplitActionKind::ConfigureShares { total_bps: 9_000 }));
    let s = sample();
    assert_eq!(
        reason(&Invariant::<Spl>::check_transition(&ShareSumConservation, &s, &s, &configure, &ActionResult::Success)),
        "ConfigureShares action succeeded with invalid total_bps 9000 (expected 10,000)"
    );
    let reverted = ActionResult::Reverted("InvalidShares".to_string());
    assert!(Invariant::<Spl>::check_transition(&ShareSumConservation, &s, &s, &configure, &reverted).is_pass());
}

#[test]
fn payout_conservation_messages() {
    let check = |s: &St| Invariant::<Spl>::check_state(&SplitPayoutConservation, s);
    let mut s = sample();
    s.0.batches[0].unallocated_dust = -1;
    assert_eq!(reason(&check(&s)), "Batch 1 has negative financial amounts: total=10000, distributed=9998, dust=-1");
    let mut s = sample();
    s.0.batches[0].unallocated_dust = 5;
    assert_eq!(
        reason(&check(&s)),
        "Batch 1 conservation broken: total (10000) != distributed (9998) + dust (5)"
    );
    let mut s = sample();
    s.0.recipients[1].unclaimed_balance = 4_000;
    assert_eq!(
        reason(&check(&s)),
        "Recipient bob balance mismatch: total_allocated (3999) != claimed (0) + unclaimed (4000)"
    );
    let mut s = sample();
    s.0.total_dust = 3;
    assert_eq!(reason(&check(&s)), "Global total_dust (3) != sum of batch dust (2)");
    let mut s = sample();
    s.0.total_deposited = 1;
    assert_eq!(reason(&check(&s)), "Global total_deposited (1) != sum of batch totals (10000)");
    let mut s = sample();
    s.0.total_distributed = 999;
    assert_eq!(
        reason(&check(&s)),
        "Global conservation broken: total_deposited (10000) != total_distributed (999) + dust (2) + unclaimed (8998) [accounted: 9999]"
    );
    let mut s = sample();
    s.0.recipients[0].total_claimed = -1;
    assert_eq!(
        reason(&check(&s)),
        "Recipient alice has negative balance: allocated=5999, claimed=-1, unclaimed=4999"
    );
}

#[test]
fn duplicate_payout_messages() {
    let mut over = sample();
    over.0.recipients[1].total_claimed = 4_000;
    assert_eq!(
        reason(&Invariant::<Spl>::check_state(&NoDuplicatePayout, &over)),
        "Over-claim detected: recipient bob claimed 4000 exceeding allocated 3999"
    );
    let before = sample();
    let mut after = sample();
    after.0.recipients[0].total_claimed = 7_000;
    let res = Invariant::<Spl>::check_transition(&NoDuplicatePayout, &before, &after, &Act(None), &ActionResult::Success);
    assert_eq!(reason(&res), "Recipient alice claimed 6000 which exceeds prior unclaimed balance 4999");
    let mut within = sample();
    within.0.recipients[0].total_claimed = 5_999;
    assert!(Invariant::<Spl>::check_transition(&NoDuplicatePayout, &before, &within, &Act(None), &ActionResult::Success).is_pass());
}

#[test]
fn solvency_messages() {
    let mut s = sample();
    s.0.contract_token_balance = Some(9_000);
    assert!(Invariant::<Spl>::check_state(&SplitSolvency, &s).is_pass());
    s.0.contract_token_balance = Some(8_999);
    assert_eq!(
        reason(&Invariant::<Spl>::check_state(&SplitSolvency, &s)),
        "Split contract insolvency: token balance (8999) < outstanding liabilities (9000) [unclaimed: 8998, dust: 2]"
    );
    s.0.contract_token_balance = None;
    assert!(Invariant::<Spl>::check_state(&SplitSolvency, &s).is_pass());
    let mut huge = sample();
    huge.0.recipients[0].unclaimed_balance = i128::MAX;
    huge.0.contract_token_balance = Some(0);
    assert_eq!(
        reason(&Invariant::<Spl>::check_state(&SplitSolvency, &huge)),
        "Overflow calculating split liabilities"
    );
}

#[test]
fn payout_conservation_applies_per_batch_law_to_pending_batches() {
    let mut pending = batch(1, 10_000, 0);
    pending.unallocated_dust = 0;
    pending.is_distributed = false;
    let s = St(SplitStateSnapshot {
        total_shares_bps: 10_000,
        recipients: vec![recipient("r", 10_000, 10_000, 0)],
        batches: vec![pending],
        total_deposited: 10_000,
        total_distributed: 0,
        total_dust: 0,
        contract_token_balance: None,
    });
    let r = Invariant::<Spl>::check_state(&SplitPayoutConservation, &s);
    assert_eq!(reason(&r), "Batch 1 conservation broken: total (10000) != distributed (0) + dust (0)");
}

#[test]
fn split_pack_members_in_order() {
    let pack = soroban_invariant_kit::split_invariant_pack::<Spl>();
    let names: Vec<&str> = pack.iter().map(|i| i.name()).collect();
    assert_eq!(
        names,
        vec!["ShareSumConservation", "SplitPayoutConservation", "NoDuplicatePayout", "SplitSolvency"]
    );
}
