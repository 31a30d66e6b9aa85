use soroban_invariant_kit::{
    ActionResult, ClaimableNeverExceedsAccrual, ContractAdapter, Invariant, InvariantResult,
    NoClaimAfterCloseOrCancel, StreamSnapshot, StreamStatusKind, StreamingActionKind,
    StreamingAdapter, StreamingBalanceConservation, StreamingMonotonicProgress,
    StreamingStateSnapshot,
};

struct Strm;

#[derive(Debug, Clone)]
struct Act(Option<StreamingActionKind>);

#[derive(Debug, Clone)]
struct St(StreamingStateSnapshot);

#[derive(Debug)]
struct NoError;

impl ContractAdapter for Strm {
    type Action = Act;
    type State = St;
    type Error = NoError;

    fn setup() -> Result<Self, Self::Error> {
        Ok(Strm)
    }

    fn snapshot(&self) -> Result<Self::State, Self::Error> {
        Err(NoError)
    }

    fn step(&mut self, _action: &Self::Action) -> Result<ActionResult, Self::Error> {
        Ok(ActionResult::Success)
    }
}

impl StreamingAdapter for Strm {
    fn inspect_streaming(state: &Self::State) -> StreamingStateSnapshot {
        state.0.clone()
    }

    fn classify_action(action: &Self::Action) -> Option<StreamingActionKind> {
        action.0.clone()
    }
}

fn stream(id: u64, total: i128, withdrawn: i128, accrued: i128) -> StreamSnapshot {
    StreamSnapshot {
        id,
        total,
        withdrawn,
        remaining: total - withdrawn,
        refunded_sender: 0,
        start_time: 0,
        end_time: 1000,
        status: StreamStatusKind::Active,
        accrued_vested: accrued,
    }
}

fn at(timestamp: u64, streams: Vec<StreamSnapshot>) -> St {
    let total_deposited = streams.iter().map(|s| s.total).sum();
    let total_withdrawn = streams.iter().map(|s| s.withdrawn).sum();
    let total_refunded = streams.iter().map(|s| s.refunded_sender).sum();
    St(StreamingStateSnapshot {
        timestamp,
        streams,
        total_deposited,
        total_withdrawn,
        total_refunded,
        contract_token_balance: None,
    })
}

fn reason(r: &InvariantResult) -> String {
    r.reason().unwrap().clone()
}

fn trans(inv: &dyn Invariant<Strm>, b: &St, a: &St, k: Option<StreamingActionKind>, ok: bool) -> InvariantResult {
    let result = if ok { ActionResult::Success } else { ActionResult::Reverted("Err".to_string()) };
    inv.check_transition(b, a, &Act(k), &result)
}

#[test]
fn claimable_state_messages() {
    let inv = ClaimableNeverExceedsAccrual;
    let check = |s: &St| Invariant::<Strm>::check_state(&inv, s);
    assert_eq!(reason(&check(&at(0, vec![stream(1, 100, -1, 0)]))), "Stream 1 has negative withdrawn amount: -1");
    assert_eq!(reason(&check(&at(0, vec![stream(2, 100, 0, -4)]))), "Stream 2 has negative accrued_vested amount: -4");
    assert_eq!(
        reason(&check(&at(0, vec![stream(3, 100, 0, 101)]))),
        "Stream 3 accrued_vested (101) exceeds stream total (100)"
    );
    assert_eq!(
        reason(&check(&at(0, vec![stream(4, 100, 60, 50)]))),
        "Over-withdrawal detected: stream 4 withdrawn (60) exceeds accrued_vested (50) [total: 100]"
    );
    assert!(check(&at(0, vec![stream(5, 100, 50, 50)])).is_pass());
}

#[test]
fn claimable_transition_messages() {
    let before = at(0, vec![stream(7, 1000, 100, 300)]);
    let after = at(10, vec![stream(7, 1000, 400, 300)]);
    assert_eq!(
        reason(&trans(&ClaimableNeverExceedsAccrual, &before, &after, None, true)),
        "Withdrawal delta (300) on stream 7 exceeds available accrual (200)"
    );
    let withdraw = Some(StreamingActionKind::Withdraw { id: 7, amount: 250 });
    assert_eq!(
        reason(&trans(&ClaimableNeverExceedsAccrual, &before, &before, withdraw.clone(), true)),
        "Withdraw action succeeded for amount 250 on stream 7, exceeding available withdrawable accrual 200"
    );
    assert!(trans(&ClaimableNeverExceedsAccrual, &before, &before, withdraw, false).is_pass());
    let exhausted = at(0, vec![stream(8, 1000, 300, 300)]);
    let any = Some(StreamingActionKind::Withdraw { id: 8, amount: 1 });
    assert_eq!(
        reason(&trans(&ClaimableNeverExceedsAccrual, &exhausted, &exhausted, any, true)),
        "Withdraw action succeeded for amount 1 on stream 8, exceeding available withdrawable accrual 0"
    );
}

#[test]
fn balance_conservation_global_messages() {
    let inv = StreamingBalanceConservation;
    let check = |s: &St| Invariant::<Strm>::check_state(&inv, s);
    let mut s = at(0, vec![stream(1, 100, 40, 40)]);
    assert!(check(&s).is_pass());
    s.0.total_deposited = 90;
    assert_eq!(reason(&check(&s)), "Global total_deposited (90) != sum of stream totals (100)");
    s.0.total_deposited = 100;
    s.0.total_withdrawn = 41;
    assert_eq!(reason(&check(&s)), "Global total_withdrawn (41) != sum of stream withdrawals (40)");
    s.0.total_withdrawn = 40;
    s.0.total_refunded = 5;
    assert_eq!(reason(&check(&s)), "Global total_refunded (5) != sum of stream refunds (0)");
    let mut neg = at(0, vec![stream(2, 100, 40, 40)]);
    neg.0.streams[0].refunded_sender = -1;
    assert_eq!(
        reason(&check(&neg)),
        "Stream 2 has negative financial field: total=100, withdrawn=40, remaining=60, refunded=-1"
    );
    let mut big = at(0, vec![stream(3, i128::MAX, 0, 0)]);
    big.0.streams[0].refunded_sender = 1;
    assert_eq!(reason(&check(&big)), "Overflow calculating expected balance for stream 3");
    let two = at(0, vec![stream(4, i128::MAX, 0, 0), stream(5, 1, 0, 0)]);
    assert_eq!(reason(&check(&two)), "Overflow in sum_totals");
}

#[test]
fn no_claim_after_close_messages() {
    let inv = NoClaimAfterCloseOrCancel;
    let check = |s: &St| Invariant::<Strm>::check_state(&inv, s);
    let mut cancelled = stream(1, 100, 40, 40);
    cancelled.status = StreamStatusKind::Cancelled;
    assert_eq!(
        reason(&check(&at(0, vec![cancelled.clone()]))),
        "Cancelled stream 1 still has non-zero remaining balance: 60"
    );
    let mut completed = stream(2, 100, 90, 100);
    completed.status = StreamStatusKind::Completed;
    completed.remaining = 0;
    assert_eq!(
        reason(&check(&at(0, vec![completed.clone()]))),
        "Completed stream 2 withdrawn (90) does not equal total (100)"
    );
    completed.remaining = 10;
    assert_eq!(
        reason(&check(&at(0, vec![completed]))),
        "Completed stream 2 still has non-zero remaining balance: 10"
    );
    cancelled.remaining = 0;
    let before = at(0, vec![cancelled.clone()]);
    let mut revived = cancelled.clone();
    revived.status = StreamStatusKind::Active;
    let after = at(1, vec![revived]);
    assert_eq!(
        reason(&trans(&NoClaimAfterCloseOrCancel, &before, &after, None, true)),
        "Terminated stream 1 improperly reverted to Active status"
    );
    let withdraw = Some(StreamingActionKind::Withdraw { id: 1, amount: 5 });
    assert_eq!(
        reason(&trans(&NoClaimAfterCloseOrCancel, &before, &before, withdraw.clone(), true)),
        "Withdraw action succeeded on terminated stream 1 (status: Cancelled)"
    );
    assert!(trans(&NoClaimAfterCloseOrCancel, &before, &before, withdraw, false).is_pass());
}

#[test]
fn monotonic_progress_respects_time_and_status() {
    let before = at(500, vec![stream(1, 1000, 0, 300)]);
    let lower = at(400, vec![stream(1, 1000, 0, 200)]);
    // Time went backwards: nothing is enforced.
    assert!(trans(&StreamingMonotonicProgress, &before, &lower, None, true).is_pass());
    let mut shortened = stream(1, 1000, 0, 200);
    shortened.end_time = 900;
    let after_short = at(600, vec![shortened]);
    assert!(trans(&StreamingMonotonicProgress, &before, &after_short, None, true).is_pass());
    let after = at(600, vec![stream(1, 1000, 0, 200)]);
    assert_eq!(
        reason(&trans(&StreamingMonotonicProgress, &before, &after, None, true)),
        "Monotonicity violation on stream 1: accrued_vested decreased from 300 to 200 despite time advancing from 500 to 600"
    );
}

#[test]
fn streaming_pack_members_in_order() {
    let pack = soroban_invariant_kit::streaming_invariant_pack::<Strm>();
    let names: Vec<&str> = pack.iter().map(|i| i.name()).collect();
    assert_eq!(
        names,
        vec![
            "ClaimableNeverExceedsAccrual",
            "StreamingBalanceConservation",
            "NoClaimAfterCloseOrCancel",
            "StreamingMonotonicProgress"
        ]
    );
}
