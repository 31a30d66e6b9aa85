//! Linear payment streaming: normalized snapshots, the streaming adapter trait and the
//! streaming invariant pack.
//!
//! - [`ClaimableNeverExceedsAccrual`]: withdrawals never exceed the accrued vesting.
//! - [`StreamingBalanceConservation`]: deposits equal withdrawals plus remaining plus
//!   refunds, per stream and globally, and the token balance covers the liabilities.
//! - [`NoClaimAfterCloseOrCancel`]: no withdrawal once a stream is cancelled or completed.
//! - [`StreamingMonotonicProgress`]: vesting never decreases as ledger time advances.

use vstd::prelude::*;
use crate::adapter::{ActionResult, ContractAdapter};
use crate::invariants::{
    boxed, fail_text, fail_with, fails, fits_i128, Invariant, InvariantResult, InvariantSet, Verdict,
};
use crate::text::{render, Piece};

verus! {

/// Status of an individual payment stream.
#[derive(Debug, Clone, Copy, PartialEq, Eq)]
pub enum StreamStatusKind {
    /// Active and vesting over the defined time window.
    Active,
    /// Cancelled before completion; remaining unvested tokens refunded.
    Cancelled,
    /// Fully vested and entirely withdrawn.
    Completed,
}

/// Normalized snapshot of an individual payment stream.
#[derive(Debug, Clone, PartialEq, Eq)]
pub struct StreamSnapshot {
    /// Unique identifier of the stream.
    pub id: u64,
    /// Total committed / escrowed amount for this stream.
    pub total: i128,
    /// Cumulative amount withdrawn by the recipient so far.
    pub withdrawn: i128,
    /// Remaining unwithdrawn balance still held for the stream.
    pub remaining: i128,
    /// Amount refunded back to the sender upon cancellation.
    pub refunded_sender: i128,
    /// Ledger timestamp at which vesting begins.
    pub start_time: u64,
    /// Ledger timestamp at which vesting completes.
    pub end_time: u64,
    /// Current lifecycle status of the stream.
    pub status: StreamStatusKind,
    /// Total amount vested at the snapshot timestamp.
    pub accrued_vested: i128,
}

/// Normalized snapshot of a streaming contract's overall state.
#[derive(Debug, Clone, PartialEq, Eq)]
pub struct StreamingStateSnapshot {
    /// Current ledger timestamp.
    pub timestamp: u64,
    /// All streams tracked by the contract.
    pub streams: Vec<StreamSnapshot>,
    /// Cumulative tokens deposited across all streams.
    pub total_deposited: i128,
    /// Cumulative tokens withdrawn across all streams.
    pub total_withdrawn: i128,
    /// Cumulative tokens refunded across all streams.
    pub total_refunded: i128,
    /// Token balance held by the streaming contract, if observed.
    pub contract_token_balance: Option<i128>,
}

/// High-level classification of actions that can occur in a payment streaming system.
#[derive(Debug, Clone, PartialEq, Eq)]
pub enum StreamingActionKind {
    /// Creation of a new stream.
    CreateStream { id: u64, amount: i128, start_time: u64, end_time: u64 },
    /// Withdrawal of vested tokens by the recipient.
    Withdraw { id: u64, amount: i128 },
    /// Cancellation of an active stream.
    Cancel { id: u64 },
    /// Adding more funds to an active stream.
    TopUp { id: u64, amount: i128 },
    /// Extending the vesting window end time.
    Extend { id: u64, new_end: u64 },
    /// Passage of time on the ledger.
    AdvanceTime { seconds: u64 },
    /// Other custom action.
    Other,
}

/// Adapter trait bridging concrete streaming contracts to the normalized streaming checks.
pub trait StreamingAdapter: ContractAdapter {
    // The two specification functions below are what the contracts of `inspect_streaming` and
    // `classify_action` speak of. An implementation verified with Verus defines them to match
    // its code and is checked against them. An implementation written outside Verus keeps the
    // defaults, for which those contracts are false, so nothing proved from them holds for it.

    /// The normalized snapshot of a concrete state.
    open spec fn spec_inspect_streaming(state: Self::State) -> StreamingStateSnapshot {
        vstd::pervasive::arbitrary()
    }

    /// The classification of a concrete action.
    open spec fn spec_classify_action(action: Self::Action) -> Option<StreamingActionKind> {
        None
    }

    /// Extracts a [`StreamingStateSnapshot`] from the adapter's concrete state.
    fn inspect_streaming(state: &Self::State) -> (r: StreamingStateSnapshot)
        ensures
            r == Self::spec_inspect_streaming(*state),
    ;

    /// Classifies an action into a standard streaming action, when it is one.
    /// Every adapter provides it; one that exposes no standard action returns `None`.
    fn classify_action(action: &Self::Action) -> (r: Option<StreamingActionKind>)
        ensures
            r == Self::spec_classify_action(*action),
    ;
}

// ---------------------------------------------------------------------------
// Shared helpers
// ---------------------------------------------------------------------------

/// The first stream at or after index `i` whose id is `id`.
pub open spec fn find_stream_from(ss: Seq<StreamSnapshot>, id: u64, i: int) -> Option<
    StreamSnapshot,
>
    decreases ss.len() - i,
{
    if i < 0 || i >= ss.len() {
        None
    } else if ss[i].id == id {
        Some(ss[i])
    } else {
        find_stream_from(ss, id, i + 1)
    }
}

/// The first stream whose id is `id`.
pub open spec fn find_stream(ss: Seq<StreamSnapshot>, id: u64) -> Option<StreamSnapshot> {
    find_stream_from(ss, id, 0)
}

fn find_stream_index(ss: &Vec<StreamSnapshot>, id: u64) -> (r: Option<usize>)
    ensures
        match r {
            Some(k) => k < ss@.len() && find_stream(ss@, id) == Some(ss@[k as int]),
            None => find_stream(ss@, id) is None,
        },
{
    let mut i: usize = 0;
    while i < ss.len()
        invariant
            i <= ss@.len(),
            find_stream(ss@, id) == find_stream_from(ss@, id, i as int),
        decreases ss@.len() - i,
    {
        if ss[i].id == id {
            return Some(i);
        }
        i = i + 1;
    }
    None
}

/// Whether a stream status is terminal (cancelled or completed).
pub open spec fn is_terminated(s: StreamStatusKind) -> bool {
    !(s is Active)
}

/// The name of a stream status, as its derived `Debug` prints it.
pub open spec fn stream_status_name(s: StreamStatusKind) -> &'static str {
    match s {
        StreamStatusKind::Active => "Active",
        StreamStatusKind::Cancelled => "Cancelled",
        StreamStatusKind::Completed => "Completed",
    }
}

fn status_name(s: StreamStatusKind) -> (r: &'static str)
    ensures
        r == stream_status_name(s),
{
    match s {
        StreamStatusKind::Active => "Active",
        StreamStatusKind::Cancelled => "Cancelled",
        StreamStatusKind::Completed => "Completed",
    }
}

fn terminated(s: StreamStatusKind) -> (r: bool)
    ensures
        r == is_terminated(s),
{
    match s {
        StreamStatusKind::Active => false,
        _ => true,
    }
}

/// Whether the mathematical difference `a - b` is below `c`.
fn diff_lt(a: i128, b: i128, c: i128) -> (r: bool)
    ensures
        r == (a - b < c),
{
    match a.checked_sub(b) {
        Some(d) => d < c,
        None => a < 0,
    }
}

// ---------------------------------------------------------------------------
// Invariant 1: ClaimableNeverExceedsAccrual
// ---------------------------------------------------------------------------

/// Verdict of the state part of [`ClaimableNeverExceedsAccrual`] on streams from index `i` on.
pub open spec fn accrual_state_from(ss: Seq<StreamSnapshot>, i: int) -> Verdict
    decreases ss.len() - i,
{
    if i < 0 || i >= ss.len() {
        Verdict::Pass
    } else if ss[i].withdrawn < 0 {
        fails(
            render(
                seq![
                    Piece::Text("Stream "),
                    Piece::Int(ss[i].id as i128),
                    Piece::Text(" has negative withdrawn amount: "),
                    Piece::Int(ss[i].withdrawn),
                ],
            ),
        )
    } else if ss[i].accrued_vested < 0 {
        fails(
            render(
                seq![
                    Piece::Text("Stream "),
                    Piece::Int(ss[i].id as i128),
                    Piece::Text(" has negative accrued_vested amount: "),
                    Piece::Int(ss[i].accrued_vested),
                ],
            ),
        )
    } else if ss[i].accrued_vested > ss[i].total {
        fails(
            render(
                seq![
                    Piece::Text("Stream "),
                    Piece::Int(ss[i].id as i128),
                    Piece::Text(" accrued_vested ("),
                    Piece::Int(ss[i].accrued_vested),
                    Piece::Text(") exceeds stream total ("),
                    Piece::Int(ss[i].total),
                    Piece::Text(")"),
                ],
            ),
        )
    } else if ss[i].withdrawn > ss[i].accrued_vested {
        fails(
            render(
                seq![
                    Piece::Text("Over-withdrawal detected: stream "),
                    Piece::Int(ss[i].id as i128),
                    Piece::Text(" withdrawn ("),
                    Piece::Int(ss[i].withdrawn),
                    Piece::Text(") exceeds accrued_vested ("),
                    Piece::Int(ss[i].accrued_vested),
                    Piece::Text(") [total: "),
                    Piece::Int(ss[i].total),
                    Piece::Text("]"),
                ],
            ),
        )
    } else {
        accrual_state_from(ss, i + 1)
    }
}

/// Verdict of the withdrawal scan of [`ClaimableNeverExceedsAccrual`]: streams of `after`
/// from index `i` on, each matched by id against `before`.
pub open spec fn accrual_delta_from(
    before: Seq<StreamSnapshot>,
    after: Seq<StreamSnapshot>,
    i: int,
) -> Verdict
    decreases after.len() - i,
{
    if i < 0 || i >= after.len() {
        Verdict::Pass
    } else {
        match find_stream(before, after[i].id) {
            Some(sb) => if after[i].withdrawn - sb.withdrawn > 0 && after[i].withdrawn
                - sb.withdrawn > after[i].accrued_vested - sb.withdrawn {
                fails(
                    render(
                        seq![
                            Piece::Text("Withdrawal delta ("),
                            Piece::Diff(after[i].withdrawn, sb.withdrawn),
                            Piece::Text(") on stream "),
                            Piece::Int(after[i].id as i128),
                            Piece::Text(" exceeds available accrual ("),
                            Piece::Diff(after[i].accrued_vested, sb.withdrawn),
                            Piece::Text(")"),
                        ],
                    ),
                )
            } else {
                accrual_delta_from(before, after, i + 1)
            },
            None => accrual_delta_from(before, after, i + 1),
        }
    }
}

/// Withdrawable accrual of a stream: accrued minus withdrawn, at least zero.
pub open spec fn available_accrual(s: StreamSnapshot) -> int {
    if s.accrued_vested - s.withdrawn > 0 {
        s.accrued_vested - s.withdrawn
    } else {
        0
    }
}

/// Verdict of the transition part of [`ClaimableNeverExceedsAccrual`].
pub open spec fn accrual_transition_verdict(
    before: StreamingStateSnapshot,
    after: StreamingStateSnapshot,
    kind: Option<StreamingActionKind>,
    result: ActionResult,
) -> Verdict {
    let scan = accrual_delta_from(before.streams@, after.streams@, 0);
    if scan is Violation {
        scan
    } else {
        match kind {
            Some(StreamingActionKind::Withdraw { id, amount }) => match find_stream(
                before.streams@,
                id,
            ) {
                Some(sb) => if amount > available_accrual(sb) && result is Success {
                    fails(
                        render(
                            seq![
                                Piece::Text("Withdraw action succeeded for amount "),
                                Piece::Int(amount),
                                Piece::Text(" on stream "),
                                Piece::Int(id as i128),
                                Piece::Text(", exceeding available withdrawable accrual "),
                                if sb.accrued_vested - sb.withdrawn > 0 {
                                    Piece::Diff(sb.accrued_vested, sb.withdrawn)
                                } else {
                                    Piece::Int(0)
                                },
                            ],
                        ),
                    )
                } else {
                    Verdict::Pass
                },
                None => Verdict::Pass,
            },
            _ => Verdict::Pass,
        }
    }
}

#[verifier::loop_isolation(false)]
fn accrual_transition_check(
    before: &StreamingStateSnapshot,
    after: &StreamingStateSnapshot,
    kind: &Option<StreamingActionKind>,
    result: &ActionResult,
) -> (r: InvariantResult)
    ensures
        r@ == accrual_transition_verdict(*before, *after, *kind, *result),
{
    let bs = &before.streams;
    let as_ = &after.streams;
    let mut i: usize = 0;
    while i < as_.len()
        invariant
            i <= as_@.len(),
            accrual_delta_from(bs@, as_@, 0) == accrual_delta_from(bs@, as_@, i as int),
        decreases as_@.len() - i,
    {
        let sa = &as_[i];
        if let Some(k) = find_stream_index(bs, sa.id) {
            let sb = &bs[k];
            if sa.withdrawn > sb.withdrawn && sa.withdrawn > sa.accrued_vested {
                return fail_with(
                    vec![
                        Piece::Text("Withdrawal delta ("),
                        Piece::Diff(sa.withdrawn, sb.withdrawn),
                        Piece::Text(") on stream "),
                        Piece::Int(sa.id as i128),
                        Piece::Text(" exceeds available accrual ("),
                        Piece::Diff(sa.accrued_vested, sb.withdrawn),
                        Piece::Text(")"),
                    ],
                );
            }
        }
        i = i + 1;
    }
    if let Some(StreamingActionKind::Withdraw { id, amount }) = kind {
        if let Some(k) = find_stream_index(bs, *id) {
            let sb = &bs[k];
            let exceeds = if sb.accrued_vested > sb.withdrawn {
                diff_lt(sb.accrued_vested, sb.withdrawn, *amount)
            } else {
                *amount > 0
            };
            if exceeds && result.is_ok() {
                let avail = if sb.accrued_vested > sb.withdrawn {
                    Piece::Diff(sb.accrued_vested, sb.withdrawn)
                } else {
                    Piece::Int(0)
                };
                return fail_with(
                    vec![
                        Piece::Text("Withdraw action succeeded for amount "),
                        Piece::Int(*amount),
                        Piece::Text(" on stream "),
                        Piece::Int(*id as i128),
                        Piece::Text(", exceeding available withdrawable accrual "),
                        avail,
                    ],
                );
            }
        }
    }
    InvariantResult::Pass
}

/// Invariant: cumulative withdrawals never exceed the accrued vesting, and the accrual
/// never exceeds the stream total (`withdrawn <= accrued_vested <= total`); a step never
/// withdraws more than is available, and an over-sized withdrawal never succeeds.
pub struct ClaimableNeverExceedsAccrual;

impl<A: StreamingAdapter> Invariant<A> for ClaimableNeverExceedsAccrual {
    open spec fn spec_name(&self) -> Seq<char> {
        "ClaimableNeverExceedsAccrual"@
    }

    open spec fn spec_check_state(&self, state: A::State) -> Verdict {
        accrual_state_from(A::spec_inspect_streaming(state).streams@, 0)
    }

    open spec fn spec_check_transition(
        &self,
        before: A::State,
        after: A::State,
        action: A::Action,
        result: ActionResult,
    ) -> Verdict {
        accrual_transition_verdict(
            A::spec_inspect_streaming(before),
            A::spec_inspect_streaming(after),
            A::spec_classify_action(action),
            result,
        )
    }

    fn name(&self) -> (r: &'static str) {
        "ClaimableNeverExceedsAccrual"
    }

    fn description(&self) -> &'static str
        returns
            "Withdrawn amount can never exceed mathematically accrued vesting, and accrual cannot exceed total",
    {
        "Withdrawn amount can never exceed mathematically accrued vesting, and accrual cannot exceed total"
    }

    #[verifier::loop_isolation(false)]
    fn check_state(&self, state: &A::State) -> (r: InvariantResult) {
        let streaming = A::inspect_streaming(state);
        let ss = &streaming.streams;
        let mut i: usize = 0;
        while i < ss.len()
            invariant
                i <= ss@.len(),
                accrual_state_from(ss@, 0) == accrual_state_from(ss@, i as int),
            decreases ss@.len() - i,
        {
            let s = &ss[i];
            if s.withdrawn < 0 {
                return fail_with(
                    vec![
                        Piece::Text("Stream "),
                        Piece::Int(s.id as i128),
                        Piece::Text(" has negative withdrawn amount: "),
                        Piece::Int(s.withdrawn),
                    ],
                );
            }
            if s.accrued_vested < 0 {
                return fail_with(
                    vec![
                        Piece::Text("Stream "),
                        Piece::Int(s.id as i128),
                        Piece::Text(" has negative accrued_vested amount: "),
                        Piece::Int(s.accrued_vested),
                    ],
                );
            }
            if s.accrued_vested > s.total {
                return fail_with(
                    vec![
                        Piece::Text("Stream "),
                        Piece::Int(s.id as i128),
                        Piece::Text(" accrued_vested ("),
                        Piece::Int(s.accrued_vested),
                        Piece::Text(") exceeds stream total ("),
                        Piece::Int(s.total),
                        Piece::Text(")"),
                    ],
                );
            }
            if s.withdrawn > s.accrued_vested {
                return fail_with(
                    vec![
                        Piece::Text("Over-withdrawal detected: stream "),
                        Piece::Int(s.id as i128),
                        Piece::Text(" withdrawn ("),
                        Piece::Int(s.withdrawn),
                        Piece::Text(") exceeds accrued_vested ("),
                        Piece::Int(s.accrued_vested),
                        Piece::Text(") [total: "),
                        Piece::Int(s.total),
                        Piece::Text("]"),
                    ],
                );
            }
            i = i + 1;
        }
        InvariantResult::Pass
    }

    fn check_transition(
        &self,
        before: &A::State,
        after: &A::State,
        action: &A::Action,
        result: &ActionResult,
    ) -> (r: InvariantResult) {
        let before_streaming = A::inspect_streaming(before);
        let after_streaming = A::inspect_streaming(after);
        let kind = A::classify_action(action);
        accrual_transition_check(&before_streaming, &after_streaming, &kind, result)
    }
}

// ---------------------------------------------------------------------------
// Invariant 2: StreamingBalanceConservation
// ---------------------------------------------------------------------------

/// Per-stream part of [`StreamingBalanceConservation`], scanning streams from index `i` on
/// with running sums `(totals, withdrawn, remaining, refunded)`. Returns the verdict and
/// the sums reached; the scan stops at the first violation.
pub open spec fn stream_balance_scan(
    ss: Seq<StreamSnapshot>,
    i: int,
    sums: (int, int, int, int),
) -> (Verdict, (int, int, int, int))
    decreases ss.len() - i,
{
    if i < 0 || i >= ss.len() {
        (Verdict::Pass, sums)
    } else {
        let s = ss[i];
        if s.total < 0 || s.withdrawn < 0 || s.remaining < 0 || s.refunded_sender < 0 {
            (
                fails(
                    render(
                        seq![
                            Piece::Text("Stream "),
                            Piece::Int(s.id as i128),
                            Piece::Text(" has negative financial field: total="),
                            Piece::Int(s.total),
                            Piece::Text(", withdrawn="),
                            Piece::Int(s.withdrawn),
                            Piece::Text(", remaining="),
                            Piece::Int(s.remaining),
                            Piece::Text(", refunded="),
                            Piece::Int(s.refunded_sender),
                        ],
                    ),
                ),
                sums,
            )
        } else if !fits_i128(s.withdrawn + s.remaining) || !fits_i128(
            s.withdrawn + s.remaining + s.refunded_sender,
        ) {
            (
                fails(
                    render(
                        seq![
                            Piece::Text("Overflow calculating expected balance for stream "),
                            Piece::Int(s.id as i128),
                        ],
                    ),
                ),
                sums,
            )
        } else if s.total != s.withdrawn + s.remaining + s.refunded_sender {
            (
                fails(
                    render(
                        seq![
                            Piece::Text("Per-stream balance conservation broken on stream "),
                            Piece::Int(s.id as i128),
                            Piece::Text(": total ("),
                            Piece::Int(s.total),
                            Piece::Text(") != withdrawn ("),
                            Piece::Int(s.withdrawn),
                            Piece::Text(") + remaining ("),
                            Piece::Int(s.remaining),
                            Piece::Text(") + refunded ("),
                            Piece::Int(s.refunded_sender),
                            Piece::Text(") [sum: "),
                            Piece::Int((s.withdrawn + s.remaining + s.refunded_sender) as i128),
                            Piece::Text("]"),
                        ],
                    ),
                ),
                sums,
            )
        } else if !fits_i128(sums.0 + s.total) {
            (fails("Overflow in sum_totals"@), sums)
        } else if !fits_i128(sums.1 + s.withdrawn) {
            (fails("Overflow in sum_withdrawn"@), sums)
        } else if !fits_i128(sums.2 + s.remaining) {
            (fails("Overflow in sum_remaining"@), sums)
        } else if !fits_i128(sums.3 + s.refunded_sender) {
            (fails("Overflow in sum_refunded"@), sums)
        } else {
            stream_balance_scan(
                ss,
                i + 1,
                (
                    sums.0 + s.total,
                    sums.1 + s.withdrawn,
                    sums.2 + s.remaining,
                    sums.3 + s.refunded_sender,
                ),
            )
        }
    }
}

/// Verdict of [`StreamingBalanceConservation`] on a streaming snapshot.
pub open spec fn streaming_balance_verdict(st: StreamingStateSnapshot) -> Verdict {
    let (scan, sums) = stream_balance_scan(st.streams@, 0, (0, 0, 0, 0));
    let accounted = st.total_withdrawn + sums.2 + st.total_refunded;
    if scan is Violation {
        scan
    } else if st.total_deposited != sums.0 {
        fails(
            render(
                seq![
                    Piece::Text("Global total_deposited ("),
                    Piece::Int(st.total_deposited),
                    Piece::Text(") != sum of stream totals ("),
                    Piece::Int(sums.0 as i128),
                    Piece::Text(")"),
                ],
            ),
        )
    } else if st.total_withdrawn != sums.1 {
        fails(
            render(
                seq![
                    Piece::Text("Global total_withdrawn ("),
                    Piece::Int(st.total_withdrawn),
                    Piece::Text(") != sum of stream withdrawals ("),
                    Piece::Int(sums.1 as i128),
                    Piece::Text(")"),
                ],
            ),
        )
    } else if st.total_refunded != sums.3 {
        fails(
            render(
                seq![
                    Piece::Text("Global total_refunded ("),
                    Piece::Int(st.total_refunded),
                    Piece::Text(") != sum of stream refunds ("),
                    Piece::Int(sums.3 as i128),
                    Piece::Text(")"),
                ],
            ),
        )
    } else if !fits_i128(st.total_withdrawn + sums.2) || !fits_i128(accounted) {
        fails("Overflow in global balance conservation calculation"@)
    } else if st.total_deposited != accounted {
        fails(
            render(
                seq![
                    Piece::Text("Global conservation broken: total_deposited ("),
                    Piece::Int(st.total_deposited),
                    Piece::Text(") != total_withdrawn ("),
                    Piece::Int(st.total_withdrawn),
                    Piece::Text(") + remaining ("),
                    Piece::Int(sums.2 as i128),
                    Piece::Text(") + total_refunded ("),
                    Piece::Int(st.total_refunded),
                    Piece::Text(") [sum: "),
                    Piece::Int(accounted as i128),
                    Piece::Text("]"),
                ],
            ),
        )
    } else {
        match st.contract_token_balance {
            Some(token_bal) => if token_bal < sums.2 {
                fails(
                    render(
                        seq![
                            Piece::Text("Contract token balance insolvency: token balance ("),
                            Piece::Int(token_bal),
                            Piece::Text(") < outstanding stream liabilities ("),
                            Piece::Int(sums.2 as i128),
                            Piece::Text(")"),
                        ],
                    ),
                )
            } else {
                Verdict::Pass
            },
            None => Verdict::Pass,
        }
    }
}

#[verifier::loop_isolation(false)]
fn streaming_balance_check(st: &StreamingStateSnapshot) -> (r: InvariantResult)
    ensures
        r@ == streaming_balance_verdict(*st),
{
    let ss = &st.streams;
    let mut sum_totals: i128 = 0;
    let mut sum_withdrawn: i128 = 0;
    let mut sum_remaining: i128 = 0;
    let mut sum_refunded: i128 = 0;
    let mut i: usize = 0;
    while i < ss.len()
        invariant
            i <= ss@.len(),
            stream_balance_scan(ss@, 0, (0, 0, 0, 0)) == stream_balance_scan(
                ss@,
                i as int,
                (
                    sum_totals as int,
                    sum_withdrawn as int,
                    sum_remaining as int,
                    sum_refunded as int,
                ),
            ),
        decreases ss@.len() - i,
    {
        let s = &ss[i];
        if s.total < 0 || s.withdrawn < 0 || s.remaining < 0 || s.refunded_sender < 0 {
            return fail_with(
                vec![
                    Piece::Text("Stream "),
                    Piece::Int(s.id as i128),
                    Piece::Text(" has negative financial field: total="),
                    Piece::Int(s.total),
                    Piece::Text(", withdrawn="),
                    Piece::Int(s.withdrawn),
                    Piece::Text(", remaining="),
                    Piece::Int(s.remaining),
                    Piece::Text(", refunded="),
                    Piece::Int(s.refunded_sender),
                ],
            );
        }
        let expected_total = match s.withdrawn.checked_add(s.remaining) {
            Some(v) => v.checked_add(s.refunded_sender),
            None => None,
        };
        match expected_total {
            Some(expected) => {
                if s.total != expected {
                    return fail_with(
                        vec![
                            Piece::Text("Per-stream balance conservation broken on stream "),
                            Piece::Int(s.id as i128),
                            Piece::Text(": total ("),
                            Piece::Int(s.total),
                            Piece::Text(") != withdrawn ("),
                            Piece::Int(s.withdrawn),
                            Piece::Text(") + remaining ("),
                            Piece::Int(s.remaining),
                            Piece::Text(") + refunded ("),
                            Piece::Int(s.refunded_sender),
                            Piece::Text(") [sum: "),
                            Piece::Int(expected),
                            Piece::Text("]"),
                        ],
                    );
                }
            },
            None => {
                return fail_with(
                    vec![
                        Piece::Text("Overflow calculating expected balance for stream "),
                        Piece::Int(s.id as i128),
                    ],
                );
            },
        }
        sum_totals = match sum_totals.checked_add(s.total) {
            Some(v) => v,
            None => {
                return fail_text("Overflow in sum_totals");
            },
        };
        sum_withdrawn = match sum_withdrawn.checked_add(s.withdrawn) {
            Some(v) => v,
            None => {
                return fail_text("Overflow in sum_withdrawn");
            },
        };
        sum_remaining = match sum_remaining.checked_add(s.remaining) {
            Some(v) => v,
            None => {
                return fail_text("Overflow in sum_remaining");
            },
        };
        sum_refunded = match sum_refunded.checked_add(s.refunded_sender) {
            Some(v) => v,
            None => {
                return fail_text("Overflow in sum_refunded");
            },
        };
        i = i + 1;
    }
    if st.total_deposited != sum_totals {
        return fail_with(
            vec![
                Piece::Text("Global total_deposited ("),
                Piece::Int(st.total_deposited),
                Piece::Text(") != sum of stream totals ("),
                Piece::Int(sum_totals),
                Piece::Text(")"),
            ],
        );
    }
    if st.total_withdrawn != sum_withdrawn {
        return fail_with(
            vec![
                Piece::Text("Global total_withdrawn ("),
                Piece::Int(st.total_withdrawn),
                Piece::Text(") != sum of stream withdrawals ("),
                Piece::Int(sum_withdrawn),
                Piece::Text(")"),
            ],
        );
    }
    if st.total_refunded != sum_refunded {
        return fail_with(
            vec![
                Piece::Text("Global total_refunded ("),
                Piece::Int(st.total_refunded),
                Piece::Text(") != sum of stream refunds ("),
                Piece::Int(sum_refunded),
                Piece::Text(")"),
            ],
        );
    }
    let global_accounted = match st.total_withdrawn.checked_add(sum_remaining) {
        Some(v) => v.checked_add(st.total_refunded),
        None => None,
    };
    match global_accounted {
        Some(accounted) => {
            if st.total_deposited != accounted {
                return fail_with(
                    vec![
                        Piece::Text("Global conservation broken: total_deposited ("),
                        Piece::Int(st.total_deposited),
                        Piece::Text(") != total_withdrawn ("),
                        Piece::Int(st.total_withdrawn),
                        Piece::Text(") + remaining ("),
                        Piece::Int(sum_remaining),
                        Piece::Text(") + total_refunded ("),
                        Piece::Int(st.total_refunded),
                        Piece::Text(") [sum: "),
                        Piece::Int(accounted),
                        Piece::Text("]"),
                    ],
                );
            }
        },
        None => {
            return fail_text("Overflow in global balance conservation calculation");
        },
    }
    if let Some(token_bal) = st.contract_token_balance {
        if token_bal < sum_remaining {
            return fail_with(
                vec![
                    Piece::Text("Contract token balance insolvency: token balance ("),
                    Piece::Int(token_bal),
                    Piece::Text(") < outstanding stream liabilities ("),
                    Piece::Int(sum_remaining),
                    Piece::Text(")"),
                ],
            );
        }
    }
    InvariantResult::Pass
}

/// Invariant: tokens are conserved. Per stream, `total == withdrawn + remaining +
/// refunded_sender` with no negative amount; globally, `total_deposited`,
/// `total_withdrawn` and `total_refunded` equal the sums over the streams and
/// `total_deposited == total_withdrawn + sum(remaining) + total_refunded`; an observed
/// token balance covers `sum(remaining)`.
pub struct StreamingBalanceConservation;

impl<A: StreamingAdapter> Invariant<A> for StreamingBalanceConservation {
    open spec fn spec_name(&self) -> Seq<char> {
        "StreamingBalanceConservation"@
    }

    open spec fn spec_check_state(&self, state: A::State) -> Verdict {
        streaming_balance_verdict(A::spec_inspect_streaming(state))
    }

    open spec fn spec_check_transition(
        &self,
        before: A::State,
        after: A::State,
        action: A::Action,
        result: ActionResult,
    ) -> Verdict {
        Verdict::Pass
    }

    fn name(&self) -> (r: &'static str) {
        "StreamingBalanceConservation"
    }

    fn description(&self) -> &'static str
        returns
            "Total deposited tokens must equal withdrawn + remaining + refunded (per stream and globally), and contract token balance must cover remaining liabilities",
    {
        "Total deposited tokens must equal withdrawn + remaining + refunded (per stream and globally), and contract token balance must cover remaining liabilities"
    }

    fn check_state(&self, state: &A::State) -> (r: InvariantResult) {
        let streaming = A::inspect_streaming(state);
        streaming_balance_check(&streaming)
    }

    fn check_transition(
        &self,
        before: &A::State,
        after: &A::State,
        action: &A::Action,
        result: &ActionResult,
    ) -> (r: InvariantResult) {
        InvariantResult::Pass
    }
}

// ---------------------------------------------------------------------------
// Invariant 3: NoClaimAfterCloseOrCancel
// ---------------------------------------------------------------------------

/// Verdict of the state part of [`NoClaimAfterCloseOrCancel`] on streams from index `i` on.
pub open spec fn closed_state_from(ss: Seq<StreamSnapshot>, i: int) -> Verdict
    decreases ss.len() - i,
{
    if i < 0 || i >= ss.len() {
        Verdict::Pass
    } else {
        let s = ss[i];
        match s.status {
            StreamStatusKind::Cancelled => if s.remaining != 0 {
                fails(
                    render(
                        seq![
                            Piece::Text("Cancelled stream "),
                            Piece::Int(s.id as i128),
                            Piece::Text(" still has non-zero remaining balance: "),
                            Piece::Int(s.remaining),
                        ],
                    ),
                )
            } else {
                closed_state_from(ss, i + 1)
            },
            StreamStatusKind::Completed => if s.remaining != 0 {
                fails(
                    render(
                        seq![
                            Piece::Text("Completed stream "),
                            Piece::Int(s.id as i128),
                            Piece::Text(" still has non-zero remaining balance: "),
                            Piece::Int(s.remaining),
                        ],
                    ),
                )
            } else if s.withdrawn != s.total {
                fails(
                    render(
                        seq![
                            Piece::Text("Completed stream "),
                            Piece::Int(s.id as i128),
                            Piece::Text(" withdrawn ("),
                            Piece::Int(s.withdrawn),
                            Piece::Text(") does not equal total ("),
                            Piece::Int(s.total),
                            Piece::Text(")"),
                        ],
                    ),
                )
            } else {
                closed_state_from(ss, i + 1)
            },
            StreamStatusKind::Active => closed_state_from(ss, i + 1),
        }
    }
}

/// Verdict of [`NoClaimAfterCloseOrCancel`] for one stream before and its counterpart after.
pub open spec fn closed_pair(sb: StreamSnapshot, sa: StreamSnapshot) -> Verdict {
    if is_terminated(sb.status) && sa.withdrawn > sb.withdrawn {
        fails(
            render(
                seq![
                    Piece::Text("Post-termination claim detected: stream "),
                    Piece::Int(sb.id as i128),
                    Piece::Text(" had status "),
                    Piece::Text(stream_status_name(sb.status)),
                    Piece::Text(" (withdrawn: "),
                    Piece::Int(sb.withdrawn),
                    Piece::Text("), but withdrawn amount increased to "),
                    Piece::Int(sa.withdrawn),
                ],
            ),
        )
    } else if is_terminated(sb.status) && sa.status is Active {
        fails(
            render(
                seq![
                    Piece::Text("Terminated stream "),
                    Piece::Int(sb.id as i128),
                    Piece::Text(" improperly reverted to Active status"),
                ],
            ),
        )
    } else {
        Verdict::Pass
    }
}

/// Verdict of the stream scan of [`NoClaimAfterCloseOrCancel`]: streams of `before` from
/// index `i` on, each matched by id against `after`.
pub open spec fn closed_transition_from(
    before: Seq<StreamSnapshot>,
    after: Seq<StreamSnapshot>,
    i: int,
) -> Verdict
    decreases before.len() - i,
{
    if i < 0 || i >= before.len() {
        Verdict::Pass
    } else {
        match find_stream(after, before[i].id) {
            Some(sa) => if closed_pair(before[i], sa) is Violation {
                closed_pair(before[i], sa)
            } else {
                closed_transition_from(before, after, i + 1)
            },
            None => closed_transition_from(before, after, i + 1),
        }
    }
}

/// Verdict of the transition part of [`NoClaimAfterCloseOrCancel`].
pub open spec fn closed_transition_verdict(
    before: StreamingStateSnapshot,
    after: StreamingStateSnapshot,
    kind: Option<StreamingActionKind>,
    result: ActionResult,
) -> Verdict {
    let scan = closed_transition_from(before.streams@, after.streams@, 0);
    if scan is Violation {
        scan
    } else {
        match kind {
            Some(StreamingActionKind::Withdraw { id, .. }) => match find_stream(
                before.streams@,
                id,
            ) {
                Some(sb) => if is_terminated(sb.status) && result is Success {
                    fails(
                        render(
                            seq![
                                Piece::Text("Withdraw action succeeded on terminated stream "),
                                Piece::Int(id as i128),
                                Piece::Text(" (status: "),
                                Piece::Text(stream_status_name(sb.status)),
                                Piece::Text(")"),
                            ],
                        ),
                    )
                } else {
                    Verdict::Pass
                },
                None => Verdict::Pass,
            },
            _ => Verdict::Pass,
        }
    }
}

fn closed_pair_check(sb: &StreamSnapshot, sa: &StreamSnapshot) -> (r: InvariantResult)
    ensures
        r@ == closed_pair(*sb, *sa),
{
    if terminated(sb.status) {
        if sa.withdrawn > sb.withdrawn {
            return fail_with(
                vec![
                    Piece::Text("Post-termination claim detected: stream "),
                    Piece::Int(sb.id as i128),
                    Piece::Text(" had status "),
                    Piece::Text(status_name(sb.status)),
                    Piece::Text(" (withdrawn: "),
                    Piece::Int(sb.withdrawn),
                    Piece::Text("), but withdrawn amount increased to "),
                    Piece::Int(sa.withdrawn),
                ],
            );
        }
        if !terminated(sa.status) {
            return fail_with(
                vec![
                    Piece::Text("Terminated stream "),
                    Piece::Int(sb.id as i128),
                    Piece::Text(" improperly reverted to Active status"),
                ],
            );
        }
    }
    InvariantResult::Pass
}

#[verifier::loop_isolation(false)]
fn closed_transition_check(
    before: &StreamingStateSnapshot,
    after: &StreamingStateSnapshot,
    kind: &Option<StreamingActionKind>,
    result: &ActionResult,
) -> (r: InvariantResult)
    ensures
        r@ == closed_transition_verdict(*before, *after, *kind, *result),
{
    let bs = &before.streams;
    let as_ = &after.streams;
    let mut i: usize = 0;
    while i < bs.len()
        invariant
            i <= bs@.len(),
            closed_transition_from(bs@, as_@, 0) == closed_transition_from(bs@, as_@, i as int),
        decreases bs@.len() - i,
    {
        if let Some(k) = find_stream_index(as_, bs[i].id) {
            let res = closed_pair_check(&bs[i], &as_[k]);
            if res.is_violation() {
                return res;
            }
        }
        i = i + 1;
    }
    if let Some(StreamingActionKind::Withdraw { id, .. }) = kind {
        if let Some(k) = find_stream_index(bs, *id) {
            let sb = &bs[k];
            if terminated(sb.status) && result.is_ok() {
                return fail_with(
                    vec![
                        Piece::Text("Withdraw action succeeded on terminated stream "),
                        Piece::Int(*id as i128),
                        Piece::Text(" (status: "),
                        Piece::Text(status_name(sb.status)),
                        Piece::Text(")"),
                    ],
                );
            }
        }
    }
    InvariantResult::Pass
}

/// Invariant: a cancelled or completed stream holds no remaining balance (a completed one
/// has paid out its total), its withdrawn amount never increases, it never returns to
/// `Active`, and a withdrawal on it never succeeds.
pub struct NoClaimAfterCloseOrCancel;

impl<A: StreamingAdapter> Invariant<A> for NoClaimAfterCloseOrCancel {
    open spec fn spec_name(&self) -> Seq<char> {
        "NoClaimAfterCloseOrCancel"@
    }

    open spec fn spec_check_state(&self, state: A::State) -> Verdict {
        closed_state_from(A::spec_inspect_streaming(state).streams@, 0)
    }

    open spec fn spec_check_transition(
        &self,
        before: A::State,
        after: A::State,
        action: A::Action,
        result: ActionResult,
    ) -> Verdict {
        closed_transition_verdict(
            A::spec_inspect_streaming(before),
            A::spec_inspect_streaming(after),
            A::spec_classify_action(action),
            result,
        )
    }

    fn name(&self) -> (r: &'static str) {
        "NoClaimAfterCloseOrCancel"
    }

    fn description(&self) -> &'static str
        returns
            "Terminated streams (cancelled or completed) cannot disburse additional funds or be claimed again",
    {
        "Terminated streams (cancelled or completed) cannot disburse additional funds or be claimed again"
    }

    #[verifier::loop_isolation(false)]
    fn check_state(&self, state: &A::State) -> (r: InvariantResult) {
        let streaming = A::inspect_streaming(state);
        let ss = &streaming.streams;
        let mut i: usize = 0;
        while i < ss.len()
            invariant
                i <= ss@.len(),
                closed_state_from(ss@, 0) == closed_state_from(ss@, i as int),
            decreases ss@.len() - i,
        {
            let s = &ss[i];
            match s.status {
                StreamStatusKind::Cancelled => {
                    if s.remaining != 0 {
                        return fail_with(
                            vec![
                                Piece::Text("Cancelled stream "),
                                Piece::Int(s.id as i128),
                                Piece::Text(" still has non-zero remaining balance: "),
                                Piece::Int(s.remaining),
                            ],
                        );
                    }
                },
                StreamStatusKind::Completed => {
                    if s.remaining != 0 {
                        return fail_with(
                            vec![
                                Piece::Text("Completed stream "),
                                Piece::Int(s.id as i128),
                                Piece::Text(" still has non-zero remaining balance: "),
                                Piece::Int(s.remaining),
                            ],
                        );
                    }
                    if s.withdrawn != s.total {
                        return fail_with(
                            vec![
                                Piece::Text("Completed stream "),
                                Piece::Int(s.id as i128),
                                Piece::Text(" withdrawn ("),
                                Piece::Int(s.withdrawn),
                                Piece::Text(") does not equal total ("),
                                Piece::Int(s.total),
                                Piece::Text(")"),
                            ],
                        );
                    }
                },
                StreamStatusKind::Active => {},
            }
            i = i + 1;
        }
        InvariantResult::Pass
    }

    fn check_transition(
        &self,
        before: &A::State,
        after: &A::State,
        action: &A::Action,
        result: &ActionResult,
    ) -> (r: InvariantResult) {
        let before_streaming = A::inspect_streaming(before);
        let after_streaming = A::inspect_streaming(after);
        let kind = A::classify_action(action);
        closed_transition_check(&before_streaming, &after_streaming, &kind, result)
    }
}

// ---------------------------------------------------------------------------
// Invariant 4: StreamingMonotonicProgress
// ---------------------------------------------------------------------------

/// Verdict of the stream scan of [`StreamingMonotonicProgress`]: active streams of `before`
/// from index `i` on, each matched by id against `after`.
pub open spec fn monotonic_from(
    before: Seq<StreamSnapshot>,
    after: Seq<StreamSnapshot>,
    before_time: u64,
    after_time: u64,
    i: int,
) -> Verdict
    decreases before.len() - i,
{
    if i < 0 || i >= before.len() {
        Verdict::Pass
    } else if !(before[i].status is Active) {
        monotonic_from(before, after, before_time, after_time, i + 1)
    } else {
        match find_stream(after, before[i].id) {
            Some(sa) => if sa.status is Active && sa.end_time >= before[i].end_time
                && sa.accrued_vested < before[i].accrued_vested {
                fails(
                    render(
                        seq![
                            Piece::Text("Monotonicity violation on stream "),
                            Piece::Int(before[i].id as i128),
                            Piece::Text(": accrued_vested decreased from "),
                            Piece::Int(before[i].accrued_vested),
                            Piece::Text(" to "),
                            Piece::Int(sa.accrued_vested),
                            Piece::Text(" despite time advancing from "),
                            Piece::Int(before_time as i128),
                            Piece::Text(" to "),
                            Piece::Int(after_time as i128),
                        ],
                    ),
                )
            } else {
                monotonic_from(before, after, before_time, after_time, i + 1)
            },
            None => monotonic_from(before, after, before_time, after_time, i + 1),
        }
    }
}

/// Verdict of [`StreamingMonotonicProgress`] on a transition.
pub open spec fn monotonic_verdict(before: StreamingStateSnapshot, after: StreamingStateSnapshot) -> Verdict {
    if after.timestamp >= before.timestamp {
        monotonic_from(before.streams@, after.streams@, before.timestamp, after.timestamp, 0)
    } else {
        Verdict::Pass
    }
}

#[verifier::loop_isolation(false)]
fn monotonic_check(before: &StreamingStateSnapshot, after: &StreamingStateSnapshot) -> (r: InvariantResult)
    ensures
        r@ == monotonic_verdict(*before, *after),
{
    if after.timestamp >= before.timestamp {
        let bs = &before.streams;
        let as_ = &after.streams;
        let mut i: usize = 0;
        while i < bs.len()
            invariant
                i <= bs@.len(),
                monotonic_from(bs@, as_@, before.timestamp, after.timestamp, 0) == monotonic_from(
                    bs@,
                    as_@,
                    before.timestamp,
                    after.timestamp,
                    i as int,
                ),
            decreases bs@.len() - i,
        {
            let sb = &bs[i];
            if !terminated(sb.status) {
                if let Some(k) = find_stream_index(as_, sb.id) {
                    let sa = &as_[k];
                    if !terminated(sa.status) && sa.end_time >= sb.end_time && sa.accrued_vested
                        < sb.accrued_vested {
                        return fail_with(
                            vec![
                                Piece::Text("Monotonicity violation on stream "),
                                Piece::Int(sb.id as i128),
                                Piece::Text(": accrued_vested decreased from "),
                                Piece::Int(sb.accrued_vested),
                                Piece::Text(" to "),
                                Piece::Int(sa.accrued_vested),
                                Piece::Text(" despite time advancing from "),
                                Piece::Int(before.timestamp as i128),
                                Piece::Text(" to "),
                                Piece::Int(after.timestamp as i128),
                            ],
                        );
                    }
                }
            }
            i = i + 1;
        }
    }
    InvariantResult::Pass
}

/// Invariant: when ledger time does not go backwards, the accrued vesting of a stream that
/// stays active and whose end time is not shortened never decreases.
pub struct StreamingMonotonicProgress;

impl<A: StreamingAdapter> Invariant<A> for StreamingMonotonicProgress {
    open spec fn spec_name(&self) -> Seq<char> {
        "StreamingMonotonicProgress"@
    }

    open spec fn spec_check_state(&self, state: A::State) -> Verdict {
        Verdict::Pass
    }

    open spec fn spec_check_transition(
        &self,
        before: A::State,
        after: A::State,
        action: A::Action,
        result: ActionResult,
    ) -> Verdict {
        monotonic_verdict(A::spec_inspect_streaming(before), A::spec_inspect_streaming(after))
    }

    fn name(&self) -> (r: &'static str) {
        "StreamingMonotonicProgress"
    }

    fn description(&self) -> &'static str
        returns
            "Accrued vesting is monotonically non-decreasing as ledger time advances",
    {
        "Accrued vesting is monotonically non-decreasing as ledger time advances"
    }

    fn check_state(&self, state: &A::State) -> (r: InvariantResult) {
        InvariantResult::Pass
    }

    fn check_transition(
        &self,
        before: &A::State,
        after: &A::State,
        action: &A::Action,
        result: &ActionResult,
    ) -> (r: InvariantResult) {
        let before_streaming = A::inspect_streaming(before);
        let after_streaming = A::inspect_streaming(after);
        monotonic_check(&before_streaming, &after_streaming)
    }
}

// ---------------------------------------------------------------------------
// Invariant pack
// ---------------------------------------------------------------------------

/// An [`InvariantSet`] with the four streaming invariants, in this order:
/// [`ClaimableNeverExceedsAccrual`], [`StreamingBalanceConservation`],
/// [`NoClaimAfterCloseOrCancel`], [`StreamingMonotonicProgress`].
pub fn streaming_invariant_pack<A: StreamingAdapter>() -> (r: InvariantSet<A>)
    ensures
        r@.len() == 4,
        r@[0] == boxed::<A, _>(ClaimableNeverExceedsAccrual),
        r@[1] == boxed::<A, _>(StreamingBalanceConservation),
        r@[2] == boxed::<A, _>(NoClaimAfterCloseOrCancel),
        r@[3] == boxed::<A, _>(StreamingMonotonicProgress),
{
    InvariantSet::new().with(ClaimableNeverExceedsAccrual).with(StreamingBalanceConservation).with(
        NoClaimAfterCloseOrCancel,
    ).with(StreamingMonotonicProgress)
}

// ---------------------------------------------------------------------------
// Laws
// ---------------------------------------------------------------------------

/// A stream's accrual is bounded: `0 <= withdrawn <= accrued_vested <= total`.
pub open spec fn accrual_bounded(s: StreamSnapshot) -> bool {
    0 <= s.withdrawn <= s.accrued_vested <= s.total
}

proof fn lemma_accrual_state_from(ss: Seq<StreamSnapshot>, i: int)
    requires
        0 <= i <= ss.len(),
    ensures
        (accrual_state_from(ss, i) is Pass) <==> forall|j: int|
            i <= j < ss.len() ==> accrual_bounded(#[trigger] ss[j]),
    decreases ss.len() - i,
{
    if i < ss.len() {
        lemma_accrual_state_from(ss, i + 1);
    }
}

/// The state part of [`ClaimableNeverExceedsAccrual`] passes exactly when every stream has
/// `0 <= withdrawn <= accrued_vested <= total`.
pub proof fn law_claimable_state(st: StreamingStateSnapshot)
    ensures
        (accrual_state_from(st.streams@, 0) is Pass) <==> forall|j: int|
            0 <= j < st.streams@.len() ==> accrual_bounded(#[trigger] st.streams@[j]),
{
    lemma_accrual_state_from(st.streams@, 0);
}

proof fn lemma_accrual_delta_from(before: Seq<StreamSnapshot>, after: Seq<StreamSnapshot>, i: int)
    requires
        0 <= i <= after.len(),
    ensures
        (accrual_delta_from(before, after, i) is Pass) <==> forall|j: int|
            i <= j < after.len() ==> match find_stream(before, #[trigger] after[j].id) {
                Some(sb) => after[j].withdrawn > sb.withdrawn ==> after[j].withdrawn
                    <= after[j].accrued_vested,
                None => true,
            },
    decreases after.len() - i,
{
    if i < after.len() {
        lemma_accrual_delta_from(before, after, i + 1);
    }
}

/// The transition part of [`ClaimableNeverExceedsAccrual`] passes exactly when every stream
/// whose withdrawn amount grew (against the first stream of `before` with its id) has
/// withdrawn no more than its accrual, and a successful withdrawal asked for no more than
/// the withdrawable accrual of its stream before the step.
pub proof fn law_claimable_transition(
    before: StreamingStateSnapshot,
    after: StreamingStateSnapshot,
    kind: Option<StreamingActionKind>,
    result: ActionResult,
)
    ensures
        (accrual_transition_verdict(before, after, kind, result) is Pass) <==> {
            &&& forall|j: int|
                0 <= j < after.streams@.len() ==> match find_stream(
                    before.streams@,
                    #[trigger] after.streams@[j].id,
                ) {
                    Some(sb) => after.streams@[j].withdrawn > sb.withdrawn
                        ==> after.streams@[j].withdrawn <= after.streams@[j].accrued_vested,
                    None => true,
                }
            &&& (kind matches Some(StreamingActionKind::Withdraw { id, amount }) ==> (result
                is Success ==> match find_stream(before.streams@, id) {
                Some(sb) => amount <= sb.accrued_vested - sb.withdrawn || amount <= 0,
                None => true,
            }))
        },
{
    lemma_accrual_delta_from(before.streams@, after.streams@, 0);
}

/// Per-stream conservation: no negative amount and `total == withdrawn + remaining + refunded`.
pub open spec fn stream_conserved(s: StreamSnapshot) -> bool {
    &&& s.total >= 0 && s.withdrawn >= 0 && s.remaining >= 0 && s.refunded_sender >= 0
    &&& s.total == s.withdrawn + s.remaining + s.refunded_sender
}

/// Sums of `(total, withdrawn, remaining, refunded)` over the streams from index `i` on.
pub open spec fn stream_sums_from(ss: Seq<StreamSnapshot>, i: int) -> (int, int, int, int)
    decreases ss.len() - i,
{
    if i < 0 || i >= ss.len() {
        (0, 0, 0, 0)
    } else {
        let rest = stream_sums_from(ss, i + 1);
        (
            ss[i].total + rest.0,
            ss[i].withdrawn + rest.1,
            ss[i].remaining + rest.2,
            ss[i].refunded_sender + rest.3,
        )
    }
}

proof fn lemma_stream_balance_scan(ss: Seq<StreamSnapshot>, i: int, acc: (int, int, int, int))
    requires
        0 <= i <= ss.len(),
        acc.0 >= 0 && acc.1 >= 0 && acc.2 >= 0 && acc.3 >= 0,
    ensures
        ({
            let sums = stream_sums_from(ss, i);
            let conserved = forall|j: int| i <= j < ss.len() ==> stream_conserved(#[trigger] ss[j]);
            &&& (stream_balance_scan(ss, i, acc).0 is Pass) ==> conserved && stream_balance_scan(
                ss,
                i,
                acc,
            ).1 == (acc.0 + sums.0, acc.1 + sums.1, acc.2 + sums.2, acc.3 + sums.3)
            &&& conserved && fits_i128(acc.0 + sums.0) && fits_i128(acc.1 + sums.1) && fits_i128(
                acc.2 + sums.2,
            ) && fits_i128(acc.3 + sums.3) ==> stream_balance_scan(ss, i, acc).0 is Pass
            &&& conserved ==> sums.0 >= 0 && sums.1 >= 0 && sums.2 >= 0 && sums.3 >= 0
        }),
    decreases ss.len() - i,
{
    if i < ss.len() {
        let s = ss[i];
        if stream_conserved(s) {
            lemma_stream_balance_scan(
                ss,
                i + 1,
                (acc.0 + s.total, acc.1 + s.withdrawn, acc.2 + s.remaining, acc.3 + s.refunded_sender),
            );
        } else {
            lemma_stream_balance_scan(ss, i + 1, acc);
        }
    }
}

/// Streaming conservation: every stream is conserved; `total_deposited`, `total_withdrawn`
/// and `total_refunded` equal the sums over the streams; deposits equal withdrawals plus
/// remaining plus refunds; and an observed token balance covers the remaining liabilities.
pub open spec fn streaming_conserved(st: StreamingStateSnapshot) -> bool {
    let sums = stream_sums_from(st.streams@, 0);
    &&& forall|j: int| 0 <= j < st.streams@.len() ==> stream_conserved(#[trigger] st.streams@[j])
    &&& st.total_deposited == sums.0
    &&& st.total_withdrawn == sums.1
    &&& st.total_refunded == sums.3
    &&& st.total_deposited == st.total_withdrawn + sums.2 + st.total_refunded
    &&& (st.contract_token_balance matches Some(t) ==> t >= sums.2)
}

/// [`StreamingBalanceConservation`] passes exactly on conserved streaming snapshots.
pub proof fn law_streaming_balance_conservation(st: StreamingStateSnapshot)
    ensures
        (streaming_balance_verdict(st) is Pass) <==> streaming_conserved(st),
{
    lemma_stream_balance_scan(st.streams@, 0, (0, 0, 0, 0));
}

/// Terminal streams hold nothing more: a cancelled stream has no remaining balance, and a
/// completed one has no remaining balance and has paid out its total.
pub open spec fn terminal_settled(s: StreamSnapshot) -> bool {
    &&& (s.status is Cancelled ==> s.remaining == 0)
    &&& (s.status is Completed ==> s.remaining == 0 && s.withdrawn == s.total)
}

proof fn lemma_closed_state_from(ss: Seq<StreamSnapshot>, i: int)
    requires
        0 <= i <= ss.len(),
    ensures
        (closed_state_from(ss, i) is Pass) <==> forall|j: int|
            i <= j < ss.len() ==> terminal_settled(#[trigger] ss[j]),
    decreases ss.len() - i,
{
    if i < ss.len() {
        lemma_closed_state_from(ss, i + 1);
    }
}

/// The state part of [`NoClaimAfterCloseOrCancel`] passes exactly when every terminal
/// stream is settled.
pub proof fn law_no_claim_after_close_state(st: StreamingStateSnapshot)
    ensures
        (closed_state_from(st.streams@, 0) is Pass) <==> forall|j: int|
            0 <= j < st.streams@.len() ==> terminal_settled(#[trigger] st.streams@[j]),
{
    lemma_closed_state_from(st.streams@, 0);
}

proof fn lemma_closed_transition_from(before: Seq<StreamSnapshot>, after: Seq<StreamSnapshot>, i: int)
    requires
        0 <= i <= before.len(),
    ensures
        (closed_transition_from(before, after, i) is Pass) <==> forall|j: int|
            i <= j < before.len() ==> match find_stream(after, #[trigger] before[j].id) {
                Some(sa) => closed_pair(before[j], sa) is Pass,
                None => true,
            },
    decreases before.len() - i,
{
    if i < before.len() {
        lemma_closed_transition_from(before, after, i + 1);
    }
}

proof fn lemma_find_stream_from(ms: Seq<StreamSnapshot>, id: u64, i: int)
    requires
        0 <= i <= ms.len(),
    ensures
        find_stream_from(ms, id, i) is None <==> forall|j: int|
            i <= j < ms.len() ==> (#[trigger] ms[j]).id != id,
        find_stream_from(ms, id, i) is Some ==> exists|j: int|
            i <= j < ms.len() && #[trigger] ms[j] == find_stream_from(ms, id, i)->0 && ms[j].id
                == id && forall|k: int| i <= k < j ==> (#[trigger] ms[k]).id != id,
    decreases ms.len() - i,
{
    if i < ms.len() {
        lemma_find_stream_from(ms, id, i + 1);
        if ms[i].id == id {
            assert(ms[i] == find_stream_from(ms, id, i)->0);
        } else if find_stream_from(ms, id, i + 1) is Some {
            let j = choose|j: int|
                i + 1 <= j < ms.len() && #[trigger] ms[j] == find_stream_from(ms, id, i + 1)->0
                    && ms[j].id == id && forall|k: int| i + 1 <= k < j ==> (#[trigger] ms[k]).id
                    != id;
            assert(forall|k: int| i <= k < j ==> (#[trigger] ms[k]).id != id);
        }
    }
}

/// Streams are matched by id: the first stream with the id is found, and none is found
/// exactly when no stream has it.
pub proof fn law_find_stream(ms: Seq<StreamSnapshot>, id: u64)
    ensures
        find_stream(ms, id) is None <==> forall|j: int|
            0 <= j < ms.len() ==> (#[trigger] ms[j]).id != id,
        find_stream(ms, id) is Some ==> exists|j: int|
            0 <= j < ms.len() && #[trigger] ms[j] == find_stream(ms, id)->0 && ms[j].id == id
                && forall|k: int| 0 <= k < j ==> (#[trigger] ms[k]).id != id,
{
    lemma_find_stream_from(ms, id, 0);
}

/// Each stream status is printed by its own name.
pub proof fn law_stream_status_name()
    ensures
        stream_status_name(StreamStatusKind::Active)@ == "Active"@,
        stream_status_name(StreamStatusKind::Cancelled)@ == "Cancelled"@,
        stream_status_name(StreamStatusKind::Completed)@ == "Completed"@,
{
}

/// A stream is terminated exactly when it is cancelled or completed.
pub proof fn law_terminated_status(s: StreamStatusKind)
    ensures
        is_terminated(s) <==> (s is Cancelled || s is Completed),
        !is_terminated(s) <==> s is Active,
{
}

/// The transition part of [`NoClaimAfterCloseOrCancel`] passes exactly when every stream
/// that was terminal before (against the first stream of `after` with its id) withdrew
/// nothing more and did not become active again, and a successful withdrawal targets no
/// stream that was terminal before.
pub proof fn law_no_claim_after_close_transition(
    before: StreamingStateSnapshot,
    after: StreamingStateSnapshot,
    kind: Option<StreamingActionKind>,
    result: ActionResult,
)
    ensures
        (closed_transition_verdict(before, after, kind, result) is Pass) <==> {
            &&& forall|j: int|
                0 <= j < before.streams@.len() ==> match find_stream(
                    after.streams@,
                    #[trigger] before.streams@[j].id,
                ) {
                    Some(sa) => (before.streams@[j].status is Cancelled
                        || before.streams@[j].status is Completed) ==> sa.withdrawn
                        <= before.streams@[j].withdrawn && !(sa.status is Active),
                    None => true,
                }
            &&& (kind matches Some(StreamingActionKind::Withdraw { id, .. }) ==> (result
                is Success ==> match find_stream(before.streams@, id) {
                Some(sb) => sb.status is Active,
                None => true,
            }))
        },
{
    lemma_closed_transition_from(before.streams@, after.streams@, 0);
}

proof fn lemma_monotonic_from(
    before: Seq<StreamSnapshot>,
    after: Seq<StreamSnapshot>,
    before_time: u64,
    after_time: u64,
    i: int,
)
    requires
        0 <= i <= before.len(),
    ensures
        (monotonic_from(before, after, before_time, after_time, i) is Pass) <==> forall|j: int|
            i <= j < before.len() && #[trigger] before[j].status is Active ==> match find_stream(
                after,
                before[j].id,
            ) {
                Some(sa) => sa.status is Active && sa.end_time >= before[j].end_time
                    ==> sa.accrued_vested >= before[j].accrued_vested,
                None => true,
            },
    decreases before.len() - i,
{
    if i < before.len() {
        lemma_monotonic_from(before, after, before_time, after_time, i + 1);
    }
}

/// [`StreamingMonotonicProgress`] passes exactly when time went backwards, or every stream
/// that was active and stays active with an end time not shortened has not lost accrual.
pub proof fn law_streaming_monotonic_progress(
    before: StreamingStateSnapshot,
    after: StreamingStateSnapshot,
)
    ensures
        (monotonic_verdict(before, after) is Pass) <==> (after.timestamp < before.timestamp
            || forall|j: int|
            0 <= j < before.streams@.len() && #[trigger] before.streams@[j].status is Active
                ==> match find_stream(after.streams@, before.streams@[j].id) {
                Some(sa) => sa.status is Active && sa.end_time >= before.streams@[j].end_time
                    ==> sa.accrued_vested >= before.streams@[j].accrued_vested,
                None => true,
            }),
{
    lemma_monotonic_from(before.streams@, after.streams@, before.timestamp, after.timestamp, 0);
}

proof fn lemma_stream_sums_push(s: Seq<StreamSnapshot>, x: StreamSnapshot, i: int)
    requires
        0 <= i <= s.len(),
    ensures
        stream_sums_from(s.push(x), i).0 == stream_sums_from(s, i).0 + x.total,
        stream_sums_from(s.push(x), i).1 == stream_sums_from(s, i).1 + x.withdrawn,
        stream_sums_from(s.push(x), i).2 == stream_sums_from(s, i).2 + x.remaining,
        stream_sums_from(s.push(x), i).3 == stream_sums_from(s, i).3 + x.refunded_sender,
    decreases s.len() - i,
{
    if i < s.len() {
        assert(s.push(x)[i] == s[i]);
        lemma_stream_sums_push(s, x, i + 1);
    } else {
        assert(s.push(x)[i] == x);
        reveal_with_fuel(stream_sums_from, 2);
    }
}

/// The stream sums add up the totals, withdrawn, remaining and refunded amounts of all
/// streams, whatever their status: nothing for none, and one more stream adds its amounts.
pub proof fn law_stream_sums_from(s: Seq<StreamSnapshot>, x: StreamSnapshot)
    ensures
        stream_sums_from(Seq::<StreamSnapshot>::empty(), 0) == (0int, 0int, 0int, 0int),
        stream_sums_from(s.push(x), 0).0 == stream_sums_from(s, 0).0 + x.total,
        stream_sums_from(s.push(x), 0).1 == stream_sums_from(s, 0).1 + x.withdrawn,
        stream_sums_from(s.push(x), 0).2 == stream_sums_from(s, 0).2 + x.remaining,
        stream_sums_from(s.push(x), 0).3 == stream_sums_from(s, 0).3 + x.refunded_sender,
{
    lemma_stream_sums_push(s, x, 0);
}

} // verus!
