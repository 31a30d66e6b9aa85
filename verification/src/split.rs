//! Split payments: normalized snapshots, the split adapter trait and the split-payment
//! invariant pack.
//!
//! - [`ShareSumConservation`]: recipient shares sum to exactly 10,000 basis points.
//! - [`SplitPayoutConservation`]: deposits equal distributed plus dust plus unclaimed.
//! - [`NoDuplicatePayout`]: batches are not paid twice and claims stay within allocations.
//! - [`SplitSolvency`]: the token balance covers unclaimed allocations and dust.

use vstd::prelude::*;
use crate::adapter::{ActionResult, ContractAdapter};
use crate::invariants::{
    boxed, fail_text, fail_with, fails, fits_i128, Invariant, InvariantResult, InvariantSet, Verdict,
};
use crate::text::{render, Piece};

verus! {

/// Basis points representing exactly 100.00%.
pub const TOTAL_SHARE_BPS: u32 = 10_000;

/// Normalized snapshot of an individual recipient's share allocation and claims.
#[derive(Debug, Clone, PartialEq, Eq)]
pub struct RecipientShareSnapshot {
    /// Identifier or address of the recipient.
    pub recipient: String,
    /// Configured share of distributions in basis points.
    pub share_bps: u32,
    /// Cumulative tokens allocated to this recipient across all deposits.
    pub total_allocated: i128,
    /// Cumulative tokens claimed by this recipient.
    pub total_claimed: i128,
    /// Currently claimable balance for this recipient.
    pub unclaimed_balance: i128,
}

/// Normalized snapshot of a split batch / deposit event.
#[derive(Debug, Clone, PartialEq, Eq)]
pub struct SplitBatchSnapshot {
    /// Unique identifier of the batch.
    pub batch_id: u64,
    /// Total incoming token deposit for this batch.
    pub total_amount: i128,
    /// Tokens distributed/allocated to recipients for this batch.
    pub distributed_amount: i128,
    /// Remainder left undistributed by integer division.
    pub unallocated_dust: i128,
    /// Whether this batch has been fully distributed.
    pub is_distributed: bool,
}

/// Normalized snapshot of the split payment contract state.
#[derive(Debug, Clone, PartialEq, Eq)]
pub struct SplitStateSnapshot {
    /// Total basis points configured across all recipients.
    pub total_shares_bps: u32,
    /// Recipient share configurations and balances.
    pub recipients: Vec<RecipientShareSnapshot>,
    /// Batches processed by the contract.
    pub batches: Vec<SplitBatchSnapshot>,
    /// Cumulative tokens deposited across all batches.
    pub total_deposited: i128,
    /// Cumulative tokens distributed to recipients.
    pub total_distributed: i128,
    /// Cumulative dust retained by the contract.
    pub total_dust: i128,
    /// Token balance held by the split contract, if observed.
    pub contract_token_balance: Option<i128>,
}

/// High-level classification of actions in a split payment system.
#[derive(Debug, Clone, PartialEq, Eq)]
pub enum SplitActionKind {
    /// Configuring recipient share ratios.
    ConfigureShares { total_bps: u32 },
    /// Depositing tokens and splitting them across recipients.
    DepositAndSplit { batch_id: u64, amount: i128 },
    /// A recipient claiming their accumulated balance.
    ClaimShare { recipient: String, amount: i128 },
    /// Distributing a pending batch.
    DistributeBatch { batch_id: u64 },
    /// Other custom action.
    Other,
}

/// Adapter trait bridging concrete split-payment contracts to the normalized checks.
pub trait SplitAdapter: ContractAdapter {
    // The two specification functions below are what the contracts of `inspect_split` and
    // `classify_action` speak of. An implementation verified with Verus defines them to match
    // its code and is checked against them. An implementation written outside Verus keeps the
    // defaults, for which those contracts are false, so nothing proved from them holds for it.

    /// The normalized snapshot of a concrete state.
    open spec fn spec_inspect_split(state: Self::State) -> SplitStateSnapshot {
        vstd::pervasive::arbitrary()
    }

    /// The classification of a concrete action.
    open spec fn spec_classify_action(action: Self::Action) -> Option<SplitActionKind> {
        None
    }

    /// Extracts a [`SplitStateSnapshot`] from the adapter's concrete state.
    fn inspect_split(state: &Self::State) -> (r: SplitStateSnapshot)
        ensures
            r == Self::spec_inspect_split(*state),
    ;

    /// Classifies an action into a standard split action, when it is one.
    /// Every adapter provides it; one that exposes no standard action returns `None`.
    fn classify_action(action: &Self::Action) -> (r: Option<SplitActionKind>)
        ensures
            r == Self::spec_classify_action(*action),
    ;
}

// ---------------------------------------------------------------------------
// Shared helpers
// ---------------------------------------------------------------------------

/// The first batch at or after index `i` whose id is `id`.
pub open spec fn find_batch_from(bs: Seq<SplitBatchSnapshot>, id: u64, i: int) -> Option<
    SplitBatchSnapshot,
>
    decreases bs.len() - i,
{
    if i < 0 || i >= bs.len() {
        None
    } else if bs[i].batch_id == id {
        Some(bs[i])
    } else {
        find_batch_from(bs, id, i + 1)
    }
}

/// The first batch whose id is `id`.
pub open spec fn find_batch(bs: Seq<SplitBatchSnapshot>, id: u64) -> Option<SplitBatchSnapshot> {
    find_batch_from(bs, id, 0)
}

fn find_batch_index(bs: &Vec<SplitBatchSnapshot>, id: u64) -> (r: Option<usize>)
    ensures
        match r {
            Some(k) => k < bs@.len() && find_batch(bs@, id) == Some(bs@[k as int]),
            None => find_batch(bs@, id) is None,
        },
{
    let mut i: usize = 0;
    while i < bs.len()
        invariant
            i <= bs@.len(),
            find_batch(bs@, id) == find_batch_from(bs@, id, i as int),
        decreases bs@.len() - i,
    {
        if bs[i].batch_id == id {
            return Some(i);
        }
        i = i + 1;
    }
    None
}

/// The first recipient at or after index `i` whose name is `name`.
pub open spec fn find_recipient_from(
    rs: Seq<RecipientShareSnapshot>,
    name: Seq<char>,
    i: int,
) -> Option<RecipientShareSnapshot>
    decreases rs.len() - i,
{
    if i < 0 || i >= rs.len() {
        None
    } else if rs[i].recipient@ == name {
        Some(rs[i])
    } else {
        find_recipient_from(rs, name, i + 1)
    }
}

/// The first recipient whose name is `name`.
pub open spec fn find_recipient(rs: Seq<RecipientShareSnapshot>, name: Seq<char>) -> Option<
    RecipientShareSnapshot,
> {
    find_recipient_from(rs, name, 0)
}

fn find_recipient_index(rs: &Vec<RecipientShareSnapshot>, name: &String) -> (r: Option<usize>)
    ensures
        match r {
            Some(k) => k < rs@.len() && find_recipient(rs@, name@) == Some(rs@[k as int]),
            None => find_recipient(rs@, name@) is None,
        },
{
    let mut i: usize = 0;
    while i < rs.len()
        invariant
            i <= rs@.len(),
            find_recipient(rs@, name@) == find_recipient_from(rs@, name@, i as int),
        decreases rs@.len() - i,
    {
        if rs[i].recipient == *name {
            return Some(i);
        }
        i = i + 1;
    }
    None
}

/// Whether the mathematical difference `a - b` exceeds `c`.
fn diff_gt(a: i128, b: i128, c: i128) -> (r: bool)
    ensures
        r == (a - b > c),
{
    match a.checked_sub(b) {
        Some(d) => d > c,
        None => a >= 0,
    }
}

// ---------------------------------------------------------------------------
// Invariant 1: ShareSumConservation
// ---------------------------------------------------------------------------

/// Scan of recipient shares from index `i` on with running sum `sum`: the verdict and the
/// sum reached; the scan stops at the first violation.
pub open spec fn share_scan(rs: Seq<RecipientShareSnapshot>, i: int, sum: int) -> (Verdict, int)
    decreases rs.len() - i,
{
    if i < 0 || i >= rs.len() {
        (Verdict::Pass, sum)
    } else if rs[i].share_bps > TOTAL_SHARE_BPS {
        (
            fails(
                render(
                    seq![
                        Piece::Text("Recipient "),
                        Piece::Str(&rs[i].recipient),
                        Piece::Text(" has invalid share_bps "),
                        Piece::Int(rs[i].share_bps as i128),
                        Piece::Text(" > "),
                        Piece::Int(TOTAL_SHARE_BPS as i128),
                    ],
                ),
            ),
            sum,
        )
    } else if sum + rs[i].share_bps > u32::MAX {
        (fails("Overflow summing recipient share basis points"@), sum)
    } else {
        share_scan(rs, i + 1, sum + rs[i].share_bps)
    }
}

/// Verdict of the state part of [`ShareSumConservation`] on a split snapshot.
pub open spec fn share_sum_verdict(sp: SplitStateSnapshot) -> Verdict {
    let (scan, sum) = share_scan(sp.recipients@, 0, 0);
    if sp.recipients@.len() == 0 && sp.total_shares_bps == 0 {
        Verdict::Pass
    } else if scan is Violation {
        scan
    } else if sum != TOTAL_SHARE_BPS {
        fails(
            render(
                seq![
                    Piece::Text("Share sum broken: sum of recipient shares is "),
                    Piece::Int(sum as i128),
                    Piece::Text(" bps, expected exactly "),
                    Piece::Int(TOTAL_SHARE_BPS as i128),
                    Piece::Text(" bps (100.00%)"),
                ],
            ),
        )
    } else if sp.total_shares_bps != sum {
        fails(
            render(
                seq![
                    Piece::Text("Reported total_shares_bps ("),
                    Piece::Int(sp.total_shares_bps as i128),
                    Piece::Text(") != actual sum of recipient shares ("),
                    Piece::Int(sum as i128),
                    Piece::Text(")"),
                ],
            ),
        )
    } else {
        Verdict::Pass
    }
}

/// Verdict of the transition part of [`ShareSumConservation`].
pub open spec fn share_transition_verdict(
    after: SplitStateSnapshot,
    kind: Option<SplitActionKind>,
    result: ActionResult,
) -> Verdict {
    match kind {
        Some(SplitActionKind::ConfigureShares { total_bps }) => if total_bps != TOTAL_SHARE_BPS
            && result is Success {
            fails(
                render(
                    seq![
                        Piece::Text("ConfigureShares action succeeded with invalid total_bps "),
                        Piece::Int(total_bps as i128),
                        Piece::Text(" (expected 10,000)"),
                    ],
                ),
            )
        } else {
            share_sum_verdict(after)
        },
        _ => share_sum_verdict(after),
    }
}

#[verifier::loop_isolation(false)]
fn share_sum_check(sp: &SplitStateSnapshot) -> (r: InvariantResult)
    ensures
        r@ == share_sum_verdict(*sp),
{
    if sp.recipients.len() == 0 && sp.total_shares_bps == 0 {
        return InvariantResult::Pass;
    }
    let rs = &sp.recipients;
    let mut sum_bps: u32 = 0;
    let mut i: usize = 0;
    while i < rs.len()
        invariant
            i <= rs@.len(),
            share_scan(rs@, 0, 0) == share_scan(rs@, i as int, sum_bps as int),
        decreases rs@.len() - i,
    {
        let r = &rs[i];
        if r.share_bps > TOTAL_SHARE_BPS {
            return fail_with(
                vec![
                    Piece::Text("Recipient "),
                    Piece::Str(&r.recipient),
                    Piece::Text(" has invalid share_bps "),
                    Piece::Int(r.share_bps as i128),
                    Piece::Text(" > "),
                    Piece::Int(TOTAL_SHARE_BPS as i128),
                ],
            );
        }
        sum_bps = match sum_bps.checked_add(r.share_bps) {
            Some(v) => v,
            None => {
                return fail_text("Overflow summing recipient share basis points");
            },
        };
        i = i + 1;
    }
    if sum_bps != TOTAL_SHARE_BPS {
        return fail_with(
            vec![
                Piece::Text("Share sum broken: sum of recipient shares is "),
                Piece::Int(sum_bps as i128),
                Piece::Text(" bps, expected exactly "),
                Piece::Int(TOTAL_SHARE_BPS as i128),
                Piece::Text(" bps (100.00%)"),
            ],
        );
    }
    if sp.total_shares_bps != sum_bps {
        return fail_with(
            vec![
                Piece::Text("Reported total_shares_bps ("),
                Piece::Int(sp.total_shares_bps as i128),
                Piece::Text(") != actual sum of recipient shares ("),
                Piece::Int(sum_bps as i128),
                Piece::Text(")"),
            ],
        );
    }
    InvariantResult::Pass
}

/// Invariant: recipient shares sum to exactly 10,000 basis points (100.00%), each share is
/// at most 10,000, and the reported total equals the sum; an unconfigured contract (no
/// recipients, total 0) passes. A share configuration with another total never succeeds.
pub struct ShareSumConservation;

impl<A: SplitAdapter> Invariant<A> for ShareSumConservation {
    open spec fn spec_name(&self) -> Seq<char> {
        "ShareSumConservation"@
    }

    open spec fn spec_check_state(&self, state: A::State) -> Verdict {
        share_sum_verdict(A::spec_inspect_split(state))
    }

    open spec fn spec_check_transition(
        &self,
        before: A::State,
        after: A::State,
        action: A::Action,
        result: ActionResult,
    ) -> Verdict {
        share_transition_verdict(A::spec_inspect_split(after), A::spec_classify_action(action), result)
    }

    fn name(&self) -> (r: &'static str) {
        "ShareSumConservation"
    }

    fn description(&self) -> &'static str
        returns
            "Sum of configured recipient share basis points must strictly equal 10,000 (100.00%)",
    {
        "Sum of configured recipient share basis points must strictly equal 10,000 (100.00%)"
    }

    fn check_state(&self, state: &A::State) -> (r: InvariantResult) {
        let split = A::inspect_split(state);
        share_sum_check(&split)
    }

    fn check_transition(
        &self,
        before: &A::State,
        after: &A::State,
        action: &A::Action,
        result: &ActionResult,
    ) -> (r: InvariantResult) {
        if let Some(SplitActionKind::ConfigureShares { total_bps }) = A::classify_action(action) {
            if total_bps != TOTAL_SHARE_BPS && result.is_ok() {
                return fail_with(
                    vec![
                        Piece::Text("ConfigureShares action succeeded with invalid total_bps "),
                        Piece::Int(total_bps as i128),
                        Piece::Text(" (expected 10,000)"),
                    ],
                );
            }
        }
        Invariant::<A>::check_state(self, after)
    }
}

// ---------------------------------------------------------------------------
// Invariant 2: SplitPayoutConservation
// ---------------------------------------------------------------------------

/// Scan of batches from index `i` on with running sums `(totals, distributed, dust)`:
/// the verdict and the sums reached; the scan stops at the first violation.
pub open spec fn batch_scan(bs: Seq<SplitBatchSnapshot>, i: int, sums: (int, int, int)) -> (
    Verdict,
    (int, int, int),
)
    decreases bs.len() - i,
{
    if i < 0 || i >= bs.len() {
        (Verdict::Pass, sums)
    } else {
        let b = bs[i];
        if b.total_amount < 0 || b.distributed_amount < 0 || b.unallocated_dust < 0 {
            (
                fails(
                    render(
                        seq![
                            Piece::Text("Batch "),
                            Piece::Int(b.batch_id as i128),
                            Piece::Text(" has negative financial amounts: total="),
                            Piece::Int(b.total_amount),
                            Piece::Text(", distributed="),
                            Piece::Int(b.distributed_amount),
                            Piece::Text(", dust="),
                            Piece::Int(b.unallocated_dust),
                        ],
                    ),
                ),
                sums,
            )
        } else if b.distributed_amount > b.total_amount {
            (
                fails(
                    render(
                        seq![
                            Piece::Text("Batch "),
                            Piece::Int(b.batch_id as i128),
                            Piece::Text(" distributed_amount ("),
                            Piece::Int(b.distributed_amount),
                            Piece::Text(") exceeds total_amount ("),
                            Piece::Int(b.total_amount),
                            Piece::Text(")"),
                        ],
                    ),
                ),
                sums,
            )
        } else if !fits_i128(b.distributed_amount + b.unallocated_dust) {
            (
                fails(
                    render(
                        seq![
                            Piece::Text("Overflow adding distributed and dust on batch "),
                            Piece::Int(b.batch_id as i128),
                        ],
                    ),
                ),
                sums,
            )
        } else if b.total_amount != b.distributed_amount + b.unallocated_dust {
            (
                fails(
                    render(
                        seq![
                            Piece::Text("Batch "),
                            Piece::Int(b.batch_id as i128),
                            Piece::Text(" conservation broken: total ("),
                            Piece::Int(b.total_amount),
                            Piece::Text(") != distributed ("),
                            Piece::Int(b.distributed_amount),
                            Piece::Text(") + dust ("),
                            Piece::Int(b.unallocated_dust),
                            Piece::Text(")"),
                        ],
                    ),
                ),
                sums,
            )
        } else if !fits_i128(sums.0 + b.total_amount) {
            (fails("Overflow summing batch totals"@), sums)
        } else if !fits_i128(sums.1 + b.distributed_amount) {
            (fails("Overflow summing batch distributed"@), sums)
        } else if !fits_i128(sums.2 + b.unallocated_dust) {
            (fails("Overflow summing batch dust"@), sums)
        } else {
            batch_scan(
                bs,
                i + 1,
                (
                    sums.0 + b.total_amount,
                    sums.1 + b.distributed_amount,
                    sums.2 + b.unallocated_dust,
                ),
            )
        }
    }
}

/// Scan of recipients from index `i` on with running sums `(allocated, claimed, unclaimed)`:
/// the verdict and the sums reached; the scan stops at the first violation.
pub open spec fn recipient_scan(
    rs: Seq<RecipientShareSnapshot>,
    i: int,
    sums: (int, int, int),
) -> (Verdict, (int, int, int))
    decreases rs.len() - i,
{
    if i < 0 || i >= rs.len() {
        (Verdict::Pass, sums)
    } else {
        let r = rs[i];
        if r.total_allocated < 0 || r.total_claimed < 0 || r.unclaimed_balance < 0 {
            (
                fails(
                    render(
                        seq![
                            Piece::Text("Recipient "),
                            Piece::Str(&rs[i].recipient),
                            Piece::Text(" has negative balance: allocated="),
                            Piece::Int(r.total_allocated),
                            Piece::Text(", claimed="),
                            Piece::Int(r.total_claimed),
                            Piece::Text(", unclaimed="),
                            Piece::Int(r.unclaimed_balance),
                        ],
                    ),
                ),
                sums,
            )
        } else if !fits_i128(r.total_claimed + r.unclaimed_balance) {
            (
                fails(
                    render(
                        seq![
                            Piece::Text("Overflow adding claimed and unclaimed for recipient "),
                            Piece::Str(&rs[i].recipient),
                        ],
                    ),
                ),
                sums,
            )
        } else if r.total_allocated != r.total_claimed + r.unclaimed_balance {
            (
                fails(
                    render(
                        seq![
                            Piece::Text("Recipient "),
                            Piece::Str(&rs[i].recipient),
                            Piece::Text(" balance mismatch: total_allocated ("),
                            Piece::Int(r.total_allocated),
                            Piece::Text(") != claimed ("),
                            Piece::Int(r.total_claimed),
                            Piece::Text(") + unclaimed ("),
                            Piece::Int(r.unclaimed_balance),
                            Piece::Text(")"),
                        ],
                    ),
                ),
                sums,
            )
        } else if !fits_i128(sums.0 + r.total_allocated) {
            (fails("Overflow summing recipient allocated"@), sums)
        } else if !fits_i128(sums.1 + r.total_claimed) {
            (fails("Overflow summing recipient claimed"@), sums)
        } else if !fits_i128(sums.2 + r.unclaimed_balance) {
            (fails("Overflow summing recipient unclaimed"@), sums)
        } else {
            recipient_scan(
                rs,
                i + 1,
                (
                    sums.0 + r.total_allocated,
                    sums.1 + r.total_claimed,
                    sums.2 + r.unclaimed_balance,
                ),
            )
        }
    }
}

/// Verdict of [`SplitPayoutConservation`] on a split snapshot.
pub open spec fn payout_verdict(sp: SplitStateSnapshot) -> Verdict {
    let (batch_verdict, bsums) = batch_scan(sp.batches@, 0, (0, 0, 0));
    let (recipient_verdict, rsums) = recipient_scan(sp.recipients@, 0, (0, 0, 0));
    let accounted = sp.total_distributed + sp.total_dust + rsums.2;
    if batch_verdict is Violation {
        batch_verdict
    } else if recipient_verdict is Violation {
        recipient_verdict
    } else if sp.total_deposited != bsums.0 {
        fails(
            render(
                seq![
                    Piece::Text("Global total_deposited ("),
                    Piece::Int(sp.total_deposited),
                    Piece::Text(") != sum of batch totals ("),
                    Piece::Int(bsums.0 as i128),
                    Piece::Text(")"),
                ],
            ),
        )
    } else if sp.total_dust != bsums.2 {
        fails(
            render(
                seq![
                    Piece::Text("Global total_dust ("),
                    Piece::Int(sp.total_dust),
                    Piece::Text(") != sum of batch dust ("),
                    Piece::Int(bsums.2 as i128),
                    Piece::Text(")"),
                ],
            ),
        )
    } else if !fits_i128(sp.total_distributed + sp.total_dust) || !fits_i128(accounted) {
        fails("Overflow in global split conservation calculation"@)
    } else if sp.total_deposited != accounted {
        fails(
            render(
                seq![
                    Piece::Text("Global conservation broken: total_deposited ("),
                    Piece::Int(sp.total_deposited),
                    Piece::Text(") != total_distributed ("),
                    Piece::Int(sp.total_distributed),
                    Piece::Text(") + dust ("),
                    Piece::Int(sp.total_dust),
                    Piece::Text(") + unclaimed ("),
                    Piece::Int(rsums.2 as i128),
                    Piece::Text(") [accounted: "),
                    Piece::Int(accounted as i128),
                    Piece::Text("]"),
                ],
            ),
        )
    } else {
        Verdict::Pass
    }
}

#[verifier::loop_isolation(false)]
fn payout_check(sp: &SplitStateSnapshot) -> (r: InvariantResult)
    ensures
        r@ == payout_verdict(*sp),
{
    let bs = &sp.batches;
    let mut sum_batch_total: i128 = 0;
    let mut sum_batch_distributed: i128 = 0;
    let mut sum_batch_dust: i128 = 0;
    let mut i: usize = 0;
    while i < bs.len()
        invariant
            i <= bs@.len(),
            batch_scan(bs@, 0, (0, 0, 0)) == batch_scan(
                bs@,
                i as int,
                (sum_batch_total as int, sum_batch_distributed as int, sum_batch_dust as int),
            ),
        decreases bs@.len() - i,
    {
        let b = &bs[i];
        if b.total_amount < 0 || b.distributed_amount < 0 || b.unallocated_dust < 0 {
            return fail_with(
                vec![
                    Piece::Text("Batch "),
                    Piece::Int(b.batch_id as i128),
                    Piece::Text(" has negative financial amounts: total="),
                    Piece::Int(b.total_amount),
                    Piece::Text(", distributed="),
                    Piece::Int(b.distributed_amount),
                    Piece::Text(", dust="),
                    Piece::Int(b.unallocated_dust),
                ],
            );
        }
        if b.distributed_amount > b.total_amount {
            return fail_with(
                vec![
                    Piece::Text("Batch "),
                    Piece::Int(b.batch_id as i128),
                    Piece::Text(" distributed_amount ("),
                    Piece::Int(b.distributed_amount),
                    Piece::Text(") exceeds total_amount ("),
                    Piece::Int(b.total_amount),
                    Piece::Text(")"),
                ],
            );
        }
        let expected_total = match b.distributed_amount.checked_add(b.unallocated_dust) {
            Some(v) => v,
            None => {
                return fail_with(
                    vec![
                        Piece::Text("Overflow adding distributed and dust on batch "),
                        Piece::Int(b.batch_id as i128),
                    ],
                );
            },
        };
        if b.total_amount != expected_total {
            return fail_with(
                vec![
                    Piece::Text("Batch "),
                    Piece::Int(b.batch_id as i128),
                    Piece::Text(" conservation broken: total ("),
                    Piece::Int(b.total_amount),
                    Piece::Text(") != distributed ("),
                    Piece::Int(b.distributed_amount),
                    Piece::Text(") + dust ("),
                    Piece::Int(b.unallocated_dust),
                    Piece::Text(")"),
                ],
            );
        }
        sum_batch_total = match sum_batch_total.checked_add(b.total_amount) {
            Some(v) => v,
            None => {
                return fail_text("Overflow summing batch totals");
            },
        };
        sum_batch_distributed = match sum_batch_distributed.checked_add(b.distributed_amount) {
            Some(v) => v,
            None => {
                return fail_text("Overflow summing batch distributed");
            },
        };
        sum_batch_dust = match sum_batch_dust.checked_add(b.unallocated_dust) {
            Some(v) => v,
            None => {
                return fail_text("Overflow summing batch dust");
            },
        };
        i = i + 1;
    }
    let rs = &sp.recipients;
    let mut sum_allocated: i128 = 0;
    let mut sum_claimed: i128 = 0;
    let mut sum_unclaimed: i128 = 0;
    let mut j: usize = 0;
    while j < rs.len()
        invariant
            j <= rs@.len(),
            recipient_scan(rs@, 0, (0, 0, 0)) == recipient_scan(
                rs@,
                j as int,
                (sum_allocated as int, sum_claimed as int, sum_unclaimed as int),
            ),
        decreases rs@.len() - j,
    {
        let r = &rs[j];
        if r.total_allocated < 0 || r.total_claimed < 0 || r.unclaimed_balance < 0 {
            return fail_with(
                vec![
                    Piece::Text("Recipient "),
                    Piece::Str(&r.recipient),
                    Piece::Text(" has negative balance: allocated="),
                    Piece::Int(r.total_allocated),
                    Piece::Text(", claimed="),
                    Piece::Int(r.total_claimed),
                    Piece::Text(", unclaimed="),
                    Piece::Int(r.unclaimed_balance),
                ],
            );
        }
        let expected_alloc = match r.total_claimed.checked_add(r.unclaimed_balance) {
            Some(v) => v,
            None => {
                return fail_with(
                    vec![
                        Piece::Text("Overflow adding claimed and unclaimed for recipient "),
                        Piece::Str(&r.recipient),
                    ],
                );
            },
        };
        if r.total_allocated != expected_alloc {
            return fail_with(
                vec![
                    Piece::Text("Recipient "),
                    Piece::Str(&r.recipient),
                    Piece::Text(" balance mismatch: total_allocated ("),
                    Piece::Int(r.total_allocated),
                    Piece::Text(") != claimed ("),
                    Piece::Int(r.total_claimed),
                    Piece::Text(") + unclaimed ("),
                    Piece::Int(r.unclaimed_balance),
                    Piece::Text(")"),
                ],
            );
        }
        sum_allocated = match sum_allocated.checked_add(r.total_allocated) {
            Some(v) => v,
            None => {
                return fail_text("Overflow summing recipient allocated");
            },
        };
        sum_claimed = match sum_claimed.checked_add(r.total_claimed) {
            Some(v) => v,
            None => {
                return fail_text("Overflow summing recipient claimed");
            },
        };
        sum_unclaimed = match sum_unclaimed.checked_add(r.unclaimed_balance) {
            Some(v) => v,
            None => {
                return fail_text("Overflow summing recipient unclaimed");
            },
        };
        j = j + 1;
    }
    if sp.total_deposited != sum_batch_total {
        return fail_with(
            vec![
                Piece::Text("Global total_deposited ("),
                Piece::Int(sp.total_deposited),
                Piece::Text(") != sum of batch totals ("),
                Piece::Int(sum_batch_total),
                Piece::Text(")"),
            ],
        );
    }
    if sp.total_dust != sum_batch_dust {
        return fail_with(
            vec![
                Piece::Text("Global total_dust ("),
                Piece::Int(sp.total_dust),
                Piece::Text(") != sum of batch dust ("),
                Piece::Int(sum_batch_dust),
                Piece::Text(")"),
            ],
        );
    }
    let accounted = match sp.total_distributed.checked_add(sp.total_dust) {
        Some(v) => v.checked_add(sum_unclaimed),
        None => None,
    };
    match accounted {
        Some(acc) => {
            if sp.total_deposited != acc {
                return fail_with(
                    vec![
                        Piece::Text("Global conservation broken: total_deposited ("),
                        Piece::Int(sp.total_deposited),
                        Piece::Text(") != total_distributed ("),
                        Piece::Int(sp.total_distributed),
                        Piece::Text(") + dust ("),
                        Piece::Int(sp.total_dust),
                        Piece::Text(") + unclaimed ("),
                        Piece::Int(sum_unclaimed),
                        Piece::Text(") [accounted: "),
                        Piece::Int(acc),
                        Piece::Text("]"),
                    ],
                );
            }
        },
        None => {
            return fail_text("Overflow in global split conservation calculation");
        },
    }
    InvariantResult::Pass
}

/// Invariant: tokens are conserved. Per batch, no amount is negative, the distributed
/// amount never exceeds the total, and `total == distributed + dust`;
/// per recipient, no amount is negative and `allocated == claimed + unclaimed`; globally,
/// `total_deposited` and `total_dust` equal the batch sums and
/// `total_deposited == total_distributed + total_dust + sum(unclaimed)`.
pub struct SplitPayoutConservation;

impl<A: SplitAdapter> Invariant<A> for SplitPayoutConservation {
    open spec fn spec_name(&self) -> Seq<char> {
        "SplitPayoutConservation"@
    }

    open spec fn spec_check_state(&self, state: A::State) -> Verdict {
        payout_verdict(A::spec_inspect_split(state))
    }

    open spec fn spec_check_transition(
        &self,
        before: A::State,
        after: A::State,
        action: A::Action,
        result: ActionResult,
    ) -> Verdict {
        Verdict::Pass
    }

    fn name(&self) -> (r: &'static str) {
        "SplitPayoutConservation"
    }

    fn description(&self) -> &'static str
        returns
            "Total deposited tokens must strictly equal distributed tokens + dust + unclaimed balances, and payouts cannot exceed deposits",
    {
        "Total deposited tokens must strictly equal distributed tokens + dust + unclaimed balances, and payouts cannot exceed deposits"
    }

    fn check_state(&self, state: &A::State) -> (r: InvariantResult) {
        let split = A::inspect_split(state);
        payout_check(&split)
    }

    fn check_transition(
        &self,
        before: &A::State,
        after: &A::State,
        action: &A::Action,
        result: &ActionResult,
    ) -> (r: InvariantResult) {
        InvariantResult::Pass
    }
}

// ---------------------------------------------------------------------------
// Invariant 3: NoDuplicatePayout
// ---------------------------------------------------------------------------

/// Verdict of the state part of [`NoDuplicatePayout`] on recipients from index `i` on.
pub open spec fn overclaim_from(rs: Seq<RecipientShareSnapshot>, i: int) -> Verdict
    decreases rs.len() - i,
{
    if i < 0 || i >= rs.len() {
        Verdict::Pass
    } else if rs[i].total_claimed > rs[i].total_allocated {
        fails(
            render(
                seq![
                    Piece::Text("Over-claim detected: recipient "),
                    Piece::Str(&rs[i].recipient),
                    Piece::Text(" claimed "),
                    Piece::Int(rs[i].total_claimed),
                    Piece::Text(" exceeding allocated "),
                    Piece::Int(rs[i].total_allocated),
                ],
            ),
        )
    } else {
        overclaim_from(rs, i + 1)
    }
}

/// Verdict of the batch scan of [`NoDuplicatePayout`]: distributed batches of `before`
/// from index `i` on, each matched by id against `after`.
pub open spec fn duplicate_batch_from(
    before: Seq<SplitBatchSnapshot>,
    after: Seq<SplitBatchSnapshot>,
    i: int,
) -> Verdict
    decreases before.len() - i,
{
    if i < 0 || i >= before.len() {
        Verdict::Pass
    } else if !before[i].is_distributed {
        duplicate_batch_from(before, after, i + 1)
    } else {
        match find_batch(after, before[i].batch_id) {
            Some(ba) => if ba.distributed_amount > before[i].distributed_amount {
                fails(
                    render(
                        seq![
                            Piece::Text("Duplicate payout on batch "),
                            Piece::Int(before[i].batch_id as i128),
                            Piece::Text(": batch was already distributed (amount: "),
                            Piece::Int(before[i].distributed_amount),
                            Piece::Text("), but distributed amount increased to "),
                            Piece::Int(ba.distributed_amount),
                        ],
                    ),
                )
            } else {
                duplicate_batch_from(before, after, i + 1)
            },
            None => duplicate_batch_from(before, after, i + 1),
        }
    }
}

/// Verdict of the claim scan of [`NoDuplicatePayout`]: recipients of `after` from index `i`
/// on, each matched by name against `before`.
pub open spec fn claim_delta_from(
    before: Seq<RecipientShareSnapshot>,
    after: Seq<RecipientShareSnapshot>,
    i: int,
) -> Verdict
    decreases after.len() - i,
{
    if i < 0 || i >= after.len() {
        Verdict::Pass
    } else {
        match find_recipient(before, after[i].recipient@) {
            Some(rb) => if after[i].total_claimed - rb.total_claimed > 0 && after[i].total_claimed
                - rb.total_claimed > rb.unclaimed_balance {
                fails(
                    render(
                        seq![
                            Piece::Text("Recipient "),
                            Piece::Str(&after[i].recipient),
                            Piece::Text(" claimed "),
                            Piece::Diff(after[i].total_claimed, rb.total_claimed),
                            Piece::Text(" which exceeds prior unclaimed balance "),
                            Piece::Int(rb.unclaimed_balance),
                        ],
                    ),
                )
            } else {
                claim_delta_from(before, after, i + 1)
            },
            None => claim_delta_from(before, after, i + 1),
        }
    }
}

/// Verdict of the transition part of [`NoDuplicatePayout`].
pub open spec fn duplicate_payout_transition(before: SplitStateSnapshot, after: SplitStateSnapshot) -> Verdict {
    let batches = duplicate_batch_from(before.batches@, after.batches@, 0);
    if batches is Violation {
        batches
    } else {
        claim_delta_from(before.recipients@, after.recipients@, 0)
    }
}

#[verifier::loop_isolation(false)]
fn duplicate_payout_transition_check(before: &SplitStateSnapshot, after: &SplitStateSnapshot) -> (r:
    InvariantResult)
    ensures
        r@ == duplicate_payout_transition(*before, *after),
{
    let bb = &before.batches;
    let ab = &after.batches;
    let mut i: usize = 0;
    while i < bb.len()
        invariant
            i <= bb@.len(),
            duplicate_batch_from(bb@, ab@, 0) == duplicate_batch_from(bb@, ab@, i as int),
        decreases bb@.len() - i,
    {
        let b = &bb[i];
        if b.is_distributed {
            if let Some(k) = find_batch_index(ab, b.batch_id) {
                let ba = &ab[k];
                if ba.distributed_amount > b.distributed_amount {
                    return fail_with(
                        vec![
                            Piece::Text("Duplicate payout on batch "),
                            Piece::Int(b.batch_id as i128),
                            Piece::Text(": batch was already distributed (amount: "),
                            Piece::Int(b.distributed_amount),
                            Piece::Text("), but distributed amount increased to "),
                            Piece::Int(ba.distributed_amount),
                        ],
                    );
                }
            }
        }
        i = i + 1;
    }
    let br = &before.recipients;
    let ar = &after.recipients;
    let mut j: usize = 0;
    while j < ar.len()
        invariant
            j <= ar@.len(),
            duplicate_batch_from(bb@, ab@, 0) is Pass,
            claim_delta_from(br@, ar@, 0) == claim_delta_from(br@, ar@, j as int),
        decreases ar@.len() - j,
    {
        let ra = &ar[j];
        if let Some(k) = find_recipient_index(br, &ra.recipient) {
            let rb = &br[k];
            if ra.total_claimed > rb.total_claimed && diff_gt(
                ra.total_claimed,
                rb.total_claimed,
                rb.unclaimed_balance,
            ) {
                return fail_with(
                    vec![
                        Piece::Text("Recipient "),
                        Piece::Str(&ra.recipient),
                        Piece::Text(" claimed "),
                        Piece::Diff(ra.total_claimed, rb.total_claimed),
                        Piece::Text(" which exceeds prior unclaimed balance "),
                        Piece::Int(rb.unclaimed_balance),
                    ],
                );
            }
        }
        j = j + 1;
    }
    InvariantResult::Pass
}

/// Invariant: no recipient has claimed more than allocated; a distributed batch's
/// distributed amount never increases; and no step lets a recipient claim more than
/// their prior unclaimed balance.
pub struct NoDuplicatePayout;

impl<A: SplitAdapter> Invariant<A> for NoDuplicatePayout {
    open spec fn spec_name(&self) -> Seq<char> {
        "NoDuplicatePayout"@
    }

    open spec fn spec_check_state(&self, state: A::State) -> Verdict {
        overclaim_from(A::spec_inspect_split(state).recipients@, 0)
    }

    open spec fn spec_check_transition(
        &self,
        before: A::State,
        after: A::State,
        action: A::Action,
        result: ActionResult,
    ) -> Verdict {
        duplicate_payout_transition(A::spec_inspect_split(before), A::spec_inspect_split(after))
    }

    fn name(&self) -> (r: &'static str) {
        "NoDuplicatePayout"
    }

    fn description(&self) -> &'static str
        returns
            "Finalized batches cannot be re-distributed and recipients cannot claim beyond allocated entitlement",
    {
        "Finalized batches cannot be re-distributed and recipients cannot claim beyond allocated entitlement"
    }

    #[verifier::loop_isolation(false)]
    fn check_state(&self, state: &A::State) -> (r: InvariantResult) {
        let split = A::inspect_split(state);
        let rs = &split.recipients;
        let mut i: usize = 0;
        while i < rs.len()
            invariant
                i <= rs@.len(),
                overclaim_from(rs@, 0) == overclaim_from(rs@, i as int),
            decreases rs@.len() - i,
        {
            let r = &rs[i];
            if r.total_claimed > r.total_allocated {
                return fail_with(
                    vec![
                        Piece::Text("Over-claim detected: recipient "),
                        Piece::Str(&r.recipient),
                        Piece::Text(" claimed "),
                        Piece::Int(r.total_claimed),
                        Piece::Text(" exceeding allocated "),
                        Piece::Int(r.total_allocated),
                    ],
                );
            }
            i = i + 1;
        }
        InvariantResult::Pass
    }

    fn check_transition(
        &self,
        before: &A::State,
        after: &A::State,
        action: &A::Action,
        result: &ActionResult,
    ) -> (r: InvariantResult) {
        let before_split = A::inspect_split(before);
        let after_split = A::inspect_split(after);
        duplicate_payout_transition_check(&before_split, &after_split)
    }
}

// ---------------------------------------------------------------------------
// Invariant 4: SplitSolvency
// ---------------------------------------------------------------------------

/// Sum of unclaimed balances of recipients from index `i` on, added to `acc`; `None` when a
/// running sum leaves `i128`.
pub open spec fn unclaimed_sum_from(rs: Seq<RecipientShareSnapshot>, i: int, acc: int) -> Option<
    int,
>
    decreases rs.len() - i,
{
    if i < 0 || i >= rs.len() {
        Some(acc)
    } else if !fits_i128(acc + rs[i].unclaimed_balance) {
        None
    } else {
        unclaimed_sum_from(rs, i + 1, acc + rs[i].unclaimed_balance)
    }
}

/// Verdict of [`SplitSolvency`] on a split snapshot.
pub open spec fn solvency_verdict(sp: SplitStateSnapshot) -> Verdict {
    match sp.contract_token_balance {
        None => Verdict::Pass,
        Some(token_bal) => match unclaimed_sum_from(sp.recipients@, 0, 0) {
            None => fails("Overflow calculating split liabilities"@),
            Some(unclaimed) => if !fits_i128(unclaimed + sp.total_dust) {
                fails("Overflow calculating split liabilities"@)
            } else if token_bal < unclaimed + sp.total_dust {
                fails(
                    render(
                        seq![
                            Piece::Text("Split contract insolvency: token balance ("),
                            Piece::Int(token_bal),
                            Piece::Text(") < outstanding liabilities ("),
                            Piece::Int((unclaimed + sp.total_dust) as i128),
                            Piece::Text(") [unclaimed: "),
                            Piece::Int(unclaimed as i128),
                            Piece::Text(", dust: "),
                            Piece::Int(sp.total_dust),
                            Piece::Text("]"),
                        ],
                    ),
                )
            } else {
                Verdict::Pass
            },
        },
    }
}

#[verifier::loop_isolation(false)]
fn solvency_check(sp: &SplitStateSnapshot) -> (r: InvariantResult)
    ensures
        r@ == solvency_verdict(*sp),
{
    if let Some(token_bal) = sp.contract_token_balance {
        let rs = &sp.recipients;
        let mut total_unclaimed: i128 = 0;
        let mut i: usize = 0;
        while i < rs.len()
            invariant
                i <= rs@.len(),
                unclaimed_sum_from(rs@, 0, 0) == unclaimed_sum_from(
                    rs@,
                    i as int,
                    total_unclaimed as int,
                ),
            decreases rs@.len() - i,
        {
            total_unclaimed = match total_unclaimed.checked_add(rs[i].unclaimed_balance) {
                Some(v) => v,
                None => {
                    return fail_text("Overflow calculating split liabilities");
                },
            };
            i = i + 1;
        }
        let total_liabilities = match total_unclaimed.checked_add(sp.total_dust) {
            Some(v) => v,
            None => {
                return fail_text("Overflow calculating split liabilities");
            },
        };
        if token_bal < total_liabilities {
            return fail_with(
                vec![
                    Piece::Text("Split contract insolvency: token balance ("),
                    Piece::Int(token_bal),
                    Piece::Text(") < outstanding liabilities ("),
                    Piece::Int(total_liabilities),
                    Piece::Text(") [unclaimed: "),
                    Piece::Int(total_unclaimed),
                    Piece::Text(", dust: "),
                    Piece::Int(sp.total_dust),
                    Piece::Text("]"),
                ],
            );
        }
    }
    InvariantResult::Pass
}

/// Invariant: an observed token balance covers all outstanding liabilities,
/// `contract_token_balance >= sum(unclaimed_balance) + total_dust`.
pub struct SplitSolvency;

impl<A: SplitAdapter> Invariant<A> for SplitSolvency {
    open spec fn spec_name(&self) -> Seq<char> {
        "SplitSolvency"@
    }

    open spec fn spec_check_state(&self, state: A::State) -> Verdict {
        solvency_verdict(A::spec_inspect_split(state))
    }

    open spec fn spec_check_transition(
        &self,
        before: A::State,
        after: A::State,
        action: A::Action,
        result: ActionResult,
    ) -> Verdict {
        Verdict::Pass
    }

    fn name(&self) -> (r: &'static str) {
        "SplitSolvency"
    }

    fn description(&self) -> &'static str
        returns
            "Contract token balance must cover all outstanding liabilities (unclaimed recipient balances + retained dust)",
    {
        "Contract token balance must cover all outstanding liabilities (unclaimed recipient balances + retained dust)"
    }

    fn check_state(&self, state: &A::State) -> (r: InvariantResult) {
        let split = A::inspect_split(state);
        solvency_check(&split)
    }

    fn check_transition(
        &self,
        before: &A::State,
        after: &A::State,
        action: &A::Action,
        result: &ActionResult,
    ) -> (r: InvariantResult) {
        InvariantResult::Pass
    }
}

// ---------------------------------------------------------------------------
// Invariant pack
// ---------------------------------------------------------------------------

/// An [`InvariantSet`] with the four split-payment invariants, in this order:
/// [`ShareSumConservation`], [`SplitPayoutConservation`], [`NoDuplicatePayout`],
/// [`SplitSolvency`].
pub fn split_invariant_pack<A: SplitAdapter>() -> (r: InvariantSet<A>)
    ensures
        r@.len() == 4,
        r@[0] == boxed::<A, _>(ShareSumConservation),
        r@[1] == boxed::<A, _>(SplitPayoutConservation),
        r@[2] == boxed::<A, _>(NoDuplicatePayout),
        r@[3] == boxed::<A, _>(SplitSolvency),
{
    InvariantSet::new().with(ShareSumConservation).with(SplitPayoutConservation).with(
        NoDuplicatePayout,
    ).with(SplitSolvency)
}

// ---------------------------------------------------------------------------
// Laws
// ---------------------------------------------------------------------------

/// Sum of recipient shares (in basis points) from index `i` on.
pub open spec fn shares_sum_from(rs: Seq<RecipientShareSnapshot>, i: int) -> int
    decreases rs.len() - i,
{
    if i < 0 || i >= rs.len() {
        0
    } else {
        rs[i].share_bps + shares_sum_from(rs, i + 1)
    }
}

proof fn lemma_share_scan(rs: Seq<RecipientShareSnapshot>, i: int, acc: int)
    requires
        0 <= i <= rs.len(),
        0 <= acc <= u32::MAX,
    ensures
        shares_sum_from(rs, i) >= 0,
        (share_scan(rs, i, acc).0 is Pass) ==> share_scan(rs, i, acc).1 == acc + shares_sum_from(
            rs,
            i,
        ) && forall|j: int| i <= j < rs.len() ==> #[trigger] rs[j].share_bps <= TOTAL_SHARE_BPS,
        (forall|j: int| i <= j < rs.len() ==> #[trigger] rs[j].share_bps <= TOTAL_SHARE_BPS)
            && acc + shares_sum_from(rs, i) <= u32::MAX ==> share_scan(rs, i, acc).0 is Pass,
    decreases rs.len() - i,
{
    if i < rs.len() {
        if acc + rs[i].share_bps <= u32::MAX {
            lemma_share_scan(rs, i + 1, acc + rs[i].share_bps);
        } else {
            lemma_share_scan(rs, i + 1, 0);
        }
    }
}

/// Share configuration is complete: no recipient and a total of 0 (unconfigured), or every
/// share at most 10,000 basis points, shares summing to exactly 10,000 and a reported total
/// of 10,000.
pub open spec fn shares_complete(sp: SplitStateSnapshot) -> bool {
    ||| sp.recipients@.len() == 0 && sp.total_shares_bps == 0
    ||| {
        &&& forall|j: int|
            0 <= j < sp.recipients@.len() ==> #[trigger] sp.recipients@[j].share_bps
                <= TOTAL_SHARE_BPS
        &&& shares_sum_from(sp.recipients@, 0) == TOTAL_SHARE_BPS
        &&& sp.total_shares_bps == TOTAL_SHARE_BPS
    }
}

/// The state part of [`ShareSumConservation`] passes exactly on complete share
/// configurations.
pub proof fn law_share_sum(sp: SplitStateSnapshot)
    ensures
        (share_sum_verdict(sp) is Pass) <==> shares_complete(sp),
{
    lemma_share_scan(sp.recipients@, 0, 0);
}

/// A share configuration action with a total other than 10,000 basis points never succeeds
/// under [`ShareSumConservation`], and after any other step the state part applies.
pub proof fn law_share_transition(
    after: SplitStateSnapshot,
    kind: Option<SplitActionKind>,
    result: ActionResult,
)
    ensures
        (share_transition_verdict(after, kind, result) is Pass) <==> {
            &&& (kind matches Some(SplitActionKind::ConfigureShares { total_bps }) ==> (result
                is Success ==> total_bps == TOTAL_SHARE_BPS))
            &&& shares_complete(after)
        },
{
    law_share_sum(after);
}

/// Sums of `(total, distributed, dust)` over the batches from index `i` on.
pub open spec fn batch_sums_from(bs: Seq<SplitBatchSnapshot>, i: int) -> (int, int, int)
    decreases bs.len() - i,
{
    if i < 0 || i >= bs.len() {
        (0, 0, 0)
    } else {
        let rest = batch_sums_from(bs, i + 1);
        (
            bs[i].total_amount + rest.0,
            bs[i].distributed_amount + rest.1,
            bs[i].unallocated_dust + rest.2,
        )
    }
}

/// A batch has no negative amount, distributes at most its total, and its total equals
/// distributed plus dust.
pub open spec fn batch_conserved(b: SplitBatchSnapshot) -> bool {
    &&& b.total_amount >= 0 && b.distributed_amount >= 0 && b.unallocated_dust >= 0
    &&& b.distributed_amount <= b.total_amount
    &&& b.total_amount == b.distributed_amount + b.unallocated_dust
}

proof fn lemma_batch_scan(bs: Seq<SplitBatchSnapshot>, i: int, acc: (int, int, int))
    requires
        0 <= i <= bs.len(),
    ensures
        (batch_scan(bs, i, acc).0 is Pass) ==> ({
            let sums = batch_sums_from(bs, i);
            &&& forall|j: int| i <= j < bs.len() ==> batch_conserved(#[trigger] bs[j])
            &&& batch_scan(bs, i, acc).1 == (acc.0 + sums.0, acc.1 + sums.1, acc.2 + sums.2)
        }),
    decreases bs.len() - i,
{
    if i < bs.len() {
        let b = bs[i];
        lemma_batch_scan(
            bs,
            i + 1,
            (acc.0 + b.total_amount, acc.1 + b.distributed_amount, acc.2 + b.unallocated_dust),
        );
    }
}

/// Sums of `(allocated, claimed, unclaimed)` over the recipients from index `i` on.
pub open spec fn recipient_sums_from(rs: Seq<RecipientShareSnapshot>, i: int) -> (int, int, int)
    decreases rs.len() - i,
{
    if i < 0 || i >= rs.len() {
        (0, 0, 0)
    } else {
        let rest = recipient_sums_from(rs, i + 1);
        (
            rs[i].total_allocated + rest.0,
            rs[i].total_claimed + rest.1,
            rs[i].unclaimed_balance + rest.2,
        )
    }
}

/// A recipient has no negative balance and `allocated == claimed + unclaimed`.
pub open spec fn recipient_conserved(r: RecipientShareSnapshot) -> bool {
    &&& r.total_allocated >= 0 && r.total_claimed >= 0 && r.unclaimed_balance >= 0
    &&& r.total_allocated == r.total_claimed + r.unclaimed_balance
}

proof fn lemma_recipient_scan(rs: Seq<RecipientShareSnapshot>, i: int, acc: (int, int, int))
    requires
        0 <= i <= rs.len(),
    ensures
        (recipient_scan(rs, i, acc).0 is Pass) ==> ({
            let sums = recipient_sums_from(rs, i);
            &&& forall|j: int| i <= j < rs.len() ==> recipient_conserved(#[trigger] rs[j])
            &&& recipient_scan(rs, i, acc).1 == (acc.0 + sums.0, acc.1 + sums.1, acc.2 + sums.2)
        }),
    decreases rs.len() - i,
{
    if i < rs.len() {
        let r = rs[i];
        lemma_recipient_scan(
            rs,
            i + 1,
            (acc.0 + r.total_allocated, acc.1 + r.total_claimed, acc.2 + r.unclaimed_balance),
        );
    }
}

/// Split payout conservation: every batch and recipient is conserved, `total_deposited` and
/// `total_dust` equal the batch sums, and
/// `total_deposited == total_distributed + total_dust + sum(unclaimed)`.
pub open spec fn payout_conserved(sp: SplitStateSnapshot) -> bool {
    let bsums = batch_sums_from(sp.batches@, 0);
    let rsums = recipient_sums_from(sp.recipients@, 0);
    &&& forall|j: int| 0 <= j < sp.batches@.len() ==> batch_conserved(#[trigger] sp.batches@[j])
    &&& forall|j: int|
        0 <= j < sp.recipients@.len() ==> recipient_conserved(#[trigger] sp.recipients@[j])
    &&& sp.total_deposited == bsums.0
    &&& sp.total_dust == bsums.2
    &&& sp.total_deposited == sp.total_distributed + sp.total_dust + rsums.2
}

/// The sums the payout check accumulates stay within `i128`: the batch and recipient
/// totals, and `total_distributed + total_dust`.
pub open spec fn payout_sums_fit(sp: SplitStateSnapshot) -> bool {
    let bsums = batch_sums_from(sp.batches@, 0);
    let rsums = recipient_sums_from(sp.recipients@, 0);
    &&& bsums.0 <= i128::MAX && bsums.1 <= i128::MAX && bsums.2 <= i128::MAX
    &&& rsums.0 <= i128::MAX && rsums.1 <= i128::MAX && rsums.2 <= i128::MAX
    &&& fits_i128(sp.total_distributed + sp.total_dust)
}

proof fn lemma_batch_sums_nonneg(bs: Seq<SplitBatchSnapshot>, i: int)
    requires
        0 <= i <= bs.len(),
        forall|j: int| i <= j < bs.len() ==> batch_conserved(#[trigger] bs[j]),
    ensures
        batch_sums_from(bs, i).0 >= 0,
        batch_sums_from(bs, i).1 >= 0,
        batch_sums_from(bs, i).2 >= 0,
    decreases bs.len() - i,
{
    if i < bs.len() {
        assert(batch_conserved(bs[i]));
        lemma_batch_sums_nonneg(bs, i + 1);
    }
}

proof fn lemma_recipient_sums_nonneg(rs: Seq<RecipientShareSnapshot>, i: int)
    requires
        0 <= i <= rs.len(),
        forall|j: int| i <= j < rs.len() ==> recipient_conserved(#[trigger] rs[j]),
    ensures
        recipient_sums_from(rs, i).0 >= 0,
        recipient_sums_from(rs, i).1 >= 0,
        recipient_sums_from(rs, i).2 >= 0,
    decreases rs.len() - i,
{
    if i < rs.len() {
        assert(recipient_conserved(rs[i]));
        lemma_recipient_sums_nonneg(rs, i + 1);
    }
}

proof fn lemma_batch_scan_passes(bs: Seq<SplitBatchSnapshot>, i: int, acc: (int, int, int))
    requires
        0 <= i <= bs.len(),
        acc.0 >= 0 && acc.1 >= 0 && acc.2 >= 0,
        forall|j: int| i <= j < bs.len() ==> batch_conserved(#[trigger] bs[j]),
        acc.0 + batch_sums_from(bs, i).0 <= i128::MAX,
        acc.1 + batch_sums_from(bs, i).1 <= i128::MAX,
        acc.2 + batch_sums_from(bs, i).2 <= i128::MAX,
    ensures
        batch_scan(bs, i, acc).0 is Pass,
    decreases bs.len() - i,
{
    if i < bs.len() {
        let b = bs[i];
        assert(batch_conserved(bs[i]));
        lemma_batch_sums_nonneg(bs, i + 1);
        lemma_batch_scan_passes(
            bs,
            i + 1,
            (acc.0 + b.total_amount, acc.1 + b.distributed_amount, acc.2 + b.unallocated_dust),
        );
    }
}

proof fn lemma_recipient_scan_passes(
    rs: Seq<RecipientShareSnapshot>,
    i: int,
    acc: (int, int, int),
)
    requires
        0 <= i <= rs.len(),
        acc.0 >= 0 && acc.1 >= 0 && acc.2 >= 0,
        forall|j: int| i <= j < rs.len() ==> recipient_conserved(#[trigger] rs[j]),
        acc.0 + recipient_sums_from(rs, i).0 <= i128::MAX,
        acc.1 + recipient_sums_from(rs, i).1 <= i128::MAX,
        acc.2 + recipient_sums_from(rs, i).2 <= i128::MAX,
    ensures
        recipient_scan(rs, i, acc).0 is Pass,
    decreases rs.len() - i,
{
    if i < rs.len() {
        let r = rs[i];
        assert(recipient_conserved(rs[i]));
        lemma_recipient_sums_nonneg(rs, i + 1);
        lemma_recipient_scan_passes(
            rs,
            i + 1,
            (acc.0 + r.total_allocated, acc.1 + r.total_claimed, acc.2 + r.unclaimed_balance),
        );
    }
}

/// Split payout conservation: a passing [`SplitPayoutConservation`] verdict guarantees
/// payout conservation, and a conserved snapshot whose sums stay within `i128` passes.
pub proof fn law_split_payout_conservation(sp: SplitStateSnapshot)
    ensures
        (payout_verdict(sp) is Pass) ==> payout_conserved(sp),
        payout_sums_fit(sp) ==> (payout_conserved(sp) ==> (payout_verdict(sp) is Pass)),
{
    lemma_batch_scan(sp.batches@, 0, (0, 0, 0));
    lemma_recipient_scan(sp.recipients@, 0, (0, 0, 0));
    if payout_sums_fit(sp) && payout_conserved(sp) {
        lemma_batch_scan_passes(sp.batches@, 0, (0, 0, 0));
        lemma_recipient_scan_passes(sp.recipients@, 0, (0, 0, 0));
        lemma_recipient_sums_nonneg(sp.recipients@, 0);
    }
}

proof fn lemma_overclaim_from(rs: Seq<RecipientShareSnapshot>, i: int)
    requires
        0 <= i <= rs.len(),
    ensures
        (overclaim_from(rs, i) is Pass) <==> forall|j: int|
            i <= j < rs.len() ==> #[trigger] rs[j].total_claimed <= rs[j].total_allocated,
    decreases rs.len() - i,
{
    if i < rs.len() {
        lemma_overclaim_from(rs, i + 1);
    }
}

/// The state part of [`NoDuplicatePayout`] passes exactly when no recipient has claimed
/// more than allocated.
pub proof fn law_no_overclaim(sp: SplitStateSnapshot)
    ensures
        (overclaim_from(sp.recipients@, 0) is Pass) <==> forall|j: int|
            0 <= j < sp.recipients@.len() ==> #[trigger] sp.recipients@[j].total_claimed
                <= sp.recipients@[j].total_allocated,
{
    lemma_overclaim_from(sp.recipients@, 0);
}

proof fn lemma_duplicate_batch_from(
    before: Seq<SplitBatchSnapshot>,
    after: Seq<SplitBatchSnapshot>,
    i: int,
)
    requires
        0 <= i <= before.len(),
    ensures
        (duplicate_batch_from(before, after, i) is Pass) <==> forall|j: int|
            i <= j < before.len() && #[trigger] before[j].is_distributed ==> match find_batch(
                after,
                before[j].batch_id,
            ) {
                Some(ba) => ba.distributed_amount <= before[j].distributed_amount,
                None => true,
            },
    decreases before.len() - i,
{
    if i < before.len() {
        lemma_duplicate_batch_from(before, after, i + 1);
    }
}

proof fn lemma_claim_delta_from(
    before: Seq<RecipientShareSnapshot>,
    after: Seq<RecipientShareSnapshot>,
    i: int,
)
    requires
        0 <= i <= after.len(),
    ensures
        (claim_delta_from(before, after, i) is Pass) <==> forall|j: int|
            i <= j < after.len() ==> match find_recipient(before, (#[trigger] after[j]).recipient@) {
                Some(rb) => after[j].total_claimed - rb.total_claimed <= rb.unclaimed_balance
                    || after[j].total_claimed <= rb.total_claimed,
                None => true,
            },
    decreases after.len() - i,
{
    if i < after.len() {
        lemma_claim_delta_from(before, after, i + 1);
    }
}

/// The transition part of [`NoDuplicatePayout`] passes exactly when no distributed batch's
/// distributed amount grew (against the first batch of `after` with its id) and no
/// recipient claimed more in the step than their prior unclaimed balance.
pub proof fn law_no_duplicate_payout_transition(before: SplitStateSnapshot, after: SplitStateSnapshot)
    ensures
        (duplicate_payout_transition(before, after) is Pass) <==> {
            &&& forall|j: int|
                0 <= j < before.batches@.len() && #[trigger] before.batches@[j].is_distributed
                    ==> match find_batch(after.batches@, before.batches@[j].batch_id) {
                    Some(ba) => ba.distributed_amount <= before.batches@[j].distributed_amount,
                    None => true,
                }
            &&& forall|j: int|
                0 <= j < after.recipients@.len() ==> match find_recipient(
                    before.recipients@,
                    (#[trigger] after.recipients@[j]).recipient@,
                ) {
                    Some(rb) => after.recipients@[j].total_claimed - rb.total_claimed
                        <= rb.unclaimed_balance || after.recipients@[j].total_claimed
                        <= rb.total_claimed,
                    None => true,
                }
        },
{
    lemma_duplicate_batch_from(before.batches@, after.batches@, 0);
    lemma_claim_delta_from(before.recipients@, after.recipients@, 0);
}

/// Sum of the recipients' unclaimed balances.
pub open spec fn unclaimed_total(rs: Seq<RecipientShareSnapshot>) -> int
    decreases rs.len(),
{
    if rs.len() == 0 {
        0
    } else {
        unclaimed_total(rs.drop_last()) + rs.last().unclaimed_balance
    }
}

/// Every running sum of unclaimed balances, taken in order, is representable as `i128`.
pub open spec fn unclaimed_prefixes_fit(rs: Seq<RecipientShareSnapshot>) -> bool {
    forall|k: int| 0 <= k <= rs.len() ==> fits_i128(#[trigger] unclaimed_total(rs.take(k)))
}

proof fn lemma_unclaimed_sum_from(rs: Seq<RecipientShareSnapshot>, i: int)
    requires
        0 <= i <= rs.len(),
        forall|k: int| 0 <= k <= i ==> fits_i128(#[trigger] unclaimed_total(rs.take(k))),
    ensures
        unclaimed_sum_from(rs, i, unclaimed_total(rs.take(i))) is Some <==> unclaimed_prefixes_fit(
            rs,
        ),
        unclaimed_sum_from(rs, i, unclaimed_total(rs.take(i))) is Some ==> unclaimed_sum_from(
            rs,
            i,
            unclaimed_total(rs.take(i)),
        )->0 == unclaimed_total(rs),
    decreases rs.len() - i,
{
    if i < rs.len() {
        assert(rs.take(i + 1).drop_last() =~= rs.take(i));
        assert(rs.take(i + 1).last() == rs[i]);
        if fits_i128(unclaimed_total(rs.take(i + 1))) {
            assert forall|k: int| 0 <= k <= i + 1 implies fits_i128(
                #[trigger] unclaimed_total(rs.take(k)),
            ) by {
                if k == i + 1 {
                } else {
                    assert(0 <= k <= i);
                }
            }
            lemma_unclaimed_sum_from(rs, i + 1);
        } else {
            assert(!unclaimed_prefixes_fit(rs));
        }
    } else {
        assert(rs.take(i) =~= rs);
    }
}

/// Split solvency: when every running sum of unclaimed balances is representable as
/// `i128`, [`SplitSolvency`] passes exactly when no token balance is observed, or the
/// liabilities `sum(unclaimed) + total_dust` are representable and the balance covers them;
/// when some running sum is not representable, it passes exactly when no token balance is
/// observed.
pub proof fn law_split_solvency(sp: SplitStateSnapshot)
    ensures
        unclaimed_prefixes_fit(sp.recipients@) ==> ((solvency_verdict(sp) is Pass)
            <==> match sp.contract_token_balance {
            Some(t) => fits_i128(unclaimed_total(sp.recipients@) + sp.total_dust) && t
                >= unclaimed_total(sp.recipients@) + sp.total_dust,
            None => true,
        }),
        !unclaimed_prefixes_fit(sp.recipients@) ==> ((solvency_verdict(sp) is Pass)
            <==> sp.contract_token_balance is None),
{
    assert(sp.recipients@.take(0) =~= Seq::<RecipientShareSnapshot>::empty());
    assert forall|k: int| 0 <= k <= 0 implies fits_i128(
        #[trigger] unclaimed_total(sp.recipients@.take(k)),
    ) by {
        assert(k == 0);
    }
    lemma_unclaimed_sum_from(sp.recipients@, 0);
}

proof fn lemma_find_batch_from(ms: Seq<SplitBatchSnapshot>, id: u64, i: int)
    requires
        0 <= i <= ms.len(),
    ensures
        find_batch_from(ms, id, i) is None <==> forall|j: int|
            i <= j < ms.len() ==> (#[trigger] ms[j]).batch_id != id,
        find_batch_from(ms, id, i) is Some ==> exists|j: int|
            i <= j < ms.len() && #[trigger] ms[j] == find_batch_from(ms, id, i)->0 && ms[j].batch_id
                == id && forall|k: int| i <= k < j ==> (#[trigger] ms[k]).batch_id != id,
    decreases ms.len() - i,
{
    if i < ms.len() {
        lemma_find_batch_from(ms, id, i + 1);
        if ms[i].batch_id == id {
            assert(ms[i] == find_batch_from(ms, id, i)->0);
        } else if find_batch_from(ms, id, i + 1) is Some {
            let j = choose|j: int|
                i + 1 <= j < ms.len() && #[trigger] ms[j] == find_batch_from(ms, id, i + 1)->0
                    && ms[j].batch_id == id && forall|k: int| i + 1 <= k < j ==> (#[trigger] ms[k]).batch_id
                    != id;
            assert(forall|k: int| i <= k < j ==> (#[trigger] ms[k]).batch_id != id);
        }
    }
}

/// Batches are matched by id: the first batch with the id is found, and none is found
/// exactly when no batch has it.
pub proof fn law_find_batch(ms: Seq<SplitBatchSnapshot>, id: u64)
    ensures
        find_batch(ms, id) is None <==> forall|j: int|
            0 <= j < ms.len() ==> (#[trigger] ms[j]).batch_id != id,
        find_batch(ms, id) is Some ==> exists|j: int|
            0 <= j < ms.len() && #[trigger] ms[j] == find_batch(ms, id)->0 && ms[j].batch_id == id
                && forall|k: int| 0 <= k < j ==> (#[trigger] ms[k]).batch_id != id,
{
    lemma_find_batch_from(ms, id, 0);
}


proof fn lemma_find_recipient_from(ms: Seq<RecipientShareSnapshot>, id: Seq<char>, i: int)
    requires
        0 <= i <= ms.len(),
    ensures
        find_recipient_from(ms, id, i) is None <==> forall|j: int|
            i <= j < ms.len() ==> (#[trigger] ms[j]).recipient@ != id,
        find_recipient_from(ms, id, i) is Some ==> exists|j: int|
            i <= j < ms.len() && #[trigger] ms[j] == find_recipient_from(ms, id, i)->0 && ms[j].recipient@
                == id && forall|k: int| i <= k < j ==> (#[trigger] ms[k]).recipient@ != id,
    decreases ms.len() - i,
{
    if i < ms.len() {
        lemma_find_recipient_from(ms, id, i + 1);
        if ms[i].recipient@ == id {
            assert(ms[i] == find_recipient_from(ms, id, i)->0);
        } else if find_recipient_from(ms, id, i + 1) is Some {
            let j = choose|j: int|
                i + 1 <= j < ms.len() && #[trigger] ms[j] == find_recipient_from(ms, id, i + 1)->0
                    && ms[j].recipient@ == id && forall|k: int| i + 1 <= k < j ==> (#[trigger] ms[k]).recipient@
                    != id;
            assert(forall|k: int| i <= k < j ==> (#[trigger] ms[k]).recipient@ != id);
        }
    }
}

/// Recipients are matched by name: the first recipient with the name is found, and none is
/// found exactly when no recipient has it.
pub proof fn law_find_recipient(ms: Seq<RecipientShareSnapshot>, id: Seq<char>)
    ensures
        find_recipient(ms, id) is None <==> forall|j: int|
            0 <= j < ms.len() ==> (#[trigger] ms[j]).recipient@ != id,
        find_recipient(ms, id) is Some ==> exists|j: int|
            0 <= j < ms.len() && #[trigger] ms[j] == find_recipient(ms, id)->0 && ms[j].recipient@ == id
                && forall|k: int| 0 <= k < j ==> (#[trigger] ms[k]).recipient@ != id,
{
    lemma_find_recipient_from(ms, id, 0);
}

/// The unclaimed total adds up the unclaimed balances of all recipients: nothing for none,
/// and one more recipient adds its balance.
pub proof fn law_unclaimed_total(s: Seq<RecipientShareSnapshot>, x: RecipientShareSnapshot)
    ensures
        unclaimed_total(Seq::<RecipientShareSnapshot>::empty()) == 0,
        unclaimed_total(s.push(x)) == unclaimed_total(s) + x.unclaimed_balance,
{
    assert(s.push(x).drop_last() =~= s);
}


proof fn lemma_shares_sum_push(s: Seq<RecipientShareSnapshot>, x: RecipientShareSnapshot, i: int)
    requires
        0 <= i <= s.len(),
    ensures
        shares_sum_from(s.push(x), i) == shares_sum_from(s, i) + x.share_bps,
    decreases s.len() - i,
{
    if i < s.len() {
        assert(s.push(x)[i] == s[i]);
        lemma_shares_sum_push(s, x, i + 1);
    } else {
        assert(s.push(x)[i] == x);
        reveal_with_fuel(shares_sum_from, 2);
    }
}

/// The share sum adds up the shares of all recipients: nothing for none, and one more
/// recipient adds its share.
pub proof fn law_shares_sum_from(s: Seq<RecipientShareSnapshot>, x: RecipientShareSnapshot)
    ensures
        shares_sum_from(Seq::<RecipientShareSnapshot>::empty(), 0) == 0,
        shares_sum_from(s.push(x), 0) == shares_sum_from(s, 0) + x.share_bps,
{
    lemma_shares_sum_push(s, x, 0);
}


proof fn lemma_batch_sums_push(s: Seq<SplitBatchSnapshot>, x: SplitBatchSnapshot, i: int)
    requires
        0 <= i <= s.len(),
    ensures
        batch_sums_from(s.push(x), i).0 == batch_sums_from(s, i).0 + x.total_amount,
        batch_sums_from(s.push(x), i).1 == batch_sums_from(s, i).1 + x.distributed_amount,
        batch_sums_from(s.push(x), i).2 == batch_sums_from(s, i).2 + x.unallocated_dust,
    decreases s.len() - i,
{
    if i < s.len() {
        assert(s.push(x)[i] == s[i]);
        lemma_batch_sums_push(s, x, i + 1);
    } else {
        assert(s.push(x)[i] == x);
        reveal_with_fuel(batch_sums_from, 2);
    }
}

/// The batch sums add up the totals, distributed amounts and dust of all batches, whatever
/// their status: nothing for none, and one more batch adds its amounts.
pub proof fn law_batch_sums_from(s: Seq<SplitBatchSnapshot>, x: SplitBatchSnapshot)
    ensures
        batch_sums_from(Seq::<SplitBatchSnapshot>::empty(), 0) == (0int, 0int, 0int),
        batch_sums_from(s.push(x), 0).0 == batch_sums_from(s, 0).0 + x.total_amount,
        batch_sums_from(s.push(x), 0).1 == batch_sums_from(s, 0).1 + x.distributed_amount,
        batch_sums_from(s.push(x), 0).2 == batch_sums_from(s, 0).2 + x.unallocated_dust,
{
    lemma_batch_sums_push(s, x, 0);
}


proof fn lemma_recipient_sums_push(s: Seq<RecipientShareSnapshot>, x: RecipientShareSnapshot, i: int)
    requires
        0 <= i <= s.len(),
    ensures
        recipient_sums_from(s.push(x), i).0 == recipient_sums_from(s, i).0 + x.total_allocated,
        recipient_sums_from(s.push(x), i).1 == recipient_sums_from(s, i).1 + x.total_claimed,
        recipient_sums_from(s.push(x), i).2 == recipient_sums_from(s, i).2 + x.unclaimed_balance,
    decreases s.len() - i,
{
    if i < s.len() {
        assert(s.push(x)[i] == s[i]);
        lemma_recipient_sums_push(s, x, i + 1);
    } else {
        assert(s.push(x)[i] == x);
        reveal_with_fuel(recipient_sums_from, 2);
    }
}

/// The recipient sums add up the allocated, claimed and unclaimed amounts of all recipients:
/// nothing for none, and one more recipient adds its amounts.
pub proof fn law_recipient_sums_from(s: Seq<RecipientShareSnapshot>, x: RecipientShareSnapshot)
    ensures
        recipient_sums_from(Seq::<RecipientShareSnapshot>::empty(), 0) == (0int, 0int, 0int),
        recipient_sums_from(s.push(x), 0).0 == recipient_sums_from(s, 0).0 + x.total_allocated,
        recipient_sums_from(s.push(x), 0).1 == recipient_sums_from(s, 0).1 + x.total_claimed,
        recipient_sums_from(s.push(x), 0).2 == recipient_sums_from(s, 0).2 + x.unclaimed_balance,
{
    lemma_recipient_sums_push(s, x, 0);
}

} // verus!
