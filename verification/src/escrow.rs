//! Milestone escrow: normalized snapshots, the escrow adapter trait and the escrow
//! invariant pack.
//!
//! - [`TotalLockedConservation`]: locked funds equal the sum of milestone amounts minus
//!   released and refunded amounts, and match the observed token balance.
//! - [`NoDoubleRelease`]: no milestone is released more than once or beyond its amount.
//! - [`NoReleaseWithoutApproval`]: funds are released only from approved milestones.
//! - [`DisputeFreezeCannotBeBypassed`]: no normal release while a milestone is disputed.

use vstd::prelude::*;
use crate::adapter::{ActionResult, ContractAdapter};
use crate::invariants::{
    boxed, fail_text, fail_with, fails, fits_i128, Invariant, InvariantResult, InvariantSet, Verdict,
};
use crate::text::{render, Piece};

verus! {

/// Status of a milestone within an escrow contract.
#[derive(Debug, Clone, Copy, PartialEq, Eq)]
pub enum MilestoneStatusKind {
    /// Initial state, waiting for delivery or approval.
    Pending,
    /// Delivered by the freelancer, pending review.
    Delivered,
    /// Partially approved / released.
    PartiallyReleased,
    /// Fully approved and released.
    Released,
    /// Currently disputed.
    Disputed,
    /// Refunded back to the funder.
    Refunded,
}

/// Normalized snapshot of an individual milestone.
#[derive(Debug, Clone, PartialEq, Eq)]
pub struct MilestoneSnapshot {
    /// Unique index or identifier of the milestone.
    pub id: u32,
    /// Total committed amount for this milestone.
    pub amount: i128,
    /// Cumulative amount released to the freelancer so far.
    pub released_amount: i128,
    /// Whether the milestone reached an approved or delivered state eligible for release.
    pub is_approved: bool,
    /// Whether the milestone has been fully released.
    pub is_released: bool,
    /// Whether the milestone has been refunded.
    pub is_refunded: bool,
    /// Whether this milestone is currently in dispute.
    pub is_disputed: bool,
    /// Detailed milestone status.
    pub status: MilestoneStatusKind,
}

/// Normalized snapshot of an escrow system's overall state.
#[derive(Debug, Clone, PartialEq, Eq)]
pub struct EscrowStateSnapshot {
    /// Currently locked balance held in the escrow contract.
    pub total_locked: i128,
    /// Cumulative amount released across all milestones.
    pub total_released: i128,
    /// Cumulative amount refunded across all milestones.
    pub total_refunded: i128,
    /// Whether the escrow has been funded.
    pub is_funded: bool,
    /// Whether the escrow or any milestone is under active dispute.
    pub is_disputed: bool,
    /// Milestones defined in the escrow.
    pub milestones: Vec<MilestoneSnapshot>,
    /// Token balance held by the escrow contract, if observed.
    pub contract_token_balance: Option<i128>,
}

/// High-level classification of actions that can occur in an escrow system.
#[derive(Debug, Clone, PartialEq, Eq)]
pub enum EscrowActionKind {
    /// Initial funding / deposit of escrow balance.
    Fund { amount: i128 },
    /// Milestone marked delivered by the worker.
    MarkDelivered { milestone_id: u32 },
    /// Approval of a milestone (full or partial).
    ApproveMilestone { milestone_id: u32 },
    /// Partial release of milestone funds.
    ApprovePartial { milestone_id: u32, amount: i128 },
    /// Auto-release claim after delivery timeout.
    ClaimAutoRelease { milestone_id: u32 },
    /// Dispute raised on a milestone or the contract.
    RaiseDispute { milestone_id: u32 },
    /// Dispute resolution by the arbiter.
    ResolveDispute { milestone_id: u32, release_to_freelancer: bool },
    /// Emergency pause or unpause.
    SetPaused(bool),
    /// Cancellation of the escrow.
    Cancel,
    /// Other custom action.
    Other,
}

/// Adapter trait bridging concrete escrow contracts to the normalized escrow checks.
pub trait EscrowAdapter: ContractAdapter {
    // The two specification functions below are what the contracts of `inspect_escrow` and
    // `classify_action` speak of. An implementation verified with Verus defines them to match
    // its code and is checked against them. An implementation written outside Verus keeps the
    // defaults, for which those contracts are false, so nothing proved from them holds for it.

    /// The normalized snapshot of a concrete state.
    open spec fn spec_inspect_escrow(state: Self::State) -> EscrowStateSnapshot {
        vstd::pervasive::arbitrary()
    }

    /// The classification of a concrete action.
    open spec fn spec_classify_action(action: Self::Action) -> Option<EscrowActionKind> {
        None
    }

    /// Extracts an [`EscrowStateSnapshot`] from the adapter's concrete state.
    fn inspect_escrow(state: &Self::State) -> (r: EscrowStateSnapshot)
        ensures
            r == Self::spec_inspect_escrow(*state),
    ;

    /// Classifies an action into a standard escrow action, when it is one.
    /// Every adapter provides it; one that exposes no standard action returns `None`.
    fn classify_action(action: &Self::Action) -> (r: Option<EscrowActionKind>)
        ensures
            r == Self::spec_classify_action(*action),
    ;
}

// ---------------------------------------------------------------------------
// Shared helpers
// ---------------------------------------------------------------------------

/// The first milestone at or after index `i` whose id is `id`.
pub open spec fn find_milestone_from(ms: Seq<MilestoneSnapshot>, id: u32, i: int) -> Option<
    MilestoneSnapshot,
>
    decreases ms.len() - i,
{
    if i < 0 || i >= ms.len() {
        None
    } else if ms[i].id == id {
        Some(ms[i])
    } else {
        find_milestone_from(ms, id, i + 1)
    }
}

/// The first milestone whose id is `id`.
pub open spec fn find_milestone(ms: Seq<MilestoneSnapshot>, id: u32) -> Option<MilestoneSnapshot> {
    find_milestone_from(ms, id, 0)
}

/// Index of the first milestone whose id is `id`.
fn find_milestone_index(ms: &Vec<MilestoneSnapshot>, id: u32) -> (r: Option<usize>)
    ensures
        match r {
            Some(k) => k < ms@.len() && find_milestone(ms@, id) == Some(ms@[k as int]),
            None => find_milestone(ms@, id) is None,
        },
{
    let mut i: usize = 0;
    while i < ms.len()
        invariant
            i <= ms@.len(),
            find_milestone(ms@, id) == find_milestone_from(ms@, id, i as int),
        decreases ms@.len() - i,
    {
        if ms[i].id == id {
            return Some(i);
        }
        i = i + 1;
    }
    None
}

/// The name of a milestone status, as its derived `Debug` prints it.
pub open spec fn milestone_status_name(s: MilestoneStatusKind) -> &'static str {
    match s {
        MilestoneStatusKind::Pending => "Pending",
        MilestoneStatusKind::Delivered => "Delivered",
        MilestoneStatusKind::PartiallyReleased => "PartiallyReleased",
        MilestoneStatusKind::Released => "Released",
        MilestoneStatusKind::Disputed => "Disputed",
        MilestoneStatusKind::Refunded => "Refunded",
    }
}

fn status_name(s: MilestoneStatusKind) -> (r: &'static str)
    ensures
        r == milestone_status_name(s),
{
    match s {
        MilestoneStatusKind::Pending => "Pending",
        MilestoneStatusKind::Delivered => "Delivered",
        MilestoneStatusKind::PartiallyReleased => "PartiallyReleased",
        MilestoneStatusKind::Released => "Released",
        MilestoneStatusKind::Disputed => "Disputed",
        MilestoneStatusKind::Refunded => "Refunded",
    }
}

/// Whether the classified action is a dispute resolution.
pub open spec fn is_dispute_resolution(kind: Option<EscrowActionKind>) -> bool {
    kind matches Some(EscrowActionKind::ResolveDispute { .. })
}

// ---------------------------------------------------------------------------
// Invariant 1: TotalLockedConservation
// ---------------------------------------------------------------------------

/// Sum of milestone amounts.
pub open spec fn sum_amounts(ms: Seq<MilestoneSnapshot>) -> int
    decreases ms.len(),
{
    if ms.len() == 0 {
        0
    } else {
        sum_amounts(ms.drop_last()) + ms.last().amount
    }
}

/// Whether every running sum of milestone amounts, taken in order, is representable as `i128`.
pub open spec fn amounts_sum_fits(ms: Seq<MilestoneSnapshot>) -> bool
    decreases ms.len(),
{
    if ms.len() == 0 {
        true
    } else {
        amounts_sum_fits(ms.drop_last()) && fits_i128(sum_amounts(ms))
    }
}

/// Verdict of [`TotalLockedConservation`] on an escrow snapshot.
pub open spec fn total_locked_verdict(e: EscrowStateSnapshot) -> Verdict {
    let ms = e.milestones@;
    if !e.is_funded {
        if e.total_locked != 0 {
            fails(
                render(
                    seq![
                        Piece::Text("Unfunded escrow has non-zero total_locked: "),
                        Piece::Int(e.total_locked),
                    ],
                ),
            )
        } else if e.total_released != 0 {
            fails(
                render(
                    seq![
                        Piece::Text("Unfunded escrow has non-zero total_released: "),
                        Piece::Int(e.total_released),
                    ],
                ),
            )
        } else if e.total_refunded != 0 {
            fails("Balance conservation broken: unfunded escrow attempted refund transition"@)
        } else {
            Verdict::Pass
        }
    } else if e.total_locked < 0 {
        fails(
            render(
                seq![
                    Piece::Text("Total locked balance is negative: "),
                    Piece::Int(e.total_locked),
                ],
            ),
        )
    } else if !amounts_sum_fits(ms) || !fits_i128(sum_amounts(ms) - e.total_released)
        || !fits_i128(sum_amounts(ms) - e.total_released - e.total_refunded) {
        fails("Overflow occurred computing expected locked balance"@)
    } else if e.total_locked != sum_amounts(ms) - e.total_released - e.total_refunded {
        fails(
            render(
                seq![
                    Piece::Text("Balance conservation broken: total_locked ("),
                    Piece::Int(e.total_locked),
                    Piece::Text(") != sum(milestones) ("),
                    Piece::Int(sum_amounts(ms) as i128),
                    Piece::Text(") - released ("),
                    Piece::Int(e.total_released),
                    Piece::Text(") - refunded ("),
                    Piece::Int(e.total_refunded),
                    Piece::Text(") [expected: "),
                    Piece::Int((sum_amounts(ms) - e.total_released - e.total_refunded) as i128),
                    Piece::Text("]"),
                ],
            ),
        )
    } else {
        match e.contract_token_balance {
            Some(token_bal) => if token_bal != e.total_locked {
                fails(
                    render(
                        seq![
                            Piece::Text("Token contract balance ("),
                            Piece::Int(token_bal),
                            Piece::Text(") does not match escrow total_locked ("),
                            Piece::Int(e.total_locked),
                            Piece::Text(")"),
                        ],
                    ),
                )
            } else {
                Verdict::Pass
            },
            None => Verdict::Pass,
        }
    }
}

/// Sum of milestone amounts, or `None` when a running sum leaves `i128`.
fn checked_sum_amounts(ms: &Vec<MilestoneSnapshot>) -> (r: Option<i128>)
    ensures
        match r {
            Some(v) => amounts_sum_fits(ms@) && v == sum_amounts(ms@),
            None => !amounts_sum_fits(ms@),
        },
{
    let mut sum: i128 = 0;
    let mut i: usize = 0;
    while i < ms.len()
        invariant
            i <= ms@.len(),
            amounts_sum_fits(ms@.take(i as int)),
            sum == sum_amounts(ms@.take(i as int)),
        decreases ms@.len() - i,
    {
        assert(ms@.take(i + 1).drop_last() == ms@.take(i as int));
        match sum.checked_add(ms[i].amount) {
            Some(v) => {
                sum = v;
            },
            None => {
                proof {
                    assert(ms@.take(i + 1).drop_last() == ms@.take(i as int));
                    assert(!amounts_sum_fits(ms@.take(i + 1)));
                    if amounts_sum_fits(ms@) {
                        lemma_sum_fits_prefix(ms@, i + 1);
                    }
                }
                return None;
            },
        }
        i = i + 1;
    }
    assert(ms@.take(ms@.len() as int) == ms@);
    Some(sum)
}

/// Running sums that fit for a sequence also fit for each of its prefixes.
proof fn lemma_sum_fits_prefix(ms: Seq<MilestoneSnapshot>, n: int)
    requires
        0 <= n <= ms.len(),
        amounts_sum_fits(ms),
    ensures
        amounts_sum_fits(ms.take(n)),
    decreases ms.len() - n,
{
    if n < ms.len() {
        assert(ms.drop_last().take(n) == ms.take(n));
        lemma_sum_fits_prefix(ms.drop_last(), n);
    } else {
        assert(ms.take(n) == ms);
    }
}

fn total_locked_check(e: &EscrowStateSnapshot) -> (r: InvariantResult)
    ensures
        r@ == total_locked_verdict(*e),
{
    if !e.is_funded {
        if e.total_locked != 0 {
            return fail_with(
                vec![
                    Piece::Text("Unfunded escrow has non-zero total_locked: "),
                    Piece::Int(e.total_locked),
                ],
            );
        }
        if e.total_released != 0 {
            return fail_with(
                vec![
                    Piece::Text("Unfunded escrow has non-zero total_released: "),
                    Piece::Int(e.total_released),
                ],
            );
        }
        if e.total_refunded != 0 {
            return fail_text(
                "Balance conservation broken: unfunded escrow attempted refund transition",
            );
        }
        return InvariantResult::Pass;
    }
    if e.total_locked < 0 {
        return fail_with(
            vec![Piece::Text("Total locked balance is negative: "), Piece::Int(e.total_locked)],
        );
    }
    let total = checked_sum_amounts(&e.milestones);
    let expected = match total {
        Some(t) => match t.checked_sub(e.total_released) {
            Some(v) => v.checked_sub(e.total_refunded),
            None => None,
        },
        None => None,
    };
    match expected {
        Some(exp) => {
            let t = total.unwrap();
            if e.total_locked != exp {
                return fail_with(
                    vec![
                        Piece::Text("Balance conservation broken: total_locked ("),
                        Piece::Int(e.total_locked),
                        Piece::Text(") != sum(milestones) ("),
                        Piece::Int(t),
                        Piece::Text(") - released ("),
                        Piece::Int(e.total_released),
                        Piece::Text(") - refunded ("),
                        Piece::Int(e.total_refunded),
                        Piece::Text(") [expected: "),
                        Piece::Int(exp),
                        Piece::Text("]"),
                    ],
                );
            }
        },
        None => {
            return fail_text("Overflow occurred computing expected locked balance");
        },
    }
    if let Some(token_bal) = e.contract_token_balance {
        if token_bal != e.total_locked {
            return fail_with(
                vec![
                    Piece::Text("Token contract balance ("),
                    Piece::Int(token_bal),
                    Piece::Text(") does not match escrow total_locked ("),
                    Piece::Int(e.total_locked),
                    Piece::Text(")"),
                ],
            );
        }
    }
    InvariantResult::Pass
}

/// Invariant: total locked funds equal the sum of milestone amounts minus cumulative
/// released and refunded amounts (`total_locked == sum(milestones) - released - refunded`),
/// the locked balance is not negative, and an observed token balance equals the locked
/// balance. An unfunded escrow must have nothing locked, released or refunded.
pub struct TotalLockedConservation;

impl<A: EscrowAdapter> Invariant<A> for TotalLockedConservation {
    open spec fn spec_name(&self) -> Seq<char> {
        "TotalLockedConservation"@
    }

    open spec fn spec_check_state(&self, state: A::State) -> Verdict {
        total_locked_verdict(A::spec_inspect_escrow(state))
    }

    open spec fn spec_check_transition(
        &self,
        before: A::State,
        after: A::State,
        action: A::Action,
        result: ActionResult,
    ) -> Verdict {
        Verdict::Pass
    }

    fn name(&self) -> (r: &'static str) {
        "TotalLockedConservation"
    }

    fn description(&self) -> &'static str
        returns
            "Total locked funds must equal sum(milestone amounts) - sum(released) - sum(refunded) and match token balance",
    {
        "Total locked funds must equal sum(milestone amounts) - sum(released) - sum(refunded) and match token balance"
    }

    fn check_state(&self, state: &A::State) -> (r: InvariantResult) {
        let escrow = A::inspect_escrow(state);
        total_locked_check(&escrow)
    }

    fn check_transition(
        &self,
        before: &A::State,
        after: &A::State,
        action: &A::Action,
        result: &ActionResult,
    ) -> (r: InvariantResult) {
        InvariantResult::Pass
    }
}

// ---------------------------------------------------------------------------
// Invariant 2: NoDoubleRelease
// ---------------------------------------------------------------------------

/// Verdict of the state part of [`NoDoubleRelease`] on milestones from index `i` on.
pub open spec fn double_release_state_from(ms: Seq<MilestoneSnapshot>, i: int) -> Verdict
    decreases ms.len() - i,
{
    if i < 0 || i >= ms.len() {
        Verdict::Pass
    } else if ms[i].released_amount > ms[i].amount {
        fails(
            render(
                seq![
                    Piece::Text("Milestone "),
                    Piece::Int(ms[i].id as i128),
                    Piece::Text(" released_amount ("),
                    Piece::Int(ms[i].released_amount),
                    Piece::Text(") exceeds total amount ("),
                    Piece::Int(ms[i].amount),
                    Piece::Text(")"),
                ],
            ),
        )
    } else if ms[i].is_released && ms[i].released_amount != ms[i].amount {
        fails(
            render(
                seq![
                    Piece::Text("Milestone "),
                    Piece::Int(ms[i].id as i128),
                    Piece::Text(" marked is_released but released_amount ("),
                    Piece::Int(ms[i].released_amount),
                    Piece::Text(") != amount ("),
                    Piece::Int(ms[i].amount),
                    Piece::Text(")"),
                ],
            ),
        )
    } else {
        double_release_state_from(ms, i + 1)
    }
}

/// Verdict of the transition part of [`NoDoubleRelease`] for one milestone before and
/// its counterpart after.
pub open spec fn double_release_pair(mb: MilestoneSnapshot, ma: MilestoneSnapshot) -> Verdict {
    if mb.is_released && ma.released_amount > mb.released_amount {
        fails(
            render(
                seq![
                    Piece::Text("Double-release detected: milestone "),
                    Piece::Int(mb.id as i128),
                    Piece::Text(" was already released ("),
                    Piece::Int(mb.released_amount),
                    Piece::Text(" released), but released amount increased to "),
                    Piece::Int(ma.released_amount),
                ],
            ),
        )
    } else if mb.is_refunded && ma.released_amount > mb.released_amount {
        fails(
            render(
                seq![
                    Piece::Text("Invalid release on refunded milestone: milestone "),
                    Piece::Int(mb.id as i128),
                    Piece::Text(" was refunded, but released amount increased from "),
                    Piece::Int(mb.released_amount),
                    Piece::Text(" to "),
                    Piece::Int(ma.released_amount),
                ],
            ),
        )
    } else if mb.is_released && !ma.is_released {
        fails(
            render(
                seq![
                    Piece::Text("Milestone "),
                    Piece::Int(mb.id as i128),
                    Piece::Text(" reverted from terminal released status"),
                ],
            ),
        )
    } else {
        Verdict::Pass
    }
}

/// Verdict of the transition part of [`NoDoubleRelease`] on milestones of `before` from
/// index `i` on, each matched by id against `after`.
pub open spec fn double_release_transition_from(
    before: Seq<MilestoneSnapshot>,
    after: Seq<MilestoneSnapshot>,
    i: int,
) -> Verdict
    decreases before.len() - i,
{
    if i < 0 || i >= before.len() {
        Verdict::Pass
    } else {
        match find_milestone(after, before[i].id) {
            Some(ma) => if double_release_pair(before[i], ma) is Violation {
                double_release_pair(before[i], ma)
            } else {
                double_release_transition_from(before, after, i + 1)
            },
            None => double_release_transition_from(before, after, i + 1),
        }
    }
}

fn double_release_pair_check(mb: &MilestoneSnapshot, ma: &MilestoneSnapshot) -> (r: InvariantResult)
    ensures
        r@ == double_release_pair(*mb, *ma),
{
    if mb.is_released && ma.released_amount > mb.released_amount {
        return fail_with(
            vec![
                Piece::Text("Double-release detected: milestone "),
                Piece::Int(mb.id as i128),
                Piece::Text(" was already released ("),
                Piece::Int(mb.released_amount),
                Piece::Text(" released), but released amount increased to "),
                Piece::Int(ma.released_amount),
            ],
        );
    }
    if mb.is_refunded && ma.released_amount > mb.released_amount {
        return fail_with(
            vec![
                Piece::Text("Invalid release on refunded milestone: milestone "),
                Piece::Int(mb.id as i128),
                Piece::Text(" was refunded, but released amount increased from "),
                Piece::Int(mb.released_amount),
                Piece::Text(" to "),
                Piece::Int(ma.released_amount),
            ],
        );
    }
    if mb.is_released && !ma.is_released {
        return fail_with(
            vec![
                Piece::Text("Milestone "),
                Piece::Int(mb.id as i128),
                Piece::Text(" reverted from terminal released status"),
            ],
        );
    }
    InvariantResult::Pass
}

/// Invariant: a milestone cannot be released more than once, cumulative releases never
/// exceed the milestone amount, refunded milestones release nothing more, and a released
/// milestone never leaves the released status.
pub struct NoDoubleRelease;

impl<A: EscrowAdapter> Invariant<A> for NoDoubleRelease {
    open spec fn spec_name(&self) -> Seq<char> {
        "NoDoubleRelease"@
    }

    open spec fn spec_check_state(&self, state: A::State) -> Verdict {
        double_release_state_from(A::spec_inspect_escrow(state).milestones@, 0)
    }

    open spec fn spec_check_transition(
        &self,
        before: A::State,
        after: A::State,
        action: A::Action,
        result: ActionResult,
    ) -> Verdict {
        double_release_transition_from(
            A::spec_inspect_escrow(before).milestones@,
            A::spec_inspect_escrow(after).milestones@,
            0,
        )
    }

    fn name(&self) -> (r: &'static str) {
        "NoDoubleRelease"
    }

    fn description(&self) -> &'static str
        returns
            "A milestone cannot be released more than once; released_amount cannot exceed milestone amount",
    {
        "A milestone cannot be released more than once; released_amount cannot exceed milestone amount"
    }

    #[verifier::loop_isolation(false)]
    fn check_state(&self, state: &A::State) -> (r: InvariantResult) {
        let escrow = A::inspect_escrow(state);
        let ms = &escrow.milestones;
        let mut i: usize = 0;
        while i < ms.len()
            invariant
                i <= ms@.len(),
                double_release_state_from(ms@, 0) == double_release_state_from(ms@, i as int),
            decreases ms@.len() - i,
        {
            let m = &ms[i];
            if m.released_amount > m.amount {
                return fail_with(
                    vec![
                        Piece::Text("Milestone "),
                        Piece::Int(m.id as i128),
                        Piece::Text(" released_amount ("),
                        Piece::Int(m.released_amount),
                        Piece::Text(") exceeds total amount ("),
                        Piece::Int(m.amount),
                        Piece::Text(")"),
                    ],
                );
            }
            if m.is_released && m.released_amount != m.amount {
                return fail_with(
                    vec![
                        Piece::Text("Milestone "),
                        Piece::Int(m.id as i128),
                        Piece::Text(" marked is_released but released_amount ("),
                        Piece::Int(m.released_amount),
                        Piece::Text(") != amount ("),
                        Piece::Int(m.amount),
                        Piece::Text(")"),
                    ],
                );
            }
            i = i + 1;
        }
        InvariantResult::Pass
    }

    #[verifier::loop_isolation(false)]
    fn check_transition(
        &self,
        before: &A::State,
        after: &A::State,
        action: &A::Action,
        result: &ActionResult,
    ) -> (r: InvariantResult) {
        let before_escrow = A::inspect_escrow(before);
        let after_escrow = A::inspect_escrow(after);
        let bs = &before_escrow.milestones;
        let as_ = &after_escrow.milestones;
        let mut i: usize = 0;
        while i < bs.len()
            invariant
                i <= bs@.len(),
                double_release_transition_from(bs@, as_@, 0) == double_release_transition_from(
                    bs@,
                    as_@,
                    i as int,
                ),
            decreases bs@.len() - i,
        {
            if let Some(k) = find_milestone_index(as_, bs[i].id) {
                let res = double_release_pair_check(&bs[i], &as_[k]);
                if res.is_violation() {
                    return res;
                }
            }
            i = i + 1;
        }
        InvariantResult::Pass
    }
}

// ---------------------------------------------------------------------------
// Invariant 3: NoReleaseWithoutApproval
// ---------------------------------------------------------------------------

/// Verdict of the release scan of [`NoReleaseWithoutApproval`]: milestones of `after`
/// from index `i` on, each matched by id against `before`.
pub open spec fn unapproved_release_from(
    before: Seq<MilestoneSnapshot>,
    after: Seq<MilestoneSnapshot>,
    dispute_resolution: bool,
    i: int,
) -> Verdict
    decreases after.len() - i,
{
    if i < 0 || i >= after.len() {
        Verdict::Pass
    } else {
        match find_milestone(before, after[i].id) {
            Some(mb) => if after[i].released_amount - mb.released_amount > 0 && !mb.is_approved
                && !dispute_resolution {
                fails(
                    render(
                        seq![
                            Piece::Text("Release without prior approval: milestone "),
                            Piece::Int(after[i].id as i128),
                            Piece::Text(" released "),
                            Piece::Diff(after[i].released_amount, mb.released_amount),
                            Piece::Text(" (from "),
                            Piece::Int(mb.released_amount),
                            Piece::Text(" to "),
                            Piece::Int(after[i].released_amount),
                            Piece::Text(") but before.is_approved was false (status was "),
                            Piece::Text(milestone_status_name(mb.status)),
                            Piece::Text(")"),
                        ],
                    ),
                )
            } else {
                unapproved_release_from(before, after, dispute_resolution, i + 1)
            },
            None => unapproved_release_from(before, after, dispute_resolution, i + 1),
        }
    }
}

/// Verdict of [`NoReleaseWithoutApproval`] on a transition.
pub open spec fn release_approval_verdict(
    before: EscrowStateSnapshot,
    after: EscrowStateSnapshot,
    kind: Option<EscrowActionKind>,
    result: ActionResult,
) -> Verdict {
    let scan = unapproved_release_from(
        before.milestones@,
        after.milestones@,
        is_dispute_resolution(kind),
        0,
    );
    if scan is Violation {
        scan
    } else {
        match kind {
            Some(EscrowActionKind::ApproveMilestone { milestone_id }) => match find_milestone(
                before.milestones@,
                milestone_id,
            ) {
                Some(mb) => if !mb.is_approved && result is Success {
                    fails(
                        render(
                            seq![
                                Piece::Text("ApproveMilestone succeeded on milestone "),
                                Piece::Int(milestone_id as i128),
                                Piece::Text(" which was not in approved state (status: "),
                                Piece::Text(milestone_status_name(mb.status)),
                                Piece::Text(")"),
                            ],
                        ),
                    )
                } else {
                    Verdict::Pass
                },
                None => Verdict::Pass,
            },
            _ => Verdict::Pass,
        }
    }
}

#[verifier::loop_isolation(false)]
fn release_approval_check(
    before: &EscrowStateSnapshot,
    after: &EscrowStateSnapshot,
    kind: &Option<EscrowActionKind>,
    result: &ActionResult,
) -> (r: InvariantResult)
    ensures
        r@ == release_approval_verdict(*before, *after, *kind, *result),
{
    let dispute_resolution = match kind {
        Some(EscrowActionKind::ResolveDispute { .. }) => true,
        _ => false,
    };
    let bs = &before.milestones;
    let as_ = &after.milestones;
    let mut i: usize = 0;
    while i < as_.len()
        invariant
            i <= as_@.len(),
            dispute_resolution == is_dispute_resolution(*kind),
            unapproved_release_from(bs@, as_@, dispute_resolution, 0) == unapproved_release_from(
                bs@,
                as_@,
                dispute_resolution,
                i as int,
            ),
        decreases as_@.len() - i,
    {
        let ma = &as_[i];
        if let Some(k) = find_milestone_index(bs, ma.id) {
            let mb = &bs[k];
            if ma.released_amount > mb.released_amount && !mb.is_approved && !dispute_resolution {
                return fail_with(
                    vec![
                        Piece::Text("Release without prior approval: milestone "),
                        Piece::Int(ma.id as i128),
                        Piece::Text(" released "),
                        Piece::Diff(ma.released_amount, mb.released_amount),
                        Piece::Text(" (from "),
                        Piece::Int(mb.released_amount),
                        Piece::Text(" to "),
                        Piece::Int(ma.released_amount),
                        Piece::Text(") but before.is_approved was false (status was "),
                        Piece::Text(status_name(mb.status)),
                        Piece::Text(")"),
                    ],
                );
            }
        }
        i = i + 1;
    }
    if let Some(EscrowActionKind::ApproveMilestone { milestone_id }) = kind {
        if let Some(k) = find_milestone_index(bs, *milestone_id) {
            let mb = &bs[k];
            if !mb.is_approved && result.is_ok() {
                return fail_with(
                    vec![
                        Piece::Text("ApproveMilestone succeeded on milestone "),
                        Piece::Int(*milestone_id as i128),
                        Piece::Text(" which was not in approved state (status: "),
                        Piece::Text(status_name(mb.status)),
                        Piece::Text(")"),
                    ],
                );
            }
        }
    }
    InvariantResult::Pass
}

/// Invariant: a milestone releases funds only if it was approved/delivered in the
/// preceding state (or the action is a dispute resolution), and an approval action
/// never succeeds on an unapproved milestone.
pub struct NoReleaseWithoutApproval;

impl<A: EscrowAdapter> Invariant<A> for NoReleaseWithoutApproval {
    open spec fn spec_name(&self) -> Seq<char> {
        "NoReleaseWithoutApproval"@
    }

    open spec fn spec_check_state(&self, state: A::State) -> Verdict {
        Verdict::Pass
    }

    open spec fn spec_check_transition(
        &self,
        before: A::State,
        after: A::State,
        action: A::Action,
        result: ActionResult,
    ) -> Verdict {
        release_approval_verdict(
            A::spec_inspect_escrow(before),
            A::spec_inspect_escrow(after),
            A::spec_classify_action(action),
            result,
        )
    }

    fn name(&self) -> (r: &'static str) {
        "NoReleaseWithoutApproval"
    }

    fn description(&self) -> &'static str
        returns
            "Milestone funds cannot be released unless the milestone was in a prior approved/delivered state",
    {
        "Milestone funds cannot be released unless the milestone was in a prior approved/delivered state"
    }

    fn check_state(&self, state: &A::State) -> (r: InvariantResult) {
        InvariantResult::Pass
    }

    fn check_transition(
        &self,
        before: &A::State,
        after: &A::State,
        action: &A::Action,
        result: &ActionResult,
    ) -> (r: InvariantResult) {
        let before_escrow = A::inspect_escrow(before);
        let after_escrow = A::inspect_escrow(after);
        let kind = A::classify_action(action);
        release_approval_check(&before_escrow, &after_escrow, &kind, result)
    }
}

// ---------------------------------------------------------------------------
// Invariant 4: DisputeFreezeCannotBeBypassed
// ---------------------------------------------------------------------------

/// Verdict of the release scan of [`DisputeFreezeCannotBeBypassed`]: milestones of `before`
/// from index `i` on that are frozen (disputed themselves, or all of them when the escrow is
/// disputed), each matched by id against `after`.
pub open spec fn frozen_release_from(
    before: Seq<MilestoneSnapshot>,
    after: Seq<MilestoneSnapshot>,
    escrow_disputed: bool,
    dispute_resolution: bool,
    i: int,
) -> Verdict
    decreases before.len() - i,
{
    if i < 0 || i >= before.len() {
        Verdict::Pass
    } else if !before[i].is_disputed && !escrow_disputed {
        frozen_release_from(before, after, escrow_disputed, dispute_resolution, i + 1)
    } else {
        match find_milestone(after, before[i].id) {
            Some(ma) => if ma.released_amount > before[i].released_amount && !dispute_resolution {
                fails(
                    render(
                        seq![
                            Piece::Text("Dispute freeze bypassed: milestone "),
                            Piece::Int(before[i].id as i128),
                            Piece::Text(" released funds ("),
                            Piece::Int(before[i].released_amount),
                            Piece::Text(" -> "),
                            Piece::Int(ma.released_amount),
                            Piece::Text(") while in dispute without dispute resolution"),
                        ],
                    ),
                )
            } else {
                frozen_release_from(before, after, escrow_disputed, dispute_resolution, i + 1)
            },
            None => frozen_release_from(before, after, escrow_disputed, dispute_resolution, i + 1),
        }
    }
}

/// The milestone a release-type action targets: approval, partial approval or auto-release.
pub open spec fn release_target(kind: EscrowActionKind) -> Option<u32> {
    match kind {
        EscrowActionKind::ApproveMilestone { milestone_id } => Some(milestone_id),
        EscrowActionKind::ApprovePartial { milestone_id, .. } => Some(milestone_id),
        EscrowActionKind::ClaimAutoRelease { milestone_id } => Some(milestone_id),
        _ => None,
    }
}

/// The pieces printing a release-type action as its derived `Debug` does.
pub open spec fn release_action_pieces(kind: EscrowActionKind) -> Seq<Piece<'static>> {
    match kind {
        EscrowActionKind::ApproveMilestone { milestone_id } => seq![
            Piece::Text("ApproveMilestone { milestone_id: "),
            Piece::Int(milestone_id as i128),
            Piece::Text(" }"),
        ],
        EscrowActionKind::ApprovePartial { milestone_id, amount } => seq![
            Piece::Text("ApprovePartial { milestone_id: "),
            Piece::Int(milestone_id as i128),
            Piece::Text(", amount: "),
            Piece::Int(amount),
            Piece::Text(" }"),
        ],
        _ => seq![
            Piece::Text("ClaimAutoRelease { milestone_id: "),
            Piece::Int(release_target(kind)->0 as i128),
            Piece::Text(" }"),
        ],
    }
}

/// Verdict of [`DisputeFreezeCannotBeBypassed`] on a transition.
pub open spec fn dispute_freeze_verdict(
    before: EscrowStateSnapshot,
    after: EscrowStateSnapshot,
    kind: Option<EscrowActionKind>,
    result: ActionResult,
) -> Verdict {
    let scan = frozen_release_from(
        before.milestones@,
        after.milestones@,
        before.is_disputed,
        is_dispute_resolution(kind),
        0,
    );
    if scan is Violation {
        scan
    } else {
        match kind {
            Some(k) => match release_target(k) {
                Some(id) => match find_milestone(before.milestones@, id) {
                    Some(mb) => if (mb.is_disputed || before.is_disputed) && result is Success {
                        fails(
                            render(
                                seq![Piece::Text("Dispute freeze bypassed: action ")]
                                    + release_action_pieces(k) + seq![
                                    Piece::Text(" succeeded on disputed milestone "),
                                    Piece::Int(id as i128),
                                ],
                            ),
                        )
                    } else {
                        Verdict::Pass
                    },
                    None => Verdict::Pass,
                },
                None => Verdict::Pass,
            },
            None => Verdict::Pass,
        }
    }
}

#[verifier::loop_isolation(false)]
fn dispute_freeze_check(
    before: &EscrowStateSnapshot,
    after: &EscrowStateSnapshot,
    kind: &Option<EscrowActionKind>,
    result: &ActionResult,
) -> (r: InvariantResult)
    ensures
        r@ == dispute_freeze_verdict(*before, *after, *kind, *result),
{
    let dispute_resolution = match kind {
        Some(EscrowActionKind::ResolveDispute { .. }) => true,
        _ => false,
    };
    let bs = &before.milestones;
    let as_ = &after.milestones;
    let mut i: usize = 0;
    while i < bs.len()
        invariant
            i <= bs@.len(),
            dispute_resolution == is_dispute_resolution(*kind),
            frozen_release_from(bs@, as_@, before.is_disputed, dispute_resolution, 0)
                == frozen_release_from(
                bs@,
                as_@,
                before.is_disputed,
                dispute_resolution,
                i as int,
            ),
        decreases bs@.len() - i,
    {
        let mb = &bs[i];
        if mb.is_disputed || before.is_disputed {
            if let Some(k) = find_milestone_index(as_, mb.id) {
                let ma = &as_[k];
                if ma.released_amount > mb.released_amount && !dispute_resolution {
                    return fail_with(
                        vec![
                            Piece::Text("Dispute freeze bypassed: milestone "),
                            Piece::Int(mb.id as i128),
                            Piece::Text(" released funds ("),
                            Piece::Int(mb.released_amount),
                            Piece::Text(" -> "),
                            Piece::Int(ma.released_amount),
                            Piece::Text(") while in dispute without dispute resolution"),
                        ],
                    );
                }
            }
        }
        i = i + 1;
    }
    let target = match kind {
        Some(EscrowActionKind::ApproveMilestone { milestone_id }) => Some(*milestone_id),
        Some(EscrowActionKind::ApprovePartial { milestone_id, .. }) => Some(*milestone_id),
        Some(EscrowActionKind::ClaimAutoRelease { milestone_id }) => Some(*milestone_id),
        _ => None,
    };
    if let Some(id) = target {
        if let Some(k) = find_milestone_index(bs, id) {
            if (bs[k].is_disputed || before.is_disputed) && result.is_ok() {
                let pieces = match kind {
                    Some(EscrowActionKind::ApproveMilestone { milestone_id }) => vec![
                        Piece::Text("Dispute freeze bypassed: action "),
                        Piece::Text("ApproveMilestone { milestone_id: "),
                        Piece::Int(*milestone_id as i128),
                        Piece::Text(" }"),
                        Piece::Text(" succeeded on disputed milestone "),
                        Piece::Int(id as i128),
                    ],
                    Some(EscrowActionKind::ApprovePartial { milestone_id, amount }) => vec![
                        Piece::Text("Dispute freeze bypassed: action "),
                        Piece::Text("ApprovePartial { milestone_id: "),
                        Piece::Int(*milestone_id as i128),
                        Piece::Text(", amount: "),
                        Piece::Int(*amount),
                        Piece::Text(" }"),
                        Piece::Text(" succeeded on disputed milestone "),
                        Piece::Int(id as i128),
                    ],
                    _ => vec![
                        Piece::Text("Dispute freeze bypassed: action "),
                        Piece::Text("ClaimAutoRelease { milestone_id: "),
                        Piece::Int(id as i128),
                        Piece::Text(" }"),
                        Piece::Text(" succeeded on disputed milestone "),
                        Piece::Int(id as i128),
                    ],
                };
                proof {
                    let k = kind->0;
                    assert(pieces@ =~= seq![Piece::Text("Dispute freeze bypassed: action ")]
                        + release_action_pieces(k) + seq![
                        Piece::Text(" succeeded on disputed milestone "),
                        Piece::Int(id as i128),
                    ]);
                }
                return fail_with(pieces);
            }
        }
    }
    InvariantResult::Pass
}

/// Invariant: while the escrow or a milestone is disputed no normal release can occur;
/// only a dispute resolution may disburse funds, and release-type actions on a disputed
/// milestone, or on any milestone of a disputed escrow, never succeed.
pub struct DisputeFreezeCannotBeBypassed;

impl<A: EscrowAdapter> Invariant<A> for DisputeFreezeCannotBeBypassed {
    open spec fn spec_name(&self) -> Seq<char> {
        "DisputeFreezeCannotBeBypassed"@
    }

    open spec fn spec_check_state(&self, state: A::State) -> Verdict {
        Verdict::Pass
    }

    open spec fn spec_check_transition(
        &self,
        before: A::State,
        after: A::State,
        action: A::Action,
        result: ActionResult,
    ) -> Verdict {
        dispute_freeze_verdict(
            A::spec_inspect_escrow(before),
            A::spec_inspect_escrow(after),
            A::spec_classify_action(action),
            result,
        )
    }

    fn name(&self) -> (r: &'static str) {
        "DisputeFreezeCannotBeBypassed"
    }

    fn description(&self) -> &'static str
        returns
            "Dispute freeze cannot be bypassed: no milestone release may occur while in dispute",
    {
        "Dispute freeze cannot be bypassed: no milestone release may occur while in dispute"
    }

    fn check_state(&self, state: &A::State) -> (r: InvariantResult) {
        InvariantResult::Pass
    }

    fn check_transition(
        &self,
        before: &A::State,
        after: &A::State,
        action: &A::Action,
        result: &ActionResult,
    ) -> (r: InvariantResult) {
        let before_escrow = A::inspect_escrow(before);
        let after_escrow = A::inspect_escrow(after);
        let kind = A::classify_action(action);
        dispute_freeze_check(&before_escrow, &after_escrow, &kind, result)
    }
}

// ---------------------------------------------------------------------------
// Invariant pack
// ---------------------------------------------------------------------------

/// An [`InvariantSet`] with the four escrow invariants, in this order:
/// [`TotalLockedConservation`], [`NoDoubleRelease`], [`NoReleaseWithoutApproval`],
/// [`DisputeFreezeCannotBeBypassed`].
pub fn escrow_invariant_pack<A: EscrowAdapter>() -> (r: InvariantSet<A>)
    ensures
        r@.len() == 4,
        r@[0] == boxed::<A, _>(TotalLockedConservation),
        r@[1] == boxed::<A, _>(NoDoubleRelease),
        r@[2] == boxed::<A, _>(NoReleaseWithoutApproval),
        r@[3] == boxed::<A, _>(DisputeFreezeCannotBeBypassed),
{
    InvariantSet::new().with(TotalLockedConservation).with(NoDoubleRelease).with(
        NoReleaseWithoutApproval,
    ).with(DisputeFreezeCannotBeBypassed)
}

// ---------------------------------------------------------------------------
// Laws
// ---------------------------------------------------------------------------

/// Escrow balance conservation: an unfunded escrow has nothing locked, released or refunded; a funded
/// one has a non-negative locked balance equal to `sum(milestones) - released - refunded`,
/// and an observed token balance equal to it.
pub open spec fn escrow_conserved(e: EscrowStateSnapshot) -> bool {
    if !e.is_funded {
        e.total_locked == 0 && e.total_released == 0 && e.total_refunded == 0
    } else {
        &&& e.total_locked >= 0
        &&& e.total_locked == sum_amounts(e.milestones@) - e.total_released - e.total_refunded
        &&& (e.contract_token_balance matches Some(t) ==> t == e.total_locked)
    }
}

/// The sums [`TotalLockedConservation`] computes on a funded escrow are representable as
/// `i128`: the running sums of milestone amounts, and `sum - released`.
pub open spec fn locked_sums_fit(e: EscrowStateSnapshot) -> bool {
    e.is_funded ==> amounts_sum_fits(e.milestones@) && fits_i128(
        sum_amounts(e.milestones@) - e.total_released,
    )
}

/// Escrow balance conservation: a passing [`TotalLockedConservation`] verdict guarantees a
/// conserved escrow, and a conserved escrow whose sums are representable passes.
pub proof fn law_total_locked_conservation(e: EscrowStateSnapshot)
    ensures
        (total_locked_verdict(e) is Pass) ==> escrow_conserved(e),
        locked_sums_fit(e) ==> ((total_locked_verdict(e) is Pass) <==> escrow_conserved(e)),
{
}

/// A milestone's releases are within its amount, and a released milestone released all of it.
pub open spec fn release_bounded(m: MilestoneSnapshot) -> bool {
    m.released_amount <= m.amount && (m.is_released ==> m.released_amount == m.amount)
}

proof fn lemma_double_release_state_from(ms: Seq<MilestoneSnapshot>, i: int)
    requires
        0 <= i <= ms.len(),
    ensures
        (double_release_state_from(ms, i) is Pass) <==> forall|j: int|
            i <= j < ms.len() ==> release_bounded(#[trigger] ms[j]),
    decreases ms.len() - i,
{
    if i < ms.len() {
        lemma_double_release_state_from(ms, i + 1);
    }
}

/// The state part of [`NoDoubleRelease`] passes exactly when every milestone's releases are
/// within its amount and every released milestone released all of it.
pub proof fn law_no_double_release_state(e: EscrowStateSnapshot)
    ensures
        (double_release_state_from(e.milestones@, 0) is Pass) <==> forall|j: int|
            0 <= j < e.milestones@.len() ==> release_bounded(#[trigger] e.milestones@[j]),
{
    lemma_double_release_state_from(e.milestones@, 0);
}

proof fn lemma_double_release_transition_from(
    before: Seq<MilestoneSnapshot>,
    after: Seq<MilestoneSnapshot>,
    i: int,
)
    requires
        0 <= i <= before.len(),
    ensures
        (double_release_transition_from(before, after, i) is Pass) <==> forall|j: int|
            i <= j < before.len() ==> match find_milestone(after, #[trigger] before[j].id) {
                Some(ma) => double_release_pair(before[j], ma) is Pass,
                None => true,
            },
    decreases before.len() - i,
{
    if i < before.len() {
        lemma_double_release_transition_from(before, after, i + 1);
    }
}

/// The transition part of [`NoDoubleRelease`] passes exactly when, for every milestone of
/// `before` and its counterpart in `after` (the first with the same id): a released or
/// refunded milestone's released amount did not increase, and a released milestone is
/// still released.
pub proof fn law_no_double_release_transition(
    before: EscrowStateSnapshot,
    after: EscrowStateSnapshot,
)
    ensures
        (double_release_transition_from(before.milestones@, after.milestones@, 0) is Pass)
            <==> forall|j: int|
            0 <= j < before.milestones@.len() ==> match find_milestone(
                after.milestones@,
                #[trigger] before.milestones@[j].id,
            ) {
                Some(ma) => {
                    let mb = before.milestones@[j];
                    &&& !(mb.is_released && ma.released_amount > mb.released_amount)
                    &&& !(mb.is_refunded && ma.released_amount > mb.released_amount)
                    &&& !(mb.is_released && !ma.is_released)
                },
                None => true,
            },
{
    lemma_double_release_transition_from(before.milestones@, after.milestones@, 0);
}

proof fn lemma_unapproved_release_from(
    before: Seq<MilestoneSnapshot>,
    after: Seq<MilestoneSnapshot>,
    dispute_resolution: bool,
    i: int,
)
    requires
        0 <= i <= after.len(),
    ensures
        (unapproved_release_from(before, after, dispute_resolution, i) is Pass) <==> forall|j: int|
            i <= j < after.len() ==> match find_milestone(before, #[trigger] after[j].id) {
                Some(mb) => after[j].released_amount > mb.released_amount ==> mb.is_approved
                    || dispute_resolution,
                None => true,
            },
    decreases after.len() - i,
{
    if i < after.len() {
        lemma_unapproved_release_from(before, after, dispute_resolution, i + 1);
    }
}

/// The milestone sum adds up the amounts of all milestones, whatever their flags: nothing
/// for none, and one more milestone adds its amount.
pub proof fn law_sum_amounts(s: Seq<MilestoneSnapshot>, x: MilestoneSnapshot)
    ensures
        sum_amounts(Seq::<MilestoneSnapshot>::empty()) == 0,
        sum_amounts(s.push(x)) == sum_amounts(s) + x.amount,
{
    assert(s.push(x).drop_last() =~= s);
}

/// The milestone sum is representable exactly when every running sum of amounts, taken in
/// order, is representable as `i128`.
pub proof fn law_amounts_sum_fits(ms: Seq<MilestoneSnapshot>)
    ensures
        amounts_sum_fits(ms) <==> forall|k: int|
            0 <= k <= ms.len() ==> fits_i128(#[trigger] sum_amounts(ms.take(k))),
    decreases ms.len(),
{
    if ms.len() > 0 {
        law_amounts_sum_fits(ms.drop_last());
        assert(ms.take(ms.len() as int) =~= ms);
        assert forall|k: int| 0 <= k <= ms.len() - 1 implies #[trigger] ms.take(k)
            =~= ms.drop_last().take(k) by {}
        if forall|k: int| 0 <= k <= ms.len() ==> fits_i128(#[trigger] sum_amounts(ms.take(k))) {
            assert forall|k: int| 0 <= k <= ms.drop_last().len() implies fits_i128(
                #[trigger] sum_amounts(ms.drop_last().take(k)),
            ) by {
                assert(ms.take(k) =~= ms.drop_last().take(k));
                assert(fits_i128(sum_amounts(ms.take(k))));
            }
        }
        if amounts_sum_fits(ms) {
            assert forall|k: int| 0 <= k <= ms.len() implies fits_i128(
                #[trigger] sum_amounts(ms.take(k)),
            ) by {
                if k < ms.len() {
                    assert(ms.take(k) =~= ms.drop_last().take(k));
                }
            }
        }
    } else {
        assert forall|k: int| 0 <= k <= ms.len() implies fits_i128(
            #[trigger] sum_amounts(ms.take(k)),
        ) by {
            assert(ms.take(k) =~= ms);
        }
    }
}


proof fn lemma_find_milestone_from(ms: Seq<MilestoneSnapshot>, id: u32, i: int)
    requires
        0 <= i <= ms.len(),
    ensures
        find_milestone_from(ms, id, i) is None <==> forall|j: int|
            i <= j < ms.len() ==> (#[trigger] ms[j]).id != id,
        find_milestone_from(ms, id, i) is Some ==> exists|j: int|
            i <= j < ms.len() && #[trigger] ms[j] == find_milestone_from(ms, id, i)->0 && ms[j].id
                == id && forall|k: int| i <= k < j ==> (#[trigger] ms[k]).id != id,
    decreases ms.len() - i,
{
    if i < ms.len() {
        lemma_find_milestone_from(ms, id, i + 1);
        if ms[i].id == id {
            assert(ms[i] == find_milestone_from(ms, id, i)->0);
        } else if find_milestone_from(ms, id, i + 1) is Some {
            let j = choose|j: int|
                i + 1 <= j < ms.len() && #[trigger] ms[j] == find_milestone_from(ms, id, i + 1)->0
                    && ms[j].id == id && forall|k: int| i + 1 <= k < j ==> (#[trigger] ms[k]).id
                    != id;
            assert(forall|k: int| i <= k < j ==> (#[trigger] ms[k]).id != id);
        }
    }
}

/// Milestones are matched by id: the first milestone with the id is found, and none is
/// found exactly when no milestone has it.
pub proof fn law_find_milestone(ms: Seq<MilestoneSnapshot>, id: u32)
    ensures
        find_milestone(ms, id) is None <==> forall|j: int|
            0 <= j < ms.len() ==> (#[trigger] ms[j]).id != id,
        find_milestone(ms, id) is Some ==> exists|j: int|
            0 <= j < ms.len() && #[trigger] ms[j] == find_milestone(ms, id)->0 && ms[j].id == id
                && forall|k: int| 0 <= k < j ==> (#[trigger] ms[k]).id != id,
{
    lemma_find_milestone_from(ms, id, 0);
}

/// Each milestone status is printed by its own name.
pub proof fn law_milestone_status_name()
    ensures
        milestone_status_name(MilestoneStatusKind::Pending)@ == "Pending"@,
        milestone_status_name(MilestoneStatusKind::Delivered)@ == "Delivered"@,
        milestone_status_name(MilestoneStatusKind::PartiallyReleased)@ == "PartiallyReleased"@,
        milestone_status_name(MilestoneStatusKind::Released)@ == "Released"@,
        milestone_status_name(MilestoneStatusKind::Disputed)@ == "Disputed"@,
        milestone_status_name(MilestoneStatusKind::Refunded)@ == "Refunded"@,
{
}

/// The release-type actions are approval, partial approval and auto-release claims, each
/// targeting its milestone; no other action is one.
pub proof fn law_release_target(kind: EscrowActionKind)
    ensures
        release_target(kind) is Some <==> (kind is ApproveMilestone || kind is ApprovePartial
            || kind is ClaimAutoRelease),
        kind matches EscrowActionKind::ApproveMilestone { milestone_id } ==> release_target(kind)
            == Some(milestone_id),
        kind matches EscrowActionKind::ApprovePartial { milestone_id, .. } ==> release_target(
            kind,
        ) == Some(milestone_id),
        kind matches EscrowActionKind::ClaimAutoRelease { milestone_id } ==> release_target(kind)
            == Some(milestone_id),
{
}

/// Exactly a dispute resolution is exempt from the approval and dispute-freeze rules: no
/// other action, classified or not, counts as one.
pub proof fn law_dispute_resolution_kind(kind: Option<EscrowActionKind>)
    ensures
        is_dispute_resolution(kind) <==> kind matches Some(
            EscrowActionKind::ResolveDispute { .. },
        ),
{
}

/// [`NoReleaseWithoutApproval`] passes exactly when every milestone whose released amount
/// grew (against the first milestone of `before` with its id) was approved before, unless
/// the action is a dispute resolution; and a successful approval targets no milestone that
/// was unapproved before.
pub proof fn law_no_release_without_approval(
    before: EscrowStateSnapshot,
    after: EscrowStateSnapshot,
    kind: Option<EscrowActionKind>,
    result: ActionResult,
)
    ensures
        (release_approval_verdict(before, after, kind, result) is Pass) <==> {
            &&& forall|j: int|
                0 <= j < after.milestones@.len() ==> match find_milestone(
                    before.milestones@,
                    #[trigger] after.milestones@[j].id,
                ) {
                    Some(mb) => after.milestones@[j].released_amount > mb.released_amount
                        ==> mb.is_approved || kind matches Some(
                            EscrowActionKind::ResolveDispute { .. },
                        ),
                    None => true,
                }
            &&& (kind matches Some(EscrowActionKind::ApproveMilestone { milestone_id })
                ==> (result is Success ==> match find_milestone(before.milestones@, milestone_id) {
                Some(mb) => mb.is_approved,
                None => true,
            }))
        },
{
    lemma_unapproved_release_from(
        before.milestones@,
        after.milestones@,
        is_dispute_resolution(kind),
        0,
    );
}

proof fn lemma_frozen_release_from(
    before: Seq<MilestoneSnapshot>,
    after: Seq<MilestoneSnapshot>,
    escrow_disputed: bool,
    dispute_resolution: bool,
    i: int,
)
    requires
        0 <= i <= before.len(),
    ensures
        (frozen_release_from(before, after, escrow_disputed, dispute_resolution, i) is Pass)
            <==> forall|j: int|
            i <= j < before.len() && ((#[trigger] before[j]).is_disputed || escrow_disputed)
                ==> match find_milestone(
                after,
                before[j].id,
            ) {
                Some(ma) => ma.released_amount > before[j].released_amount ==> dispute_resolution,
                None => true,
            },
    decreases before.len() - i,
{
    if i < before.len() {
        lemma_frozen_release_from(before, after, escrow_disputed, dispute_resolution, i + 1);
    }
}

/// [`DisputeFreezeCannotBeBypassed`] passes exactly when no frozen milestone (disputed, or
/// of a disputed escrow) released funds except through a dispute resolution, and no
/// successful approval, partial approval or auto-release targeted a frozen milestone.
pub proof fn law_dispute_freeze(
    before: EscrowStateSnapshot,
    after: EscrowStateSnapshot,
    kind: Option<EscrowActionKind>,
    result: ActionResult,
)
    ensures
        (dispute_freeze_verdict(before, after, kind, result) is Pass) <==> {
            &&& forall|j: int|
                0 <= j < before.milestones@.len() && ((#[trigger] before.milestones@[j]).is_disputed
                    || before.is_disputed) ==> match find_milestone(
                    after.milestones@,
                    before.milestones@[j].id,
                ) {
                    Some(ma) => ma.released_amount > before.milestones@[j].released_amount
                        ==> kind matches Some(EscrowActionKind::ResolveDispute { .. }),
                    None => true,
                }
            &&& (kind is Some && release_target(kind->0) is Some && result is Success
                ==> match find_milestone(before.milestones@, release_target(kind->0)->0) {
                Some(mb) => !mb.is_disputed && !before.is_disputed,
                None => true,
            })
        },
{
    lemma_frozen_release_from(
        before.milestones@,
        after.milestones@,
        before.is_disputed,
        is_dispute_resolution(kind),
        0,
    );
}

} // verus!
