//! Invariant checking for multi-contract financial flows.
//!
//! - [`ContractAdapter`]: environment setup, action dispatch and state snapshots.
//! - [`Invariant`]: state and transition invariants over adapter snapshots.
//! - [`InvariantSet`]: invariants checked together, in registration order.
//! - [`Trace`]: the steps of a run, for failure reproduction.
//! - [`InvariantViolationReport`]: the first violation of a run with its trace.
//! - [`InvariantRunner`]: runs an action sequence and checks every invariant after each step.
//! - Invariant packs for milestone escrow, payment streaming and split payments.

pub mod adapter;
pub mod error;
pub mod escrow;
pub mod invariants;
pub mod prelude;
pub mod report;
pub mod runner;
pub mod split;
pub mod streaming;
pub mod text;
pub mod transition;

pub use adapter::{ActionResult, ContractAdapter};
pub use error::KitError;
pub use escrow::{
    escrow_invariant_pack, DisputeFreezeCannotBeBypassed, EscrowActionKind, EscrowAdapter,
    EscrowStateSnapshot, MilestoneSnapshot, MilestoneStatusKind, NoDoubleRelease,
    NoReleaseWithoutApproval, TotalLockedConservation,
};
pub use invariants::{Invariant, InvariantResult, InvariantSet, InvariantViolation, Verdict};
pub use report::{InvariantViolationReport, StepText};
pub use runner::{InvariantRunner, RunFailure, RunnerConfig};
pub use split::{
    split_invariant_pack, NoDuplicatePayout, RecipientShareSnapshot, ShareSumConservation,
    SplitActionKind, SplitAdapter, SplitBatchSnapshot, SplitPayoutConservation, SplitSolvency,
    SplitStateSnapshot, TOTAL_SHARE_BPS,
};
pub use streaming::{
    streaming_invariant_pack, ClaimableNeverExceedsAccrual, NoClaimAfterCloseOrCancel,
    StreamSnapshot, StreamStatusKind, StreamingActionKind, StreamingAdapter,
    StreamingBalanceConservation, StreamingMonotonicProgress, StreamingStateSnapshot,
};
pub use transition::{StepRecord, Trace};
