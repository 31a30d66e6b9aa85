//! Commonly used traits and types.

pub use crate::adapter::{ActionResult, ContractAdapter};
pub use crate::error::KitError;
pub use crate::escrow::{
    escrow_invariant_pack, DisputeFreezeCannotBeBypassed, EscrowActionKind, EscrowAdapter,
    EscrowStateSnapshot, MilestoneSnapshot, MilestoneStatusKind, NoDoubleRelease,
    NoReleaseWithoutApproval, TotalLockedConservation,
};
pub use crate::invariants::{Invariant, InvariantResult, InvariantSet, InvariantViolation};
pub use crate::report::{InvariantViolationReport, StepText};
pub use crate::runner::{InvariantRunner, RunFailure, RunnerConfig};
pub use crate::split::{
    split_invariant_pack, NoDuplicatePayout, RecipientShareSnapshot, ShareSumConservation,
    SplitActionKind, SplitAdapter, SplitBatchSnapshot, SplitPayoutConservation, SplitSolvency,
    SplitStateSnapshot,
};
pub use crate::streaming::{
    streaming_invariant_pack, ClaimableNeverExceedsAccrual, NoClaimAfterCloseOrCancel,
    StreamSnapshot, StreamStatusKind, StreamingActionKind, StreamingAdapter,
    StreamingBalanceConservation, StreamingMonotonicProgress, StreamingStateSnapshot,
};
pub use crate::transition::{StepRecord, Trace};
