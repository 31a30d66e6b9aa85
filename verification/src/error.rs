//! Error kinds of the toolkit.

use vstd::prelude::*;
use crate::text::{render, render_pieces, Piece};

verus! {

/// Failures of the toolkit itself (as opposed to invariant violations).
#[derive(Debug, Clone, PartialEq, Eq)]
pub enum KitError {
    /// The adapter could not set up the environment.
    SetupFailed(String),
    /// The adapter could not take a state snapshot.
    SnapshotFailed(String),
    /// The adapter failed fatally while executing an action.
    ExecutionFailed(String),
    /// An invariant check could not be evaluated.
    InvariantError(String),
}

/// The message describing a [`KitError`].
pub open spec fn kit_error_message(e: KitError) -> Seq<char> {
    match e {
        KitError::SetupFailed(m) => "Adapter setup failed: "@ + m@,
        KitError::SnapshotFailed(m) => "Adapter state snapshot extraction failed: "@ + m@,
        KitError::ExecutionFailed(m) => "Adapter execution failed fatally: "@ + m@,
        KitError::InvariantError(m) => "Invariant check error: "@ + m@,
    }
}

impl KitError {
    /// The human-readable message of the error.
    pub fn message(&self) -> (r: String)
        ensures
            r@ == kit_error_message(*self),
    {
        let (prefix, m) = match self {
            KitError::SetupFailed(m) => ("Adapter setup failed: ", m),
            KitError::SnapshotFailed(m) => ("Adapter state snapshot extraction failed: ", m),
            KitError::ExecutionFailed(m) => ("Adapter execution failed fatally: ", m),
            KitError::InvariantError(m) => ("Invariant check error: ", m),
        };
        let pieces = vec![Piece::Text(prefix), Piece::Str(m)];
        proof {
            reveal_with_fuel(render, 3);
        }
        render_pieces(&pieces)
    }
}

} // verus!
