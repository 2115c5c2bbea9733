//! The failures an interpretation can end in. Any of these aborts the whole
//! run; the caller must not persist anything from a failed run.

use vstd::prelude::*;

verus! {

/// Why a step program failed.
#[derive(Debug, PartialEq, Eq)]
pub enum ActionError {
    /// A named composition step references a program absent from
    /// configuration. Carries the missing name.
    CompositionTargetNotFound(String),
    /// The evaluator failed to compile or run an assignment expression.
    /// Carries the evaluator's message. The same failure in a conditional is
    /// not fatal: the condition counts as false.
    ExpressionError(String),
    /// An assignment path's root selector is not the mutable binding.
    /// Carries the offending path.
    NotMutable(String),
    /// An assignment path is empty or malformed. Carries the offending path.
    InvalidPath(String),
    /// The evaluator's operation, depth or size ceiling was hit, or the
    /// composition depth bound was exhausted.
    ResourceExceeded,
}

/// Why one expression evaluation failed, as the bridge reports it.
#[derive(Debug, PartialEq, Eq)]
pub enum EvalFailure {
    /// An operations, size or call-depth ceiling was hit.
    Resource,
    /// Any other compile or runtime failure, with the evaluator's message.
    Script(String),
}

} // verus!
