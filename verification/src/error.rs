//! Errors reported by the statistics engine.

use vstd::prelude::*;

verus! {

/// The ways a summarization or comparison request can be rejected.
///
/// Every failure is detected eagerly and returned to the caller; no function
/// of this crate panics on any input its precondition admits.
#[derive(Clone, Copy, Debug, PartialEq, Eq, Structural)]
pub enum Error {
    /// A confidence-level token was not one of the recognized levels.
    InvalidParameter,
    /// A summary was built from fewer than two observations, so its sample
    /// variance is undefined and it cannot take part in a comparison.
    DegenerateSample,
    /// A sample is too long, or one of its values too large in magnitude,
    /// for the engine's fixed-width integer arithmetic.
    SampleOutOfRange,
}

} // verus!
