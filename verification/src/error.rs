use vstd::prelude::*;

use crate::shape::Shape;
use crate::shape::TensorType;

verus! {

/// The error values of the tensor data model. Every error is returned to
/// the immediate caller as a value; the model never logs, never recovers
/// silently and never substitutes a default on failure.
#[derive(Debug, PartialEq)]
pub enum TensorError {
    /// Shape validation failed: the declared parent shape does not contain
    /// the shape derived from the data. Carries both values for
    /// diagnostics.
    ShapeMismatch { expected: Shape, given: Shape },
    /// Dimension derivation was attempted on a backing array whose rank is
    /// below the four axes the derivation rule reads.
    RankViolation { rank: usize },
    /// A producer's declared element type corresponds to no representation
    /// of the chosen encoding family.
    UnsupportedElementType { ty: TensorType },
}

} // verus!
