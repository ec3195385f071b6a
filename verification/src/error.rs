use vstd::prelude::*;

verus! {

/// Why an operation was refused. A refused operation leaves its arguments as they were.
#[derive(Debug, Clone, Copy, PartialEq, Eq, Structural)]
pub enum SparseLinearAlgebraError {
    /// The shapes of the operands, or a selector and a shape, disagree.
    DimensionMismatch,
    /// The shape of the mask differs from the shape it has to cover.
    ShapeMismatch,
    /// A coordinate or a selected index lies outside the container.
    IndexOutOfBounds,
}

} // verus!
