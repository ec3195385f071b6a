//! Sparse matrices and vectors over a closed set of scalar domains, and the operators
//! of the GraphBLAS model on them: element-wise addition and multiplication,
//! multiplication over a semiring, extraction, insertion, reduction, selection,
//! transposition and the Kronecker product.
//!
//! Every operator computes a set of entries and writes it into its result by one
//! rule, which `operators::write_rule` states: through an optional mask, which says
//! where the result may be written, and an optional accumulator, which says how what
//! is written is combined with what the result holds.

pub mod error;
pub mod operators;
pub mod util;
pub mod value_types;
