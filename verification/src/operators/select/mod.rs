pub mod matrix;
pub mod selection;
pub mod vector;

pub use matrix::{
    MatrixSelector, SelectMatrixEqualToScalar, SelectMatrixGreaterThanOrEqualToScalar,
    SelectMatrixGreaterThanScalar, SelectMatrixLessThanOrEqualToScalar, SelectMatrixLessThanScalar,
    SelectMatrixNotEqualToScalar,
};
pub use selection::SelectionPredicate;
pub use vector::{
    SelectVectorEqualToScalar, SelectVectorGreaterThanOrEqualToScalar,
    SelectVectorGreaterThanScalar, SelectVectorLessThanOrEqualToScalar, SelectVectorLessThanScalar,
    SelectVectorNotEqualToScalar, VectorSelector,
};
