pub mod insert_scalar_into_sub_matrix;
pub mod insert_scalar_into_sub_vector;

pub use insert_scalar_into_sub_matrix::{InsertScalarIntoSubMatrix, InsertScalarIntoSubMatrixTrait};
pub use insert_scalar_into_sub_vector::{InsertScalarIntoSubVector, InsertScalarIntoSubVectorTrait};
