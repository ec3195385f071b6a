pub mod insert_matrix_into_matrix;
pub mod insert_scalar_into_matrix;
pub mod insert_scalar_into_vector;
pub mod insert_vector_into_vector;
pub mod scalar_insertion;

pub use insert_matrix_into_matrix::{InsertMatrixIntoMatrix, InsertMatrixIntoMatrixTrait};
pub use insert_scalar_into_matrix::{InsertScalarIntoMatrix, InsertScalarIntoMatrixTrait};
pub use insert_scalar_into_vector::{InsertScalarIntoVector, InsertScalarIntoVectorTrait};
pub use insert_vector_into_vector::{InsertVectorIntoVector, InsertVectorIntoVectorTrait};
