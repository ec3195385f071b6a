pub mod matrix_multiplication;
pub mod matrix_vector_multiplication;
pub mod vector_matrix_multiplication;

pub use matrix_multiplication::MatrixMultiplicationOperator;
pub use matrix_vector_multiplication::MatrixVectorMultiplicationOperator;
pub use vector_matrix_multiplication::VectorMatrixMultiplicationOperator;
