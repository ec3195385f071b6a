pub mod extract_matrix_column;
pub mod extract_sub_matrix;
pub mod extract_sub_vector;

pub use extract_matrix_column::MatrixColumnExtractor;
pub use extract_sub_matrix::SubMatrixExtractor;
pub use extract_sub_vector::SubVectorExtractor;
