pub mod sparse_matrix;
pub mod sparse_vector;
pub mod value_type;
