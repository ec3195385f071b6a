pub mod coordinate;
pub mod element;
pub mod size;
pub mod sparse_matrix;

pub use coordinate::Coordinate;
pub use element::{MatrixElement, MatrixElementList};
pub use size::Size;
pub use sparse_matrix::SparseMatrix;
