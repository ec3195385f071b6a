pub mod element;
pub mod sparse_vector;

pub use element::{VectorElement, VectorElementList};
pub use sparse_vector::SparseVector;
