pub mod element_wise_matrix_addition;
pub mod element_wise_vector_addition;

pub use element_wise_matrix_addition::{
    ElementWiseMatrixAdditionBinaryOperator, ElementWiseMatrixAdditionMonoidOperator,
    ElementWiseMatrixAdditionSemiring,
};
pub use element_wise_vector_addition::{
    ElementWiseVectorAdditionBinaryOperator, ElementWiseVectorAdditionMonoidOperator,
    ElementWiseVectorAdditionSemiring,
};
