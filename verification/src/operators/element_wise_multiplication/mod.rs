pub mod element_wise_matrix_multiplication;
pub mod element_wise_vector_multiplication;

pub use element_wise_matrix_multiplication::{
    ElementWiseMatrixMultiplicationBinaryOperator, ElementWiseMatrixMultiplicationMonoidOperator,
    ElementWiseMatrixMultiplicationSemiring,
};
pub use element_wise_vector_multiplication::{
    ElementWiseVectorMultiplicationBinaryOperator, ElementWiseVectorMultiplicationMonoidOperator,
    ElementWiseVectorMultiplicationSemiring,
};
