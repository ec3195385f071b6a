pub mod binary_operator;
pub mod element_wise_addition;
pub mod element_wise_multiplication;
pub mod extract;
pub mod insert;
pub mod kronecker_product;
pub mod mask;
pub mod monoid;
pub mod multiplication;
pub mod options;
pub mod reduce;
pub mod select;
pub mod semiring;
pub mod subinsert;
pub mod transpose;
pub mod write_rule;

pub use binary_operator::{BinaryOperator, BinaryOperatorType, First, Minus, Plus, Second, Times};
pub use element_wise_addition::{
    ElementWiseMatrixAdditionBinaryOperator, ElementWiseMatrixAdditionMonoidOperator,
    ElementWiseMatrixAdditionSemiring, ElementWiseVectorAdditionBinaryOperator,
    ElementWiseVectorAdditionMonoidOperator, ElementWiseVectorAdditionSemiring,
};
pub use element_wise_multiplication::{
    ElementWiseMatrixMultiplicationBinaryOperator, ElementWiseMatrixMultiplicationMonoidOperator,
    ElementWiseMatrixMultiplicationSemiring, ElementWiseVectorMultiplicationBinaryOperator,
    ElementWiseVectorMultiplicationMonoidOperator, ElementWiseVectorMultiplicationSemiring,
};
pub use extract::{MatrixColumnExtractor, SubMatrixExtractor, SubVectorExtractor};
pub use insert::{
    InsertMatrixIntoMatrix, InsertMatrixIntoMatrixTrait, InsertScalarIntoMatrix,
    InsertScalarIntoMatrixTrait, InsertScalarIntoVector, InsertScalarIntoVectorTrait,
    InsertVectorIntoVector, InsertVectorIntoVectorTrait,
};
pub use kronecker_product::{
    BinaryOperatorKroneckerProductOperator, MonoidKroneckerProduct, SemiringKroneckerProduct,
};
pub use mask::{MatrixMask, VectorMask};
pub use monoid::{Any, LogicalAnd, LogicalExclusiveOr, LogicalOr, Monoid, MonoidType};
pub use multiplication::{
    MatrixMultiplicationOperator, MatrixVectorMultiplicationOperator,
    VectorMatrixMultiplicationOperator,
};
pub use options::{OperatorOptions, ParallelismHint};
pub use reduce::{BinaryOperatorReducer, MonoidReducer, MonoidScalarReducer};
pub use select::{
    MatrixSelector, SelectMatrixEqualToScalar, SelectMatrixGreaterThanOrEqualToScalar,
    SelectMatrixGreaterThanScalar, SelectMatrixLessThanOrEqualToScalar, SelectMatrixLessThanScalar,
    SelectMatrixNotEqualToScalar, SelectVectorEqualToScalar,
    SelectVectorGreaterThanOrEqualToScalar, SelectVectorGreaterThanScalar,
    SelectVectorLessThanOrEqualToScalar, SelectVectorLessThanScalar, SelectVectorNotEqualToScalar,
    SelectionPredicate, VectorSelector,
};
pub use semiring::{MinPlus, PlusTimes, Semiring, SemiringType};
pub use subinsert::{
    InsertScalarIntoSubMatrix, InsertScalarIntoSubMatrixTrait, InsertScalarIntoSubVector,
    InsertScalarIntoSubVectorTrait,
};
pub use transpose::MatrixTranspose;
