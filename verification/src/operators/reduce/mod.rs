pub mod binary_operator;
pub mod monoid;
pub mod monoid_scalar;

pub use binary_operator::BinaryOperatorReducer;
pub use monoid::MonoidReducer;
pub use monoid_scalar::MonoidScalarReducer;
