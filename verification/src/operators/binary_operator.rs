use vstd::prelude::*;
use std::marker::PhantomData;
use crate::value_types::value_type::ValueType;

verus! {

/// Names one of the built-in binary operators. An operator object hands out such a
/// name, and an operation keeps the name, not the object.
#[derive(Debug, Clone, Copy, PartialEq, Eq, Structural)]
pub enum BinaryOperatorType {
    First,
    Second,
    Plus,
    Minus,
    Times,
    Min,
    Max,
    LogicalOr,
    LogicalAnd,
    LogicalExclusiveOr,
    Equal,
}

impl BinaryOperatorType {
    /// What the operator makes of two values of one domain. The logical operators read
    /// their arguments by the domain's truth predicate, and they and `Equal` answer
    /// with the domain's one or zero.
    pub open spec fn apply<T: ValueType>(self, first: T, second: T) -> T {
        match self {
            BinaryOperatorType::First => first,
            BinaryOperatorType::Second => second,
            BinaryOperatorType::Plus => first.plus_spec(second),
            BinaryOperatorType::Minus => first.minus_spec(second),
            BinaryOperatorType::Times => first.times_spec(second),
            BinaryOperatorType::Min => if second.less_than_spec(first) {
                second
            } else {
                first
            },
            BinaryOperatorType::Max => if first.less_than_spec(second) {
                second
            } else {
                first
            },
            BinaryOperatorType::LogicalOr => T::from_boolean_spec(
                first.as_boolean_spec() || second.as_boolean_spec(),
            ),
            BinaryOperatorType::LogicalAnd => T::from_boolean_spec(
                first.as_boolean_spec() && second.as_boolean_spec(),
            ),
            BinaryOperatorType::LogicalExclusiveOr => T::from_boolean_spec(
                first.as_boolean_spec() != second.as_boolean_spec(),
            ),
            BinaryOperatorType::Equal => T::from_boolean_spec(first == second),
        }
    }

    pub fn evaluate<T: ValueType>(&self, first: &T, second: &T) -> (value: T)
        ensures
            value == self.apply(*first, *second),
    {
        match self {
            BinaryOperatorType::First => *first,
            BinaryOperatorType::Second => *second,
            BinaryOperatorType::Plus => first.plus(second),
            BinaryOperatorType::Minus => first.minus(second),
            BinaryOperatorType::Times => first.times(second),
            BinaryOperatorType::Min => if second.less_than(first) {
                *second
            } else {
                *first
            },
            BinaryOperatorType::Max => if first.less_than(second) {
                *second
            } else {
                *first
            },
            BinaryOperatorType::LogicalOr => T::from_boolean(first.as_boolean() || second.as_boolean()),
            BinaryOperatorType::LogicalAnd => T::from_boolean(
                first.as_boolean() && second.as_boolean(),
            ),
            BinaryOperatorType::LogicalExclusiveOr => T::from_boolean(
                first.as_boolean() != second.as_boolean(),
            ),
            BinaryOperatorType::Equal => T::from_boolean(first.equals(second)),
        }
    }
}

/// The name that an optional accumulator stands for.
pub open spec fn accumulator_type<T: ValueType>(
    accumulator: Option<&dyn BinaryOperator<T, T, T>>,
) -> Option<BinaryOperatorType> {
    match accumulator {
        Some(operator) => Some(operator.operator_type()),
        None => None,
    }
}

/// A binary operator from two domains into a third. The built-in operators are
/// defined where the three domains are one.
pub trait BinaryOperator<X: ValueType, Y: ValueType, Z: ValueType> {
    spec fn operator_type(&self) -> BinaryOperatorType;

    fn graphblas_type(&self) -> (operator_type: BinaryOperatorType)
        ensures
            operator_type == self.operator_type(),
    ;
}

/// z = x
#[derive(Debug)]
pub struct First<X: ValueType, Y: ValueType, Z: ValueType> {
    _first_argument: PhantomData<X>,
    _second_argument: PhantomData<Y>,
    _product: PhantomData<Z>,
}

/// z = y
#[derive(Debug)]
pub struct Second<X: ValueType, Y: ValueType, Z: ValueType> {
    _first_argument: PhantomData<X>,
    _second_argument: PhantomData<Y>,
    _product: PhantomData<Z>,
}

/// z = x + y
#[derive(Debug)]
pub struct Plus<X: ValueType, Y: ValueType, Z: ValueType> {
    _first_argument: PhantomData<X>,
    _second_argument: PhantomData<Y>,
    _product: PhantomData<Z>,
}

/// z = x - y
#[derive(Debug)]
pub struct Minus<X: ValueType, Y: ValueType, Z: ValueType> {
    _first_argument: PhantomData<X>,
    _second_argument: PhantomData<Y>,
    _product: PhantomData<Z>,
}

/// z = x * y
#[derive(Debug)]
pub struct Times<X: ValueType, Y: ValueType, Z: ValueType> {
    _first_argument: PhantomData<X>,
    _second_argument: PhantomData<Y>,
    _product: PhantomData<Z>,
}

impl<T: ValueType> First<T, T, T> {
    pub fn new() -> (operator: Self)
        ensures
            operator.operator_type() == BinaryOperatorType::First,
    {
        First { _first_argument: PhantomData, _second_argument: PhantomData, _product: PhantomData }
    }
}

impl<T: ValueType> BinaryOperator<T, T, T> for First<T, T, T> {
    open spec fn operator_type(&self) -> BinaryOperatorType {
        BinaryOperatorType::First
    }

    fn graphblas_type(&self) -> (operator_type: BinaryOperatorType) {
        BinaryOperatorType::First
    }
}

impl<T: ValueType> Second<T, T, T> {
    pub fn new() -> (operator: Self)
        ensures
            operator.operator_type() == BinaryOperatorType::Second,
    {
        Second { _first_argument: PhantomData, _second_argument: PhantomData, _product: PhantomData }
    }
}

impl<T: ValueType> BinaryOperator<T, T, T> for Second<T, T, T> {
    open spec fn operator_type(&self) -> BinaryOperatorType {
        BinaryOperatorType::Second
    }

    fn graphblas_type(&self) -> (operator_type: BinaryOperatorType) {
        BinaryOperatorType::Second
    }
}

impl<T: ValueType> Plus<T, T, T> {
    pub fn new() -> (operator: Self)
        ensures
            operator.operator_type() == BinaryOperatorType::Plus,
    {
        Plus { _first_argument: PhantomData, _second_argument: PhantomData, _product: PhantomData }
    }
}

impl<T: ValueType> BinaryOperator<T, T, T> for Plus<T, T, T> {
    open spec fn operator_type(&self) -> BinaryOperatorType {
        BinaryOperatorType::Plus
    }

    fn graphblas_type(&self) -> (operator_type: BinaryOperatorType) {
        BinaryOperatorType::Plus
    }
}

impl<T: ValueType> Minus<T, T, T> {
    pub fn new() -> (operator: Self)
        ensures
            operator.operator_type() == BinaryOperatorType::Minus,
    {
        Minus { _first_argument: PhantomData, _second_argument: PhantomData, _product: PhantomData }
    }
}

impl<T: ValueType> BinaryOperator<T, T, T> for Minus<T, T, T> {
    open spec fn operator_type(&self) -> BinaryOperatorType {
        BinaryOperatorType::Minus
    }

    fn graphblas_type(&self) -> (operator_type: BinaryOperatorType) {
        BinaryOperatorType::Minus
    }
}

impl<T: ValueType> Times<T, T, T> {
    pub fn new() -> (operator: Self)
        ensures
            operator.operator_type() == BinaryOperatorType::Times,
    {
        Times { _first_argument: PhantomData, _second_argument: PhantomData, _product: PhantomData }
    }
}

impl<T: ValueType> BinaryOperator<T, T, T> for Times<T, T, T> {
    open spec fn operator_type(&self) -> BinaryOperatorType {
        BinaryOperatorType::Times
    }

    fn graphblas_type(&self) -> (operator_type: BinaryOperatorType) {
        BinaryOperatorType::Times
    }
}

/// Takes the name out of an optional accumulator.
pub(crate) fn resolve_accumulator<T: ValueType>(
    accumulator: Option<&dyn BinaryOperator<T, T, T>>,
) -> (resolved: Option<BinaryOperatorType>)
    ensures
        resolved == accumulator_type(accumulator),
{
    match accumulator {
        Some(operator) => Some(operator.graphblas_type()),
        None => None,
    }
}

} // verus!
