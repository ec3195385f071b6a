use vstd::prelude::*;
use std::marker::PhantomData;
use crate::operators::binary_operator::BinaryOperatorType;
use crate::value_types::value_type::{Numeric, ValueType};

verus! {

/// Names one of the built-in monoids.
#[derive(Debug, Clone, Copy, PartialEq, Eq, Structural)]
pub enum MonoidType {
    Min,
    Max,
    Plus,
    Times,
    Any,
    LogicalOr,
    LogicalAnd,
    LogicalExclusiveOr,
    Equal,
}

impl MonoidType {
    /// The binary operator by which the monoid combines two values. `Any` may keep
    /// either of its arguments; it keeps the first.
    pub open spec fn binary_operator(self) -> BinaryOperatorType {
        match self {
            MonoidType::Min => BinaryOperatorType::Min,
            MonoidType::Max => BinaryOperatorType::Max,
            MonoidType::Plus => BinaryOperatorType::Plus,
            MonoidType::Times => BinaryOperatorType::Times,
            MonoidType::Any => BinaryOperatorType::First,
            MonoidType::LogicalOr => BinaryOperatorType::LogicalOr,
            MonoidType::LogicalAnd => BinaryOperatorType::LogicalAnd,
            MonoidType::LogicalExclusiveOr => BinaryOperatorType::LogicalExclusiveOr,
            MonoidType::Equal => BinaryOperatorType::Equal,
        }
    }

    /// The value that the monoid's operator leaves every other value as it is with.
    /// `Any` has none of its own and is given the domain's zero.
    pub open spec fn identity<T: ValueType>(self) -> T {
        match self {
            MonoidType::Min => T::maximum_value_spec(),
            MonoidType::Max => T::minimum_value_spec(),
            MonoidType::Plus => T::from_boolean_spec(false),
            MonoidType::Times => T::from_boolean_spec(true),
            MonoidType::Any => T::from_boolean_spec(false),
            MonoidType::LogicalOr => T::from_boolean_spec(false),
            MonoidType::LogicalAnd => T::from_boolean_spec(true),
            MonoidType::LogicalExclusiveOr => T::from_boolean_spec(false),
            MonoidType::Equal => T::from_boolean_spec(true),
        }
    }

    pub fn to_identity<T: ValueType>(&self) -> (value: T)
        ensures
            value == self.identity::<T>(),
    {
        match self {
            MonoidType::Min => T::maximum_value(),
            MonoidType::Max => T::minimum_value(),
            MonoidType::Plus => T::from_boolean(false),
            MonoidType::Times => T::from_boolean(true),
            MonoidType::Any => T::from_boolean(false),
            MonoidType::LogicalOr => T::from_boolean(false),
            MonoidType::LogicalAnd => T::from_boolean(true),
            MonoidType::LogicalExclusiveOr => T::from_boolean(false),
            MonoidType::Equal => T::from_boolean(true),
        }
    }

    pub fn to_binary_operator(&self) -> (operator: BinaryOperatorType)
        ensures
            operator == self.binary_operator(),
    {
        match self {
            MonoidType::Min => BinaryOperatorType::Min,
            MonoidType::Max => BinaryOperatorType::Max,
            MonoidType::Plus => BinaryOperatorType::Plus,
            MonoidType::Times => BinaryOperatorType::Times,
            MonoidType::Any => BinaryOperatorType::First,
            MonoidType::LogicalOr => BinaryOperatorType::LogicalOr,
            MonoidType::LogicalAnd => BinaryOperatorType::LogicalAnd,
            MonoidType::LogicalExclusiveOr => BinaryOperatorType::LogicalExclusiveOr,
            MonoidType::Equal => BinaryOperatorType::Equal,
        }
    }
}

/// An associative binary operator on one domain.
pub trait Monoid<T: ValueType> {
    spec fn monoid_type(&self) -> MonoidType;

    fn graphblas_type(&self) -> (monoid_type: MonoidType)
        ensures
            monoid_type == self.monoid_type(),
    ;
}

#[derive(Debug)]
pub struct Min<T: ValueType> {
    _value_type: PhantomData<T>,
}

#[derive(Debug)]
pub struct Max<T: ValueType> {
    _value_type: PhantomData<T>,
}

#[derive(Debug)]
pub struct Plus<T: ValueType> {
    _value_type: PhantomData<T>,
}

#[derive(Debug)]
pub struct Times<T: ValueType> {
    _value_type: PhantomData<T>,
}

#[derive(Debug)]
pub struct Any<T: ValueType> {
    _value_type: PhantomData<T>,
}

#[derive(Debug)]
pub struct LogicalOr<T: ValueType> {
    _value_type: PhantomData<T>,
}

#[derive(Debug)]
pub struct LogicalAnd<T: ValueType> {
    _value_type: PhantomData<T>,
}

#[derive(Debug)]
pub struct LogicalExclusiveOr<T: ValueType> {
    _value_type: PhantomData<T>,
}

#[derive(Debug)]
pub struct Equal<T: ValueType> {
    _value_type: PhantomData<T>,
}

impl<T: Numeric> Min<T> {
    pub fn new() -> (monoid: Self)
        ensures
            monoid.monoid_type() == MonoidType::Min,
    {
        Min { _value_type: PhantomData }
    }
}

impl<T: Numeric> Monoid<T> for Min<T> {
    open spec fn monoid_type(&self) -> MonoidType {
        MonoidType::Min
    }

    fn graphblas_type(&self) -> (monoid_type: MonoidType) {
        MonoidType::Min
    }
}

impl<T: Numeric> Max<T> {
    pub fn new() -> (monoid: Self)
        ensures
            monoid.monoid_type() == MonoidType::Max,
    {
        Max { _value_type: PhantomData }
    }
}

impl<T: Numeric> Monoid<T> for Max<T> {
    open spec fn monoid_type(&self) -> MonoidType {
        MonoidType::Max
    }

    fn graphblas_type(&self) -> (monoid_type: MonoidType) {
        MonoidType::Max
    }
}

impl<T: Numeric> Plus<T> {
    pub fn new() -> (monoid: Self)
        ensures
            monoid.monoid_type() == MonoidType::Plus,
    {
        Plus { _value_type: PhantomData }
    }
}

impl<T: Numeric> Monoid<T> for Plus<T> {
    open spec fn monoid_type(&self) -> MonoidType {
        MonoidType::Plus
    }

    fn graphblas_type(&self) -> (monoid_type: MonoidType) {
        MonoidType::Plus
    }
}

impl<T: Numeric> Times<T> {
    pub fn new() -> (monoid: Self)
        ensures
            monoid.monoid_type() == MonoidType::Times,
    {
        Times { _value_type: PhantomData }
    }
}

impl<T: Numeric> Monoid<T> for Times<T> {
    open spec fn monoid_type(&self) -> MonoidType {
        MonoidType::Times
    }

    fn graphblas_type(&self) -> (monoid_type: MonoidType) {
        MonoidType::Times
    }
}

impl<T: ValueType> Any<T> {
    pub fn new() -> (monoid: Self)
        ensures
            monoid.monoid_type() == MonoidType::Any,
    {
        Any { _value_type: PhantomData }
    }
}

impl<T: ValueType> Monoid<T> for Any<T> {
    open spec fn monoid_type(&self) -> MonoidType {
        MonoidType::Any
    }

    fn graphblas_type(&self) -> (monoid_type: MonoidType) {
        MonoidType::Any
    }
}

impl LogicalOr<bool> {
    pub fn new() -> (monoid: Self)
        ensures
            monoid.monoid_type() == MonoidType::LogicalOr,
    {
        LogicalOr { _value_type: PhantomData }
    }
}

impl Monoid<bool> for LogicalOr<bool> {
    open spec fn monoid_type(&self) -> MonoidType {
        MonoidType::LogicalOr
    }

    fn graphblas_type(&self) -> (monoid_type: MonoidType) {
        MonoidType::LogicalOr
    }
}

impl LogicalAnd<bool> {
    pub fn new() -> (monoid: Self)
        ensures
            monoid.monoid_type() == MonoidType::LogicalAnd,
    {
        LogicalAnd { _value_type: PhantomData }
    }
}

impl Monoid<bool> for LogicalAnd<bool> {
    open spec fn monoid_type(&self) -> MonoidType {
        MonoidType::LogicalAnd
    }

    fn graphblas_type(&self) -> (monoid_type: MonoidType) {
        MonoidType::LogicalAnd
    }
}

impl LogicalExclusiveOr<bool> {
    pub fn new() -> (monoid: Self)
        ensures
            monoid.monoid_type() == MonoidType::LogicalExclusiveOr,
    {
        LogicalExclusiveOr { _value_type: PhantomData }
    }
}

impl Monoid<bool> for LogicalExclusiveOr<bool> {
    open spec fn monoid_type(&self) -> MonoidType {
        MonoidType::LogicalExclusiveOr
    }

    fn graphblas_type(&self) -> (monoid_type: MonoidType) {
        MonoidType::LogicalExclusiveOr
    }
}

impl Equal<bool> {
    pub fn new() -> (monoid: Self)
        ensures
            monoid.monoid_type() == MonoidType::Equal,
    {
        Equal { _value_type: PhantomData }
    }
}

impl Monoid<bool> for Equal<bool> {
    open spec fn monoid_type(&self) -> MonoidType {
        MonoidType::Equal
    }

    fn graphblas_type(&self) -> (monoid_type: MonoidType) {
        MonoidType::Equal
    }
}

} // verus!
