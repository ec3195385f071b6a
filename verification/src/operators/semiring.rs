use vstd::prelude::*;
use std::marker::PhantomData;
use crate::operators::binary_operator::BinaryOperatorType;
use crate::operators::monoid::MonoidType;
use crate::value_types::value_type::{Numeric, ValueType};

verus! {

/// Names a semiring by its two parts: the monoid that adds and the binary operator
/// that multiplies.
#[derive(Debug, Clone, Copy, PartialEq, Eq, Structural)]
pub struct SemiringType {
    pub addition: MonoidType,
    pub multiplication: BinaryOperatorType,
}

/// An additive monoid on the product's domain, paired with a multiplicative operator
/// from the two arguments' domains into it.
pub trait Semiring<Multiplier: ValueType, Multiplicant: ValueType, Product: ValueType> {
    spec fn semiring_type(&self) -> SemiringType;

    fn graphblas_type(&self) -> (semiring_type: SemiringType)
        ensures
            semiring_type == self.semiring_type(),
    ;
}

/// Adds with `Plus`, multiplies with `Times`.
#[derive(Debug)]
pub struct PlusTimes<Multiplier: ValueType, Multiplicant: ValueType, Product: ValueType> {
    _multiplier: PhantomData<Multiplier>,
    _multiplicant: PhantomData<Multiplicant>,
    _product: PhantomData<Product>,
}

/// Keeps the smaller of sums: adds with `Min`, multiplies with `Plus`.
#[derive(Debug)]
pub struct MinPlus<Multiplier: ValueType, Multiplicant: ValueType, Product: ValueType> {
    _multiplier: PhantomData<Multiplier>,
    _multiplicant: PhantomData<Multiplicant>,
    _product: PhantomData<Product>,
}

impl<T: Numeric> PlusTimes<T, T, T> {
    pub fn new() -> (semiring: Self)
        ensures
            semiring.semiring_type() == (SemiringType {
                addition: MonoidType::Plus,
                multiplication: BinaryOperatorType::Times,
            }),
    {
        PlusTimes { _multiplier: PhantomData, _multiplicant: PhantomData, _product: PhantomData }
    }
}

impl<T: Numeric> Semiring<T, T, T> for PlusTimes<T, T, T> {
    open spec fn semiring_type(&self) -> SemiringType {
        SemiringType { addition: MonoidType::Plus, multiplication: BinaryOperatorType::Times }
    }

    fn graphblas_type(&self) -> (semiring_type: SemiringType) {
        SemiringType { addition: MonoidType::Plus, multiplication: BinaryOperatorType::Times }
    }
}

impl<T: Numeric> MinPlus<T, T, T> {
    pub fn new() -> (semiring: Self)
        ensures
            semiring.semiring_type() == (SemiringType {
                addition: MonoidType::Min,
                multiplication: BinaryOperatorType::Plus,
            }),
    {
        MinPlus { _multiplier: PhantomData, _multiplicant: PhantomData, _product: PhantomData }
    }
}

impl<T: Numeric> Semiring<T, T, T> for MinPlus<T, T, T> {
    open spec fn semiring_type(&self) -> SemiringType {
        SemiringType { addition: MonoidType::Min, multiplication: BinaryOperatorType::Plus }
    }

    fn graphblas_type(&self) -> (semiring_type: SemiringType) {
        SemiringType { addition: MonoidType::Min, multiplication: BinaryOperatorType::Plus }
    }
}

} // verus!
