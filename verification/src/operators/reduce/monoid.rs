use vstd::prelude::*;
use std::marker::PhantomData;
use crate::error::SparseLinearAlgebraError;
use crate::operators::binary_operator::{
    accumulator_type, resolve_accumulator, BinaryOperator, BinaryOperatorType,
};
use crate::operators::mask::VectorMask;
use crate::operators::monoid::{Monoid, MonoidType};
use crate::operators::options::OperatorOptions;
use crate::operators::reduce::binary_operator::{reduce_to_vector_into, reduction_made};
use crate::value_types::sparse_matrix::sparse_matrix::SparseMatrix;
use crate::value_types::sparse_vector::sparse_vector::SparseVector;
use crate::value_types::value_type::ValueType;

verus! {

/// Reduction of the rows of a matrix by a monoid.
#[derive(Debug)]
pub struct MonoidReducer<T: ValueType> {
    _value: PhantomData<T>,
    monoid: MonoidType,
    accumulator: Option<BinaryOperatorType>,
    options: OperatorOptions,
}

impl<T: ValueType> MonoidReducer<T> {
    /// The monoid that reduces a row.
    pub closed spec fn monoid(&self) -> MonoidType {
        self.monoid
    }

    /// The operator that combines what the result holds with what was computed, if
    /// there is one.
    pub closed spec fn accumulator(&self) -> Option<BinaryOperatorType> {
        self.accumulator
    }

    pub closed spec fn options(&self) -> OperatorOptions {
        self.options
    }

    pub fn new(
        monoid: &dyn Monoid<T>,
        options: &OperatorOptions,
        accumulator: Option<&dyn BinaryOperator<T, T, T>>,
    ) -> (reducer: Self)
        ensures
            reducer.monoid() == monoid.monoid_type(),
            reducer.options() == *options,
            reducer.accumulator() == accumulator_type(accumulator),
    {
        Self {
            monoid: monoid.graphblas_type(),
            accumulator: resolve_accumulator(accumulator),
            options: *options,
            _value: PhantomData,
        }
    }

    /// Writes what each row of `argument` reduces to into `product`, every index
    /// permitted.
    pub fn to_vector(
        &self,
        argument: &SparseMatrix<T>,
        product: &mut SparseVector<T>,
    ) -> (outcome: Result<(), SparseLinearAlgebraError>)
        ensures
            reduction_made(
                self.monoid().binary_operator(),
                self.accumulator(),
                self.options(),
                Set::full(),
                None,
                *argument,
                *old(product),
                *final(product),
                outcome,
            ),
    {
        reduce_to_vector_into::<T, T>(
            self.monoid.to_binary_operator(),
            self.accumulator,
            &self.options,
            None,
            false,
            argument,
            product,
        )
    }

    /// Writes what each row of `argument` reduces to into the indices of `product`
    /// that the mask permits.
    pub fn to_vector_with_mask<MaskValueType: ValueType>(
        &self,
        argument: &SparseMatrix<T>,
        product: &mut SparseVector<T>,
        mask: &VectorMask<MaskValueType>,
    ) -> (outcome: Result<(), SparseLinearAlgebraError>)
        ensures
            reduction_made(
                self.monoid().binary_operator(),
                self.accumulator(),
                self.options(),
                mask.permitted(),
                mask.extent(),
                *argument,
                *old(product),
                *final(product),
                outcome,
            ),
    {
        reduce_to_vector_into(
            self.monoid.to_binary_operator(),
            self.accumulator,
            &self.options,
            mask.vector(),
            mask.is_by_value(),
            argument,
            product,
        )
    }
}

} // verus!
