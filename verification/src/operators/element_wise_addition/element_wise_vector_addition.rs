use vstd::prelude::*;
use std::marker::PhantomData;
use crate::error::SparseLinearAlgebraError;
use crate::operators::binary_operator::{
    accumulator_type, resolve_accumulator, BinaryOperator, BinaryOperatorType,
};
use crate::operators::element_wise_addition::element_wise_matrix_addition::{
    add_element_wise, element_wise_sum,
};
use crate::operators::mask::{permitted_by, vector_mask_entries, vector_mask_extent, VectorMask};
use crate::operators::monoid::Monoid;
use crate::operators::options::OperatorOptions;
use crate::operators::semiring::Semiring;
use crate::operators::write_rule::{write_vector, written};
use crate::value_types::sparse_vector::sparse_vector::{column_entries, SparseVector};
use crate::value_types::value_type::ValueType;

verus! {

/// Why an element-wise operation on vectors is refused, if it is: an argument of
/// another length than the result is a `DimensionMismatch`; after that, a mask of
/// another length than the result is a `ShapeMismatch`.
pub open spec fn vector_element_wise_refusal(
    first: usize,
    second: usize,
    product: usize,
    mask: Option<usize>,
) -> Option<SparseLinearAlgebraError> {
    if first != product || second != product {
        Some(SparseLinearAlgebraError::DimensionMismatch)
    } else if mask is Some && mask != Some(product) {
        Some(SparseLinearAlgebraError::ShapeMismatch)
    } else {
        None
    }
}

/// What an element-wise addition of vectors leaves behind. A refused call leaves the
/// result as it was; else the element-wise sum of the arguments is written into
/// the result through the mask and the accumulator.
pub open spec fn vector_sum_made<T: ValueType>(
    operator: BinaryOperatorType,
    accumulator: Option<BinaryOperatorType>,
    options: OperatorOptions,
    permitted: Set<int>,
    mask_extent: Option<usize>,
    multiplier: SparseVector<T>,
    multiplicant: SparseVector<T>,
    before: SparseVector<T>,
    after: SparseVector<T>,
    outcome: Result<(), SparseLinearAlgebraError>,
) -> bool {
    &&& after.extent() == before.extent()
    &&& match vector_element_wise_refusal(
        multiplier.extent(),
        multiplicant.extent(),
        before.extent(),
        mask_extent,
    ) {
        Some(error) => outcome == Err::<(), SparseLinearAlgebraError>(error) && after@ == before@,
        None => outcome is Ok && after@ == written(
            before@,
            element_wise_sum(operator, multiplier@, multiplicant@),
            permitted,
            accumulator,
            options.clear_result_before_write,
        ),
    }
}

/// Writes the element-wise sum of two vectors into a third through a mask and an
/// accumulator.
pub(crate) fn add_vectors_element_wise_into<T: ValueType, M: ValueType>(
    operator: BinaryOperatorType,
    accumulator: Option<BinaryOperatorType>,
    options: &OperatorOptions,
    mask: Option<&SparseVector<M>>,
    by_value: bool,
    multiplier: &SparseVector<T>,
    multiplicant: &SparseVector<T>,
    product: &mut SparseVector<T>,
) -> (outcome: Result<(), SparseLinearAlgebraError>)
    ensures
        vector_sum_made(
            operator,
            accumulator,
            *options,
            permitted_by(vector_mask_entries(mask), by_value),
            vector_mask_extent(mask),
            *multiplier,
            *multiplicant,
            *old(product),
            *final(product),
            outcome,
        ),
{
    let length = product.length();
    if multiplier.length() != length || multiplicant.length() != length {
        return Err(SparseLinearAlgebraError::DimensionMismatch);
    }
    match mask {
        Some(mask_vector) => {
            if mask_vector.length() != length {
                return Err(SparseLinearAlgebraError::ShapeMismatch);
            }
        },
        None => {},
    }
    let computed = add_element_wise(operator, multiplier.as_column(), multiplicant.as_column());
    assert(column_entries(computed@) =~= element_wise_sum(operator, multiplier@, multiplicant@));
    let computed = SparseVector::from_column(computed);
    write_vector(product, &computed, mask, by_value, accumulator, options.clear_result_before_write);
    Ok(())
}

/// Element-wise addition of vectors by the additive monoid of a semiring.
#[derive(Debug)]
pub struct ElementWiseVectorAdditionSemiring<
    Multiplier: ValueType,
    Multiplicant: ValueType,
    Product: ValueType,
> {
    _multiplier: PhantomData<Multiplier>,
    _multiplicant: PhantomData<Multiplicant>,
    _product: PhantomData<Product>,
    accumulator: Option<BinaryOperatorType>,
    multiplication_operator: BinaryOperatorType,
    options: OperatorOptions,
}

impl<
    Multiplier: ValueType,
    Multiplicant: ValueType,
    Product: ValueType,
> ElementWiseVectorAdditionSemiring<Multiplier, Multiplicant, Product> {
    /// The operator that combines the two values of an index.
    pub closed spec fn operator(&self) -> BinaryOperatorType {
        self.multiplication_operator
    }

    /// The operator that combines what the result holds with what was computed, if
    /// there is one.
    pub closed spec fn accumulator(&self) -> Option<BinaryOperatorType> {
        self.accumulator
    }

    pub closed spec fn options(&self) -> OperatorOptions {
        self.options
    }

    pub fn new(
        multiplication_operator: &dyn Semiring<Multiplier, Multiplicant, Product>,
        options: &OperatorOptions,
        accumulator: Option<&dyn BinaryOperator<Product, Product, Product>>,
    ) -> (operator: Self)
        ensures
            operator.operator() == multiplication_operator.semiring_type().addition.binary_operator(),
            operator.options() == *options,
            operator.accumulator() == accumulator_type(accumulator),
    {
        Self {
            accumulator: resolve_accumulator(accumulator),
            multiplication_operator: multiplication_operator.graphblas_type().addition.to_binary_operator(),
            options: *options,
            _multiplier: PhantomData,
            _multiplicant: PhantomData,
            _product: PhantomData,
        }
    }
}

impl<T: ValueType> ElementWiseVectorAdditionSemiring<T, T, T> {
    /// Writes the element-wise sum of two vectors into `product`, every index
    /// permitted.
    pub fn apply(
        &self,
        multiplier: &SparseVector<T>,
        multiplicant: &SparseVector<T>,
        product: &mut SparseVector<T>,
    ) -> (outcome: Result<(), SparseLinearAlgebraError>)
        ensures
            vector_sum_made(
                self.operator(),
                self.accumulator(),
                self.options(),
                Set::full(),
                None,
                *multiplier,
                *multiplicant,
                *old(product),
                *final(product),
                outcome,
            ),
    {
        add_vectors_element_wise_into::<T, T>(
            self.multiplication_operator,
            self.accumulator,
            &self.options,
            None,
            false,
            multiplier,
            multiplicant,
            product,
        )
    }

    /// Writes the element-wise sum of two vectors into the indices of `product`
    /// that the mask permits.
    pub fn apply_with_mask<MaskValueType: ValueType>(
        &self,
        mask: &VectorMask<MaskValueType>,
        multiplier: &SparseVector<T>,
        multiplicant: &SparseVector<T>,
        product: &mut SparseVector<T>,
    ) -> (outcome: Result<(), SparseLinearAlgebraError>)
        ensures
            vector_sum_made(
                self.operator(),
                self.accumulator(),
                self.options(),
                mask.permitted(),
                mask.extent(),
                *multiplier,
                *multiplicant,
                *old(product),
                *final(product),
                outcome,
            ),
    {
        add_vectors_element_wise_into(
            self.multiplication_operator,
            self.accumulator,
            &self.options,
            mask.vector(),
            mask.is_by_value(),
            multiplier,
            multiplicant,
            product,
        )
    }
}

/// Element-wise addition of vectors by a monoid.
#[derive(Debug)]
pub struct ElementWiseVectorAdditionMonoidOperator<T: ValueType> {
    _value: PhantomData<T>,
    accumulator: Option<BinaryOperatorType>,
    multiplication_operator: BinaryOperatorType,
    options: OperatorOptions,
}

impl<T: ValueType> ElementWiseVectorAdditionMonoidOperator<T> {
    /// The operator that combines the two values of an index.
    pub closed spec fn operator(&self) -> BinaryOperatorType {
        self.multiplication_operator
    }

    /// The operator that combines what the result holds with what was computed, if
    /// there is one.
    pub closed spec fn accumulator(&self) -> Option<BinaryOperatorType> {
        self.accumulator
    }

    pub closed spec fn options(&self) -> OperatorOptions {
        self.options
    }

    pub fn new(
        multiplication_operator: &dyn Monoid<T>,
        options: &OperatorOptions,
        accumulator: Option<&dyn BinaryOperator<T, T, T>>,
    ) -> (operator: Self)
        ensures
            operator.operator() == multiplication_operator.monoid_type().binary_operator(),
            operator.options() == *options,
            operator.accumulator() == accumulator_type(accumulator),
    {
        Self {
            accumulator: resolve_accumulator(accumulator),
            multiplication_operator: multiplication_operator.graphblas_type().to_binary_operator(),
            options: *options,
            _value: PhantomData,
        }
    }
}

impl<T: ValueType> ElementWiseVectorAdditionMonoidOperator<T> {
    /// Writes the element-wise sum of two vectors into `product`, every index
    /// permitted.
    pub fn apply(
        &self,
        multiplier: &SparseVector<T>,
        multiplicant: &SparseVector<T>,
        product: &mut SparseVector<T>,
    ) -> (outcome: Result<(), SparseLinearAlgebraError>)
        ensures
            vector_sum_made(
                self.operator(),
                self.accumulator(),
                self.options(),
                Set::full(),
                None,
                *multiplier,
                *multiplicant,
                *old(product),
                *final(product),
                outcome,
            ),
    {
        add_vectors_element_wise_into::<T, T>(
            self.multiplication_operator,
            self.accumulator,
            &self.options,
            None,
            false,
            multiplier,
            multiplicant,
            product,
        )
    }

    /// Writes the element-wise sum of two vectors into the indices of `product`
    /// that the mask permits.
    pub fn apply_with_mask<MaskValueType: ValueType>(
        &self,
        mask: &VectorMask<MaskValueType>,
        multiplier: &SparseVector<T>,
        multiplicant: &SparseVector<T>,
        product: &mut SparseVector<T>,
    ) -> (outcome: Result<(), SparseLinearAlgebraError>)
        ensures
            vector_sum_made(
                self.operator(),
                self.accumulator(),
                self.options(),
                mask.permitted(),
                mask.extent(),
                *multiplier,
                *multiplicant,
                *old(product),
                *final(product),
                outcome,
            ),
    {
        add_vectors_element_wise_into(
            self.multiplication_operator,
            self.accumulator,
            &self.options,
            mask.vector(),
            mask.is_by_value(),
            multiplier,
            multiplicant,
            product,
        )
    }
}

/// Element-wise addition of vectors by a binary operator.
#[derive(Debug)]
pub struct ElementWiseVectorAdditionBinaryOperator<
    Multiplier: ValueType,
    Multiplicant: ValueType,
    Product: ValueType,
> {
    _multiplier: PhantomData<Multiplier>,
    _multiplicant: PhantomData<Multiplicant>,
    _product: PhantomData<Product>,
    accumulator: Option<BinaryOperatorType>,
    multiplication_operator: BinaryOperatorType,
    options: OperatorOptions,
}

impl<
    Multiplier: ValueType,
    Multiplicant: ValueType,
    Product: ValueType,
> ElementWiseVectorAdditionBinaryOperator<Multiplier, Multiplicant, Product> {
    /// The operator that combines the two values of an index.
    pub closed spec fn operator(&self) -> BinaryOperatorType {
        self.multiplication_operator
    }

    /// The operator that combines what the result holds with what was computed, if
    /// there is one.
    pub closed spec fn accumulator(&self) -> Option<BinaryOperatorType> {
        self.accumulator
    }

    pub closed spec fn options(&self) -> OperatorOptions {
        self.options
    }

    pub fn new(
        multiplication_operator: &dyn BinaryOperator<Multiplier, Multiplicant, Product>,
        options: &OperatorOptions,
        accumulator: Option<&dyn BinaryOperator<Product, Product, Product>>,
    ) -> (operator: Self)
        ensures
            operator.operator() == multiplication_operator.operator_type(),
            operator.options() == *options,
            operator.accumulator() == accumulator_type(accumulator),
    {
        Self {
            accumulator: resolve_accumulator(accumulator),
            multiplication_operator: multiplication_operator.graphblas_type(),
            options: *options,
            _multiplier: PhantomData,
            _multiplicant: PhantomData,
            _product: PhantomData,
        }
    }
}

impl<T: ValueType> ElementWiseVectorAdditionBinaryOperator<T, T, T> {
    /// Writes the element-wise sum of two vectors into `product`, every index
    /// permitted.
    pub fn apply(
        &self,
        multiplier: &SparseVector<T>,
        multiplicant: &SparseVector<T>,
        product: &mut SparseVector<T>,
    ) -> (outcome: Result<(), SparseLinearAlgebraError>)
        ensures
            vector_sum_made(
                self.operator(),
                self.accumulator(),
                self.options(),
                Set::full(),
                None,
                *multiplier,
                *multiplicant,
                *old(product),
                *final(product),
                outcome,
            ),
    {
        add_vectors_element_wise_into::<T, T>(
            self.multiplication_operator,
            self.accumulator,
            &self.options,
            None,
            false,
            multiplier,
            multiplicant,
            product,
        )
    }

    /// Writes the element-wise sum of two vectors into the indices of `product`
    /// that the mask permits.
    pub fn apply_with_mask<MaskValueType: ValueType>(
        &self,
        mask: &VectorMask<MaskValueType>,
        multiplier: &SparseVector<T>,
        multiplicant: &SparseVector<T>,
        product: &mut SparseVector<T>,
    ) -> (outcome: Result<(), SparseLinearAlgebraError>)
        ensures
            vector_sum_made(
                self.operator(),
                self.accumulator(),
                self.options(),
                mask.permitted(),
                mask.extent(),
                *multiplier,
                *multiplicant,
                *old(product),
                *final(product),
                outcome,
            ),
    {
        add_vectors_element_wise_into(
            self.multiplication_operator,
            self.accumulator,
            &self.options,
            mask.vector(),
            mask.is_by_value(),
            multiplier,
            multiplicant,
            product,
        )
    }
}

} // verus!
