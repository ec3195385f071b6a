use vstd::prelude::*;
use std::marker::PhantomData;
use crate::error::SparseLinearAlgebraError;
use crate::operators::binary_operator::{
    accumulator_type, resolve_accumulator, BinaryOperator, BinaryOperatorType,
};
use crate::operators::mask::{permitted_by, vector_mask_entries, vector_mask_extent, VectorMask};
use crate::operators::options::{OperatorConfiguration, OperatorOptions};
use crate::operators::select::selection::{select_entries, selected, SelectionPredicate};
use crate::operators::write_rule::{write_vector, written};
use crate::value_types::sparse_vector::sparse_vector::{column_entries, SparseVector};
use crate::value_types::value_type::ValueType;

verus! {

/// Why a selection is refused, if it is: an argument of another length than the
/// result is a `DimensionMismatch`; after that, a mask of another length than the
/// result is a `ShapeMismatch`.
pub open spec fn vector_selection_refusal(argument: usize, product: usize, mask: Option<usize>) -> Option<
    SparseLinearAlgebraError,
> {
    if argument != product {
        Some(SparseLinearAlgebraError::DimensionMismatch)
    } else if mask is Some && mask != Some(product) {
        Some(SparseLinearAlgebraError::ShapeMismatch)
    } else {
        None
    }
}

/// What a selection leaves behind. A refused call leaves the result as it was; else
/// the entries of the argument that the predicate accepts are written into the
/// result through the mask and the accumulator.
pub open spec fn vector_selection_made<T: ValueType>(
    accumulator: Option<BinaryOperatorType>,
    options: OperatorOptions,
    permitted: Set<int>,
    mask_extent: Option<usize>,
    predicate: SelectionPredicate,
    reference: T,
    argument: SparseVector<T>,
    before: SparseVector<T>,
    after: SparseVector<T>,
    outcome: Result<(), SparseLinearAlgebraError>,
) -> bool {
    &&& after.extent() == before.extent()
    &&& match vector_selection_refusal(argument.extent(), before.extent(), mask_extent) {
        Some(error) => outcome == Err::<(), SparseLinearAlgebraError>(error) && after@ == before@,
        None => outcome is Ok && after@ == written(
            before@,
            selected(argument@, predicate, reference),
            permitted,
            accumulator,
            options.clear_result_before_write,
        ),
    }
}

/// Selects the entries of a vector that a predicate accepts and writes them into a
/// result through a mask and an accumulator.
pub(crate) fn select_vector_into<T: ValueType, M: ValueType>(
    accumulator: Option<BinaryOperatorType>,
    options: &OperatorOptions,
    mask: Option<&SparseVector<M>>,
    by_value: bool,
    predicate: SelectionPredicate,
    reference: &T,
    argument: &SparseVector<T>,
    product: &mut SparseVector<T>,
) -> (outcome: Result<(), SparseLinearAlgebraError>)
    ensures
        vector_selection_made(
            accumulator,
            *options,
            permitted_by(vector_mask_entries(mask), by_value),
            vector_mask_extent(mask),
            predicate,
            *reference,
            *argument,
            *old(product),
            *final(product),
            outcome,
        ),
{
    if argument.length() != product.length() {
        return Err(SparseLinearAlgebraError::DimensionMismatch);
    }
    match mask {
        Some(mask_vector) => {
            if mask_vector.length() != product.length() {
                return Err(SparseLinearAlgebraError::ShapeMismatch);
            }
        },
        None => {},
    }
    let column = argument.as_column();
    let selection = select_entries(column, predicate, reference);
    assert(column_entries(selection@) =~= selected(argument@, predicate, *reference));
    let selection = SparseVector::from_column(selection);
    write_vector(product, &selection, mask, by_value, accumulator, options.clear_result_before_write);
    Ok(())
}

/// Selection of the entries of a vector by their values.
#[derive(Debug)]
pub struct VectorSelector<T: ValueType> {
    _value: PhantomData<T>,
    accumulator: Option<BinaryOperatorType>,
    options: OperatorOptions,
}

impl<T: ValueType> VectorSelector<T> {
    /// The operator that combines what the result holds with what was selected, if
    /// there is one.
    pub closed spec fn accumulator(&self) -> Option<BinaryOperatorType> {
        self.accumulator
    }

    pub closed spec fn options(&self) -> OperatorOptions {
        self.options
    }

    /// What a call on this selector without a mask leaves behind.
    pub open spec fn selects(
        &self,
        predicate: SelectionPredicate,
        reference: T,
        argument: SparseVector<T>,
        before: SparseVector<T>,
        after: SparseVector<T>,
        outcome: Result<(), SparseLinearAlgebraError>,
    ) -> bool {
        vector_selection_made(
            self.accumulator(),
            self.options(),
            Set::full(),
            None,
            predicate,
            reference,
            argument,
            before,
            after,
            outcome,
        )
    }

    /// What a call on this selector with a mask leaves behind.
    pub open spec fn selects_with_mask<MaskValueType: ValueType>(
        &self,
        predicate: SelectionPredicate,
        reference: T,
        argument: SparseVector<T>,
        before: SparseVector<T>,
        after: SparseVector<T>,
        mask: VectorMask<MaskValueType>,
        outcome: Result<(), SparseLinearAlgebraError>,
    ) -> bool {
        vector_selection_made(
            self.accumulator(),
            self.options(),
            mask.permitted(),
            mask.extent(),
            predicate,
            reference,
            argument,
            before,
            after,
            outcome,
        )
    }

    pub fn new(
        options: &OperatorOptions,
        accumulator: Option<&dyn BinaryOperator<T, T, T>>,
    ) -> (selector: Self)
        ensures
            selector.options() == *options,
            selector.accumulator() == accumulator_type(accumulator),
    {
        Self { accumulator: resolve_accumulator(accumulator), options: *options, _value: PhantomData }
    }

    fn select(
        &self,
        predicate: SelectionPredicate,
        reference: &T,
        argument: &SparseVector<T>,
        product: &mut SparseVector<T>,
    ) -> (outcome: Result<(), SparseLinearAlgebraError>)
        ensures
            self.selects(predicate, *reference, *argument, *old(product), *final(product), outcome),
    {
        select_vector_into::<T, T>(
            self.accumulator,
            &self.options,
            None,
            false,
            predicate,
            reference,
            argument,
            product,
        )
    }

    fn select_with_mask<MaskValueType: ValueType>(
        &self,
        predicate: SelectionPredicate,
        reference: &T,
        argument: &SparseVector<T>,
        product: &mut SparseVector<T>,
        mask: &VectorMask<MaskValueType>,
    ) -> (outcome: Result<(), SparseLinearAlgebraError>)
        ensures
            self.selects_with_mask(
                predicate,
                *reference,
                *argument,
                *old(product),
                *final(product),
                *mask,
                outcome,
            ),
    {
        select_vector_into(
            self.accumulator,
            &self.options,
            mask.vector(),
            mask.is_by_value(),
            predicate,
            reference,
            argument,
            product,
        )
    }
}

impl<T: ValueType> VectorSelector<T> {
    /// Writes the stored values of `argument` that are not zero into `product`.
    pub fn non_zero(
        &self,
        argument: &SparseVector<T>,
        product: &mut SparseVector<T>,
    ) -> (outcome: Result<(), SparseLinearAlgebraError>)
        ensures
            self.selects(
                SelectionPredicate::NotEqual,
                T::from_boolean_spec(false),
                *argument,
                *old(product),
                *final(product),
                outcome,
            ),
    {
        self.select(SelectionPredicate::NotEqual, &T::from_boolean(false), argument, product)
    }

    /// Writes the stored values of `argument` that are not zero into the indices of `product`
    /// that the mask permits.
    pub fn non_zero_with_mask<MaskValueType: ValueType>(
        &self,
        argument: &SparseVector<T>,
        product: &mut SparseVector<T>,
        mask: &VectorMask<MaskValueType>,
    ) -> (outcome: Result<(), SparseLinearAlgebraError>)
        ensures
            self.selects_with_mask(
                SelectionPredicate::NotEqual,
                T::from_boolean_spec(false),
                *argument,
                *old(product),
                *final(product),
                *mask,
                outcome,
            ),
    {
        self.select_with_mask(
            SelectionPredicate::NotEqual,
            &T::from_boolean(false),
            argument,
            product,
            mask,
        )
    }

    /// Writes the stored values of `argument` that are zero into `product`.
    pub fn zero(
        &self,
        argument: &SparseVector<T>,
        product: &mut SparseVector<T>,
    ) -> (outcome: Result<(), SparseLinearAlgebraError>)
        ensures
            self.selects(
                SelectionPredicate::Equal,
                T::from_boolean_spec(false),
                *argument,
                *old(product),
                *final(product),
                outcome,
            ),
    {
        self.select(SelectionPredicate::Equal, &T::from_boolean(false), argument, product)
    }

    /// Writes the stored values of `argument` that are zero into the indices of `product`
    /// that the mask permits.
    pub fn zero_with_mask<MaskValueType: ValueType>(
        &self,
        argument: &SparseVector<T>,
        product: &mut SparseVector<T>,
        mask: &VectorMask<MaskValueType>,
    ) -> (outcome: Result<(), SparseLinearAlgebraError>)
        ensures
            self.selects_with_mask(
                SelectionPredicate::Equal,
                T::from_boolean_spec(false),
                *argument,
                *old(product),
                *final(product),
                *mask,
                outcome,
            ),
    {
        self.select_with_mask(
            SelectionPredicate::Equal,
            &T::from_boolean(false),
            argument,
            product,
            mask,
        )
    }

    /// Writes the stored values of `argument` that are greater than zero into `product`.
    pub fn positive(
        &self,
        argument: &SparseVector<T>,
        product: &mut SparseVector<T>,
    ) -> (outcome: Result<(), SparseLinearAlgebraError>)
        ensures
            self.selects(
                SelectionPredicate::GreaterThan,
                T::from_boolean_spec(false),
                *argument,
                *old(product),
                *final(product),
                outcome,
            ),
    {
        self.select(SelectionPredicate::GreaterThan, &T::from_boolean(false), argument, product)
    }

    /// Writes the stored values of `argument` that are greater than zero into the
    /// indices of `product`
    /// that the mask permits.
    pub fn positive_with_mask<MaskValueType: ValueType>(
        &self,
        argument: &SparseVector<T>,
        product: &mut SparseVector<T>,
        mask: &VectorMask<MaskValueType>,
    ) -> (outcome: Result<(), SparseLinearAlgebraError>)
        ensures
            self.selects_with_mask(
                SelectionPredicate::GreaterThan,
                T::from_boolean_spec(false),
                *argument,
                *old(product),
                *final(product),
                *mask,
                outcome,
            ),
    {
        self.select_with_mask(
            SelectionPredicate::GreaterThan,
            &T::from_boolean(false),
            argument,
            product,
            mask,
        )
    }

    /// Writes the stored values of `argument` that are zero or greater into `product`.
    pub fn zero_or_positive(
        &self,
        argument: &SparseVector<T>,
        product: &mut SparseVector<T>,
    ) -> (outcome: Result<(), SparseLinearAlgebraError>)
        ensures
            self.selects(
                SelectionPredicate::GreaterThanOrEqual,
                T::from_boolean_spec(false),
                *argument,
                *old(product),
                *final(product),
                outcome,
            ),
    {
        self.select(SelectionPredicate::GreaterThanOrEqual, &T::from_boolean(false), argument, product)
    }

    /// Writes the stored values of `argument` that are zero or greater into the indices
    /// of `product`
    /// that the mask permits.
    pub fn zero_or_positive_with_mask<MaskValueType: ValueType>(
        &self,
        argument: &SparseVector<T>,
        product: &mut SparseVector<T>,
        mask: &VectorMask<MaskValueType>,
    ) -> (outcome: Result<(), SparseLinearAlgebraError>)
        ensures
            self.selects_with_mask(
                SelectionPredicate::GreaterThanOrEqual,
                T::from_boolean_spec(false),
                *argument,
                *old(product),
                *final(product),
                *mask,
                outcome,
            ),
    {
        self.select_with_mask(
            SelectionPredicate::GreaterThanOrEqual,
            &T::from_boolean(false),
            argument,
            product,
            mask,
        )
    }

    /// Writes the stored values of `argument` that are less than zero into `product`.
    pub fn negative(
        &self,
        argument: &SparseVector<T>,
        product: &mut SparseVector<T>,
    ) -> (outcome: Result<(), SparseLinearAlgebraError>)
        ensures
            self.selects(
                SelectionPredicate::LessThan,
                T::from_boolean_spec(false),
                *argument,
                *old(product),
                *final(product),
                outcome,
            ),
    {
        self.select(SelectionPredicate::LessThan, &T::from_boolean(false), argument, product)
    }

    /// Writes the stored values of `argument` that are less than zero into the indices of `product`
    /// that the mask permits.
    pub fn negative_with_mask<MaskValueType: ValueType>(
        &self,
        argument: &SparseVector<T>,
        product: &mut SparseVector<T>,
        mask: &VectorMask<MaskValueType>,
    ) -> (outcome: Result<(), SparseLinearAlgebraError>)
        ensures
            self.selects_with_mask(
                SelectionPredicate::LessThan,
                T::from_boolean_spec(false),
                *argument,
                *old(product),
                *final(product),
                *mask,
                outcome,
            ),
    {
        self.select_with_mask(
            SelectionPredicate::LessThan,
            &T::from_boolean(false),
            argument,
            product,
            mask,
        )
    }

    /// Writes the stored values of `argument` that are zero or less into `product`.
    pub fn zero_or_negative(
        &self,
        argument: &SparseVector<T>,
        product: &mut SparseVector<T>,
    ) -> (outcome: Result<(), SparseLinearAlgebraError>)
        ensures
            self.selects(
                SelectionPredicate::LessThanOrEqual,
                T::from_boolean_spec(false),
                *argument,
                *old(product),
                *final(product),
                outcome,
            ),
    {
        self.select(SelectionPredicate::LessThanOrEqual, &T::from_boolean(false), argument, product)
    }

    /// Writes the stored values of `argument` that are zero or less into the indices of `product`
    /// that the mask permits.
    pub fn zero_or_negative_with_mask<MaskValueType: ValueType>(
        &self,
        argument: &SparseVector<T>,
        product: &mut SparseVector<T>,
        mask: &VectorMask<MaskValueType>,
    ) -> (outcome: Result<(), SparseLinearAlgebraError>)
        ensures
            self.selects_with_mask(
                SelectionPredicate::LessThanOrEqual,
                T::from_boolean_spec(false),
                *argument,
                *old(product),
                *final(product),
                *mask,
                outcome,
            ),
    {
        self.select_with_mask(
            SelectionPredicate::LessThanOrEqual,
            &T::from_boolean(false),
            argument,
            product,
            mask,
        )
    }
}

impl<T: ValueType> OperatorConfiguration for VectorSelector<T> {
    open spec fn configured_accumulator(&self) -> Option<BinaryOperatorType> {
        self.accumulator()
    }

    open spec fn configured_options(&self) -> OperatorOptions {
        self.options()
    }
}

/// Selection of the stored values of a vector that differ from a scalar.
pub trait SelectVectorNotEqualToScalar<T: ValueType>: OperatorConfiguration {
    /// Writes the stored values of `argument` that differ from a scalar into `product`.
    fn not_equal_to_scalar(
        &self,
        argument: &SparseVector<T>,
        product: &mut SparseVector<T>,
        scalar: &T,
    ) -> (outcome: Result<(), SparseLinearAlgebraError>)
        ensures
            vector_selection_made(
                self.configured_accumulator(),
                self.configured_options(),
                Set::full(),
                None,
                SelectionPredicate::NotEqual,
                *scalar,
                *argument,
                *old(product),
                *final(product),
                outcome,
            ),
    ;

    /// Writes the stored values of `argument` that differ from a scalar into the
    /// indices of `product`
    /// that the mask permits.
    fn not_equal_to_scalar_with_mask<MaskValueType: ValueType>(
        &self,
        argument: &SparseVector<T>,
        product: &mut SparseVector<T>,
        scalar: &T,
        mask: &VectorMask<MaskValueType>,
    ) -> (outcome: Result<(), SparseLinearAlgebraError>)
        ensures
            vector_selection_made(
                self.configured_accumulator(),
                self.configured_options(),
                mask.permitted(),
                mask.extent(),
                SelectionPredicate::NotEqual,
                *scalar,
                *argument,
                *old(product),
                *final(product),
                outcome,
            ),
    ;
}

impl<T: ValueType> SelectVectorNotEqualToScalar<T> for VectorSelector<T> {
    fn not_equal_to_scalar(
        &self,
        argument: &SparseVector<T>,
        product: &mut SparseVector<T>,
        scalar: &T,
    ) -> (outcome: Result<(), SparseLinearAlgebraError>) {
        self.select(SelectionPredicate::NotEqual, scalar, argument, product)
    }

    fn not_equal_to_scalar_with_mask<MaskValueType: ValueType>(
        &self,
        argument: &SparseVector<T>,
        product: &mut SparseVector<T>,
        scalar: &T,
        mask: &VectorMask<MaskValueType>,
    ) -> (outcome: Result<(), SparseLinearAlgebraError>) {
        self.select_with_mask(SelectionPredicate::NotEqual, scalar, argument, product, mask)
    }
}

/// Selection of the stored values of a vector that equal a scalar.
pub trait SelectVectorEqualToScalar<T: ValueType>: OperatorConfiguration {
    /// Writes the stored values of `argument` that equal a scalar into `product`.
    fn equal_to_scalar(
        &self,
        argument: &SparseVector<T>,
        product: &mut SparseVector<T>,
        scalar: &T,
    ) -> (outcome: Result<(), SparseLinearAlgebraError>)
        ensures
            vector_selection_made(
                self.configured_accumulator(),
                self.configured_options(),
                Set::full(),
                None,
                SelectionPredicate::Equal,
                *scalar,
                *argument,
                *old(product),
                *final(product),
                outcome,
            ),
    ;

    /// Writes the stored values of `argument` that equal a scalar into the indices of `product`
    /// that the mask permits.
    fn equal_to_scalar_with_mask<MaskValueType: ValueType>(
        &self,
        argument: &SparseVector<T>,
        product: &mut SparseVector<T>,
        scalar: &T,
        mask: &VectorMask<MaskValueType>,
    ) -> (outcome: Result<(), SparseLinearAlgebraError>)
        ensures
            vector_selection_made(
                self.configured_accumulator(),
                self.configured_options(),
                mask.permitted(),
                mask.extent(),
                SelectionPredicate::Equal,
                *scalar,
                *argument,
                *old(product),
                *final(product),
                outcome,
            ),
    ;
}

impl<T: ValueType> SelectVectorEqualToScalar<T> for VectorSelector<T> {
    fn equal_to_scalar(
        &self,
        argument: &SparseVector<T>,
        product: &mut SparseVector<T>,
        scalar: &T,
    ) -> (outcome: Result<(), SparseLinearAlgebraError>) {
        self.select(SelectionPredicate::Equal, scalar, argument, product)
    }

    fn equal_to_scalar_with_mask<MaskValueType: ValueType>(
        &self,
        argument: &SparseVector<T>,
        product: &mut SparseVector<T>,
        scalar: &T,
        mask: &VectorMask<MaskValueType>,
    ) -> (outcome: Result<(), SparseLinearAlgebraError>) {
        self.select_with_mask(SelectionPredicate::Equal, scalar, argument, product, mask)
    }
}

/// Selection of the stored values of a vector that are greater than a scalar.
pub trait SelectVectorGreaterThanScalar<T: ValueType>: OperatorConfiguration {
    /// Writes the stored values of `argument` that are greater than a scalar into `product`.
    fn greater_than_scalar(
        &self,
        argument: &SparseVector<T>,
        product: &mut SparseVector<T>,
        scalar: &T,
    ) -> (outcome: Result<(), SparseLinearAlgebraError>)
        ensures
            vector_selection_made(
                self.configured_accumulator(),
                self.configured_options(),
                Set::full(),
                None,
                SelectionPredicate::GreaterThan,
                *scalar,
                *argument,
                *old(product),
                *final(product),
                outcome,
            ),
    ;

    /// Writes the stored values of `argument` that are greater than a scalar into the
    /// indices of `product`
    /// that the mask permits.
    fn greater_than_scalar_with_mask<MaskValueType: ValueType>(
        &self,
        argument: &SparseVector<T>,
        product: &mut SparseVector<T>,
        scalar: &T,
        mask: &VectorMask<MaskValueType>,
    ) -> (outcome: Result<(), SparseLinearAlgebraError>)
        ensures
            vector_selection_made(
                self.configured_accumulator(),
                self.configured_options(),
                mask.permitted(),
                mask.extent(),
                SelectionPredicate::GreaterThan,
                *scalar,
                *argument,
                *old(product),
                *final(product),
                outcome,
            ),
    ;
}

impl<T: ValueType> SelectVectorGreaterThanScalar<T> for VectorSelector<T> {
    fn greater_than_scalar(
        &self,
        argument: &SparseVector<T>,
        product: &mut SparseVector<T>,
        scalar: &T,
    ) -> (outcome: Result<(), SparseLinearAlgebraError>) {
        self.select(SelectionPredicate::GreaterThan, scalar, argument, product)
    }

    fn greater_than_scalar_with_mask<MaskValueType: ValueType>(
        &self,
        argument: &SparseVector<T>,
        product: &mut SparseVector<T>,
        scalar: &T,
        mask: &VectorMask<MaskValueType>,
    ) -> (outcome: Result<(), SparseLinearAlgebraError>) {
        self.select_with_mask(SelectionPredicate::GreaterThan, scalar, argument, product, mask)
    }
}

/// Selection of the stored values of a vector that are a scalar or greater.
pub trait SelectVectorGreaterThanOrEqualToScalar<T: ValueType>: OperatorConfiguration {
    /// Writes the stored values of `argument` that are a scalar or greater into `product`.
    fn greater_than_or_equal_to_scalar(
        &self,
        argument: &SparseVector<T>,
        product: &mut SparseVector<T>,
        scalar: &T,
    ) -> (outcome: Result<(), SparseLinearAlgebraError>)
        ensures
            vector_selection_made(
                self.configured_accumulator(),
                self.configured_options(),
                Set::full(),
                None,
                SelectionPredicate::GreaterThanOrEqual,
                *scalar,
                *argument,
                *old(product),
                *final(product),
                outcome,
            ),
    ;

    /// Writes the stored values of `argument` that are a scalar or greater into the
    /// indices of `product`
    /// that the mask permits.
    fn greater_than_or_equal_to_scalar_with_mask<MaskValueType: ValueType>(
        &self,
        argument: &SparseVector<T>,
        product: &mut SparseVector<T>,
        scalar: &T,
        mask: &VectorMask<MaskValueType>,
    ) -> (outcome: Result<(), SparseLinearAlgebraError>)
        ensures
            vector_selection_made(
                self.configured_accumulator(),
                self.configured_options(),
                mask.permitted(),
                mask.extent(),
                SelectionPredicate::GreaterThanOrEqual,
                *scalar,
                *argument,
                *old(product),
                *final(product),
                outcome,
            ),
    ;
}

impl<T: ValueType> SelectVectorGreaterThanOrEqualToScalar<T> for VectorSelector<T> {
    fn greater_than_or_equal_to_scalar(
        &self,
        argument: &SparseVector<T>,
        product: &mut SparseVector<T>,
        scalar: &T,
    ) -> (outcome: Result<(), SparseLinearAlgebraError>) {
        self.select(SelectionPredicate::GreaterThanOrEqual, scalar, argument, product)
    }

    fn greater_than_or_equal_to_scalar_with_mask<MaskValueType: ValueType>(
        &self,
        argument: &SparseVector<T>,
        product: &mut SparseVector<T>,
        scalar: &T,
        mask: &VectorMask<MaskValueType>,
    ) -> (outcome: Result<(), SparseLinearAlgebraError>) {
        self.select_with_mask(SelectionPredicate::GreaterThanOrEqual, scalar, argument, product, mask)
    }
}

/// Selection of the stored values of a vector that are less than a scalar.
pub trait SelectVectorLessThanScalar<T: ValueType>: OperatorConfiguration {
    /// Writes the stored values of `argument` that are less than a scalar into `product`.
    fn less_than_scalar(
        &self,
        argument: &SparseVector<T>,
        product: &mut SparseVector<T>,
        scalar: &T,
    ) -> (outcome: Result<(), SparseLinearAlgebraError>)
        ensures
            vector_selection_made(
                self.configured_accumulator(),
                self.configured_options(),
                Set::full(),
                None,
                SelectionPredicate::LessThan,
                *scalar,
                *argument,
                *old(product),
                *final(product),
                outcome,
            ),
    ;

    /// Writes the stored values of `argument` that are less than a scalar into the
    /// indices of `product`
    /// that the mask permits.
    fn less_than_scalar_with_mask<MaskValueType: ValueType>(
        &self,
        argument: &SparseVector<T>,
        product: &mut SparseVector<T>,
        scalar: &T,
        mask: &VectorMask<MaskValueType>,
    ) -> (outcome: Result<(), SparseLinearAlgebraError>)
        ensures
            vector_selection_made(
                self.configured_accumulator(),
                self.configured_options(),
                mask.permitted(),
                mask.extent(),
                SelectionPredicate::LessThan,
                *scalar,
                *argument,
                *old(product),
                *final(product),
                outcome,
            ),
    ;
}

impl<T: ValueType> SelectVectorLessThanScalar<T> for VectorSelector<T> {
    fn less_than_scalar(
        &self,
        argument: &SparseVector<T>,
        product: &mut SparseVector<T>,
        scalar: &T,
    ) -> (outcome: Result<(), SparseLinearAlgebraError>) {
        self.select(SelectionPredicate::LessThan, scalar, argument, product)
    }

    fn less_than_scalar_with_mask<MaskValueType: ValueType>(
        &self,
        argument: &SparseVector<T>,
        product: &mut SparseVector<T>,
        scalar: &T,
        mask: &VectorMask<MaskValueType>,
    ) -> (outcome: Result<(), SparseLinearAlgebraError>) {
        self.select_with_mask(SelectionPredicate::LessThan, scalar, argument, product, mask)
    }
}

/// Selection of the stored values of a vector that are a scalar or less.
pub trait SelectVectorLessThanOrEqualToScalar<T: ValueType>: OperatorConfiguration {
    /// Writes the stored values of `argument` that are a scalar or less into `product`.
    fn less_than_or_equal_to_scalar(
        &self,
        argument: &SparseVector<T>,
        product: &mut SparseVector<T>,
        scalar: &T,
    ) -> (outcome: Result<(), SparseLinearAlgebraError>)
        ensures
            vector_selection_made(
                self.configured_accumulator(),
                self.configured_options(),
                Set::full(),
                None,
                SelectionPredicate::LessThanOrEqual,
                *scalar,
                *argument,
                *old(product),
                *final(product),
                outcome,
            ),
    ;

    /// Writes the stored values of `argument` that are a scalar or less into the
    /// indices of `product`
    /// that the mask permits.
    fn less_than_or_equal_to_scalar_with_mask<MaskValueType: ValueType>(
        &self,
        argument: &SparseVector<T>,
        product: &mut SparseVector<T>,
        scalar: &T,
        mask: &VectorMask<MaskValueType>,
    ) -> (outcome: Result<(), SparseLinearAlgebraError>)
        ensures
            vector_selection_made(
                self.configured_accumulator(),
                self.configured_options(),
                mask.permitted(),
                mask.extent(),
                SelectionPredicate::LessThanOrEqual,
                *scalar,
                *argument,
                *old(product),
                *final(product),
                outcome,
            ),
    ;
}

impl<T: ValueType> SelectVectorLessThanOrEqualToScalar<T> for VectorSelector<T> {
    fn less_than_or_equal_to_scalar(
        &self,
        argument: &SparseVector<T>,
        product: &mut SparseVector<T>,
        scalar: &T,
    ) -> (outcome: Result<(), SparseLinearAlgebraError>) {
        self.select(SelectionPredicate::LessThanOrEqual, scalar, argument, product)
    }

    fn less_than_or_equal_to_scalar_with_mask<MaskValueType: ValueType>(
        &self,
        argument: &SparseVector<T>,
        product: &mut SparseVector<T>,
        scalar: &T,
        mask: &VectorMask<MaskValueType>,
    ) -> (outcome: Result<(), SparseLinearAlgebraError>) {
        self.select_with_mask(SelectionPredicate::LessThanOrEqual, scalar, argument, product, mask)
    }
}

} // verus!
