use vstd::prelude::*;
use std::marker::PhantomData;
use crate::error::SparseLinearAlgebraError;
use crate::operators::binary_operator::{
    accumulator_type, resolve_accumulator, BinaryOperator, BinaryOperatorType,
};
use crate::operators::mask::{mask_entries, mask_shape, permitted_by, MatrixMask};
use crate::operators::options::OperatorOptions;
use crate::operators::write_rule::{write_matrix, written};
use crate::value_types::sparse_matrix::size::Size;
use crate::value_types::sparse_matrix::sparse_matrix::{
    operand_entries, operand_shape, SparseMatrix,
};
use crate::value_types::value_type::ValueType;

verus! {

/// Why a transposition is refused, if it is. `transposed` is the shape of what is
/// written. A result of another shape is a `DimensionMismatch`; after that, a mask
/// of another shape than the result is a `ShapeMismatch`.
pub open spec fn transposition_refusal(transposed: Size, transpose: Size, mask: Option<Size>) -> Option<
    SparseLinearAlgebraError,
> {
    if transposed != transpose {
        Some(SparseLinearAlgebraError::DimensionMismatch)
    } else if mask is Some && mask != Some(transpose) {
        Some(SparseLinearAlgebraError::ShapeMismatch)
    } else {
        None
    }
}

/// What a transposition leaves behind. A refused call leaves the result as it was;
/// else the transposed matrix is written into the result through the mask and the
/// accumulator. Where the options ask for the argument to be transposed before, the
/// two cancel, and the matrix is written as it is.
pub open spec fn transposition_made<T: ValueType>(
    accumulator: Option<BinaryOperatorType>,
    options: OperatorOptions,
    permitted: Set<(int, int)>,
    mask_shape: Option<Size>,
    matrix: SparseMatrix<T>,
    before: SparseMatrix<T>,
    after: SparseMatrix<T>,
    outcome: Result<(), SparseLinearAlgebraError>,
) -> bool {
    &&& after.shape() == before.shape()
    &&& match transposition_refusal(
        operand_shape(matrix.shape(), !options.transpose_first_input),
        before.shape(),
        mask_shape,
    ) {
        Some(error) => outcome == Err::<(), SparseLinearAlgebraError>(error) && after@ == before@,
        None => outcome is Ok && after@ == written(
            before@,
            operand_entries(matrix@, !options.transpose_first_input),
            permitted,
            accumulator,
            options.clear_result_before_write,
        ),
    }
}

/// Transposes a matrix and writes it into a result through a mask and an accumulator.
pub(crate) fn transpose_into<T: ValueType, M: ValueType>(
    accumulator: Option<BinaryOperatorType>,
    options: &OperatorOptions,
    mask: Option<&SparseMatrix<M>>,
    by_value: bool,
    matrix: &SparseMatrix<T>,
    transpose: &mut SparseMatrix<T>,
) -> (outcome: Result<(), SparseLinearAlgebraError>)
    ensures
        transposition_made(
            accumulator,
            *options,
            permitted_by(mask_entries(mask), by_value),
            mask_shape(mask),
            *matrix,
            *old(transpose),
            *final(transpose),
            outcome,
        ),
{
    let size = transpose.size();
    if !matrix.has_shape(&size, !options.transpose_first_input) {
        return Err(SparseLinearAlgebraError::DimensionMismatch);
    }
    match mask {
        Some(mask_matrix) => {
            if !mask_matrix.has_shape(&size, false) {
                return Err(SparseLinearAlgebraError::ShapeMismatch);
            }
        },
        None => {},
    }
    if options.transpose_first_input {
        write_matrix(transpose, matrix, mask, by_value, accumulator, options.clear_result_before_write);
    } else {
        let turned = matrix.transposed();
        write_matrix(transpose, &turned, mask, by_value, accumulator, options.clear_result_before_write);
    }
    Ok(())
}

/// Transposition of a matrix.
#[derive(Debug)]
pub struct MatrixTranspose<T: ValueType> {
    _value: PhantomData<T>,
    accumulator: Option<BinaryOperatorType>,
    options: OperatorOptions,
}

impl<T: ValueType> MatrixTranspose<T> {
    /// The operator that combines what the result holds with the transposed matrix,
    /// if there is one.
    pub closed spec fn accumulator(&self) -> Option<BinaryOperatorType> {
        self.accumulator
    }

    pub closed spec fn options(&self) -> OperatorOptions {
        self.options
    }

    pub fn new(
        options: &OperatorOptions,
        accumulator: Option<&dyn BinaryOperator<T, T, T>>,
    ) -> (operator: Self)
        ensures
            operator.options() == *options,
            operator.accumulator() == accumulator_type(accumulator),
    {
        Self { accumulator: resolve_accumulator(accumulator), options: *options, _value: PhantomData }
    }

    /// Writes the transposed `matrix` into `transpose`, every position permitted.
    pub fn apply(
        &self,
        matrix: &SparseMatrix<T>,
        transpose: &mut SparseMatrix<T>,
    ) -> (outcome: Result<(), SparseLinearAlgebraError>)
        ensures
            transposition_made(
                self.accumulator(),
                self.options(),
                Set::full(),
                None,
                *matrix,
                *old(transpose),
                *final(transpose),
                outcome,
            ),
    {
        transpose_into::<T, T>(self.accumulator, &self.options, None, false, matrix, transpose)
    }

    /// Writes the transposed `matrix` into the positions of `transpose` that the mask
    /// permits.
    pub fn apply_with_mask<MaskValueType: ValueType>(
        &self,
        matrix: &SparseMatrix<T>,
        transpose: &mut SparseMatrix<T>,
        mask: &MatrixMask<MaskValueType>,
    ) -> (outcome: Result<(), SparseLinearAlgebraError>)
        ensures
            transposition_made(
                self.accumulator(),
                self.options(),
                mask.permitted(),
                mask.shape(),
                *matrix,
                *old(transpose),
                *final(transpose),
                outcome,
            ),
    {
        transpose_into(
            self.accumulator,
            &self.options,
            mask.matrix(),
            mask.is_by_value(),
            matrix,
            transpose,
        )
    }
}

} // verus!
