use vstd::prelude::*;
use std::marker::PhantomData;
use crate::operators::binary_operator::{
    accumulator_type, resolve_accumulator, BinaryOperator, BinaryOperatorType,
};
use crate::operators::insert::scalar_insertion::accumulated;
use crate::operators::monoid::{Monoid, MonoidType};
use crate::operators::options::OperatorOptions;
use crate::operators::reduce::binary_operator::{reduce_rows, reduced_to_vector, row_reduced};
use crate::value_types::sparse_matrix::sparse_matrix::{
    operand_entries, operand_shape, transpose_of, SparseMatrix,
};
use crate::value_types::sparse_vector::sparse_vector::{column_entries, SparseVector};
use crate::value_types::value_type::ValueType;

verus! {

/// What the entries of a vector that stand below `length` reduce to: nothing where
/// there are none, and else the operator's value over them, taken from the left, in
/// the order of their indices.
pub open spec fn vector_reduced<T: ValueType>(
    operator: BinaryOperatorType,
    entries: Map<int, T>,
    length: nat,
) -> Option<T>
    decreases length,
{
    if length == 0 {
        None
    } else {
        let front = vector_reduced(operator, entries, (length - 1) as nat);
        if entries.contains_key(length - 1) {
            match front {
                Some(value) => Some(operator.apply(value, entries[length - 1])),
                None => Some(entries[length - 1]),
            }
        } else {
            front
        }
    }
}

/// The scalar that the entries of a vector of the given length come to under a
/// monoid: what they reduce to, or the monoid's identity where there are none.
pub open spec fn vector_reduced_to_scalar<T: ValueType>(
    monoid: MonoidType,
    entries: Map<int, T>,
    length: nat,
) -> T {
    match vector_reduced(monoid.binary_operator(), entries, length) {
        Some(value) => value,
        None => monoid.identity(),
    }
}

/// The scalar that the entries of a matrix of the given shape come to under a monoid:
/// each row is reduced, and what the rows reduce to is reduced in the order of the
/// rows; the monoid's identity where the matrix is empty.
pub open spec fn matrix_reduced_to_scalar<T: ValueType>(
    monoid: MonoidType,
    entries: Map<(int, int), T>,
    height: nat,
    width: nat,
) -> T {
    vector_reduced_to_scalar(
        monoid,
        reduced_to_vector(monoid.binary_operator(), entries, width),
        height,
    )
}

/// A vector reduces as the row does that it is when laid on its side.
proof fn lemma_vector_reduces_as_row<T: ValueType>(
    operator: BinaryOperatorType,
    column: Map<(int, int), T>,
    length: nat,
)
    ensures
        row_reduced(operator, transpose_of(column), 0, length) == vector_reduced(
            operator,
            column_entries(column),
            length,
        ),
    decreases length,
{
    if length > 0 {
        lemma_vector_reduces_as_row(operator, column, (length - 1) as nat);
        assert(transpose_of(column).contains_key((0, length - 1)) <==> column_entries(
            column,
        ).contains_key(length - 1));
    }
}

/// Reduces the entries of a vector to one value, if there are any.
pub(crate) fn reduce_vector<T: ValueType>(
    operator: BinaryOperatorType,
    argument: &SparseVector<T>,
) -> (reduction: Option<T>)
    ensures
        reduction == vector_reduced(operator, argument@, argument.extent() as nat),
{
    let column = argument.as_column();
    let row = column.transposed();
    let reduced = reduce_rows(operator, &row);
    proof {
        lemma_vector_reduces_as_row(operator, column@, argument.extent() as nat);
    }
    reduced.get_element(0)
}

/// Reduction of a matrix or a vector to a scalar by a monoid.
#[derive(Debug)]
pub struct MonoidScalarReducer<T: ValueType> {
    _value: PhantomData<T>,
    monoid: MonoidType,
    accumulator: Option<BinaryOperatorType>,
    options: OperatorOptions,
}

impl<T: ValueType> MonoidScalarReducer<T> {
    /// The monoid that reduces.
    pub closed spec fn monoid(&self) -> MonoidType {
        self.monoid
    }

    /// The operator that combines what the result holds with what was computed, if
    /// there is one.
    pub closed spec fn accumulator(&self) -> Option<BinaryOperatorType> {
        self.accumulator
    }

    pub closed spec fn options(&self) -> OperatorOptions {
        self.options
    }

    pub fn new(
        monoid: &dyn Monoid<T>,
        options: &OperatorOptions,
        accumulator: Option<&dyn BinaryOperator<T, T, T>>,
    ) -> (reducer: Self)
        ensures
            reducer.monoid() == monoid.monoid_type(),
            reducer.options() == *options,
            reducer.accumulator() == accumulator_type(accumulator),
    {
        Self {
            monoid: monoid.graphblas_type(),
            accumulator: resolve_accumulator(accumulator),
            options: *options,
            _value: PhantomData,
        }
    }

    /// Leaves in `product` the scalar that the matrix comes to, combined by the
    /// accumulator, if there is one, with what `product` held. The matrix is read
    /// transposed where the options say so.
    pub fn matrix_to_scalar(&self, argument: &SparseMatrix<T>, product: &mut T)
        ensures
            *final(product) == accumulated(
                Some(*old(product)),
                matrix_reduced_to_scalar(
                    self.monoid(),
                    operand_entries(argument@, self.options().transpose_first_input),
                    operand_shape(argument.shape(), self.options().transpose_first_input).row_height as nat,
                    operand_shape(
                        argument.shape(),
                        self.options().transpose_first_input,
                    ).column_width as nat,
                ),
                self.accumulator(),
            ),
    {
        let turned = if self.options.transpose_first_input {
            Some(argument.transposed())
        } else {
            None
        };
        let source: &SparseMatrix<T> = match &turned {
            Some(matrix) => matrix,
            None => argument,
        };
        let operator = self.monoid.to_binary_operator();
        let rows = reduce_rows(operator, source);
        let value = match reduce_vector(operator, &rows) {
            Some(value) => value,
            None => self.monoid.to_identity(),
        };
        *product = match self.accumulator {
            Some(accumulator) => accumulator.evaluate(product, &value),
            None => value,
        };
    }

    /// Leaves in `product` the scalar that the vector comes to, combined by the
    /// accumulator, if there is one, with what `product` held.
    pub fn vector_to_scalar(&self, argument: &SparseVector<T>, product: &mut T)
        ensures
            *final(product) == accumulated(
                Some(*old(product)),
                vector_reduced_to_scalar(self.monoid(), argument@, argument.extent() as nat),
                self.accumulator(),
            ),
    {
        let operator = self.monoid.to_binary_operator();
        let value = match reduce_vector(operator, argument) {
            Some(value) => value,
            None => self.monoid.to_identity(),
        };
        *product = match self.accumulator {
            Some(accumulator) => accumulator.evaluate(product, &value),
            None => value,
        };
    }
}

} // verus!
