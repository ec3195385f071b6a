use vstd::prelude::*;
use std::marker::PhantomData;
use crate::error::SparseLinearAlgebraError;
use crate::operators::binary_operator::{
    accumulator_type, resolve_accumulator, BinaryOperator, BinaryOperatorType,
};
use crate::operators::mask::{permitted_by, vector_mask_entries, vector_mask_extent, VectorMask};
use crate::operators::options::OperatorOptions;
use crate::operators::write_rule::{write_vector, written};
use crate::value_types::sparse_matrix::sparse_matrix::{
    columns_done, comes_before, in_row_major_order, lemma_no_entry_between, lists_entries_of,
    operand_entries, operand_shape, SparseMatrix,
};
use crate::value_types::sparse_vector::element::VectorElement;
use crate::value_types::sparse_vector::sparse_vector::SparseVector;
use crate::value_types::value_type::ValueType;

verus! {

/// What the entries of one row that stand in the first `width` columns reduce to:
/// nothing where there are none, and else the operator's value over them, taken from
/// the left, in the order of their columns.
pub open spec fn row_reduced<T: ValueType>(
    operator: BinaryOperatorType,
    entries: Map<(int, int), T>,
    row: int,
    width: nat,
) -> Option<T>
    decreases width,
{
    if width == 0 {
        None
    } else {
        let front = row_reduced(operator, entries, row, (width - 1) as nat);
        if entries.contains_key((row, width - 1)) {
            match front {
                Some(value) => Some(operator.apply(value, entries[(row, width - 1)])),
                None => Some(entries[(row, width - 1)]),
            }
        } else {
            front
        }
    }
}

/// The entries of the vector that a matrix of the given width reduces to, row by row.
/// A row without entries leaves its index empty.
pub open spec fn reduced_to_vector<T: ValueType>(
    operator: BinaryOperatorType,
    entries: Map<(int, int), T>,
    width: nat,
) -> Map<int, T> {
    Map::new(
        |row: int| row_reduced(operator, entries, row, width) is Some,
        |row: int| row_reduced(operator, entries, row, width)->Some_0,
    )
}

/// Columns that hold nothing do not change what a row reduces to.
pub(crate) proof fn lemma_row_reduced_over_gap<T: ValueType>(
    operator: BinaryOperatorType,
    entries: Map<(int, int), T>,
    row: int,
    from: nat,
    to: nat,
)
    requires
        from <= to,
        forall|column: int| from <= column < to ==> !entries.contains_key((row, column)),
    ensures
        row_reduced(operator, entries, row, to) == row_reduced(operator, entries, row, from),
    decreases to - from,
{
    if from < to {
        lemma_row_reduced_over_gap(operator, entries, row, from, (to - 1) as nat);
        assert(!entries.contains_key((row, to - 1)));
    }
}

/// Reduces each row of a matrix to one value.
pub(crate) fn reduce_rows<T: ValueType>(
    operator: BinaryOperatorType,
    source: &SparseMatrix<T>,
) -> (reduction: SparseVector<T>)
    ensures
        reduction.extent() == source.shape().row_height,
        reduction@ == reduced_to_vector(operator, source@, source.shape().column_width as nat),
{
    let height = source.row_height();
    let ghost width = source.shape().column_width as nat;
    let mut reduction = SparseVector::<T>::new(&height);
    let elements = source.elements();
    let mut k: usize = 0;
    while k < elements.len()
        invariant
            k <= elements@.len(),
            reduction.extent() == height,
            height == source.shape().row_height,
            width == source.shape().column_width,
            in_row_major_order(elements@),
            lists_entries_of(elements@, source@),
            forall|position: (int, int)| #[trigger]
                source@.contains_key(position) ==> source.shape().holds(position),
            forall|row: int|
                reduction@.get(row) == row_reduced(
                    operator,
                    source@,
                    row,
                    #[trigger] columns_done(elements@, k as int, row, width),
                ),
        decreases elements@.len() - k,
    {
        let element = &elements[k];
        let ghost position = element.position();
        let ghost before = reduction@;
        proof {
            assert(source@.contains_pair(elements@[k as int].position(), element.value));
            if k > 0 {
                assert(comes_before(elements@[k - 1].position(), elements@[k as int].position()));
            }
        }
        let value = match reduction.get_element(element.coordinate.row_index) {
            Some(held) => operator.evaluate(&held, &element.value),
            None => element.value,
        };
        reduction.store(
            VectorElement { index: element.coordinate.row_index, value },
        );
        proof {
            assert forall|row: int|
                reduction@.get(row) == row_reduced(
                    operator,
                    source@,
                    row,
                    #[trigger] columns_done(elements@, k + 1, row, width),
                ) by {
                let done = columns_done(elements@, k as int, row, width);
                assert(before.get(row) == row_reduced(operator, source@, row, done));
                if row == position.0 {
                    assert forall|column: int| done <= column < position.1 implies !source@.contains_key(
                        (row, column),
                    ) by {
                        lemma_no_entry_between(elements@, source@, k as int, (row, column));
                    }
                    lemma_row_reduced_over_gap(operator, source@, row, done, position.1 as nat);
                } else if row < position.0 {
                    assert forall|column: int| done <= column < width implies !source@.contains_key(
                        (row, column),
                    ) by {
                        lemma_no_entry_between(elements@, source@, k as int, (row, column));
                    }
                    lemma_row_reduced_over_gap(operator, source@, row, done, width);
                }
            }
        }
        k = k + 1;
    }
    proof {
        assert forall|row: int|
            (#[trigger] reduction@.contains_key(row) <==> row_reduced(operator, source@, row, width)
                is Some) && reduction@.get(row) == row_reduced(operator, source@, row, width) by {
            let done = columns_done(elements@, k as int, row, width);
            assert(reduction@.get(row) == row_reduced(operator, source@, row, done));
            assert forall|column: int| done <= column < width implies !source@.contains_key(
                (row, column),
            ) by {
                lemma_no_entry_between(elements@, source@, k as int, (row, column));
            }
            lemma_row_reduced_over_gap(operator, source@, row, done, width);
        }
        assert(reduction@ =~= reduced_to_vector(operator, source@, width));
    }
    reduction
}

/// Why a reduction to a vector is refused, if it is. `rows` is the number of rows of
/// the matrix that is read, transposed already where the options say so. A result of
/// another length is a `DimensionMismatch`; after that, a mask of another length
/// than the result is a `ShapeMismatch`.
pub open spec fn reduction_refusal(rows: usize, product: usize, mask: Option<usize>) -> Option<
    SparseLinearAlgebraError,
> {
    if rows != product {
        Some(SparseLinearAlgebraError::DimensionMismatch)
    } else if mask is Some && mask != Some(product) {
        Some(SparseLinearAlgebraError::ShapeMismatch)
    } else {
        None
    }
}

/// What a reduction to a vector leaves behind. A refused call leaves the result as it
/// was; else what the rows of the argument reduce to is written into the result
/// through the mask and the accumulator.
pub open spec fn reduction_made<T: ValueType>(
    operator: BinaryOperatorType,
    accumulator: Option<BinaryOperatorType>,
    options: OperatorOptions,
    permitted: Set<int>,
    mask_extent: Option<usize>,
    argument: SparseMatrix<T>,
    before: SparseVector<T>,
    after: SparseVector<T>,
    outcome: Result<(), SparseLinearAlgebraError>,
) -> bool {
    let shape = operand_shape(argument.shape(), options.transpose_first_input);
    &&& after.extent() == before.extent()
    &&& match reduction_refusal(shape.row_height, before.extent(), mask_extent) {
        Some(error) => outcome == Err::<(), SparseLinearAlgebraError>(error) && after@ == before@,
        None => outcome is Ok && after@ == written(
            before@,
            reduced_to_vector(
                operator,
                operand_entries(argument@, options.transpose_first_input),
                shape.column_width as nat,
            ),
            permitted,
            accumulator,
            options.clear_result_before_write,
        ),
    }
}

/// Reduces the rows of a matrix and writes the values into a vector through a mask and
/// an accumulator.
pub(crate) fn reduce_to_vector_into<T: ValueType, M: ValueType>(
    operator: BinaryOperatorType,
    accumulator: Option<BinaryOperatorType>,
    options: &OperatorOptions,
    mask: Option<&SparseVector<M>>,
    by_value: bool,
    argument: &SparseMatrix<T>,
    product: &mut SparseVector<T>,
) -> (outcome: Result<(), SparseLinearAlgebraError>)
    ensures
        reduction_made(
            operator,
            accumulator,
            *options,
            permitted_by(vector_mask_entries(mask), by_value),
            vector_mask_extent(mask),
            *argument,
            *old(product),
            *final(product),
            outcome,
        ),
{
    let turned = if options.transpose_first_input {
        Some(argument.transposed())
    } else {
        None
    };
    let source: &SparseMatrix<T> = match &turned {
        Some(matrix) => matrix,
        None => argument,
    };
    if source.row_height() != product.length() {
        return Err(SparseLinearAlgebraError::DimensionMismatch);
    }
    match mask {
        Some(mask_vector) => {
            if mask_vector.length() != product.length() {
                return Err(SparseLinearAlgebraError::ShapeMismatch);
            }
        },
        None => {},
    }
    let reduction = reduce_rows(operator, source);
    write_vector(product, &reduction, mask, by_value, accumulator, options.clear_result_before_write);
    Ok(())
}

/// Reduction of the rows of a matrix by a binary operator. The operator is applied
/// from the left in the order of the columns, so the outcome is the same on every
/// run, whether or not the operator is associative.
#[derive(Debug)]
pub struct BinaryOperatorReducer<T: ValueType> {
    _value: PhantomData<T>,
    binary_operator: BinaryOperatorType,
    accumulator: Option<BinaryOperatorType>,
    options: OperatorOptions,
}

impl<T: ValueType> BinaryOperatorReducer<T> {
    /// The operator that reduces a row.
    pub closed spec fn operator(&self) -> BinaryOperatorType {
        self.binary_operator
    }

    /// The operator that combines what the result holds with what was computed, if
    /// there is one.
    pub closed spec fn accumulator(&self) -> Option<BinaryOperatorType> {
        self.accumulator
    }

    pub closed spec fn options(&self) -> OperatorOptions {
        self.options
    }

    pub fn new(
        binary_operator: &dyn BinaryOperator<T, T, T>,
        options: &OperatorOptions,
        accumulator: Option<&dyn BinaryOperator<T, T, T>>,
    ) -> (reducer: Self)
        ensures
            reducer.operator() == binary_operator.operator_type(),
            reducer.options() == *options,
            reducer.accumulator() == accumulator_type(accumulator),
    {
        Self {
            binary_operator: binary_operator.graphblas_type(),
            accumulator: resolve_accumulator(accumulator),
            options: *options,
            _value: PhantomData,
        }
    }

    /// Writes what each row of `argument` reduces to into `product`, every index
    /// permitted.
    pub fn to_vector(
        &self,
        argument: &SparseMatrix<T>,
        product: &mut SparseVector<T>,
    ) -> (outcome: Result<(), SparseLinearAlgebraError>)
        ensures
            reduction_made(
                self.operator(),
                self.accumulator(),
                self.options(),
                Set::full(),
                None,
                *argument,
                *old(product),
                *final(product),
                outcome,
            ),
    {
        reduce_to_vector_into::<T, T>(
            self.binary_operator,
            self.accumulator,
            &self.options,
            None,
            false,
            argument,
            product,
        )
    }

    /// Writes what each row of `argument` reduces to into the indices of `product`
    /// that the mask permits.
    pub fn to_vector_with_mask<MaskValueType: ValueType>(
        &self,
        argument: &SparseMatrix<T>,
        product: &mut SparseVector<T>,
        mask: &VectorMask<MaskValueType>,
    ) -> (outcome: Result<(), SparseLinearAlgebraError>)
        ensures
            reduction_made(
                self.operator(),
                self.accumulator(),
                self.options(),
                mask.permitted(),
                mask.extent(),
                *argument,
                *old(product),
                *final(product),
                outcome,
            ),
    {
        reduce_to_vector_into(
            self.binary_operator,
            self.accumulator,
            &self.options,
            mask.vector(),
            mask.is_by_value(),
            argument,
            product,
        )
    }
}

} // verus!
