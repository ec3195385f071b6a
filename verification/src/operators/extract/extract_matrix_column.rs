use vstd::prelude::*;
use std::marker::PhantomData;
use crate::error::SparseLinearAlgebraError;
use crate::operators::binary_operator::{
    accumulator_type, resolve_accumulator, BinaryOperator, BinaryOperatorType,
};
use crate::operators::extract::extract_sub_matrix::{extract, extracted};
use crate::operators::mask::{permitted_by, vector_mask_entries, vector_mask_extent, VectorMask};
use crate::operators::options::OperatorOptions;
use crate::operators::write_rule::{write_vector, written};
use crate::util::{ElementIndex, ElementIndexSelector};
use crate::value_types::sparse_matrix::size::Size;
use crate::value_types::sparse_matrix::sparse_matrix::{
    operand_entries, operand_shape, SparseMatrix,
};
use crate::value_types::sparse_vector::sparse_vector::{column_entries, SparseVector};
use crate::value_types::value_type::ValueType;

verus! {

/// The entries of the vector that a selection of rows takes out of one column of a
/// matrix: index i holds what the matrix holds in its row `rows[i]` and that column.
pub open spec fn column_extracted<T>(source: Map<(int, int), T>, rows: Seq<int>, column: int) -> Map<
    int,
    T,
> {
    Map::new(
        |place: int| 0 <= place < rows.len() && source.contains_key((rows[place], column)),
        |place: int| source[(rows[place], column)],
    )
}

/// Why the extraction of a column is refused, if it is. `source` is the shape of the
/// matrix that is read, transposed already where the options say so. A selection
/// that has not the length of the result is a `DimensionMismatch`; after that, a
/// selected row or the column outside the matrix is an `IndexOutOfBounds`; after
/// that, a mask of another length than the result is a `ShapeMismatch`.
pub open spec fn column_extraction_refusal(
    source: Size,
    rows: ElementIndexSelector,
    column: usize,
    column_vector: usize,
    mask: Option<usize>,
) -> Option<SparseLinearAlgebraError> {
    if rows.resolved(source.row_height).len() != column_vector {
        Some(SparseLinearAlgebraError::DimensionMismatch)
    } else if !rows.fits(source.row_height) || column >= source.column_width {
        Some(SparseLinearAlgebraError::IndexOutOfBounds)
    } else if mask is Some && mask != Some(column_vector) {
        Some(SparseLinearAlgebraError::ShapeMismatch)
    } else {
        None
    }
}

/// What the extraction of a column leaves behind. A refused call leaves the result as
/// it was; else what was extracted is written into it through the mask and the
/// accumulator.
pub open spec fn column_extraction_made<T: ValueType>(
    accumulator: Option<BinaryOperatorType>,
    options: OperatorOptions,
    permitted: Set<int>,
    mask_extent: Option<usize>,
    matrix_to_extract_from: SparseMatrix<T>,
    column_index_to_extract: usize,
    rows: ElementIndexSelector,
    before: SparseVector<T>,
    after: SparseVector<T>,
    outcome: Result<(), SparseLinearAlgebraError>,
) -> bool {
    let shape = operand_shape(matrix_to_extract_from.shape(), options.transpose_first_input);
    &&& after.extent() == before.extent()
    &&& match column_extraction_refusal(
        shape,
        rows,
        column_index_to_extract,
        before.extent(),
        mask_extent,
    ) {
        Some(error) => outcome == Err::<(), SparseLinearAlgebraError>(error) && after@ == before@,
        None => outcome is Ok && after@ == written(
            before@,
            column_extracted(
                operand_entries(matrix_to_extract_from@, options.transpose_first_input),
                rows.resolved(shape.row_height),
                column_index_to_extract as int,
            ),
            permitted,
            accumulator,
            options.clear_result_before_write,
        ),
    }
}

/// Takes a selection of rows out of one column of a matrix and writes it into a vector
/// through a mask and an accumulator.
pub(crate) fn extract_column_into<T: ValueType, M: ValueType>(
    accumulator: Option<BinaryOperatorType>,
    options: &OperatorOptions,
    mask: Option<&SparseVector<M>>,
    by_value: bool,
    matrix_to_extract_from: &SparseMatrix<T>,
    column_index_to_extract: &ElementIndex,
    indices_to_extract: &ElementIndexSelector,
    column_vector: &mut SparseVector<T>,
) -> (outcome: Result<(), SparseLinearAlgebraError>)
    ensures
        column_extraction_made(
            accumulator,
            *options,
            permitted_by(vector_mask_entries(mask), by_value),
            vector_mask_extent(mask),
            *matrix_to_extract_from,
            *column_index_to_extract,
            *indices_to_extract,
            *old(column_vector),
            *final(column_vector),
            outcome,
        ),
{
    let turned = if options.transpose_first_input {
        Some(matrix_to_extract_from.transposed())
    } else {
        None
    };
    let source: &SparseMatrix<T> = match &turned {
        Some(matrix) => matrix,
        None => matrix_to_extract_from,
    };
    if indices_to_extract.number_of_selected_elements(source.row_height())
        != column_vector.length() {
        return Err(SparseLinearAlgebraError::DimensionMismatch);
    }
    if !indices_to_extract.is_inside(source.row_height()) || *column_index_to_extract
        >= source.column_width() {
        return Err(SparseLinearAlgebraError::IndexOutOfBounds);
    }
    match mask {
        Some(mask_vector) => {
            if mask_vector.length() != column_vector.length() {
                return Err(SparseLinearAlgebraError::ShapeMismatch);
            }
        },
        None => {},
    }
    let mut columns: Vec<ElementIndex> = Vec::new();
    columns.push(*column_index_to_extract);
    let one_column = ElementIndexSelector::Index(&columns);
    assert(one_column.resolved(source.shape().column_width) =~= seq![
        *column_index_to_extract as int,
    ]);
    assert(one_column.resolved(source.shape().column_width)[0] == *column_index_to_extract);
    let selected = extract(source, indices_to_extract, &one_column);
    assert(column_entries(selected@) =~= column_extracted(
        source@,
        indices_to_extract.resolved(source.shape().row_height),
        *column_index_to_extract as int,
    ));
    let selected = SparseVector::from_column(selected);
    write_vector(
        column_vector,
        &selected,
        mask,
        by_value,
        accumulator,
        options.clear_result_before_write,
    );
    Ok(())
}

/// Extraction of a column of a matrix into a vector.
#[derive(Debug)]
pub struct MatrixColumnExtractor<Matrix: ValueType, Column: ValueType> {
    _matrix: PhantomData<Matrix>,
    _column: PhantomData<Column>,
    accumulator: Option<BinaryOperatorType>,
    options: OperatorOptions,
}

impl<Matrix: ValueType, Column: ValueType> MatrixColumnExtractor<Matrix, Column> {
    /// The operator that combines what the result holds with what was extracted, if
    /// there is one.
    pub closed spec fn accumulator(&self) -> Option<BinaryOperatorType> {
        self.accumulator
    }

    pub closed spec fn options(&self) -> OperatorOptions {
        self.options
    }

    pub fn new(
        options: &OperatorOptions,
        accumulator: Option<&dyn BinaryOperator<Column, Column, Column>>,
    ) -> (extractor: Self)
        ensures
            extractor.options() == *options,
            extractor.accumulator() == accumulator_type(accumulator),
    {
        Self {
            accumulator: resolve_accumulator(accumulator),
            options: *options,
            _matrix: PhantomData,
            _column: PhantomData,
        }
    }
}

impl<T: ValueType> MatrixColumnExtractor<T, T> {
    /// Writes the selected rows of one column of a matrix into `column_vector`, every
    /// index permitted. The selection must have the length of `column_vector`.
    pub fn apply(
        &self,
        matrix_to_extract_from: &SparseMatrix<T>,
        column_index_to_extract: &ElementIndex,
        indices_to_extract: &ElementIndexSelector,
        column_vector: &mut SparseVector<T>,
    ) -> (outcome: Result<(), SparseLinearAlgebraError>)
        ensures
            column_extraction_made(
                self.accumulator(),
                self.options(),
                Set::full(),
                None,
                *matrix_to_extract_from,
                *column_index_to_extract,
                *indices_to_extract,
                *old(column_vector),
                *final(column_vector),
                outcome,
            ),
    {
        extract_column_into::<T, T>(
            self.accumulator,
            &self.options,
            None,
            false,
            matrix_to_extract_from,
            column_index_to_extract,
            indices_to_extract,
            column_vector,
        )
    }

    /// Writes the selected rows of one column of a matrix into the indices of
    /// `column_vector` that the mask permits.
    pub fn apply_with_mask<MaskValueType: ValueType>(
        &self,
        matrix_to_extract_from: &SparseMatrix<T>,
        column_index_to_extract: &ElementIndex,
        indices_to_extract: &ElementIndexSelector,
        column_vector: &mut SparseVector<T>,
        mask: &VectorMask<MaskValueType>,
    ) -> (outcome: Result<(), SparseLinearAlgebraError>)
        ensures
            column_extraction_made(
                self.accumulator(),
                self.options(),
                mask.permitted(),
                mask.extent(),
                *matrix_to_extract_from,
                *column_index_to_extract,
                *indices_to_extract,
                *old(column_vector),
                *final(column_vector),
                outcome,
            ),
    {
        extract_column_into(
            self.accumulator,
            &self.options,
            mask.vector(),
            mask.is_by_value(),
            matrix_to_extract_from,
            column_index_to_extract,
            indices_to_extract,
            column_vector,
        )
    }
}

} // verus!
