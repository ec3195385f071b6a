use vstd::prelude::*;
use std::marker::PhantomData;
use crate::error::SparseLinearAlgebraError;
use crate::operators::binary_operator::{
    accumulator_type, resolve_accumulator, BinaryOperator, BinaryOperatorType,
};
use crate::operators::mask::{mask_entries, mask_shape, permitted_by, MatrixMask};
use crate::operators::options::OperatorOptions;
use crate::operators::write_rule::{
    lemma_named_before_all, lemma_named_before_step, named_before, write_matrix, written,
};
use crate::util::ElementIndexSelector;
use crate::value_types::sparse_matrix::coordinate::Coordinate;
use crate::value_types::sparse_matrix::element::MatrixElement;
use crate::value_types::sparse_matrix::size::Size;
use crate::value_types::sparse_matrix::sparse_matrix::{
    lists_entries_of, operand_entries, operand_shape, transpose_of, SparseMatrix,
};
use crate::value_types::value_type::ValueType;

verus! {

/// The entries of the sub-matrix that a selection of rows and a selection of columns
/// take out of a matrix: position (i, j) holds what the source holds in its row
/// `rows[i]` and its column `columns[j]`, and is empty where the source is. An index
/// that is selected more than once is copied to each of its places.
pub open spec fn extracted<T>(source: Map<(int, int), T>, rows: Seq<int>, columns: Seq<int>) -> Map<
    (int, int),
    T,
> {
    Map::new(
        |position: (int, int)|
            0 <= position.0 < rows.len() && 0 <= position.1 < columns.len() && source.contains_key(
                (rows[position.0], columns[position.1]),
            ),
        |position: (int, int)| source[(rows[position.0], columns[position.1])],
    )
}

/// The entries of a selection of rows of a matrix, each with all its columns.
pub(crate) open spec fn rows_gathered<T>(
    source: Map<(int, int), T>,
    rows: Seq<int>,
) -> Map<(int, int), T> {
    Map::new(
        |position: (int, int)|
            0 <= position.0 < rows.len() && source.contains_key((rows[position.0], position.1)),
        |position: (int, int)| source[(rows[position.0], position.1)],
    )
}

/// To select columns is to select rows of the transposed matrix.
pub(crate) proof fn lemma_extraction_by_rows<T>(source: Map<(int, int), T>, rows: Seq<int>, columns: Seq<int>)
    ensures
        transpose_of(rows_gathered(transpose_of(rows_gathered(source, rows)), columns)) == extracted(
            source,
            rows,
            columns,
        ),
{
    assert(transpose_of(rows_gathered(transpose_of(rows_gathered(source, rows)), columns))
        =~= extracted(source, rows, columns));
}

/// The places of a gathered matrix that the first `n` elements of the source fill.
spec fn filled_before<T: ValueType>(elements: Seq<MatrixElement<T>>, n: int, rows: Seq<int>) -> Set<
    (int, int),
> {
    Set::new(
        |position: (int, int)|
            0 <= position.0 < rows.len() && named_before(elements, n).contains(
                (rows[position.0], position.1),
            ),
    )
}

/// The places in one column that the first `n` of a list of rows name.
spec fn column_places(places: Seq<usize>, n: int, column: int) -> Set<(int, int)> {
    Set::new(
        |position: (int, int)|
            position.1 == column && exists|b: int| 0 <= b < n && #[trigger] places[b] == position.0,
    )
}

/// Takes a selection of rows out of a matrix.
pub(crate) fn gather_rows<T: ValueType>(
    source: &SparseMatrix<T>,
    rows: &ElementIndexSelector,
) -> (gathered: SparseMatrix<T>)
    requires
        rows.fits(source.shape().row_height),
    ensures
        gathered.shape().row_height == rows.resolved(source.shape().row_height).len(),
        gathered.shape().column_width == source.shape().column_width,
        gathered@ == rows_gathered(source@, rows.resolved(source.shape().row_height)),
{
    let height = source.row_height();
    let ghost selected = rows.resolved(height);
    let ghost target = rows_gathered(source@, selected);
    let size = Size {
        row_height: rows.number_of_selected_elements(height),
        column_width: source.column_width(),
    };
    let mut gathered = SparseMatrix::<T>::new(&size);
    let elements = source.elements();
    proof {
        lemma_named_before_all(elements@, source@);
        assert(gathered@ =~= target.restrict(filled_before(elements@, 0, selected)));
    }
    let mut k: usize = 0;
    while k < elements.len()
        invariant
            k <= elements@.len(),
            gathered.shape() == size,
            size.row_height == selected.len(),
            size.column_width == source.shape().column_width,
            height == source.shape().row_height,
            selected == rows.resolved(height),
            target == rows_gathered(source@, selected),
            lists_entries_of(elements@, source@),
            forall|position: (int, int)| #[trigger]
                source@.contains_key(position) ==> source.shape().holds(position),
            gathered@ == target.restrict(filled_before(elements@, k as int, selected)),
        decreases elements@.len() - k,
    {
        let element = &elements[k];
        proof {
            assert(source@.contains_pair(elements@[k as int].position(), element.value));
            lemma_named_before_step(elements@, k as int);
        }
        let places = rows.places_of(height, element.coordinate.row_index);
        let ghost column = element.coordinate.column_index as int;
        let ghost filled = filled_before(elements@, k as int, selected);
        assert(gathered@ =~= target.restrict(filled + column_places(places@, 0, column)));
        let mut a: usize = 0;
        while a < places.len()
            invariant
                a <= places@.len(),
                gathered.shape() == size,
                size.row_height == selected.len(),
                size.column_width == source.shape().column_width,
                selected == rows.resolved(height),
                target == rows_gathered(source@, selected),
                0 <= k < elements@.len(),
                *element == elements@[k as int],
                column == element.coordinate.column_index,
                source@.contains_pair(element.position(), element.value),
                source.shape().holds(element.position()),
                forall|b: int|
                    0 <= b < places@.len() ==> 0 <= #[trigger] places@[b] < selected.len()
                        && selected[places@[b] as int] == element.coordinate.row_index,
                gathered@ == target.restrict(filled + column_places(places@, a as int, column)),
            decreases places@.len() - a,
        {
            let place = places[a];
            gathered.store(
                MatrixElement {
                    coordinate: Coordinate {
                        row_index: place,
                        column_index: element.coordinate.column_index,
                    },
                    value: element.value,
                },
            );
            proof {
                assert forall|position: (int, int)|
                    column_places(places@, a + 1, column).contains(position)
                        <==> column_places(places@, a as int, column).insert(
                        (place as int, column),
                    ).contains(position) by {
                    if column_places(places@, a + 1, column).contains(position) {
                        let b = choose|b: int| 0 <= b < a + 1 && #[trigger] places@[b] == position.0;
                        if b < a {
                            assert(column_places(places@, a as int, column).contains(position));
                        }
                    }
                    if column_places(places@, a as int, column).contains(position) {
                        let b = choose|b: int| 0 <= b < a && #[trigger] places@[b] == position.0;
                        assert(0 <= b < a + 1);
                    }
                    if position == (place as int, column) {
                        assert(places@[a as int] == position.0);
                    }
                }
                assert(column_places(places@, a + 1, column) =~= column_places(
                    places@,
                    a as int,
                    column,
                ).insert((place as int, column)));
                assert(gathered@ =~= target.restrict(
                    filled + column_places(places@, a + 1, column),
                ));
            }
            a = a + 1;
        }
        proof {
            let done = filled + column_places(places@, places@.len() as int, column);
            let next = filled_before(elements@, k + 1, selected);
            assert forall|position: (int, int)| done.contains(position) <==> next.contains(
                position,
            ) by {
                if column_places(places@, places@.len() as int, column).contains(position) {
                    let b = choose|b: int|
                        0 <= b < places@.len() && #[trigger] places@[b] == position.0;
                    assert(selected[places@[b] as int] == element.coordinate.row_index);
                }
                if next.contains(position) && !filled.contains(position) {
                    assert((selected[position.0], position.1) == element.position());
                    let b = choose|b: int|
                        0 <= b < places@.len() && #[trigger] places@[b] == position.0;
                }
            }
            assert(done =~= next);
        }
        k = k + 1;
    }
    proof {
        assert(gathered@ =~= target);
    }
    gathered
}

/// Takes a selection of rows and columns out of a matrix.
pub(crate) fn extract<T: ValueType>(
    source: &SparseMatrix<T>,
    rows: &ElementIndexSelector,
    columns: &ElementIndexSelector,
) -> (selected: SparseMatrix<T>)
    requires
        rows.fits(source.shape().row_height),
        columns.fits(source.shape().column_width),
    ensures
        selected.shape().row_height == rows.resolved(source.shape().row_height).len(),
        selected.shape().column_width == columns.resolved(source.shape().column_width).len(),
        selected@ == extracted(
            source@,
            rows.resolved(source.shape().row_height),
            columns.resolved(source.shape().column_width),
        ),
{
    let selected_rows = gather_rows(source, rows);
    let selected = gather_rows(&selected_rows.transposed(), columns).transposed();
    proof {
        lemma_extraction_by_rows(
            source@,
            rows.resolved(source.shape().row_height),
            columns.resolved(source.shape().column_width),
        );
    }
    selected
}

/// Why an extraction is refused, if it is. `source` is the shape of the matrix that is
/// read, transposed already where the options say so. Selections that do not have
/// the extent of the sub-matrix are a `DimensionMismatch`; after that, a selected
/// index outside the source is an `IndexOutOfBounds`; after that, a mask of another
/// shape than the sub-matrix is a `ShapeMismatch`.
pub open spec fn extraction_refusal(
    source: Size,
    rows: ElementIndexSelector,
    columns: ElementIndexSelector,
    sub_matrix: Size,
    mask: Option<Size>,
) -> Option<SparseLinearAlgebraError> {
    if rows.resolved(source.row_height).len() != sub_matrix.row_height || columns.resolved(
        source.column_width,
    ).len() != sub_matrix.column_width {
        Some(SparseLinearAlgebraError::DimensionMismatch)
    } else if !rows.fits(source.row_height) || !columns.fits(source.column_width) {
        Some(SparseLinearAlgebraError::IndexOutOfBounds)
    } else if mask is Some && mask != Some(sub_matrix) {
        Some(SparseLinearAlgebraError::ShapeMismatch)
    } else {
        None
    }
}

/// Takes a selection of rows and columns out of a matrix and writes it into a
/// sub-matrix through a mask and an accumulator. A refused call leaves the sub-matrix
/// as it was.
pub(crate) fn extract_into<T: ValueType, M: ValueType>(
    accumulator: Option<BinaryOperatorType>,
    options: &OperatorOptions,
    mask: Option<&SparseMatrix<M>>,
    by_value: bool,
    matrix_to_extract_from: &SparseMatrix<T>,
    rows_to_extract: &ElementIndexSelector,
    columns_to_extract: &ElementIndexSelector,
    sub_matrix: &mut SparseMatrix<T>,
) -> (outcome: Result<(), SparseLinearAlgebraError>)
    ensures
        final(sub_matrix).shape() == old(sub_matrix).shape(),
        match extraction_refusal(
            operand_shape(matrix_to_extract_from.shape(), options.transpose_first_input),
            *rows_to_extract,
            *columns_to_extract,
            old(sub_matrix).shape(),
            mask_shape(mask),
        ) {
            Some(error) => outcome == Err::<(), SparseLinearAlgebraError>(error) && final(sub_matrix)@
                == old(sub_matrix)@,
            None => outcome is Ok && final(sub_matrix)@ == written(
                old(sub_matrix)@,
                extracted(
                    operand_entries(matrix_to_extract_from@, options.transpose_first_input),
                    rows_to_extract.resolved(
                        operand_shape(
                            matrix_to_extract_from.shape(),
                            options.transpose_first_input,
                        ).row_height,
                    ),
                    columns_to_extract.resolved(
                        operand_shape(
                            matrix_to_extract_from.shape(),
                            options.transpose_first_input,
                        ).column_width,
                    ),
                ),
                permitted_by(mask_entries(mask), by_value),
                accumulator,
                options.clear_result_before_write,
            ),
        },
{
    let turned = if options.transpose_first_input {
        Some(matrix_to_extract_from.transposed())
    } else {
        None
    };
    let source: &SparseMatrix<T> = match &turned {
        Some(matrix) => matrix,
        None => matrix_to_extract_from,
    };
    let size = sub_matrix.size();
    if rows_to_extract.number_of_selected_elements(source.row_height()) != size.row_height
        || columns_to_extract.number_of_selected_elements(source.column_width())
        != size.column_width {
        return Err(SparseLinearAlgebraError::DimensionMismatch);
    }
    if !rows_to_extract.is_inside(source.row_height()) || !columns_to_extract.is_inside(
        source.column_width(),
    ) {
        return Err(SparseLinearAlgebraError::IndexOutOfBounds);
    }
    match mask {
        Some(mask_matrix) => {
            if !mask_matrix.has_shape(&size, false) {
                return Err(SparseLinearAlgebraError::ShapeMismatch);
            }
        },
        None => {},
    }
    let selected = extract(source, rows_to_extract, columns_to_extract);
    write_matrix(sub_matrix, &selected, mask, by_value, accumulator, options.clear_result_before_write);
    Ok(())
}

/// Extraction of a sub-matrix.
#[derive(Debug)]
pub struct SubMatrixExtractor<Matrix: ValueType, SubMatrix: ValueType> {
    _matrix: PhantomData<Matrix>,
    _sub_matrix: PhantomData<SubMatrix>,
    accumulator: Option<BinaryOperatorType>,
    options: OperatorOptions,
}

impl<Matrix: ValueType, SubMatrix: ValueType> SubMatrixExtractor<Matrix, SubMatrix> {
    /// The operator that combines what the sub-matrix holds with what was extracted,
    /// if there is one.
    pub closed spec fn accumulator(&self) -> Option<BinaryOperatorType> {
        self.accumulator
    }

    pub closed spec fn options(&self) -> OperatorOptions {
        self.options
    }

    pub fn new(
        options: &OperatorOptions,
        accumulator: Option<&dyn BinaryOperator<SubMatrix, SubMatrix, SubMatrix>>,
    ) -> (extractor: Self)
        ensures
            extractor.options() == *options,
            extractor.accumulator() == accumulator_type(accumulator),
    {
        Self {
            accumulator: resolve_accumulator(accumulator),
            options: *options,
            _matrix: PhantomData,
            _sub_matrix: PhantomData,
        }
    }
}

impl<T: ValueType> SubMatrixExtractor<T, T> {
    /// Writes the selected rows and columns of a matrix into `sub_matrix`, every
    /// position permitted. The selections must have the extent of `sub_matrix`.
    pub fn apply(
        &self,
        matrix_to_extract_from: &SparseMatrix<T>,
        rows_to_extract: &ElementIndexSelector,
        columns_to_extract: &ElementIndexSelector,
        sub_matrix: &mut SparseMatrix<T>,
    ) -> (outcome: Result<(), SparseLinearAlgebraError>)
        ensures
            final(sub_matrix).shape() == old(sub_matrix).shape(),
            match extraction_refusal(
                operand_shape(matrix_to_extract_from.shape(), self.options().transpose_first_input),
                *rows_to_extract,
                *columns_to_extract,
                old(sub_matrix).shape(),
                None,
            ) {
                Some(error) => outcome == Err::<(), SparseLinearAlgebraError>(error) && final(sub_matrix)@
                    == old(sub_matrix)@,
                None => outcome is Ok && final(sub_matrix)@ == written(
                    old(sub_matrix)@,
                    extracted(
                        operand_entries(matrix_to_extract_from@, self.options().transpose_first_input),
                        rows_to_extract.resolved(
                            operand_shape(
                                matrix_to_extract_from.shape(),
                                self.options().transpose_first_input,
                            ).row_height,
                        ),
                        columns_to_extract.resolved(
                            operand_shape(
                                matrix_to_extract_from.shape(),
                                self.options().transpose_first_input,
                            ).column_width,
                        ),
                    ),
                    Set::full(),
                    self.accumulator(),
                    self.options().clear_result_before_write,
                ),
            },
    {
        extract_into::<T, T>(
            self.accumulator,
            &self.options,
            None,
            false,
            matrix_to_extract_from,
            rows_to_extract,
            columns_to_extract,
            sub_matrix,
        )
    }

    /// Writes the selected rows and columns of a matrix into the positions of
    /// `sub_matrix` that the mask permits.
    pub fn apply_with_mask<MaskValueType: ValueType>(
        &self,
        matrix_to_extract_from: &SparseMatrix<T>,
        rows_to_extract: &ElementIndexSelector,
        columns_to_extract: &ElementIndexSelector,
        sub_matrix: &mut SparseMatrix<T>,
        mask: &MatrixMask<MaskValueType>,
    ) -> (outcome: Result<(), SparseLinearAlgebraError>)
        ensures
            final(sub_matrix).shape() == old(sub_matrix).shape(),
            match extraction_refusal(
                operand_shape(matrix_to_extract_from.shape(), self.options().transpose_first_input),
                *rows_to_extract,
                *columns_to_extract,
                old(sub_matrix).shape(),
                mask.shape(),
            ) {
                Some(error) => outcome == Err::<(), SparseLinearAlgebraError>(error) && final(sub_matrix)@
                    == old(sub_matrix)@,
                None => outcome is Ok && final(sub_matrix)@ == written(
                    old(sub_matrix)@,
                    extracted(
                        operand_entries(matrix_to_extract_from@, self.options().transpose_first_input),
                        rows_to_extract.resolved(
                            operand_shape(
                                matrix_to_extract_from.shape(),
                                self.options().transpose_first_input,
                            ).row_height,
                        ),
                        columns_to_extract.resolved(
                            operand_shape(
                                matrix_to_extract_from.shape(),
                                self.options().transpose_first_input,
                            ).column_width,
                        ),
                    ),
                    mask.permitted(),
                    self.accumulator(),
                    self.options().clear_result_before_write,
                ),
            },
    {
        extract_into(
            self.accumulator,
            &self.options,
            mask.matrix(),
            mask.is_by_value(),
            matrix_to_extract_from,
            rows_to_extract,
            columns_to_extract,
            sub_matrix,
        )
    }
}

} // verus!
