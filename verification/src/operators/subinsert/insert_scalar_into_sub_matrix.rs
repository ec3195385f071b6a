use vstd::prelude::*;
use std::marker::PhantomData;
use crate::error::SparseLinearAlgebraError;
use crate::operators::binary_operator::{BinaryOperator, BinaryOperatorType};
use crate::operators::insert::scalar_insertion::{scalar_inserted, write_scalar_at};
use crate::operators::mask::{mask_entries, mask_shape, permitted_by, MatrixMask};
use crate::operators::options::OperatorOptions;
use crate::operators::write_rule::{lemma_named_before_all, lemma_named_before_step, named_before};
use crate::util::ElementIndexSelector;
use crate::value_types::sparse_matrix::coordinate::Coordinate;
use crate::value_types::sparse_matrix::element::MatrixElement;
use crate::value_types::sparse_matrix::size::Size;
use crate::value_types::sparse_matrix::sparse_matrix::{lists_entries_of, SparseMatrix};
use crate::value_types::value_type::ValueType;

verus! {

/// Whether a place of the selected sub-matrix names a position of the matrix: the
/// place lies in the selection, and the row and the column selected there are those
/// of the position.
pub open spec fn names(
    rows: Seq<int>,
    columns: Seq<int>,
    place: (int, int),
    position: (int, int),
) -> bool {
    &&& 0 <= place.0 < rows.len()
    &&& 0 <= place.1 < columns.len()
    &&& rows[place.0] == position.0
    &&& columns[place.1] == position.1
}

/// The positions that an insertion into a sub-matrix writes: those that a place
/// names which the mask permits. The mask lies over the places of the sub-matrix,
/// not over the matrix. Where rows or columns are selected more than once, a
/// position is written if the mask permits any of its places.
pub open spec fn sub_matrix_insertion_targets(
    rows: Seq<int>,
    columns: Seq<int>,
    permitted: Set<(int, int)>,
) -> Set<(int, int)> {
    Set::new(
        |position: (int, int)|
            exists|place: (int, int)| #[trigger]
                names(rows, columns, place, position) && permitted.contains(place),
    )
}

/// The positions that an insertion into a sub-matrix empties unless it writes them:
/// none, or, where the result is to be cleared, those of the selected sub-matrix.
/// Outside the selected sub-matrix a position keeps what it held.
pub open spec fn sub_matrix_insertion_doomed(rows: Seq<int>, columns: Seq<int>, clear: bool) -> Set<
    (int, int),
> {
    if clear {
        Set::new(
            |position: (int, int)|
                exists|place: (int, int)| #[trigger] names(rows, columns, place, position),
        )
    } else {
        Set::empty()
    }
}

/// Why an insertion into a sub-matrix is refused, if it is: a selected index outside
/// the matrix is an `IndexOutOfBounds`; after that, a mask that has not the extent of
/// the selections is a `ShapeMismatch`.
pub open spec fn sub_matrix_insertion_refusal(
    rows: ElementIndexSelector,
    columns: ElementIndexSelector,
    matrix: Size,
    mask: Option<Size>,
) -> Option<SparseLinearAlgebraError> {
    if !rows.fits(matrix.row_height) || !columns.fits(matrix.column_width) {
        Some(SparseLinearAlgebraError::IndexOutOfBounds)
    } else if mask is Some && (mask->Some_0.row_height != rows.resolved(matrix.row_height).len()
        || mask->Some_0.column_width != columns.resolved(matrix.column_width).len()) {
        Some(SparseLinearAlgebraError::ShapeMismatch)
    } else {
        None
    }
}

/// What an insertion of a scalar into a sub-matrix leaves behind. A refused call
/// leaves the matrix as it was.
pub open spec fn sub_matrix_scalar_insertion_made<T: ValueType>(
    accumulator: Option<BinaryOperatorType>,
    options: OperatorOptions,
    permitted: Set<(int, int)>,
    mask_shape: Option<Size>,
    rows: ElementIndexSelector,
    columns: ElementIndexSelector,
    scalar: T,
    before: SparseMatrix<T>,
    after: SparseMatrix<T>,
    outcome: Result<(), SparseLinearAlgebraError>,
) -> bool {
    let selected_rows = rows.resolved(before.shape().row_height);
    let selected_columns = columns.resolved(before.shape().column_width);
    &&& after.shape() == before.shape()
    &&& match sub_matrix_insertion_refusal(rows, columns, before.shape(), mask_shape) {
        Some(error) => outcome == Err::<(), SparseLinearAlgebraError>(error) && after@ == before@,
        None => outcome is Ok && after@ == scalar_inserted(
            before@,
            sub_matrix_insertion_targets(
                selected_rows,
                selected_columns,
                permitted,
            ),
            sub_matrix_insertion_doomed(
                selected_rows,
                selected_columns,
                options.clear_result_before_write,
            ),
            scalar,
            accumulator,
        ),
    }
}

/// A matrix that holds the scalar at every position that a place of the selections
/// names.
pub(crate) fn every_selected_position<T: ValueType>(
    size: &Size,
    rows: &ElementIndexSelector,
    columns: &ElementIndexSelector,
    scalar: &T,
) -> (targets: SparseMatrix<T>)
    requires
        rows.fits(size.row_height),
        columns.fits(size.column_width),
    ensures
        targets.shape() == *size,
        forall|position: (int, int)| #[trigger]
            targets@.contains_key(position) ==> targets@[position] == *scalar,
        targets@.dom() == sub_matrix_insertion_targets(
            rows.resolved(size.row_height),
            columns.resolved(size.column_width),
            Set::full(),
        ),
{
    let ghost selected_rows = rows.resolved(size.row_height);
    let ghost selected_columns = columns.resolved(size.column_width);
    let row_count = rows.number_of_selected_elements(size.row_height);
    let column_count = columns.number_of_selected_elements(size.column_width);
    let mut targets = SparseMatrix::<T>::new(size);
    let mut i: usize = 0;
    while i < row_count
        invariant
            i <= row_count,
            row_count == selected_rows.len(),
            column_count == selected_columns.len(),
            selected_rows == rows.resolved(size.row_height),
            selected_columns == columns.resolved(size.column_width),
            rows.fits(size.row_height),
            columns.fits(size.column_width),
            targets.shape() == *size,
            forall|position: (int, int)| #[trigger]
                targets@.contains_key(position) ==> targets@[position] == *scalar,
            forall|position: (int, int)|
                #[trigger] targets@.contains_key(position) <==> exists|place: (int, int)|
                    place.0 < i && #[trigger] names(selected_rows, selected_columns, place, position),
        decreases row_count - i,
    {
        let row_index = rows.index_at(size.row_height, i);
        assert(0 <= selected_rows[i as int] < size.row_height);
        let mut j: usize = 0;
        while j < column_count
            invariant
                j <= column_count,
                i < row_count,
                row_count == selected_rows.len(),
                column_count == selected_columns.len(),
                selected_rows == rows.resolved(size.row_height),
                selected_columns == columns.resolved(size.column_width),
                columns.fits(size.column_width),
                row_index == selected_rows[i as int],
                row_index < size.row_height,
                targets.shape() == *size,
                forall|position: (int, int)| #[trigger]
                    targets@.contains_key(position) ==> targets@[position] == *scalar,
                forall|position: (int, int)|
                    #[trigger] targets@.contains_key(position) <==> exists|place: (int, int)|
                        (place.0 < i || (place.0 == i && place.1 < j)) && #[trigger] names(
                            selected_rows,
                            selected_columns,
                            place,
                            position,
                        ),
            decreases column_count - j,
        {
            let column_index = columns.index_at(size.column_width, j);
            assert(0 <= selected_columns[j as int] < size.column_width);
            let ghost before = targets@;
            targets.store(
                MatrixElement { coordinate: Coordinate { row_index, column_index }, value: *scalar },
            );
            proof {
                assert forall|position: (int, int)|
                    #[trigger] targets@.contains_key(position) <==> exists|place: (int, int)|
                        (place.0 < i || (place.0 == i && place.1 < j + 1)) && #[trigger] names(
                            selected_rows,
                            selected_columns,
                            place,
                            position,
                        ) by {
                    if targets@.contains_key(position) {
                        if before.contains_key(position) {
                            let place = choose|place: (int, int)|
                                (place.0 < i || (place.0 == i && place.1 < j)) && #[trigger] names(
                                    selected_rows,
                                    selected_columns,
                                    place,
                                    position,
                                );
                            assert((place.0 < i || (place.0 == i && place.1 < j + 1)) && names(
                                selected_rows,
                                selected_columns,
                                place,
                                position,
                            ));
                        } else {
                            assert(names(
                                selected_rows,
                                selected_columns,
                                (i as int, j as int),
                                position,
                            ));
                        }
                    }
                    if exists|place: (int, int)|
                        (place.0 < i || (place.0 == i && place.1 < j + 1)) && #[trigger] names(
                            selected_rows,
                            selected_columns,
                            place,
                            position,
                        ) {
                        let place = choose|place: (int, int)|
                            (place.0 < i || (place.0 == i && place.1 < j + 1)) && #[trigger] names(
                                selected_rows,
                                selected_columns,
                                place,
                                position,
                            );
                        if place.0 < i || (place.0 == i && place.1 < j) {
                            assert(before.contains_key(position));
                        }
                    }
                }
            }
            j = j + 1;
        }
        proof {
            assert forall|position: (int, int)|
                #[trigger] targets@.contains_key(position) <==> exists|place: (int, int)|
                    place.0 < i + 1 && #[trigger] names(
                        selected_rows,
                        selected_columns,
                        place,
                        position,
                    ) by {
                if targets@.contains_key(position) {
                    let place = choose|place: (int, int)|
                        (place.0 < i || (place.0 == i && place.1 < j)) && #[trigger] names(
                            selected_rows,
                            selected_columns,
                            place,
                            position,
                        );
                    assert(place.0 < i + 1 && names(selected_rows, selected_columns, place, position));
                }
                if exists|place: (int, int)|
                    place.0 < i + 1 && #[trigger] names(
                        selected_rows,
                        selected_columns,
                        place,
                        position,
                    ) {
                    let place = choose|place: (int, int)|
                        place.0 < i + 1 && #[trigger] names(
                            selected_rows,
                            selected_columns,
                            place,
                            position,
                        );
                    assert((place.0 < i || (place.0 == i && place.1 < j)) && names(
                        selected_rows,
                        selected_columns,
                        place,
                        position,
                    ));
                }
            }
        }
        i = i + 1;
    }
    proof {
        let wanted = sub_matrix_insertion_targets(selected_rows, selected_columns, Set::full());
        assert forall|position: (int, int)| targets@.dom().contains(position) <==> wanted.contains(
            position,
        ) by {
            if targets@.contains_key(position) {
                let place = choose|place: (int, int)|
                    place.0 < i && #[trigger] names(selected_rows, selected_columns, place, position);
                assert(names(selected_rows, selected_columns, place, position) && Set::<
                    (int, int),
                >::full().contains(place));
            }
            if wanted.contains(position) {
                let place = choose|place: (int, int)| #[trigger]
                    names(selected_rows, selected_columns, place, position) && Set::<
                        (int, int),
                    >::full().contains(place);
                assert(place.0 < i && names(selected_rows, selected_columns, place, position));
            }
        }
        assert(targets@.dom() =~= wanted);
    }
    targets
}

/// A matrix that holds the scalar at every position that a place names which the
/// mask permits.
fn every_permitted_position<T: ValueType, M: ValueType>(
    size: &Size,
    rows: &ElementIndexSelector,
    columns: &ElementIndexSelector,
    mask: &SparseMatrix<M>,
    by_value: bool,
    scalar: &T,
) -> (targets: SparseMatrix<T>)
    requires
        rows.fits(size.row_height),
        columns.fits(size.column_width),
        mask.shape().row_height == rows.resolved(size.row_height).len(),
        mask.shape().column_width == columns.resolved(size.column_width).len(),
    ensures
        targets.shape() == *size,
        forall|position: (int, int)| #[trigger]
            targets@.contains_key(position) ==> targets@[position] == *scalar,
        targets@.dom() == sub_matrix_insertion_targets(
            rows.resolved(size.row_height),
            columns.resolved(size.column_width),
            permitted_by(Some(mask@), by_value),
        ),
{
    let ghost selected_rows = rows.resolved(size.row_height);
    let ghost selected_columns = columns.resolved(size.column_width);
    let ghost permitted = permitted_by(Some(mask@), by_value);
    let mut targets = SparseMatrix::<T>::new(size);
    let places = mask.elements();
    let mut k: usize = 0;
    while k < places.len()
        invariant
            k <= places@.len(),
            selected_rows == rows.resolved(size.row_height),
            selected_columns == columns.resolved(size.column_width),
            rows.fits(size.row_height),
            columns.fits(size.column_width),
            mask.shape().row_height == selected_rows.len(),
            mask.shape().column_width == selected_columns.len(),
            permitted == permitted_by(Some(mask@), by_value),
            lists_entries_of(places@, mask@),
            forall|position: (int, int)| #[trigger]
                mask@.contains_key(position) ==> mask.shape().holds(position),
            targets.shape() == *size,
            forall|position: (int, int)| #[trigger]
                targets@.contains_key(position) ==> targets@[position] == *scalar,
            forall|position: (int, int)|
                #[trigger] targets@.contains_key(position) <==> exists|n: int|
                    0 <= n < k && permitted.contains(places@[n].position()) && #[trigger] names(
                        selected_rows,
                        selected_columns,
                        places@[n].position(),
                        position,
                    ),
        decreases places@.len() - k,
    {
        let place = &places[k];
        let ghost before = targets@;
        proof {
            assert(mask@.contains_pair(places@[k as int].position(), place.value));
        }
        if !by_value || place.value.as_boolean() {
            let row_index = rows.index_at(size.row_height, place.coordinate.row_index);
            let column_index = columns.index_at(size.column_width, place.coordinate.column_index);
            assert(0 <= selected_rows[place.coordinate.row_index as int] < size.row_height);
            assert(0 <= selected_columns[place.coordinate.column_index as int] < size.column_width);
            targets.store(
                MatrixElement { coordinate: Coordinate { row_index, column_index }, value: *scalar },
            );
        }
        proof {
            assert forall|position: (int, int)|
                #[trigger] targets@.contains_key(position) <==> exists|n: int|
                    0 <= n < k + 1 && permitted.contains(places@[n].position()) && #[trigger] names(
                        selected_rows,
                        selected_columns,
                        places@[n].position(),
                        position,
                    ) by {
                if targets@.contains_key(position) {
                    if before.contains_key(position) {
                        let n = choose|n: int|
                            0 <= n < k && permitted.contains(places@[n].position())
                                && #[trigger] names(
                                selected_rows,
                                selected_columns,
                                places@[n].position(),
                                position,
                            );
                        assert(0 <= n < k + 1);
                    } else {
                        assert(names(
                            selected_rows,
                            selected_columns,
                            places@[k as int].position(),
                            position,
                        ));
                    }
                }
                if exists|n: int|
                    0 <= n < k + 1 && permitted.contains(places@[n].position()) && #[trigger] names(
                        selected_rows,
                        selected_columns,
                        places@[n].position(),
                        position,
                    ) {
                    let n = choose|n: int|
                        0 <= n < k + 1 && permitted.contains(places@[n].position())
                            && #[trigger] names(
                            selected_rows,
                            selected_columns,
                            places@[n].position(),
                            position,
                        );
                    if n < k {
                        assert(before.contains_key(position));
                    }
                }
            }
        }
        k = k + 1;
    }
    proof {
        let wanted = sub_matrix_insertion_targets(selected_rows, selected_columns, permitted);
        assert forall|position: (int, int)| targets@.dom().contains(position) <==> wanted.contains(
            position,
        ) by {
            if targets@.contains_key(position) {
                let n = choose|n: int|
                    0 <= n < k && permitted.contains(places@[n].position()) && #[trigger] names(
                        selected_rows,
                        selected_columns,
                        places@[n].position(),
                        position,
                    );
                assert(names(selected_rows, selected_columns, places@[n].position(), position)
                    && permitted.contains(places@[n].position()));
            }
            if wanted.contains(position) {
                let place = choose|place: (int, int)| #[trigger]
                    names(selected_rows, selected_columns, place, position) && permitted.contains(
                        place,
                    );
                assert(mask@.contains_key(place));
                let n = choose|n: int| 0 <= n < places@.len() && #[trigger] places@[n].position() == place;
                assert(names(selected_rows, selected_columns, places@[n].position(), position));
            }
        }
        assert(targets@.dom() =~= wanted);
    }
    targets
}

/// Empties the stored positions of the selected sub-matrix that are no targets.
fn drop_unwritten<T: ValueType>(
    result: &mut SparseMatrix<T>,
    rows: &ElementIndexSelector,
    columns: &ElementIndexSelector,
    targets: &SparseMatrix<T>,
)
    ensures
        final(result).shape() == old(result).shape(),
        final(result)@ == old(result)@.remove_keys(
            sub_matrix_insertion_doomed(
                rows.resolved(old(result).shape().row_height),
                columns.resolved(old(result).shape().column_width),
                true,
            ) - targets@.dom(),
        ),
{
    let ghost held = result@;
    let size = result.size();
    let ghost doomed = sub_matrix_insertion_doomed(
        rows.resolved(size.row_height),
        columns.resolved(size.column_width),
        true,
    ) - targets@.dom();
    let kept = result.clone();
    let elements = kept.elements();
    proof {
        lemma_named_before_all(elements@, held);
        assert(result@ =~= held.remove_keys(named_before(elements@, 0) * doomed));
    }
    let mut k: usize = 0;
    while k < elements.len()
        invariant
            k <= elements@.len(),
            result.shape() == size,
            size == old(result).shape(),
            held == old(result)@,
            lists_entries_of(elements@, held),
            doomed == sub_matrix_insertion_doomed(
                rows.resolved(size.row_height),
                columns.resolved(size.column_width),
                true,
            ) - targets@.dom(),
            result@ == held.remove_keys(named_before(elements@, k as int) * doomed),
        decreases elements@.len() - k,
    {
        let element = &elements[k];
        let ghost position = element.position();
        let in_rows = rows.is_selected(size.row_height, element.coordinate.row_index);
        let in_columns = columns.is_selected(size.column_width, element.coordinate.column_index);
        let written = targets.get_element(&element.coordinate).is_some();
        proof {
            lemma_named_before_step(elements@, k as int);
            let selected_rows = rows.resolved(size.row_height);
            let selected_columns = columns.resolved(size.column_width);
            if in_rows && in_columns {
                let i = choose|i: int| 0 <= i < selected_rows.len() && #[trigger] selected_rows[i] == position.0;
                let j = choose|j: int|
                    0 <= j < selected_columns.len() && #[trigger] selected_columns[j] == position.1;
                assert(names(selected_rows, selected_columns, (i, j), position));
            }
            if exists|place: (int, int)| #[trigger]
                names(selected_rows, selected_columns, place, position) {
                let place = choose|place: (int, int)| #[trigger]
                    names(selected_rows, selected_columns, place, position);
                assert(selected_rows[place.0] == position.0);
                assert(selected_columns[place.1] == position.1);
            }
            assert(doomed.contains(position) <==> in_rows && in_columns && !written);
        }
        if in_rows && in_columns && !written {
            result.drop_element(&element.coordinate);
            assert(result@ =~= held.remove_keys(named_before(elements@, k + 1) * doomed));
        } else {
            assert(result@ =~= held.remove_keys(named_before(elements@, k + 1) * doomed));
        }
        k = k + 1;
    }
    assert(result@ =~= held.remove_keys(doomed));
}

/// Inserts a scalar at the positions of a matrix that the selected rows and columns
/// name, through a mask and an accumulator. The mask and the clearing apply to the
/// selected sub-matrix only.
pub(crate) fn insert_scalar_into_sub_matrix<T: ValueType, M: ValueType>(
    accumulator: Option<BinaryOperatorType>,
    options: &OperatorOptions,
    mask: Option<&SparseMatrix<M>>,
    by_value: bool,
    matrix_to_insert_into: &mut SparseMatrix<T>,
    rows_to_insert_into: &ElementIndexSelector,
    columns_to_insert_into: &ElementIndexSelector,
    scalar_to_insert: &T,
) -> (outcome: Result<(), SparseLinearAlgebraError>)
    ensures
        sub_matrix_scalar_insertion_made(
            accumulator,
            *options,
            permitted_by(mask_entries(mask), by_value),
            mask_shape(mask),
            *rows_to_insert_into,
            *columns_to_insert_into,
            *scalar_to_insert,
            *old(matrix_to_insert_into),
            *final(matrix_to_insert_into),
            outcome,
        ),
{
    let size = matrix_to_insert_into.size();
    if !rows_to_insert_into.is_inside(size.row_height) || !columns_to_insert_into.is_inside(
        size.column_width,
    ) {
        return Err(SparseLinearAlgebraError::IndexOutOfBounds);
    }
    let ghost selected_rows = rows_to_insert_into.resolved(size.row_height);
    let ghost selected_columns = columns_to_insert_into.resolved(size.column_width);
    let targets = match mask {
        Some(mask_matrix) => {
            if mask_matrix.row_height() != rows_to_insert_into.number_of_selected_elements(
                size.row_height,
            ) || mask_matrix.column_width() != columns_to_insert_into.number_of_selected_elements(
                size.column_width,
            ) {
                return Err(SparseLinearAlgebraError::ShapeMismatch);
            }
            every_permitted_position(
                &size,
                rows_to_insert_into,
                columns_to_insert_into,
                mask_matrix,
                by_value,
                scalar_to_insert,
            )
        },
        None => every_selected_position(
            &size,
            rows_to_insert_into,
            columns_to_insert_into,
            scalar_to_insert,
        ),
    };
    if options.clear_result_before_write {
        drop_unwritten(matrix_to_insert_into, rows_to_insert_into, columns_to_insert_into, &targets);
    }
    write_scalar_at(matrix_to_insert_into, &targets, scalar_to_insert, accumulator);
    proof {
        assert(matrix_to_insert_into@ =~= scalar_inserted(
            old(matrix_to_insert_into)@,
            sub_matrix_insertion_targets(
                selected_rows,
                selected_columns,
                permitted_by(mask_entries(mask), by_value),
            ),
            sub_matrix_insertion_doomed(
                selected_rows,
                selected_columns,
                options.clear_result_before_write,
            ),
            *scalar_to_insert,
            accumulator,
        ));
    }
    Ok(())
}

/// Insertion of a scalar into a sub-matrix.
#[derive(Debug)]
pub struct InsertScalarIntoSubMatrix<MatrixToInsertInto: ValueType, ScalarToInsert: ValueType> {
    _matrix_to_insert_into: PhantomData<MatrixToInsertInto>,
    _scalar_to_insert: PhantomData<ScalarToInsert>,
    accumulator: Option<BinaryOperatorType>,
    options: OperatorOptions,
}

impl<MatrixToInsertInto: ValueType, ScalarToInsert: ValueType> InsertScalarIntoSubMatrix<
    MatrixToInsertInto,
    ScalarToInsert,
> {
    /// The operator that combines what a position holds with the scalar, if there is
    /// one.
    pub closed spec fn accumulator(&self) -> Option<BinaryOperatorType> {
        self.accumulator
    }

    pub closed spec fn options(&self) -> OperatorOptions {
        self.options
    }

    pub fn new(
        options: &OperatorOptions,
        accumulator: Option<
            &dyn BinaryOperator<ScalarToInsert, MatrixToInsertInto, MatrixToInsertInto>,
        >,
    ) -> (operator: Self)
        ensures
            operator.options() == *options,
            operator.accumulator() == match accumulator {
                Some(accumulator) => Some(accumulator.operator_type()),
                None => None,
            },
    {
        let accumulator_to_use = match accumulator {
            Some(accumulator) => Some(accumulator.graphblas_type()),
            None => None,
        };
        Self {
            accumulator: accumulator_to_use,
            options: *options,
            _matrix_to_insert_into: PhantomData,
            _scalar_to_insert: PhantomData,
        }
    }
}

pub trait InsertScalarIntoSubMatrixTrait<MatrixToInsertInto: ValueType, ScalarToInsert: ValueType> {
    /// What an insertion leaves behind, where `permitted` is what the mask permits and
    /// `mask_shape` the shape of the mask, if there is one.
    spec fn inserts(
        &self,
        permitted: Set<(int, int)>,
        mask_shape: Option<Size>,
        rows_to_insert_into: ElementIndexSelector,
        columns_to_insert_into: ElementIndexSelector,
        scalar_to_insert: ScalarToInsert,
        before: SparseMatrix<MatrixToInsertInto>,
        after: SparseMatrix<MatrixToInsertInto>,
        outcome: Result<(), SparseLinearAlgebraError>,
    ) -> bool;

    /// Inserts the scalar at every position of the selected sub-matrix. The clearing
    /// applies to the selected sub-matrix only.
    fn apply(
        &self,
        matrix_to_insert_into: &mut SparseMatrix<MatrixToInsertInto>,
        rows_to_insert_into: &ElementIndexSelector,
        columns_to_insert_into: &ElementIndexSelector,
        scalar_to_insert: &ScalarToInsert,
    ) -> (outcome: Result<(), SparseLinearAlgebraError>)
        ensures
            self.inserts(
                Set::full(),
                None,
                *rows_to_insert_into,
                *columns_to_insert_into,
                *scalar_to_insert,
                *old(matrix_to_insert_into),
                *final(matrix_to_insert_into),
                outcome,
            ),
    ;

    /// Inserts the scalar at the positions of the selected sub-matrix whose places the
    /// mask permits. The mask and the clearing apply to the selected sub-matrix only;
    /// the mask has as many rows and columns as are selected.
    fn apply_with_mask<MaskValueType: ValueType>(
        &self,
        matrix_to_insert_into: &mut SparseMatrix<MatrixToInsertInto>,
        rows_to_insert_into: &ElementIndexSelector,
        columns_to_insert_into: &ElementIndexSelector,
        scalar_to_insert: &ScalarToInsert,
        mask_for_matrix_to_insert_into: &MatrixMask<MaskValueType>,
    ) -> (outcome: Result<(), SparseLinearAlgebraError>)
        ensures
            self.inserts(
                mask_for_matrix_to_insert_into.permitted(),
                mask_for_matrix_to_insert_into.shape(),
                *rows_to_insert_into,
                *columns_to_insert_into,
                *scalar_to_insert,
                *old(matrix_to_insert_into),
                *final(matrix_to_insert_into),
                outcome,
            ),
    ;
}

impl<T: ValueType> InsertScalarIntoSubMatrixTrait<T, T> for InsertScalarIntoSubMatrix<T, T> {
    open spec fn inserts(
        &self,
        permitted: Set<(int, int)>,
        mask_shape: Option<Size>,
        rows_to_insert_into: ElementIndexSelector,
        columns_to_insert_into: ElementIndexSelector,
        scalar_to_insert: T,
        before: SparseMatrix<T>,
        after: SparseMatrix<T>,
        outcome: Result<(), SparseLinearAlgebraError>,
    ) -> bool {
        sub_matrix_scalar_insertion_made(
            self.accumulator(),
            self.options(),
            permitted,
            mask_shape,
            rows_to_insert_into,
            columns_to_insert_into,
            scalar_to_insert,
            before,
            after,
            outcome,
        )
    }

    fn apply(
        &self,
        matrix_to_insert_into: &mut SparseMatrix<T>,
        rows_to_insert_into: &ElementIndexSelector,
        columns_to_insert_into: &ElementIndexSelector,
        scalar_to_insert: &T,
    ) -> (outcome: Result<(), SparseLinearAlgebraError>) {
        insert_scalar_into_sub_matrix::<T, T>(
            self.accumulator,
            &self.options,
            None,
            false,
            matrix_to_insert_into,
            rows_to_insert_into,
            columns_to_insert_into,
            scalar_to_insert,
        )
    }

    fn apply_with_mask<MaskValueType: ValueType>(
        &self,
        matrix_to_insert_into: &mut SparseMatrix<T>,
        rows_to_insert_into: &ElementIndexSelector,
        columns_to_insert_into: &ElementIndexSelector,
        scalar_to_insert: &T,
        mask_for_matrix_to_insert_into: &MatrixMask<MaskValueType>,
    ) -> (outcome: Result<(), SparseLinearAlgebraError>) {
        insert_scalar_into_sub_matrix(
            self.accumulator,
            &self.options,
            mask_for_matrix_to_insert_into.matrix(),
            mask_for_matrix_to_insert_into.is_by_value(),
            matrix_to_insert_into,
            rows_to_insert_into,
            columns_to_insert_into,
            scalar_to_insert,
        )
    }
}

} // verus!
