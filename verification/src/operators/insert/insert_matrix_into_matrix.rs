use vstd::prelude::*;
use std::marker::PhantomData;
use crate::error::SparseLinearAlgebraError;
use crate::operators::binary_operator::{BinaryOperator, BinaryOperatorType};
use crate::operators::extract::extract_sub_matrix::extracted;
use crate::operators::mask::{mask_entries, mask_shape, permitted_by, MatrixMask};
use crate::operators::options::OperatorOptions;
use crate::operators::write_rule::{
    lemma_named_before_all, lemma_named_before_step, named_before, write_matrix, write_value,
    written, written_value,
};
use crate::util::{is_last_place, last_place, lemma_last_place_is_one, ElementIndexSelector};
use crate::value_types::sparse_matrix::coordinate::Coordinate;
use crate::value_types::sparse_matrix::element::MatrixElement;
use crate::value_types::sparse_matrix::size::Size;
use crate::value_types::sparse_matrix::sparse_matrix::{lists_entries_of, SparseMatrix};
use crate::value_types::value_type::ValueType;

verus! {

/// Whether a position lies in the selected rows and columns.
pub open spec fn in_selection(rows: Seq<int>, columns: Seq<int>, position: (int, int)) -> bool {
    rows.contains(position.0) && columns.contains(position.1)
}

/// The place of the inserted matrix that is written to a position of the selection:
/// where a row or a column is selected more than once, the last of its places.
pub open spec fn place_for(rows: Seq<int>, columns: Seq<int>, position: (int, int)) -> (int, int) {
    (last_place(rows, position.0), last_place(columns, position.1))
}

/// What one position holds after the insertion of a matrix. Inside the selection the
/// inserted matrix is written to the position as an operation writes what it has
/// computed: without an accumulator its entry takes the place of the held one, so
/// that the position is emptied where the inserted matrix is empty; with an
/// accumulator the two are combined. Outside the selection nothing is written.
/// After that the mask decides: a position that it permits holds what was written;
/// one that it does not permit keeps what it held, or is emptied if the result is to
/// be cleared.
pub open spec fn matrix_inserted_value<T: ValueType>(
    held: Option<T>,
    selected: bool,
    incoming: Option<T>,
    permitted: bool,
    accumulator: Option<BinaryOperatorType>,
    clear: bool,
) -> Option<T> {
    if permitted {
        if selected {
            written_value(held, incoming, true, accumulator, false)
        } else {
            held
        }
    } else if clear {
        None
    } else {
        held
    }
}

/// The entries of a matrix after the insertion of another: position by position
/// what `matrix_inserted_value` says.
pub open spec fn matrix_inserted<T: ValueType>(
    held: Map<(int, int), T>,
    source: Map<(int, int), T>,
    rows: Seq<int>,
    columns: Seq<int>,
    permitted: Set<(int, int)>,
    accumulator: Option<BinaryOperatorType>,
    clear: bool,
) -> Map<(int, int), T> {
    Map::new(
        |position: (int, int)|
            matrix_inserted_value(
                held.get(position),
                in_selection(rows, columns, position),
                source.get(place_for(rows, columns, position)),
                permitted.contains(position),
                accumulator,
                clear,
            ) is Some,
        |position: (int, int)|
            matrix_inserted_value(
                held.get(position),
                in_selection(rows, columns, position),
                source.get(place_for(rows, columns, position)),
                permitted.contains(position),
                accumulator,
                clear,
            )->Some_0,
    )
}

/// Why the insertion of a matrix is refused, if it is: a matrix to insert that has not
/// the extent of the selections is a `DimensionMismatch`; after that, a selected
/// index outside the matrix to insert into is an `IndexOutOfBounds`; after that, a
/// mask of another shape than the matrix to insert into is a `ShapeMismatch`.
pub open spec fn matrix_insertion_refusal(
    rows: ElementIndexSelector,
    columns: ElementIndexSelector,
    matrix_to_insert_into: Size,
    matrix_to_insert: Size,
    mask: Option<Size>,
) -> Option<SparseLinearAlgebraError> {
    if rows.resolved(matrix_to_insert_into.row_height).len() != matrix_to_insert.row_height
        || columns.resolved(matrix_to_insert_into.column_width).len()
        != matrix_to_insert.column_width {
        Some(SparseLinearAlgebraError::DimensionMismatch)
    } else if !rows.fits(matrix_to_insert_into.row_height) || !columns.fits(
        matrix_to_insert_into.column_width,
    ) {
        Some(SparseLinearAlgebraError::IndexOutOfBounds)
    } else if mask is Some && mask != Some(matrix_to_insert_into) {
        Some(SparseLinearAlgebraError::ShapeMismatch)
    } else {
        None
    }
}

/// What the insertion of a matrix leaves behind. A refused call leaves the matrix as
/// it was.
pub open spec fn matrix_insertion_made<T: ValueType>(
    accumulator: Option<BinaryOperatorType>,
    options: OperatorOptions,
    permitted: Set<(int, int)>,
    mask_shape: Option<Size>,
    rows: ElementIndexSelector,
    columns: ElementIndexSelector,
    matrix_to_insert: SparseMatrix<T>,
    before: SparseMatrix<T>,
    after: SparseMatrix<T>,
    outcome: Result<(), SparseLinearAlgebraError>,
) -> bool {
    &&& after.shape() == before.shape()
    &&& match matrix_insertion_refusal(
        rows,
        columns,
        before.shape(),
        matrix_to_insert.shape(),
        mask_shape,
    ) {
        Some(error) => outcome == Err::<(), SparseLinearAlgebraError>(error) && after@ == before@,
        None => outcome is Ok && after@ == matrix_inserted(
            before@,
            matrix_to_insert@,
            rows.resolved(before.shape().row_height),
            columns.resolved(before.shape().column_width),
            permitted,
            accumulator,
            options.clear_result_before_write,
        ),
    }
}

/// What the selection of a matrix holds once the first `n` elements of the matrix to
/// insert have been written, and what the rest of the matrix holds.
spec fn partly_assigned<T: ValueType>(
    base: Map<(int, int), T>,
    held: Map<(int, int), T>,
    source: Map<(int, int), T>,
    elements: Seq<MatrixElement<T>>,
    n: int,
    rows: Seq<int>,
    columns: Seq<int>,
    accumulator: Option<BinaryOperatorType>,
    position: (int, int),
) -> Option<T> {
    if in_selection(rows, columns, position) && named_before(elements, n).contains(
        place_for(rows, columns, position),
    ) {
        written_value(
            held.get(position),
            source.get(place_for(rows, columns, position)),
            true,
            accumulator,
            false,
        )
    } else {
        base.get(position)
    }
}

/// Empties the stored positions of a matrix that lie in the selected rows and columns.
fn drop_selection<T: ValueType>(
    result: &mut SparseMatrix<T>,
    rows: &ElementIndexSelector,
    columns: &ElementIndexSelector,
)
    ensures
        final(result).shape() == old(result).shape(),
        final(result)@ == old(result)@.remove_keys(
            Set::new(
                |position: (int, int)|
                    in_selection(
                        rows.resolved(old(result).shape().row_height),
                        columns.resolved(old(result).shape().column_width),
                        position,
                    ),
            ),
        ),
{
    let ghost held = result@;
    let size = result.size();
    let ghost selection = Set::new(
        |position: (int, int)|
            in_selection(
                rows.resolved(size.row_height),
                columns.resolved(size.column_width),
                position,
            ),
    );
    let kept = result.clone();
    let elements = kept.elements();
    proof {
        lemma_named_before_all(elements@, held);
        assert(result@ =~= held.remove_keys(named_before(elements@, 0) * selection));
    }
    let mut k: usize = 0;
    while k < elements.len()
        invariant
            k <= elements@.len(),
            result.shape() == size,
            size == old(result).shape(),
            held == old(result)@,
            lists_entries_of(elements@, held),
            selection == Set::new(
                |position: (int, int)|
                    in_selection(
                        rows.resolved(size.row_height),
                        columns.resolved(size.column_width),
                        position,
                    ),
            ),
            result@ == held.remove_keys(named_before(elements@, k as int) * selection),
        decreases elements@.len() - k,
    {
        let element = &elements[k];
        proof {
            lemma_named_before_step(elements@, k as int);
        }
        if rows.is_selected(size.row_height, element.coordinate.row_index) && columns.is_selected(
            size.column_width,
            element.coordinate.column_index,
        ) {
            result.drop_element(&element.coordinate);
            assert(result@ =~= held.remove_keys(named_before(elements@, k + 1) * selection));
        } else {
            assert(result@ =~= held.remove_keys(named_before(elements@, k + 1) * selection));
        }
        k = k + 1;
    }
    assert(result@ =~= held.remove_keys(selection));
}

/// Inserts a matrix into the selected rows and columns of another, through a mask and
/// an accumulator. The mask and the clearing apply to the whole matrix.
pub(crate) fn insert_matrix_into_matrix<T: ValueType, M: ValueType>(
    accumulator: Option<BinaryOperatorType>,
    options: &OperatorOptions,
    mask: Option<&SparseMatrix<M>>,
    by_value: bool,
    matrix_to_insert_into: &mut SparseMatrix<T>,
    rows_to_insert_into: &ElementIndexSelector,
    columns_to_insert_into: &ElementIndexSelector,
    matrix_to_insert: &SparseMatrix<T>,
) -> (outcome: Result<(), SparseLinearAlgebraError>)
    ensures
        matrix_insertion_made(
            accumulator,
            *options,
            permitted_by(mask_entries(mask), by_value),
            mask_shape(mask),
            *rows_to_insert_into,
            *columns_to_insert_into,
            *matrix_to_insert,
            *old(matrix_to_insert_into),
            *final(matrix_to_insert_into),
            outcome,
        ),
{
    let size = matrix_to_insert_into.size();
    if rows_to_insert_into.number_of_selected_elements(size.row_height)
        != matrix_to_insert.row_height() || columns_to_insert_into.number_of_selected_elements(
        size.column_width,
    ) != matrix_to_insert.column_width() {
        return Err(SparseLinearAlgebraError::DimensionMismatch);
    }
    if !rows_to_insert_into.is_inside(size.row_height) || !columns_to_insert_into.is_inside(
        size.column_width,
    ) {
        return Err(SparseLinearAlgebraError::IndexOutOfBounds);
    }
    match mask {
        Some(mask_matrix) => {
            if !mask_matrix.has_shape(&size, false) {
                return Err(SparseLinearAlgebraError::ShapeMismatch);
            }
        },
        None => {},
    }
    let ghost rows = rows_to_insert_into.resolved(size.row_height);
    let ghost columns = columns_to_insert_into.resolved(size.column_width);
    let ghost held = matrix_to_insert_into@;
    let ghost source = matrix_to_insert@;
    let mut assigned = matrix_to_insert_into.clone();
    if accumulator.is_none() {
        drop_selection(&mut assigned, rows_to_insert_into, columns_to_insert_into);
    }
    let ghost base = assigned@;
    let elements = matrix_to_insert.elements();
    proof {
        lemma_named_before_all(elements@, source);
    }
    let mut k: usize = 0;
    while k < elements.len()
        invariant
            k <= elements@.len(),
            assigned.shape() == size,
            size == matrix_to_insert_into.shape(),
            held == matrix_to_insert_into@,
            source == matrix_to_insert@,
            rows == rows_to_insert_into.resolved(size.row_height),
            columns == columns_to_insert_into.resolved(size.column_width),
            rows_to_insert_into.fits(size.row_height),
            columns_to_insert_into.fits(size.column_width),
            rows.len() == matrix_to_insert.shape().row_height,
            columns.len() == matrix_to_insert.shape().column_width,
            lists_entries_of(elements@, source),
            forall|position: (int, int)| #[trigger]
                source.contains_key(position) ==> matrix_to_insert.shape().holds(position),
            forall|position: (int, int)|
                #[trigger] assigned@.get(position) == partly_assigned(
                    base,
                    held,
                    source,
                    elements@,
                    k as int,
                    rows,
                    columns,
                    accumulator,
                    position,
                ),
        decreases elements@.len() - k,
    {
        let element = &elements[k];
        let ghost place = element.position();
        let ghost before = assigned@;
        proof {
            assert(source.contains_pair(elements@[k as int].position(), element.value));
            lemma_named_before_step(elements@, k as int);
            assert(0 <= rows[place.0] < size.row_height);
            assert(0 <= columns[place.1] < size.column_width);
        }
        let row_index = rows_to_insert_into.index_at(size.row_height, element.coordinate.row_index);
        let column_index = columns_to_insert_into.index_at(
            size.column_width,
            element.coordinate.column_index,
        );
        let last_row = rows_to_insert_into.last_place_of(size.row_height, row_index);
        let last_column = columns_to_insert_into.last_place_of(size.column_width, column_index);
        let coordinate = Coordinate { row_index, column_index };
        let ghost target = coordinate.position();
        let mut is_last = false;
        match (last_row, last_column) {
            (Some(row_place), Some(column_place)) => {
                if row_place == element.coordinate.row_index && column_place
                    == element.coordinate.column_index {
                    is_last = true;
                }
            },
            _ => {},
        }
        if is_last {
            let value = write_value(
                matrix_to_insert_into.get_element(&coordinate),
                Some(element.value),
                true,
                accumulator,
                false,
            );
            match value {
                Some(value) => {
                    assigned.store(MatrixElement { coordinate, value });
                },
                None => {},
            }
        }
        proof {
            assert(rows[place.0] == target.0 && columns[place.1] == target.1);
            assert(in_selection(rows, columns, target));
            assert forall|position: (int, int)|
                #[trigger] assigned@.get(position) == partly_assigned(
                    base,
                    held,
                    source,
                    elements@,
                    k + 1,
                    rows,
                    columns,
                    accumulator,
                    position,
                ) by {
                assert(before.get(position) == partly_assigned(
                    base,
                    held,
                    source,
                    elements@,
                    k as int,
                    rows,
                    columns,
                    accumulator,
                    position,
                ));
                if in_selection(rows, columns, position) && place_for(rows, columns, position)
                    == place {
                    let i = choose|i: int| 0 <= i < rows.len() && rows[i] == position.0;
                    let j = choose|j: int| 0 <= j < columns.len() && columns[j] == position.1;
                    assert(rows[i] == position.0);
                    assert(columns[j] == position.1);
                    assert(is_last_place(rows, position.0, last_place(rows, position.0))) by {
                        lemma_has_last_place(rows, position.0, i);
                    }
                    assert(is_last_place(
                        columns,
                        position.1,
                        last_place(columns, position.1),
                    )) by {
                        lemma_has_last_place(columns, position.1, j);
                    }
                    assert(position == target);
                }
            }
        }
        k = k + 1;
    }
    proof {
        assert forall|position: (int, int)|
            #[trigger] assigned@.get(position) == if in_selection(rows, columns, position) {
                written_value(
                    held.get(position),
                    source.get(place_for(rows, columns, position)),
                    true,
                    accumulator,
                    false,
                )
            } else {
                held.get(position)
            } by {
            assert(assigned@.get(position) == partly_assigned(
                base,
                held,
                source,
                elements@,
                elements@.len() as int,
                rows,
                columns,
                accumulator,
                position,
            ));
        }
    }
    write_matrix(matrix_to_insert_into, &assigned, mask, by_value, None, options.clear_result_before_write);
    proof {
        assert(matrix_to_insert_into@ =~= matrix_inserted(
            held,
            source,
            rows,
            columns,
            permitted_by(mask_entries(mask), by_value),
            accumulator,
            options.clear_result_before_write,
        ));
    }
    Ok(())
}

/// An index that is selected somewhere has a last place.
proof fn lemma_has_last_place(selected: Seq<int>, index: int, place: int)
    requires
        0 <= place < selected.len(),
        selected[place] == index,
    ensures
        is_last_place(selected, index, last_place(selected, index)),
    decreases selected.len() - place,
{
    if exists|later: int| place < later < selected.len() && selected[later] == index {
        let later = choose|later: int| place < later < selected.len() && selected[later] == index;
        lemma_has_last_place(selected, index, later);
    } else {
        assert(is_last_place(selected, index, place));
    }
}

/// To extract all rows and all columns of a matrix into an empty matrix of its shape,
/// and to insert what was extracted into all rows and all columns of another empty
/// matrix of that shape, gives the entries of the matrix back, no more and no less.
pub proof fn lemma_extraction_then_insertion<T: ValueType>(
    entries: Map<(int, int), T>,
    size: Size,
    clear: bool,
)
    requires
        forall|position: (int, int)| #[trigger] entries.contains_key(position) ==> size.holds(position),
    ensures
        ({
            let rows = ElementIndexSelector::All.resolved(size.row_height);
            let columns = ElementIndexSelector::All.resolved(size.column_width);
            let sub_matrix = written(
                Map::<(int, int), T>::empty(),
                extracted(entries, rows, columns),
                Set::full(),
                None,
                clear,
            );
            &&& sub_matrix == entries
            &&& matrix_inserted(
                Map::<(int, int), T>::empty(),
                sub_matrix,
                rows,
                columns,
                Set::full(),
                None,
                clear,
            ) == entries
        }),
{
    let rows = ElementIndexSelector::All.resolved(size.row_height);
    let columns = ElementIndexSelector::All.resolved(size.column_width);
    let sub_matrix = written(
        Map::<(int, int), T>::empty(),
        extracted(entries, rows, columns),
        Set::full(),
        None,
        clear,
    );
    assert(sub_matrix =~= entries);
    let inserted = matrix_inserted(
        Map::<(int, int), T>::empty(),
        sub_matrix,
        rows,
        columns,
        Set::full(),
        None,
        clear,
    );
    assert forall|position: (int, int)|
        (#[trigger] inserted.contains_key(position) <==> entries.contains_key(position))
            && inserted.get(position) == entries.get(position) by {
        if size.holds(position) {
            assert(rows[position.0] == position.0);
            assert(columns[position.1] == position.1);
            lemma_last_place_is_one(rows, position.0, position.0);
            lemma_last_place_is_one(columns, position.1, position.1);
            assert(rows.contains(position.0));
            assert(columns.contains(position.1));
        } else {
            if rows.contains(position.0) && columns.contains(position.1) {
                let i = choose|i: int| 0 <= i < rows.len() && rows[i] == position.0;
                let j = choose|j: int| 0 <= j < columns.len() && columns[j] == position.1;
            }
        }
    }
    assert(inserted =~= entries);
}

/// Insertion of a matrix into a matrix.
#[derive(Debug)]
pub struct InsertMatrixIntoMatrix<MatrixToInsertInto: ValueType, MatrixToInsert: ValueType> {
    _matrix_to_insert_into: PhantomData<MatrixToInsertInto>,
    _matrix_to_insert: PhantomData<MatrixToInsert>,
    accumulator: Option<BinaryOperatorType>,
    options: OperatorOptions,
}

impl<MatrixToInsertInto: ValueType, MatrixToInsert: ValueType> InsertMatrixIntoMatrix<
    MatrixToInsertInto,
    MatrixToInsert,
> {
    /// The operator that combines what a position holds with what is inserted there,
    /// if there is one.
    pub closed spec fn accumulator(&self) -> Option<BinaryOperatorType> {
        self.accumulator
    }

    pub closed spec fn options(&self) -> OperatorOptions {
        self.options
    }

    pub fn new(
        options: &OperatorOptions,
        accumulator: Option<
            &dyn BinaryOperator<MatrixToInsert, MatrixToInsertInto, MatrixToInsertInto>,
        >,
    ) -> (operator: Self)
        ensures
            operator.options() == *options,
            operator.accumulator() == match accumulator {
                Some(accumulator) => Some(accumulator.operator_type()),
                None => None,
            },
    {
        let accumulator_to_use = match accumulator {
            Some(accumulator) => Some(accumulator.graphblas_type()),
            None => None,
        };
        Self {
            accumulator: accumulator_to_use,
            options: *options,
            _matrix_to_insert_into: PhantomData,
            _matrix_to_insert: PhantomData,
        }
    }
}

pub trait InsertMatrixIntoMatrixTrait<MatrixToInsertInto: ValueType, MatrixToInsert: ValueType> {
    /// What an insertion leaves behind, where `permitted` is what the mask permits and
    /// `mask_shape` the shape of the mask, if there is one.
    spec fn inserts(
        &self,
        permitted: Set<(int, int)>,
        mask_shape: Option<Size>,
        rows_to_insert_into: ElementIndexSelector,
        columns_to_insert_into: ElementIndexSelector,
        matrix_to_insert: SparseMatrix<MatrixToInsert>,
        before: SparseMatrix<MatrixToInsertInto>,
        after: SparseMatrix<MatrixToInsertInto>,
        outcome: Result<(), SparseLinearAlgebraError>,
    ) -> bool;

    /// Inserts the matrix into the selected rows and columns, every position
    /// permitted. The matrix to insert must have the extent of the selections. The
    /// clearing applies to the whole matrix to insert into.
    fn apply(
        &self,
        matrix_to_insert_into: &mut SparseMatrix<MatrixToInsertInto>,
        rows_to_insert_into: &ElementIndexSelector,
        columns_to_insert_into: &ElementIndexSelector,
        matrix_to_insert: &SparseMatrix<MatrixToInsert>,
    ) -> (outcome: Result<(), SparseLinearAlgebraError>)
        ensures
            self.inserts(
                Set::full(),
                None,
                *rows_to_insert_into,
                *columns_to_insert_into,
                *matrix_to_insert,
                *old(matrix_to_insert_into),
                *final(matrix_to_insert_into),
                outcome,
            ),
    ;

    /// Inserts the matrix into the selected rows and columns, at the positions that
    /// the mask permits. The mask and the clearing apply to the whole matrix to
    /// insert into.
    fn apply_with_mask<MaskValueType: ValueType>(
        &self,
        matrix_to_insert_into: &mut SparseMatrix<MatrixToInsertInto>,
        rows_to_insert_into: &ElementIndexSelector,
        columns_to_insert_into: &ElementIndexSelector,
        matrix_to_insert: &SparseMatrix<MatrixToInsert>,
        mask_for_matrix_to_insert_into: &MatrixMask<MaskValueType>,
    ) -> (outcome: Result<(), SparseLinearAlgebraError>)
        ensures
            self.inserts(
                mask_for_matrix_to_insert_into.permitted(),
                mask_for_matrix_to_insert_into.shape(),
                *rows_to_insert_into,
                *columns_to_insert_into,
                *matrix_to_insert,
                *old(matrix_to_insert_into),
                *final(matrix_to_insert_into),
                outcome,
            ),
    ;
}

impl<T: ValueType> InsertMatrixIntoMatrixTrait<T, T> for InsertMatrixIntoMatrix<T, T> {
    open spec fn inserts(
        &self,
        permitted: Set<(int, int)>,
        mask_shape: Option<Size>,
        rows_to_insert_into: ElementIndexSelector,
        columns_to_insert_into: ElementIndexSelector,
        matrix_to_insert: SparseMatrix<T>,
        before: SparseMatrix<T>,
        after: SparseMatrix<T>,
        outcome: Result<(), SparseLinearAlgebraError>,
    ) -> bool {
        matrix_insertion_made(
            self.accumulator(),
            self.options(),
            permitted,
            mask_shape,
            rows_to_insert_into,
            columns_to_insert_into,
            matrix_to_insert,
            before,
            after,
            outcome,
        )
    }

    fn apply(
        &self,
        matrix_to_insert_into: &mut SparseMatrix<T>,
        rows_to_insert_into: &ElementIndexSelector,
        columns_to_insert_into: &ElementIndexSelector,
        matrix_to_insert: &SparseMatrix<T>,
    ) -> (outcome: Result<(), SparseLinearAlgebraError>) {
        insert_matrix_into_matrix::<T, T>(
            self.accumulator,
            &self.options,
            None,
            false,
            matrix_to_insert_into,
            rows_to_insert_into,
            columns_to_insert_into,
            matrix_to_insert,
        )
    }

    fn apply_with_mask<MaskValueType: ValueType>(
        &self,
        matrix_to_insert_into: &mut SparseMatrix<T>,
        rows_to_insert_into: &ElementIndexSelector,
        columns_to_insert_into: &ElementIndexSelector,
        matrix_to_insert: &SparseMatrix<T>,
        mask_for_matrix_to_insert_into: &MatrixMask<MaskValueType>,
    ) -> (outcome: Result<(), SparseLinearAlgebraError>) {
        insert_matrix_into_matrix(
            self.accumulator,
            &self.options,
            mask_for_matrix_to_insert_into.matrix(),
            mask_for_matrix_to_insert_into.is_by_value(),
            matrix_to_insert_into,
            rows_to_insert_into,
            columns_to_insert_into,
            matrix_to_insert,
        )
    }
}

} // verus!
