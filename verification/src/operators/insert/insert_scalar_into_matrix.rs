use vstd::prelude::*;
use std::marker::PhantomData;
use crate::error::SparseLinearAlgebraError;
use crate::operators::binary_operator::{BinaryOperator, BinaryOperatorType};
use crate::operators::insert::scalar_insertion::{
    drop_unpermitted, scalar_inserted, write_scalar_at,
};
use crate::operators::mask::{mask_entries, mask_shape, permitted_by, MatrixMask};
use crate::operators::options::OperatorOptions;
use crate::operators::subinsert::insert_scalar_into_sub_matrix::{
    every_selected_position, names, sub_matrix_insertion_targets,
};
use crate::operators::write_rule::{lemma_named_before_all, lemma_named_before_step, named_before};
use crate::util::ElementIndexSelector;
use crate::value_types::sparse_matrix::element::MatrixElement;
use crate::value_types::sparse_matrix::size::Size;
use crate::value_types::sparse_matrix::sparse_matrix::{lists_entries_of, SparseMatrix};
use crate::value_types::value_type::ValueType;

verus! {

/// Why an insertion into a matrix is refused, if it is: a selected index outside the
/// matrix is an `IndexOutOfBounds`; after that, a mask of another shape than the
/// matrix is a `ShapeMismatch`.
pub open spec fn matrix_scalar_insertion_refusal(
    rows: ElementIndexSelector,
    columns: ElementIndexSelector,
    matrix: Size,
    mask: Option<Size>,
) -> Option<SparseLinearAlgebraError> {
    if !rows.fits(matrix.row_height) || !columns.fits(matrix.column_width) {
        Some(SparseLinearAlgebraError::IndexOutOfBounds)
    } else if mask is Some && mask != Some(matrix) {
        Some(SparseLinearAlgebraError::ShapeMismatch)
    } else {
        None
    }
}

/// The positions that an insertion into a matrix writes: those in the selected rows
/// and columns that the mask permits. The mask lies over the matrix.
pub open spec fn matrix_insertion_targets(
    rows: Seq<int>,
    columns: Seq<int>,
    permitted: Set<(int, int)>,
) -> Set<(int, int)> {
    Set::new(
        |position: (int, int)|
            rows.contains(position.0) && columns.contains(position.1) && permitted.contains(position),
    )
}

/// The positions that an insertion into a matrix empties unless it writes them: none,
/// or, where the result is to be cleared, all that the mask does not permit, selected
/// or not.
pub open spec fn matrix_insertion_doomed(
    permitted: Set<(int, int)>,
    clear: bool,
) -> Set<(int, int)> {
    if clear {
        permitted.complement()
    } else {
        Set::empty()
    }
}

/// What an insertion of a scalar into a matrix leaves behind. A refused call leaves
/// the matrix as it was.
pub open spec fn matrix_scalar_insertion_made<T: ValueType>(
    accumulator: Option<BinaryOperatorType>,
    options: OperatorOptions,
    permitted: Set<(int, int)>,
    mask_shape: Option<Size>,
    rows: ElementIndexSelector,
    columns: ElementIndexSelector,
    scalar: T,
    before: SparseMatrix<T>,
    after: SparseMatrix<T>,
    outcome: Result<(), SparseLinearAlgebraError>,
) -> bool {
    &&& after.shape() == before.shape()
    &&& match matrix_scalar_insertion_refusal(rows, columns, before.shape(), mask_shape) {
        Some(error) => outcome == Err::<(), SparseLinearAlgebraError>(error) && after@ == before@,
        None => outcome is Ok && after@ == scalar_inserted(
            before@,
            matrix_insertion_targets(
                rows.resolved(before.shape().row_height),
                columns.resolved(before.shape().column_width),
                permitted,
            ),
            matrix_insertion_doomed(
                permitted,
                options.clear_result_before_write,
            ),
            scalar,
            accumulator,
        ),
    }
}

/// A matrix that holds the scalar at every selected position that the mask permits.
fn every_permitted_selected_position<T: ValueType, M: ValueType>(
    size: &Size,
    rows: &ElementIndexSelector,
    columns: &ElementIndexSelector,
    mask: &SparseMatrix<M>,
    by_value: bool,
    scalar: &T,
) -> (targets: SparseMatrix<T>)
    requires
        mask.shape() == *size,
    ensures
        targets.shape() == *size,
        forall|position: (int, int)| #[trigger]
            targets@.contains_key(position) ==> targets@[position] == *scalar,
        targets@.dom() == matrix_insertion_targets(
            rows.resolved(size.row_height),
            columns.resolved(size.column_width),
            permitted_by(Some(mask@), by_value),
        ),
{
    let ghost selected_rows = rows.resolved(size.row_height);
    let ghost selected_columns = columns.resolved(size.column_width);
    let ghost wanted = matrix_insertion_targets(
        selected_rows,
        selected_columns,
        permitted_by(Some(mask@), by_value),
    );
    let mut targets = SparseMatrix::<T>::new(size);
    let places = mask.elements();
    proof {
        lemma_named_before_all(places@, mask@);
        assert(targets@.dom() =~= wanted * named_before(places@, 0));
    }
    let mut k: usize = 0;
    while k < places.len()
        invariant
            k <= places@.len(),
            selected_rows == rows.resolved(size.row_height),
            selected_columns == columns.resolved(size.column_width),
            mask.shape() == *size,
            wanted == matrix_insertion_targets(
                selected_rows,
                selected_columns,
                permitted_by(Some(mask@), by_value),
            ),
            lists_entries_of(places@, mask@),
            forall|position: (int, int)| #[trigger]
                mask@.contains_key(position) ==> mask.shape().holds(position),
            targets.shape() == *size,
            forall|position: (int, int)| #[trigger]
                targets@.contains_key(position) ==> targets@[position] == *scalar,
            targets@.dom() == wanted * named_before(places@, k as int),
        decreases places@.len() - k,
    {
        let place = &places[k];
        proof {
            assert(mask@.contains_pair(places@[k as int].position(), place.value));
            lemma_named_before_step(places@, k as int);
        }
        let in_rows = rows.is_selected(size.row_height, place.coordinate.row_index);
        let in_columns = columns.is_selected(size.column_width, place.coordinate.column_index);
        if (!by_value || place.value.as_boolean()) && in_rows && in_columns {
            targets.store(
                MatrixElement { coordinate: place.coordinate, value: *scalar },
            );
            assert(targets@.dom() =~= wanted * named_before(
                places@,
                k + 1,
            ));
        } else {
            assert(targets@.dom() =~= wanted * named_before(
                places@,
                k + 1,
            ));
        }
        k = k + 1;
    }
    assert(targets@.dom() =~= wanted);
    targets
}

/// Inserts a scalar at the positions of a matrix that the selected rows and columns
/// name, through a mask and an accumulator. The mask and the clearing apply to the
/// whole matrix.
pub(crate) fn insert_scalar_into_matrix<T: ValueType, M: ValueType>(
    accumulator: Option<BinaryOperatorType>,
    options: &OperatorOptions,
    mask: Option<&SparseMatrix<M>>,
    by_value: bool,
    matrix_to_insert_into: &mut SparseMatrix<T>,
    rows_to_insert_into: &ElementIndexSelector,
    columns_to_insert_into: &ElementIndexSelector,
    scalar_to_insert: &T,
) -> (outcome: Result<(), SparseLinearAlgebraError>)
    ensures
        matrix_scalar_insertion_made(
            accumulator,
            *options,
            permitted_by(mask_entries(mask), by_value),
            mask_shape(mask),
            *rows_to_insert_into,
            *columns_to_insert_into,
            *scalar_to_insert,
            *old(matrix_to_insert_into),
            *final(matrix_to_insert_into),
            outcome,
        ),
{
    let size = matrix_to_insert_into.size();
    if !rows_to_insert_into.is_inside(size.row_height) || !columns_to_insert_into.is_inside(
        size.column_width,
    ) {
        return Err(SparseLinearAlgebraError::IndexOutOfBounds);
    }
    let ghost selected_rows = rows_to_insert_into.resolved(size.row_height);
    let ghost selected_columns = columns_to_insert_into.resolved(size.column_width);
    let targets = match mask {
        Some(mask_matrix) => {
            if !mask_matrix.has_shape(&size, false) {
                return Err(SparseLinearAlgebraError::ShapeMismatch);
            }
            every_permitted_selected_position(
                &size,
                rows_to_insert_into,
                columns_to_insert_into,
                mask_matrix,
                by_value,
                scalar_to_insert,
            )
        },
        None => {
            let targets = every_selected_position(
                &size,
                rows_to_insert_into,
                columns_to_insert_into,
                scalar_to_insert,
            );
            proof {
                let named = sub_matrix_insertion_targets(
                    selected_rows,
                    selected_columns,
                    Set::full(),
                );
                let wanted = matrix_insertion_targets(
                    selected_rows,
                    selected_columns,
                    Set::full(),
                );
                assert forall|position: (int, int)| named.contains(position) <==> wanted.contains(
                    position,
                ) by {
                    if named.contains(position) {
                        let place = choose|place: (int, int)| #[trigger]
                            names(selected_rows, selected_columns, place, position) && Set::<
                                (int, int),
                            >::full().contains(place);
                        assert(selected_rows[place.0] == position.0);
                        assert(selected_columns[place.1] == position.1);
                    }
                    if wanted.contains(position) {
                        let i = choose|i: int|
                            0 <= i < selected_rows.len() && selected_rows[i] == position.0;
                        let j = choose|j: int|
                            0 <= j < selected_columns.len() && selected_columns[j] == position.1;
                        assert(names(selected_rows, selected_columns, (i, j), position));
                    }
                }
                assert(named =~= wanted);
            }
            targets
        },
    };
    if options.clear_result_before_write {
        drop_unpermitted(matrix_to_insert_into, mask, by_value);
    }
    write_scalar_at(matrix_to_insert_into, &targets, scalar_to_insert, accumulator);
    proof {
        assert(matrix_to_insert_into@ =~= scalar_inserted(
            old(matrix_to_insert_into)@,
            matrix_insertion_targets(
                selected_rows,
                selected_columns,
                permitted_by(mask_entries(mask), by_value),
            ),
            matrix_insertion_doomed(
                permitted_by(mask_entries(mask), by_value),
                options.clear_result_before_write,
            ),
            *scalar_to_insert,
            accumulator,
        ));
    }
    Ok(())
}

/// Insertion of a scalar into a matrix.
#[derive(Debug)]
pub struct InsertScalarIntoMatrix<MatrixToInsertInto: ValueType, ScalarToInsert: ValueType> {
    _matrix_to_insert_into: PhantomData<MatrixToInsertInto>,
    _scalar_to_insert: PhantomData<ScalarToInsert>,
    accumulator: Option<BinaryOperatorType>,
    options: OperatorOptions,
}

impl<MatrixToInsertInto: ValueType, ScalarToInsert: ValueType> InsertScalarIntoMatrix<
    MatrixToInsertInto,
    ScalarToInsert,
> {
    /// The operator that combines what a position holds with the scalar, if there is
    /// one.
    pub closed spec fn accumulator(&self) -> Option<BinaryOperatorType> {
        self.accumulator
    }

    pub closed spec fn options(&self) -> OperatorOptions {
        self.options
    }

    pub fn new(
        options: &OperatorOptions,
        accumulator: Option<
            &dyn BinaryOperator<ScalarToInsert, MatrixToInsertInto, MatrixToInsertInto>,
        >,
    ) -> (operator: Self)
        ensures
            operator.options() == *options,
            operator.accumulator() == match accumulator {
                Some(accumulator) => Some(accumulator.operator_type()),
                None => None,
            },
    {
        let accumulator_to_use = match accumulator {
            Some(accumulator) => Some(accumulator.graphblas_type()),
            None => None,
        };
        Self {
            accumulator: accumulator_to_use,
            options: *options,
            _matrix_to_insert_into: PhantomData,
            _scalar_to_insert: PhantomData,
        }
    }
}

pub trait InsertScalarIntoMatrixTrait<MatrixToInsertInto: ValueType, ScalarToInsert: ValueType> {
    /// What an insertion leaves behind, where `permitted` is what the mask permits and
    /// `mask_shape` the shape of the mask, if there is one.
    spec fn inserts(
        &self,
        permitted: Set<(int, int)>,
        mask_shape: Option<Size>,
        rows_to_insert_into: ElementIndexSelector,
        columns_to_insert_into: ElementIndexSelector,
        scalar_to_insert: ScalarToInsert,
        before: SparseMatrix<MatrixToInsertInto>,
        after: SparseMatrix<MatrixToInsertInto>,
        outcome: Result<(), SparseLinearAlgebraError>,
    ) -> bool;

    /// Inserts the scalar at every position in the selected rows and columns. The
    /// clearing applies to the whole matrix.
    fn apply(
        &self,
        matrix_to_insert_into: &mut SparseMatrix<MatrixToInsertInto>,
        rows_to_insert_into: &ElementIndexSelector,
        columns_to_insert_into: &ElementIndexSelector,
        scalar_to_insert: &ScalarToInsert,
    ) -> (outcome: Result<(), SparseLinearAlgebraError>)
        ensures
            self.inserts(
                Set::full(),
                None,
                *rows_to_insert_into,
                *columns_to_insert_into,
                *scalar_to_insert,
                *old(matrix_to_insert_into),
                *final(matrix_to_insert_into),
                outcome,
            ),
    ;

    /// Inserts the scalar at the positions in the selected rows and columns that the
    /// mask permits. The mask and the clearing apply to the whole matrix.
    fn apply_with_mask<MaskValueType: ValueType>(
        &self,
        matrix_to_insert_into: &mut SparseMatrix<MatrixToInsertInto>,
        rows_to_insert_into: &ElementIndexSelector,
        columns_to_insert_into: &ElementIndexSelector,
        scalar_to_insert: &ScalarToInsert,
        mask_for_matrix_to_insert_into: &MatrixMask<MaskValueType>,
    ) -> (outcome: Result<(), SparseLinearAlgebraError>)
        ensures
            self.inserts(
                mask_for_matrix_to_insert_into.permitted(),
                mask_for_matrix_to_insert_into.shape(),
                *rows_to_insert_into,
                *columns_to_insert_into,
                *scalar_to_insert,
                *old(matrix_to_insert_into),
                *final(matrix_to_insert_into),
                outcome,
            ),
    ;
}

impl<T: ValueType> InsertScalarIntoMatrixTrait<T, T> for InsertScalarIntoMatrix<T, T> {
    open spec fn inserts(
        &self,
        permitted: Set<(int, int)>,
        mask_shape: Option<Size>,
        rows_to_insert_into: ElementIndexSelector,
        columns_to_insert_into: ElementIndexSelector,
        scalar_to_insert: T,
        before: SparseMatrix<T>,
        after: SparseMatrix<T>,
        outcome: Result<(), SparseLinearAlgebraError>,
    ) -> bool {
        matrix_scalar_insertion_made(
            self.accumulator(),
            self.options(),
            permitted,
            mask_shape,
            rows_to_insert_into,
            columns_to_insert_into,
            scalar_to_insert,
            before,
            after,
            outcome,
        )
    }

    fn apply(
        &self,
        matrix_to_insert_into: &mut SparseMatrix<T>,
        rows_to_insert_into: &ElementIndexSelector,
        columns_to_insert_into: &ElementIndexSelector,
        scalar_to_insert: &T,
    ) -> (outcome: Result<(), SparseLinearAlgebraError>) {
        insert_scalar_into_matrix::<T, T>(
            self.accumulator,
            &self.options,
            None,
            false,
            matrix_to_insert_into,
            rows_to_insert_into,
            columns_to_insert_into,
            scalar_to_insert,
        )
    }

    fn apply_with_mask<MaskValueType: ValueType>(
        &self,
        matrix_to_insert_into: &mut SparseMatrix<T>,
        rows_to_insert_into: &ElementIndexSelector,
        columns_to_insert_into: &ElementIndexSelector,
        scalar_to_insert: &T,
        mask_for_matrix_to_insert_into: &MatrixMask<MaskValueType>,
    ) -> (outcome: Result<(), SparseLinearAlgebraError>) {
        insert_scalar_into_matrix(
            self.accumulator,
            &self.options,
            mask_for_matrix_to_insert_into.matrix(),
            mask_for_matrix_to_insert_into.is_by_value(),
            matrix_to_insert_into,
            rows_to_insert_into,
            columns_to_insert_into,
            scalar_to_insert,
        )
    }
}

} // verus!
