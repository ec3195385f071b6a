use vstd::prelude::*;
use std::marker::PhantomData;
use crate::error::SparseLinearAlgebraError;
use crate::operators::binary_operator::{BinaryOperator, BinaryOperatorType};
use crate::operators::insert::scalar_insertion::{
    drop_unpermitted, scalar_inserted, write_scalar_at,
};
use crate::operators::mask::{
    mask_column, mask_entries, permits, permitted_by, vector_mask_entries, vector_mask_extent,
    VectorMask,
};
use crate::operators::options::OperatorOptions;
use crate::util::ElementIndexSelector;
use crate::value_types::sparse_matrix::coordinate::Coordinate;
use crate::value_types::sparse_matrix::element::MatrixElement;
use crate::value_types::sparse_matrix::size::Size;
use crate::value_types::sparse_matrix::sparse_matrix::SparseMatrix;
use crate::value_types::sparse_vector::sparse_vector::{column_entries, SparseVector};
use crate::value_types::value_type::ValueType;

verus! {

/// Why an insertion into a vector is refused, if it is: a selected index at or beyond
/// the vector's length is an `IndexOutOfBounds`; after that, a mask of another length
/// than the vector is a `ShapeMismatch`.
pub open spec fn vector_insertion_refusal(
    indices: ElementIndexSelector,
    vector: usize,
    mask: Option<usize>,
) -> Option<SparseLinearAlgebraError> {
    if !indices.fits(vector) {
        Some(SparseLinearAlgebraError::IndexOutOfBounds)
    } else if mask is Some && mask != Some(vector) {
        Some(SparseLinearAlgebraError::ShapeMismatch)
    } else {
        None
    }
}

/// The indices that an insertion into a vector writes: the selected ones that the mask
/// permits.
pub open spec fn vector_insertion_targets(
    indices: ElementIndexSelector,
    vector: usize,
    permitted: Set<int>,
) -> Set<int> {
    Set::new(|index: int| indices.selects(vector, index) && permitted.contains(index))
}

/// The indices that an insertion into a vector empties unless it writes them: none,
/// or, where the result is to be cleared, all that the mask does not permit, selected
/// or not.
pub open spec fn vector_insertion_doomed(permitted: Set<int>, clear: bool) -> Set<int> {
    if clear {
        permitted.complement()
    } else {
        Set::empty()
    }
}

/// What an insertion of a scalar into a vector leaves behind. A refused call leaves
/// the vector as it was.
pub open spec fn vector_scalar_insertion_made<T: ValueType>(
    accumulator: Option<BinaryOperatorType>,
    options: OperatorOptions,
    permitted: Set<int>,
    mask_extent: Option<usize>,
    indices: ElementIndexSelector,
    scalar: T,
    before: SparseVector<T>,
    after: SparseVector<T>,
    outcome: Result<(), SparseLinearAlgebraError>,
) -> bool {
    &&& after.extent() == before.extent()
    &&& match vector_insertion_refusal(indices, before.extent(), mask_extent) {
        Some(error) => outcome == Err::<(), SparseLinearAlgebraError>(error) && after@ == before@,
        None => outcome is Ok && after@ == scalar_inserted(
            before@,
            vector_insertion_targets(indices, before.extent(), permitted),
            vector_insertion_doomed(
                permitted,
                options.clear_result_before_write,
            ),
            scalar,
            accumulator,
        ),
    }
}

/// Inserts a scalar at the selected indices of a vector, through a mask and an
/// accumulator. The mask and the clearing apply to the whole vector.
pub(crate) fn insert_scalar_into_vector<T: ValueType, M: ValueType>(
    accumulator: Option<BinaryOperatorType>,
    options: &OperatorOptions,
    mask: Option<&SparseVector<M>>,
    by_value: bool,
    vector_to_insert_into: &mut SparseVector<T>,
    indices_to_insert_into: &ElementIndexSelector,
    scalar_to_insert: &T,
) -> (outcome: Result<(), SparseLinearAlgebraError>)
    ensures
        vector_scalar_insertion_made(
            accumulator,
            *options,
            permitted_by(vector_mask_entries(mask), by_value),
            vector_mask_extent(mask),
            *indices_to_insert_into,
            *scalar_to_insert,
            *old(vector_to_insert_into),
            *final(vector_to_insert_into),
            outcome,
        ),
{
    let length = vector_to_insert_into.length();
    if !indices_to_insert_into.is_inside(length) {
        return Err(SparseLinearAlgebraError::IndexOutOfBounds);
    }
    match mask {
        Some(mask_vector) => {
            if mask_vector.length() != length {
                return Err(SparseLinearAlgebraError::ShapeMismatch);
            }
        },
        None => {},
    }
    let mask_matrix = mask_column(mask);
    let ghost permitted = permitted_by(vector_mask_entries(mask), by_value);
    let ghost selected = indices_to_insert_into.resolved(length);
    let mut targets = SparseMatrix::<T>::new(&Size { row_height: length, column_width: 1 });
    let count = indices_to_insert_into.number_of_selected_elements(length);
    let mut i: usize = 0;
    while i < count
        invariant
            i <= count,
            count == selected.len(),
            selected == indices_to_insert_into.resolved(length),
            indices_to_insert_into.fits(length),
            targets.shape() == (Size { row_height: length, column_width: 1 }),
            permitted == permitted_by(vector_mask_entries(mask), by_value),
            mask_matrix is Some <==> mask is Some,
            mask is Some ==> column_entries(mask_matrix->Some_0@) == mask->Some_0@,
            forall|position: (int, int)| #[trigger]
                targets@.contains_key(position) ==> targets@[position] == *scalar_to_insert,
            forall|position: (int, int)|
                #[trigger] targets@.contains_key(position) <==> position.1 == 0 && permitted.contains(
                    position.0,
                ) && exists|place: int| 0 <= place < i && #[trigger] selected[place] == position.0,
        decreases count - i,
    {
        let index = indices_to_insert_into.index_at(length, i);
        let coordinate = Coordinate { row_index: index, column_index: 0 };
        let ghost before = targets@;
        assert(0 <= selected[i as int] < length);
        if permits(mask_matrix, by_value, &coordinate) {
            targets.store(
                MatrixElement { coordinate, value: *scalar_to_insert },
            );
        }
        proof {
            assert forall|position: (int, int)|
                #[trigger] targets@.contains_key(position) <==> position.1 == 0 && permitted.contains(
                    position.0,
                ) && exists|place: int|
                    0 <= place < i + 1 && #[trigger] selected[place] == position.0 by {
                if targets@.contains_key(position) {
                    if before.contains_key(position) {
                        let place = choose|place: int|
                            0 <= place < i && #[trigger] selected[place] == position.0;
                        assert(0 <= place < i + 1);
                    } else {
                        assert(selected[i as int] == position.0);
                    }
                }
                if position.1 == 0 && permitted.contains(position.0) && exists|place: int|
                    0 <= place < i + 1 && #[trigger] selected[place] == position.0 {
                    let place = choose|place: int|
                        0 <= place < i + 1 && #[trigger] selected[place] == position.0;
                    if place < i {
                        assert(before.contains_key(position));
                    }
                }
            }
        }
        i = i + 1;
    }
    let mut column = vector_to_insert_into.as_column().clone();
    if options.clear_result_before_write {
        drop_unpermitted(&mut column, mask_matrix, by_value);
    }
    write_scalar_at(&mut column, &targets, scalar_to_insert, accumulator);
    proof {
        let wanted = scalar_inserted(
            old(vector_to_insert_into)@,
            vector_insertion_targets(*indices_to_insert_into, length, permitted),
            vector_insertion_doomed(permitted, options.clear_result_before_write),
            *scalar_to_insert,
            accumulator,
        );
        assert forall|index: int|
            vector_insertion_targets(*indices_to_insert_into, length, permitted).contains(index)
                <==> targets@.contains_key((index, 0)) by {
            if targets@.contains_key((index, 0)) {
                let place = choose|place: int|
                    0 <= place < count && #[trigger] selected[place] == index;
                assert(indices_to_insert_into.selects(length, index));
            }
        }
        assert(column_entries(column@) =~= wanted);
    }
    *vector_to_insert_into = SparseVector::from_column(column);
    Ok(())
}

/// Insertion of a scalar into a vector.
#[derive(Debug)]
pub struct InsertScalarIntoVector<VectorToInsertInto: ValueType, ScalarToInsert: ValueType> {
    _vector_to_insert_into: PhantomData<VectorToInsertInto>,
    _scalar_to_insert: PhantomData<ScalarToInsert>,
    accumulator: Option<BinaryOperatorType>,
    options: OperatorOptions,
}

impl<VectorToInsertInto: ValueType, ScalarToInsert: ValueType> InsertScalarIntoVector<
    VectorToInsertInto,
    ScalarToInsert,
> {
    /// The operator that combines what an index holds with the scalar, if there is one.
    pub closed spec fn accumulator(&self) -> Option<BinaryOperatorType> {
        self.accumulator
    }

    pub closed spec fn options(&self) -> OperatorOptions {
        self.options
    }

    pub fn new(
        options: &OperatorOptions,
        accumulator: Option<
            &dyn BinaryOperator<ScalarToInsert, VectorToInsertInto, VectorToInsertInto>,
        >,
    ) -> (operator: Self)
        ensures
            operator.options() == *options,
            operator.accumulator() == match accumulator {
                Some(accumulator) => Some(accumulator.operator_type()),
                None => None,
            },
    {
        let accumulator_to_use = match accumulator {
            Some(accumulator) => Some(accumulator.graphblas_type()),
            None => None,
        };
        Self {
            accumulator: accumulator_to_use,
            options: *options,
            _vector_to_insert_into: PhantomData,
            _scalar_to_insert: PhantomData,
        }
    }
}

pub trait InsertScalarIntoVectorTrait<VectorToInsertInto: ValueType, ScalarToInsert: ValueType> {
    /// What an insertion leaves behind, where `permitted` is what the mask permits and
    /// `mask_extent` the extent of the mask, if there is one.
    spec fn inserts(
        &self,
        permitted: Set<int>,
        mask_extent: Option<usize>,
        indices_to_insert_into: ElementIndexSelector,
        scalar_to_insert: ScalarToInsert,
        before: SparseVector<VectorToInsertInto>,
        after: SparseVector<VectorToInsertInto>,
        outcome: Result<(), SparseLinearAlgebraError>,
    ) -> bool;

    /// Inserts the scalar at the selected indices, every index permitted. The
    /// clearing applies to the whole vector.
    fn apply(
        &self,
        vector_to_insert_into: &mut SparseVector<VectorToInsertInto>,
        indices_to_insert_into: &ElementIndexSelector,
        scalar_to_insert: &ScalarToInsert,
    ) -> (outcome: Result<(), SparseLinearAlgebraError>)
        ensures
            self.inserts(
                Set::full(),
                None,
                *indices_to_insert_into,
                *scalar_to_insert,
                *old(vector_to_insert_into),
                *final(vector_to_insert_into),
                outcome,
            ),
    ;

    /// Inserts the scalar at the selected indices that the mask permits. The mask and
    /// the clearing apply to the whole vector.
    fn apply_with_mask<MaskValueType: ValueType>(
        &self,
        vector_to_insert_into: &mut SparseVector<VectorToInsertInto>,
        indices_to_insert_into: &ElementIndexSelector,
        scalar_to_insert: &ScalarToInsert,
        mask_for_vector_to_insert_into: &VectorMask<MaskValueType>,
    ) -> (outcome: Result<(), SparseLinearAlgebraError>)
        ensures
            self.inserts(
                mask_for_vector_to_insert_into.permitted(),
                mask_for_vector_to_insert_into.extent(),
                *indices_to_insert_into,
                *scalar_to_insert,
                *old(vector_to_insert_into),
                *final(vector_to_insert_into),
                outcome,
            ),
    ;
}

impl<T: ValueType> InsertScalarIntoVectorTrait<T, T> for InsertScalarIntoVector<T, T> {
    open spec fn inserts(
        &self,
        permitted: Set<int>,
        mask_extent: Option<usize>,
        indices_to_insert_into: ElementIndexSelector,
        scalar_to_insert: T,
        before: SparseVector<T>,
        after: SparseVector<T>,
        outcome: Result<(), SparseLinearAlgebraError>,
    ) -> bool {
        vector_scalar_insertion_made(
            self.accumulator(),
            self.options(),
            permitted,
            mask_extent,
            indices_to_insert_into,
            scalar_to_insert,
            before,
            after,
            outcome,
        )
    }

    fn apply(
        &self,
        vector_to_insert_into: &mut SparseVector<T>,
        indices_to_insert_into: &ElementIndexSelector,
        scalar_to_insert: &T,
    ) -> (outcome: Result<(), SparseLinearAlgebraError>) {
        insert_scalar_into_vector::<T, T>(
            self.accumulator,
            &self.options,
            None,
            false,
            vector_to_insert_into,
            indices_to_insert_into,
            scalar_to_insert,
        )
    }

    fn apply_with_mask<MaskValueType: ValueType>(
        &self,
        vector_to_insert_into: &mut SparseVector<T>,
        indices_to_insert_into: &ElementIndexSelector,
        scalar_to_insert: &T,
        mask_for_vector_to_insert_into: &VectorMask<MaskValueType>,
    ) -> (outcome: Result<(), SparseLinearAlgebraError>) {
        insert_scalar_into_vector(
            self.accumulator,
            &self.options,
            mask_for_vector_to_insert_into.vector(),
            mask_for_vector_to_insert_into.is_by_value(),
            vector_to_insert_into,
            indices_to_insert_into,
            scalar_to_insert,
        )
    }
}

} // verus!
