use vstd::prelude::*;
use std::marker::PhantomData;
use crate::error::SparseLinearAlgebraError;
use crate::operators::binary_operator::{BinaryOperator, BinaryOperatorType};
use crate::operators::insert::scalar_insertion::scalar_inserted;
use crate::operators::mask::{
    mask_column, mask_entries, permitted_by, vector_mask_entries, vector_mask_extent, VectorMask,
};
use crate::operators::options::OperatorOptions;
use crate::operators::subinsert::insert_scalar_into_sub_matrix::{
    insert_scalar_into_sub_matrix, names, sub_matrix_insertion_doomed,
    sub_matrix_insertion_targets,
};
use crate::util::ElementIndexSelector;
use crate::value_types::sparse_vector::sparse_vector::{column_entries, SparseVector};
use crate::value_types::value_type::ValueType;

verus! {

/// The indices that an insertion into a sub-vector writes: those that are selected at
/// a place which the mask permits. The mask lies over the places of the selection,
/// not over the vector. Where an index is selected more than once, it is written if
/// the mask permits any of its places.
pub open spec fn sub_vector_insertion_targets(indices: Seq<int>, permitted: Set<int>) -> Set<int> {
    Set::new(
        |index: int|
            exists|place: int|
                0 <= place < indices.len() && #[trigger] indices[place] == index && permitted.contains(
                    place,
                ),
    )
}

/// The indices that an insertion into a sub-vector empties unless it writes them:
/// none, or, where the result is to be cleared, the selected ones. An index that is
/// not selected keeps what it held.
pub open spec fn sub_vector_insertion_doomed(indices: Seq<int>, clear: bool) -> Set<int> {
    if clear {
        Set::new(|index: int| indices.contains(index))
    } else {
        Set::empty()
    }
}

/// Why an insertion into a sub-vector is refused, if it is: a selected index at or
/// beyond the vector's length is an `IndexOutOfBounds`; after that, a mask that is
/// not as long as the selection is a `ShapeMismatch`.
pub open spec fn sub_vector_insertion_refusal(
    indices: ElementIndexSelector,
    vector: usize,
    mask: Option<usize>,
) -> Option<SparseLinearAlgebraError> {
    if !indices.fits(vector) {
        Some(SparseLinearAlgebraError::IndexOutOfBounds)
    } else if mask is Some && mask->Some_0 != indices.resolved(vector).len() {
        Some(SparseLinearAlgebraError::ShapeMismatch)
    } else {
        None
    }
}

/// What an insertion of a scalar into a sub-vector leaves behind. A refused call
/// leaves the vector as it was.
pub open spec fn sub_vector_scalar_insertion_made<T: ValueType>(
    accumulator: Option<BinaryOperatorType>,
    options: OperatorOptions,
    permitted: Set<int>,
    mask_extent: Option<usize>,
    indices: ElementIndexSelector,
    scalar: T,
    before: SparseVector<T>,
    after: SparseVector<T>,
    outcome: Result<(), SparseLinearAlgebraError>,
) -> bool {
    &&& after.extent() == before.extent()
    &&& match sub_vector_insertion_refusal(indices, before.extent(), mask_extent) {
        Some(error) => outcome == Err::<(), SparseLinearAlgebraError>(error) && after@ == before@,
        None => outcome is Ok && after@ == scalar_inserted(
            before@,
            sub_vector_insertion_targets(
                indices.resolved(before.extent()),
                permitted,
            ),
            sub_vector_insertion_doomed(
                indices.resolved(before.extent()),
                options.clear_result_before_write,
            ),
            scalar,
            accumulator,
        ),
    }
}

/// Inserts a scalar at the selected indices of a vector, through a mask and an
/// accumulator. The mask and the clearing apply to the selection only.
pub(crate) fn insert_scalar_into_sub_vector<T: ValueType, M: ValueType>(
    accumulator: Option<BinaryOperatorType>,
    options: &OperatorOptions,
    mask: Option<&SparseVector<M>>,
    by_value: bool,
    vector_to_insert_into: &mut SparseVector<T>,
    indices_to_insert_into: &ElementIndexSelector,
    scalar_to_insert: &T,
) -> (outcome: Result<(), SparseLinearAlgebraError>)
    ensures
        sub_vector_scalar_insertion_made(
            accumulator,
            *options,
            permitted_by(vector_mask_entries(mask), by_value),
            vector_mask_extent(mask),
            *indices_to_insert_into,
            *scalar_to_insert,
            *old(vector_to_insert_into),
            *final(vector_to_insert_into),
            outcome,
        ),
{
    let ghost length = vector_to_insert_into.extent();
    let ghost indices = indices_to_insert_into.resolved(length);
    let mut column = vector_to_insert_into.as_column().clone();
    let mask_matrix = mask_column(mask);
    let one_column = ElementIndexSelector::All;
    let ghost columns = one_column.resolved(1);
    assert(columns.len() == 1 && columns[0] == 0);
    let outcome = insert_scalar_into_sub_matrix(
        accumulator,
        options,
        mask_matrix,
        by_value,
        &mut column,
        indices_to_insert_into,
        &one_column,
        scalar_to_insert,
    );
    proof {
        if outcome is Ok {
            let permitted_places = permitted_by(mask_entries(mask_matrix), by_value);
            let permitted = permitted_by(vector_mask_entries(mask), by_value);
            let targets = sub_matrix_insertion_targets(indices, columns, permitted_places);
            let doomed = sub_matrix_insertion_doomed(
                indices,
                columns,
                options.clear_result_before_write,
            );
            let wanted_targets = sub_vector_insertion_targets(indices, permitted);
            let wanted_doomed = sub_vector_insertion_doomed(
                indices,
                options.clear_result_before_write,
            );
            assert forall|place: int| permitted_places.contains((place, 0)) <==> permitted.contains(
                place,
            ) by {
            }
            assert forall|index: int| targets.contains((index, 0)) <==> wanted_targets.contains(
                index,
            ) by {
                if targets.contains((index, 0)) {
                    let place = choose|place: (int, int)| #[trigger]
                        names(indices, columns, place, (index, 0)) && permitted_places.contains(
                            place,
                        );
                    assert(indices[place.0] == index && permitted.contains(place.0));
                }
                if wanted_targets.contains(index) {
                    let place = choose|place: int|
                        0 <= place < indices.len() && #[trigger] indices[place] == index
                            && permitted.contains(place);
                    assert(names(indices, columns, (place, 0), (index, 0)));
                }
            }
            assert forall|index: int| doomed.contains((index, 0)) <==> wanted_doomed.contains(
                index,
            ) by {
                if doomed.contains((index, 0)) {
                    let place = choose|place: (int, int)| #[trigger]
                        names(indices, columns, place, (index, 0));
                    assert(indices[place.0] == index);
                }
                if wanted_doomed.contains(index) {
                    let place = choose|place: int| 0 <= place < indices.len() && indices[place] == index;
                    assert(names(indices, columns, (place, 0), (index, 0)));
                }
            }
            assert(column_entries(column@) =~= scalar_inserted(
                old(vector_to_insert_into)@,
                wanted_targets,
                wanted_doomed,
                *scalar_to_insert,
                accumulator,
            ));
        }
    }
    if outcome.is_ok() {
        *vector_to_insert_into = SparseVector::from_column(column);
    }
    outcome
}

/// Insertion of a scalar into a sub-vector.
#[derive(Debug)]
pub struct InsertScalarIntoSubVector<VectorToInsertInto: ValueType, ScalarToInsert: ValueType> {
    _vector_to_insert_into: PhantomData<VectorToInsertInto>,
    _scalar_to_insert: PhantomData<ScalarToInsert>,
    accumulator: Option<BinaryOperatorType>,
    options: OperatorOptions,
}

impl<VectorToInsertInto: ValueType, ScalarToInsert: ValueType> InsertScalarIntoSubVector<
    VectorToInsertInto,
    ScalarToInsert,
> {
    /// The operator that combines what an index holds with the scalar, if there is one.
    pub closed spec fn accumulator(&self) -> Option<BinaryOperatorType> {
        self.accumulator
    }

    pub closed spec fn options(&self) -> OperatorOptions {
        self.options
    }

    pub fn new(
        options: &OperatorOptions,
        accumulator: Option<
            &dyn BinaryOperator<ScalarToInsert, VectorToInsertInto, VectorToInsertInto>,
        >,
    ) -> (operator: Self)
        ensures
            operator.options() == *options,
            operator.accumulator() == match accumulator {
                Some(accumulator) => Some(accumulator.operator_type()),
                None => None,
            },
    {
        let accumulator_to_use = match accumulator {
            Some(accumulator) => Some(accumulator.graphblas_type()),
            None => None,
        };
        Self {
            accumulator: accumulator_to_use,
            options: *options,
            _vector_to_insert_into: PhantomData,
            _scalar_to_insert: PhantomData,
        }
    }
}

pub trait InsertScalarIntoSubVectorTrait<VectorToInsertInto: ValueType, ScalarToInsert: ValueType> {
    /// What an insertion leaves behind, where `permitted` is what the mask permits and
    /// `mask_extent` the extent of the mask, if there is one.
    spec fn inserts(
        &self,
        permitted: Set<int>,
        mask_extent: Option<usize>,
        indices_to_insert_into: ElementIndexSelector,
        scalar_to_insert: ScalarToInsert,
        before: SparseVector<VectorToInsertInto>,
        after: SparseVector<VectorToInsertInto>,
        outcome: Result<(), SparseLinearAlgebraError>,
    ) -> bool;

    /// Inserts the scalar at every selected index. The clearing applies to the
    /// selected indices only.
    fn apply(
        &self,
        vector_to_insert_into: &mut SparseVector<VectorToInsertInto>,
        indices_to_insert_into: &ElementIndexSelector,
        scalar_to_insert: &ScalarToInsert,
    ) -> (outcome: Result<(), SparseLinearAlgebraError>)
        ensures
            self.inserts(
                Set::full(),
                None,
                *indices_to_insert_into,
                *scalar_to_insert,
                *old(vector_to_insert_into),
                *final(vector_to_insert_into),
                outcome,
            ),
    ;

    /// Inserts the scalar at the selected indices whose places the mask permits. The
    /// mask and the clearing apply to the selected indices only; the mask is as long
    /// as the selection.
    fn apply_with_mask<MaskValueType: ValueType>(
        &self,
        vector_to_insert_into: &mut SparseVector<VectorToInsertInto>,
        indices_to_insert_into: &ElementIndexSelector,
        scalar_to_insert: &ScalarToInsert,
        mask_for_vector_to_insert_into: &VectorMask<MaskValueType>,
    ) -> (outcome: Result<(), SparseLinearAlgebraError>)
        ensures
            self.inserts(
                mask_for_vector_to_insert_into.permitted(),
                mask_for_vector_to_insert_into.extent(),
                *indices_to_insert_into,
                *scalar_to_insert,
                *old(vector_to_insert_into),
                *final(vector_to_insert_into),
                outcome,
            ),
    ;
}

impl<T: ValueType> InsertScalarIntoSubVectorTrait<T, T> for InsertScalarIntoSubVector<T, T> {
    open spec fn inserts(
        &self,
        permitted: Set<int>,
        mask_extent: Option<usize>,
        indices_to_insert_into: ElementIndexSelector,
        scalar_to_insert: T,
        before: SparseVector<T>,
        after: SparseVector<T>,
        outcome: Result<(), SparseLinearAlgebraError>,
    ) -> bool {
        sub_vector_scalar_insertion_made(
            self.accumulator(),
            self.options(),
            permitted,
            mask_extent,
            indices_to_insert_into,
            scalar_to_insert,
            before,
            after,
            outcome,
        )
    }

    fn apply(
        &self,
        vector_to_insert_into: &mut SparseVector<T>,
        indices_to_insert_into: &ElementIndexSelector,
        scalar_to_insert: &T,
    ) -> (outcome: Result<(), SparseLinearAlgebraError>) {
        insert_scalar_into_sub_vector::<T, T>(
            self.accumulator,
            &self.options,
            None,
            false,
            vector_to_insert_into,
            indices_to_insert_into,
            scalar_to_insert,
        )
    }

    fn apply_with_mask<MaskValueType: ValueType>(
        &self,
        vector_to_insert_into: &mut SparseVector<T>,
        indices_to_insert_into: &ElementIndexSelector,
        scalar_to_insert: &T,
        mask_for_vector_to_insert_into: &VectorMask<MaskValueType>,
    ) -> (outcome: Result<(), SparseLinearAlgebraError>) {
        insert_scalar_into_sub_vector(
            self.accumulator,
            &self.options,
            mask_for_vector_to_insert_into.vector(),
            mask_for_vector_to_insert_into.is_by_value(),
            vector_to_insert_into,
            indices_to_insert_into,
            scalar_to_insert,
        )
    }
}

} // verus!
