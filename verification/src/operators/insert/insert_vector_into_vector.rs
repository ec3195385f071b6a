use vstd::prelude::*;
use std::marker::PhantomData;
use crate::error::SparseLinearAlgebraError;
use crate::operators::binary_operator::{BinaryOperator, BinaryOperatorType};
use crate::operators::insert::insert_matrix_into_matrix::{
    insert_matrix_into_matrix, matrix_inserted_value,
};
use crate::operators::mask::{
    mask_column, permitted_by, vector_mask_entries, vector_mask_extent, VectorMask,
};
use crate::operators::options::OperatorOptions;
use crate::util::{last_place, lemma_last_place_is_one, ElementIndexSelector};
use crate::value_types::sparse_vector::sparse_vector::{column_entries, SparseVector};
use crate::value_types::value_type::ValueType;

verus! {

/// The entries of a vector after the insertion of another: index by index what
/// `matrix_inserted_value` says. What is written to a selected index is what the
/// inserted vector holds at the index's place in the selection, and at the last of
/// its places where it is selected more than once.
pub open spec fn vector_inserted<T: ValueType>(
    held: Map<int, T>,
    source: Map<int, T>,
    indices: Seq<int>,
    permitted: Set<int>,
    accumulator: Option<BinaryOperatorType>,
    clear: bool,
) -> Map<int, T> {
    Map::new(
        |index: int|
            matrix_inserted_value(
                held.get(index),
                indices.contains(index),
                source.get(last_place(indices, index)),
                permitted.contains(index),
                accumulator,
                clear,
            ) is Some,
        |index: int|
            matrix_inserted_value(
                held.get(index),
                indices.contains(index),
                source.get(last_place(indices, index)),
                permitted.contains(index),
                accumulator,
                clear,
            )->Some_0,
    )
}

/// Why the insertion of a vector is refused, if it is: a vector to insert that is not
/// as long as the selection is a `DimensionMismatch`; after that, a selected index
/// at or beyond the length of the vector to insert into is an `IndexOutOfBounds`;
/// after that, a mask of another length than the vector to insert into is a
/// `ShapeMismatch`.
pub open spec fn vector_into_vector_refusal(
    indices: ElementIndexSelector,
    vector_to_insert_into: usize,
    vector_to_insert: usize,
    mask: Option<usize>,
) -> Option<SparseLinearAlgebraError> {
    if indices.resolved(vector_to_insert_into).len() != vector_to_insert {
        Some(SparseLinearAlgebraError::DimensionMismatch)
    } else if !indices.fits(vector_to_insert_into) {
        Some(SparseLinearAlgebraError::IndexOutOfBounds)
    } else if mask is Some && mask != Some(vector_to_insert_into) {
        Some(SparseLinearAlgebraError::ShapeMismatch)
    } else {
        None
    }
}

/// What the insertion of a vector leaves behind. A refused call leaves the vector as
/// it was.
pub open spec fn vector_insertion_made<T: ValueType>(
    accumulator: Option<BinaryOperatorType>,
    options: OperatorOptions,
    permitted: Set<int>,
    mask_extent: Option<usize>,
    indices: ElementIndexSelector,
    vector_to_insert: SparseVector<T>,
    before: SparseVector<T>,
    after: SparseVector<T>,
    outcome: Result<(), SparseLinearAlgebraError>,
) -> bool {
    &&& after.extent() == before.extent()
    &&& match vector_into_vector_refusal(
        indices,
        before.extent(),
        vector_to_insert.extent(),
        mask_extent,
    ) {
        Some(error) => outcome == Err::<(), SparseLinearAlgebraError>(error) && after@ == before@,
        None => outcome is Ok && after@ == vector_inserted(
            before@,
            vector_to_insert@,
            indices.resolved(before.extent()),
            permitted,
            accumulator,
            options.clear_result_before_write,
        ),
    }
}

/// Inserts a vector at the selected indices of another, through a mask and an
/// accumulator. The mask and the clearing apply to the whole vector.
pub(crate) fn insert_vector_into_vector<T: ValueType, M: ValueType>(
    accumulator: Option<BinaryOperatorType>,
    options: &OperatorOptions,
    mask: Option<&SparseVector<M>>,
    by_value: bool,
    vector_to_insert_into: &mut SparseVector<T>,
    indices_to_insert_into: &ElementIndexSelector,
    vector_to_insert: &SparseVector<T>,
) -> (outcome: Result<(), SparseLinearAlgebraError>)
    ensures
        vector_insertion_made(
            accumulator,
            *options,
            permitted_by(vector_mask_entries(mask), by_value),
            vector_mask_extent(mask),
            *indices_to_insert_into,
            *vector_to_insert,
            *old(vector_to_insert_into),
            *final(vector_to_insert_into),
            outcome,
        ),
{
    let ghost length = vector_to_insert_into.extent();
    let ghost indices = indices_to_insert_into.resolved(length);
    let mut column = vector_to_insert_into.as_column().clone();
    let source = vector_to_insert.as_column();
    let mask_matrix = mask_column(mask);
    let one_column = ElementIndexSelector::All;
    let ghost columns = one_column.resolved(1);
    assert(columns.len() == 1 && columns[0] == 0);
    let outcome = insert_matrix_into_matrix(
        accumulator,
        options,
        mask_matrix,
        by_value,
        &mut column,
        indices_to_insert_into,
        &one_column,
        source,
    );
    proof {
        if outcome is Ok {
            lemma_last_place_is_one(columns, 0, 0);
            assert(columns.contains(0));
            assert(column_entries(column@) =~= vector_inserted(
                old(vector_to_insert_into)@,
                vector_to_insert@,
                indices,
                permitted_by(vector_mask_entries(mask), by_value),
                accumulator,
                options.clear_result_before_write,
            ));
        }
    }
    if outcome.is_ok() {
        *vector_to_insert_into = SparseVector::from_column(column);
    }
    outcome
}

/// Insertion of a vector into a vector.
#[derive(Debug)]
pub struct InsertVectorIntoVector<VectorToInsertInto: ValueType, VectorToInsert: ValueType> {
    _vector_to_insert_into: PhantomData<VectorToInsertInto>,
    _vector_to_insert: PhantomData<VectorToInsert>,
    accumulator: Option<BinaryOperatorType>,
    options: OperatorOptions,
}

impl<VectorToInsertInto: ValueType, VectorToInsert: ValueType> InsertVectorIntoVector<
    VectorToInsertInto,
    VectorToInsert,
> {
    /// The operator that combines what an index holds with what is inserted there, if
    /// there is one.
    pub closed spec fn accumulator(&self) -> Option<BinaryOperatorType> {
        self.accumulator
    }

    pub closed spec fn options(&self) -> OperatorOptions {
        self.options
    }

    pub fn new(
        options: &OperatorOptions,
        accumulator: Option<
            &dyn BinaryOperator<VectorToInsert, VectorToInsertInto, VectorToInsertInto>,
        >,
    ) -> (operator: Self)
        ensures
            operator.options() == *options,
            operator.accumulator() == match accumulator {
                Some(accumulator) => Some(accumulator.operator_type()),
                None => None,
            },
    {
        let accumulator_to_use = match accumulator {
            Some(accumulator) => Some(accumulator.graphblas_type()),
            None => None,
        };
        Self {
            accumulator: accumulator_to_use,
            options: *options,
            _vector_to_insert_into: PhantomData,
            _vector_to_insert: PhantomData,
        }
    }
}

pub trait InsertVectorIntoVectorTrait<VectorToInsertInto: ValueType, VectorToInsert: ValueType> {
    /// What an insertion leaves behind, where `permitted` is what the mask permits and
    /// `mask_extent` the extent of the mask, if there is one.
    spec fn inserts(
        &self,
        permitted: Set<int>,
        mask_extent: Option<usize>,
        indices_to_insert_into: ElementIndexSelector,
        vector_to_insert: SparseVector<VectorToInsert>,
        before: SparseVector<VectorToInsertInto>,
        after: SparseVector<VectorToInsertInto>,
        outcome: Result<(), SparseLinearAlgebraError>,
    ) -> bool;

    /// Inserts the vector at the selected indices, every index permitted. The vector
    /// to insert must be as long as the selection. The clearing applies to the whole
    /// vector to insert into.
    fn apply(
        &self,
        vector_to_insert_into: &mut SparseVector<VectorToInsertInto>,
        indices_to_insert_into: &ElementIndexSelector,
        vector_to_insert: &SparseVector<VectorToInsert>,
    ) -> (outcome: Result<(), SparseLinearAlgebraError>)
        ensures
            self.inserts(
                Set::full(),
                None,
                *indices_to_insert_into,
                *vector_to_insert,
                *old(vector_to_insert_into),
                *final(vector_to_insert_into),
                outcome,
            ),
    ;

    /// Inserts the vector at the selected indices that the mask permits. The mask and
    /// the clearing apply to the whole vector to insert into.
    fn apply_with_mask<MaskValueType: ValueType>(
        &self,
        vector_to_insert_into: &mut SparseVector<VectorToInsertInto>,
        indices_to_insert_into: &ElementIndexSelector,
        vector_to_insert: &SparseVector<VectorToInsert>,
        mask_for_vector_to_insert_into: &VectorMask<MaskValueType>,
    ) -> (outcome: Result<(), SparseLinearAlgebraError>)
        ensures
            self.inserts(
                mask_for_vector_to_insert_into.permitted(),
                mask_for_vector_to_insert_into.extent(),
                *indices_to_insert_into,
                *vector_to_insert,
                *old(vector_to_insert_into),
                *final(vector_to_insert_into),
                outcome,
            ),
    ;
}

impl<T: ValueType> InsertVectorIntoVectorTrait<T, T> for InsertVectorIntoVector<T, T> {
    open spec fn inserts(
        &self,
        permitted: Set<int>,
        mask_extent: Option<usize>,
        indices_to_insert_into: ElementIndexSelector,
        vector_to_insert: SparseVector<T>,
        before: SparseVector<T>,
        after: SparseVector<T>,
        outcome: Result<(), SparseLinearAlgebraError>,
    ) -> bool {
        vector_insertion_made(
            self.accumulator(),
            self.options(),
            permitted,
            mask_extent,
            indices_to_insert_into,
            vector_to_insert,
            before,
            after,
            outcome,
        )
    }

    fn apply(
        &self,
        vector_to_insert_into: &mut SparseVector<T>,
        indices_to_insert_into: &ElementIndexSelector,
        vector_to_insert: &SparseVector<T>,
    ) -> (outcome: Result<(), SparseLinearAlgebraError>) {
        insert_vector_into_vector::<T, T>(
            self.accumulator,
            &self.options,
            None,
            false,
            vector_to_insert_into,
            indices_to_insert_into,
            vector_to_insert,
        )
    }

    fn apply_with_mask<MaskValueType: ValueType>(
        &self,
        vector_to_insert_into: &mut SparseVector<T>,
        indices_to_insert_into: &ElementIndexSelector,
        vector_to_insert: &SparseVector<T>,
        mask_for_vector_to_insert_into: &VectorMask<MaskValueType>,
    ) -> (outcome: Result<(), SparseLinearAlgebraError>) {
        insert_vector_into_vector(
            self.accumulator,
            &self.options,
            mask_for_vector_to_insert_into.vector(),
            mask_for_vector_to_insert_into.is_by_value(),
            vector_to_insert_into,
            indices_to_insert_into,
            vector_to_insert,
        )
    }
}

} // verus!
