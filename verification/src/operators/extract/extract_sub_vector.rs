use vstd::prelude::*;
use std::marker::PhantomData;
use crate::error::SparseLinearAlgebraError;
use crate::operators::binary_operator::{
    accumulator_type, resolve_accumulator, BinaryOperator, BinaryOperatorType,
};
use crate::operators::extract::extract_sub_matrix::gather_rows;
use crate::operators::mask::{permitted_by, vector_mask_entries, vector_mask_extent, VectorMask};
use crate::operators::options::OperatorOptions;
use crate::operators::write_rule::{write_vector, written};
use crate::util::ElementIndexSelector;
use crate::value_types::sparse_vector::sparse_vector::{column_entries, SparseVector};
use crate::value_types::value_type::ValueType;

verus! {

/// The entries of the sub-vector that a selection of indices takes out of a vector:
/// index i holds what the source holds at `indices[i]`, and is empty where the
/// source is. An index that is selected more than once is copied to each of its
/// places.
pub open spec fn vector_extracted<T>(source: Map<int, T>, indices: Seq<int>) -> Map<int, T> {
    Map::new(
        |place: int| 0 <= place < indices.len() && source.contains_key(indices[place]),
        |place: int| source[indices[place]],
    )
}

/// Why an extraction from a vector is refused, if it is: a selection that has not the
/// length of the sub-vector is a `DimensionMismatch`; after that, a selected index
/// at or beyond the length of the source is an `IndexOutOfBounds`; after that, a
/// mask of another length than the sub-vector is a `ShapeMismatch`.
pub open spec fn vector_extraction_refusal(
    source: usize,
    indices: ElementIndexSelector,
    sub_vector: usize,
    mask: Option<usize>,
) -> Option<SparseLinearAlgebraError> {
    if indices.resolved(source).len() != sub_vector {
        Some(SparseLinearAlgebraError::DimensionMismatch)
    } else if !indices.fits(source) {
        Some(SparseLinearAlgebraError::IndexOutOfBounds)
    } else if mask is Some && mask != Some(sub_vector) {
        Some(SparseLinearAlgebraError::ShapeMismatch)
    } else {
        None
    }
}

/// What an extraction from a vector leaves behind. A refused call leaves the
/// sub-vector as it was; else what was extracted is written into it through the mask
/// and the accumulator.
pub open spec fn vector_extraction_made<T: ValueType>(
    accumulator: Option<BinaryOperatorType>,
    options: OperatorOptions,
    permitted: Set<int>,
    mask_extent: Option<usize>,
    vector_to_extract_from: SparseVector<T>,
    indices: ElementIndexSelector,
    before: SparseVector<T>,
    after: SparseVector<T>,
    outcome: Result<(), SparseLinearAlgebraError>,
) -> bool {
    &&& after.extent() == before.extent()
    &&& match vector_extraction_refusal(
        vector_to_extract_from.extent(),
        indices,
        before.extent(),
        mask_extent,
    ) {
        Some(error) => outcome == Err::<(), SparseLinearAlgebraError>(error) && after@ == before@,
        None => outcome is Ok && after@ == written(
            before@,
            vector_extracted(
                vector_to_extract_from@,
                indices.resolved(vector_to_extract_from.extent()),
            ),
            permitted,
            accumulator,
            options.clear_result_before_write,
        ),
    }
}

/// Takes a selection of indices out of a vector and writes it into a sub-vector
/// through a mask and an accumulator.
pub(crate) fn extract_vector_into<T: ValueType, M: ValueType>(
    accumulator: Option<BinaryOperatorType>,
    options: &OperatorOptions,
    mask: Option<&SparseVector<M>>,
    by_value: bool,
    vector_to_extract_from: &SparseVector<T>,
    indices_to_extract: &ElementIndexSelector,
    sub_vector: &mut SparseVector<T>,
) -> (outcome: Result<(), SparseLinearAlgebraError>)
    ensures
        vector_extraction_made(
            accumulator,
            *options,
            permitted_by(vector_mask_entries(mask), by_value),
            vector_mask_extent(mask),
            *vector_to_extract_from,
            *indices_to_extract,
            *old(sub_vector),
            *final(sub_vector),
            outcome,
        ),
{
    let length = vector_to_extract_from.length();
    if indices_to_extract.number_of_selected_elements(length) != sub_vector.length() {
        return Err(SparseLinearAlgebraError::DimensionMismatch);
    }
    if !indices_to_extract.is_inside(length) {
        return Err(SparseLinearAlgebraError::IndexOutOfBounds);
    }
    match mask {
        Some(mask_vector) => {
            if mask_vector.length() != sub_vector.length() {
                return Err(SparseLinearAlgebraError::ShapeMismatch);
            }
        },
        None => {},
    }
    let column = vector_to_extract_from.as_column();
    let selected = gather_rows(column, indices_to_extract);
    assert(column_entries(selected@) =~= vector_extracted(
        vector_to_extract_from@,
        indices_to_extract.resolved(length),
    ));
    let selected = SparseVector::from_column(selected);
    write_vector(sub_vector, &selected, mask, by_value, accumulator, options.clear_result_before_write);
    Ok(())
}

/// Extraction of a sub-vector.
#[derive(Debug)]
pub struct SubVectorExtractor<Vector: ValueType, SubVector: ValueType> {
    _vector: PhantomData<Vector>,
    _sub_vector: PhantomData<SubVector>,
    accumulator: Option<BinaryOperatorType>,
    options: OperatorOptions,
}

impl<Vector: ValueType, SubVector: ValueType> SubVectorExtractor<Vector, SubVector> {
    /// The operator that combines what the sub-vector holds with what was extracted,
    /// if there is one.
    pub closed spec fn accumulator(&self) -> Option<BinaryOperatorType> {
        self.accumulator
    }

    pub closed spec fn options(&self) -> OperatorOptions {
        self.options
    }

    pub fn new(
        options: &OperatorOptions,
        accumulator: Option<&dyn BinaryOperator<SubVector, SubVector, SubVector>>,
    ) -> (extractor: Self)
        ensures
            extractor.options() == *options,
            extractor.accumulator() == accumulator_type(accumulator),
    {
        Self {
            accumulator: resolve_accumulator(accumulator),
            options: *options,
            _vector: PhantomData,
            _sub_vector: PhantomData,
        }
    }
}

impl<T: ValueType> SubVectorExtractor<T, T> {
    /// Writes the selected indices of a vector into `sub_vector`, every index
    /// permitted. The selection must have the length of `sub_vector`.
    pub fn apply(
        &self,
        vector_to_extract_from: &SparseVector<T>,
        indices_to_extract: &ElementIndexSelector,
        sub_vector: &mut SparseVector<T>,
    ) -> (outcome: Result<(), SparseLinearAlgebraError>)
        ensures
            vector_extraction_made(
                self.accumulator(),
                self.options(),
                Set::full(),
                None,
                *vector_to_extract_from,
                *indices_to_extract,
                *old(sub_vector),
                *final(sub_vector),
                outcome,
            ),
    {
        extract_vector_into::<T, T>(
            self.accumulator,
            &self.options,
            None,
            false,
            vector_to_extract_from,
            indices_to_extract,
            sub_vector,
        )
    }

    /// Writes the selected indices of a vector into the indices of `sub_vector` that
    /// the mask permits.
    pub fn apply_with_mask<MaskValueType: ValueType>(
        &self,
        vector_to_extract_from: &SparseVector<T>,
        indices_to_extract: &ElementIndexSelector,
        sub_vector: &mut SparseVector<T>,
        mask: &VectorMask<MaskValueType>,
    ) -> (outcome: Result<(), SparseLinearAlgebraError>)
        ensures
            vector_extraction_made(
                self.accumulator(),
                self.options(),
                mask.permitted(),
                mask.extent(),
                *vector_to_extract_from,
                *indices_to_extract,
                *old(sub_vector),
                *final(sub_vector),
                outcome,
            ),
    {
        extract_vector_into(
            self.accumulator,
            &self.options,
            mask.vector(),
            mask.is_by_value(),
            vector_to_extract_from,
            indices_to_extract,
            sub_vector,
        )
    }
}

} // verus!
