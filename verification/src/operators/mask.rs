use vstd::prelude::*;
use crate::value_types::sparse_matrix::coordinate::Coordinate;
use crate::value_types::sparse_matrix::size::Size;
use crate::value_types::sparse_matrix::sparse_matrix::SparseMatrix;
use crate::value_types::sparse_vector::sparse_vector::{column_entries, SparseVector};
use crate::value_types::value_type::ValueType;

verus! {

/// The positions that the entries of a mask permit: all of them where there is no
/// mask; else those that the mask stores, and, where the mask is read by value,
/// only those whose stored value the domain's truth predicate accepts.
pub open spec fn permitted_by<K, M: ValueType>(mask: Option<Map<K, M>>, by_value: bool) -> Set<K> {
    match mask {
        None => Set::full(),
        Some(entries) => Set::new(
            |position: K|
                entries.contains_key(position) && (!by_value || entries[position].as_boolean_spec()),
        ),
    }
}

/// What a mask permits, by the way it is read: without a mask every position; by
/// structure the positions that the mask stores; by value those among them whose
/// stored value the domain's truth predicate accepts.
pub proof fn lemma_mask_interpretations<K, M: ValueType>(entries: Map<K, M>, position: K)
    ensures
        permitted_by(None::<Map<K, M>>, false).contains(position),
        permitted_by(None::<Map<K, M>>, true).contains(position),
        permitted_by(Some(entries), false).contains(position) <==> entries.contains_key(position),
        permitted_by(Some(entries), true).contains(position) <==> entries.contains_key(position)
            && entries[position].as_boolean_spec(),
{
}

/// A filter on the positions of a result matrix that an operation may write. It is
/// only read, and it has no part in what the operation computes.
#[derive(Debug)]
pub enum MatrixMask<T: ValueType> {
    /// Every position may be written.
    Unmasked,
    /// A position may be written where the matrix stores an entry, whatever its value.
    ByStructure(SparseMatrix<T>),
    /// A position may be written where the matrix stores an entry whose value is true.
    ByValue(SparseMatrix<T>),
}

impl<T: ValueType> MatrixMask<T> {
    /// The entries of the matrix behind the mask, if there is one.
    pub open spec fn entries(&self) -> Option<Map<(int, int), T>> {
        match self {
            MatrixMask::Unmasked => None,
            MatrixMask::ByStructure(matrix) => Some(matrix@),
            MatrixMask::ByValue(matrix) => Some(matrix@),
        }
    }

    pub open spec fn by_value(&self) -> bool {
        self is ByValue
    }

    /// The positions that may be written.
    pub open spec fn permitted(&self) -> Set<(int, int)> {
        permitted_by(self.entries(), self.by_value())
    }

    /// The shape of the matrix behind the mask, if there is one.
    pub open spec fn shape(&self) -> Option<Size> {
        match self {
            MatrixMask::Unmasked => None,
            MatrixMask::ByStructure(matrix) => Some(matrix.shape()),
            MatrixMask::ByValue(matrix) => Some(matrix.shape()),
        }
    }

    pub fn none() -> (mask: Self)
        ensures
            mask is Unmasked,
    {
        MatrixMask::Unmasked
    }

    pub fn structural(matrix: SparseMatrix<T>) -> (mask: Self)
        ensures
            mask == MatrixMask::ByStructure(matrix),
    {
        MatrixMask::ByStructure(matrix)
    }

    pub fn value(matrix: SparseMatrix<T>) -> (mask: Self)
        ensures
            mask == MatrixMask::ByValue(matrix),
    {
        MatrixMask::ByValue(matrix)
    }

    /// The matrix behind the mask, if there is one.
    pub fn matrix(&self) -> (matrix: Option<&SparseMatrix<T>>)
        ensures
            matrix == match self {
                MatrixMask::Unmasked => None,
                MatrixMask::ByStructure(matrix) => Some(matrix),
                MatrixMask::ByValue(matrix) => Some(matrix),
            },
            mask_entries(matrix) == self.entries(),
            mask_shape(matrix) == self.shape(),
    {
        match self {
            MatrixMask::Unmasked => None,
            MatrixMask::ByStructure(matrix) => Some(matrix),
            MatrixMask::ByValue(matrix) => Some(matrix),
        }
    }

    pub fn is_by_value(&self) -> (by_value: bool)
        ensures
            by_value == self.by_value(),
    {
        match self {
            MatrixMask::ByValue(_) => true,
            _ => false,
        }
    }
}

/// A matrix that is made a mask without more being said is read by value.
impl<T: ValueType> From<SparseMatrix<T>> for MatrixMask<T> {
    fn from(matrix: SparseMatrix<T>) -> (mask: Self) {
        MatrixMask::ByValue(matrix)
    }
}

impl<T: ValueType> vstd::std_specs::convert::FromSpecImpl<SparseMatrix<T>> for MatrixMask<T> {
    open spec fn obeys_from_spec() -> bool {
        true
    }

    open spec fn from_spec(matrix: SparseMatrix<T>) -> Self {
        MatrixMask::ByValue(matrix)
    }
}

/// The entries of an optional matrix.
pub open spec fn mask_entries<M: ValueType>(mask: Option<&SparseMatrix<M>>) -> Option<
    Map<(int, int), M>,
> {
    match mask {
        Some(matrix) => Some(matrix@),
        None => None,
    }
}

/// The shape of an optional matrix.
pub open spec fn mask_shape<M: ValueType>(mask: Option<&SparseMatrix<M>>) -> Option<Size> {
    match mask {
        Some(matrix) => Some(matrix.shape()),
        None => None,
    }
}

/// Whether the matrix behind a mask, read one way or the other, permits a coordinate.
pub(crate) fn permits<M: ValueType>(
    mask: Option<&SparseMatrix<M>>,
    by_value: bool,
    coordinate: &Coordinate,
) -> (permitted: bool)
    ensures
        permitted == permitted_by(mask_entries(mask), by_value).contains(coordinate.position()),
{
    match mask {
        None => true,
        Some(matrix) => match matrix.get_element(coordinate) {
            Some(value) => !by_value || value.as_boolean(),
            None => false,
        },
    }
}

/// A filter on the indices of a result vector that an operation may write. It is only
/// read, and it has no part in what the operation computes.
#[derive(Debug)]
pub enum VectorMask<T: ValueType> {
    /// Every index may be written.
    Unmasked,
    /// An index may be written where the vector stores an entry, whatever its value.
    ByStructure(SparseVector<T>),
    /// An index may be written where the vector stores an entry whose value is true.
    ByValue(SparseVector<T>),
}

impl<T: ValueType> VectorMask<T> {
    /// The entries of the vector behind the mask, if there is one.
    pub open spec fn entries(&self) -> Option<Map<int, T>> {
        match self {
            VectorMask::Unmasked => None,
            VectorMask::ByStructure(vector) => Some(vector@),
            VectorMask::ByValue(vector) => Some(vector@),
        }
    }

    pub open spec fn by_value(&self) -> bool {
        self is ByValue
    }

    /// The indices that may be written.
    pub open spec fn permitted(&self) -> Set<int> {
        permitted_by(self.entries(), self.by_value())
    }

    /// The length of the vector behind the mask, if there is one.
    pub open spec fn extent(&self) -> Option<usize> {
        match self {
            VectorMask::Unmasked => None,
            VectorMask::ByStructure(vector) => Some(vector.extent()),
            VectorMask::ByValue(vector) => Some(vector.extent()),
        }
    }

    pub fn none() -> (mask: Self)
        ensures
            mask is Unmasked,
    {
        VectorMask::Unmasked
    }

    pub fn structural(vector: SparseVector<T>) -> (mask: Self)
        ensures
            mask == VectorMask::ByStructure(vector),
    {
        VectorMask::ByStructure(vector)
    }

    pub fn value(vector: SparseVector<T>) -> (mask: Self)
        ensures
            mask == VectorMask::ByValue(vector),
    {
        VectorMask::ByValue(vector)
    }

    /// The vector behind the mask, if there is one.
    pub fn vector(&self) -> (vector: Option<&SparseVector<T>>)
        ensures
            vector == match self {
                VectorMask::Unmasked => None,
                VectorMask::ByStructure(vector) => Some(vector),
                VectorMask::ByValue(vector) => Some(vector),
            },
            vector_mask_entries(vector) == self.entries(),
            vector_mask_extent(vector) == self.extent(),
    {
        match self {
            VectorMask::Unmasked => None,
            VectorMask::ByStructure(vector) => Some(vector),
            VectorMask::ByValue(vector) => Some(vector),
        }
    }

    pub fn is_by_value(&self) -> (by_value: bool)
        ensures
            by_value == self.by_value(),
    {
        match self {
            VectorMask::ByValue(_) => true,
            _ => false,
        }
    }
}

/// A vector that is made a mask without more being said is read by value.
impl<T: ValueType> From<SparseVector<T>> for VectorMask<T> {
    fn from(vector: SparseVector<T>) -> (mask: Self) {
        VectorMask::ByValue(vector)
    }
}

impl<T: ValueType> vstd::std_specs::convert::FromSpecImpl<SparseVector<T>> for VectorMask<T> {
    open spec fn obeys_from_spec() -> bool {
        true
    }

    open spec fn from_spec(vector: SparseVector<T>) -> Self {
        VectorMask::ByValue(vector)
    }
}

/// The entries of an optional vector.
pub open spec fn vector_mask_entries<M: ValueType>(mask: Option<&SparseVector<M>>) -> Option<
    Map<int, M>,
> {
    match mask {
        Some(vector) => Some(vector@),
        None => None,
    }
}

/// The length of an optional vector.
pub open spec fn vector_mask_extent<M: ValueType>(mask: Option<&SparseVector<M>>) -> Option<usize> {
    match mask {
        Some(vector) => Some(vector.extent()),
        None => None,
    }
}

/// The matrix of one column that an optional vector is.
pub(crate) fn mask_column<M: ValueType>(
    mask: Option<&SparseVector<M>>,
) -> (column: Option<&SparseMatrix<M>>)
    ensures
        column is Some <==> mask is Some,
        mask is Some ==> column->Some_0.shape() == (Size {
            row_height: mask->Some_0.extent(),
            column_width: 1,
        }) && column_entries(column->Some_0@) == mask->Some_0@,
{
    match mask {
        Some(vector) => Some(vector.as_column()),
        None => None,
    }
}

} // verus!
