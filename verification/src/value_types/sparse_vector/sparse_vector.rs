use vstd::prelude::*;
use crate::error::SparseLinearAlgebraError;
use crate::operators::binary_operator::{BinaryOperator, BinaryOperatorType};
use crate::value_types::sparse_matrix::coordinate::Coordinate;
use crate::value_types::sparse_matrix::element::MatrixElement;
use crate::value_types::sparse_matrix::size::Size;
use crate::value_types::sparse_matrix::sparse_matrix::{comes_before, SparseMatrix};
use crate::value_types::sparse_vector::element::{VectorElement, VectorElementList};
use crate::value_types::value_type::{value_or_zero, ValueType};

verus! {

/// The entries of the first column of a matrix, by their row.
pub open spec fn column_entries<T>(entries: Map<(int, int), T>) -> Map<int, T> {
    Map::new(|index: int| entries.contains_key((index, 0)), |index: int| entries[(index, 0)])
}

/// Whether each element of a list stands before all that follow it. Such a list
/// names no index twice.
pub open spec fn in_index_order<T: ValueType>(elements: Seq<VectorElement<T>>) -> bool {
    forall|i: int, j: int| 0 <= i < j < elements.len() ==> elements[i].index < elements[j].index
}

/// Whether a list of elements names exactly the entries of a map, each of them once.
pub open spec fn lists_vector_entries_of<T: ValueType>(
    elements: Seq<VectorElement<T>>,
    entries: Map<int, T>,
) -> bool {
    &&& forall|i: int|
        0 <= i < elements.len() ==> entries.contains_pair(
            #[trigger] elements[i].index as int,
            elements[i].value,
        )
    &&& forall|index: int| #[trigger]
        entries.contains_key(index) ==> exists|i: int|
            0 <= i < elements.len() && #[trigger] elements[i].index == index
    &&& forall|i: int, j: int|
        0 <= i < j < elements.len() ==> #[trigger] elements[i].index != #[trigger] elements[j].index
}

/// The entries that a list of elements builds. Where the list names an index again,
/// the operator combines what the index holds, as its first argument, with the new
/// value.
pub open spec fn vector_built_from<T: ValueType>(
    elements: Seq<VectorElement<T>>,
    operator: BinaryOperatorType,
) -> Map<int, T>
    decreases elements.len(),
{
    if elements.len() == 0 {
        Map::empty()
    } else {
        let front = vector_built_from(elements.drop_last(), operator);
        let last = elements.last();
        if front.contains_key(last.index as int) {
            front.insert(last.index as int, operator.apply(front[last.index as int], last.value))
        } else {
            front.insert(last.index as int, last.value)
        }
    }
}

/// A list builds entries only at the indices that it names.
pub(crate) proof fn lemma_vector_built_from_names_only<T: ValueType>(
    elements: Seq<VectorElement<T>>,
    operator: BinaryOperatorType,
    index: int,
)
    requires
        forall|i: int| 0 <= i < elements.len() ==> #[trigger] elements[i].index != index,
    ensures
        !vector_built_from(elements, operator).contains_key(index),
    decreases elements.len(),
{
    if elements.len() > 0 {
        assert forall|i: int| 0 <= i < elements.drop_last().len() implies #[trigger] elements.drop_last()[i].index
            != index by {
            assert(elements.drop_last()[i] == elements[i]);
        }
        lemma_vector_built_from_names_only(elements.drop_last(), operator, index);
        assert(elements.last() == elements[elements.len() - 1]);
    }
}

/// Reading back what a list without repeated indices has built yields, at every index
/// that the list names, the value that it names there, and the domain's zero at every
/// other index.
pub proof fn lemma_vector_built_from_round_trip<T: ValueType>(
    elements: Seq<VectorElement<T>>,
    operator: BinaryOperatorType,
)
    requires
        forall|i: int, j: int|
            0 <= i < j < elements.len() ==> #[trigger] elements[i].index != #[trigger] elements[j].index,
    ensures
        forall|i: int|
            0 <= i < elements.len() ==> value_or_zero(
                vector_built_from(elements, operator),
                #[trigger] elements[i].index as int,
            ) == elements[i].value && vector_built_from(elements, operator).contains_key(
                elements[i].index as int,
            ),
        forall|index: int|
            (forall|i: int| 0 <= i < elements.len() ==> #[trigger] elements[i].index != index)
                ==> #[trigger] value_or_zero(vector_built_from(elements, operator), index)
                == T::from_boolean_spec(false) && !vector_built_from(elements, operator).contains_key(
                index,
            ),
    decreases elements.len(),
{
    assert forall|index: int|
        (forall|i: int| 0 <= i < elements.len() ==> #[trigger] elements[i].index != index)
            implies #[trigger] value_or_zero(vector_built_from(elements, operator), index)
        == T::from_boolean_spec(false) && !vector_built_from(elements, operator).contains_key(
        index,
    ) by {
        lemma_vector_built_from_names_only(elements, operator, index);
    }
    if elements.len() > 0 {
        let front = elements.drop_last();
        let last = elements.last();
        assert forall|i: int, j: int| 0 <= i < j < front.len() implies #[trigger] front[i].index
            != #[trigger] front[j].index by {
            assert(front[i] == elements[i] && front[j] == elements[j]);
        }
        lemma_vector_built_from_round_trip(front, operator);
        assert forall|i: int| 0 <= i < front.len() implies #[trigger] front[i].index
            != last.index by {
            assert(front[i] == elements[i]);
            assert(last == elements[elements.len() - 1]);
        }
        lemma_vector_built_from_names_only(front, operator, last.index as int);
        assert forall|i: int| 0 <= i < elements.len() implies value_or_zero(
            vector_built_from(elements, operator),
            #[trigger] elements[i].index as int,
        ) == elements[i].value && vector_built_from(elements, operator).contains_key(
            elements[i].index as int,
        ) by {
            if i < front.len() {
                assert(front[i] == elements[i]);
                assert(front[i].index != last.index);
            }
        }
    }
}

/// Whether every element of a list lies inside a vector of the given length.
pub open spec fn all_below<T: ValueType>(elements: Seq<VectorElement<T>>, length: usize) -> bool {
    forall|i: int| 0 <= i < elements.len() ==> #[trigger] elements[i].index < length
}

/// A sparse vector over one scalar domain: a length, fixed when the vector is made,
/// and the entries stored in it, at most one for each index below the length.
///
/// The view is the map from the stored indices to the stored values. The vector is
/// kept as a matrix of one column.
#[derive(Debug, PartialEq)]
pub struct SparseVector<T: ValueType> {
    column: SparseMatrix<T>,
}

impl<T: ValueType> View for SparseVector<T> {
    type V = Map<int, T>;

    closed spec fn view(&self) -> Map<int, T> {
        column_entries(self.column@)
    }
}

impl<T: ValueType> Clone for SparseVector<T> {
    fn clone(&self) -> (vector: Self)
        ensures
            vector.extent() == self.extent(),
            vector@ == self@,
    {
        proof {
            use_type_invariant(self);
        }
        SparseVector { column: self.column.clone() }
    }
}

impl<T: ValueType> SparseVector<T> {
    #[verifier::type_invariant]
    spec fn well_formed(&self) -> bool {
        self.column.shape().column_width == 1
    }

    /// The length of the vector.
    pub closed spec fn extent(&self) -> usize {
        self.column.shape().row_height
    }

    /// What reading an index yields: the stored value, or the domain's zero where
    /// nothing is stored.
    pub open spec fn value_at(&self, index: int) -> T {
        value_or_zero(self@, index)
    }

    /// An empty vector of the given length.
    pub fn new(length: &usize) -> (vector: Self)
        ensures
            vector.extent() == *length,
            vector@ == Map::<int, T>::empty(),
    {
        let vector = SparseVector {
            column: SparseMatrix::new(&Size { row_height: *length, column_width: 1 }),
        };
        assert(vector@ =~= Map::<int, T>::empty());
        vector
    }

    /// The vector that a matrix of one column is.
    pub(crate) fn from_column(column: SparseMatrix<T>) -> (vector: Self)
        requires
            column.shape().column_width == 1,
        ensures
            vector.extent() == column.shape().row_height,
            vector@ == column_entries(column@),
    {
        SparseVector { column }
    }

    /// The vector as a matrix of one column.
    pub fn as_column(&self) -> (column: &SparseMatrix<T>)
        ensures
            column.shape() == (Size { row_height: self.extent(), column_width: 1 }),
            column_entries(column@) == self@,
            forall|position: (int, int)| #[trigger]
                column@.contains_key(position) ==> position.1 == 0 && 0 <= position.0 < self.extent(),
    {
        proof {
            use_type_invariant(self);
        }
        let elements = self.column.elements();
        &self.column
    }

    pub fn length(&self) -> (length: usize)
        ensures
            length == self.extent(),
    {
        self.column.row_height()
    }

    /// How many entries are stored.
    pub fn number_of_stored_elements(&self) -> (count: usize)
        ensures
            self@.dom().finite(),
            count == self@.dom().len(),
    {
        let column = self.as_column();
        let count = column.number_of_stored_elements();
        proof {
            lemma_column_counts(column@);
        }
        count
    }

    /// The entry stored at an index, if there is one.
    pub fn get_element(&self, index: usize) -> (value: Option<T>)
        ensures
            value == self@.get(index as int),
    {
        self.column.get_element(&Coordinate { row_index: index, column_index: 0 })
    }

    /// What reading an index yields: the stored value, or the domain's zero where
    /// nothing is stored. An index at or beyond the length is refused.
    pub fn get_element_value(&self, index: &usize) -> (value: Result<T, SparseLinearAlgebraError>)
        ensures
            *index < self.extent() ==> value == Ok::<T, SparseLinearAlgebraError>(
                self.value_at(*index as int),
            ),
            *index >= self.extent() ==> value == Err::<T, SparseLinearAlgebraError>(
                SparseLinearAlgebraError::IndexOutOfBounds,
            ),
    {
        proof {
            use_type_invariant(self);
        }
        self.column.get_element_value(&Coordinate { row_index: *index, column_index: 0 })
    }

    /// Stores an element, in place of what its index held. An index at or beyond the
    /// length is refused.
    pub fn set_element(&mut self, element: VectorElement<T>) -> (outcome: Result<
        (),
        SparseLinearAlgebraError,
    >)
        ensures
            final(self).extent() == old(self).extent(),
            element.index < old(self).extent() ==> outcome is Ok && final(self)@ == old(self)@.insert(
                element.index as int,
                element.value,
            ),
            element.index >= old(self).extent() ==> outcome == Err::<(), SparseLinearAlgebraError>(
                SparseLinearAlgebraError::IndexOutOfBounds,
            ) && final(self)@ == old(self)@,
    {
        if element.index < self.length() {
            self.store(element);
            Ok(())
        } else {
            Err(SparseLinearAlgebraError::IndexOutOfBounds)
        }
    }

    /// Stores an element whose index lies below the length, in place of what the
    /// index held.
    pub(crate) fn store(&mut self, element: VectorElement<T>)
        requires
            element.index < old(self).extent(),
        ensures
            final(self).extent() == old(self).extent(),
            final(self)@ == old(self)@.insert(element.index as int, element.value),
    {
        proof {
            use_type_invariant(&*self);
        }
        let mut column = SparseMatrix::new(&Size { row_height: 0, column_width: 1 });
        std::mem::swap(&mut column, &mut self.column);
        column.store(
            MatrixElement {
                coordinate: Coordinate { row_index: element.index, column_index: 0 },
                value: element.value,
            },
        );
        self.column = column;
        assert(self@ =~= old(self)@.insert(element.index as int, element.value));
    }

    /// Empties an index. Nothing changes where the index held nothing.
    pub fn drop_element(&mut self, index: usize)
        ensures
            final(self).extent() == old(self).extent(),
            final(self)@ == old(self)@.remove(index as int),
    {
        proof {
            use_type_invariant(&*self);
        }
        let mut column = SparseMatrix::new(&Size { row_height: 0, column_width: 1 });
        std::mem::swap(&mut column, &mut self.column);
        column.drop_element(&Coordinate { row_index: index, column_index: 0 });
        self.column = column;
        assert(self@ =~= old(self)@.remove(index as int));
    }

    /// A vector of the given length that holds what a list of elements names. An
    /// element at or beyond the length is refused. Where the list names an index
    /// again, the operator combines what the index holds with the new value.
    pub fn from_element_list(
        length: &usize,
        elements: &VectorElementList<T>,
        reduction_operator_for_duplicates: &dyn BinaryOperator<T, T, T>,
    ) -> (vector: Result<Self, SparseLinearAlgebraError>)
        ensures
            all_below(elements@, *length) ==> vector is Ok && vector->Ok_0.extent() == *length
                && vector->Ok_0@ == vector_built_from(
                elements@,
                reduction_operator_for_duplicates.operator_type(),
            ),
            !all_below(elements@, *length) ==> vector is Err && vector->Err_0
                == SparseLinearAlgebraError::IndexOutOfBounds,
    {
        let operator = reduction_operator_for_duplicates.graphblas_type();
        let mut vector = Self::new(length);
        let mut i: usize = 0;
        while i < elements.length()
            invariant
                i <= elements@.len(),
                vector.extent() == *length,
                all_below(elements@.take(i as int), *length),
                vector@ == vector_built_from(elements@.take(i as int), operator),
            decreases elements@.len() - i,
        {
            let element = elements.element(i);
            proof {
                assert(elements@.take(i + 1).drop_last() =~= elements@.take(i as int));
                assert(elements@.take(i + 1).last() == element);
            }
            let value = match vector.get_element(element.index) {
                Some(held) => operator.evaluate(&held, &element.value),
                None => element.value,
            };
            match vector.set_element(VectorElement { index: element.index, value }) {
                Ok(_) => {},
                Err(error) => {
                    assert(!(elements@[i as int].index < *length));
                    return Err(error);
                },
            }
            proof {
                assert forall|j: int| 0 <= j < i + 1 implies #[trigger] elements@.take(i + 1)[j].index
                    < *length by {
                    if j < i {
                        assert(elements@.take(i as int)[j] == elements@[j]);
                    }
                }
            }
            i = i + 1;
        }
        assert(elements@.take(elements@.len() as int) =~= elements@);
        Ok(vector)
    }

    /// The stored entries as a list, in the order of their indices.
    pub fn get_element_list(&self) -> (list: VectorElementList<T>)
        ensures
            in_index_order(list@),
            lists_vector_entries_of(list@, self@),
    {
        let column = self.as_column();
        let elements = column.elements();
        let mut list = VectorElementList::with_capacity(elements.len());
        let mut i: usize = 0;
        while i < elements.len()
            invariant
                i <= elements@.len(),
                list@.len() == i,
                forall|j: int|
                    0 <= j < i ==> #[trigger] list@[j] == (VectorElement {
                        index: elements@[j].coordinate.row_index,
                        value: elements@[j].value,
                    }),
            decreases elements@.len() - i,
        {
            list.push_element(
                VectorElement { index: elements[i].coordinate.row_index, value: elements[i].value },
            );
            i = i + 1;
        }
        proof {
            assert forall|a: int, b: int| 0 <= a < b < list@.len() implies list@[a].index
                < list@[b].index by {
                assert(column@.contains_pair(elements@[a].position(), elements@[a].value));
                assert(column@.contains_pair(elements@[b].position(), elements@[b].value));
                assert(comes_before(
                    elements@[a].position(),
                    elements@[b].position(),
                ));
            }
            assert forall|a: int| 0 <= a < list@.len() implies self@.contains_pair(
                #[trigger] list@[a].index as int,
                list@[a].value,
            ) by {
                assert(column@.contains_pair(elements@[a].position(), elements@[a].value));
            }
            assert forall|index: int| #[trigger] self@.contains_key(index) implies exists|a: int|
                0 <= a < list@.len() && #[trigger] list@[a].index == index by {
                assert(column@.contains_key((index, 0)));
                let a = choose|a: int|
                    0 <= a < elements@.len() && #[trigger] elements@[a].position() == (index, 0int);
                assert(list@[a].index == index);
            }
        }
        list
    }
}

/// A matrix of one column stores as many entries as the vector that it is.
pub(crate) proof fn lemma_column_counts<T>(entries: Map<(int, int), T>)
    requires
        entries.dom().finite(),
        forall|position: (int, int)| #[trigger] entries.contains_key(position) ==> position.1 == 0,
    ensures
        column_entries(entries).dom().finite(),
        column_entries(entries).dom().len() == entries.dom().len(),
    decreases entries.dom().len(),
{
    if entries.dom().len() == 0 {
        assert(entries.dom() =~= Set::<(int, int)>::empty());
        assert(column_entries(entries).dom() =~= Set::<int>::empty());
    } else {
        let position = entries.dom().choose();
        let rest = entries.remove(position);
        lemma_column_counts(rest);
        assert(column_entries(entries).dom() =~= column_entries(rest).dom().insert(position.0));
        assert(!column_entries(rest).dom().contains(position.0));
    }
}

} // verus!
