use vstd::prelude::*;
use crate::error::SparseLinearAlgebraError;
use crate::value_types::sparse_matrix::coordinate::Coordinate;
use crate::value_types::value_type::ValueType;

verus! {

/// One entry of a matrix: where it stands and what it holds.
#[derive(Debug, Clone, Copy, PartialEq)]
pub struct MatrixElement<T: ValueType> {
    pub coordinate: Coordinate,
    pub value: T,
}

impl<T: ValueType> MatrixElement<T> {
    /// Where the element stands, as a pair of mathematical integers, row first.
    pub open spec fn position(self) -> (int, int) {
        self.coordinate.position()
    }

    pub fn new(coordinate: Coordinate, value: T) -> (element: Self)
        ensures
            element.coordinate == coordinate,
            element.value == value,
    {
        Self { coordinate, value }
    }

    pub fn coordinate(&self) -> (coordinate: Coordinate)
        ensures
            coordinate == self.coordinate,
    {
        self.coordinate
    }

    pub fn row_index(&self) -> (row_index: usize)
        ensures
            row_index == self.coordinate.row_index,
    {
        self.coordinate.row_index
    }

    pub fn column_index(&self) -> (column_index: usize)
        ensures
            column_index == self.coordinate.column_index,
    {
        self.coordinate.column_index
    }

    pub fn value(&self) -> (value: T)
        ensures
            value == self.value,
    {
        self.value
    }

    pub fn from_triple(row_index: usize, column_index: usize, value: T) -> (element: Self)
        ensures
            element.coordinate.row_index == row_index,
            element.coordinate.column_index == column_index,
            element.value == value,
    {
        Self::new(Coordinate::new(row_index, column_index), value)
    }
}

impl<T: ValueType> From<(usize, usize, T)> for MatrixElement<T> {
    fn from(element: (usize, usize, T)) -> (matrix_element: Self) {
        MatrixElement {
            coordinate: Coordinate { row_index: element.0, column_index: element.1 },
            value: element.2,
        }
    }
}

impl<T: ValueType> vstd::std_specs::convert::FromSpecImpl<(usize, usize, T)> for MatrixElement<T> {
    open spec fn obeys_from_spec() -> bool {
        true
    }

    open spec fn from_spec(element: (usize, usize, T)) -> Self {
        MatrixElement {
            coordinate: Coordinate { row_index: element.0, column_index: element.1 },
            value: element.2,
        }
    }
}

/// A list of matrix elements in coordinate form: the row indices, the column indices
/// and the values, each in a vector of its own, all three of one length.
///
/// The list may name a position more than once. The view is the sequence of its
/// elements.
#[derive(Debug, PartialEq)]
pub struct MatrixElementList<T: ValueType> {
    row_index: Vec<usize>,
    column_index: Vec<usize>,
    value: Vec<T>,
}

impl<T: ValueType> View for MatrixElementList<T> {
    type V = Seq<MatrixElement<T>>;

    closed spec fn view(&self) -> Seq<MatrixElement<T>> {
        Seq::new(
            self.value@.len(),
            |i: int|
                MatrixElement {
                    coordinate: Coordinate {
                        row_index: self.row_index@[i],
                        column_index: self.column_index@[i],
                    },
                    value: self.value@[i],
                },
        )
    }
}

impl<T: ValueType> Clone for MatrixElementList<T> {
    fn clone(&self) -> (list: Self)
        ensures
            list@ == self@,
    {
        let mut list = Self::with_capacity(self.length());
        let mut i: usize = 0;
        while i < self.length()
            invariant
                i <= self@.len(),
                list@ == self@.take(i as int),
            decreases self@.len() - i,
        {
            list.push_element(self.element(i));
            assert(self@.take(i as int).push(self@[i as int]) =~= self@.take(i + 1));
            i = i + 1;
        }
        assert(self@.take(self@.len() as int) =~= self@);
        list
    }
}

impl<T: ValueType> MatrixElementList<T> {
    #[verifier::type_invariant]
    spec fn well_formed(&self) -> bool {
        self.row_index@.len() == self.value@.len() && self.column_index@.len() == self.value@.len()
    }

    pub fn new() -> (list: Self)
        ensures
            list@ == Seq::<MatrixElement<T>>::empty(),
    {
        let list = Self { row_index: Vec::new(), column_index: Vec::new(), value: Vec::new() };
        assert(list@ =~= Seq::<MatrixElement<T>>::empty());
        list
    }

    pub fn with_capacity(capacity: usize) -> (list: Self)
        ensures
            list@ == Seq::<MatrixElement<T>>::empty(),
    {
        let list = Self {
            row_index: Vec::with_capacity(capacity),
            column_index: Vec::with_capacity(capacity),
            value: Vec::with_capacity(capacity),
        };
        assert(list@ =~= Seq::<MatrixElement<T>>::empty());
        list
    }

    /// Makes a list of three vectors, which must be of one length.
    pub fn from_vectors(row_index: Vec<usize>, column_index: Vec<usize>, value: Vec<T>) -> (list: Result<
        Self,
        SparseLinearAlgebraError,
    >)
        ensures
            row_index@.len() == column_index@.len() && column_index@.len() == value@.len()
                ==> list is Ok && list->Ok_0@.len() == value@.len() && forall|i: int|
                0 <= i < value@.len() ==> #[trigger] list->Ok_0@[i] == (MatrixElement {
                    coordinate: Coordinate { row_index: row_index@[i], column_index: column_index@[i] },
                    value: value@[i],
                }),
            !(row_index@.len() == column_index@.len() && column_index@.len() == value@.len())
                ==> list is Err && list->Err_0 == SparseLinearAlgebraError::DimensionMismatch,
    {
        if (row_index.len() == column_index.len()) && (column_index.len() == value.len()) {
            Ok(Self { row_index, column_index, value })
        } else {
            Err(SparseLinearAlgebraError::DimensionMismatch)
        }
    }

    pub fn from_element_vector(elements: Vec<MatrixElement<T>>) -> (list: Self)
        ensures
            list@ == elements@,
    {
        let mut list: Self = Self::with_capacity(elements.len());
        let mut i: usize = 0;
        while i < elements.len()
            invariant
                i <= elements@.len(),
                list@ == elements@.take(i as int),
            decreases elements@.len() - i,
        {
            list.push_element(elements[i]);
            assert(elements@.take(i as int).push(elements@[i as int]) =~= elements@.take(i + 1));
            i = i + 1;
        }
        assert(elements@.take(elements@.len() as int) =~= elements@);
        list
    }

    pub fn push_element(&mut self, element: MatrixElement<T>)
        ensures
            final(self)@ == old(self)@.push(element),
    {
        proof {
            use_type_invariant(&*self);
        }
        let mut emptied = Self::new();
        std::mem::swap(&mut emptied, self);
        let Self { mut row_index, mut column_index, mut value } = emptied;
        row_index.push(element.row_index());
        column_index.push(element.column_index());
        value.push(element.value());
        *self = Self { row_index, column_index, value };
        assert(self@ =~= old(self)@.push(element));
    }

    pub fn append_element_vec(&mut self, elements: Vec<MatrixElement<T>>)
        ensures
            final(self)@ == old(self)@ + elements@,
    {
        let mut i: usize = 0;
        while i < elements.len()
            invariant
                i <= elements@.len(),
                self@ == old(self)@ + elements@.take(i as int),
            decreases elements@.len() - i,
        {
            self.push_element(elements[i]);
            assert((old(self)@ + elements@.take(i as int)).push(elements@[i as int]) =~= old(self)@
                + elements@.take(i + 1));
            i = i + 1;
        }
        assert(elements@.take(elements@.len() as int) =~= elements@);
    }

    pub fn row_indices_ref(&self) -> (row_indices: &[usize])
        ensures
            row_indices@.len() == self@.len(),
            forall|i: int|
                0 <= i < self@.len() ==> #[trigger] row_indices@[i] == self@[i].coordinate.row_index,
    {
        proof {
            use_type_invariant(self);
        }
        self.row_index.as_slice()
    }

    /// The row index of the element at a place in the list. A place at or beyond the
    /// list's length is refused.
    pub fn row_index(&self, index: usize) -> (row_index: Result<&usize, SparseLinearAlgebraError>)
        ensures
            index < self@.len() ==> row_index is Ok && *row_index->Ok_0
                == self@[index as int].coordinate.row_index,
            index >= self@.len() ==> row_index is Err && row_index->Err_0
                == SparseLinearAlgebraError::IndexOutOfBounds,
    {
        proof {
            use_type_invariant(self);
        }
        if index < self.length() {
            Ok(&self.row_index[index])
        } else {
            Err(SparseLinearAlgebraError::IndexOutOfBounds)
        }
    }

    /// The column index of the element at a place in the list. A place at or beyond the
    /// list's length is refused.
    pub fn column_index(&self, index: usize) -> (column_index: Result<
        &usize,
        SparseLinearAlgebraError,
    >)
        ensures
            index < self@.len() ==> column_index is Ok && *column_index->Ok_0
                == self@[index as int].coordinate.column_index,
            index >= self@.len() ==> column_index is Err && column_index->Err_0
                == SparseLinearAlgebraError::IndexOutOfBounds,
    {
        proof {
            use_type_invariant(self);
        }
        if index < self.length() {
            Ok(&self.column_index[index])
        } else {
            Err(SparseLinearAlgebraError::IndexOutOfBounds)
        }
    }

    pub fn column_indices_ref(&self) -> (column_indices: &[usize])
        ensures
            column_indices@.len() == self@.len(),
            forall|i: int|
                0 <= i < self@.len() ==> #[trigger] column_indices@[i]
                    == self@[i].coordinate.column_index,
    {
        proof {
            use_type_invariant(self);
        }
        self.column_index.as_slice()
    }

    pub fn values_ref(&self) -> (values: &[T])
        ensures
            values@.len() == self@.len(),
            forall|i: int| 0 <= i < self@.len() ==> #[trigger] values@[i] == self@[i].value,
    {
        self.value.as_slice()
    }

    pub fn length(&self) -> (length: usize)
        ensures
            length == self@.len(),
    {
        self.value.len()
    }

    /// The element at a place in the list.
    pub fn element(&self, index: usize) -> (element: MatrixElement<T>)
        requires
            index < self@.len(),
        ensures
            element == self@[index as int],
    {
        proof {
            use_type_invariant(self);
        }
        MatrixElement {
            coordinate: Coordinate {
                row_index: self.row_index[index],
                column_index: self.column_index[index],
            },
            value: self.value[index],
        }
    }
}

} // verus!
