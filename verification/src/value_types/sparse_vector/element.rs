use vstd::prelude::*;
use crate::error::SparseLinearAlgebraError;
use crate::value_types::value_type::ValueType;

verus! {

/// One entry of a vector: where it stands and what it holds.
#[derive(Debug, Clone, Copy, PartialEq)]
pub struct VectorElement<T: ValueType> {
    pub index: usize,
    pub value: T,
}

impl<T: ValueType> VectorElement<T> {
    pub fn new(index: usize, value: T) -> (element: Self)
        ensures
            element.index == index,
            element.value == value,
    {
        Self { index, value }
    }

    pub fn index(&self) -> (index: usize)
        ensures
            index == self.index,
    {
        self.index
    }

    pub fn value(&self) -> (value: T)
        ensures
            value == self.value,
    {
        self.value
    }

    pub fn from_pair(index: usize, value: T) -> (element: Self)
        ensures
            element.index == index,
            element.value == value,
    {
        Self::new(index, value)
    }
}

impl<T: ValueType> From<(usize, T)> for VectorElement<T> {
    fn from(element: (usize, T)) -> (vector_element: Self) {
        VectorElement { index: element.0, value: element.1 }
    }
}

impl<T: ValueType> vstd::std_specs::convert::FromSpecImpl<(usize, T)> for VectorElement<T> {
    open spec fn obeys_from_spec() -> bool {
        true
    }

    open spec fn from_spec(element: (usize, T)) -> Self {
        VectorElement { index: element.0, value: element.1 }
    }
}

/// A list of vector elements: the indices and the values, each in a vector of its
/// own, both of one length.
///
/// The list may name an index more than once. The view is the sequence of its
/// elements.
#[derive(Debug, PartialEq)]
pub struct VectorElementList<T: ValueType> {
    index: Vec<usize>,
    value: Vec<T>,
}

impl<T: ValueType> View for VectorElementList<T> {
    type V = Seq<VectorElement<T>>;

    closed spec fn view(&self) -> Seq<VectorElement<T>> {
        Seq::new(
            self.value@.len(),
            |i: int| VectorElement { index: self.index@[i], value: self.value@[i] },
        )
    }
}

impl<T: ValueType> Clone for VectorElementList<T> {
    fn clone(&self) -> (list: Self)
        ensures
            list@ == self@,
    {
        let mut list = Self::with_capacity(self.length());
        let mut i: usize = 0;
        while i < self.length()
            invariant
                i <= self@.len(),
                list@ == self@.take(i as int),
            decreases self@.len() - i,
        {
            list.push_element(self.element(i));
            assert(self@.take(i as int).push(self@[i as int]) =~= self@.take(i + 1));
            i = i + 1;
        }
        assert(self@.take(self@.len() as int) =~= self@);
        list
    }
}

impl<T: ValueType> VectorElementList<T> {
    #[verifier::type_invariant]
    spec fn well_formed(&self) -> bool {
        self.index@.len() == self.value@.len()
    }

    pub fn new() -> (list: Self)
        ensures
            list@ == Seq::<VectorElement<T>>::empty(),
    {
        let list = Self { index: Vec::new(), value: Vec::new() };
        assert(list@ =~= Seq::<VectorElement<T>>::empty());
        list
    }

    pub fn with_capacity(capacity: usize) -> (list: Self)
        ensures
            list@ == Seq::<VectorElement<T>>::empty(),
    {
        let list = Self { index: Vec::with_capacity(capacity), value: Vec::with_capacity(capacity) };
        assert(list@ =~= Seq::<VectorElement<T>>::empty());
        list
    }

    /// Makes a list of two vectors, which must be of one length.
    pub fn from_vectors(index: Vec<usize>, value: Vec<T>) -> (list: Result<
        Self,
        SparseLinearAlgebraError,
    >)
        ensures
            index@.len() == value@.len() ==> list is Ok && list->Ok_0@.len() == value@.len()
                && forall|i: int|
                0 <= i < value@.len() ==> #[trigger] list->Ok_0@[i] == (VectorElement {
                    index: index@[i],
                    value: value@[i],
                }),
            index@.len() != value@.len() ==> list is Err && list->Err_0
                == SparseLinearAlgebraError::DimensionMismatch,
    {
        if index.len() == value.len() {
            Ok(Self { index, value })
        } else {
            Err(SparseLinearAlgebraError::DimensionMismatch)
        }
    }

    pub fn from_element_vector(elements: Vec<VectorElement<T>>) -> (list: Self)
        ensures
            list@ == elements@,
    {
        let mut list: Self = Self::with_capacity(elements.len());
        let mut i: usize = 0;
        while i < elements.len()
            invariant
                i <= elements@.len(),
                list@ == elements@.take(i as int),
            decreases elements@.len() - i,
        {
            list.push_element(elements[i]);
            assert(elements@.take(i as int).push(elements@[i as int]) =~= elements@.take(i + 1));
            i = i + 1;
        }
        assert(elements@.take(elements@.len() as int) =~= elements@);
        list
    }

    pub fn push_element(&mut self, element: VectorElement<T>)
        ensures
            final(self)@ == old(self)@.push(element),
    {
        proof {
            use_type_invariant(&*self);
        }
        let mut emptied = Self::new();
        std::mem::swap(&mut emptied, self);
        let Self { mut index, mut value } = emptied;
        index.push(element.index());
        value.push(element.value());
        *self = Self { index, value };
        assert(self@ =~= old(self)@.push(element));
    }

    pub fn append_element_vec(&mut self, elements: Vec<VectorElement<T>>)
        ensures
            final(self)@ == old(self)@ + elements@,
    {
        let mut i: usize = 0;
        while i < elements.len()
            invariant
                i <= elements@.len(),
                self@ == old(self)@ + elements@.take(i as int),
            decreases elements@.len() - i,
        {
            self.push_element(elements[i]);
            assert((old(self)@ + elements@.take(i as int)).push(elements@[i as int]) =~= old(self)@
                + elements@.take(i + 1));
            i = i + 1;
        }
        assert(elements@.take(elements@.len() as int) =~= elements@);
    }

    pub fn indices_ref(&self) -> (indices: &[usize])
        ensures
            indices@.len() == self@.len(),
            forall|i: int| 0 <= i < self@.len() ==> #[trigger] indices@[i] == self@[i].index,
    {
        proof {
            use_type_invariant(self);
        }
        self.index.as_slice()
    }

    /// The index of the element at a place in the list. A place at or beyond the
    /// list's length is refused.
    pub fn index(&self, index: usize) -> (element_index: Result<&usize, SparseLinearAlgebraError>)
        ensures
            index < self@.len() ==> element_index is Ok && *element_index->Ok_0
                == self@[index as int].index,
            index >= self@.len() ==> element_index is Err && element_index->Err_0
                == SparseLinearAlgebraError::IndexOutOfBounds,
    {
        proof {
            use_type_invariant(self);
        }
        if index < self.length() {
            Ok(&self.index[index])
        } else {
            Err(SparseLinearAlgebraError::IndexOutOfBounds)
        }
    }

    pub fn values_ref(&self) -> (values: &[T])
        ensures
            values@.len() == self@.len(),
            forall|i: int| 0 <= i < self@.len() ==> #[trigger] values@[i] == self@[i].value,
    {
        self.value.as_slice()
    }

    pub fn length(&self) -> (length: usize)
        ensures
            length == self@.len(),
    {
        self.value.len()
    }

    /// The element at a place in the list.
    pub fn element(&self, index: usize) -> (element: VectorElement<T>)
        requires
            index < self@.len(),
        ensures
            element == self@[index as int],
    {
        proof {
            use_type_invariant(self);
        }
        VectorElement { index: self.index[index], value: self.value[index] }
    }
}

} // verus!
