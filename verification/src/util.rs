use vstd::prelude::*;

verus! {

/// The index of a row, a column or a vector element, counted from zero.
pub type ElementIndex = usize;

/// Whether an index is selected at a place and at none after it.
pub open spec fn is_last_place(selected: Seq<int>, index: int, place: int) -> bool {
    &&& 0 <= place < selected.len()
    &&& selected[place] == index
    &&& forall|later: int| place < later < selected.len() ==> selected[later] != index
}

/// The last place at which an index is selected, where it is selected at all.
pub open spec fn last_place(selected: Seq<int>, index: int) -> int {
    choose|place: int| is_last_place(selected, index, place)
}

/// An index has no more than one last place.
pub(crate) proof fn lemma_last_place_is_one(selected: Seq<int>, index: int, place: int)
    requires
        is_last_place(selected, index, place),
    ensures
        last_place(selected, index) == place,
{
    let chosen = last_place(selected, index);
    assert(is_last_place(selected, index, chosen));
    if chosen < place {
        assert(selected[place] != index);
    } else if place < chosen {
        assert(selected[chosen] != index);
    }
}

/// Which indices along one dimension of a container take part in an operation: all
/// of them, or those of a list, in its order, which may name an index more than once.
#[derive(Debug, Clone, Copy)]
pub enum ElementIndexSelector<'a> {
    Index(&'a Vec<ElementIndex>),
    All,
}

impl<'a> ElementIndexSelector<'a> {
    /// The selected indices along a dimension of the given extent, in order.
    pub open spec fn resolved(&self, dimension: usize) -> Seq<int> {
        match self {
            ElementIndexSelector::Index(indices) => Seq::new(indices@.len(), |i: int| indices@[i] as int),
            ElementIndexSelector::All => Seq::new(dimension as nat, |i: int| i),
        }
    }

    /// Whether every selected index lies inside a dimension of the given extent.
    pub open spec fn fits(&self, dimension: usize) -> bool {
        forall|i: int|
            0 <= i < self.resolved(dimension).len() ==> 0 <= #[trigger] self.resolved(dimension)[i]
                < dimension
    }

    pub fn number_of_selected_elements(
        &self,
        number_of_elements_in_dimension: usize,
    ) -> (count: usize)
        ensures
            count == self.resolved(number_of_elements_in_dimension).len(),
    {
        match self {
            ElementIndexSelector::Index(indices) => indices.len(),
            ElementIndexSelector::All => number_of_elements_in_dimension,
        }
    }

    /// Whether every selected index lies inside a dimension of the given extent.
    pub fn is_inside(&self, dimension: usize) -> (inside: bool)
        ensures
            inside == self.fits(dimension),
    {
        match self {
            ElementIndexSelector::All => true,
            ElementIndexSelector::Index(indices) => {
                let mut i: usize = 0;
                while i < indices.len()
                    invariant
                        i <= indices@.len(),
                        *self == ElementIndexSelector::Index(*indices),
                        forall|j: int|
                            0 <= j < i ==> 0 <= #[trigger] self.resolved(dimension)[j] < dimension,
                    decreases indices@.len() - i,
                {
                    if indices[i] >= dimension {
                        assert(!(self.resolved(dimension)[i as int] < dimension));
                        return false;
                    }
                    i = i + 1;
                }
                true
            },
        }
    }

    /// Whether an index is among the selected ones.
    pub open spec fn selects(&self, dimension: usize, index: int) -> bool {
        exists|place: int|
            0 <= place < self.resolved(dimension).len() && #[trigger] self.resolved(dimension)[place]
                == index
    }

    /// The index that stands at a place of the selection.
    pub fn index_at(&self, dimension: usize, place: usize) -> (index: ElementIndex)
        requires
            place < self.resolved(dimension).len(),
        ensures
            index == self.resolved(dimension)[place as int],
    {
        match self {
            ElementIndexSelector::Index(indices) => indices[place],
            ElementIndexSelector::All => place,
        }
    }

    /// Whether an index is among the selected ones.
    pub fn is_selected(&self, dimension: usize, index: ElementIndex) -> (selected: bool)
        ensures
            selected == self.selects(dimension, index as int),
    {
        match self {
            ElementIndexSelector::All => {
                if index < dimension {
                    assert(self.resolved(dimension)[index as int] == index);
                    true
                } else {
                    false
                }
            },
            ElementIndexSelector::Index(indices) => {
                let mut i: usize = 0;
                while i < indices.len()
                    invariant
                        i <= indices@.len(),
                        *self == ElementIndexSelector::Index(*indices),
                        forall|place: int|
                            0 <= place < i ==> #[trigger] self.resolved(dimension)[place] != index,
                    decreases indices@.len() - i,
                {
                    if indices[i] == index {
                        assert(self.resolved(dimension)[i as int] == index);
                        return true;
                    }
                    i = i + 1;
                }
                false
            },
        }
    }

    /// The last place at which an index is selected, if it is selected at all.
    pub fn last_place_of(&self, dimension: usize, index: ElementIndex) -> (place: Option<usize>)
        ensures
            place is Some <==> self.selects(dimension, index as int),
            place is Some ==> is_last_place(
                self.resolved(dimension),
                index as int,
                place->Some_0 as int,
            ) && last_place(self.resolved(dimension), index as int) == place->Some_0,
    {
        match self {
            ElementIndexSelector::All => {
                if index < dimension {
                    proof {
                        assert(self.resolved(dimension)[index as int] == index);
                        lemma_last_place_is_one(self.resolved(dimension), index as int, index as int);
                    }
                    Some(index)
                } else {
                    None
                }
            },
            ElementIndexSelector::Index(indices) => {
                let mut i: usize = indices.len();
                while i > 0
                    invariant
                        i <= indices@.len(),
                        *self == ElementIndexSelector::Index(*indices),
                        forall|later: int|
                            i <= later < indices@.len() ==> #[trigger] self.resolved(dimension)[later]
                                != index,
                    decreases i,
                {
                    i = i - 1;
                    if indices[i] == index {
                        proof {
                            assert(self.resolved(dimension)[i as int] == index);
                            lemma_last_place_is_one(self.resolved(dimension), index as int, i as int);
                        }
                        return Some(i);
                    }
                }
                None
            },
        }
    }

    /// The places in the selection, in increasing order, at which an index is selected.
    pub fn places_of(&self, dimension: usize, index: ElementIndex) -> (places: Vec<usize>)
        ensures
            forall|a: int|
                0 <= a < places@.len() ==> 0 <= #[trigger] places@[a] < self.resolved(dimension).len()
                    && self.resolved(dimension)[places@[a] as int] == index,
            forall|i: int|
                0 <= i < self.resolved(dimension).len() && self.resolved(dimension)[i] == index
                    ==> exists|a: int| 0 <= a < places@.len() && #[trigger] places@[a] == i,
            forall|a: int, b: int| 0 <= a < b < places@.len() ==> places@[a] < places@[b],
    {
        let mut places: Vec<usize> = Vec::new();
        match self {
            ElementIndexSelector::All => {
                if index < dimension {
                    places.push(index);
                    assert(places@[0] == index);
                }
            },
            ElementIndexSelector::Index(indices) => {
                let mut i: usize = 0;
                while i < indices.len()
                    invariant
                        i <= indices@.len(),
                        *self == ElementIndexSelector::Index(*indices),
                        forall|a: int|
                            0 <= a < places@.len() ==> 0 <= #[trigger] places@[a] < i
                                && self.resolved(dimension)[places@[a] as int] == index,
                        forall|j: int|
                            0 <= j < i && self.resolved(dimension)[j] == index ==> exists|a: int|
                                0 <= a < places@.len() && #[trigger] places@[a] == j,
                        forall|a: int, b: int| 0 <= a < b < places@.len() ==> places@[a] < places@[b],
                    decreases indices@.len() - i,
                {
                    if indices[i] == index {
                        let ghost before = places@;
                        places.push(i);
                        proof {
                            assert forall|j: int|
                                0 <= j < i + 1 && self.resolved(dimension)[j]
                                    == index implies exists|a: int|
                                0 <= a < places@.len() && #[trigger] places@[a] == j by {
                                if j < i {
                                    let a = choose|a: int|
                                        0 <= a < before.len() && #[trigger] before[a] == j;
                                    assert(places@[a] == j);
                                } else {
                                    assert(places@[before.len() as int] == j);
                                }
                            }
                        }
                    }
                    i = i + 1;
                }
            },
        }
        places
    }
}

} // verus!
