use vstd::prelude::*;
use crate::operators::write_rule::{lemma_named_before_all, lemma_named_before_step, named_before};
use crate::value_types::sparse_matrix::sparse_matrix::{lists_entries_of, SparseMatrix};
use crate::value_types::value_type::ValueType;

verus! {

/// How a stored value is held against a reference value.
#[derive(Debug, Clone, Copy, PartialEq, Eq, Structural)]
pub enum SelectionPredicate {
    NotEqual,
    Equal,
    GreaterThan,
    GreaterThanOrEqual,
    LessThan,
    LessThanOrEqual,
}

impl SelectionPredicate {
    /// Whether a value stands to the reference as the predicate says.
    pub open spec fn accepts<T: ValueType>(self, value: T, reference: T) -> bool {
        match self {
            SelectionPredicate::NotEqual => value != reference,
            SelectionPredicate::Equal => value == reference,
            SelectionPredicate::GreaterThan => reference.less_than_spec(value),
            SelectionPredicate::GreaterThanOrEqual => !value.less_than_spec(reference),
            SelectionPredicate::LessThan => value.less_than_spec(reference),
            SelectionPredicate::LessThanOrEqual => !reference.less_than_spec(value),
        }
    }

    pub fn test<T: ValueType>(&self, value: &T, reference: &T) -> (accepted: bool)
        ensures
            accepted == self.accepts(*value, *reference),
    {
        match self {
            SelectionPredicate::NotEqual => !value.equals(reference),
            SelectionPredicate::Equal => value.equals(reference),
            SelectionPredicate::GreaterThan => reference.less_than(value),
            SelectionPredicate::GreaterThanOrEqual => !value.less_than(reference),
            SelectionPredicate::LessThan => value.less_than(reference),
            SelectionPredicate::LessThanOrEqual => !reference.less_than(value),
        }
    }
}

/// The entries whose values the predicate accepts. A position whose value is not
/// accepted is empty, not zero.
pub open spec fn selected<K, T: ValueType>(
    entries: Map<K, T>,
    predicate: SelectionPredicate,
    reference: T,
) -> Map<K, T> {
    Map::new(
        |position: K| entries.contains_key(position) && predicate.accepts(entries[position], reference),
        |position: K| entries[position],
    )
}

/// Keeps the entries of a matrix whose values the predicate accepts.
pub(crate) fn select_entries<T: ValueType>(
    source: &SparseMatrix<T>,
    predicate: SelectionPredicate,
    reference: &T,
) -> (selection: SparseMatrix<T>)
    ensures
        selection.shape() == source.shape(),
        selection@ == selected(source@, predicate, *reference),
{
    let ghost target = selected(source@, predicate, *reference);
    let size = source.size();
    let mut selection = SparseMatrix::<T>::new(&size);
    let elements = source.elements();
    proof {
        lemma_named_before_all(elements@, source@);
        assert(selection@ =~= target.restrict(named_before(elements@, 0)));
    }
    let mut i: usize = 0;
    while i < elements.len()
        invariant
            i <= elements@.len(),
            selection.shape() == size,
            size == source.shape(),
            lists_entries_of(elements@, source@),
            forall|position: (int, int)| #[trigger]
                source@.contains_key(position) ==> size.holds(position),
            target == selected(source@, predicate, *reference),
            selection@ == target.restrict(named_before(elements@, i as int)),
        decreases elements@.len() - i,
    {
        let element = &elements[i];
        proof {
            assert(source@.contains_pair(elements@[i as int].position(), element.value));
            lemma_named_before_step(elements@, i as int);
        }
        if predicate.test(&element.value, reference) {
            selection.store(*element);
            assert(selection@ =~= target.restrict(named_before(elements@, i + 1)));
        } else {
            assert(selection@ =~= target.restrict(named_before(elements@, i + 1)));
        }
        i = i + 1;
    }
    proof {
        assert(selection@ =~= target);
    }
    selection
}

} // verus!
