use vstd::prelude::*;
use crate::operators::binary_operator::BinaryOperatorType;
use crate::operators::mask::{mask_entries, permits, permitted_by};
use crate::operators::write_rule::{
    lemma_named_before_all, lemma_named_before_step, named_before, write_matrix,
};
use crate::value_types::sparse_matrix::sparse_matrix::{lists_entries_of, SparseMatrix};
use crate::value_types::value_type::ValueType;

verus! {

/// What a position holds once a value has been inserted into it: the value itself,
/// or, where there is an accumulator and the position held something, what the
/// accumulator makes of what it held and the value.
pub open spec fn accumulated<T: ValueType>(
    held: Option<T>,
    value: T,
    accumulator: Option<BinaryOperatorType>,
) -> T {
    match (accumulator, held) {
        (Some(operator), Some(held_value)) => operator.apply(held_value, value),
        _ => value,
    }
}

/// The entries of a container after a scalar has been inserted at the positions in
/// `targets`. The positions in `doomed` that are no targets are emptied; every other
/// position keeps what it held.
pub open spec fn scalar_inserted<K, T: ValueType>(
    held: Map<K, T>,
    targets: Set<K>,
    doomed: Set<K>,
    scalar: T,
    accumulator: Option<BinaryOperatorType>,
) -> Map<K, T> {
    Map::new(
        |position: K|
            targets.contains(position) || (!doomed.contains(position) && held.contains_key(position)),
        |position: K|
            if targets.contains(position) {
                accumulated(held.get(position), scalar, accumulator)
            } else {
                held[position]
            },
    )
}

/// Inserts a scalar at every position that `targets` stores, where it holds the scalar.
pub(crate) fn write_scalar_at<T: ValueType>(
    result: &mut SparseMatrix<T>,
    targets: &SparseMatrix<T>,
    scalar: &T,
    accumulator: Option<BinaryOperatorType>,
)
    requires
        targets.shape() == old(result).shape(),
        forall|position: (int, int)| #[trigger]
            targets@.contains_key(position) ==> targets@[position] == *scalar,
    ensures
        final(result).shape() == old(result).shape(),
        final(result)@ == scalar_inserted(
            old(result)@,
            targets@.dom(),
            Set::empty(),
            *scalar,
            accumulator,
        ),
{
    write_matrix(result, targets, Some(targets), false, accumulator, false);
    assert(result@ =~= scalar_inserted(
        old(result)@,
        targets@.dom(),
        Set::empty(),
        *scalar,
        accumulator,
    ));
}

/// Empties the stored positions of a matrix that a mask does not permit.
pub(crate) fn drop_unpermitted<T: ValueType, M: ValueType>(
    result: &mut SparseMatrix<T>,
    mask: Option<&SparseMatrix<M>>,
    by_value: bool,
)
    ensures
        final(result).shape() == old(result).shape(),
        final(result)@ == old(result)@.restrict(permitted_by(mask_entries(mask), by_value)),
{
    let ghost held = result@;
    let ghost permitted = permitted_by(mask_entries(mask), by_value);
    let kept = result.clone();
    let elements = kept.elements();
    proof {
        lemma_named_before_all(elements@, held);
        assert(result@ =~= held.remove_keys(named_before(elements@, 0) - permitted));
    }
    let mut k: usize = 0;
    while k < elements.len()
        invariant
            k <= elements@.len(),
            result.shape() == old(result).shape(),
            held == old(result)@,
            lists_entries_of(elements@, held),
            permitted == permitted_by(mask_entries(mask), by_value),
            result@ == held.remove_keys(named_before(elements@, k as int) - permitted),
        decreases elements@.len() - k,
    {
        let element = &elements[k];
        proof {
            lemma_named_before_step(elements@, k as int);
        }
        if !permits(mask, by_value, &element.coordinate) {
            result.drop_element(&element.coordinate);
            assert(result@ =~= held.remove_keys(named_before(elements@, k + 1) - permitted));
        } else {
            assert(result@ =~= held.remove_keys(named_before(elements@, k + 1) - permitted));
        }
        k = k + 1;
    }
    assert(result@ =~= held.restrict(permitted));
}

} // verus!
