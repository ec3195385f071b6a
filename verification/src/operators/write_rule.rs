use vstd::prelude::*;
use crate::operators::binary_operator::BinaryOperatorType;
use crate::operators::mask::{mask_column, mask_entries, permits, permitted_by, vector_mask_entries};
use crate::value_types::sparse_matrix::element::MatrixElement;
use crate::value_types::sparse_matrix::sparse_matrix::{lists_entries_of, SparseMatrix};
use crate::value_types::sparse_vector::sparse_vector::{column_entries, SparseVector};
use crate::value_types::value_type::ValueType;

verus! {

/// What one position of a result holds after an operation has written to it.
///
/// `held` is what the position held before, `computed` what the operation computed
/// for it, each `None` where there is no entry. Where the mask permits the position:
/// without an accumulator the computed entry takes the place of the held one, so
/// the position is emptied where nothing was computed; with an accumulator the two
/// are combined where both exist, held first, and the one that exists is kept where
/// only one does. Where the mask does not permit the position, it keeps what it
/// held, or is emptied if the result is to be cleared.
pub open spec fn written_value<T: ValueType>(
    held: Option<T>,
    computed: Option<T>,
    permitted: bool,
    accumulator: Option<BinaryOperatorType>,
    clear: bool,
) -> Option<T> {
    if permitted {
        match accumulator {
            None => computed,
            Some(operator) => match (held, computed) {
                (Some(held_value), Some(computed_value)) => Some(
                    operator.apply(held_value, computed_value),
                ),
                (Some(held_value), None) => Some(held_value),
                (None, _) => computed,
            },
        }
    } else if clear {
        None
    } else {
        held
    }
}

/// The entries of a result after an operation has written to it: position by
/// position what `written_value` says.
pub open spec fn written<K, T: ValueType>(
    held: Map<K, T>,
    computed: Map<K, T>,
    permitted: Set<K>,
    accumulator: Option<BinaryOperatorType>,
    clear: bool,
) -> Map<K, T> {
    Map::new(
        |position: K|
            written_value(
                held.get(position),
                computed.get(position),
                permitted.contains(position),
                accumulator,
                clear,
            ) is Some,
        |position: K|
            written_value(
                held.get(position),
                computed.get(position),
                permitted.contains(position),
                accumulator,
                clear,
            )->Some_0,
    )
}

/// Without a mask and without an accumulator, what was computed takes the place of
/// what the result held: the result stores what was computed and nothing else.
pub proof fn lemma_plain_write_overwrites<K, T: ValueType>(
    held: Map<K, T>,
    computed: Map<K, T>,
    clear: bool,
)
    ensures
        written(held, computed, Set::full(), None, clear) == computed,
{
    assert(written(held, computed, Set::full(), None, clear) =~= computed);
}

/// To write with an accumulator is to compute into an empty scratch container,
/// without a mask, and then to combine, at every position that the mask permits,
/// what the result holds with what the scratch holds. Where only one of the two
/// holds something, that is kept. The positions that the mask does not permit keep
/// what they held.
pub proof fn lemma_accumulated_write<K, T: ValueType>(
    held: Map<K, T>,
    computed: Map<K, T>,
    permitted: Set<K>,
    accumulator: BinaryOperatorType,
)
    ensures
        ({
            let scratch = written(Map::<K, T>::empty(), computed, Set::full(), None, false);
            let result = written(held, computed, permitted, Some(accumulator), false);
            &&& scratch == computed
            &&& forall|position: K|
                permitted.contains(position) && held.contains_key(position) && scratch.contains_key(
                    position,
                ) ==> #[trigger] result.get(position) == Some(
                    accumulator.apply(held[position], scratch[position]),
                )
            &&& forall|position: K|
                permitted.contains(position) && !held.contains_key(position)
                    ==> #[trigger] result.get(position) == scratch.get(position)
            &&& forall|position: K|
                permitted.contains(position) && !scratch.contains_key(position)
                    ==> #[trigger] result.get(position) == held.get(position)
            &&& forall|position: K|
                !permitted.contains(position) ==> #[trigger] result.get(position) == held.get(
                    position,
                )
        }),
{
    lemma_plain_write_overwrites(Map::<K, T>::empty(), computed, false);
}

/// A write that does not clear its result leaves every position that the mask does
/// not permit as it was, whatever was computed and whatever the accumulator.
pub proof fn lemma_masked_write_is_confined<K, T: ValueType>(
    held: Map<K, T>,
    computed: Map<K, T>,
    permitted: Set<K>,
    accumulator: Option<BinaryOperatorType>,
)
    ensures
        forall|position: K|
            !permitted.contains(position) ==> #[trigger] written(
                held,
                computed,
                permitted,
                accumulator,
                false,
            ).get(position) == held.get(position),
{
}

/// Computes what `written_value` states.
pub(crate) fn write_value<T: ValueType>(
    held: Option<T>,
    computed: Option<T>,
    permitted: bool,
    accumulator: Option<BinaryOperatorType>,
    clear: bool,
) -> (value: Option<T>)
    ensures
        value == written_value(held, computed, permitted, accumulator, clear),
{
    if permitted {
        match accumulator {
            None => computed,
            Some(operator) => match (held, computed) {
                (Some(held_value), Some(computed_value)) => Some(
                    operator.evaluate(&held_value, &computed_value),
                ),
                (Some(held_value), None) => Some(held_value),
                (None, _) => computed,
            },
        }
    } else if clear {
        None
    } else {
        held
    }
}

/// The positions that the first `n` elements of a list name.
pub(crate) open spec fn named_before<T: ValueType>(
    elements: Seq<MatrixElement<T>>,
    n: int,
) -> Set<(int, int)> {
    Set::new(
        |position: (int, int)|
            exists|j: int| 0 <= j < n && #[trigger] elements[j].position() == position,
    )
}

pub(crate) proof fn lemma_named_before_step<T: ValueType>(elements: Seq<MatrixElement<T>>, n: int)
    requires
        0 <= n < elements.len(),
    ensures
        named_before(elements, n + 1) == named_before(elements, n).insert(elements[n].position()),
{
    assert forall|position: (int, int)|
        named_before(elements, n + 1).contains(position) <==> named_before(elements, n).insert(
            elements[n].position(),
        ).contains(position) by {
        if named_before(elements, n + 1).contains(position) {
            let j = choose|j: int| 0 <= j < n + 1 && #[trigger] elements[j].position() == position;
            if j < n {
                assert(named_before(elements, n).contains(position));
            }
        }
        if named_before(elements, n).contains(position) {
            let j = choose|j: int| 0 <= j < n && #[trigger] elements[j].position() == position;
            assert(0 <= j < n + 1);
        }
        if position == elements[n].position() {
            assert(0 <= n < n + 1 && elements[n].position() == position);
        }
    }
    assert(named_before(elements, n + 1) =~= named_before(elements, n).insert(elements[n].position()));
}

pub(crate) proof fn lemma_named_before_all<T: ValueType>(
    elements: Seq<MatrixElement<T>>,
    entries: Map<(int, int), T>,
)
    requires
        lists_entries_of(elements, entries),
    ensures
        named_before(elements, elements.len() as int) == entries.dom(),
        named_before(elements, 0) == Set::<(int, int)>::empty(),
{
    assert forall|position: (int, int)|
        named_before(elements, elements.len() as int).contains(position) <==> entries.dom().contains(
            position,
        ) by {
        if named_before(elements, elements.len() as int).contains(position) {
            let j = choose|j: int|
                0 <= j < elements.len() && #[trigger] elements[j].position() == position;
            assert(entries.contains_pair(elements[j].position(), elements[j].value));
        }
        if entries.contains_key(position) {
        }
    }
    assert(named_before(elements, elements.len() as int) =~= entries.dom());
    assert(named_before(elements, 0) =~= Set::<(int, int)>::empty());
}

/// Writes what an operation has computed into its result, through the mask and the
/// accumulator.
pub(crate) fn write_matrix<T: ValueType, M: ValueType>(
    result: &mut SparseMatrix<T>,
    computed: &SparseMatrix<T>,
    mask: Option<&SparseMatrix<M>>,
    by_value: bool,
    accumulator: Option<BinaryOperatorType>,
    clear: bool,
)
    requires
        computed.shape() == old(result).shape(),
    ensures
        final(result).shape() == old(result).shape(),
        final(result)@ == written(
            old(result)@,
            computed@,
            permitted_by(mask_entries(mask), by_value),
            accumulator,
            clear,
        ),
{
    let ghost held = result@;
    let ghost permitted = permitted_by(mask_entries(mask), by_value);
    let ghost target = written(held, computed@, permitted, accumulator, clear);
    let size = result.size();
    let mut fresh = SparseMatrix::<T>::new(&size);
    let held_elements = result.elements();
    proof {
        lemma_named_before_all(held_elements@, held);
        assert(fresh@ =~= target.restrict(named_before(held_elements@, 0)));
    }
    let mut i: usize = 0;
    while i < held_elements.len()
        invariant
            i <= held_elements@.len(),
            fresh.shape() == size,
            lists_entries_of(held_elements@, held),
            forall|position: (int, int)| #[trigger] held.contains_key(position) ==> size.holds(position),
            permitted == permitted_by(mask_entries(mask), by_value),
            target == written(held, computed@, permitted, accumulator, clear),
            fresh@ == target.restrict(named_before(held_elements@, i as int)),
        decreases held_elements@.len() - i,
    {
        let element = &held_elements[i];
        let value = write_value(
            Some(element.value),
            computed.get_element(&element.coordinate),
            permits(mask, by_value, &element.coordinate),
            accumulator,
            clear,
        );
        proof {
            assert(held.contains_pair(held_elements@[i as int].position(), element.value));
            lemma_named_before_step(held_elements@, i as int);
        }
        match value {
            Some(value) => {
                fresh.store(MatrixElement { coordinate: element.coordinate, value });
                assert(fresh@ =~= target.restrict(named_before(held_elements@, i + 1)));
            },
            None => {
                assert(fresh@ =~= target.restrict(named_before(held_elements@, i + 1)));
            },
        }
        i = i + 1;
    }
    let computed_elements = computed.elements();
    proof {
        lemma_named_before_all(computed_elements@, computed@);
        assert(fresh@ =~= target.restrict(held.dom() + named_before(computed_elements@, 0)));
    }
    let mut j: usize = 0;
    while j < computed_elements.len()
        invariant
            j <= computed_elements@.len(),
            fresh.shape() == size,
            computed.shape() == size,
            held == result@,
            lists_entries_of(computed_elements@, computed@),
            forall|position: (int, int)| #[trigger]
                computed@.contains_key(position) ==> size.holds(position),
            permitted == permitted_by(mask_entries(mask), by_value),
            target == written(held, computed@, permitted, accumulator, clear),
            fresh@ == target.restrict(held.dom() + named_before(computed_elements@, j as int)),
        decreases computed_elements@.len() - j,
    {
        let element = &computed_elements[j];
        proof {
            assert(computed@.contains_pair(computed_elements@[j as int].position(), element.value));
            lemma_named_before_step(computed_elements@, j as int);
        }
        if result.get_element(&element.coordinate).is_none() {
            let value = write_value(
                None,
                Some(element.value),
                permits(mask, by_value, &element.coordinate),
                accumulator,
                clear,
            );
            match value {
                Some(value) => {
                    fresh.store(
                        MatrixElement { coordinate: element.coordinate, value },
                    );
                    assert(fresh@ =~= target.restrict(
                        held.dom() + named_before(computed_elements@, j + 1),
                    ));
                },
                None => {
                    assert(fresh@ =~= target.restrict(
                        held.dom() + named_before(computed_elements@, j + 1),
                    ));
                },
            }
        } else {
            assert(held.dom() + named_before(computed_elements@, j + 1) =~= held.dom() + named_before(
                computed_elements@,
                j as int,
            ));
        }
        j = j + 1;
    }
    proof {
        assert(fresh@ =~= target);
    }
    *result = fresh;
}

/// Writes what an operation has computed into its result vector, through the mask
/// and the accumulator.
pub(crate) fn write_vector<T: ValueType, M: ValueType>(
    result: &mut SparseVector<T>,
    computed: &SparseVector<T>,
    mask: Option<&SparseVector<M>>,
    by_value: bool,
    accumulator: Option<BinaryOperatorType>,
    clear: bool,
)
    requires
        computed.extent() == old(result).extent(),
    ensures
        final(result).extent() == old(result).extent(),
        final(result)@ == written(
            old(result)@,
            computed@,
            permitted_by(vector_mask_entries(mask), by_value),
            accumulator,
            clear,
        ),
{
    let mut column = result.as_column().clone();
    let computed_column = computed.as_column();
    let mask_matrix = mask_column(mask);
    write_matrix(&mut column, computed_column, mask_matrix, by_value, accumulator, clear);
    proof {
        assert(column_entries(column@) =~= written(
            old(result)@,
            computed@,
            permitted_by(vector_mask_entries(mask), by_value),
            accumulator,
            clear,
        ));
    }
    *result = SparseVector::from_column(column);
}

} // verus!
