use vstd::prelude::*;
use crate::error::SparseLinearAlgebraError;
use crate::value_types::sparse_matrix::coordinate::Coordinate;
use crate::operators::binary_operator::{BinaryOperator, BinaryOperatorType};
use crate::value_types::sparse_matrix::element::{MatrixElement, MatrixElementList};
use crate::value_types::sparse_matrix::size::Size;
use crate::value_types::value_type::{value_or_zero, ValueType};

verus! {

/// Row-major order on positions: by row, and by column within a row.
pub open spec fn comes_before(first: (int, int), second: (int, int)) -> bool {
    first.0 < second.0 || (first.0 == second.0 && first.1 < second.1)
}

/// Whether each element of a list stands before all that follow it, in row-major order.
/// Such a list names no position twice.
pub open spec fn in_row_major_order<T: ValueType>(elements: Seq<MatrixElement<T>>) -> bool {
    forall|i: int, j: int|
        0 <= i < j < elements.len() ==> comes_before(
            #[trigger] elements[i].position(),
            #[trigger] elements[j].position(),
        )
}

/// Whether a list of elements names exactly the entries of a map, each of them once.
pub open spec fn lists_entries_of<T: ValueType>(
    elements: Seq<MatrixElement<T>>,
    entries: Map<(int, int), T>,
) -> bool {
    &&& forall|i: int|
        0 <= i < elements.len() ==> entries.contains_pair(
            #[trigger] elements[i].position(),
            elements[i].value,
        )
    &&& forall|position: (int, int)| #[trigger]
        entries.contains_key(position) ==> exists|i: int|
            0 <= i < elements.len() && #[trigger] elements[i].position() == position
    &&& forall|i: int, j: int|
        0 <= i < j < elements.len() ==> #[trigger] elements[i].position()
            != #[trigger] elements[j].position()
}

/// The entries that a list of elements names. Where a position is named more than
/// once, nothing is said of which value stands for it.
pub open spec fn entries_of<T: ValueType>(elements: Seq<MatrixElement<T>>) -> Map<(int, int), T> {
    Map::new(
        |position: (int, int)|
            exists|i: int| 0 <= i < elements.len() && #[trigger] elements[i].position() == position,
        |position: (int, int)|
            elements[choose|i: int|
                0 <= i < elements.len() && #[trigger] elements[i].position() == position].value,
    )
}

pub(crate) proof fn lemma_ordered_list_names_its_entries<T: ValueType>(elements: Seq<MatrixElement<T>>)
    requires
        in_row_major_order(elements),
    ensures
        lists_entries_of(elements, entries_of(elements)),
{
    let entries = entries_of(elements);
    assert forall|i: int| 0 <= i < elements.len() implies entries.contains_pair(
        #[trigger] elements[i].position(),
        elements[i].value,
    ) by {
        let position = elements[i].position();
        let j = choose|j: int| 0 <= j < elements.len() && #[trigger] elements[j].position() == position;
        if j < i {
            assert(comes_before(elements[j].position(), elements[i].position()));
        } else if i < j {
            assert(comes_before(elements[i].position(), elements[j].position()));
        }
    }
    assert forall|i: int, j: int| 0 <= i < j < elements.len() implies #[trigger] elements[i].position()
        != #[trigger] elements[j].position() by {
        assert(comes_before(elements[i].position(), elements[j].position()));
    }
}

proof fn lemma_entries_after_insert<T: ValueType>(
    elements: Seq<MatrixElement<T>>,
    k: int,
    element: MatrixElement<T>,
)
    requires
        in_row_major_order(elements),
        0 <= k <= elements.len(),
        forall|i: int| 0 <= i < k ==> comes_before(#[trigger] elements[i].position(), element.position()),
        forall|i: int|
            k <= i < elements.len() ==> comes_before(element.position(), #[trigger] elements[i].position()),
    ensures
        in_row_major_order(elements.insert(k, element)),
        entries_of(elements.insert(k, element)) == entries_of(elements).insert(
            element.position(),
            element.value,
        ),
{
    let longer = elements.insert(k, element);
    assert forall|i: int, j: int| 0 <= i < j < longer.len() implies comes_before(
        #[trigger] longer[i].position(),
        #[trigger] longer[j].position(),
    ) by {
        let a = if i < k { i } else { i - 1 };
        let b = if j < k { j } else { j - 1 };
        if i != k && j != k {
            assert(longer[i] == elements[a]);
            assert(longer[j] == elements[b]);
            assert(comes_before(elements[a].position(), elements[b].position()));
        } else if i == k {
            assert(longer[j] == elements[b]);
        } else {
            assert(longer[i] == elements[a]);
        }
    }
    lemma_ordered_list_names_its_entries(elements);
    lemma_ordered_list_names_its_entries(longer);
    let before = entries_of(elements);
    let after = entries_of(longer);
    let expected = before.insert(element.position(), element.value);
    assert forall|position: (int, int)| after.contains_key(position) implies expected.contains_key(
        position,
    ) && expected[position] == after[position] by {
        let i = choose|i: int| 0 <= i < longer.len() && #[trigger] longer[i].position() == position;
        if i != k {
            let a = if i < k { i } else { i - 1 };
            assert(longer[i] == elements[a]);
            assert(before.contains_pair(elements[a].position(), elements[a].value));
        }
    }
    assert forall|position: (int, int)| expected.contains_key(position) implies after.contains_key(
        position,
    ) by {
        if position == element.position() {
            assert(longer[k].position() == position);
        } else {
            let a = choose|a: int| 0 <= a < elements.len() && #[trigger] elements[a].position() == position;
            let i = if a < k { a } else { a + 1 };
            assert(longer[i] == elements[a]);
        }
    }
    assert(after =~= expected);
}

proof fn lemma_entries_after_update<T: ValueType>(
    elements: Seq<MatrixElement<T>>,
    k: int,
    element: MatrixElement<T>,
)
    requires
        in_row_major_order(elements),
        0 <= k < elements.len(),
        elements[k].position() == element.position(),
    ensures
        in_row_major_order(elements.update(k, element)),
        entries_of(elements.update(k, element)) == entries_of(elements).insert(
            element.position(),
            element.value,
        ),
{
    let changed = elements.update(k, element);
    assert forall|i: int, j: int| 0 <= i < j < changed.len() implies comes_before(
        #[trigger] changed[i].position(),
        #[trigger] changed[j].position(),
    ) by {
        assert(comes_before(elements[i].position(), elements[j].position()));
    }
    lemma_ordered_list_names_its_entries(elements);
    lemma_ordered_list_names_its_entries(changed);
    let before = entries_of(elements);
    let after = entries_of(changed);
    let expected = before.insert(element.position(), element.value);
    assert forall|position: (int, int)| after.contains_key(position) implies expected.contains_key(
        position,
    ) && expected[position] == after[position] by {
        let i = choose|i: int| 0 <= i < changed.len() && #[trigger] changed[i].position() == position;
        if i != k {
            assert(changed[i] == elements[i]);
            assert(before.contains_pair(elements[i].position(), elements[i].value));
        }
    }
    assert forall|position: (int, int)| expected.contains_key(position) implies after.contains_key(
        position,
    ) by {
        if position == element.position() {
            assert(changed[k].position() == position);
        } else {
            let a = choose|a: int| 0 <= a < elements.len() && #[trigger] elements[a].position() == position;
            assert(changed[a] == elements[a]);
        }
    }
    assert(after =~= expected);
}

proof fn lemma_entries_after_remove<T: ValueType>(elements: Seq<MatrixElement<T>>, k: int)
    requires
        in_row_major_order(elements),
        0 <= k < elements.len(),
    ensures
        in_row_major_order(elements.remove(k)),
        entries_of(elements.remove(k)) == entries_of(elements).remove(elements[k].position()),
{
    let shorter = elements.remove(k);
    assert forall|i: int, j: int| 0 <= i < j < shorter.len() implies comes_before(
        #[trigger] shorter[i].position(),
        #[trigger] shorter[j].position(),
    ) by {
        let a = if i < k { i } else { i + 1 };
        let b = if j < k { j } else { j + 1 };
        assert(shorter[i] == elements[a]);
        assert(shorter[j] == elements[b]);
        assert(comes_before(elements[a].position(), elements[b].position()));
    }
    lemma_ordered_list_names_its_entries(elements);
    lemma_ordered_list_names_its_entries(shorter);
    let before = entries_of(elements);
    let after = entries_of(shorter);
    let expected = before.remove(elements[k].position());
    assert forall|position: (int, int)| after.contains_key(position) implies expected.contains_key(
        position,
    ) && expected[position] == after[position] by {
        let i = choose|i: int| 0 <= i < shorter.len() && #[trigger] shorter[i].position() == position;
        let a = if i < k { i } else { i + 1 };
        assert(shorter[i] == elements[a]);
        assert(before.contains_pair(elements[a].position(), elements[a].value));
        if a < k {
            assert(comes_before(elements[a].position(), elements[k].position()));
        } else {
            assert(comes_before(elements[k].position(), elements[a].position()));
        }
    }
    assert forall|position: (int, int)| expected.contains_key(position) implies after.contains_key(
        position,
    ) by {
        let a = choose|a: int| 0 <= a < elements.len() && #[trigger] elements[a].position() == position;
        let i = if a < k { a } else { a - 1 };
        assert(shorter[i] == elements[a]);
    }
    assert(after =~= expected);
}

/// Between two neighbours of a list in row-major order, before its first element and
/// after its last, no entry is stored.
pub(crate) proof fn lemma_no_entry_between<T: ValueType>(
    elements: Seq<MatrixElement<T>>,
    entries: Map<(int, int), T>,
    k: int,
    position: (int, int),
)
    requires
        in_row_major_order(elements),
        lists_entries_of(elements, entries),
        0 <= k <= elements.len(),
        k > 0 ==> comes_before(elements[k - 1].position(), position),
        k < elements.len() ==> comes_before(position, elements[k].position()),
    ensures
        !entries.contains_key(position),
{
    if entries.contains_key(position) {
        let j = choose|j: int| 0 <= j < elements.len() && #[trigger] elements[j].position() == position;
        if j < k {
            if j < k - 1 {
                assert(comes_before(elements[j].position(), elements[k - 1].position()));
            }
        } else {
            if j > k {
                assert(comes_before(elements[k].position(), elements[j].position()));
            }
        }
    }
}

/// How many columns of a row the first `n` elements of a list in row-major order
/// have gone through.
pub(crate) open spec fn columns_done<T: ValueType>(
    elements: Seq<MatrixElement<T>>,
    n: int,
    row: int,
    width: nat,
) -> nat {
    if n == 0 {
        0
    } else {
        let last = elements[n - 1].position();
        if row < last.0 {
            width
        } else if row == last.0 {
            (last.1 + 1) as nat
        } else {
            0
        }
    }
}

/// How many rows of a column the first `n` elements of a list in row-major order have
/// gone through.
pub(crate) open spec fn rows_done<T: ValueType>(
    elements: Seq<MatrixElement<T>>,
    n: int,
    column: int,
) -> nat {
    if n == 0 {
        0
    } else {
        let last = elements[n - 1].position();
        if column <= last.1 {
            (last.0 + 1) as nat
        } else {
            last.0 as nat
        }
    }
}

/// A list in row-major order names as many entries as it is long.
pub(crate) proof fn lemma_ordered_list_counts_its_entries<T: ValueType>(elements: Seq<MatrixElement<T>>)
    requires
        in_row_major_order(elements),
    ensures
        entries_of(elements).dom().finite(),
        entries_of(elements).dom().len() == elements.len(),
    decreases elements.len(),
{
    if elements.len() == 0 {
        assert(entries_of(elements).dom() =~= Set::<(int, int)>::empty());
    } else {
        let last = elements.last();
        let front = elements.drop_last();
        assert forall|i: int, j: int| 0 <= i < j < front.len() implies comes_before(
            #[trigger] front[i].position(),
            #[trigger] front[j].position(),
        ) by {
            assert(comes_before(elements[i].position(), elements[j].position()));
        }
        lemma_ordered_list_counts_its_entries(front);
        assert forall|i: int| 0 <= i < front.len() implies comes_before(
            #[trigger] front[i].position(),
            last.position(),
        ) by {
            assert(front[i] == elements[i]);
            assert(comes_before(elements[i].position(), elements[elements.len() - 1].position()));
        }
        lemma_entries_after_insert(front, front.len() as int, last);
        assert(front.insert(front.len() as int, last) =~= elements);
        if entries_of(front).contains_key(last.position()) {
            let i = choose|i: int| 0 <= i < front.len() && #[trigger] front[i].position() == last.position();
            assert(comes_before(front[i].position(), last.position()));
        }
        assert(entries_of(elements).dom() =~= entries_of(front).dom().insert(last.position()));
    }
}

/// The entries that a list of elements builds. Where the list names a position again,
/// the operator combines what the position holds, as its first argument, with the
/// new value.
pub open spec fn built_from<T: ValueType>(
    elements: Seq<MatrixElement<T>>,
    operator: BinaryOperatorType,
) -> Map<(int, int), T>
    decreases elements.len(),
{
    if elements.len() == 0 {
        Map::empty()
    } else {
        let front = built_from(elements.drop_last(), operator);
        let last = elements.last();
        if front.contains_key(last.position()) {
            front.insert(last.position(), operator.apply(front[last.position()], last.value))
        } else {
            front.insert(last.position(), last.value)
        }
    }
}

/// A list builds entries only at the positions that it names.
pub(crate) proof fn lemma_built_from_names_only<T: ValueType>(
    elements: Seq<MatrixElement<T>>,
    operator: BinaryOperatorType,
    position: (int, int),
)
    requires
        forall|i: int| 0 <= i < elements.len() ==> #[trigger] elements[i].position() != position,
    ensures
        !built_from(elements, operator).contains_key(position),
    decreases elements.len(),
{
    if elements.len() > 0 {
        assert forall|i: int| 0 <= i < elements.drop_last().len() implies #[trigger] elements.drop_last()[i].position()
            != position by {
            assert(elements.drop_last()[i] == elements[i]);
        }
        lemma_built_from_names_only(elements.drop_last(), operator, position);
        assert(elements.last() == elements[elements.len() - 1]);
    }
}

/// Reading back what a list without repeated positions has built yields, at every
/// position that the list names, the value that it names there, and the domain's
/// zero at every other position.
pub proof fn lemma_built_from_round_trip<T: ValueType>(
    elements: Seq<MatrixElement<T>>,
    operator: BinaryOperatorType,
)
    requires
        forall|i: int, j: int|
            0 <= i < j < elements.len() ==> #[trigger] elements[i].position()
                != #[trigger] elements[j].position(),
    ensures
        forall|i: int|
            0 <= i < elements.len() ==> value_or_zero(
                built_from(elements, operator),
                #[trigger] elements[i].position(),
            ) == elements[i].value && built_from(elements, operator).contains_key(
                elements[i].position(),
            ),
        forall|position: (int, int)|
            (forall|i: int| 0 <= i < elements.len() ==> #[trigger] elements[i].position() != position)
                ==> #[trigger] value_or_zero(built_from(elements, operator), position)
                == T::from_boolean_spec(false) && !built_from(elements, operator).contains_key(
                position,
            ),
    decreases elements.len(),
{
    assert forall|position: (int, int)|
        (forall|i: int| 0 <= i < elements.len() ==> #[trigger] elements[i].position() != position)
            implies #[trigger] value_or_zero(built_from(elements, operator), position)
        == T::from_boolean_spec(false) && !built_from(elements, operator).contains_key(position) by {
        lemma_built_from_names_only(elements, operator, position);
    }
    if elements.len() > 0 {
        let front = elements.drop_last();
        let last = elements.last();
        assert forall|i: int, j: int| 0 <= i < j < front.len() implies #[trigger] front[i].position()
            != #[trigger] front[j].position() by {
            assert(front[i] == elements[i] && front[j] == elements[j]);
        }
        lemma_built_from_round_trip(front, operator);
        assert forall|i: int| 0 <= i < front.len() implies #[trigger] front[i].position()
            != last.position() by {
            assert(front[i] == elements[i]);
            assert(last == elements[elements.len() - 1]);
        }
        lemma_built_from_names_only(front, operator, last.position());
        assert forall|i: int| 0 <= i < elements.len() implies value_or_zero(
            built_from(elements, operator),
            #[trigger] elements[i].position(),
        ) == elements[i].value && built_from(elements, operator).contains_key(
            elements[i].position(),
        ) by {
            if i < front.len() {
                assert(front[i] == elements[i]);
                assert(front[i].position() != last.position());
            }
        }
    }
}

/// Whether every element of a list lies inside a shape.
pub open spec fn all_inside<T: ValueType>(elements: Seq<MatrixElement<T>>, size: Size) -> bool {
    forall|i: int| 0 <= i < elements.len() ==> size.holds(#[trigger] elements[i].position())
}

/// The entries of a matrix with rows and columns exchanged.
pub open spec fn transpose_of<T>(entries: Map<(int, int), T>) -> Map<(int, int), T> {
    Map::new(
        |position: (int, int)| entries.contains_key((position.1, position.0)),
        |position: (int, int)| entries[(position.1, position.0)],
    )
}

/// The entries of a matrix argument as an operation reads them: transposed where the
/// options say so.
pub open spec fn operand_entries<T>(entries: Map<(int, int), T>, transpose: bool) -> Map<
    (int, int),
    T,
> {
    if transpose {
        transpose_of(entries)
    } else {
        entries
    }
}

/// The shape of a matrix argument as an operation reads it.
pub open spec fn operand_shape(size: Size, transpose: bool) -> Size {
    if transpose {
        size.transposed()
    } else {
        size
    }
}

fn copy_of<T: ValueType>(elements: &Vec<MatrixElement<T>>) -> (copy: Vec<MatrixElement<T>>)
    ensures
        copy@ == elements@,
{
    let mut copy: Vec<MatrixElement<T>> = Vec::with_capacity(elements.len());
    let mut i: usize = 0;
    while i < elements.len()
        invariant
            i <= elements@.len(),
            copy@ == elements@.take(i as int),
        decreases elements@.len() - i,
    {
        copy.push(elements[i]);
        assert(elements@.take(i as int).push(elements@[i as int]) =~= elements@.take(i + 1));
        i = i + 1;
    }
    assert(elements@.take(elements@.len() as int) =~= elements@);
    copy
}

/// A sparse matrix over one scalar domain: a shape, fixed when the matrix is made,
/// and the entries stored in it, at most one for each position inside the shape.
///
/// The view is the map from the stored positions, row first, to the stored values.
#[derive(Debug, PartialEq)]
pub struct SparseMatrix<T: ValueType> {
    size: Size,
    elements: Vec<MatrixElement<T>>,
}

impl<T: ValueType> View for SparseMatrix<T> {
    type V = Map<(int, int), T>;

    closed spec fn view(&self) -> Map<(int, int), T> {
        entries_of(self.elements@)
    }
}

impl<T: ValueType> Clone for SparseMatrix<T> {
    fn clone(&self) -> (matrix: Self)
        ensures
            matrix.shape() == self.shape(),
            matrix@ == self@,
    {
        proof {
            use_type_invariant(self);
        }
        SparseMatrix { size: self.size, elements: copy_of(&self.elements) }
    }
}

impl<T: ValueType> SparseMatrix<T> {
    #[verifier::type_invariant]
    spec fn well_formed(&self) -> bool {
        &&& in_row_major_order(self.elements@)
        &&& forall|i: int|
            0 <= i < self.elements@.len() ==> self.size.holds(#[trigger] self.elements@[i].position())
    }

    /// The shape of the matrix.
    pub closed spec fn shape(&self) -> Size {
        self.size
    }

    /// What reading a position yields: the stored value, or the domain's zero where
    /// nothing is stored.
    pub open spec fn value_at(&self, position: (int, int)) -> T {
        value_or_zero(self@, position)
    }

    /// An empty matrix of the given shape.
    pub fn new(size: &Size) -> (matrix: Self)
        ensures
            matrix.shape() == *size,
            matrix@ == Map::<(int, int), T>::empty(),
    {
        let matrix = SparseMatrix { size: *size, elements: Vec::new() };
        assert(matrix@ =~= Map::<(int, int), T>::empty());
        matrix
    }

    pub fn size(&self) -> (size: Size)
        ensures
            size == self.shape(),
    {
        self.size
    }

    pub fn row_height(&self) -> (row_height: usize)
        ensures
            row_height == self.shape().row_height,
    {
        self.size.row_height
    }

    pub fn column_width(&self) -> (column_width: usize)
        ensures
            column_width == self.shape().column_width,
    {
        self.size.column_width
    }

    /// Whether the matrix, transposed first if that is asked for, has the given shape.
    pub fn has_shape(&self, size: &Size, transpose: bool) -> (same: bool)
        ensures
            same == (operand_shape(self.shape(), transpose) == *size),
    {
        if transpose {
            self.size.column_width == size.row_height && self.size.row_height == size.column_width
        } else {
            self.size.row_height == size.row_height && self.size.column_width == size.column_width
        }
    }

    /// How many entries are stored.
    pub fn number_of_stored_elements(&self) -> (count: usize)
        ensures
            self@.dom().finite(),
            count == self@.dom().len(),
    {
        proof {
            use_type_invariant(self);
            lemma_ordered_list_counts_its_entries(self.elements@);
        }
        self.elements.len()
    }

    /// The stored entries in row-major order. Every stored position lies inside the shape.
    pub fn elements(&self) -> (elements: &Vec<MatrixElement<T>>)
        ensures
            in_row_major_order(elements@),
            lists_entries_of(elements@, self@),
            forall|position: (int, int)| #[trigger]
                self@.contains_key(position) ==> self.shape().holds(position),
    {
        proof {
            use_type_invariant(self);
            lemma_ordered_list_names_its_entries(self.elements@);
        }
        &self.elements
    }

    /// The index of the first stored element that does not stand before the position.
    fn search(&self, row_index: usize, column_index: usize) -> (k: usize)
        ensures
            k <= self.elements@.len(),
            forall|i: int|
                0 <= i < k ==> comes_before(
                    #[trigger] self.elements@[i].position(),
                    (row_index as int, column_index as int),
                ),
            forall|i: int|
                k <= i < self.elements@.len() ==> !comes_before(
                    #[trigger] self.elements@[i].position(),
                    (row_index as int, column_index as int),
                ),
    {
        proof {
            use_type_invariant(self);
        }
        let ghost target = (row_index as int, column_index as int);
        let mut low: usize = 0;
        let mut high: usize = self.elements.len();
        while low < high
            invariant
                low <= high <= self.elements@.len(),
                target == (row_index as int, column_index as int),
                in_row_major_order(self.elements@),
                forall|i: int| 0 <= i < low ==> comes_before(#[trigger] self.elements@[i].position(), target),
                forall|i: int|
                    high <= i < self.elements@.len() ==> !comes_before(
                        #[trigger] self.elements@[i].position(),
                        target,
                    ),
            decreases high - low,
        {
            let middle: usize = low + (high - low) / 2;
            let element = &self.elements[middle];
            let before = element.coordinate.row_index < row_index || (element.coordinate.row_index
                == row_index && element.coordinate.column_index < column_index);
            if before {
                proof {
                    assert forall|i: int| 0 <= i < middle + 1 implies comes_before(
                        #[trigger] self.elements@[i].position(),
                        target,
                    ) by {
                        if i < middle {
                            assert(comes_before(
                                self.elements@[i].position(),
                                self.elements@[middle as int].position(),
                            ));
                        }
                    }
                }
                low = middle + 1;
            } else {
                proof {
                    assert forall|i: int| middle <= i < self.elements@.len() implies !comes_before(
                        #[trigger] self.elements@[i].position(),
                        target,
                    ) by {
                        if middle < i {
                            assert(comes_before(
                                self.elements@[middle as int].position(),
                                self.elements@[i].position(),
                            ));
                        }
                    }
                }
                high = middle;
            }
        }
        low
    }

    /// The entry stored at a coordinate, if there is one.
    pub fn get_element(&self, coordinate: &Coordinate) -> (value: Option<T>)
        ensures
            value == self@.get(coordinate.position()),
    {
        proof {
            use_type_invariant(self);
            lemma_ordered_list_names_its_entries(self.elements@);
        }
        let k = self.search(coordinate.row_index, coordinate.column_index);
        if k < self.elements.len() {
            let element = &self.elements[k];
            if element.coordinate.row_index == coordinate.row_index && element.coordinate.column_index
                == coordinate.column_index {
                assert(self@.contains_pair(self.elements@[k as int].position(), element.value));
                return Some(element.value);
            }
        }
        proof {
            if self@.contains_key(coordinate.position()) {
                let i = choose|i: int|
                    0 <= i < self.elements@.len() && #[trigger] self.elements@[i].position()
                        == coordinate.position();
                if i < k {
                    assert(comes_before(self.elements@[i].position(), coordinate.position()));
                } else if i > k {
                    assert(comes_before(self.elements@[k as int].position(), self.elements@[i].position()));
                    assert(!comes_before(self.elements@[k as int].position(), coordinate.position()));
                }
            }
        }
        None
    }

    /// What reading a coordinate yields: the stored value, or the domain's zero where
    /// nothing is stored. A coordinate outside the shape is refused.
    pub fn get_element_value(&self, coordinate: &Coordinate) -> (value: Result<
        T,
        SparseLinearAlgebraError,
    >)
        ensures
            self.shape().holds(coordinate.position()) ==> value == Ok::<T, SparseLinearAlgebraError>(
                self.value_at(coordinate.position()),
            ),
            !self.shape().holds(coordinate.position()) ==> value == Err::<T, SparseLinearAlgebraError>(
                SparseLinearAlgebraError::IndexOutOfBounds,
            ),
    {
        if coordinate.row_index < self.size.row_height && coordinate.column_index
            < self.size.column_width {
            match self.get_element(coordinate) {
                Some(value) => Ok(value),
                None => Ok(T::from_boolean(false)),
            }
        } else {
            Err(SparseLinearAlgebraError::IndexOutOfBounds)
        }
    }

    /// Stores an element, in place of what its position held. An element outside the
    /// shape is refused.
    pub fn set_element(&mut self, element: MatrixElement<T>) -> (outcome: Result<
        (),
        SparseLinearAlgebraError,
    >)
        ensures
            final(self).shape() == old(self).shape(),
            old(self).shape().holds(element.position()) ==> outcome is Ok && final(self)@ == old(
                self,
            )@.insert(element.position(), element.value),
            !old(self).shape().holds(element.position()) ==> outcome == Err::<
                (),
                SparseLinearAlgebraError,
            >(SparseLinearAlgebraError::IndexOutOfBounds) && final(self)@ == old(self)@,
    {
        if element.coordinate.row_index < self.size.row_height && element.coordinate.column_index
            < self.size.column_width {
            self.store(element);
            Ok(())
        } else {
            Err(SparseLinearAlgebraError::IndexOutOfBounds)
        }
    }

    /// Stores an element that lies inside the shape, in place of what its position
    /// held.
    pub(crate) fn store(&mut self, element: MatrixElement<T>)
        requires
            old(self).shape().holds(element.position()),
        ensures
            final(self).shape() == old(self).shape(),
            final(self)@ == old(self)@.insert(element.position(), element.value),
    {
        proof {
            use_type_invariant(&*self);
        }
        let k = self.search(element.coordinate.row_index, element.coordinate.column_index);
        if k < self.elements.len() && self.elements[k].coordinate.row_index
            == element.coordinate.row_index && self.elements[k].coordinate.column_index
            == element.coordinate.column_index {
            proof {
                lemma_entries_after_update(self.elements@, k as int, element);
            }
            let mut elements = Vec::new();
            std::mem::swap(&mut elements, &mut self.elements);
            elements.set(k, element);
            self.elements = elements;
        } else {
            proof {
                assert forall|i: int| k <= i < self.elements@.len() implies comes_before(
                    element.position(),
                    #[trigger] self.elements@[i].position(),
                ) by {
                    if i > k {
                        assert(comes_before(
                            self.elements@[k as int].position(),
                            self.elements@[i].position(),
                        ));
                    }
                }
                lemma_entries_after_insert(self.elements@, k as int, element);
            }
            let mut elements = Vec::new();
            std::mem::swap(&mut elements, &mut self.elements);
            elements.insert(k, element);
            self.elements = elements;
        }
    }

    /// Empties a position. Nothing changes where the position held nothing.
    pub fn drop_element(&mut self, coordinate: &Coordinate)
        ensures
            final(self).shape() == old(self).shape(),
            final(self)@ == old(self)@.remove(coordinate.position()),
    {
        proof {
            use_type_invariant(&*self);
            lemma_ordered_list_names_its_entries(self.elements@);
        }
        let k = self.search(coordinate.row_index, coordinate.column_index);
        if k < self.elements.len() && self.elements[k].coordinate.row_index == coordinate.row_index
            && self.elements[k].coordinate.column_index == coordinate.column_index {
            proof {
                lemma_entries_after_remove(self.elements@, k as int);
            }
            let mut elements = Vec::new();
            std::mem::swap(&mut elements, &mut self.elements);
            elements.remove(k);
            self.elements = elements;
        } else {
            proof {
                if self@.contains_key(coordinate.position()) {
                    let i = choose|i: int|
                        0 <= i < self.elements@.len() && #[trigger] self.elements@[i].position()
                            == coordinate.position();
                    if i < k {
                        assert(comes_before(self.elements@[i].position(), coordinate.position()));
                    } else if i > k {
                        assert(comes_before(
                            self.elements@[k as int].position(),
                            self.elements@[i].position(),
                        ));
                        assert(!comes_before(self.elements@[k as int].position(), coordinate.position()));
                    }
                }
                assert(self@ =~= old(self)@.remove(coordinate.position()));
            }
        }
    }

    /// A matrix of the given shape that holds what a list of elements names. An element
    /// outside the shape is refused. Where the list names a position again, the
    /// operator combines what the position holds with the new value.
    pub fn from_element_list(
        size: &Size,
        elements: &MatrixElementList<T>,
        reduction_operator_for_duplicates: &dyn BinaryOperator<T, T, T>,
    ) -> (matrix: Result<Self, SparseLinearAlgebraError>)
        ensures
            all_inside(elements@, *size) ==> matrix is Ok && matrix->Ok_0.shape() == *size
                && matrix->Ok_0@ == built_from(
                elements@,
                reduction_operator_for_duplicates.operator_type(),
            ),
            !all_inside(elements@, *size) ==> matrix is Err && matrix->Err_0
                == SparseLinearAlgebraError::IndexOutOfBounds,
    {
        let operator = reduction_operator_for_duplicates.graphblas_type();
        let mut matrix = Self::new(size);
        let mut i: usize = 0;
        while i < elements.length()
            invariant
                i <= elements@.len(),
                matrix.shape() == *size,
                all_inside(elements@.take(i as int), *size),
                matrix@ == built_from(elements@.take(i as int), operator),
            decreases elements@.len() - i,
        {
            let element = elements.element(i);
            proof {
                assert(elements@.take(i + 1).drop_last() =~= elements@.take(i as int));
                assert(elements@.take(i + 1).last() == element);
            }
            let value = match matrix.get_element(&element.coordinate) {
                Some(held) => operator.evaluate(&held, &element.value),
                None => element.value,
            };
            match matrix.set_element(MatrixElement { coordinate: element.coordinate, value }) {
                Ok(_) => {},
                Err(error) => {
                    assert(!size.holds(elements@[i as int].position()));
                    return Err(error);
                },
            }
            proof {
                assert forall|j: int| 0 <= j < i + 1 implies size.holds(
                    #[trigger] elements@.take(i + 1)[j].position(),
                ) by {
                    if j < i {
                        assert(elements@.take(i as int)[j] == elements@[j]);
                    }
                }
            }
            i = i + 1;
        }
        assert(elements@.take(elements@.len() as int) =~= elements@);
        Ok(matrix)
    }

    /// The stored entries as a list, in row-major order.
    pub fn get_element_list(&self) -> (list: MatrixElementList<T>)
        ensures
            in_row_major_order(list@),
            lists_entries_of(list@, self@),
    {
        proof {
            use_type_invariant(self);
            lemma_ordered_list_names_its_entries(self.elements@);
        }
        MatrixElementList::from_element_vector(copy_of(&self.elements))
    }

    /// The matrix with rows and columns exchanged.
    pub fn transposed(&self) -> (matrix: Self)
        ensures
            matrix.shape() == self.shape().transposed(),
            matrix@ == transpose_of(self@),
    {
        proof {
            use_type_invariant(self);
            lemma_ordered_list_names_its_entries(self.elements@);
        }
        let mut matrix = Self::new(&Size { row_height: self.size.column_width, column_width: self.size.row_height });
        let mut i: usize = 0;
        while i < self.elements.len()
            invariant
                i <= self.elements@.len(),
                matrix.shape() == self.shape().transposed(),
                lists_entries_of(self.elements@, self@),
                forall|j: int|
                    0 <= j < self.elements@.len() ==> self.size.holds(
                        #[trigger] self.elements@[j].position(),
                    ),
                forall|position: (int, int)|
                    matrix@.contains_key(position) <==> exists|j: int|
                        0 <= j < i && #[trigger] self.elements@[j].position() == (position.1, position.0),
                forall|position: (int, int)| #[trigger]
                    matrix@.contains_key(position) ==> matrix@[position] == self@[(
                        position.1,
                        position.0,
                    )],
            decreases self.elements@.len() - i,
        {
            let element = &self.elements[i];
            let ghost before = matrix@;
            let turned = MatrixElement {
                coordinate: Coordinate {
                    row_index: element.coordinate.column_index,
                    column_index: element.coordinate.row_index,
                },
                value: element.value,
            };
            assert(self.size.holds(self.elements@[i as int].position()));
            matrix.store(turned);
            proof {
                assert(self@.contains_pair(self.elements@[i as int].position(), element.value));
                assert forall|position: (int, int)|
                    matrix@.contains_key(position) <==> exists|j: int|
                        0 <= j < i + 1 && #[trigger] self.elements@[j].position() == (
                            position.1,
                            position.0,
                        ) by {
                    if matrix@.contains_key(position) {
                        if position == turned.position() {
                            assert(self.elements@[i as int].position() == (position.1, position.0));
                        } else {
                            assert(before.contains_key(position));
                            let j = choose|j: int|
                                0 <= j < i && #[trigger] self.elements@[j].position() == (
                                    position.1,
                                    position.0,
                                );
                            assert(0 <= j < i + 1);
                        }
                    }
                    if exists|j: int|
                        0 <= j < i + 1 && #[trigger] self.elements@[j].position() == (
                            position.1,
                            position.0,
                        ) {
                        let j = choose|j: int|
                            0 <= j < i + 1 && #[trigger] self.elements@[j].position() == (
                                position.1,
                                position.0,
                            );
                        if j < i {
                            assert(before.contains_key(position));
                        }
                    }
                }
            }
            i = i + 1;
        }
        proof {
            assert forall|position: (int, int)|
                matrix@.contains_key(position) <==> transpose_of(self@).contains_key(position) by {
                if transpose_of(self@).contains_key(position) {
                    let j = choose|j: int|
                        0 <= j < self.elements@.len() && #[trigger] self.elements@[j].position() == (
                            position.1,
                            position.0,
                        );
                    assert(0 <= j < i);
                }
                if matrix@.contains_key(position) {
                    let j = choose|j: int|
                        0 <= j < i && #[trigger] self.elements@[j].position() == (position.1, position.0);
                    assert(self@.contains_pair(self.elements@[j].position(), self.elements@[j].value));
                }
            }
            assert(matrix@ =~= transpose_of(self@));
        }
        matrix
    }
}

} // verus!