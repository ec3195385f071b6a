use vstd::prelude::*;
use std::marker::PhantomData;
use crate::error::SparseLinearAlgebraError;
use crate::operators::binary_operator::{
    accumulator_type, resolve_accumulator, BinaryOperator, BinaryOperatorType,
};
use crate::operators::mask::{mask_entries, mask_shape, permitted_by, MatrixMask};
use crate::operators::multiplication::vector_matrix_multiplication::{
    column_product, multiply_vector_with_matrix,
};
use crate::operators::options::OperatorOptions;
use crate::operators::semiring::{Semiring, SemiringType};
use crate::operators::write_rule::{write_matrix, written};
use crate::value_types::sparse_matrix::coordinate::Coordinate;
use crate::value_types::sparse_matrix::element::MatrixElement;
use crate::value_types::sparse_matrix::size::Size;
use crate::value_types::sparse_matrix::sparse_matrix::{
    comes_before, in_row_major_order, lists_entries_of, operand_entries, operand_shape,
    SparseMatrix,
};
use crate::value_types::sparse_vector::element::VectorElement;
use crate::value_types::sparse_vector::sparse_vector::{column_entries, SparseVector};
use crate::value_types::value_type::ValueType;

verus! {

/// The entries of one row of a matrix, by their column.
pub open spec fn row_entries<T>(entries: Map<(int, int), T>, row: int) -> Map<int, T> {
    Map::new(|column: int| entries.contains_key((row, column)), |column: int| entries[(row, column)])
}

/// The entries of the product of two matrices, the second of the given height: the
/// position in row i and column j holds what row i of the first, as a vector, and
/// column j of the second come to; it is empty where no entry of the row meets an
/// entry of the column.
pub open spec fn matrix_product<T: ValueType>(
    semiring: SemiringType,
    multiplier: Map<(int, int), T>,
    multiplicant: Map<(int, int), T>,
    height: nat,
) -> Map<(int, int), T> {
    Map::new(
        |position: (int, int)|
            column_product(
                semiring,
                row_entries(multiplier, position.0),
                multiplicant,
                position.1,
                height,
            ) is Some,
        |position: (int, int)|
            column_product(
                semiring,
                row_entries(multiplier, position.0),
                multiplicant,
                position.1,
                height,
            )->Some_0,
    )
}

/// An empty vector multiplied with a matrix comes to nothing.
proof fn lemma_empty_row_comes_to_nothing<T: ValueType>(
    semiring: SemiringType,
    multiplier: Map<int, T>,
    multiplicant: Map<(int, int), T>,
    column: int,
    height: nat,
)
    requires
        forall|index: int| !multiplier.contains_key(index),
    ensures
        column_product(semiring, multiplier, multiplicant, column, height) is None,
    decreases height,
{
    if height > 0 {
        lemma_empty_row_comes_to_nothing(
            semiring,
            multiplier,
            multiplicant,
            column,
            (height - 1) as nat,
        );
        assert(!multiplier.contains_key(height - 1));
    }
}

/// The row below which the rows of a matrix are done once the first `n` elements of
/// its list have been gone through, where `n` stands at the start of a row.
spec fn row_bound<T: ValueType>(elements: Seq<MatrixElement<T>>, n: int, height: int) -> int {
    if n < elements.len() {
        elements[n].position().0
    } else {
        height
    }
}

/// Multiplies two matrices, the second with as many rows as the first has columns.
pub(crate) fn multiply_matrices<T: ValueType>(
    semiring: SemiringType,
    multiplier: &SparseMatrix<T>,
    multiplicant: &SparseMatrix<T>,
) -> (product: SparseMatrix<T>)
    requires
        multiplier.shape().column_width == multiplicant.shape().row_height,
    ensures
        product.shape().row_height == multiplier.shape().row_height,
        product.shape().column_width == multiplicant.shape().column_width,
        product@ == matrix_product(
            semiring,
            multiplier@,
            multiplicant@,
            multiplicant.shape().row_height as nat,
        ),
{
    let depth = multiplicant.row_height();
    let size = Size { row_height: multiplier.row_height(), column_width: multiplicant.column_width() };
    let ghost target = matrix_product(semiring, multiplier@, multiplicant@, depth as nat);
    let mut product = SparseMatrix::<T>::new(&size);
    let elements = multiplier.elements();
    let mut k: usize = 0;
    proof {
        assert forall|position: (int, int)|
            #[trigger] product@.get(position) == if position.0 < row_bound(
                elements@,
                0,
                size.row_height as int,
            ) {
                target.get(position)
            } else {
                None
            } by {
            if position.0 < row_bound(elements@, 0, size.row_height as int) {
                assert forall|column: int| !row_entries(multiplier@, position.0).contains_key(
                    column,
                ) by {
                    if multiplier@.contains_key((position.0, column)) {
                        let n = choose|n: int|
                            0 <= n < elements@.len() && #[trigger] elements@[n].position() == (
                                position.0,
                                column,
                            );
                        if n > 0 {
                            assert(comes_before(elements@[0].position(), elements@[n].position()));
                        }
                    }
                }
                lemma_empty_row_comes_to_nothing(
                    semiring,
                    row_entries(multiplier@, position.0),
                    multiplicant@,
                    position.1,
                    depth as nat,
                );
            }
        }
    }
    while k < elements.len()
        invariant
            k <= elements@.len(),
            product.shape() == size,
            size.row_height == multiplier.shape().row_height,
            size.column_width == multiplicant.shape().column_width,
            depth == multiplicant.shape().row_height,
            depth == multiplier.shape().column_width,
            target == matrix_product(semiring, multiplier@, multiplicant@, depth as nat),
            in_row_major_order(elements@),
            lists_entries_of(elements@, multiplier@),
            forall|position: (int, int)| #[trigger]
                multiplier@.contains_key(position) ==> multiplier.shape().holds(position),
            forall|n: int|
                0 <= n < k ==> (#[trigger] elements@[n].position()).0 < row_bound(
                    elements@,
                    k as int,
                    size.row_height as int,
                ),
            forall|position: (int, int)|
                #[trigger] product@.get(position) == if position.0 < row_bound(
                    elements@,
                    k as int,
                    size.row_height as int,
                ) {
                    target.get(position)
                } else {
                    None
                },
        decreases elements@.len() - k,
    {
        let row_index = elements[k].coordinate.row_index;
        proof {
            assert(multiplier@.contains_pair(elements@[k as int].position(), elements@[k as int].value));
        }
        let mut row = SparseVector::<T>::new(&depth);
        let mut end: usize = k;
        while end < elements.len() && elements[end].coordinate.row_index == row_index
            invariant
                k <= end <= elements@.len(),
                k < elements@.len(),
                row_index == elements@[k as int].coordinate.row_index,
                row.extent() == depth,
                depth == multiplier.shape().column_width,
                lists_entries_of(elements@, multiplier@),
                forall|position: (int, int)| #[trigger]
                    multiplier@.contains_key(position) ==> multiplier.shape().holds(position),
                forall|n: int|
                    k <= n < end ==> (#[trigger] elements@[n].position()).0 == row_index,
                forall|column: int|
                    (#[trigger] row@.contains_key(column) <==> exists|n: int|
                        k <= n < end && #[trigger] elements@[n].position() == (
                            row_index as int,
                            column,
                        )) && (row@.contains_key(column) ==> row@[column] == multiplier@[(
                        row_index as int,
                        column,
                    )]),
            decreases elements@.len() - end,
        {
            let element = &elements[end];
            let ghost before = row@;
            proof {
                assert(multiplier@.contains_pair(elements@[end as int].position(), element.value));
            }
            row.store(
                VectorElement { index: element.coordinate.column_index, value: element.value },
            );
            proof {
                assert forall|column: int|
                    (#[trigger] row@.contains_key(column) <==> exists|n: int|
                        k <= n < end + 1 && #[trigger] elements@[n].position() == (
                            row_index as int,
                            column,
                        )) && (row@.contains_key(column) ==> row@[column] == multiplier@[(
                        row_index as int,
                        column,
                    )]) by {
                    if row@.contains_key(column) {
                        if before.contains_key(column) {
                            let n = choose|n: int|
                                k <= n < end && #[trigger] elements@[n].position() == (
                                    row_index as int,
                                    column,
                                );
                            assert(k <= n < end + 1);
                        } else {
                            assert(elements@[end as int].position() == (row_index as int, column));
                        }
                    }
                    if exists|n: int|
                        k <= n < end + 1 && #[trigger] elements@[n].position() == (
                            row_index as int,
                            column,
                        ) {
                        let n = choose|n: int|
                            k <= n < end + 1 && #[trigger] elements@[n].position() == (
                                row_index as int,
                                column,
                            );
                        if n < end {
                            assert(before.contains_key(column));
                        }
                    }
                }
            }
            end = end + 1;
        }
        proof {
            assert(end > k);
            assert forall|column: int|
                #[trigger] row@.contains_key(column) <==> row_entries(
                    multiplier@,
                    row_index as int,
                ).contains_key(column) by {
                if multiplier@.contains_key((row_index as int, column)) {
                    let n = choose|n: int|
                        0 <= n < elements@.len() && #[trigger] elements@[n].position() == (
                            row_index as int,
                            column,
                        );
                    if n < k {
                        assert(elements@[n].position().0 < row_bound(
                            elements@,
                            k as int,
                            size.row_height as int,
                        ));
                    }
                    if n >= end {
                        if n > end {
                            assert(comes_before(elements@[end as int].position(), elements@[n].position()));
                        }
                        assert(comes_before(elements@[end - 1].position(), elements@[end as int].position()));
                    }
                }
                if row@.contains_key(column) {
                    let n = choose|n: int|
                        k <= n < end && #[trigger] elements@[n].position() == (row_index as int, column);
                    assert(multiplier@.contains_pair(elements@[n].position(), elements@[n].value));
                }
            }
            assert(row@ =~= row_entries(multiplier@, row_index as int));
        }
        let computed = multiply_vector_with_matrix(semiring, &row, multiplicant);
        let column = computed.as_column();
        let items = column.elements();
        let ghost before_row = product@;
        let mut a: usize = 0;
        while a < items.len()
            invariant
                a <= items@.len(),
                product.shape() == size,
                row_index < size.row_height,
                computed.extent() == size.column_width,
                column_entries(column@) == computed@,
                lists_entries_of(items@, column@),
                forall|position: (int, int)| #[trigger]
                    column@.contains_key(position) ==> position.1 == 0 && 0
                        <= position.0 < computed.extent(),
                forall|position: (int, int)|
                    #[trigger] product@.get(position) == if position.0 == row_index && exists|n: int|
                        0 <= n < a && #[trigger] items@[n].position() == (position.1, 0int) {
                        column@.get((position.1, 0))
                    } else {
                        before_row.get(position)
                    },
            decreases items@.len() - a,
        {
            let item = &items[a];
            let ghost before = product@;
            proof {
                assert(column@.contains_pair(items@[a as int].position(), item.value));
            }
            product.store(
                MatrixElement {
                    coordinate: Coordinate {
                        row_index,
                        column_index: item.coordinate.row_index,
                    },
                    value: item.value,
                },
            );
            proof {
                assert forall|position: (int, int)|
                    #[trigger] product@.get(position) == if position.0 == row_index && exists|n: int|
                        0 <= n < a + 1 && #[trigger] items@[n].position() == (position.1, 0int) {
                        column@.get((position.1, 0))
                    } else {
                        before_row.get(position)
                    } by {
                    let written_to = (row_index as int, item.coordinate.row_index as int);
                    assert(items@[a as int].position() == (written_to.1, 0int));
                    assert(before.get(position) == if position.0 == row_index && exists|n: int|
                        0 <= n < a && #[trigger] items@[n].position() == (position.1, 0int) {
                        column@.get((position.1, 0))
                    } else {
                        before_row.get(position)
                    });
                    if position == written_to {
                        assert(0 <= a < a + 1 && items@[a as int].position() == (position.1, 0int));
                    } else {
                        if position.0 == row_index && exists|n: int|
                            0 <= n < a + 1 && #[trigger] items@[n].position() == (position.1, 0int) {
                            let n = choose|n: int|
                                0 <= n < a + 1 && #[trigger] items@[n].position() == (
                                    position.1,
                                    0int,
                                );
                            assert(n < a);
                            assert(0 <= n < a && items@[n].position() == (position.1, 0int));
                        }
                        if position.0 == row_index && exists|n: int|
                            0 <= n < a && #[trigger] items@[n].position() == (position.1, 0int) {
                            let n = choose|n: int|
                                0 <= n < a && #[trigger] items@[n].position() == (position.1, 0int);
                            assert(0 <= n < a + 1 && items@[n].position() == (position.1, 0int));
                        }
                    }
                }
            }
            a = a + 1;
        }
        proof {
            let next = row_bound(elements@, end as int, size.row_height as int);
            assert(elements@[end - 1].position().0 == row_index);
            if end < elements@.len() {
                assert(comes_before(elements@[end - 1].position(), elements@[end as int].position()));
            }
            assert(row_index < next);
            assert forall|n: int| 0 <= n < end implies (#[trigger] elements@[n].position()).0
                < next by {
                if n < k {
                    assert(elements@[n].position().0 < row_bound(
                        elements@,
                        k as int,
                        size.row_height as int,
                    ));
                }
            }
            assert forall|position: (int, int)|
                #[trigger] product@.get(position) == if position.0 < next {
                    target.get(position)
                } else {
                    None
                } by {
                assert(before_row.get(position) == if position.0 < row_index {
                    target.get(position)
                } else {
                    None
                });
                if position.0 == row_index {
                    if column@.contains_key((position.1, 0)) {
                        let n = choose|n: int|
                            0 <= n < items@.len() && #[trigger] items@[n].position() == (
                                position.1,
                                0int,
                            );
                    }
                    if exists|n: int|
                        0 <= n < a && #[trigger] items@[n].position() == (position.1, 0int) {
                        let n = choose|n: int|
                            0 <= n < a && #[trigger] items@[n].position() == (position.1, 0int);
                        assert(column@.contains_pair(
                            items@[n].position(),
                            items@[n].value,
                        ));
                    }
                    assert(computed@.get(position.1) == target.get(position));
                } else if row_index < position.0 < next {
                    assert forall|column: int| !row_entries(multiplier@, position.0).contains_key(
                        column,
                    ) by {
                        if multiplier@.contains_key((position.0, column)) {
                            let n = choose|n: int|
                                0 <= n < elements@.len() && #[trigger] elements@[n].position() == (
                                    position.0,
                                    column,
                                );
                            if n < end {
                                if n < k {
                                    assert(elements@[n].position().0 < row_bound(
                                        elements@,
                                        k as int,
                                        size.row_height as int,
                                    ));
                                }
                            } else if n > end {
                                assert(comes_before(
                                    elements@[end as int].position(),
                                    elements@[n].position(),
                                ));
                            }
                        }
                    }
                    lemma_empty_row_comes_to_nothing(
                        semiring,
                        row_entries(multiplier@, position.0),
                        multiplicant@,
                        position.1,
                        depth as nat,
                    );
                }
            }
        }
        k = end;
    }
    proof {
        assert forall|position: (int, int)|
            (#[trigger] product@.contains_key(position) <==> target.contains_key(position))
                && product@.get(position) == target.get(position) by {
            if position.0 >= size.row_height {
                assert forall|column: int| !row_entries(multiplier@, position.0).contains_key(
                    column,
                ) by {
                }
                lemma_empty_row_comes_to_nothing(
                    semiring,
                    row_entries(multiplier@, position.0),
                    multiplicant@,
                    position.1,
                    depth as nat,
                );
            }
        }
        assert(product@ =~= target);
    }
    product
}

/// Why a multiplication of matrices is refused, if it is. The shapes are those of the
/// matrices that are read, transposed already where the options say so. A second
/// matrix that has not as many rows as the first has columns, or a result that has
/// not the rows of the first and the columns of the second, is a
/// `DimensionMismatch`; after that, a mask of another shape than the result is a
/// `ShapeMismatch`.
pub open spec fn matrix_multiplication_refusal(
    multiplier: Size,
    multiplicant: Size,
    product: Size,
    mask: Option<Size>,
) -> Option<SparseLinearAlgebraError> {
    if multiplier.column_width != multiplicant.row_height || product.row_height
        != multiplier.row_height || product.column_width != multiplicant.column_width {
        Some(SparseLinearAlgebraError::DimensionMismatch)
    } else if mask is Some && mask != Some(product) {
        Some(SparseLinearAlgebraError::ShapeMismatch)
    } else {
        None
    }
}

/// What a multiplication of matrices leaves behind. A refused call leaves the result
/// as it was; else the product is written into the result through the mask and the
/// accumulator.
pub open spec fn matrix_product_made<T: ValueType>(
    semiring: SemiringType,
    accumulator: Option<BinaryOperatorType>,
    options: OperatorOptions,
    permitted: Set<(int, int)>,
    mask_shape: Option<Size>,
    multiplier: SparseMatrix<T>,
    multiplicant: SparseMatrix<T>,
    before: SparseMatrix<T>,
    after: SparseMatrix<T>,
    outcome: Result<(), SparseLinearAlgebraError>,
) -> bool {
    let first = operand_shape(multiplier.shape(), options.transpose_first_input);
    let second = operand_shape(multiplicant.shape(), options.transpose_second_input);
    &&& after.shape() == before.shape()
    &&& match matrix_multiplication_refusal(first, second, before.shape(), mask_shape) {
        Some(error) => outcome == Err::<(), SparseLinearAlgebraError>(error) && after@ == before@,
        None => outcome is Ok && after@ == written(
            before@,
            matrix_product(
                semiring,
                operand_entries(multiplier@, options.transpose_first_input),
                operand_entries(multiplicant@, options.transpose_second_input),
                second.row_height as nat,
            ),
            permitted,
            accumulator,
            options.clear_result_before_write,
        ),
    }
}

/// Multiplies two matrices and writes the product into a third through a mask and an
/// accumulator.
pub(crate) fn multiply_matrices_into<T: ValueType, M: ValueType>(
    semiring: SemiringType,
    accumulator: Option<BinaryOperatorType>,
    options: &OperatorOptions,
    mask: Option<&SparseMatrix<M>>,
    by_value: bool,
    multiplier: &SparseMatrix<T>,
    multiplicant: &SparseMatrix<T>,
    product: &mut SparseMatrix<T>,
) -> (outcome: Result<(), SparseLinearAlgebraError>)
    ensures
        matrix_product_made(
            semiring,
            accumulator,
            *options,
            permitted_by(mask_entries(mask), by_value),
            mask_shape(mask),
            *multiplier,
            *multiplicant,
            *old(product),
            *final(product),
            outcome,
        ),
{
    let turned_first = if options.transpose_first_input {
        Some(multiplier.transposed())
    } else {
        None
    };
    let first: &SparseMatrix<T> = match &turned_first {
        Some(matrix) => matrix,
        None => multiplier,
    };
    let turned_second = if options.transpose_second_input {
        Some(multiplicant.transposed())
    } else {
        None
    };
    let second: &SparseMatrix<T> = match &turned_second {
        Some(matrix) => matrix,
        None => multiplicant,
    };
    let size = product.size();
    if first.column_width() != second.row_height() || size.row_height != first.row_height()
        || size.column_width != second.column_width() {
        return Err(SparseLinearAlgebraError::DimensionMismatch);
    }
    match mask {
        Some(mask_matrix) => {
            if !mask_matrix.has_shape(&size, false) {
                return Err(SparseLinearAlgebraError::ShapeMismatch);
            }
        },
        None => {},
    }
    let computed = multiply_matrices(semiring, first, second);
    write_matrix(product, &computed, mask, by_value, accumulator, options.clear_result_before_write);
    Ok(())
}

/// Multiplication of two matrices over a semiring.
#[derive(Debug)]
pub struct MatrixMultiplicationOperator<
    Multiplier: ValueType,
    Multiplicant: ValueType,
    Product: ValueType,
> {
    _multiplier: PhantomData<Multiplier>,
    _multiplicant: PhantomData<Multiplicant>,
    _product: PhantomData<Product>,
    accumulator: Option<BinaryOperatorType>,
    semiring: SemiringType,
    options: OperatorOptions,
}

impl<
    Multiplier: ValueType,
    Multiplicant: ValueType,
    Product: ValueType,
> MatrixMultiplicationOperator<Multiplier, Multiplicant, Product> {
    /// The semiring that multiplies and adds.
    pub closed spec fn semiring(&self) -> SemiringType {
        self.semiring
    }

    /// The operator that combines what the result holds with what was computed, if
    /// there is one.
    pub closed spec fn accumulator(&self) -> Option<BinaryOperatorType> {
        self.accumulator
    }

    pub closed spec fn options(&self) -> OperatorOptions {
        self.options
    }

    pub fn new(
        semiring: &dyn Semiring<Multiplier, Multiplicant, Product>,
        options: &OperatorOptions,
        accumulator: Option<&dyn BinaryOperator<Product, Product, Product>>,
    ) -> (operator: Self)
        ensures
            operator.semiring() == semiring.semiring_type(),
            operator.options() == *options,
            operator.accumulator() == accumulator_type(accumulator),
    {
        Self {
            accumulator: resolve_accumulator(accumulator),
            semiring: semiring.graphblas_type(),
            options: *options,
            _multiplier: PhantomData,
            _multiplicant: PhantomData,
            _product: PhantomData,
        }
    }
}

impl<T: ValueType> MatrixMultiplicationOperator<T, T, T> {
    /// Writes the product of `multiplier` with `multiplicant` into `product`, every
    /// position permitted.
    pub fn apply(
        &self,
        multiplier: &SparseMatrix<T>,
        multiplicant: &SparseMatrix<T>,
        product: &mut SparseMatrix<T>,
    ) -> (outcome: Result<(), SparseLinearAlgebraError>)
        ensures
            matrix_product_made(
                self.semiring(),
                self.accumulator(),
                self.options(),
                Set::full(),
                None,
                *multiplier,
                *multiplicant,
                *old(product),
                *final(product),
                outcome,
            ),
    {
        multiply_matrices_into::<T, T>(
            self.semiring,
            self.accumulator,
            &self.options,
            None,
            false,
            multiplier,
            multiplicant,
            product,
        )
    }

    /// Writes the product of `multiplier` with `multiplicant` into the positions of
    /// `product` that the mask permits.
    pub fn apply_with_mask<MaskValueType: ValueType>(
        &self,
        mask: &MatrixMask<MaskValueType>,
        multiplier: &SparseMatrix<T>,
        multiplicant: &SparseMatrix<T>,
        product: &mut SparseMatrix<T>,
    ) -> (outcome: Result<(), SparseLinearAlgebraError>)
        ensures
            matrix_product_made(
                self.semiring(),
                self.accumulator(),
                self.options(),
                mask.permitted(),
                mask.shape(),
                *multiplier,
                *multiplicant,
                *old(product),
                *final(product),
                outcome,
            ),
    {
        multiply_matrices_into(
            self.semiring,
            self.accumulator,
            &self.options,
            mask.matrix(),
            mask.is_by_value(),
            multiplier,
            multiplicant,
            product,
        )
    }
}

} // verus!
