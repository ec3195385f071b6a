use vstd::prelude::*;
use std::marker::PhantomData;
use crate::error::SparseLinearAlgebraError;
use crate::operators::binary_operator::{BinaryOperator, BinaryOperatorType};
use crate::operators::mask::{permitted_by, vector_mask_entries, vector_mask_extent, VectorMask};
use crate::operators::options::OperatorOptions;
use crate::operators::semiring::{Semiring, SemiringType};
use crate::operators::write_rule::{write_vector, written};
use crate::value_types::sparse_matrix::size::Size;
use crate::value_types::sparse_matrix::sparse_matrix::{
    comes_before, in_row_major_order, lemma_no_entry_between, lists_entries_of, operand_entries,
    operand_shape, rows_done, SparseMatrix,
};
use crate::value_types::sparse_vector::element::VectorElement;
use crate::value_types::sparse_vector::sparse_vector::SparseVector;
use crate::value_types::value_type::ValueType;

verus! {

/// What one column of a matrix, multiplied with a vector over its first `height` rows,
/// comes to: nothing where no row holds an entry in both, and else the sum of the
/// products of the entries that meet, added from the left in the order of the rows.
pub open spec fn column_product<T: ValueType>(
    semiring: SemiringType,
    multiplier: Map<int, T>,
    multiplicant: Map<(int, int), T>,
    column: int,
    height: nat,
) -> Option<T>
    decreases height,
{
    if height == 0 {
        None
    } else {
        let front = column_product(semiring, multiplier, multiplicant, column, (height - 1) as nat);
        let row = height - 1;
        if multiplier.contains_key(row) && multiplicant.contains_key((row, column)) {
            let term = semiring.multiplication.apply(multiplier[row], multiplicant[(row, column)]);
            match front {
                Some(sum) => Some(semiring.addition.binary_operator().apply(sum, term)),
                None => Some(term),
            }
        } else {
            front
        }
    }
}

/// The entries of the product of a vector with a matrix of the given height. A column
/// in which no entry meets an entry of the vector leaves its index empty.
pub open spec fn vector_matrix_product<T: ValueType>(
    semiring: SemiringType,
    multiplier: Map<int, T>,
    multiplicant: Map<(int, int), T>,
    height: nat,
) -> Map<int, T> {
    Map::new(
        |column: int| column_product(semiring, multiplier, multiplicant, column, height) is Some,
        |column: int| column_product(semiring, multiplier, multiplicant, column, height)->Some_0,
    )
}

/// Rows in which a column holds nothing do not change what the column comes to.
pub(crate) proof fn lemma_column_product_over_gap<T: ValueType>(
    semiring: SemiringType,
    multiplier: Map<int, T>,
    multiplicant: Map<(int, int), T>,
    column: int,
    from: nat,
    to: nat,
)
    requires
        from <= to,
        forall|row: int| from <= row < to ==> !multiplicant.contains_key((row, column)),
    ensures
        column_product(semiring, multiplier, multiplicant, column, to) == column_product(
            semiring,
            multiplier,
            multiplicant,
            column,
            from,
        ),
    decreases to - from,
{
    if from < to {
        lemma_column_product_over_gap(semiring, multiplier, multiplicant, column, from, (to - 1) as nat);
        assert(!multiplicant.contains_key((to - 1, column)));
    }
}

/// Multiplies a vector with a matrix that has as many rows as the vector is long.
pub(crate) fn multiply_vector_with_matrix<T: ValueType>(
    semiring: SemiringType,
    multiplier: &SparseVector<T>,
    multiplicant: &SparseMatrix<T>,
) -> (product: SparseVector<T>)
    requires
        multiplier.extent() == multiplicant.shape().row_height,
    ensures
        product.extent() == multiplicant.shape().column_width,
        product@ == vector_matrix_product(
            semiring,
            multiplier@,
            multiplicant@,
            multiplicant.shape().row_height as nat,
        ),
{
    let width = multiplicant.column_width();
    let ghost height = multiplicant.shape().row_height as nat;
    let addition = semiring.addition.to_binary_operator();
    let mut product = SparseVector::<T>::new(&width);
    let elements = multiplicant.elements();
    let mut k: usize = 0;
    while k < elements.len()
        invariant
            k <= elements@.len(),
            product.extent() == width,
            width == multiplicant.shape().column_width,
            height == multiplicant.shape().row_height,
            addition == semiring.addition.binary_operator(),
            in_row_major_order(elements@),
            lists_entries_of(elements@, multiplicant@),
            forall|position: (int, int)| #[trigger]
                multiplicant@.contains_key(position) ==> multiplicant.shape().holds(position),
            forall|column: int|
                product@.get(column) == column_product(
                    semiring,
                    multiplier@,
                    multiplicant@,
                    column,
                    #[trigger] rows_done(elements@, k as int, column),
                ),
        decreases elements@.len() - k,
    {
        let element = &elements[k];
        let ghost position = element.position();
        let ghost before = product@;
        proof {
            assert(multiplicant@.contains_pair(elements@[k as int].position(), element.value));
            if k > 0 {
                assert(comes_before(elements@[k - 1].position(), elements@[k as int].position()));
            }
        }
        match multiplier.get_element(element.coordinate.row_index) {
            Some(factor) => {
                let term = semiring.multiplication.evaluate(&factor, &element.value);
                let value = match product.get_element(element.coordinate.column_index) {
                    Some(sum) => addition.evaluate(&sum, &term),
                    None => term,
                };
                product.store(
                    VectorElement { index: element.coordinate.column_index, value },
                );
            },
            None => {},
        }
        proof {
            assert forall|column: int|
                product@.get(column) == column_product(
                    semiring,
                    multiplier@,
                    multiplicant@,
                    column,
                    #[trigger] rows_done(elements@, k + 1, column),
                ) by {
                let done = rows_done(elements@, k as int, column);
                let next = rows_done(elements@, k + 1, column);
                assert(before.get(column) == column_product(
                    semiring,
                    multiplier@,
                    multiplicant@,
                    column,
                    done,
                ));
                let reach = if column == position.1 {
                    position.0 as nat
                } else {
                    next
                };
                assert forall|row: int| done <= row < reach implies !multiplicant@.contains_key(
                    (row, column),
                ) by {
                    lemma_no_entry_between(elements@, multiplicant@, k as int, (row, column));
                }
                lemma_column_product_over_gap(
                    semiring,
                    multiplier@,
                    multiplicant@,
                    column,
                    done,
                    reach,
                );
            }
        }
        k = k + 1;
    }
    proof {
        assert forall|column: int|
            (#[trigger] product@.contains_key(column) <==> column_product(
                semiring,
                multiplier@,
                multiplicant@,
                column,
                height,
            ) is Some) && product@.get(column) == column_product(
                semiring,
                multiplier@,
                multiplicant@,
                column,
                height,
            ) by {
            let done = rows_done(elements@, k as int, column);
            assert(product@.get(column) == column_product(
                semiring,
                multiplier@,
                multiplicant@,
                column,
                done,
            ));
            if k > 0 {
                assert(multiplicant@.contains_pair(
                    elements@[k - 1].position(),
                    elements@[k - 1].value,
                ));
            }
            assert forall|row: int| done <= row < height implies !multiplicant@.contains_key(
                (row, column),
            ) by {
                lemma_no_entry_between(elements@, multiplicant@, k as int, (row, column));
            }
            lemma_column_product_over_gap(
                semiring,
                multiplier@,
                multiplicant@,
                column,
                done,
                height,
            );
        }
        assert(product@ =~= vector_matrix_product(semiring, multiplier@, multiplicant@, height));
    }
    product
}

/// Why a multiplication of a vector with a matrix is refused, if it is. `multiplicant`
/// is the shape of the matrix that is read, transposed already where the options say
/// so. A vector that is not as long as the matrix has rows, or a result that is not
/// as long as the matrix has columns, is a `DimensionMismatch`; after that, a mask
/// of another length than the result is a `ShapeMismatch`.
pub open spec fn vector_matrix_refusal(
    multiplier: usize,
    multiplicant: Size,
    product: usize,
    mask: Option<usize>,
) -> Option<SparseLinearAlgebraError> {
    if multiplier != multiplicant.row_height || product != multiplicant.column_width {
        Some(SparseLinearAlgebraError::DimensionMismatch)
    } else if mask is Some && mask != Some(product) {
        Some(SparseLinearAlgebraError::ShapeMismatch)
    } else {
        None
    }
}

/// What a multiplication of a vector with a matrix leaves behind. A refused call
/// leaves the result as it was; else the product is written into the result through
/// the mask and the accumulator.
pub open spec fn vector_matrix_product_made<T: ValueType>(
    semiring: SemiringType,
    accumulator: Option<BinaryOperatorType>,
    options: OperatorOptions,
    permitted: Set<int>,
    mask_extent: Option<usize>,
    multiplier: SparseVector<T>,
    multiplicant: SparseMatrix<T>,
    before: SparseVector<T>,
    after: SparseVector<T>,
    outcome: Result<(), SparseLinearAlgebraError>,
) -> bool {
    let shape = operand_shape(multiplicant.shape(), options.transpose_second_input);
    &&& after.extent() == before.extent()
    &&& match vector_matrix_refusal(multiplier.extent(), shape, before.extent(), mask_extent) {
        Some(error) => outcome == Err::<(), SparseLinearAlgebraError>(error) && after@ == before@,
        None => outcome is Ok && after@ == written(
            before@,
            vector_matrix_product(
                semiring,
                multiplier@,
                operand_entries(multiplicant@, options.transpose_second_input),
                shape.row_height as nat,
            ),
            permitted,
            accumulator,
            options.clear_result_before_write,
        ),
    }
}

/// Multiplies a vector with a matrix and writes the product into a vector through a
/// mask and an accumulator.
pub(crate) fn multiply_vector_with_matrix_into<T: ValueType, M: ValueType>(
    semiring: SemiringType,
    accumulator: Option<BinaryOperatorType>,
    options: &OperatorOptions,
    mask: Option<&SparseVector<M>>,
    by_value: bool,
    multiplier: &SparseVector<T>,
    multiplicant: &SparseMatrix<T>,
    product: &mut SparseVector<T>,
) -> (outcome: Result<(), SparseLinearAlgebraError>)
    ensures
        vector_matrix_product_made(
            semiring,
            accumulator,
            *options,
            permitted_by(vector_mask_entries(mask), by_value),
            vector_mask_extent(mask),
            *multiplier,
            *multiplicant,
            *old(product),
            *final(product),
            outcome,
        ),
{
    let turned = if options.transpose_second_input {
        Some(multiplicant.transposed())
    } else {
        None
    };
    let matrix: &SparseMatrix<T> = match &turned {
        Some(matrix) => matrix,
        None => multiplicant,
    };
    if multiplier.length() != matrix.row_height() || product.length() != matrix.column_width() {
        return Err(SparseLinearAlgebraError::DimensionMismatch);
    }
    match mask {
        Some(mask_vector) => {
            if mask_vector.length() != product.length() {
                return Err(SparseLinearAlgebraError::ShapeMismatch);
            }
        },
        None => {},
    }
    let computed = multiply_vector_with_matrix(semiring, multiplier, matrix);
    write_vector(product, &computed, mask, by_value, accumulator, options.clear_result_before_write);
    Ok(())
}

/// The name that an optional accumulator in a box stands for.
pub open spec fn boxed_accumulator_type<T: ValueType>(
    accumulator: Option<Box<dyn BinaryOperator<T, T, T>>>,
) -> Option<BinaryOperatorType> {
    match accumulator {
        Some(operator) => Some(operator.operator_type()),
        None => None,
    }
}

/// Multiplication of a vector with a matrix over a semiring.
#[derive(Debug)]
pub struct VectorMatrixMultiplicationOperator<
    Multiplier: ValueType,
    Multiplicant: ValueType,
    Product: ValueType,
> {
    _multiplier: PhantomData<Multiplier>,
    _multiplicant: PhantomData<Multiplicant>,
    _product: PhantomData<Product>,
    accumulator: Option<BinaryOperatorType>,
    semiring: SemiringType,
    options: OperatorOptions,
}

impl<
    Multiplier: ValueType,
    Multiplicant: ValueType,
    Product: ValueType,
> VectorMatrixMultiplicationOperator<Multiplier, Multiplicant, Product> {
    /// The semiring that multiplies and adds.
    pub closed spec fn semiring(&self) -> SemiringType {
        self.semiring
    }

    /// The operator that combines what the result holds with what was computed, if
    /// there is one.
    pub closed spec fn accumulator(&self) -> Option<BinaryOperatorType> {
        self.accumulator
    }

    pub closed spec fn options(&self) -> OperatorOptions {
        self.options
    }

    pub fn new(
        semiring: &dyn Semiring<Multiplier, Multiplicant, Product>,
        options: &OperatorOptions,
        accumulator: Option<Box<dyn BinaryOperator<Product, Product, Product>>>,
    ) -> (operator: Self)
        ensures
            operator.semiring() == semiring.semiring_type(),
            operator.options() == *options,
            operator.accumulator() == boxed_accumulator_type(accumulator),
    {
        let accumulator_to_use = match accumulator {
            Some(accumulator) => Some(accumulator.graphblas_type()),
            None => None,
        };
        Self {
            accumulator: accumulator_to_use,
            semiring: semiring.graphblas_type(),
            options: *options,
            _multiplier: PhantomData,
            _multiplicant: PhantomData,
            _product: PhantomData,
        }
    }
}

impl<T: ValueType> VectorMatrixMultiplicationOperator<T, T, T> {
    /// Writes the product of `multiplier` with `multiplicant` into `product`, every
    /// index permitted.
    pub fn apply(
        &self,
        multiplier: &SparseVector<T>,
        multiplicant: &SparseMatrix<T>,
        product: &mut SparseVector<T>,
    ) -> (outcome: Result<(), SparseLinearAlgebraError>)
        ensures
            vector_matrix_product_made(
                self.semiring(),
                self.accumulator(),
                self.options(),
                Set::full(),
                None,
                *multiplier,
                *multiplicant,
                *old(product),
                *final(product),
                outcome,
            ),
    {
        multiply_vector_with_matrix_into::<T, T>(
            self.semiring,
            self.accumulator,
            &self.options,
            None,
            false,
            multiplier,
            multiplicant,
            product,
        )
    }

    /// Writes the product of `multiplier` with `multiplicant` into the indices of
    /// `product` that the mask permits.
    pub fn apply_with_mask<MaskValueType: ValueType>(
        &self,
        mask: &VectorMask<MaskValueType>,
        multiplier: &SparseVector<T>,
        multiplicant: &SparseMatrix<T>,
        product: &mut SparseVector<T>,
    ) -> (outcome: Result<(), SparseLinearAlgebraError>)
        ensures
            vector_matrix_product_made(
                self.semiring(),
                self.accumulator(),
                self.options(),
                mask.permitted(),
                mask.extent(),
                *multiplier,
                *multiplicant,
                *old(product),
                *final(product),
                outcome,
            ),
    {
        multiply_vector_with_matrix_into(
            self.semiring,
            self.accumulator,
            &self.options,
            mask.vector(),
            mask.is_by_value(),
            multiplier,
            multiplicant,
            product,
        )
    }
}

} // verus!
