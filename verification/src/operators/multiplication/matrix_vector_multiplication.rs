use vstd::prelude::*;
use std::marker::PhantomData;
use crate::error::SparseLinearAlgebraError;
use crate::operators::binary_operator::{
    accumulator_type, resolve_accumulator, BinaryOperator, BinaryOperatorType,
};
use crate::operators::mask::{permitted_by, vector_mask_entries, vector_mask_extent, VectorMask};
use crate::operators::options::OperatorOptions;
use crate::operators::semiring::{Semiring, SemiringType};
use crate::operators::write_rule::{write_vector, written};
use crate::value_types::sparse_matrix::size::Size;
use crate::value_types::sparse_matrix::sparse_matrix::{
    columns_done, comes_before, in_row_major_order, lemma_no_entry_between, lists_entries_of,
    operand_entries, operand_shape, SparseMatrix,
};
use crate::value_types::sparse_vector::element::VectorElement;
use crate::value_types::sparse_vector::sparse_vector::SparseVector;
use crate::value_types::value_type::ValueType;

verus! {

/// What one row of a matrix, multiplied with a vector over its first `width` columns,
/// comes to: nothing where no column holds an entry in both, and else the sum of the
/// products of the entries that meet, the matrix's entry first, added from the left
/// in the order of the columns.
pub open spec fn row_product<T: ValueType>(
    semiring: SemiringType,
    multiplier: Map<(int, int), T>,
    multiplicant: Map<int, T>,
    row: int,
    width: nat,
) -> Option<T>
    decreases width,
{
    if width == 0 {
        None
    } else {
        let front = row_product(semiring, multiplier, multiplicant, row, (width - 1) as nat);
        let column = width - 1;
        if multiplier.contains_key((row, column)) && multiplicant.contains_key(column) {
            let term = semiring.multiplication.apply(multiplier[(row, column)], multiplicant[column]);
            match front {
                Some(sum) => Some(semiring.addition.binary_operator().apply(sum, term)),
                None => Some(term),
            }
        } else {
            front
        }
    }
}

/// The entries of the product of a matrix of the given width with a vector. A row in
/// which no entry meets an entry of the vector leaves its index empty.
pub open spec fn matrix_vector_product<T: ValueType>(
    semiring: SemiringType,
    multiplier: Map<(int, int), T>,
    multiplicant: Map<int, T>,
    width: nat,
) -> Map<int, T> {
    Map::new(
        |row: int| row_product(semiring, multiplier, multiplicant, row, width) is Some,
        |row: int| row_product(semiring, multiplier, multiplicant, row, width)->Some_0,
    )
}

/// Columns in which a row holds nothing do not change what the row comes to.
proof fn lemma_row_product_over_gap<T: ValueType>(
    semiring: SemiringType,
    multiplier: Map<(int, int), T>,
    multiplicant: Map<int, T>,
    row: int,
    from: nat,
    to: nat,
)
    requires
        from <= to,
        forall|column: int| from <= column < to ==> !multiplier.contains_key((row, column)),
    ensures
        row_product(semiring, multiplier, multiplicant, row, to) == row_product(
            semiring,
            multiplier,
            multiplicant,
            row,
            from,
        ),
    decreases to - from,
{
    if from < to {
        lemma_row_product_over_gap(semiring, multiplier, multiplicant, row, from, (to - 1) as nat);
        assert(!multiplier.contains_key((row, to - 1)));
    }
}

/// Multiplies a matrix with a vector that is as long as the matrix has columns.
pub(crate) fn multiply_matrix_with_vector<T: ValueType>(
    semiring: SemiringType,
    multiplier: &SparseMatrix<T>,
    multiplicant: &SparseVector<T>,
) -> (product: SparseVector<T>)
    requires
        multiplicant.extent() == multiplier.shape().column_width,
    ensures
        product.extent() == multiplier.shape().row_height,
        product@ == matrix_vector_product(
            semiring,
            multiplier@,
            multiplicant@,
            multiplier.shape().column_width as nat,
        ),
{
    let height = multiplier.row_height();
    let ghost width = multiplier.shape().column_width as nat;
    let addition = semiring.addition.to_binary_operator();
    let mut product = SparseVector::<T>::new(&height);
    let elements = multiplier.elements();
    let mut k: usize = 0;
    while k < elements.len()
        invariant
            k <= elements@.len(),
            product.extent() == height,
            height == multiplier.shape().row_height,
            width == multiplier.shape().column_width,
            addition == semiring.addition.binary_operator(),
            in_row_major_order(elements@),
            lists_entries_of(elements@, multiplier@),
            forall|position: (int, int)| #[trigger]
                multiplier@.contains_key(position) ==> multiplier.shape().holds(position),
            forall|row: int|
                product@.get(row) == row_product(
                    semiring,
                    multiplier@,
                    multiplicant@,
                    row,
                    #[trigger] columns_done(elements@, k as int, row, width),
                ),
        decreases elements@.len() - k,
    {
        let element = &elements[k];
        let ghost position = element.position();
        let ghost before = product@;
        proof {
            assert(multiplier@.contains_pair(elements@[k as int].position(), element.value));
            if k > 0 {
                assert(comes_before(elements@[k - 1].position(), elements@[k as int].position()));
            }
        }
        match multiplicant.get_element(element.coordinate.column_index) {
            Some(factor) => {
                let term = semiring.multiplication.evaluate(&element.value, &factor);
                let value = match product.get_element(element.coordinate.row_index) {
                    Some(sum) => addition.evaluate(&sum, &term),
                    None => term,
                };
                product.store(
                    VectorElement { index: element.coordinate.row_index, value },
                );
            },
            None => {},
        }
        proof {
            assert forall|row: int|
                product@.get(row) == row_product(
                    semiring,
                    multiplier@,
                    multiplicant@,
                    row,
                    #[trigger] columns_done(elements@, k + 1, row, width),
                ) by {
                let done = columns_done(elements@, k as int, row, width);
                assert(before.get(row) == row_product(
                    semiring,
                    multiplier@,
                    multiplicant@,
                    row,
                    done,
                ));
                if row == position.0 {
                    assert forall|column: int|
                        done <= column < position.1 implies !multiplier@.contains_key(
                        (row, column),
                    ) by {
                        lemma_no_entry_between(elements@, multiplier@, k as int, (row, column));
                    }
                    lemma_row_product_over_gap(
                        semiring,
                        multiplier@,
                        multiplicant@,
                        row,
                        done,
                        position.1 as nat,
                    );
                } else if row < position.0 {
                    assert forall|column: int| done <= column < width implies !multiplier@.contains_key(
                        (row, column),
                    ) by {
                        lemma_no_entry_between(elements@, multiplier@, k as int, (row, column));
                    }
                    lemma_row_product_over_gap(
                        semiring,
                        multiplier@,
                        multiplicant@,
                        row,
                        done,
                        width,
                    );
                }
            }
        }
        k = k + 1;
    }
    proof {
        assert forall|row: int|
            (#[trigger] product@.contains_key(row) <==> row_product(
                semiring,
                multiplier@,
                multiplicant@,
                row,
                width,
            ) is Some) && product@.get(row) == row_product(
                semiring,
                multiplier@,
                multiplicant@,
                row,
                width,
            ) by {
            let done = columns_done(elements@, k as int, row, width);
            assert(product@.get(row) == row_product(
                semiring,
                multiplier@,
                multiplicant@,
                row,
                done,
            ));
            assert forall|column: int| done <= column < width implies !multiplier@.contains_key(
                (row, column),
            ) by {
                lemma_no_entry_between(elements@, multiplier@, k as int, (row, column));
            }
            lemma_row_product_over_gap(semiring, multiplier@, multiplicant@, row, done, width);
        }
        assert(product@ =~= matrix_vector_product(semiring, multiplier@, multiplicant@, width));
    }
    product
}

/// Why a multiplication of a matrix with a vector is refused, if it is. `multiplier`
/// is the shape of the matrix that is read, transposed already where the options say
/// so. A vector that is not as long as the matrix has columns, or a result that is
/// not as long as the matrix has rows, is a `DimensionMismatch`; after that, a mask
/// of another length than the result is a `ShapeMismatch`.
pub open spec fn matrix_vector_refusal(
    multiplier: Size,
    multiplicant: usize,
    product: usize,
    mask: Option<usize>,
) -> Option<SparseLinearAlgebraError> {
    if multiplicant != multiplier.column_width || product != multiplier.row_height {
        Some(SparseLinearAlgebraError::DimensionMismatch)
    } else if mask is Some && mask != Some(product) {
        Some(SparseLinearAlgebraError::ShapeMismatch)
    } else {
        None
    }
}

/// What a multiplication of a matrix with a vector leaves behind. A refused call
/// leaves the result as it was; else the product is written into the result through
/// the mask and the accumulator.
pub open spec fn matrix_vector_product_made<T: ValueType>(
    semiring: SemiringType,
    accumulator: Option<BinaryOperatorType>,
    options: OperatorOptions,
    permitted: Set<int>,
    mask_extent: Option<usize>,
    multiplier: SparseMatrix<T>,
    multiplicant: SparseVector<T>,
    before: SparseVector<T>,
    after: SparseVector<T>,
    outcome: Result<(), SparseLinearAlgebraError>,
) -> bool {
    let shape = operand_shape(multiplier.shape(), options.transpose_first_input);
    &&& after.extent() == before.extent()
    &&& match matrix_vector_refusal(shape, multiplicant.extent(), before.extent(), mask_extent) {
        Some(error) => outcome == Err::<(), SparseLinearAlgebraError>(error) && after@ == before@,
        None => outcome is Ok && after@ == written(
            before@,
            matrix_vector_product(
                semiring,
                operand_entries(multiplier@, options.transpose_first_input),
                multiplicant@,
                shape.column_width as nat,
            ),
            permitted,
            accumulator,
            options.clear_result_before_write,
        ),
    }
}

/// Multiplies a matrix with a vector and writes the product into a vector through a
/// mask and an accumulator.
pub(crate) fn multiply_matrix_with_vector_into<T: ValueType, M: ValueType>(
    semiring: SemiringType,
    accumulator: Option<BinaryOperatorType>,
    options: &OperatorOptions,
    mask: Option<&SparseVector<M>>,
    by_value: bool,
    multiplier: &SparseMatrix<T>,
    multiplicant: &SparseVector<T>,
    product: &mut SparseVector<T>,
) -> (outcome: Result<(), SparseLinearAlgebraError>)
    ensures
        matrix_vector_product_made(
            semiring,
            accumulator,
            *options,
            permitted_by(vector_mask_entries(mask), by_value),
            vector_mask_extent(mask),
            *multiplier,
            *multiplicant,
            *old(product),
            *final(product),
            outcome,
        ),
{
    let turned = if options.transpose_first_input {
        Some(multiplier.transposed())
    } else {
        None
    };
    let matrix: &SparseMatrix<T> = match &turned {
        Some(matrix) => matrix,
        None => multiplier,
    };
    if multiplicant.length() != matrix.column_width() || product.length() != matrix.row_height() {
        return Err(SparseLinearAlgebraError::DimensionMismatch);
    }
    match mask {
        Some(mask_vector) => {
            if mask_vector.length() != product.length() {
                return Err(SparseLinearAlgebraError::ShapeMismatch);
            }
        },
        None => {},
    }
    let computed = multiply_matrix_with_vector(semiring, matrix, multiplicant);
    write_vector(product, &computed, mask, by_value, accumulator, options.clear_result_before_write);
    Ok(())
}

/// Multiplication of a matrix with a vector over a semiring.
#[derive(Debug)]
pub struct MatrixVectorMultiplicationOperator<
    Multiplier: ValueType,
    Multiplicant: ValueType,
    Product: ValueType,
> {
    _multiplier: PhantomData<Multiplier>,
    _multiplicant: PhantomData<Multiplicant>,
    _product: PhantomData<Product>,
    accumulator: Option<BinaryOperatorType>,
    semiring: SemiringType,
    options: OperatorOptions,
}

impl<
    Multiplier: ValueType,
    Multiplicant: ValueType,
    Product: ValueType,
> MatrixVectorMultiplicationOperator<Multiplier, Multiplicant, Product> {
    /// The semiring that multiplies and adds.
    pub closed spec fn semiring(&self) -> SemiringType {
        self.semiring
    }

    /// The operator that combines what the result holds with what was computed, if
    /// there is one.
    pub closed spec fn accumulator(&self) -> Option<BinaryOperatorType> {
        self.accumulator
    }

    pub closed spec fn options(&self) -> OperatorOptions {
        self.options
    }

    pub fn new(
        semiring: &dyn Semiring<Multiplier, Multiplicant, Product>,
        options: &OperatorOptions,
        accumulator: Option<&dyn BinaryOperator<Product, Product, Product>>,
    ) -> (operator: Self)
        ensures
            operator.semiring() == semiring.semiring_type(),
            operator.options() == *options,
            operator.accumulator() == accumulator_type(accumulator),
    {
        Self {
            accumulator: resolve_accumulator(accumulator),
            semiring: semiring.graphblas_type(),
            options: *options,
            _multiplier: PhantomData,
            _multiplicant: PhantomData,
            _product: PhantomData,
        }
    }
}

impl<T: ValueType> MatrixVectorMultiplicationOperator<T, T, T> {
    /// Writes the product of `multiplier` with `multiplicant` into `product`, every
    /// index permitted.
    pub fn apply(
        &self,
        multiplier: &SparseMatrix<T>,
        multiplicant: &SparseVector<T>,
        product: &mut SparseVector<T>,
    ) -> (outcome: Result<(), SparseLinearAlgebraError>)
        ensures
            matrix_vector_product_made(
                self.semiring(),
                self.accumulator(),
                self.options(),
                Set::full(),
                None,
                *multiplier,
                *multiplicant,
                *old(product),
                *final(product),
                outcome,
            ),
    {
        multiply_matrix_with_vector_into::<T, T>(
            self.semiring,
            self.accumulator,
            &self.options,
            None,
            false,
            multiplier,
            multiplicant,
            product,
        )
    }

    /// Writes the product of `multiplier` with `multiplicant` into the indices of
    /// `product` that the mask permits.
    pub fn apply_with_mask<MaskValueType: ValueType>(
        &self,
        mask: &VectorMask<MaskValueType>,
        multiplier: &SparseMatrix<T>,
        multiplicant: &SparseVector<T>,
        product: &mut SparseVector<T>,
    ) -> (outcome: Result<(), SparseLinearAlgebraError>)
        ensures
            matrix_vector_product_made(
                self.semiring(),
                self.accumulator(),
                self.options(),
                mask.permitted(),
                mask.extent(),
                *multiplier,
                *multiplicant,
                *old(product),
                *final(product),
                outcome,
            ),
    {
        multiply_matrix_with_vector_into(
            self.semiring,
            self.accumulator,
            &self.options,
            mask.vector(),
            mask.is_by_value(),
            multiplier,
            multiplicant,
            product,
        )
    }
}

} // verus!
