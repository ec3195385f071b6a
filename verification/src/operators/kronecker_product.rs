use vstd::prelude::*;
use std::marker::PhantomData;
use vstd::arithmetic::div_mod::{lemma_fundamental_div_mod, lemma_fundamental_div_mod_converse, lemma_mod_pos_bound};
use crate::error::SparseLinearAlgebraError;
use crate::operators::binary_operator::{
    accumulator_type, resolve_accumulator, BinaryOperator, BinaryOperatorType,
};
use crate::operators::mask::{mask_entries, mask_shape, permitted_by, MatrixMask};
use crate::operators::monoid::Monoid;
use crate::operators::options::OperatorOptions;
use crate::operators::semiring::Semiring;
use crate::operators::write_rule::{
    lemma_named_before_all, lemma_named_before_step, named_before, write_matrix, written,
};
use crate::value_types::sparse_matrix::coordinate::Coordinate;
use crate::value_types::sparse_matrix::element::MatrixElement;
use crate::value_types::sparse_matrix::size::Size;
use crate::value_types::sparse_matrix::sparse_matrix::{
    lists_entries_of, operand_entries, operand_shape, SparseMatrix,
};
use crate::value_types::value_type::ValueType;

verus! {

/// The position of the first matrix that a position of a Kronecker product belongs
/// to, where the second matrix has the given shape.
pub open spec fn outer_position(block: Size, position: (int, int)) -> (int, int) {
    (position.0 / (block.row_height as int), position.1 / (block.column_width as int))
}

/// The position of the second matrix that a position of a Kronecker product belongs
/// to, where the second matrix has the given shape.
pub open spec fn inner_position(block: Size, position: (int, int)) -> (int, int) {
    (position.0 % (block.row_height as int), position.1 % (block.column_width as int))
}

/// The entries of the Kronecker product of two matrices, the second of the shape
/// `block`: the product is made of one block for each position of the first matrix,
/// and in the block of a stored entry x stands, wherever the second matrix stores an
/// entry y, the operator's value on x and y. Every other position is empty.
pub open spec fn kronecker_product<T: ValueType>(
    operator: BinaryOperatorType,
    first: Map<(int, int), T>,
    second: Map<(int, int), T>,
    block: Size,
) -> Map<(int, int), T> {
    Map::new(
        |position: (int, int)|
            block.row_height > 0 && block.column_width > 0 && position.0 >= 0 && position.1 >= 0
                && first.contains_key(outer_position(block, position)) && second.contains_key(
                inner_position(block, position),
            ),
        |position: (int, int)|
            operator.apply(
                first[outer_position(block, position)],
                second[inner_position(block, position)],
            ),
    )
}

/// The shape of the Kronecker product of matrices of two shapes.
pub open spec fn kronecker_shape(first: Size, second: Size) -> (int, int) {
    (first.row_height * second.row_height, first.column_width * second.column_width)
}

/// The place in a block and the block determine the position, and the other way round.
proof fn lemma_position_in_block(extent: int, outer: int, inner: int)
    requires
        extent > 0,
        0 <= inner < extent,
        0 <= outer,
    ensures
        (outer * extent + inner) / extent == outer,
        (outer * extent + inner) % extent == inner,
        outer * extent + inner >= 0,
{
    lemma_fundamental_div_mod_converse(outer * extent + inner, extent, outer, inner);
    assert(outer * extent >= 0) by (nonlinear_arith)
        requires
            outer >= 0,
            extent > 0,
    ;
}

proof fn lemma_position_from_block(extent: int, position: int)
    requires
        extent > 0,
        position >= 0,
    ensures
        position == (position / extent) * extent + position % extent,
        0 <= position % extent < extent,
        0 <= position / extent,
{
    lemma_fundamental_div_mod(position, extent);
    lemma_mod_pos_bound(position, extent);
    assert(extent * (position / extent) == (position / extent) * extent) by (nonlinear_arith);
    assert(position / extent >= 0) by (nonlinear_arith)
        requires
            position >= 0,
            extent > 0,
    ;
}

proof fn lemma_position_inside(extent: int, count: int, outer: int, inner: int)
    requires
        0 <= inner < extent,
        0 <= outer < count,
    ensures
        outer * extent + inner < count * extent,
        outer * extent >= 0,
{
    assert(outer * extent + inner < count * extent && outer * extent >= 0) by (nonlinear_arith)
        requires
            0 <= inner < extent,
            0 <= outer < count,
    ;
}

/// The positions of a Kronecker product that belong to the first `n` elements of the
/// first matrix.
spec fn blocks_before<T: ValueType>(elements: Seq<MatrixElement<T>>, n: int, block: Size) -> Set<
    (int, int),
> {
    Set::new(
        |position: (int, int)|
            position.0 >= 0 && position.1 >= 0 && named_before(elements, n).contains(
                outer_position(block, position),
            ),
    )
}

/// The positions of one block that belong to the first `n` elements of the second
/// matrix.
spec fn places_before<T: ValueType>(
    outer: (int, int),
    elements: Seq<MatrixElement<T>>,
    n: int,
    block: Size,
) -> Set<(int, int)> {
    Set::new(
        |position: (int, int)|
            position.0 >= 0 && position.1 >= 0 && outer_position(block, position) == outer
                && named_before(elements, n).contains(inner_position(block, position)),
    )
}

/// Computes the Kronecker product of two matrices.
pub(crate) fn multiply_kronecker<T: ValueType>(
    operator: BinaryOperatorType,
    first: &SparseMatrix<T>,
    second: &SparseMatrix<T>,
    size: &Size,
) -> (product: SparseMatrix<T>)
    requires
        kronecker_shape(first.shape(), second.shape()) == (
            size.row_height as int,
            size.column_width as int,
        ),
    ensures
        product.shape() == *size,
        product@ == kronecker_product(operator, first@, second@, second.shape()),
{
    let block = second.size();
    let ghost target = kronecker_product(operator, first@, second@, block);
    let mut product = SparseMatrix::<T>::new(size);
    let outer_elements = first.elements();
    let inner_elements = second.elements();
    proof {
        lemma_named_before_all(outer_elements@, first@);
        lemma_named_before_all(inner_elements@, second@);
        assert(product@ =~= target.restrict(blocks_before(outer_elements@, 0, block)));
    }
    let mut i: usize = 0;
    while i < outer_elements.len()
        invariant
            i <= outer_elements@.len(),
            product.shape() == *size,
            block == second.shape(),
            kronecker_shape(first.shape(), block) == (size.row_height as int, size.column_width as int),
            target == kronecker_product(operator, first@, second@, block),
            lists_entries_of(outer_elements@, first@),
            lists_entries_of(inner_elements@, second@),
            forall|position: (int, int)| #[trigger]
                first@.contains_key(position) ==> first.shape().holds(position),
            forall|position: (int, int)| #[trigger]
                second@.contains_key(position) ==> block.holds(position),
            product@ == target.restrict(blocks_before(outer_elements@, i as int, block)),
        decreases outer_elements@.len() - i,
    {
        let outer = &outer_elements[i];
        let ghost done = blocks_before(outer_elements@, i as int, block);
        proof {
            assert(first@.contains_pair(outer_elements@[i as int].position(), outer.value));
            lemma_named_before_step(outer_elements@, i as int);
            assert(product@ =~= target.restrict(
                done + places_before(outer.position(), inner_elements@, 0, block),
            ));
        }
        let mut j: usize = 0;
        while j < inner_elements.len()
            invariant
                j <= inner_elements@.len(),
                i < outer_elements@.len(),
                *outer == outer_elements@[i as int],
                product.shape() == *size,
                block == second.shape(),
                kronecker_shape(first.shape(), block) == (
                    size.row_height as int,
                    size.column_width as int,
                ),
                target == kronecker_product(operator, first@, second@, block),
                lists_entries_of(inner_elements@, second@),
                first@.contains_pair(outer.position(), outer.value),
                first.shape().holds(outer.position()),
                forall|position: (int, int)| #[trigger]
                    second@.contains_key(position) ==> block.holds(position),
                done == blocks_before(outer_elements@, i as int, block),
                !named_before(outer_elements@, i as int).contains(outer.position()),
                product@ == target.restrict(
                    done + places_before(outer.position(), inner_elements@, j as int, block),
                ),
            decreases inner_elements@.len() - j,
        {
            let inner = &inner_elements[j];
            proof {
                assert(second@.contains_pair(inner_elements@[j as int].position(), inner.value));
                lemma_named_before_step(inner_elements@, j as int);
                lemma_position_inside(
                    block.row_height as int,
                    first.shape().row_height as int,
                    outer.coordinate.row_index as int,
                    inner.coordinate.row_index as int,
                );
                lemma_position_inside(
                    block.column_width as int,
                    first.shape().column_width as int,
                    outer.coordinate.column_index as int,
                    inner.coordinate.column_index as int,
                );
                lemma_position_in_block(
                    block.row_height as int,
                    outer.coordinate.row_index as int,
                    inner.coordinate.row_index as int,
                );
                lemma_position_in_block(
                    block.column_width as int,
                    outer.coordinate.column_index as int,
                    inner.coordinate.column_index as int,
                );
            }
            let row_index = outer.coordinate.row_index * block.row_height + inner.coordinate.row_index;
            let column_index = outer.coordinate.column_index * block.column_width
                + inner.coordinate.column_index;
            let value = operator.evaluate(&outer.value, &inner.value);
            let ghost written_to = (row_index as int, column_index as int);
            product.store(
                MatrixElement { coordinate: Coordinate { row_index, column_index }, value },
            );
            proof {
                let before = places_before(outer.position(), inner_elements@, j as int, block);
                let after = places_before(outer.position(), inner_elements@, j + 1, block);
                assert(outer_position(block, written_to) == outer.position());
                assert(inner_position(block, written_to) == inner.position());
                assert forall|position: (int, int)| after.contains(position) <==> before.insert(
                    written_to,
                ).contains(position) by {
                    if after.contains(position) && !before.contains(position) {
                        lemma_position_from_block(block.row_height as int, position.0);
                        lemma_position_from_block(block.column_width as int, position.1);
                        assert(inner_position(block, position) == inner.position());
                        assert(position == written_to);
                    }
                }
                assert(after =~= before.insert(written_to));
                assert(product@ =~= target.restrict(done + after));
            }
            j = j + 1;
        }
        proof {
            let filled = done + places_before(
                outer.position(),
                inner_elements@,
                inner_elements@.len() as int,
                block,
            );
            let next = blocks_before(outer_elements@, i + 1, block);
            assert forall|position: (int, int)|
                target.contains_key(position) ==> (filled.contains(position) <==> next.contains(
                    position,
                )) by {
            }
            assert(target.restrict(filled) =~= target.restrict(next));
        }
        i = i + 1;
    }
    proof {
        assert(product@ =~= target);
    }
    product
}

/// Why a Kronecker product is refused, if it is. The shapes are those of the matrices
/// that are read, transposed already where the options say so. A result that has not
/// the rows of the one times the rows of the other, and the columns likewise, is a
/// `DimensionMismatch`; after that, a mask of another shape than the result is a
/// `ShapeMismatch`.
pub open spec fn kronecker_refusal(first: Size, second: Size, product: Size, mask: Option<Size>) -> Option<
    SparseLinearAlgebraError,
> {
    if kronecker_shape(first, second) != (product.row_height as int, product.column_width as int) {
        Some(SparseLinearAlgebraError::DimensionMismatch)
    } else if mask is Some && mask != Some(product) {
        Some(SparseLinearAlgebraError::ShapeMismatch)
    } else {
        None
    }
}

/// What a Kronecker product leaves behind. A refused call leaves the result as it
/// was; else the product is written into the result through the mask and the
/// accumulator.
pub open spec fn kronecker_product_made<T: ValueType>(
    operator: BinaryOperatorType,
    accumulator: Option<BinaryOperatorType>,
    options: OperatorOptions,
    permitted: Set<(int, int)>,
    mask_shape: Option<Size>,
    multiplier: SparseMatrix<T>,
    multiplicant: SparseMatrix<T>,
    before: SparseMatrix<T>,
    after: SparseMatrix<T>,
    outcome: Result<(), SparseLinearAlgebraError>,
) -> bool {
    let first = operand_shape(multiplier.shape(), options.transpose_first_input);
    let second = operand_shape(multiplicant.shape(), options.transpose_second_input);
    &&& after.shape() == before.shape()
    &&& match kronecker_refusal(first, second, before.shape(), mask_shape) {
        Some(error) => outcome == Err::<(), SparseLinearAlgebraError>(error) && after@ == before@,
        None => outcome is Ok && after@ == written(
            before@,
            kronecker_product(
                operator,
                operand_entries(multiplier@, options.transpose_first_input),
                operand_entries(multiplicant@, options.transpose_second_input),
                second,
            ),
            permitted,
            accumulator,
            options.clear_result_before_write,
        ),
    }
}

/// Whether one extent times another is a third.
fn is_product_of(first: usize, second: usize, product: usize) -> (same: bool)
    ensures
        same == (first * second == product),
{
    match first.checked_mul(second) {
        Some(extent) => extent == product,
        None => false,
    }
}

/// Computes the Kronecker product of two matrices and writes it into a third through
/// a mask and an accumulator.
pub(crate) fn multiply_kronecker_into<T: ValueType, M: ValueType>(
    operator: BinaryOperatorType,
    accumulator: Option<BinaryOperatorType>,
    options: &OperatorOptions,
    mask: Option<&SparseMatrix<M>>,
    by_value: bool,
    multiplier: &SparseMatrix<T>,
    multiplicant: &SparseMatrix<T>,
    product: &mut SparseMatrix<T>,
) -> (outcome: Result<(), SparseLinearAlgebraError>)
    ensures
        kronecker_product_made(
            operator,
            accumulator,
            *options,
            permitted_by(mask_entries(mask), by_value),
            mask_shape(mask),
            *multiplier,
            *multiplicant,
            *old(product),
            *final(product),
            outcome,
        ),
{
    let turned_first = if options.transpose_first_input {
        Some(multiplier.transposed())
    } else {
        None
    };
    let first: &SparseMatrix<T> = match &turned_first {
        Some(matrix) => matrix,
        None => multiplier,
    };
    let turned_second = if options.transpose_second_input {
        Some(multiplicant.transposed())
    } else {
        None
    };
    let second: &SparseMatrix<T> = match &turned_second {
        Some(matrix) => matrix,
        None => multiplicant,
    };
    let size = product.size();
    if !is_product_of(first.row_height(), second.row_height(), size.row_height) || !is_product_of(
        first.column_width(),
        second.column_width(),
        size.column_width,
    ) {
        return Err(SparseLinearAlgebraError::DimensionMismatch);
    }
    match mask {
        Some(mask_matrix) => {
            if !mask_matrix.has_shape(&size, false) {
                return Err(SparseLinearAlgebraError::ShapeMismatch);
            }
        },
        None => {},
    }
    let computed = multiply_kronecker(operator, first, second, &size);
    write_matrix(product, &computed, mask, by_value, accumulator, options.clear_result_before_write);
    Ok(())
}

/// The Kronecker product by the multiplicative operator of a semiring.
#[derive(Debug)]
pub struct SemiringKroneckerProduct<
    Multiplier: ValueType,
    Multiplicant: ValueType,
    Product: ValueType,
> {
    _multiplier: PhantomData<Multiplier>,
    _multiplicant: PhantomData<Multiplicant>,
    _product: PhantomData<Product>,
    accumulator: Option<BinaryOperatorType>,
    multiplication_operator: BinaryOperatorType,
    options: OperatorOptions,
}

impl<
    Multiplier: ValueType,
    Multiplicant: ValueType,
    Product: ValueType,
> SemiringKroneckerProduct<Multiplier, Multiplicant, Product> {
    /// The operator that multiplies an entry of the first matrix with one of the
    /// second.
    pub closed spec fn operator(&self) -> BinaryOperatorType {
        self.multiplication_operator
    }

    /// The operator that combines what the result holds with what was computed, if
    /// there is one.
    pub closed spec fn accumulator(&self) -> Option<BinaryOperatorType> {
        self.accumulator
    }

    pub closed spec fn options(&self) -> OperatorOptions {
        self.options
    }

    pub fn new(
        multiplication_operator: &dyn Semiring<Multiplier, Multiplicant, Product>,
        options: &OperatorOptions,
        accumulator: Option<&dyn BinaryOperator<Product, Product, Product>>,
    ) -> (operator: Self)
        ensures
            operator.operator() == multiplication_operator.semiring_type().multiplication,
            operator.options() == *options,
            operator.accumulator() == accumulator_type(accumulator),
    {
        Self {
            accumulator: resolve_accumulator(accumulator),
            multiplication_operator: multiplication_operator.graphblas_type().multiplication,
            options: *options,
            _multiplier: PhantomData,
            _multiplicant: PhantomData,
            _product: PhantomData,
        }
    }
}

impl<T: ValueType> SemiringKroneckerProduct<T, T, T> {
    /// Writes the Kronecker product of two matrices into `product`, every position
    /// permitted.
    pub fn apply(
        &self,
        multiplier: &SparseMatrix<T>,
        multiplicant: &SparseMatrix<T>,
        product: &mut SparseMatrix<T>,
    ) -> (outcome: Result<(), SparseLinearAlgebraError>)
        ensures
            kronecker_product_made(
                self.operator(),
                self.accumulator(),
                self.options(),
                Set::full(),
                None,
                *multiplier,
                *multiplicant,
                *old(product),
                *final(product),
                outcome,
            ),
    {
        multiply_kronecker_into::<T, T>(
            self.multiplication_operator,
            self.accumulator,
            &self.options,
            None,
            false,
            multiplier,
            multiplicant,
            product,
        )
    }

    /// Writes the Kronecker product of two matrices into the positions of `product`
    /// that the mask permits.
    pub fn apply_with_mask<MaskValueType: ValueType>(
        &self,
        mask: &MatrixMask<MaskValueType>,
        multiplier: &SparseMatrix<T>,
        multiplicant: &SparseMatrix<T>,
        product: &mut SparseMatrix<T>,
    ) -> (outcome: Result<(), SparseLinearAlgebraError>)
        ensures
            kronecker_product_made(
                self.operator(),
                self.accumulator(),
                self.options(),
                mask.permitted(),
                mask.shape(),
                *multiplier,
                *multiplicant,
                *old(product),
                *final(product),
                outcome,
            ),
    {
        multiply_kronecker_into(
            self.multiplication_operator,
            self.accumulator,
            &self.options,
            mask.matrix(),
            mask.is_by_value(),
            multiplier,
            multiplicant,
            product,
        )
    }
}

/// The Kronecker product by a monoid.
#[derive(Debug)]
pub struct MonoidKroneckerProduct<T: ValueType> {
    _value: PhantomData<T>,
    accumulator: Option<BinaryOperatorType>,
    multiplication_operator: BinaryOperatorType,
    options: OperatorOptions,
}

impl<T: ValueType> MonoidKroneckerProduct<T> {
    /// The operator that multiplies an entry of the first matrix with one of the
    /// second.
    pub closed spec fn operator(&self) -> BinaryOperatorType {
        self.multiplication_operator
    }

    /// The operator that combines what the result holds with what was computed, if
    /// there is one.
    pub closed spec fn accumulator(&self) -> Option<BinaryOperatorType> {
        self.accumulator
    }

    pub closed spec fn options(&self) -> OperatorOptions {
        self.options
    }

    pub fn new(
        multiplication_operator: &dyn Monoid<T>,
        options: &OperatorOptions,
        accumulator: Option<&dyn BinaryOperator<T, T, T>>,
    ) -> (operator: Self)
        ensures
            operator.operator() == multiplication_operator.monoid_type().binary_operator(),
            operator.options() == *options,
            operator.accumulator() == accumulator_type(accumulator),
    {
        Self {
            accumulator: resolve_accumulator(accumulator),
            multiplication_operator: multiplication_operator.graphblas_type().to_binary_operator(),
            options: *options,
            _value: PhantomData,
        }
    }
}

impl<T: ValueType> MonoidKroneckerProduct<T> {
    /// Writes the Kronecker product of two matrices into `product`, every position
    /// permitted.
    pub fn apply(
        &self,
        multiplier: &SparseMatrix<T>,
        multiplicant: &SparseMatrix<T>,
        product: &mut SparseMatrix<T>,
    ) -> (outcome: Result<(), SparseLinearAlgebraError>)
        ensures
            kronecker_product_made(
                self.operator(),
                self.accumulator(),
                self.options(),
                Set::full(),
                None,
                *multiplier,
                *multiplicant,
                *old(product),
                *final(product),
                outcome,
            ),
    {
        multiply_kronecker_into::<T, T>(
            self.multiplication_operator,
            self.accumulator,
            &self.options,
            None,
            false,
            multiplier,
            multiplicant,
            product,
        )
    }

    /// Writes the Kronecker product of two matrices into the positions of `product`
    /// that the mask permits.
    pub fn apply_with_mask<MaskValueType: ValueType>(
        &self,
        mask: &MatrixMask<MaskValueType>,
        multiplier: &SparseMatrix<T>,
        multiplicant: &SparseMatrix<T>,
        product: &mut SparseMatrix<T>,
    ) -> (outcome: Result<(), SparseLinearAlgebraError>)
        ensures
            kronecker_product_made(
                self.operator(),
                self.accumulator(),
                self.options(),
                mask.permitted(),
                mask.shape(),
                *multiplier,
                *multiplicant,
                *old(product),
                *final(product),
                outcome,
            ),
    {
        multiply_kronecker_into(
            self.multiplication_operator,
            self.accumulator,
            &self.options,
            mask.matrix(),
            mask.is_by_value(),
            multiplier,
            multiplicant,
            product,
        )
    }
}

/// The Kronecker product by a binary operator.
#[derive(Debug)]
pub struct BinaryOperatorKroneckerProductOperator<
    Multiplier: ValueType,
    Multiplicant: ValueType,
    Product: ValueType,
> {
    _multiplier: PhantomData<Multiplier>,
    _multiplicant: PhantomData<Multiplicant>,
    _product: PhantomData<Product>,
    accumulator: Option<BinaryOperatorType>,
    multiplication_operator: BinaryOperatorType,
    options: OperatorOptions,
}

impl<
    Multiplier: ValueType,
    Multiplicant: ValueType,
    Product: ValueType,
> BinaryOperatorKroneckerProductOperator<Multiplier, Multiplicant, Product> {
    /// The operator that multiplies an entry of the first matrix with one of the
    /// second.
    pub closed spec fn operator(&self) -> BinaryOperatorType {
        self.multiplication_operator
    }

    /// The operator that combines what the result holds with what was computed, if
    /// there is one.
    pub closed spec fn accumulator(&self) -> Option<BinaryOperatorType> {
        self.accumulator
    }

    pub closed spec fn options(&self) -> OperatorOptions {
        self.options
    }

    pub fn new(
        multiplication_operator: &dyn BinaryOperator<Multiplier, Multiplicant, Product>,
        options: &OperatorOptions,
        accumulator: Option<&dyn BinaryOperator<Product, Product, Product>>,
    ) -> (operator: Self)
        ensures
            operator.operator() == multiplication_operator.operator_type(),
            operator.options() == *options,
            operator.accumulator() == accumulator_type(accumulator),
    {
        Self {
            accumulator: resolve_accumulator(accumulator),
            multiplication_operator: multiplication_operator.graphblas_type(),
            options: *options,
            _multiplier: PhantomData,
            _multiplicant: PhantomData,
            _product: PhantomData,
        }
    }
}

impl<T: ValueType> BinaryOperatorKroneckerProductOperator<T, T, T> {
    /// Writes the Kronecker product of two matrices into `product`, every position
    /// permitted.
    pub fn apply(
        &self,
        multiplier: &SparseMatrix<T>,
        multiplicant: &SparseMatrix<T>,
        product: &mut SparseMatrix<T>,
    ) -> (outcome: Result<(), SparseLinearAlgebraError>)
        ensures
            kronecker_product_made(
                self.operator(),
                self.accumulator(),
                self.options(),
                Set::full(),
                None,
                *multiplier,
                *multiplicant,
                *old(product),
                *final(product),
                outcome,
            ),
    {
        multiply_kronecker_into::<T, T>(
            self.multiplication_operator,
            self.accumulator,
            &self.options,
            None,
            false,
            multiplier,
            multiplicant,
            product,
        )
    }

    /// Writes the Kronecker product of two matrices into the positions of `product`
    /// that the mask permits.
    pub fn apply_with_mask<MaskValueType: ValueType>(
        &self,
        mask: &MatrixMask<MaskValueType>,
        multiplier: &SparseMatrix<T>,
        multiplicant: &SparseMatrix<T>,
        product: &mut SparseMatrix<T>,
    ) -> (outcome: Result<(), SparseLinearAlgebraError>)
        ensures
            kronecker_product_made(
                self.operator(),
                self.accumulator(),
                self.options(),
                mask.permitted(),
                mask.shape(),
                *multiplier,
                *multiplicant,
                *old(product),
                *final(product),
                outcome,
            ),
    {
        multiply_kronecker_into(
            self.multiplication_operator,
            self.accumulator,
            &self.options,
            mask.matrix(),
            mask.is_by_value(),
            multiplier,
            multiplicant,
            product,
        )
    }
}

} // verus!
