use vstd::prelude::*;
use std::marker::PhantomData;
use crate::error::SparseLinearAlgebraError;
use crate::operators::binary_operator::{
    accumulator_type, resolve_accumulator, BinaryOperator, BinaryOperatorType,
};
use crate::operators::mask::{mask_entries, mask_shape, permitted_by, MatrixMask};
use crate::operators::monoid::Monoid;
use crate::operators::options::OperatorOptions;
use crate::operators::semiring::Semiring;
use crate::operators::write_rule::{
    lemma_named_before_all, lemma_named_before_step, named_before, write_matrix, written,
};
use crate::value_types::sparse_matrix::element::MatrixElement;
use crate::value_types::sparse_matrix::size::Size;
use crate::value_types::sparse_matrix::sparse_matrix::{
    lists_entries_of, operand_entries, operand_shape, SparseMatrix,
};
use crate::value_types::value_type::{value_or_zero, ValueType};

verus! {

/// The element-wise sum of two sets of entries: at every position that either of them
/// stores, the operator's value on what each holds there, the domain's zero standing
/// in for an entry that is not stored. No other position is stored.
pub open spec fn element_wise_sum<K, T: ValueType>(
    operator: BinaryOperatorType,
    first: Map<K, T>,
    second: Map<K, T>,
) -> Map<K, T> {
    Map::new(
        |position: K| first.contains_key(position) || second.contains_key(position),
        |position: K| operator.apply(value_or_zero(first, position), value_or_zero(second, position)),
    )
}

/// Element-wise addition without a mask and without an accumulator leaves in the
/// result, whatever it held: at every position that either argument stores, the
/// operator's value on what each holds there, the domain's zero standing in for an
/// entry that is not stored; and no other position.
pub proof fn lemma_plain_element_wise_addition<K, T: ValueType>(
    operator: BinaryOperatorType,
    first: Map<K, T>,
    second: Map<K, T>,
    held: Map<K, T>,
    clear: bool,
)
    ensures
        ({
            let result = written(
                held,
                element_wise_sum(operator, first, second),
                Set::full(),
                None,
                clear,
            );
            &&& result.dom() == first.dom().union(second.dom())
            &&& forall|position: K|
                first.contains_key(position) || second.contains_key(position)
                    ==> #[trigger] result[position] == operator.apply(
                    value_or_zero(first, position),
                    value_or_zero(second, position),
                )
        }),
{
    let result = written(held, element_wise_sum(operator, first, second), Set::full(), None, clear);
    assert(result =~= element_wise_sum(operator, first, second));
    assert(result.dom() =~= first.dom().union(second.dom()));
}

/// Whether an element-wise operation can be made of two arguments and a result:
/// the arguments, each transposed where the options say so, have the result's shape.
pub open spec fn shapes_agree(
    first: Size,
    second: Size,
    product: Size,
    options: OperatorOptions,
) -> bool {
    operand_shape(first, options.transpose_first_input) == product && operand_shape(
        second,
        options.transpose_second_input,
    ) == product
}

/// Computes the element-wise sum of two matrices of one shape.
pub(crate) fn add_element_wise<T: ValueType>(
    operator: BinaryOperatorType,
    first: &SparseMatrix<T>,
    second: &SparseMatrix<T>,
) -> (sum: SparseMatrix<T>)
    requires
        first.shape() == second.shape(),
    ensures
        sum.shape() == first.shape(),
        sum@ == element_wise_sum(operator, first@, second@),
{
    let ghost target = element_wise_sum(operator, first@, second@);
    let size = first.size();
    let mut sum = SparseMatrix::<T>::new(&size);
    let first_elements = first.elements();
    proof {
        lemma_named_before_all(first_elements@, first@);
        assert(sum@ =~= target.restrict(named_before(first_elements@, 0)));
    }
    let mut i: usize = 0;
    while i < first_elements.len()
        invariant
            i <= first_elements@.len(),
            sum.shape() == size,
            lists_entries_of(first_elements@, first@),
            forall|position: (int, int)| #[trigger]
                first@.contains_key(position) ==> size.holds(position),
            target == element_wise_sum(operator, first@, second@),
            sum@ == target.restrict(named_before(first_elements@, i as int)),
        decreases first_elements@.len() - i,
    {
        let element = &first_elements[i];
        let other = match second.get_element(&element.coordinate) {
            Some(value) => value,
            None => T::from_boolean(false),
        };
        let value = operator.evaluate(&element.value, &other);
        proof {
            assert(first@.contains_pair(first_elements@[i as int].position(), element.value));
            lemma_named_before_step(first_elements@, i as int);
        }
        sum.store(MatrixElement { coordinate: element.coordinate, value });
        assert(sum@ =~= target.restrict(named_before(first_elements@, i + 1)));
        i = i + 1;
    }
    let second_elements = second.elements();
    proof {
        lemma_named_before_all(second_elements@, second@);
        assert(sum@ =~= target.restrict(first@.dom() + named_before(second_elements@, 0)));
    }
    let mut j: usize = 0;
    while j < second_elements.len()
        invariant
            j <= second_elements@.len(),
            sum.shape() == size,
            second.shape() == size,
            lists_entries_of(second_elements@, second@),
            forall|position: (int, int)| #[trigger]
                second@.contains_key(position) ==> size.holds(position),
            target == element_wise_sum(operator, first@, second@),
            sum@ == target.restrict(first@.dom() + named_before(second_elements@, j as int)),
        decreases second_elements@.len() - j,
    {
        let element = &second_elements[j];
        proof {
            assert(second@.contains_pair(second_elements@[j as int].position(), element.value));
            lemma_named_before_step(second_elements@, j as int);
        }
        if first.get_element(&element.coordinate).is_none() {
            let value = operator.evaluate(&T::from_boolean(false), &element.value);
            sum.store(MatrixElement { coordinate: element.coordinate, value });
            assert(sum@ =~= target.restrict(first@.dom() + named_before(second_elements@, j + 1)));
        } else {
            assert(first@.dom() + named_before(second_elements@, j + 1) =~= first@.dom() + named_before(
                second_elements@,
                j as int,
            ));
        }
        j = j + 1;
    }
    proof {
        assert(sum@ =~= target);
    }
    sum
}

/// Why an element-wise operation is refused, if it is: arguments whose shapes do not
/// agree with the result's are a `DimensionMismatch`; after that, a mask of another
/// shape than the result is a `ShapeMismatch`.
pub open spec fn element_wise_refusal(
    first: Size,
    second: Size,
    product: Size,
    mask: Option<Size>,
    options: OperatorOptions,
) -> Option<SparseLinearAlgebraError> {
    if !shapes_agree(first, second, product, options) {
        Some(SparseLinearAlgebraError::DimensionMismatch)
    } else if mask is Some && mask != Some(product) {
        Some(SparseLinearAlgebraError::ShapeMismatch)
    } else {
        None
    }
}

/// The element-wise sum of two matrices, written into a third through a mask and an
/// accumulator. A refused call leaves the result as it was.
pub(crate) fn add_element_wise_into<T: ValueType, M: ValueType>(
    operator: BinaryOperatorType,
    accumulator: Option<BinaryOperatorType>,
    options: &OperatorOptions,
    mask: Option<&SparseMatrix<M>>,
    by_value: bool,
    multiplier: &SparseMatrix<T>,
    multiplicant: &SparseMatrix<T>,
    product: &mut SparseMatrix<T>,
) -> (outcome: Result<(), SparseLinearAlgebraError>)
    ensures
        final(product).shape() == old(product).shape(),
        match element_wise_refusal(
            multiplier.shape(),
            multiplicant.shape(),
            old(product).shape(),
            mask_shape(mask),
            *options,
        ) {
            Some(error) => outcome == Err::<(), SparseLinearAlgebraError>(error) && final(product)@
                == old(product)@,
            None => outcome is Ok && final(product)@ == written(
                old(product)@,
                element_wise_sum(
                    operator,
                    operand_entries(multiplier@, options.transpose_first_input),
                    operand_entries(multiplicant@, options.transpose_second_input),
                ),
                permitted_by(mask_entries(mask), by_value),
                accumulator,
                options.clear_result_before_write,
            ),
        },
{
    let size = product.size();
    if !(multiplier.has_shape(&size, options.transpose_first_input) && multiplicant.has_shape(
        &size,
        options.transpose_second_input,
    )) {
        return Err(SparseLinearAlgebraError::DimensionMismatch);
    }
    match mask {
        Some(mask_matrix) => {
            if !mask_matrix.has_shape(&size, false) {
                return Err(SparseLinearAlgebraError::ShapeMismatch);
            }
        },
        None => {},
    }
    let turned_first = if options.transpose_first_input {
        Some(multiplier.transposed())
    } else {
        None
    };
    let first: &SparseMatrix<T> = match &turned_first {
        Some(matrix) => matrix,
        None => multiplier,
    };
    let turned_second = if options.transpose_second_input {
        Some(multiplicant.transposed())
    } else {
        None
    };
    let second: &SparseMatrix<T> = match &turned_second {
        Some(matrix) => matrix,
        None => multiplicant,
    };
    let sum = add_element_wise(operator, first, second);
    write_matrix(product, &sum, mask, by_value, accumulator, options.clear_result_before_write);
    Ok(())
}

/// Element-wise addition of matrices by the additive monoid of a semiring.
#[derive(Debug)]
pub struct ElementWiseMatrixAdditionSemiring<
    Multiplier: ValueType,
    Multiplicant: ValueType,
    Product: ValueType,
> {
    _multiplier: PhantomData<Multiplier>,
    _multiplicant: PhantomData<Multiplicant>,
    _product: PhantomData<Product>,
    accumulator: Option<BinaryOperatorType>,
    multiplication_operator: BinaryOperatorType,
    options: OperatorOptions,
}

impl<
    Multiplier: ValueType,
    Multiplicant: ValueType,
    Product: ValueType,
> ElementWiseMatrixAdditionSemiring<Multiplier, Multiplicant, Product> {
    /// The operator that combines the two values of a position.
    pub closed spec fn operator(&self) -> BinaryOperatorType {
        self.multiplication_operator
    }

    /// The operator that combines what the result holds with what was computed, if
    /// there is one.
    pub closed spec fn accumulator(&self) -> Option<BinaryOperatorType> {
        self.accumulator
    }

    pub closed spec fn options(&self) -> OperatorOptions {
        self.options
    }

    pub fn new(
        multiplication_operator: &dyn Semiring<Multiplier, Multiplicant, Product>,
        options: &OperatorOptions,
        accumulator: Option<&dyn BinaryOperator<Product, Product, Product>>,
    ) -> (operator: Self)
        ensures
            operator.operator() == multiplication_operator.semiring_type().addition.binary_operator(),
            operator.options() == *options,
            operator.accumulator() == accumulator_type(accumulator),
    {
        Self {
            accumulator: resolve_accumulator(accumulator),
            multiplication_operator: multiplication_operator.graphblas_type().addition.to_binary_operator(),
            options: *options,
            _multiplier: PhantomData,
            _multiplicant: PhantomData,
            _product: PhantomData,
        }
    }
}

impl<T: ValueType> ElementWiseMatrixAdditionSemiring<T, T, T> {
    /// Writes the element-wise sum of two matrices into `product`, every position
    /// permitted. A refused call leaves `product` as it was.
    pub fn apply(
        &self,
        multiplier: &SparseMatrix<T>,
        multiplicant: &SparseMatrix<T>,
        product: &mut SparseMatrix<T>,
    ) -> (outcome: Result<(), SparseLinearAlgebraError>)
        ensures
            final(product).shape() == old(product).shape(),
            match element_wise_refusal(
                multiplier.shape(),
                multiplicant.shape(),
                old(product).shape(),
                None,
                self.options(),
            ) {
                Some(error) => outcome == Err::<(), SparseLinearAlgebraError>(error) && final(product)@
                    == old(product)@,
                None => outcome is Ok && final(product)@ == written(
                    old(product)@,
                    element_wise_sum(
                        self.operator(),
                        operand_entries(multiplier@, self.options().transpose_first_input),
                        operand_entries(multiplicant@, self.options().transpose_second_input),
                    ),
                    Set::full(),
                    self.accumulator(),
                    self.options().clear_result_before_write,
                ),
            },
    {
        add_element_wise_into::<T, T>(
            self.multiplication_operator,
            self.accumulator,
            &self.options,
            None,
            false,
            multiplier,
            multiplicant,
            product,
        )
    }

    /// Writes the element-wise sum of two matrices into the positions of `product`
    /// that the mask permits. A refused call leaves `product` as it was.
    pub fn apply_with_mask<MaskValueType: ValueType>(
        &self,
        mask: &MatrixMask<MaskValueType>,
        multiplier: &SparseMatrix<T>,
        multiplicant: &SparseMatrix<T>,
        product: &mut SparseMatrix<T>,
    ) -> (outcome: Result<(), SparseLinearAlgebraError>)
        ensures
            final(product).shape() == old(product).shape(),
            match element_wise_refusal(
                multiplier.shape(),
                multiplicant.shape(),
                old(product).shape(),
                mask.shape(),
                self.options(),
            ) {
                Some(error) => outcome == Err::<(), SparseLinearAlgebraError>(error) && final(product)@
                    == old(product)@,
                None => outcome is Ok && final(product)@ == written(
                    old(product)@,
                    element_wise_sum(
                        self.operator(),
                        operand_entries(multiplier@, self.options().transpose_first_input),
                        operand_entries(multiplicant@, self.options().transpose_second_input),
                    ),
                    mask.permitted(),
                    self.accumulator(),
                    self.options().clear_result_before_write,
                ),
            },
    {
        add_element_wise_into(
            self.multiplication_operator,
            self.accumulator,
            &self.options,
            mask.matrix(),
            mask.is_by_value(),
            multiplier,
            multiplicant,
            product,
        )
    }
}

/// Element-wise addition of matrices by a monoid.
#[derive(Debug)]
pub struct ElementWiseMatrixAdditionMonoidOperator<T: ValueType> {
    _value: PhantomData<T>,
    accumulator: Option<BinaryOperatorType>,
    multiplication_operator: BinaryOperatorType,
    options: OperatorOptions,
}

impl<T: ValueType> ElementWiseMatrixAdditionMonoidOperator<T> {
    /// The operator that combines the two values of a position.
    pub closed spec fn operator(&self) -> BinaryOperatorType {
        self.multiplication_operator
    }

    /// The operator that combines what the result holds with what was computed, if
    /// there is one.
    pub closed spec fn accumulator(&self) -> Option<BinaryOperatorType> {
        self.accumulator
    }

    pub closed spec fn options(&self) -> OperatorOptions {
        self.options
    }

    pub fn new(
        multiplication_operator: &dyn Monoid<T>,
        options: &OperatorOptions,
        accumulator: Option<&dyn BinaryOperator<T, T, T>>,
    ) -> (operator: Self)
        ensures
            operator.operator() == multiplication_operator.monoid_type().binary_operator(),
            operator.options() == *options,
            operator.accumulator() == accumulator_type(accumulator),
    {
        Self {
            accumulator: resolve_accumulator(accumulator),
            multiplication_operator: multiplication_operator.graphblas_type().to_binary_operator(),
            options: *options,
            _value: PhantomData,
        }
    }
}

impl<T: ValueType> ElementWiseMatrixAdditionMonoidOperator<T> {
    /// Writes the element-wise sum of two matrices into `product`, every position
    /// permitted. A refused call leaves `product` as it was.
    pub fn apply(
        &self,
        multiplier: &SparseMatrix<T>,
        multiplicant: &SparseMatrix<T>,
        product: &mut SparseMatrix<T>,
    ) -> (outcome: Result<(), SparseLinearAlgebraError>)
        ensures
            final(product).shape() == old(product).shape(),
            match element_wise_refusal(
                multiplier.shape(),
                multiplicant.shape(),
                old(product).shape(),
                None,
                self.options(),
            ) {
                Some(error) => outcome == Err::<(), SparseLinearAlgebraError>(error) && final(product)@
                    == old(product)@,
                None => outcome is Ok && final(product)@ == written(
                    old(product)@,
                    element_wise_sum(
                        self.operator(),
                        operand_entries(multiplier@, self.options().transpose_first_input),
                        operand_entries(multiplicant@, self.options().transpose_second_input),
                    ),
                    Set::full(),
                    self.accumulator(),
                    self.options().clear_result_before_write,
                ),
            },
    {
        add_element_wise_into::<T, T>(
            self.multiplication_operator,
            self.accumulator,
            &self.options,
            None,
            false,
            multiplier,
            multiplicant,
            product,
        )
    }

    /// Writes the element-wise sum of two matrices into the positions of `product`
    /// that the mask permits. A refused call leaves `product` as it was.
    pub fn apply_with_mask<MaskValueType: ValueType>(
        &self,
        mask: &MatrixMask<MaskValueType>,
        multiplier: &SparseMatrix<T>,
        multiplicant: &SparseMatrix<T>,
        product: &mut SparseMatrix<T>,
    ) -> (outcome: Result<(), SparseLinearAlgebraError>)
        ensures
            final(product).shape() == old(product).shape(),
            match element_wise_refusal(
                multiplier.shape(),
                multiplicant.shape(),
                old(product).shape(),
                mask.shape(),
                self.options(),
            ) {
                Some(error) => outcome == Err::<(), SparseLinearAlgebraError>(error) && final(product)@
                    == old(product)@,
                None => outcome is Ok && final(product)@ == written(
                    old(product)@,
                    element_wise_sum(
                        self.operator(),
                        operand_entries(multiplier@, self.options().transpose_first_input),
                        operand_entries(multiplicant@, self.options().transpose_second_input),
                    ),
                    mask.permitted(),
                    self.accumulator(),
                    self.options().clear_result_before_write,
                ),
            },
    {
        add_element_wise_into(
            self.multiplication_operator,
            self.accumulator,
            &self.options,
            mask.matrix(),
            mask.is_by_value(),
            multiplier,
            multiplicant,
            product,
        )
    }
}

/// Element-wise addition of matrices by a binary operator.
#[derive(Debug)]
pub struct ElementWiseMatrixAdditionBinaryOperator<
    Multiplier: ValueType,
    Multiplicant: ValueType,
    Product: ValueType,
> {
    _multiplier: PhantomData<Multiplier>,
    _multiplicant: PhantomData<Multiplicant>,
    _product: PhantomData<Product>,
    accumulator: Option<BinaryOperatorType>,
    multiplication_operator: BinaryOperatorType,
    options: OperatorOptions,
}

impl<
    Multiplier: ValueType,
    Multiplicant: ValueType,
    Product: ValueType,
> ElementWiseMatrixAdditionBinaryOperator<Multiplier, Multiplicant, Product> {
    /// The operator that combines the two values of a position.
    pub closed spec fn operator(&self) -> BinaryOperatorType {
        self.multiplication_operator
    }

    /// The operator that combines what the result holds with what was computed, if
    /// there is one.
    pub closed spec fn accumulator(&self) -> Option<BinaryOperatorType> {
        self.accumulator
    }

    pub closed spec fn options(&self) -> OperatorOptions {
        self.options
    }

    pub fn new(
        multiplication_operator: &dyn BinaryOperator<Multiplier, Multiplicant, Product>,
        options: &OperatorOptions,
        accumulator: Option<&dyn BinaryOperator<Product, Product, Product>>,
    ) -> (operator: Self)
        ensures
            operator.operator() == multiplication_operator.operator_type(),
            operator.options() == *options,
            operator.accumulator() == accumulator_type(accumulator),
    {
        Self {
            accumulator: resolve_accumulator(accumulator),
            multiplication_operator: multiplication_operator.graphblas_type(),
            options: *options,
            _multiplier: PhantomData,
            _multiplicant: PhantomData,
            _product: PhantomData,
        }
    }
}

impl<T: ValueType> ElementWiseMatrixAdditionBinaryOperator<T, T, T> {
    /// Writes the element-wise sum of two matrices into `product`, every position
    /// permitted. A refused call leaves `product` as it was.
    pub fn apply(
        &self,
        multiplier: &SparseMatrix<T>,
        multiplicant: &SparseMatrix<T>,
        product: &mut SparseMatrix<T>,
    ) -> (outcome: Result<(), SparseLinearAlgebraError>)
        ensures
            final(product).shape() == old(product).shape(),
            match element_wise_refusal(
                multiplier.shape(),
                multiplicant.shape(),
                old(product).shape(),
                None,
                self.options(),
            ) {
                Some(error) => outcome == Err::<(), SparseLinearAlgebraError>(error) && final(product)@
                    == old(product)@,
                None => outcome is Ok && final(product)@ == written(
                    old(product)@,
                    element_wise_sum(
                        self.operator(),
                        operand_entries(multiplier@, self.options().transpose_first_input),
                        operand_entries(multiplicant@, self.options().transpose_second_input),
                    ),
                    Set::full(),
                    self.accumulator(),
                    self.options().clear_result_before_write,
                ),
            },
    {
        add_element_wise_into::<T, T>(
            self.multiplication_operator,
            self.accumulator,
            &self.options,
            None,
            false,
            multiplier,
            multiplicant,
            product,
        )
    }

    /// Writes the element-wise sum of two matrices into the positions of `product`
    /// that the mask permits. A refused call leaves `product` as it was.
    pub fn apply_with_mask<MaskValueType: ValueType>(
        &self,
        mask: &MatrixMask<MaskValueType>,
        multiplier: &SparseMatrix<T>,
        multiplicant: &SparseMatrix<T>,
        product: &mut SparseMatrix<T>,
    ) -> (outcome: Result<(), SparseLinearAlgebraError>)
        ensures
            final(product).shape() == old(product).shape(),
            match element_wise_refusal(
                multiplier.shape(),
                multiplicant.shape(),
                old(product).shape(),
                mask.shape(),
                self.options(),
            ) {
                Some(error) => outcome == Err::<(), SparseLinearAlgebraError>(error) && final(product)@
                    == old(product)@,
                None => outcome is Ok && final(product)@ == written(
                    old(product)@,
                    element_wise_sum(
                        self.operator(),
                        operand_entries(multiplier@, self.options().transpose_first_input),
                        operand_entries(multiplicant@, self.options().transpose_second_input),
                    ),
                    mask.permitted(),
                    self.accumulator(),
                    self.options().clear_result_before_write,
                ),
            },
    {
        add_element_wise_into(
            self.multiplication_operator,
            self.accumulator,
            &self.options,
            mask.matrix(),
            mask.is_by_value(),
            multiplier,
            multiplicant,
            product,
        )
    }
}

} // verus!
