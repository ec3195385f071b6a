use graphblas_sparse_linear_algebra::error::SparseLinearAlgebraError;
use graphblas_sparse_linear_algebra::operators::binary_operator::{First, Minus, Plus, Times};
use graphblas_sparse_linear_algebra::operators::element_wise_addition::{
    ElementWiseMatrixAdditionBinaryOperator, ElementWiseMatrixAdditionMonoidOperator,
    ElementWiseMatrixAdditionSemiring,
};
use graphblas_sparse_linear_algebra::operators::element_wise_multiplication::{
    ElementWiseMatrixMultiplicationBinaryOperator, ElementWiseMatrixMultiplicationMonoidOperator,
    ElementWiseMatrixMultiplicationSemiring,
};
use graphblas_sparse_linear_algebra::operators::mask::MatrixMask;
use graphblas_sparse_linear_algebra::operators::monoid;
use graphblas_sparse_linear_algebra::operators::options::{OperatorOptions, ParallelismHint};
use graphblas_sparse_linear_algebra::operators::semiring::{MinPlus, PlusTimes};
use graphblas_sparse_linear_algebra::value_types::sparse_matrix::{
    Coordinate, MatrixElement, MatrixElementList, Size, SparseMatrix,
};

fn matrix(size: (usize, usize), elements: Vec<(usize, usize, i32)>) -> SparseMatrix<i32> {
    let list = MatrixElementList::<i32>::from_element_vector(
        elements.into_iter().map(MatrixElement::from).collect(),
    );
    SparseMatrix::<i32>::from_element_list(&size.into(), &list, &First::<i32, i32, i32>::new()).unwrap()
}

fn stored(matrix: &SparseMatrix<i32>) -> Vec<(usize, usize, i32)> {
    let list = matrix.get_element_list();
    (0..list.length())
        .map(|i| {
            let element = list.element(i);
            (element.row_index(), element.column_index(), element.value())
        })
        .collect()
}

fn m() -> SparseMatrix<i32> {
    matrix((2, 2), vec![(0, 0, 1), (1, 0, 2), (0, 1, 3), (1, 1, 4)])
}

fn n() -> SparseMatrix<i32> {
    matrix((2, 2), vec![(0, 0, 5), (1, 0, 6), (0, 1, 7), (1, 1, 8)])
}

#[test]
fn multiplication_with_times_then_accumulated_with_plus() {
    let options = OperatorOptions::new_default();
    let times = Times::<i32, i32, i32>::new();
    let multiplier = ElementWiseMatrixMultiplicationBinaryOperator::<i32, i32, i32>::new(&times, &options, None);
    let mut product = SparseMatrix::<i32>::new(&(2, 2).into());
    multiplier.apply(&m(), &n(), &mut product).unwrap();
    assert_eq!(stored(&product), vec![(0, 0, 5), (0, 1, 21), (1, 0, 12), (1, 1, 32)]);

    let plus = Plus::<i32, i32, i32>::new();
    let accumulating =
        ElementWiseMatrixMultiplicationBinaryOperator::<i32, i32, i32>::new(&times, &options, Some(&plus));
    accumulating.apply(&m(), &n(), &mut product).unwrap();
    assert_eq!(stored(&product), vec![(0, 0, 10), (0, 1, 42), (1, 0, 24), (1, 1, 64)]);
}

#[test]
fn multiplication_under_a_structural_mask() {
    let options = OperatorOptions::new_default();
    let times = Times::<i32, i32, i32>::new();
    let multiplier = ElementWiseMatrixMultiplicationBinaryOperator::<i32, i32, i32>::new(&times, &options, None);
    let mask = MatrixMask::structural(matrix((2, 2), vec![(0, 0, 3), (1, 1, 1)]));
    let mut product = SparseMatrix::<i32>::new(&(2, 2).into());
    multiplier.apply_with_mask(&mask, &m(), &n(), &mut product).unwrap();
    assert_eq!(stored(&product), vec![(0, 0, 5), (1, 1, 32)]);
    assert_eq!(product.get_element_value(&(0, 1).into()).unwrap(), 0);
    assert_eq!(product.get_element_value(&(1, 0).into()).unwrap(), 0);
}

#[test]
fn addition_covers_the_union_with_zero_for_what_is_missing() {
    let options = OperatorOptions::new_default();
    let first = matrix((2, 3), vec![(0, 0, 4), (1, 2, 9)]);
    let second = matrix((2, 3), vec![(0, 0, 6), (0, 1, 7)]);
    let mut product = matrix((2, 3), vec![(1, 1, 100)]);

    let plus = Plus::<i32, i32, i32>::new();
    let adder = ElementWiseMatrixAdditionBinaryOperator::<i32, i32, i32>::new(&plus, &options, None);
    adder.apply(&first, &second, &mut product).unwrap();
    assert_eq!(stored(&product), vec![(0, 0, 10), (0, 1, 7), (1, 2, 9)]);

    let minus = Minus::<i32, i32, i32>::new();
    let subtractor = ElementWiseMatrixAdditionBinaryOperator::<i32, i32, i32>::new(&minus, &options, None);
    subtractor.apply(&first, &second, &mut product).unwrap();
    assert_eq!(stored(&product), vec![(0, 0, -2), (0, 1, -7), (1, 2, 9)]);

    let times = Times::<i32, i32, i32>::new();
    let multiplier = ElementWiseMatrixAdditionBinaryOperator::<i32, i32, i32>::new(&times, &options, None);
    multiplier.apply(&first, &second, &mut product).unwrap();
    assert_eq!(stored(&product), vec![(0, 0, 24), (0, 1, 0), (1, 2, 0)]);
}

#[test]
fn multiplication_covers_the_intersection() {
    let options = OperatorOptions::new_default();
    let first = matrix((2, 3), vec![(0, 0, 4), (1, 2, 9)]);
    let second = matrix((2, 3), vec![(0, 0, 6), (0, 1, 7)]);
    let mut product = matrix((2, 3), vec![(1, 1, 100)]);
    let minus = Minus::<i32, i32, i32>::new();
    let operator = ElementWiseMatrixMultiplicationBinaryOperator::<i32, i32, i32>::new(&minus, &options, None);
    operator.apply(&first, &second, &mut product).unwrap();
    assert_eq!(stored(&product), vec![(0, 0, -2)]);
}

#[test]
fn accumulator_combines_inside_the_mask_and_keeps_the_rest() {
    let options = OperatorOptions::new_default();
    let plus = Plus::<i32, i32, i32>::new();
    let times = Times::<i32, i32, i32>::new();
    let adder = ElementWiseMatrixAdditionBinaryOperator::<i32, i32, i32>::new(&plus, &options, Some(&times));
    let first = matrix((2, 2), vec![(0, 0, 1), (0, 1, 2)]);
    let second = matrix((2, 2), vec![(0, 0, 10), (1, 0, 20)]);
    // the scratch result of the unmasked addition is {(0,0): 11, (0,1): 2, (1,0): 20}
    let mut product = matrix((2, 2), vec![(0, 0, 3), (0, 1, 5), (1, 1, 7)]);
    let mask = MatrixMask::structural(matrix((2, 2), vec![(0, 0, 0), (1, 0, 0), (1, 1, 0)]));
    adder.apply_with_mask(&mask, &first, &second, &mut product).unwrap();
    assert_eq!(stored(&product), vec![(0, 0, 33), (0, 1, 5), (1, 0, 20), (1, 1, 7)]);
}

#[test]
fn mask_by_value_reads_the_truth_of_the_stored_value() {
    let options = OperatorOptions::new_default();
    let plus = Plus::<i32, i32, i32>::new();
    let adder = ElementWiseMatrixAdditionBinaryOperator::<i32, i32, i32>::new(&plus, &options, None);
    let mut by_structure = matrix((2, 2), vec![(0, 1, 50)]);
    let mut by_value = by_structure.clone();
    let mut unmasked = by_structure.clone();
    let mask_matrix = matrix((2, 2), vec![(0, 0, 0), (1, 1, -1)]);

    adder
        .apply_with_mask(&MatrixMask::structural(mask_matrix.clone()), &m(), &n(), &mut by_structure)
        .unwrap();
    assert_eq!(stored(&by_structure), vec![(0, 0, 6), (0, 1, 50), (1, 1, 12)]);

    adder
        .apply_with_mask(&MatrixMask::value(mask_matrix.clone()), &m(), &n(), &mut by_value)
        .unwrap();
    assert_eq!(stored(&by_value), vec![(0, 1, 50), (1, 1, 12)]);

    adder
        .apply_with_mask(&MatrixMask::<i32>::none(), &m(), &n(), &mut unmasked)
        .unwrap();
    assert_eq!(stored(&unmasked), vec![(0, 0, 6), (0, 1, 10), (1, 0, 8), (1, 1, 12)]);
}

#[test]
fn clearing_empties_what_the_mask_does_not_permit() {
    let options = OperatorOptions::new(true, false, false, ParallelismHint::Sequential);
    let plus = Plus::<i32, i32, i32>::new();
    let adder = ElementWiseMatrixAdditionBinaryOperator::<i32, i32, i32>::new(&plus, &options, None);
    let mut product = matrix((2, 2), vec![(0, 1, 50), (1, 1, 60)]);
    let mask = MatrixMask::structural(matrix((2, 2), vec![(1, 1, 1)]));
    adder.apply_with_mask(&mask, &m(), &n(), &mut product).unwrap();
    assert_eq!(stored(&product), vec![(1, 1, 12)]);
}

#[test]
fn an_empty_computed_position_is_emptied_without_an_accumulator_and_kept_with_one() {
    let options = OperatorOptions::new_default();
    let plus = Plus::<i32, i32, i32>::new();
    let first = matrix((1, 2), vec![(0, 0, 1)]);
    let second = matrix((1, 2), vec![]);
    let mut overwritten = matrix((1, 2), vec![(0, 1, 9)]);
    let mut accumulated = overwritten.clone();
    ElementWiseMatrixAdditionBinaryOperator::<i32, i32, i32>::new(&plus, &options, None)
        .apply(&first, &second, &mut overwritten)
        .unwrap();
    assert_eq!(stored(&overwritten), vec![(0, 0, 1)]);
    ElementWiseMatrixAdditionBinaryOperator::<i32, i32, i32>::new(&plus, &options, Some(&plus))
        .apply(&first, &second, &mut accumulated)
        .unwrap();
    assert_eq!(stored(&accumulated), vec![(0, 0, 1), (0, 1, 9)]);
}

#[test]
fn arguments_are_transposed_where_the_options_say_so() {
    let minus = Minus::<i32, i32, i32>::new();
    let first = matrix((2, 3), vec![(0, 2, 10), (1, 0, 20)]);
    let second = matrix((3, 2), vec![(2, 0, 1), (1, 1, 2)]);
    let mut product = SparseMatrix::<i32>::new(&(2, 3).into());
    let options = OperatorOptions::new(false, false, true, ParallelismHint::Default);
    ElementWiseMatrixAdditionBinaryOperator::<i32, i32, i32>::new(&minus, &options, None)
        .apply(&first, &second, &mut product)
        .unwrap();
    assert_eq!(stored(&product), vec![(0, 2, 9), (1, 0, 20), (1, 1, -2)]);

    let mut product = SparseMatrix::<i32>::new(&(3, 2).into());
    let options = OperatorOptions::new(false, true, false, ParallelismHint::Default);
    ElementWiseMatrixAdditionBinaryOperator::<i32, i32, i32>::new(&minus, &options, None)
        .apply(&first, &second, &mut product)
        .unwrap();
    assert_eq!(stored(&product), vec![(0, 1, 20), (1, 1, -2), (2, 0, 9)]);
}

#[test]
fn element_wise_operations_refuse_shapes_that_disagree() {
    let options = OperatorOptions::new_default();
    let plus = Plus::<i32, i32, i32>::new();
    let adder = ElementWiseMatrixAdditionBinaryOperator::<i32, i32, i32>::new(&plus, &options, None);
    let multiplier = ElementWiseMatrixMultiplicationBinaryOperator::<i32, i32, i32>::new(&plus, &options, None);
    let wide = matrix((2, 3), vec![(0, 0, 1)]);
    let mut product = matrix((2, 2), vec![(1, 1, 7)]);
    assert_eq!(
        adder.apply(&m(), &wide, &mut product),
        Err(SparseLinearAlgebraError::DimensionMismatch)
    );
    assert_eq!(
        multiplier.apply(&wide, &m(), &mut product),
        Err(SparseLinearAlgebraError::DimensionMismatch)
    );
    let mask = MatrixMask::structural(wide.clone());
    assert_eq!(
        adder.apply_with_mask(&mask, &m(), &n(), &mut product),
        Err(SparseLinearAlgebraError::ShapeMismatch)
    );
    assert_eq!(
        multiplier.apply_with_mask(&mask, &m(), &n(), &mut product),
        Err(SparseLinearAlgebraError::ShapeMismatch)
    );
    assert_eq!(
        adder.apply_with_mask(&mask, &wide, &n(), &mut product),
        Err(SparseLinearAlgebraError::DimensionMismatch)
    );
    assert_eq!(stored(&product), vec![(1, 1, 7)]);
}

#[test]
fn monoid_and_semiring_flavours_resolve_their_operator() {
    let options = OperatorOptions::new_default();
    let first = matrix((1, 3), vec![(0, 0, 4), (0, 1, 9)]);
    let second = matrix((1, 3), vec![(0, 0, 6), (0, 2, -7)]);
    let mut product = SparseMatrix::<i32>::new(&(1, 3).into());

    ElementWiseMatrixAdditionMonoidOperator::<i32>::new(&monoid::Max::<i32>::new(), &options, None)
        .apply(&first, &second, &mut product)
        .unwrap();
    assert_eq!(stored(&product), vec![(0, 0, 6), (0, 1, 9), (0, 2, 0)]);

    ElementWiseMatrixAdditionMonoidOperator::<i32>::new(&monoid::Min::<i32>::new(), &options, None)
        .apply(&first, &second, &mut product)
        .unwrap();
    assert_eq!(stored(&product), vec![(0, 0, 4), (0, 1, 0), (0, 2, -7)]);

    ElementWiseMatrixAdditionSemiring::<i32, i32, i32>::new(&PlusTimes::<i32, i32, i32>::new(), &options, None)
        .apply(&first, &second, &mut product)
        .unwrap();
    assert_eq!(stored(&product), vec![(0, 0, 10), (0, 1, 9), (0, 2, -7)]);

    ElementWiseMatrixAdditionSemiring::<i32, i32, i32>::new(&MinPlus::<i32, i32, i32>::new(), &options, None)
        .apply(&first, &second, &mut product)
        .unwrap();
    assert_eq!(stored(&product), vec![(0, 0, 4), (0, 1, 0), (0, 2, -7)]);

    ElementWiseMatrixMultiplicationMonoidOperator::<i32>::new(&monoid::Times::<i32>::new(), &options, None)
        .apply(&first, &second, &mut product)
        .unwrap();
    assert_eq!(stored(&product), vec![(0, 0, 24)]);

    ElementWiseMatrixMultiplicationMonoidOperator::<i32>::new(&monoid::Any::<i32>::new(), &options, None)
        .apply(&first, &second, &mut product)
        .unwrap();
    assert_eq!(stored(&product), vec![(0, 0, 4)]);

    ElementWiseMatrixMultiplicationSemiring::<i32, i32, i32>::new(&MinPlus::<i32, i32, i32>::new(), &options, None)
        .apply(&first, &second, &mut product)
        .unwrap();
    assert_eq!(stored(&product), vec![(0, 0, 10)]);

    let coordinate = Coordinate::new(0, 0);
    assert_eq!((coordinate.row_index(), coordinate.column_index()), (0, 0));
    let size = Size::new(1, 3);
    assert_eq!(product.size(), size);
}
