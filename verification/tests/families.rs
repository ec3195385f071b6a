use graphblas_sparse_linear_algebra::error::SparseLinearAlgebraError;
use graphblas_sparse_linear_algebra::operators::binary_operator::{First, Minus, Plus, Times};
use graphblas_sparse_linear_algebra::operators::element_wise_addition::{
    ElementWiseVectorAdditionBinaryOperator, ElementWiseVectorAdditionMonoidOperator,
    ElementWiseVectorAdditionSemiring,
};
use graphblas_sparse_linear_algebra::operators::element_wise_multiplication::{
    ElementWiseVectorMultiplicationBinaryOperator, ElementWiseVectorMultiplicationMonoidOperator,
    ElementWiseVectorMultiplicationSemiring,
};
use graphblas_sparse_linear_algebra::operators::extract::{MatrixColumnExtractor, SubVectorExtractor};
use graphblas_sparse_linear_algebra::operators::mask::{MatrixMask, VectorMask};
use graphblas_sparse_linear_algebra::operators::monoid;
use graphblas_sparse_linear_algebra::operators::multiplication::{
    MatrixMultiplicationOperator, MatrixVectorMultiplicationOperator,
};
use graphblas_sparse_linear_algebra::operators::options::{OperatorOptions, ParallelismHint};
use graphblas_sparse_linear_algebra::operators::reduce::{MonoidReducer, MonoidScalarReducer};
use graphblas_sparse_linear_algebra::operators::select::{
    MatrixSelector, SelectMatrixEqualToScalar, SelectMatrixGreaterThanOrEqualToScalar,
    SelectMatrixGreaterThanScalar, SelectMatrixLessThanOrEqualToScalar, SelectMatrixLessThanScalar,
    SelectMatrixNotEqualToScalar,
};
use graphblas_sparse_linear_algebra::operators::semiring::{MinPlus, PlusTimes};
use graphblas_sparse_linear_algebra::operators::transpose::MatrixTranspose;
use graphblas_sparse_linear_algebra::util::ElementIndexSelector;
use graphblas_sparse_linear_algebra::value_types::sparse_matrix::{
    MatrixElement, MatrixElementList, SparseMatrix,
};
use graphblas_sparse_linear_algebra::value_types::sparse_vector::{
    SparseVector, VectorElement, VectorElementList,
};

fn matrix(size: (usize, usize), elements: Vec<(usize, usize, i32)>) -> SparseMatrix<i32> {
    let list = MatrixElementList::<i32>::from_element_vector(
        elements.into_iter().map(MatrixElement::from).collect(),
    );
    SparseMatrix::<i32>::from_element_list(&size.into(), &list, &First::<i32, i32, i32>::new()).unwrap()
}

fn vector(length: usize, elements: Vec<(usize, i32)>) -> SparseVector<i32> {
    let list = VectorElementList::<i32>::from_element_vector(
        elements.into_iter().map(VectorElement::from).collect(),
    );
    SparseVector::<i32>::from_element_list(&length, &list, &First::<i32, i32, i32>::new()).unwrap()
}

fn stored(matrix: &SparseMatrix<i32>) -> Vec<(usize, usize, i32)> {
    let list = matrix.get_element_list();
    (0..list.length())
        .map(|i| {
            let element = list.element(i);
            (element.row_index(), element.column_index(), element.value())
        })
        .collect()
}

fn stored_in(vector: &SparseVector<i32>) -> Vec<(usize, i32)> {
    let list = vector.get_element_list();
    (0..list.length())
        .map(|i| {
            let element = list.element(i);
            (element.index(), element.value())
        })
        .collect()
}

fn transposing_first() -> OperatorOptions {
    OperatorOptions::new(false, true, false, ParallelismHint::Default)
}

#[test]
fn vectors_are_added_and_multiplied_element_wise() {
    let options = OperatorOptions::new_default();
    let first = vector(4, vec![(0, 4), (1, 9)]);
    let second = vector(4, vec![(0, 6), (3, -7)]);
    let mut product = vector(4, vec![(2, 100)]);
    let minus = Minus::<i32, i32, i32>::new();

    ElementWiseVectorAdditionBinaryOperator::<i32, i32, i32>::new(&minus, &options, None)
        .apply(&first, &second, &mut product)
        .unwrap();
    assert_eq!(stored_in(&product), vec![(0, -2), (1, 9), (3, 7)]);

    ElementWiseVectorMultiplicationBinaryOperator::<i32, i32, i32>::new(&minus, &options, None)
        .apply(&first, &second, &mut product)
        .unwrap();
    assert_eq!(stored_in(&product), vec![(0, -2)]);

    ElementWiseVectorAdditionMonoidOperator::<i32>::new(&monoid::Max::<i32>::new(), &options, None)
        .apply(&first, &second, &mut product)
        .unwrap();
    assert_eq!(stored_in(&product), vec![(0, 6), (1, 9), (3, 0)]);

    ElementWiseVectorMultiplicationMonoidOperator::<i32>::new(&monoid::Plus::<i32>::new(), &options, None)
        .apply(&first, &second, &mut product)
        .unwrap();
    assert_eq!(stored_in(&product), vec![(0, 10)]);

    let plus = Plus::<i32, i32, i32>::new();
    let mask = VectorMask::structural(vector(4, vec![(0, 0), (1, 0)]));
    ElementWiseVectorAdditionSemiring::<i32, i32, i32>::new(&MinPlus::<i32, i32, i32>::new(), &options, Some(&plus))
        .apply_with_mask(&mask, &first, &second, &mut product)
        .unwrap();
    assert_eq!(stored_in(&product), vec![(0, 14), (1, 0)]);

    ElementWiseVectorMultiplicationSemiring::<i32, i32, i32>::new(&PlusTimes::<i32, i32, i32>::new(), &options, None)
        .apply_with_mask(&mask, &first, &second, &mut product)
        .unwrap();
    assert_eq!(stored_in(&product), vec![(0, 24)]);

    let adder = ElementWiseVectorAdditionBinaryOperator::<i32, i32, i32>::new(&minus, &options, None);
    let multiplier = ElementWiseVectorMultiplicationBinaryOperator::<i32, i32, i32>::new(&minus, &options, None);
    let short = vector(3, vec![]);
    assert_eq!(adder.apply(&first, &short, &mut product), Err(SparseLinearAlgebraError::DimensionMismatch));
    assert_eq!(multiplier.apply(&short, &second, &mut product), Err(SparseLinearAlgebraError::DimensionMismatch));
    assert_eq!(
        adder.apply_with_mask(&VectorMask::structural(short.clone()), &first, &second, &mut product),
        Err(SparseLinearAlgebraError::ShapeMismatch)
    );
    assert_eq!(
        multiplier.apply_with_mask(&VectorMask::value(short), &first, &second, &mut product),
        Err(SparseLinearAlgebraError::ShapeMismatch)
    );
    assert_eq!(stored_in(&product), vec![(0, 24)]);
}

#[test]
fn matrix_times_vector_adds_in_the_order_of_the_columns() {
    let multiplier = matrix((2, 3), vec![(0, 0, 10), (0, 2, 1), (1, 1, 5), (1, 2, 7)]);
    let multiplicant = vector(3, vec![(0, 2), (2, 3)]);
    let options = OperatorOptions::new_default();
    let mut product = vector(2, vec![]);
    let plus_times = PlusTimes::<i32, i32, i32>::new();
    let operator = MatrixVectorMultiplicationOperator::<i32, i32, i32>::new(&plus_times, &options, None);
    operator.apply(&multiplier, &multiplicant, &mut product).unwrap();
    assert_eq!(stored_in(&product), vec![(0, 23), (1, 21)]);

    let mut product = vector(3, vec![(1, 1)]);
    MatrixVectorMultiplicationOperator::<i32, i32, i32>::new(&plus_times, &transposing_first(), None)
        .apply_with_mask(
            &VectorMask::structural(vector(3, vec![(1, 0), (2, 0)])),
            &multiplier,
            &vector(2, vec![(0, 1), (1, 2)]),
            &mut product,
        )
        .unwrap();
    assert_eq!(stored_in(&product), vec![(1, 10), (2, 15)]);

    assert_eq!(
        operator.apply(&multiplier, &vector(2, vec![]), &mut product),
        Err(SparseLinearAlgebraError::DimensionMismatch)
    );
    let mut product = vector(2, vec![(0, 3)]);
    assert_eq!(
        operator.apply_with_mask(&VectorMask::value(vector(3, vec![])), &multiplier, &multiplicant, &mut product),
        Err(SparseLinearAlgebraError::ShapeMismatch)
    );
    assert_eq!(stored_in(&product), vec![(0, 3)]);
}

#[test]
fn matrices_are_multiplied() {
    let multiplier = matrix((2, 3), vec![(0, 0, 1), (0, 2, 2), (1, 1, 3)]);
    let multiplicant = matrix((3, 2), vec![(0, 0, 4), (0, 1, 5), (1, 1, 6), (2, 0, 7)]);
    let options = OperatorOptions::new_default();
    let plus_times = PlusTimes::<i32, i32, i32>::new();
    let mut product = matrix((2, 2), vec![(1, 0, 99)]);
    let operator = MatrixMultiplicationOperator::<i32, i32, i32>::new(&plus_times, &options, None);
    operator.apply(&multiplier, &multiplicant, &mut product).unwrap();
    assert_eq!(stored(&product), vec![(0, 0, 18), (0, 1, 5), (1, 1, 18)]);

    let min_plus = MinPlus::<i32, i32, i32>::new();
    MatrixMultiplicationOperator::<i32, i32, i32>::new(&min_plus, &options, None)
        .apply(&multiplier, &multiplicant, &mut product)
        .unwrap();
    assert_eq!(stored(&product), vec![(0, 0, 5), (0, 1, 6), (1, 1, 9)]);

    let plus = Plus::<i32, i32, i32>::new();
    let both_transposed = OperatorOptions::new(false, true, true, ParallelismHint::Default);
    let mut product = matrix((3, 3), vec![(0, 0, 1000), (2, 2, 1)]);
    MatrixMultiplicationOperator::<i32, i32, i32>::new(&plus_times, &both_transposed, Some(&plus))
        .apply_with_mask(
            &MatrixMask::structural(matrix((3, 3), vec![(0, 0, 0), (1, 1, 0), (2, 2, 0)])),
            &multiplier,
            &multiplicant,
            &mut product,
        )
        .unwrap();
    assert_eq!(stored(&product), vec![(0, 0, 1004), (1, 1, 18), (2, 2, 15)]);

    assert_eq!(
        operator.apply(&multiplier, &multiplier, &mut product),
        Err(SparseLinearAlgebraError::DimensionMismatch)
    );
    assert_eq!(
        operator.apply(&multiplier, &multiplicant, &mut product),
        Err(SparseLinearAlgebraError::DimensionMismatch)
    );
    let mut product = matrix((2, 2), vec![(1, 0, 99)]);
    assert_eq!(
        operator.apply_with_mask(
            &MatrixMask::value(matrix((2, 3), vec![])),
            &multiplier,
            &multiplicant,
            &mut product
        ),
        Err(SparseLinearAlgebraError::ShapeMismatch)
    );
    assert_eq!(stored(&product), vec![(1, 0, 99)]);
}

#[test]
fn monoids_reduce_to_vectors_and_scalars() {
    let argument = matrix((3, 4), vec![(0, 3, 1), (0, 0, 10), (0, 2, 4), (2, 1, 7)]);
    let options = OperatorOptions::new_default();
    let mut product = vector(3, vec![(1, 99)]);
    MonoidReducer::<i32>::new(&monoid::Plus::<i32>::new(), &options, None)
        .to_vector(&argument, &mut product)
        .unwrap();
    assert_eq!(stored_in(&product), vec![(0, 15), (2, 7)]);
    MonoidReducer::<i32>::new(&monoid::Min::<i32>::new(), &options, None)
        .to_vector_with_mask(&argument, &mut product, &VectorMask::structural(vector(3, vec![(0, 0)])))
        .unwrap();
    assert_eq!(stored_in(&product), vec![(0, 1), (2, 7)]);
    let mut short = vector(2, vec![]);
    assert_eq!(
        MonoidReducer::<i32>::new(&monoid::Min::<i32>::new(), &options, None).to_vector(&argument, &mut short),
        Err(SparseLinearAlgebraError::DimensionMismatch)
    );

    let mut scalar = 1000;
    MonoidScalarReducer::<i32>::new(&monoid::Plus::<i32>::new(), &options, None)
        .matrix_to_scalar(&argument, &mut scalar);
    assert_eq!(scalar, 22);
    MonoidScalarReducer::<i32>::new(&monoid::Max::<i32>::new(), &transposing_first(), Some(&Plus::<i32, i32, i32>::new()))
        .matrix_to_scalar(&argument, &mut scalar);
    assert_eq!(scalar, 32);
    MonoidScalarReducer::<i32>::new(&monoid::Times::<i32>::new(), &options, None)
        .vector_to_scalar(&vector(5, vec![(4, 3), (1, -2), (2, 5)]), &mut scalar);
    assert_eq!(scalar, -30);

    let empty_matrix = matrix((2, 2), vec![]);
    let empty_vector = vector(2, vec![]);
    MonoidScalarReducer::<i32>::new(&monoid::Min::<i32>::new(), &options, None)
        .matrix_to_scalar(&empty_matrix, &mut scalar);
    assert_eq!(scalar, i32::MAX);
    MonoidScalarReducer::<i32>::new(&monoid::Max::<i32>::new(), &options, None)
        .vector_to_scalar(&empty_vector, &mut scalar);
    assert_eq!(scalar, i32::MIN);
    MonoidScalarReducer::<i32>::new(&monoid::Plus::<i32>::new(), &options, None)
        .vector_to_scalar(&empty_vector, &mut scalar);
    assert_eq!(scalar, 0);
    MonoidScalarReducer::<i32>::new(&monoid::Times::<i32>::new(), &options, None)
        .vector_to_scalar(&empty_vector, &mut scalar);
    assert_eq!(scalar, 1);
    MonoidScalarReducer::<i32>::new(&monoid::Any::<i32>::new(), &options, None)
        .vector_to_scalar(&empty_vector, &mut scalar);
    assert_eq!(scalar, 0);
    let mut flag = false;
    let truths = SparseVector::<bool>::new(&3);
    MonoidScalarReducer::<bool>::new(&monoid::LogicalAnd::<bool>::new(), &options, None)
        .vector_to_scalar(&truths, &mut flag);
    assert_eq!(flag, true);
    MonoidScalarReducer::<bool>::new(&monoid::LogicalOr::<bool>::new(), &options, None)
        .vector_to_scalar(&truths, &mut flag);
    assert_eq!(flag, false);
    MonoidScalarReducer::<bool>::new(&monoid::Equal::<bool>::new(), &options, None)
        .vector_to_scalar(&truths, &mut flag);
    assert_eq!(flag, true);
    MonoidScalarReducer::<bool>::new(&monoid::LogicalExclusiveOr::<bool>::new(), &options, None)
        .vector_to_scalar(&truths, &mut flag);
    assert_eq!(flag, false);
}

#[test]
fn sub_vectors_and_columns_are_extracted() {
    let source = vector(5, vec![(0, 10), (2, 30), (4, 50)]);
    let options = OperatorOptions::new_default();
    let indices = vec![4, 1, 0, 4];
    let mut sub_vector = vector(4, vec![(1, 7)]);
    let extractor = SubVectorExtractor::<i32, i32>::new(&options, None);
    extractor
        .apply(&source, &ElementIndexSelector::Index(&indices), &mut sub_vector)
        .unwrap();
    assert_eq!(stored_in(&sub_vector), vec![(0, 50), (2, 10), (3, 50)]);
    let plus = Plus::<i32, i32, i32>::new();
    SubVectorExtractor::<i32, i32>::new(&options, Some(&plus))
        .apply_with_mask(
            &source,
            &ElementIndexSelector::Index(&indices),
            &mut sub_vector,
            &VectorMask::structural(vector(4, vec![(0, 0), (1, 0)])),
        )
        .unwrap();
    assert_eq!(stored_in(&sub_vector), vec![(0, 100), (2, 10), (3, 50)]);
    assert_eq!(
        extractor.apply(&source, &ElementIndexSelector::All, &mut sub_vector),
        Err(SparseLinearAlgebraError::DimensionMismatch)
    );
    assert_eq!(
        extractor.apply(&source, &ElementIndexSelector::Index(&vec![0, 1, 2, 5]), &mut sub_vector),
        Err(SparseLinearAlgebraError::IndexOutOfBounds)
    );
    assert_eq!(
        extractor.apply_with_mask(
            &source,
            &ElementIndexSelector::Index(&indices),
            &mut sub_vector,
            &VectorMask::structural(vector(5, vec![]))
        ),
        Err(SparseLinearAlgebraError::ShapeMismatch)
    );

    let argument = matrix((3, 4), vec![(0, 3, 1), (0, 0, 10), (1, 3, 4), (2, 1, 7)]);
    let mut column = vector(3, vec![(2, 5)]);
    let column_extractor = MatrixColumnExtractor::<i32, i32>::new(&options, None);
    column_extractor
        .apply(&argument, &3, &ElementIndexSelector::All, &mut column)
        .unwrap();
    assert_eq!(stored_in(&column), vec![(0, 1), (1, 4)]);
    let mut row = vector(2, vec![]);
    MatrixColumnExtractor::<i32, i32>::new(&transposing_first(), None)
        .apply_with_mask(
            &argument,
            &0,
            &ElementIndexSelector::Index(&vec![3, 0]),
            &mut row,
            &VectorMask::<bool>::none(),
        )
        .unwrap();
    assert_eq!(stored_in(&row), vec![(0, 1), (1, 10)]);
    assert_eq!(
        column_extractor.apply(&argument, &4, &ElementIndexSelector::All, &mut column),
        Err(SparseLinearAlgebraError::IndexOutOfBounds)
    );
    assert_eq!(
        column_extractor.apply(&argument, &0, &ElementIndexSelector::Index(&vec![0]), &mut column),
        Err(SparseLinearAlgebraError::DimensionMismatch)
    );
    assert_eq!(
        column_extractor.apply_with_mask(
            &argument,
            &0,
            &ElementIndexSelector::All,
            &mut column,
            &VectorMask::value(vector(4, vec![]))
        ),
        Err(SparseLinearAlgebraError::ShapeMismatch)
    );
    assert_eq!(stored_in(&column), vec![(0, 1), (1, 4)]);
}

#[test]
fn matrices_are_transposed() {
    let argument = matrix((2, 3), vec![(0, 2, 5), (1, 0, 6)]);
    let options = OperatorOptions::new_default();
    let mut transpose = matrix((3, 2), vec![(1, 1, 9)]);
    let operator = MatrixTranspose::<i32>::new(&options, None);
    operator.apply(&argument, &mut transpose).unwrap();
    assert_eq!(stored(&transpose), vec![(0, 1, 6), (2, 0, 5)]);

    let plus = Plus::<i32, i32, i32>::new();
    MatrixTranspose::<i32>::new(&options, Some(&plus))
        .apply_with_mask(&argument, &mut transpose, &MatrixMask::structural(matrix((3, 2), vec![(2, 0, 0)])))
        .unwrap();
    assert_eq!(stored(&transpose), vec![(0, 1, 6), (2, 0, 10)]);

    let mut same = matrix((2, 3), vec![]);
    MatrixTranspose::<i32>::new(&transposing_first(), None).apply(&argument, &mut same).unwrap();
    assert_eq!(stored(&same), vec![(0, 2, 5), (1, 0, 6)]);

    assert_eq!(operator.apply(&argument, &mut same), Err(SparseLinearAlgebraError::DimensionMismatch));
    assert_eq!(
        operator.apply_with_mask(&argument, &mut transpose, &MatrixMask::value(matrix((2, 3), vec![]))),
        Err(SparseLinearAlgebraError::ShapeMismatch)
    );
}

#[test]
fn matrix_selection_keeps_what_the_predicate_accepts() {
    let argument = matrix((2, 3), vec![(0, 0, -2), (0, 1, 0), (0, 2, 3), (1, 1, 5), (1, 2, 3)]);
    let options = OperatorOptions::new_default();
    let selector = MatrixSelector::<i32>::new(&options, None);
    let mut product = matrix((2, 3), vec![(1, 0, 1000)]);
    selector.non_zero(&argument, &mut product).unwrap();
    assert_eq!(stored(&product), vec![(0, 0, -2), (0, 2, 3), (1, 1, 5), (1, 2, 3)]);
    selector.zero(&argument, &mut product).unwrap();
    assert_eq!(stored(&product), vec![(0, 1, 0)]);
    selector.positive(&argument, &mut product).unwrap();
    assert_eq!(stored(&product), vec![(0, 2, 3), (1, 1, 5), (1, 2, 3)]);
    selector.zero_or_positive(&argument, &mut product).unwrap();
    assert_eq!(stored(&product), vec![(0, 1, 0), (0, 2, 3), (1, 1, 5), (1, 2, 3)]);
    selector.negative(&argument, &mut product).unwrap();
    assert_eq!(stored(&product), vec![(0, 0, -2)]);
    selector.zero_or_negative(&argument, &mut product).unwrap();
    assert_eq!(stored(&product), vec![(0, 0, -2), (0, 1, 0)]);
    selector.equal_to_scalar(&argument, &mut product, &3).unwrap();
    assert_eq!(stored(&product), vec![(0, 2, 3), (1, 2, 3)]);
    selector.not_equal_to_scalar(&argument, &mut product, &3).unwrap();
    assert_eq!(stored(&product), vec![(0, 0, -2), (0, 1, 0), (1, 1, 5)]);
    selector.greater_than_scalar(&argument, &mut product, &3).unwrap();
    assert_eq!(stored(&product), vec![(1, 1, 5)]);
    selector.greater_than_or_equal_to_scalar(&argument, &mut product, &3).unwrap();
    assert_eq!(stored(&product), vec![(0, 2, 3), (1, 1, 5), (1, 2, 3)]);
    selector.less_than_scalar(&argument, &mut product, &0).unwrap();
    assert_eq!(stored(&product), vec![(0, 0, -2)]);
    selector.less_than_or_equal_to_scalar(&argument, &mut product, &0).unwrap();
    assert_eq!(stored(&product), vec![(0, 0, -2), (0, 1, 0)]);

    let times = Times::<i32, i32, i32>::new();
    let mask = MatrixMask::value(matrix((3, 2), vec![(0, 0, 1), (1, 0, 1), (2, 1, 0)]));
    let mut product = matrix((3, 2), vec![(0, 0, 10), (2, 1, 4)]);
    MatrixSelector::<i32>::new(&transposing_first(), Some(&times))
        .less_than_scalar_with_mask(&argument, &mut product, &4, &mask)
        .unwrap();
    assert_eq!(stored(&product), vec![(0, 0, -20), (1, 0, 0), (2, 1, 4)]);

    assert_eq!(selector.zero(&argument, &mut product), Err(SparseLinearAlgebraError::DimensionMismatch));
    let mut product = matrix((2, 3), vec![(0, 0, 1)]);
    assert_eq!(
        selector.positive_with_mask(&argument, &mut product, &mask),
        Err(SparseLinearAlgebraError::ShapeMismatch)
    );
    assert_eq!(stored(&product), vec![(0, 0, 1)]);
}
