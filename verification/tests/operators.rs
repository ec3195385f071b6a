use graphblas_sparse_linear_algebra::error::SparseLinearAlgebraError;
use graphblas_sparse_linear_algebra::operators::binary_operator::{First, Minus, Plus};
use graphblas_sparse_linear_algebra::operators::extract::SubMatrixExtractor;
use graphblas_sparse_linear_algebra::operators::insert::{
    InsertMatrixIntoMatrix, InsertMatrixIntoMatrixTrait, InsertScalarIntoVector,
    InsertScalarIntoVectorTrait,
};
use graphblas_sparse_linear_algebra::operators::mask::{MatrixMask, VectorMask};
use graphblas_sparse_linear_algebra::operators::multiplication::VectorMatrixMultiplicationOperator;
use graphblas_sparse_linear_algebra::operators::options::{OperatorOptions, ParallelismHint};
use graphblas_sparse_linear_algebra::operators::reduce::BinaryOperatorReducer;
use graphblas_sparse_linear_algebra::operators::select::{
    SelectVectorEqualToScalar, SelectVectorGreaterThanOrEqualToScalar,
    SelectVectorLessThanOrEqualToScalar, SelectVectorNotEqualToScalar, VectorSelector,
};
use graphblas_sparse_linear_algebra::operators::semiring::{MinPlus, PlusTimes};
use graphblas_sparse_linear_algebra::operators::subinsert::{
    InsertScalarIntoSubMatrix, InsertScalarIntoSubMatrixTrait,
};
use graphblas_sparse_linear_algebra::util::ElementIndexSelector;
use graphblas_sparse_linear_algebra::value_types::sparse_matrix::{
    MatrixElement, MatrixElementList, SparseMatrix,
};
use graphblas_sparse_linear_algebra::value_types::sparse_vector::{
    SparseVector, VectorElement, VectorElementList,
};

fn matrix(size: (usize, usize), elements: Vec<(usize, usize, i32)>) -> SparseMatrix<i32> {
    let list = MatrixElementList::<i32>::from_element_vector(
        elements.into_iter().map(MatrixElement::from).collect(),
    );
    SparseMatrix::<i32>::from_element_list(&size.into(), &list, &First::<i32, i32, i32>::new()).unwrap()
}

fn vector(length: usize, elements: Vec<(usize, i32)>) -> SparseVector<i32> {
    let list = VectorElementList::<i32>::from_element_vector(
        elements.into_iter().map(VectorElement::from).collect(),
    );
    SparseVector::<i32>::from_element_list(&length, &list, &First::<i32, i32, i32>::new()).unwrap()
}

fn stored(matrix: &SparseMatrix<i32>) -> Vec<(usize, usize, i32)> {
    let list = matrix.get_element_list();
    (0..list.length())
        .map(|i| {
            let element = list.element(i);
            (element.row_index(), element.column_index(), element.value())
        })
        .collect()
}

fn stored_in(vector: &SparseVector<i32>) -> Vec<(usize, i32)> {
    let list = vector.get_element_list();
    (0..list.length())
        .map(|i| {
            let element = list.element(i);
            (element.index(), element.value())
        })
        .collect()
}

fn clearing() -> OperatorOptions {
    OperatorOptions::new(true, false, false, ParallelismHint::Default)
}

#[test]
fn extraction_of_everything_then_insertion_of_everything_gives_the_matrix_back() {
    let source = matrix((3, 4), vec![(0, 3, 5), (1, 1, -2), (2, 0, 9), (2, 3, 1)]);
    let options = OperatorOptions::new_default();
    let mut sub_matrix = SparseMatrix::<i32>::new(&(3, 4).into());
    SubMatrixExtractor::<i32, i32>::new(&options, None)
        .apply(&source, &ElementIndexSelector::All, &ElementIndexSelector::All, &mut sub_matrix)
        .unwrap();
    assert_eq!(stored(&sub_matrix), stored(&source));
    let mut copy = SparseMatrix::<i32>::new(&(3, 4).into());
    InsertMatrixIntoMatrix::<i32, i32>::new(&options, None)
        .apply(&mut copy, &ElementIndexSelector::All, &ElementIndexSelector::All, &sub_matrix)
        .unwrap();
    assert_eq!(stored(&copy), vec![(0, 3, 5), (1, 1, -2), (2, 0, 9), (2, 3, 1)]);
}

#[test]
fn extraction_follows_the_order_of_the_selection() {
    let source = matrix((3, 3), vec![(0, 0, 1), (0, 2, 2), (1, 1, 3), (2, 0, 4)]);
    let rows = vec![2, 0, 0];
    let columns = vec![2, 0];
    let mut sub_matrix = matrix((3, 2), vec![(1, 1, 77), (2, 0, 88)]);
    let options = OperatorOptions::new_default();
    let extractor = SubMatrixExtractor::<i32, i32>::new(&options, None);
    extractor
        .apply(
            &source,
            &ElementIndexSelector::Index(&rows),
            &ElementIndexSelector::Index(&columns),
            &mut sub_matrix,
        )
        .unwrap();
    assert_eq!(stored(&sub_matrix), vec![(0, 1, 4), (1, 0, 2), (1, 1, 1), (2, 0, 2), (2, 1, 1)]);

    let mask = MatrixMask::structural(matrix((3, 2), vec![(0, 0, 0), (0, 1, 0)]));
    let plus = Plus::<i32, i32, i32>::new();
    let accumulating = SubMatrixExtractor::<i32, i32>::new(&clearing(), Some(&plus));
    accumulating
        .apply_with_mask(
            &source,
            &ElementIndexSelector::Index(&rows),
            &ElementIndexSelector::Index(&columns),
            &mut sub_matrix,
            &mask,
        )
        .unwrap();
    assert_eq!(stored(&sub_matrix), vec![(0, 1, 8)]);

    let transposing = OperatorOptions::new(false, true, false, ParallelismHint::Default);
    let mut sub_matrix = SparseMatrix::<i32>::new(&(1, 3).into());
    SubMatrixExtractor::<i32, i32>::new(&transposing, None)
        .apply(
            &source,
            &ElementIndexSelector::Index(&vec![0]),
            &ElementIndexSelector::All,
            &mut sub_matrix,
        )
        .unwrap();
    assert_eq!(stored(&sub_matrix), vec![(0, 0, 1), (0, 2, 4)]);
}

#[test]
fn extraction_refuses_what_does_not_fit() {
    let source = matrix((3, 3), vec![(0, 0, 1)]);
    let options = OperatorOptions::new_default();
    let extractor = SubMatrixExtractor::<i32, i32>::new(&options, None);
    let mut sub_matrix = matrix((2, 2), vec![(1, 1, 5)]);
    let two = vec![0, 1];
    let three = vec![0, 1, 2];
    let outside = vec![0, 3];
    assert_eq!(
        extractor.apply(
            &source,
            &ElementIndexSelector::Index(&three),
            &ElementIndexSelector::Index(&two),
            &mut sub_matrix
        ),
        Err(SparseLinearAlgebraError::DimensionMismatch)
    );
    assert_eq!(
        extractor.apply(&source, &ElementIndexSelector::All, &ElementIndexSelector::Index(&two), &mut sub_matrix),
        Err(SparseLinearAlgebraError::DimensionMismatch)
    );
    assert_eq!(
        extractor.apply(
            &source,
            &ElementIndexSelector::Index(&two),
            &ElementIndexSelector::Index(&outside),
            &mut sub_matrix
        ),
        Err(SparseLinearAlgebraError::IndexOutOfBounds)
    );
    let mask = MatrixMask::value(matrix((3, 3), vec![]));
    assert_eq!(
        extractor.apply_with_mask(
            &source,
            &ElementIndexSelector::Index(&two),
            &ElementIndexSelector::Index(&two),
            &mut sub_matrix,
            &mask
        ),
        Err(SparseLinearAlgebraError::ShapeMismatch)
    );
    assert_eq!(stored(&sub_matrix), vec![(1, 1, 5)]);
}

#[test]
fn vector_times_matrix_adds_in_the_order_of_the_rows() {
    let multiplier = vector(3, vec![(0, 2), (2, 3)]);
    let multiplicant = matrix((3, 2), vec![(0, 0, 10), (1, 0, 100), (2, 0, 1), (1, 1, 5), (2, 1, 7)]);
    let options = OperatorOptions::new_default();
    let mut product = vector(2, vec![]);
    VectorMatrixMultiplicationOperator::<i32, i32, i32>::new(&PlusTimes::<i32, i32, i32>::new(), &options, None)
        .apply(&multiplier, &multiplicant, &mut product)
        .unwrap();
    assert_eq!(stored_in(&product), vec![(0, 23), (1, 21)]);

    VectorMatrixMultiplicationOperator::<i32, i32, i32>::new(&MinPlus::<i32, i32, i32>::new(), &options, None)
        .apply(&multiplier, &multiplicant, &mut product)
        .unwrap();
    assert_eq!(stored_in(&product), vec![(0, 4), (1, 10)]);

    let transposing = OperatorOptions::new(false, false, true, ParallelismHint::Default);
    let mut product = vector(3, vec![]);
    VectorMatrixMultiplicationOperator::<i32, i32, i32>::new(&PlusTimes::<i32, i32, i32>::new(), &transposing, None)
        .apply(&vector(2, vec![(1, 2)]), &multiplicant, &mut product)
        .unwrap();
    assert_eq!(stored_in(&product), vec![(1, 10), (2, 14)]);
}

#[test]
fn vector_times_matrix_refuses_lengths_that_disagree() {
    let options = OperatorOptions::new_default();
    let operator = VectorMatrixMultiplicationOperator::<i32, i32, i32>::new(
        &PlusTimes::<i32, i32, i32>::new(),
        &options,
        None,
    );
    let multiplicant = matrix((3, 2), vec![(0, 0, 10)]);
    let mut product = vector(2, vec![(1, 9)]);
    assert_eq!(
        operator.apply(&vector(2, vec![]), &multiplicant, &mut product),
        Err(SparseLinearAlgebraError::DimensionMismatch)
    );
    let mut long_product = vector(3, vec![]);
    assert_eq!(
        operator.apply(&vector(3, vec![]), &multiplicant, &mut long_product),
        Err(SparseLinearAlgebraError::DimensionMismatch)
    );
    assert_eq!(
        operator.apply_with_mask(
            &VectorMask::structural(vector(3, vec![])),
            &vector(3, vec![]),
            &multiplicant,
            &mut product
        ),
        Err(SparseLinearAlgebraError::ShapeMismatch)
    );
    assert_eq!(stored_in(&product), vec![(1, 9)]);
    assert_eq!(
        operator.apply_with_mask(&VectorMask::<i32>::none(), &vector(3, vec![(0, 2)]), &multiplicant, &mut product),
        Ok(())
    );
    assert_eq!(stored_in(&product), vec![(0, 20)]);
}

#[test]
fn rows_are_reduced_from_the_left_in_the_order_of_the_columns() {
    let argument = matrix((3, 4), vec![(0, 3, 1), (0, 0, 10), (0, 2, 4), (2, 1, 7)]);
    let options = OperatorOptions::new_default();
    let minus = Minus::<i32, i32, i32>::new();
    let mut product = vector(3, vec![(1, 99)]);
    BinaryOperatorReducer::<i32>::new(&minus, &options, None)
        .to_vector(&argument, &mut product)
        .unwrap();
    assert_eq!(stored_in(&product), vec![(0, 5), (2, 7)]);

    let transposing = OperatorOptions::new(false, true, false, ParallelismHint::Default);
    let mut product = vector(4, vec![]);
    BinaryOperatorReducer::<i32>::new(&minus, &transposing, Some(&Plus::<i32, i32, i32>::new()))
        .to_vector_with_mask(&argument, &mut product, &VectorMask::value(vector(4, vec![(0, 1), (1, 0), (2, 1)])))
        .unwrap();
    assert_eq!(stored_in(&product), vec![(0, 10), (2, 4)]);

    let mut short = vector(2, vec![(0, 1)]);
    let reducer = BinaryOperatorReducer::<i32>::new(&minus, &options, None);
    assert_eq!(reducer.to_vector(&argument, &mut short), Err(SparseLinearAlgebraError::DimensionMismatch));
    let mut product = vector(3, vec![(0, 1)]);
    assert_eq!(
        reducer.to_vector_with_mask(&argument, &mut product, &VectorMask::structural(vector(4, vec![]))),
        Err(SparseLinearAlgebraError::ShapeMismatch)
    );
    assert_eq!(stored_in(&product), vec![(0, 1)]);
}

#[test]
fn selection_keeps_what_the_predicate_accepts() {
    let argument = vector(6, vec![(0, -2), (1, 0), (2, 3), (4, 5), (5, 3)]);
    let options = OperatorOptions::new_default();
    let selector = VectorSelector::<i32>::new(&options, None);
    let mut product = vector(6, vec![(3, 1000)]);
    selector.non_zero(&argument, &mut product).unwrap();
    assert_eq!(stored_in(&product), vec![(0, -2), (2, 3), (4, 5), (5, 3)]);
    selector.zero(&argument, &mut product).unwrap();
    assert_eq!(stored_in(&product), vec![(1, 0)]);
    selector.positive(&argument, &mut product).unwrap();
    assert_eq!(stored_in(&product), vec![(2, 3), (4, 5), (5, 3)]);
    selector.zero_or_positive(&argument, &mut product).unwrap();
    assert_eq!(stored_in(&product), vec![(1, 0), (2, 3), (4, 5), (5, 3)]);
    selector.negative(&argument, &mut product).unwrap();
    assert_eq!(stored_in(&product), vec![(0, -2)]);
    selector.zero_or_negative(&argument, &mut product).unwrap();
    assert_eq!(stored_in(&product), vec![(0, -2), (1, 0)]);
    selector.equal_to_scalar(&argument, &mut product, &3).unwrap();
    assert_eq!(stored_in(&product), vec![(2, 3), (5, 3)]);
    selector.not_equal_to_scalar(&argument, &mut product, &3).unwrap();
    assert_eq!(stored_in(&product), vec![(0, -2), (1, 0), (4, 5)]);
    selector.greater_than_or_equal_to_scalar(&argument, &mut product, &3).unwrap();
    assert_eq!(stored_in(&product), vec![(2, 3), (4, 5), (5, 3)]);
    selector.less_than_or_equal_to_scalar(&argument, &mut product, &0).unwrap();
    assert_eq!(stored_in(&product), vec![(0, -2), (1, 0)]);
}

#[test]
fn selection_honours_mask_and_accumulator_and_refuses_other_lengths() {
    let argument = vector(4, vec![(0, 1), (1, 2), (2, 3)]);
    let plus = Plus::<i32, i32, i32>::new();
    let selector = VectorSelector::<i32>::new(&clearing(), Some(&plus));
    let mask = VectorMask::value(vector(4, vec![(0, 0), (1, 1), (3, 1)]));
    let mut product = vector(4, vec![(0, 10), (1, 20), (3, 40)]);
    selector.positive_with_mask(&argument, &mut product, &mask).unwrap();
    assert_eq!(stored_in(&product), vec![(1, 22), (3, 40)]);
    selector.equal_to_scalar_with_mask(&argument, &mut product, &2, &mask).unwrap();
    assert_eq!(stored_in(&product), vec![(1, 24), (3, 40)]);
    selector.not_equal_to_scalar_with_mask(&argument, &mut product, &2, &mask).unwrap();
    assert_eq!(stored_in(&product), vec![(1, 24), (3, 40)]);
    selector.less_than_or_equal_to_scalar_with_mask(&argument, &mut product, &2, &mask).unwrap();
    assert_eq!(stored_in(&product), vec![(1, 26), (3, 40)]);
    selector.non_zero_with_mask(&argument, &mut product, &VectorMask::<bool>::none()).unwrap();
    assert_eq!(stored_in(&product), vec![(0, 1), (1, 28), (2, 3), (3, 40)]);

    let mut short = vector(3, vec![(0, 5)]);
    assert_eq!(selector.zero(&argument, &mut short), Err(SparseLinearAlgebraError::DimensionMismatch));
    assert_eq!(
        selector.negative_with_mask(&argument, &mut product, &VectorMask::structural(vector(3, vec![]))),
        Err(SparseLinearAlgebraError::ShapeMismatch)
    );
    assert_eq!(stored_in(&short), vec![(0, 5)]);
}

#[test]
fn scalar_is_inserted_into_a_vector() {
    let indices = vec![3, 1, 3];
    let selection = ElementIndexSelector::Index(&indices);
    let options = OperatorOptions::new_default();
    let mut target = vector(5, vec![(0, 1), (1, 2), (4, 5)]);
    InsertScalarIntoVector::<i32, i32>::new(&options, None)
        .apply(&mut target, &selection, &7)
        .unwrap();
    assert_eq!(stored_in(&target), vec![(0, 1), (1, 7), (3, 7), (4, 5)]);

    let plus = Plus::<i32, i32, i32>::new();
    InsertScalarIntoVector::<i32, i32>::new(&options, Some(&plus))
        .apply(&mut target, &ElementIndexSelector::All, &100)
        .unwrap();
    assert_eq!(stored_in(&target), vec![(0, 101), (1, 107), (2, 100), (3, 107), (4, 105)]);

    let mask = VectorMask::value(vector(5, vec![(1, 1), (2, 0), (3, 1)]));
    InsertScalarIntoVector::<i32, i32>::new(&clearing(), None)
        .apply_with_mask(&mut target, &ElementIndexSelector::Index(&vec![1, 2]), &-1, &mask)
        .unwrap();
    assert_eq!(stored_in(&target), vec![(1, -1), (3, 107)]);

    let outside = vec![5];
    let inserter = InsertScalarIntoVector::<i32, i32>::new(&options, None);
    assert_eq!(
        inserter.apply(&mut target, &ElementIndexSelector::Index(&outside), &0),
        Err(SparseLinearAlgebraError::IndexOutOfBounds)
    );
    assert_eq!(
        inserter.apply_with_mask(&mut target, &selection, &0, &VectorMask::structural(vector(4, vec![]))),
        Err(SparseLinearAlgebraError::ShapeMismatch)
    );
    assert_eq!(stored_in(&target), vec![(1, -1), (3, 107)]);
}

#[test]
fn scalar_is_inserted_into_a_sub_matrix() {
    let rows = vec![2, 0];
    let columns = vec![1];
    let options = OperatorOptions::new_default();
    let mut target = matrix((3, 3), vec![(0, 0, 1), (0, 1, 2), (1, 1, 3)]);
    let plus = Plus::<i32, i32, i32>::new();
    InsertScalarIntoSubMatrix::<i32, i32>::new(&options, Some(&plus))
        .apply(&mut target, &ElementIndexSelector::Index(&rows), &ElementIndexSelector::Index(&columns), &10)
        .unwrap();
    assert_eq!(stored(&target), vec![(0, 0, 1), (0, 1, 12), (1, 1, 3), (2, 1, 10)]);

    // the mask lies over the selected sub-matrix, and so does the clearing
    let mask = MatrixMask::value(matrix((2, 3), vec![(0, 0, 1), (1, 0, 0), (1, 1, 1)]));
    InsertScalarIntoSubMatrix::<i32, i32>::new(&clearing(), None)
        .apply_with_mask(
            &mut target,
            &ElementIndexSelector::Index(&rows),
            &ElementIndexSelector::All,
            &5,
            &mask,
        )
        .unwrap();
    assert_eq!(stored(&target), vec![(0, 1, 5), (1, 1, 3), (2, 0, 5)]);

    let inserter = InsertScalarIntoSubMatrix::<i32, i32>::new(&options, None);
    assert_eq!(
        inserter.apply(&mut target, &ElementIndexSelector::Index(&vec![3]), &ElementIndexSelector::All, &0),
        Err(SparseLinearAlgebraError::IndexOutOfBounds)
    );
    assert_eq!(
        inserter.apply_with_mask(
            &mut target,
            &ElementIndexSelector::Index(&rows),
            &ElementIndexSelector::All,
            &0,
            &MatrixMask::structural(matrix((3, 3), vec![]))
        ),
        Err(SparseLinearAlgebraError::ShapeMismatch)
    );
    assert_eq!(stored(&target), vec![(0, 1, 5), (1, 1, 3), (2, 0, 5)]);
}

#[test]
fn matrix_is_inserted_into_a_matrix() {
    let rows = vec![2, 0];
    let columns = vec![1, 1];
    let options = OperatorOptions::new_default();
    let to_insert = matrix((2, 2), vec![(0, 0, 10), (0, 1, 20), (1, 0, 30)]);
    let mut target = matrix((3, 3), vec![(0, 0, 1), (0, 1, 2), (1, 1, 3)]);
    // column 1 is selected twice: its last place is written, which is empty in row 0
    InsertMatrixIntoMatrix::<i32, i32>::new(&options, None)
        .apply(&mut target, &ElementIndexSelector::Index(&rows), &ElementIndexSelector::Index(&columns), &to_insert)
        .unwrap();
    assert_eq!(stored(&target), vec![(0, 0, 1), (1, 1, 3), (2, 1, 20)]);

    let plus = Plus::<i32, i32, i32>::new();
    let mask = MatrixMask::structural(matrix((3, 3), vec![(2, 1, 0), (1, 1, 0)]));
    InsertMatrixIntoMatrix::<i32, i32>::new(&clearing(), Some(&plus))
        .apply_with_mask(
            &mut target,
            &ElementIndexSelector::Index(&rows),
            &ElementIndexSelector::Index(&columns),
            &to_insert,
            &mask,
        )
        .unwrap();
    assert_eq!(stored(&target), vec![(1, 1, 3), (2, 1, 40)]);

    let inserter = InsertMatrixIntoMatrix::<i32, i32>::new(&options, None);
    assert_eq!(
        inserter.apply(&mut target, &ElementIndexSelector::All, &ElementIndexSelector::All, &to_insert),
        Err(SparseLinearAlgebraError::DimensionMismatch)
    );
    assert_eq!(
        inserter.apply(
            &mut target,
            &ElementIndexSelector::Index(&vec![0, 3]),
            &ElementIndexSelector::Index(&columns),
            &to_insert
        ),
        Err(SparseLinearAlgebraError::IndexOutOfBounds)
    );
    assert_eq!(
        inserter.apply_with_mask(
            &mut target,
            &ElementIndexSelector::Index(&rows),
            &ElementIndexSelector::Index(&columns),
            &to_insert,
            &MatrixMask::structural(matrix((2, 2), vec![]))
        ),
        Err(SparseLinearAlgebraError::ShapeMismatch)
    );
    assert_eq!(stored(&target), vec![(1, 1, 3), (2, 1, 40)]);
}

#[test]
fn selector_counts_and_finds_its_indices() {
    let indices = vec![4, 2, 4];
    let selection = ElementIndexSelector::Index(&indices);
    assert_eq!(selection.number_of_selected_elements(10), 3);
    assert_eq!(ElementIndexSelector::All.number_of_selected_elements(10), 10);
    assert!(selection.is_inside(5));
    assert!(!selection.is_inside(4));
    assert!(ElementIndexSelector::All.is_inside(0));
    assert_eq!(selection.index_at(10, 1), 2);
    assert_eq!(ElementIndexSelector::All.index_at(10, 7), 7);
    assert!(selection.is_selected(10, 2));
    assert!(!selection.is_selected(10, 3));
    assert!(ElementIndexSelector::All.is_selected(10, 9));
    assert!(!ElementIndexSelector::All.is_selected(10, 10));
    assert_eq!(selection.last_place_of(10, 4), Some(2));
    assert_eq!(selection.last_place_of(10, 3), None);
    assert_eq!(ElementIndexSelector::All.last_place_of(10, 3), Some(3));
    assert_eq!(selection.places_of(10, 4), vec![0, 2]);
    assert_eq!(ElementIndexSelector::All.places_of(10, 4), vec![4]);
}
