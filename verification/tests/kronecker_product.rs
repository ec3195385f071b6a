use graphblas_sparse_linear_algebra::error::SparseLinearAlgebraError;
use graphblas_sparse_linear_algebra::operators::{
    BinaryOperatorKroneckerProductOperator, First, MatrixMask, Minus, MinPlus,
    MonoidKroneckerProduct, OperatorOptions, ParallelismHint, Plus, SemiringKroneckerProduct,
    Times,
};
use graphblas_sparse_linear_algebra::operators::monoid;
use graphblas_sparse_linear_algebra::value_types::sparse_matrix::{
    MatrixElement, MatrixElementList, SparseMatrix,
};

fn matrix(size: (usize, usize), elements: Vec<(usize, usize, i32)>) -> SparseMatrix<i32> {
    let list = MatrixElementList::<i32>::from_element_vector(
        elements.into_iter().map(MatrixElement::from).collect(),
    );
    SparseMatrix::<i32>::from_element_list(&size.into(), &list, &First::<i32, i32, i32>::new()).unwrap()
}

fn stored(matrix: &SparseMatrix<i32>) -> Vec<(usize, usize, i32)> {
    let list = matrix.get_element_list();
    (0..list.length())
        .map(|i| {
            let element = list.element(i);
            (element.row_index(), element.column_index(), element.value())
        })
        .collect()
}

#[test]
fn kronecker_product_fills_one_block_for_each_entry() {
    let first = matrix((2, 2), vec![(0, 0, 1), (1, 1, 2)]);
    let second = matrix((2, 3), vec![(0, 0, 10), (0, 2, 20), (1, 1, 30)]);
    let options = OperatorOptions::new_default();
    let times = Times::<i32, i32, i32>::new();
    let mut product = matrix((4, 6), vec![(0, 1, 99)]);
    let operator = BinaryOperatorKroneckerProductOperator::<i32, i32, i32>::new(&times, &options, None);
    operator.apply(&first, &second, &mut product).unwrap();
    assert_eq!(
        stored(&product),
        vec![(0, 0, 10), (0, 2, 20), (1, 1, 30), (2, 3, 20), (2, 5, 40), (3, 4, 60)]
    );

    let minus = Minus::<i32, i32, i32>::new();
    let mut product = matrix((4, 6), vec![]);
    BinaryOperatorKroneckerProductOperator::<i32, i32, i32>::new(&minus, &options, None)
        .apply_with_mask(
            &MatrixMask::structural(matrix((4, 6), vec![(2, 5, 0), (3, 4, 0), (3, 5, 0)])),
            &first,
            &second,
            &mut product,
        )
        .unwrap();
    assert_eq!(stored(&product), vec![(2, 5, -18), (3, 4, -28)]);

    let mut product = matrix((4, 6), vec![(0, 0, 1)]);
    MonoidKroneckerProduct::<i32>::new(&monoid::Max::<i32>::new(), &options, Some(&Plus::<i32, i32, i32>::new()))
        .apply(&first, &second, &mut product)
        .unwrap();
    assert_eq!(
        stored(&product),
        vec![(0, 0, 11), (0, 2, 20), (1, 1, 30), (2, 3, 10), (2, 5, 20), (3, 4, 30)]
    );

    let transposing = OperatorOptions::new(false, false, true, ParallelismHint::Default);
    let mut product = matrix((6, 4), vec![]);
    SemiringKroneckerProduct::<i32, i32, i32>::new(&MinPlus::<i32, i32, i32>::new(), &transposing, None)
        .apply(&first, &second, &mut product)
        .unwrap();
    assert_eq!(
        stored(&product),
        vec![(0, 0, 11), (1, 1, 31), (2, 0, 21), (3, 2, 12), (4, 3, 32), (5, 2, 22)]
    );
}

#[test]
fn kronecker_product_refuses_shapes_that_disagree() {
    let first = matrix((2, 2), vec![(0, 0, 1)]);
    let second = matrix((2, 3), vec![(0, 0, 10)]);
    let options = OperatorOptions::new_default();
    let times = Times::<i32, i32, i32>::new();
    let operator = BinaryOperatorKroneckerProductOperator::<i32, i32, i32>::new(&times, &options, None);
    let mut product = matrix((4, 5), vec![(1, 1, 7)]);
    assert_eq!(
        operator.apply(&first, &second, &mut product),
        Err(SparseLinearAlgebraError::DimensionMismatch)
    );
    let huge = SparseMatrix::<i32>::new(&(usize::MAX, 1).into());
    assert_eq!(
        operator.apply(&huge, &second, &mut product),
        Err(SparseLinearAlgebraError::DimensionMismatch)
    );
    assert_eq!(stored(&product), vec![(1, 1, 7)]);
    let mut product = matrix((4, 6), vec![(1, 1, 7)]);
    assert_eq!(
        operator.apply_with_mask(&MatrixMask::value(matrix((4, 5), vec![])), &first, &second, &mut product),
        Err(SparseLinearAlgebraError::ShapeMismatch)
    );
    assert_eq!(stored(&product), vec![(1, 1, 7)]);

    let empty_block = matrix((0, 3), vec![]);
    let mut product = matrix((0, 6), vec![]);
    assert_eq!(operator.apply(&first, &empty_block, &mut product), Ok(()));
    assert_eq!(product.number_of_stored_elements(), 0);
}
