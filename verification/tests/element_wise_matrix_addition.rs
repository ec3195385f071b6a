use graphblas_sparse_linear_algebra::operators::binary_operator::{First, Plus, Times};
use graphblas_sparse_linear_algebra::operators::element_wise_addition::ElementWiseMatrixAdditionBinaryOperator;
use graphblas_sparse_linear_algebra::operators::options::OperatorOptions;
use graphblas_sparse_linear_algebra::value_types::sparse_matrix::{
    MatrixElementList, Size, SparseMatrix,
};

#[test]
fn create_matrix_adder() {
    let operator = Times::<i64, i64, i64>::new();
    let options = OperatorOptions::new_default();
    let _element_wise_matrix_multiplier =
        ElementWiseMatrixAdditionBinaryOperator::<i64, i64, i64>::new(&operator, &options, None);

    let accumulator = Times::<i64, i64, i64>::new();

    let _matrix_multiplier = ElementWiseMatrixAdditionBinaryOperator::<i64, i64, i64>::new(
        &operator,
        &options,
        Some(&accumulator),
    );
}

#[test]
fn test_element_wise_multiplication() {
    let operator = Times::<i32, i32, i32>::new();
    let options = OperatorOptions::new_default();
    let element_wise_matrix_multiplier =
        ElementWiseMatrixAdditionBinaryOperator::<i32, i32, i32>::new(&operator, &options, None);

    let height = 2;
    let width = 2;
    let size: Size = (height, width).into();

    let multiplier = SparseMatrix::<i32>::new(&size);
    let multiplicant = multiplier.clone();
    let mut product = multiplier.clone();

    // Test multiplication of empty matrices
    element_wise_matrix_multiplier
        .apply(&multiplier, &multiplicant, &mut product)
        .unwrap();
    let element_list = product.get_element_list();

    assert_eq!(product.number_of_stored_elements(), 0);
    assert_eq!(element_list.length(), 0);
    assert_eq!(product.get_element_value(&(1, 1).into()).unwrap(), 0); // NoValue

    let multiplier_element_list = MatrixElementList::<i32>::from_element_vector(vec![
        (0, 0, 1).into(),
        (1, 0, 2).into(),
        (0, 1, 3).into(),
        (1, 1, 4).into(),
    ]);
    let multiplier = SparseMatrix::<i32>::from_element_list(
        &size,
        &multiplier_element_list,
        &First::<i32, i32, i32>::new(),
    )
    .unwrap();

    let multiplicant_element_list = MatrixElementList::<i32>::from_element_vector(vec![
        (0, 0, 5).into(),
        (1, 0, 6).into(),
        (0, 1, 7).into(),
        (1, 1, 8).into(),
    ]);
    let multiplicant = SparseMatrix::<i32>::from_element_list(
        &size,
        &multiplicant_element_list,
        &First::<i32, i32, i32>::new(),
    )
    .unwrap();

    // Test multiplication of full matrices
    element_wise_matrix_multiplier
        .apply(&multiplier, &multiplicant, &mut product)
        .unwrap();

    assert_eq!(product.get_element_value(&(0, 0).into()).unwrap(), 5);
    assert_eq!(product.get_element_value(&(1, 0).into()).unwrap(), 12);
    assert_eq!(product.get_element_value(&(0, 1).into()).unwrap(), 21);
    assert_eq!(product.get_element_value(&(1, 1).into()).unwrap(), 32);

    // test the use of an accumulator
    let accumulator = Plus::<i32, i32, i32>::new();
    let matrix_multiplier_with_accumulator =
        ElementWiseMatrixAdditionBinaryOperator::<i32, i32, i32>::new(
            &operator,
            &options,
            Some(&accumulator),
        );

    matrix_multiplier_with_accumulator
        .apply(&multiplier, &multiplicant, &mut product)
        .unwrap();

    assert_eq!(product.get_element_value(&(0, 0).into()).unwrap(), 5 * 2);
    assert_eq!(product.get_element_value(&(1, 0).into()).unwrap(), 12 * 2);
    assert_eq!(product.get_element_value(&(0, 1).into()).unwrap(), 21 * 2);
    assert_eq!(product.get_element_value(&(1, 1).into()).unwrap(), 32 * 2);

    // test the use of a mask
    let mask_element_list = MatrixElementList::<u8>::from_element_vector(vec![
        (0, 0, 3).into(),
        (1, 0, 0).into(),
        (1, 1, 1).into(),
    ]);
    let mask = SparseMatrix::<u8>::from_element_list(
        &size,
        &mask_element_list,
        &First::<u8, u8, u8>::new(),
    )
    .unwrap();

    let matrix_multiplier =
        ElementWiseMatrixAdditionBinaryOperator::<i32, i32, i32>::new(&operator, &options, None);

    let mut product = SparseMatrix::<i32>::new(&size);

    matrix_multiplier
        .apply_with_mask(&mask.into(), &multiplier, &multiplicant, &mut product)
        .unwrap();

    assert_eq!(product.get_element_value(&(0, 0).into()).unwrap(), 5);
    assert_eq!(product.get_element_value(&(1, 0).into()).unwrap(), 0);
    assert_eq!(product.get_element_value(&(0, 1).into()).unwrap(), 0);
    assert_eq!(product.get_element_value(&(1, 1).into()).unwrap(), 32);
}

#[test]
fn test_element_wise_addition() {
    let operator = Plus::<i32, i32, i32>::new();
    let options = OperatorOptions::new_default();
    let element_wise_matrix_adder =
        ElementWiseMatrixAdditionBinaryOperator::<i32, i32, i32>::new(&operator, &options, None);

    let height = 2;
    let width = 2;
    let size: Size = (height, width).into();

    let multiplier = SparseMatrix::<i32>::new(&size);
    let multiplicant = multiplier.clone();
    let mut product = multiplier.clone();

    // Test multiplication of empty matrices
    element_wise_matrix_adder
        .apply(&multiplier, &multiplicant, &mut product)
        .unwrap();
    let element_list = product.get_element_list();

    assert_eq!(product.number_of_stored_elements(), 0);
    assert_eq!(element_list.length(), 0);
    assert_eq!(product.get_element_value(&(1, 1).into()).unwrap(), 0); // NoValue

    let multiplier_element_list = MatrixElementList::<i32>::from_element_vector(vec![
        (0, 0, 1).into(),
        (1, 0, 2).into(),
        (0, 1, 3).into(),
        (1, 1, 4).into(),
    ]);
    let multiplier = SparseMatrix::<i32>::from_element_list(
        &size,
        &multiplier_element_list,
        &First::<i32, i32, i32>::new(),
    )
    .unwrap();

    let multiplicant_element_list = MatrixElementList::<i32>::from_element_vector(vec![
        (0, 0, 5).into(),
        (1, 0, 6).into(),
        (0, 1, 7).into(),
        (1, 1, 8).into(),
    ]);
    let multiplicant = SparseMatrix::<i32>::from_element_list(
        &size,
        &multiplicant_element_list,
        &First::<i32, i32, i32>::new(),
    )
    .unwrap();

    // Test multiplication of full matrices
    element_wise_matrix_adder
        .apply(&multiplier, &multiplicant, &mut product)
        .unwrap();

    assert_eq!(product.get_element_value(&(0, 0).into()).unwrap(), 6);
    assert_eq!(product.get_element_value(&(1, 0).into()).unwrap(), 8);
    assert_eq!(product.get_element_value(&(0, 1).into()).unwrap(), 10);
    assert_eq!(product.get_element_value(&(1, 1).into()).unwrap(), 12);
}
