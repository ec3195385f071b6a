use graphblas_sparse_linear_algebra::operators::binary_operator::{First, Plus};
use graphblas_sparse_linear_algebra::operators::multiplication::VectorMatrixMultiplicationOperator;
use graphblas_sparse_linear_algebra::operators::options::OperatorOptions;
use graphblas_sparse_linear_algebra::operators::semiring::PlusTimes;
use graphblas_sparse_linear_algebra::value_types::sparse_matrix::{
    MatrixElementList, Size, SparseMatrix,
};
use graphblas_sparse_linear_algebra::value_types::sparse_vector::{SparseVector, VectorElementList};

#[test]
fn test_multiplication_with_plus_times() {
    let semiring = PlusTimes::<i32, i32, i32>::new();
    let options = OperatorOptions::new_default();
    let matrix_multiplier =
        VectorMatrixMultiplicationOperator::<i32, i32, i32>::new(&semiring, &options, None);

    let length = 2;
    let size: Size = (length, length).into();

    let multiplier = SparseVector::<i32>::new(&length);
    let multiplicant = SparseMatrix::<i32>::new(&size);
    let mut product = multiplier.clone();

    // Test multiplication of empty matrices
    matrix_multiplier
        .apply(&multiplier, &multiplicant, &mut product)
        .unwrap();
    let element_list = product.get_element_list();

    assert_eq!(product.number_of_stored_elements(), 0);
    assert_eq!(element_list.length(), 0);
    assert_eq!(product.get_element_value(&1).unwrap(), 0); // NoValue

    let multiplier_element_list =
        VectorElementList::<i32>::from_element_vector(vec![(0, 1).into(), (1, 2).into()]);
    let multiplier = SparseVector::<i32>::from_element_list(
        &length,
        &multiplier_element_list,
        &First::<i32, i32, i32>::new(),
    )
    .unwrap();

    let multiplicant_element_list = MatrixElementList::<i32>::from_element_vector(vec![
        (0, 0, 5).into(),
        (1, 0, 6).into(),
        (0, 1, 7).into(),
        (1, 1, 8).into(),
    ]);
    let multiplicant = SparseMatrix::<i32>::from_element_list(
        &size,
        &multiplicant_element_list,
        &First::<i32, i32, i32>::new(),
    )
    .unwrap();

    // Test multiplication of full matrices
    matrix_multiplier
        .apply(&multiplier, &multiplicant, &mut product)
        .unwrap();

    assert_eq!(product.get_element_value(&0).unwrap(), 17);
    assert_eq!(product.get_element_value(&1).unwrap(), 23);

    let expected_product =
        VectorElementList::<i32>::from_element_vector(vec![(0, 17).into(), (1, 23).into()]);
    let product_element_list = product.get_element_list();
    assert_eq!(expected_product, product_element_list);

    // test the use of an accumulator
    let accumulator = Box::new(Plus::<i32, i32, i32>::new());
    let matrix_multiplier_with_accumulator =
        VectorMatrixMultiplicationOperator::<i32, i32, i32>::new(
            &semiring,
            &options,
            Some(accumulator),
        );

    matrix_multiplier_with_accumulator
        .apply(&multiplier, &multiplicant, &mut product)
        .unwrap();

    assert_eq!(product.get_element_value(&0).unwrap(), 17 * 2);
    assert_eq!(product.get_element_value(&1).unwrap(), 23 * 2);

    // test the use of a mask
    let mask_element_list =
        VectorElementList::<u8>::from_element_vector(vec![(0, 3).into(), (1, 0).into()]);
    let mask = SparseVector::<u8>::from_element_list(
        &length,
        &mask_element_list,
        &First::<u8, u8, u8>::new(),
    )
    .unwrap();

    let matrix_multiplier =
        VectorMatrixMultiplicationOperator::<i32, i32, i32>::new(&semiring, &options, None);

    let mut product = SparseVector::<i32>::new(&length);

    matrix_multiplier
        .apply_with_mask(&mask.into(), &multiplier, &multiplicant, &mut product)
        .unwrap();

    assert_eq!(product.get_element_value(&0).unwrap(), 17);
    assert_eq!(product.get_element_value(&1).unwrap(), 0);
}
