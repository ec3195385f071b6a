use graphblas_sparse_linear_algebra::operators::binary_operator::{First, Plus};
use graphblas_sparse_linear_algebra::operators::options::OperatorOptions;
use graphblas_sparse_linear_algebra::operators::reduce::BinaryOperatorReducer;
use graphblas_sparse_linear_algebra::value_types::sparse_matrix::{
    MatrixElementList, Size, SparseMatrix,
};
use graphblas_sparse_linear_algebra::value_types::sparse_vector::{SparseVector, VectorElementList};

#[test]
fn test_binary_operator_reducer() {
    let element_list = MatrixElementList::<u8>::from_element_vector(vec![
        (1, 1, 1).into(),
        (1, 5, 1).into(),
        (2, 1, 2).into(),
        (4, 2, 4).into(),
        (5, 2, 5).into(),
    ]);

    let matrix_size: Size = (10, 15).into();
    let matrix = SparseMatrix::<u8>::from_element_list(
        &matrix_size,
        &element_list,
        &First::<u8, u8, u8>::new(),
    )
    .unwrap();

    let mut product_vector = SparseVector::<u8>::new(&matrix_size.row_height());

    let reducer = BinaryOperatorReducer::new(
        &Plus::<u8, u8, u8>::new(),
        &OperatorOptions::new_default(),
        None,
    );

    reducer.to_vector(&matrix, &mut product_vector).unwrap();

    println!("{:?}", product_vector.get_element_list());

    assert_eq!(product_vector.number_of_stored_elements(), 4);
    assert_eq!(product_vector.get_element_value(&1).unwrap(), 2);
    assert_eq!(product_vector.get_element_value(&2).unwrap(), 2);
    assert_eq!(product_vector.get_element_value(&9).unwrap(), 0);

    let mask_element_list = VectorElementList::<u8>::from_element_vector(vec![
        (1, 1).into(),
        (2, 2).into(),
        (4, 4).into(),
        // (5, 5).into(),
    ]);

    let mask = SparseVector::<u8>::from_element_list(
        &matrix_size.row_height(),
        &mask_element_list,
        &First::<u8, u8, u8>::new(),
    )
    .unwrap();

    let mut product_vector = SparseVector::<u8>::new(&matrix_size.row_height());

    reducer
        .to_vector_with_mask(&matrix, &mut product_vector, &mask.into())
        .unwrap();

    println!("{:?}", matrix.get_element_list());
    println!("{:?}", product_vector.get_element_list());

    assert_eq!(product_vector.number_of_stored_elements(), 3);
    assert_eq!(product_vector.get_element_value(&1).unwrap(), 2);
    assert_eq!(product_vector.get_element_value(&2).unwrap(), 2);
    assert_eq!(product_vector.get_element_value(&5).unwrap(), 0);
    assert_eq!(product_vector.get_element_value(&9).unwrap(), 0);
}
