use graphblas_sparse_linear_algebra::operators::binary_operator::First;
use graphblas_sparse_linear_algebra::operators::options::OperatorOptions;
use graphblas_sparse_linear_algebra::operators::subinsert::{
    InsertScalarIntoSubMatrix, InsertScalarIntoSubMatrixTrait,
};
use graphblas_sparse_linear_algebra::util::{ElementIndex, ElementIndexSelector};
use graphblas_sparse_linear_algebra::value_types::sparse_matrix::{
    MatrixElementList, Size, SparseMatrix,
};

#[test]
fn test_insert_scalar_into_matrix() {
    let element_list = MatrixElementList::<u8>::from_element_vector(vec![
        (1, 1, 1).into(),
        (2, 2, 2).into(),
        (2, 4, 10).into(),
        // (2, 5, 11).into(),
    ]);

    let matrix_size: Size = (10, 15).into();
    let mut matrix = SparseMatrix::<u8>::from_element_list(
        &matrix_size,
        &element_list,
        &First::<u8, u8, u8>::new(),
    )
    .unwrap();

    let mask_element_list = MatrixElementList::<bool>::from_element_vector(vec![
        // (1, 1, true).into(),
        (2, 2, true).into(),
        (2, 4, true).into(),
        (2, 5, true).into(),
    ]);
    let mask = SparseMatrix::<bool>::from_element_list(
        &(3, 6).into(),
        &mask_element_list,
        &First::<bool, bool, bool>::new(),
    )
    .unwrap();

    let rows_to_insert: Vec<ElementIndex> = (0..3).collect();
    let rows_to_insert = ElementIndexSelector::Index(&rows_to_insert);
    let columns_to_insert: Vec<ElementIndex> = (0..6).collect();
    let columns_to_insert = ElementIndexSelector::Index(&columns_to_insert);

    let insert_operator = InsertScalarIntoSubMatrix::new(&OperatorOptions::new_default(), None);

    let scalar_to_insert: u8 = 8;

    insert_operator
        .apply(
            &mut matrix,
            &rows_to_insert,
            &columns_to_insert,
            &scalar_to_insert,
        )
        .unwrap();

    assert_eq!(matrix.number_of_stored_elements(), 18);
    assert_eq!(matrix.get_element_value(&(0, 0).into()).unwrap(), 8);
    assert_eq!(matrix.get_element_value(&(2, 2).into()).unwrap(), 8);
    assert_eq!(matrix.get_element_value(&(2, 4).into()).unwrap(), 8);
    assert_eq!(matrix.get_element_value(&(9, 14).into()).unwrap(), 0);

    let mut matrix = SparseMatrix::<u8>::from_element_list(
        &matrix_size,
        &element_list,
        &First::<u8, u8, u8>::new(),
    )
    .unwrap();

    insert_operator
        .apply_with_mask(
            &mut matrix,
            &rows_to_insert,
            &columns_to_insert,
            &scalar_to_insert,
            &mask.into(),
        )
        .unwrap();

    println!("{:?}", matrix.get_element_list());

    assert_eq!(matrix.number_of_stored_elements(), 4);
    assert_eq!(matrix.get_element_value(&(0, 0).into()).unwrap(), 0);
    assert_eq!(matrix.get_element_value(&(2, 2).into()).unwrap(), 8);
    assert_eq!(matrix.get_element_value(&(2, 4).into()).unwrap(), 8);
    assert_eq!(matrix.get_element_value(&(2, 5).into()).unwrap(), 8);
    assert_eq!(matrix.get_element_value(&(1, 1).into()).unwrap(), 1);
}
