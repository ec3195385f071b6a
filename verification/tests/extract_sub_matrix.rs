use graphblas_sparse_linear_algebra::operators::binary_operator::First;
use graphblas_sparse_linear_algebra::operators::extract::SubMatrixExtractor;
use graphblas_sparse_linear_algebra::operators::options::OperatorOptions;
use graphblas_sparse_linear_algebra::util::{ElementIndex, ElementIndexSelector};
use graphblas_sparse_linear_algebra::value_types::sparse_matrix::{MatrixElementList, SparseMatrix};

#[test]
fn test_matrix_extraction() {
    let element_list = MatrixElementList::<u8>::from_element_vector(vec![
        (1, 1, 1).into(),
        (2, 2, 2).into(),
        (2, 4, 10).into(),
        (2, 5, 11).into(),
    ]);

    let matrix = SparseMatrix::<u8>::from_element_list(
        &(10, 15).into(),
        &element_list,
        &First::<u8, u8, u8>::new(),
    )
    .unwrap();

    let mut sub_matrix = SparseMatrix::<u8>::new(&(3, 6).into());

    let rows_to_extract: Vec<ElementIndex> = (0..3).collect();
    let rows_to_extract = ElementIndexSelector::Index(&rows_to_extract);
    let columns_to_extract: Vec<ElementIndex> = (0..6).collect();
    let columns_to_extract = ElementIndexSelector::Index(&columns_to_extract);

    let extractor = SubMatrixExtractor::new(&OperatorOptions::new_default(), None);

    extractor
        .apply(
            &matrix,
            &rows_to_extract,
            &columns_to_extract,
            &mut sub_matrix,
        )
        .unwrap();

    assert_eq!(
        sub_matrix.number_of_stored_elements(),
        element_list.length()
    );
    assert_eq!(sub_matrix.get_element_value(&(2, 5).into()).unwrap(), 11);

    // Test extraction of duplicate rows
    let rows_to_extract = vec![1, 1, 1];
    let rows_to_extract = ElementIndexSelector::Index(&rows_to_extract);
    let columns_to_extract: Vec<ElementIndex> = (0..6).collect();
    let columns_to_extract = ElementIndexSelector::Index(&columns_to_extract);

    extractor
        .apply(
            &matrix,
            &rows_to_extract,
            &columns_to_extract,
            &mut sub_matrix,
        )
        .unwrap();

    assert_eq!(sub_matrix.number_of_stored_elements(), 3);
    assert_eq!(sub_matrix.get_element_value(&(1, 5).into()).unwrap(), 0);
    assert_eq!(sub_matrix.get_element_value(&(1, 1).into()).unwrap(), 1);
}
