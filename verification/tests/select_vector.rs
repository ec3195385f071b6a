use graphblas_sparse_linear_algebra::operators::binary_operator::First;
use graphblas_sparse_linear_algebra::operators::options::OperatorOptions;
use graphblas_sparse_linear_algebra::operators::select::{
    SelectVectorGreaterThanScalar, SelectVectorLessThanScalar, VectorSelector,
};
use graphblas_sparse_linear_algebra::value_types::sparse_vector::{SparseVector, VectorElementList};

#[test]
fn test_zero_scalar_selector() {
    let element_list = VectorElementList::<u8>::from_element_vector(vec![
        (0, 1).into(),
        (1, 2).into(),
        (2, 3).into(),
        (3, 4).into(),
    ]);

    let vector_length: usize = 4;
    let vector = SparseVector::<u8>::from_element_list(
        &vector_length,
        &element_list,
        &First::<u8, u8, u8>::new(),
    )
    .unwrap();

    let mut product_vector = SparseVector::<u8>::new(&vector_length);

    let selector = VectorSelector::new(&OperatorOptions::new_default(), None);

    selector.positive(&vector, &mut product_vector).unwrap();

    println!("{:?}", product_vector.get_element_list());

    assert_eq!(product_vector.number_of_stored_elements(), 4);
    assert_eq!(product_vector.get_element_value(&0).unwrap(), 1);
    assert_eq!(product_vector.get_element_value(&1).unwrap(), 2);
    assert_eq!(product_vector.get_element_value(&2).unwrap(), 3);
    assert_eq!(product_vector.get_element_value(&3).unwrap(), 4);

    selector.negative(&vector, &mut product_vector).unwrap();

    println!("{:?}", product_vector.get_element_list());

    assert_eq!(product_vector.number_of_stored_elements(), 0);
    assert_eq!(product_vector.get_element_value(&0).unwrap(), 0);
    assert_eq!(product_vector.get_element_value(&1).unwrap(), 0);
    assert_eq!(product_vector.get_element_value(&2).unwrap(), 0);
    assert_eq!(product_vector.get_element_value(&3).unwrap(), 0);
}

#[test]
fn test_scalar_vector_selector() {
    let element_list = VectorElementList::<u8>::from_element_vector(vec![
        (0, 1).into(),
        (1, 2).into(),
        (2, 3).into(),
        (3, 4).into(),
    ]);

    let vector_length: usize = 4;
    let vector = SparseVector::<u8>::from_element_list(
        &vector_length,
        &element_list,
        &First::<u8, u8, u8>::new(),
    )
    .unwrap();

    let mut product_vector = SparseVector::<u8>::new(&vector_length);

    let selector = VectorSelector::new(&OperatorOptions::new_default(), None);

    selector
        .greater_than_scalar(&vector, &mut product_vector, &1)
        .unwrap();

    println!("{:?}", product_vector.get_element_list());

    assert_eq!(product_vector.number_of_stored_elements(), 3);
    assert_eq!(product_vector.get_element_value(&0).unwrap(), 0);
    assert_eq!(product_vector.get_element_value(&1).unwrap(), 2);
    assert_eq!(product_vector.get_element_value(&2).unwrap(), 3);
    assert_eq!(product_vector.get_element_value(&3).unwrap(), 4);

    selector
        .less_than_scalar(&vector, &mut product_vector, &3)
        .unwrap();

    println!("{:?}", product_vector.get_element_list());

    assert_eq!(product_vector.number_of_stored_elements(), 2);
    assert_eq!(product_vector.get_element_value(&0).unwrap(), 1);
    assert_eq!(product_vector.get_element_value(&1).unwrap(), 2);
    assert_eq!(product_vector.get_element_value(&2).unwrap(), 0);
    assert_eq!(product_vector.get_element_value(&3).unwrap(), 0);
}
