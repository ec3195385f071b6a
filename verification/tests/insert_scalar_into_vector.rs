use graphblas_sparse_linear_algebra::operators::binary_operator::First;
use graphblas_sparse_linear_algebra::operators::insert::{
    InsertScalarIntoVector, InsertScalarIntoVectorTrait,
};
use graphblas_sparse_linear_algebra::operators::options::OperatorOptions;
use graphblas_sparse_linear_algebra::util::{ElementIndex, ElementIndexSelector};
use graphblas_sparse_linear_algebra::value_types::sparse_vector::{SparseVector, VectorElementList};

#[test]
fn test_insert_scalar_into_vector() {
    let element_list = VectorElementList::<u8>::from_element_vector(vec![
        (1, 1).into(),
        (2, 2).into(),
        (4, 10).into(),
        (5, 11).into(),
    ]);

    let vector_length: usize = 10;
    let mut vector = SparseVector::<u8>::from_element_list(
        &vector_length,
        &element_list,
        &First::<u8, u8, u8>::new(),
    )
    .unwrap();

    let mask_element_list = VectorElementList::<bool>::from_element_vector(vec![
        // (1, 1, true).into(),
        (2, true).into(),
        (4, true).into(),
        (5, true).into(),
    ]);
    let mask = SparseVector::<bool>::from_element_list(
        &vector_length,
        &mask_element_list,
        &First::<bool, bool, bool>::new(),
    )
    .unwrap();

    let indices_to_insert: Vec<ElementIndex> = (0..3).collect();
    let indices_to_insert = ElementIndexSelector::Index(&indices_to_insert);

    let insert_operator = InsertScalarIntoVector::new(&OperatorOptions::new_default(), None);

    let scalar_to_insert: u8 = 8;

    insert_operator
        .apply(&mut vector, &indices_to_insert, &scalar_to_insert)
        .unwrap();

    assert_eq!(vector.number_of_stored_elements(), 5);
    assert_eq!(vector.get_element_value(&0).unwrap(), 8);
    assert_eq!(vector.get_element_value(&2).unwrap(), 8);
    assert_eq!(vector.get_element_value(&3).unwrap(), 0);
    assert_eq!(vector.get_element_value(&5).unwrap(), 11);

    let mut vector = SparseVector::<u8>::from_element_list(
        &vector_length,
        &element_list,
        &First::<u8, u8, u8>::new(),
    )
    .unwrap();

    insert_operator
        .apply_with_mask(
            &mut vector,
            &indices_to_insert,
            &scalar_to_insert,
            &mask.into(),
        )
        .unwrap();

    assert_eq!(vector.number_of_stored_elements(), 4);
    assert_eq!(vector.get_element_value(&0).unwrap(), 0);
    assert_eq!(vector.get_element_value(&2).unwrap(), 8);
    assert_eq!(vector.get_element_value(&4).unwrap(), 10);
    assert_eq!(vector.get_element_value(&5).unwrap(), 11);
    assert_eq!(vector.get_element_value(&1).unwrap(), 1);
}
