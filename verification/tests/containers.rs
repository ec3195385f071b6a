use graphblas_sparse_linear_algebra::error::SparseLinearAlgebraError;
use graphblas_sparse_linear_algebra::operators::binary_operator::{
    BinaryOperator, BinaryOperatorType, First, Minus, Plus, Second, Times,
};
use graphblas_sparse_linear_algebra::operators::monoid::{
    Any, Equal, LogicalAnd, LogicalExclusiveOr, LogicalOr, Max, Min, Monoid, MonoidType,
};
use graphblas_sparse_linear_algebra::operators::semiring::{MinPlus, PlusTimes, Semiring};
use graphblas_sparse_linear_algebra::value_types::sparse_matrix::{
    Coordinate, MatrixElement, MatrixElementList, Size, SparseMatrix,
};
use graphblas_sparse_linear_algebra::value_types::sparse_vector::{
    SparseVector, VectorElement, VectorElementList,
};
use graphblas_sparse_linear_algebra::value_types::value_type::{zero, ValueType};

#[test]
fn integer_arithmetic_wraps_around() {
    assert_eq!(BinaryOperatorType::Plus.evaluate(&200u8, &100u8), 44);
    assert_eq!(BinaryOperatorType::Minus.evaluate(&3u8, &5u8), 254);
    assert_eq!(BinaryOperatorType::Times.evaluate(&200u8, &100u8), 32);
    assert_eq!(BinaryOperatorType::Plus.evaluate(&127i8, &1i8), -128);
    assert_eq!(BinaryOperatorType::Minus.evaluate(&-128i8, &1i8), 127);
    assert_eq!(BinaryOperatorType::Times.evaluate(&-128i8, &-1i8), -128);
    assert_eq!(BinaryOperatorType::Plus.evaluate(&u64::MAX, &2u64), 1);
    assert_eq!(BinaryOperatorType::Times.evaluate(&i64::MAX, &2i64), -2);
    assert_eq!(BinaryOperatorType::Plus.evaluate(&65535u16, &1u16), 0);
    assert_eq!(BinaryOperatorType::Minus.evaluate(&i16::MIN, &1i16), i16::MAX);
    assert_eq!(BinaryOperatorType::Times.evaluate(&65536u32, &65536u32), 0);
    assert_eq!(BinaryOperatorType::Plus.evaluate(&i32::MAX, &i32::MAX), -2);
}

#[test]
fn operators_on_one_domain() {
    assert_eq!(BinaryOperatorType::First.evaluate(&3i32, &9i32), 3);
    assert_eq!(BinaryOperatorType::Second.evaluate(&3i32, &9i32), 9);
    assert_eq!(BinaryOperatorType::Min.evaluate(&3i32, &-9i32), -9);
    assert_eq!(BinaryOperatorType::Max.evaluate(&3i32, &-9i32), 3);
    assert_eq!(BinaryOperatorType::LogicalOr.evaluate(&0i32, &7i32), 1);
    assert_eq!(BinaryOperatorType::LogicalAnd.evaluate(&0i32, &7i32), 0);
    assert_eq!(BinaryOperatorType::LogicalExclusiveOr.evaluate(&5i32, &7i32), 0);
    assert_eq!(BinaryOperatorType::Equal.evaluate(&5i32, &5i32), 1);
    assert_eq!(BinaryOperatorType::Equal.evaluate(&5i32, &6i32), 0);

    assert_eq!(BinaryOperatorType::Plus.evaluate(&true, &true), true);
    assert_eq!(BinaryOperatorType::Minus.evaluate(&true, &true), false);
    assert_eq!(BinaryOperatorType::Times.evaluate(&true, &false), false);
    assert_eq!(BinaryOperatorType::Min.evaluate(&true, &false), false);
    assert_eq!(BinaryOperatorType::Max.evaluate(&true, &false), true);
    assert_eq!(BinaryOperatorType::LogicalExclusiveOr.evaluate(&true, &false), true);
    assert_eq!(BinaryOperatorType::Equal.evaluate(&false, &false), true);
}

#[test]
fn domains_have_a_zero_and_a_truth_predicate() {
    assert_eq!(zero::<u8>(), 0);
    assert_eq!(zero::<i64>(), 0);
    assert_eq!(zero::<bool>(), false);
    assert_eq!(u16::from_boolean(true), 1);
    assert_eq!(i32::from_boolean(false), 0);
    assert!(3u8.as_boolean());
    assert!((-1i16).as_boolean());
    assert!(!0u64.as_boolean());
    assert!(!false.as_boolean());
    assert!((-5i8).less_than(&3i8));
    assert!(!5u32.less_than(&3u32));
    assert!(false.less_than(&true));
    assert!(7i64.equals(&7i64));
    assert_eq!(7u16.minus(&8u16), 65535);
    assert_eq!(7i32.times(&8i32), 56);
    assert_eq!(7u64.plus(&8u64), 15);
}

#[test]
fn operator_objects_hand_out_their_names() {
    assert_eq!(First::<u8, u8, u8>::new().graphblas_type(), BinaryOperatorType::First);
    assert_eq!(Second::<u8, u8, u8>::new().graphblas_type(), BinaryOperatorType::Second);
    assert_eq!(Plus::<i16, i16, i16>::new().graphblas_type(), BinaryOperatorType::Plus);
    assert_eq!(Minus::<i64, i64, i64>::new().graphblas_type(), BinaryOperatorType::Minus);
    assert_eq!(Times::<bool, bool, bool>::new().graphblas_type(), BinaryOperatorType::Times);
    assert_eq!(Min::<u8>::new().graphblas_type(), MonoidType::Min);
    assert_eq!(Max::<u8>::new().graphblas_type(), MonoidType::Max);
    assert_eq!(Any::<bool>::new().graphblas_type(), MonoidType::Any);
    assert_eq!(LogicalOr::<bool>::new().graphblas_type(), MonoidType::LogicalOr);
    assert_eq!(LogicalAnd::<bool>::new().graphblas_type(), MonoidType::LogicalAnd);
    assert_eq!(LogicalExclusiveOr::<bool>::new().graphblas_type(), MonoidType::LogicalExclusiveOr);
    assert_eq!(Equal::<bool>::new().graphblas_type(), MonoidType::Equal);
    assert_eq!(MonoidType::Any.to_binary_operator(), BinaryOperatorType::First);
    assert_eq!(MonoidType::Equal.to_binary_operator(), BinaryOperatorType::Equal);
    let plus_times = PlusTimes::<u8, u8, u8>::new().graphblas_type();
    assert_eq!(plus_times.addition, MonoidType::Plus);
    assert_eq!(plus_times.multiplication, BinaryOperatorType::Times);
    let min_plus = MinPlus::<u8, u8, u8>::new().graphblas_type();
    assert_eq!(min_plus.addition, MonoidType::Min);
    assert_eq!(min_plus.multiplication, BinaryOperatorType::Plus);
}

#[test]
fn matrix_element_list_keeps_its_elements_in_order() {
    let mut list = MatrixElementList::<u8>::new();
    assert_eq!(list.length(), 0);
    list.push_element(MatrixElement::from_triple(3, 4, 5));
    list.append_element_vec(vec![(1, 2, 3).into(), (3, 4, 6).into()]);
    assert_eq!(list.length(), 3);
    assert_eq!(list.row_indices_ref(), &[3, 1, 3]);
    assert_eq!(list.column_indices_ref(), &[4, 2, 4]);
    assert_eq!(list.values_ref(), &[5, 3, 6]);
    assert_eq!(list.row_index(1), Ok(&1));
    assert_eq!(list.column_index(2), Ok(&4));
    assert_eq!(list.row_index(3), Err(SparseLinearAlgebraError::IndexOutOfBounds));
    assert_eq!(list.column_index(17), Err(SparseLinearAlgebraError::IndexOutOfBounds));
    let element = list.element(0);
    assert_eq!(element.coordinate(), Coordinate::new(3, 4));
    assert_eq!(element, MatrixElement::new((3, 4).into(), 5));
    assert_eq!(list.clone(), list);
    assert_eq!(MatrixElementList::<u8>::with_capacity(10).length(), 0);

    let from_vectors = MatrixElementList::<u8>::from_vectors(vec![3, 1, 3], vec![4, 2, 4], vec![5, 3, 6]);
    assert_eq!(from_vectors, Ok(list));
    assert_eq!(
        MatrixElementList::<u8>::from_vectors(vec![3, 1], vec![4, 2, 4], vec![5, 3, 6]),
        Err(SparseLinearAlgebraError::DimensionMismatch)
    );
    assert_eq!(
        MatrixElementList::<u8>::from_vectors(vec![3, 1, 3], vec![4, 2, 4], vec![5, 3]),
        Err(SparseLinearAlgebraError::DimensionMismatch)
    );
}

#[test]
fn vector_element_list_keeps_its_elements_in_order() {
    let mut list = VectorElementList::<i16>::new();
    list.push_element(VectorElement::from_pair(3, -5));
    list.append_element_vec(vec![(1, 2).into(), (3, 6).into()]);
    assert_eq!(list.length(), 3);
    assert_eq!(list.indices_ref(), &[3, 1, 3]);
    assert_eq!(list.values_ref(), &[-5, 2, 6]);
    assert_eq!(list.index(2), Ok(&3));
    assert_eq!(list.index(3), Err(SparseLinearAlgebraError::IndexOutOfBounds));
    assert_eq!(list.element(1), VectorElement::new(1, 2));
    assert_eq!(list.element(1).index(), 1);
    assert_eq!(list.element(1).value(), 2);
    assert_eq!(list.clone(), list);
    assert_eq!(VectorElementList::<i16>::with_capacity(4).length(), 0);
    assert_eq!(VectorElementList::<i16>::from_vectors(vec![3, 1, 3], vec![-5, 2, 6]), Ok(list));
    assert_eq!(
        VectorElementList::<i16>::from_vectors(vec![3, 1, 3], vec![-5, 2]),
        Err(SparseLinearAlgebraError::DimensionMismatch)
    );
}

#[test]
fn matrix_reads_back_what_a_list_names_and_zero_elsewhere() {
    let list = MatrixElementList::<i32>::from_element_vector(vec![
        (2, 1, 7).into(),
        (0, 3, -4).into(),
        (2, 0, 9).into(),
    ]);
    let size: Size = (3, 4).into();
    let matrix = SparseMatrix::<i32>::from_element_list(&size, &list, &First::<i32, i32, i32>::new()).unwrap();
    assert_eq!(matrix.number_of_stored_elements(), 3);
    assert_eq!(matrix.row_height(), 3);
    assert_eq!(matrix.column_width(), 4);
    for row in 0..3 {
        for column in 0..4 {
            let expected = match (row, column) {
                (2, 1) => 7,
                (0, 3) => -4,
                (2, 0) => 9,
                _ => 0,
            };
            assert_eq!(matrix.get_element_value(&(row, column).into()), Ok(expected));
        }
    }
    assert_eq!(matrix.get_element(&(2, 1).into()), Some(7));
    assert_eq!(matrix.get_element(&(1, 1).into()), None);
    assert_eq!(
        matrix.get_element_value(&(3, 0).into()),
        Err(SparseLinearAlgebraError::IndexOutOfBounds)
    );
    assert_eq!(
        matrix.get_element_value(&(0, 4).into()),
        Err(SparseLinearAlgebraError::IndexOutOfBounds)
    );
    let listed = matrix.get_element_list();
    assert_eq!(listed.row_indices_ref(), &[0, 2, 2]);
    assert_eq!(listed.column_indices_ref(), &[3, 0, 1]);
    assert_eq!(listed.values_ref(), &[-4, 9, 7]);
    assert_eq!(matrix.elements().len(), 3);
}

#[test]
fn repeated_positions_of_a_list_are_combined_by_the_operator() {
    let list = MatrixElementList::<i32>::from_element_vector(vec![
        (1, 1, 10).into(),
        (0, 0, 1).into(),
        (1, 1, 3).into(),
        (1, 1, 2).into(),
    ]);
    let size: Size = (2, 2).into();
    let read = |operator: &dyn BinaryOperator<i32, i32, i32>| {
        SparseMatrix::<i32>::from_element_list(&size, &list, operator)
            .unwrap()
            .get_element_value(&(1, 1).into())
            .unwrap()
    };
    assert_eq!(read(&First::<i32, i32, i32>::new()), 10);
    assert_eq!(read(&Second::<i32, i32, i32>::new()), 2);
    assert_eq!(read(&Plus::<i32, i32, i32>::new()), 15);
    assert_eq!(read(&Minus::<i32, i32, i32>::new()), 5);
    assert_eq!(read(&Times::<i32, i32, i32>::new()), 60);

    let vector_list = VectorElementList::<u8>::from_element_vector(vec![(4, 250).into(), (4, 10).into()]);
    let vector = SparseVector::<u8>::from_element_list(&5, &vector_list, &Plus::<u8, u8, u8>::new()).unwrap();
    assert_eq!(vector.get_element_value(&4), Ok(4));
    assert_eq!(vector.number_of_stored_elements(), 1);
}

#[test]
fn elements_outside_the_container_are_refused() {
    let list = MatrixElementList::<i32>::from_element_vector(vec![(0, 0, 1).into(), (2, 0, 1).into()]);
    assert_eq!(
        SparseMatrix::<i32>::from_element_list(&(2, 2).into(), &list, &First::<i32, i32, i32>::new()).err(),
        Some(SparseLinearAlgebraError::IndexOutOfBounds)
    );
    let list = VectorElementList::<i32>::from_element_vector(vec![(0, 1).into(), (2, 1).into()]);
    assert_eq!(
        SparseVector::<i32>::from_element_list(&2, &list, &First::<i32, i32, i32>::new()).err(),
        Some(SparseLinearAlgebraError::IndexOutOfBounds)
    );
    let mut matrix = SparseMatrix::<u8>::new(&(2, 2).into());
    assert_eq!(matrix.set_element((1, 2, 5).into()), Err(SparseLinearAlgebraError::IndexOutOfBounds));
    assert_eq!(matrix.number_of_stored_elements(), 0);
    let mut vector = SparseVector::<u8>::new(&2);
    assert_eq!(vector.set_element((2, 5).into()), Err(SparseLinearAlgebraError::IndexOutOfBounds));
    assert_eq!(vector.number_of_stored_elements(), 0);
    assert_eq!(vector.get_element_value(&2), Err(SparseLinearAlgebraError::IndexOutOfBounds));
}

#[test]
fn elements_are_set_replaced_and_dropped() {
    let mut matrix = SparseMatrix::<u8>::new(&(3, 3).into());
    for (row, column, value) in [(2, 2, 1), (0, 1, 2), (1, 0, 3), (0, 0, 4), (2, 0, 5), (0, 1, 6)] {
        matrix.set_element((row, column, value).into()).unwrap();
    }
    let listed = matrix.get_element_list();
    assert_eq!(listed.row_indices_ref(), &[0, 0, 1, 2, 2]);
    assert_eq!(listed.column_indices_ref(), &[0, 1, 0, 0, 2]);
    assert_eq!(listed.values_ref(), &[4, 6, 3, 5, 1]);
    matrix.drop_element(&(1, 0).into());
    matrix.drop_element(&(1, 1).into());
    assert_eq!(matrix.number_of_stored_elements(), 4);
    assert_eq!(matrix.get_element_value(&(1, 0).into()), Ok(0));

    let transposed = matrix.transposed();
    assert_eq!(transposed.size(), Size::new(3, 3));
    assert_eq!(transposed.get_element_value(&(1, 0).into()), Ok(6));
    assert_eq!(transposed.get_element_value(&(0, 2).into()), Ok(5));
    assert_eq!(transposed.number_of_stored_elements(), 4);

    let mut vector = SparseVector::<i8>::new(&4);
    vector.set_element((3, -3).into()).unwrap();
    vector.set_element((1, 1).into()).unwrap();
    vector.set_element((3, 7).into()).unwrap();
    assert_eq!(vector.length(), 4);
    assert_eq!(vector.get_element(3), Some(7));
    assert_eq!(vector.get_element(0), None);
    let listed = vector.get_element_list();
    assert_eq!(listed.indices_ref(), &[1, 3]);
    assert_eq!(listed.values_ref(), &[1, 7]);
    vector.drop_element(3);
    assert_eq!(vector.number_of_stored_elements(), 1);
    assert_eq!(vector.clone().get_element_value(&1), Ok(1));
    assert_eq!(vector.as_column().size(), Size::new(4, 1));
}
