use graphblas_sparse_linear_algebra::error::SparseLinearAlgebraError;
use graphblas_sparse_linear_algebra::operators::{
    First, InsertScalarIntoMatrix, InsertScalarIntoMatrixTrait, InsertScalarIntoSubVector,
    InsertScalarIntoSubVectorTrait, InsertVectorIntoVector, InsertVectorIntoVectorTrait,
    MatrixMask, OperatorOptions, ParallelismHint, Plus, VectorMask,
};
use graphblas_sparse_linear_algebra::util::ElementIndexSelector;
use graphblas_sparse_linear_algebra::value_types::sparse_matrix::{
    MatrixElement, MatrixElementList, SparseMatrix,
};
use graphblas_sparse_linear_algebra::value_types::sparse_vector::{
    SparseVector, VectorElement, VectorElementList,
};

fn matrix(size: (usize, usize), elements: Vec<(usize, usize, i32)>) -> SparseMatrix<i32> {
    let list = MatrixElementList::<i32>::from_element_vector(
        elements.into_iter().map(MatrixElement::from).collect(),
    );
    SparseMatrix::<i32>::from_element_list(&size.into(), &list, &First::<i32, i32, i32>::new()).unwrap()
}

fn vector(length: usize, elements: Vec<(usize, i32)>) -> SparseVector<i32> {
    let list = VectorElementList::<i32>::from_element_vector(
        elements.into_iter().map(VectorElement::from).collect(),
    );
    SparseVector::<i32>::from_element_list(&length, &list, &First::<i32, i32, i32>::new()).unwrap()
}

fn clearing() -> OperatorOptions {
    OperatorOptions::new(true, false, false, ParallelismHint::Default)
}

#[test]
fn scalar_is_inserted_into_a_matrix_under_a_mask_over_the_matrix() {
    let rows = vec![2, 0];
    let options = OperatorOptions::new_default();
    let start = matrix((3, 3), vec![(0, 0, 1), (0, 1, 2), (1, 1, 3)]);
    let mut target = start.clone();
    let plus = Plus::<i32, i32, i32>::new();
    InsertScalarIntoMatrix::<i32, i32>::new(&options, Some(&plus))
        .apply(&mut target, &ElementIndexSelector::Index(&rows), &ElementIndexSelector::Index(&vec![1]), &10)
        .unwrap();
    assert_eq!(target, matrix((3, 3), vec![(0, 0, 1), (0, 1, 12), (1, 1, 3), (2, 1, 10)]));

    // the mask lies over the whole matrix, and so does the clearing
    let mask = MatrixMask::value(matrix((3, 3), vec![(0, 0, 1), (1, 1, 1), (2, 0, 0), (2, 2, 1)]));
    let mut target = start.clone();
    InsertScalarIntoMatrix::<i32, i32>::new(&clearing(), None)
        .apply_with_mask(&mut target, &ElementIndexSelector::Index(&rows), &ElementIndexSelector::All, &5, &mask)
        .unwrap();
    assert_eq!(target, matrix((3, 3), vec![(0, 0, 5), (1, 1, 3), (2, 2, 5)]));

    let inserter = InsertScalarIntoMatrix::<i32, i32>::new(&options, None);
    assert_eq!(
        inserter.apply(&mut target, &ElementIndexSelector::All, &ElementIndexSelector::Index(&vec![3]), &0),
        Err(SparseLinearAlgebraError::IndexOutOfBounds)
    );
    assert_eq!(
        inserter.apply_with_mask(
            &mut target,
            &ElementIndexSelector::Index(&rows),
            &ElementIndexSelector::All,
            &0,
            &MatrixMask::structural(matrix((2, 3), vec![]))
        ),
        Err(SparseLinearAlgebraError::ShapeMismatch)
    );
    assert_eq!(target, matrix((3, 3), vec![(0, 0, 5), (1, 1, 3), (2, 2, 5)]));
}

#[test]
fn scalar_is_inserted_into_a_sub_vector_under_a_mask_over_the_selection() {
    let indices = vec![4, 1, 2];
    let selection = ElementIndexSelector::Index(&indices);
    let start = vector(5, vec![(0, 1), (1, 2), (2, 3), (4, 5)]);
    let mut target = start.clone();
    let plus = Plus::<i32, i32, i32>::new();
    InsertScalarIntoSubVector::<i32, i32>::new(&OperatorOptions::new_default(), Some(&plus))
        .apply(&mut target, &ElementIndexSelector::Index(&vec![3, 4]), &10)
        .unwrap();
    assert_eq!(target, vector(5, vec![(0, 1), (1, 2), (2, 3), (3, 10), (4, 15)]));

    // the mask names places of the selection: place 0 is index 4, place 2 is index 2
    let mask = VectorMask::value(vector(3, vec![(0, 1), (2, 0)]));
    let mut target = start.clone();
    InsertScalarIntoSubVector::<i32, i32>::new(&clearing(), None)
        .apply_with_mask(&mut target, &selection, &7, &mask)
        .unwrap();
    assert_eq!(target, vector(5, vec![(0, 1), (4, 7)]));

    let mut target = start.clone();
    let inserter = InsertScalarIntoSubVector::<i32, i32>::new(&OperatorOptions::new_default(), None);
    inserter.apply_with_mask(&mut target, &selection, &7, &mask).unwrap();
    assert_eq!(target, vector(5, vec![(0, 1), (1, 2), (2, 3), (4, 7)]));

    assert_eq!(
        inserter.apply(&mut target, &ElementIndexSelector::Index(&vec![5]), &0),
        Err(SparseLinearAlgebraError::IndexOutOfBounds)
    );
    assert_eq!(
        inserter.apply_with_mask(&mut target, &selection, &0, &VectorMask::structural(vector(5, vec![]))),
        Err(SparseLinearAlgebraError::ShapeMismatch)
    );
    assert_eq!(target, vector(5, vec![(0, 1), (1, 2), (2, 3), (4, 7)]));
}

#[test]
fn vector_is_inserted_into_a_vector() {
    let indices = vec![3, 1, 3];
    let selection = ElementIndexSelector::Index(&indices);
    let to_insert = vector(3, vec![(0, 10), (1, 20)]);
    let start = vector(5, vec![(0, 1), (1, 2), (3, 4)]);
    let mut target = start.clone();
    // index 3 is selected twice: its last place is written, which is empty
    InsertVectorIntoVector::<i32, i32>::new(&OperatorOptions::new_default(), None)
        .apply(&mut target, &selection, &to_insert)
        .unwrap();
    assert_eq!(target, vector(5, vec![(0, 1), (1, 20)]));

    let plus = Plus::<i32, i32, i32>::new();
    let mut target = start.clone();
    InsertVectorIntoVector::<i32, i32>::new(&clearing(), Some(&plus))
        .apply_with_mask(
            &mut target,
            &selection,
            &to_insert,
            &VectorMask::structural(vector(5, vec![(1, 0), (3, 0), (4, 0)])),
        )
        .unwrap();
    assert_eq!(target, vector(5, vec![(1, 22), (3, 4)]));

    let mut copy = vector(5, vec![]);
    let inserter = InsertVectorIntoVector::<i32, i32>::new(&OperatorOptions::new_default(), None);
    inserter.apply(&mut copy, &ElementIndexSelector::All, &start).unwrap();
    assert_eq!(copy, start);

    assert_eq!(
        inserter.apply(&mut copy, &ElementIndexSelector::All, &to_insert),
        Err(SparseLinearAlgebraError::DimensionMismatch)
    );
    assert_eq!(
        inserter.apply(&mut copy, &ElementIndexSelector::Index(&vec![0, 1, 5]), &to_insert),
        Err(SparseLinearAlgebraError::IndexOutOfBounds)
    );
    assert_eq!(
        inserter.apply_with_mask(&mut copy, &selection, &to_insert, &VectorMask::value(vector(3, vec![]))),
        Err(SparseLinearAlgebraError::ShapeMismatch)
    );
    assert_eq!(copy, start);
}
