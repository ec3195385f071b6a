use graphblas_sparse_linear_algebra::operators::monoid::{Min, Monoid, MonoidType};

#[test]
fn new_binary_operator() {
    let min_monoid = Min::<i32>::new();
    let _graphblas_type = min_monoid.graphblas_type();
    assert_eq!(_graphblas_type, MonoidType::Min);
}
