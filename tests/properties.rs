use vector_operations::{add, matrix_vec_multiply, scale, sub};

#[test]
fn add_and_sub_work_entry_by_entry() {
    let a: [i64; 4] = [10, -3, 0, 7];
    let b: [i64; 4] = [1, 4, -9, 7];
    let sum = add(&a, &b);
    let diff = sub(&a, &b);
    for i in 0..4 {
        assert_eq!(sum[i], a[i] + b[i]);
        assert_eq!(diff[i], a[i] - b[i]);
    }
    assert_eq!(sum, [11, 1, -9, 14]);
    assert_eq!(diff, [9, -7, 9, 0]);
}

#[test]
fn add_is_commutative() {
    let a: [i32; 3] = [3, -8, 12];
    let b: [i32; 3] = [-1, 5, 100];
    assert_eq!(add(&a, &b), add(&b, &a));
}

#[test]
fn sub_of_self_is_zero() {
    let a: [i32; 4] = [9, -2, 0, 31];
    assert_eq!(sub(&a, &a), [0, 0, 0, 0]);
}

#[test]
fn scale_by_one_and_zero() {
    let v: [i64; 3] = [4, -6, 13];
    assert_eq!(scale(&v, &1), v);
    assert_eq!(scale(&v, &0), [0, 0, 0]);
}

#[test]
fn scale_distributes_over_add() {
    let a: [i32; 3] = [1, -2, 3];
    let b: [i32; 3] = [4, 5, -6];
    let k: i32 = -3;
    assert_eq!(scale(&add(&a, &b), &k), add(&scale(&a, &k), &scale(&b, &k)));
    assert_eq!(scale(&add(&a, &b), &k), [-15, -9, 9]);
}

#[test]
fn matrix_vec_multiply_is_additive() {
    let m: [[i32; 2]; 2] = [[1, 2], [-3, 4]];
    let v1: [i32; 2] = [5, 7];
    let v2: [i32; 2] = [-2, 1];
    assert_eq!(
        matrix_vec_multiply(&m, &add(&v1, &v2)),
        add(&matrix_vec_multiply(&m, &v1), &matrix_vec_multiply(&m, &v2))
    );
}

#[test]
fn identity_matrix_gives_vector_back() {
    let id: [[i64; 3]; 3] = [[1, 0, 0], [0, 1, 0], [0, 0, 1]];
    let v: [i64; 3] = [8, -5, 21];
    assert_eq!(matrix_vec_multiply(&id, &v), v);
}

#[test]
fn empty_vectors() {
    let a: [i32; 0] = [];
    let b: [i32; 0] = [];
    assert_eq!(add(&a, &b), []);
    assert_eq!(sub(&a, &b), []);
    assert_eq!(scale(&a, &7), []);
}

#[test]
fn product_with_no_columns_is_zero() {
    let m: [[i32; 3]; 0] = [];
    let v: [i32; 0] = [];
    assert_eq!(matrix_vec_multiply(&m, &v), [0, 0, 0]);
}

#[test]
fn matrix_is_held_by_columns() {
    // Three rows, two columns: column 0 is (1, 2, 3), column 1 is (4, 5, 6).
    let m: [[i64; 3]; 2] = [[1, 2, 3], [4, 5, 6]];
    let v: [i64; 2] = [10, -1];
    assert_eq!(matrix_vec_multiply(&m, &v), [6, 15, 24]);
}

#[test]
fn results_at_the_edge_of_the_type() {
    let a: [i32; 2] = [i32::MAX - 1, i32::MIN + 1];
    let b: [i32; 2] = [1, -1];
    assert_eq!(add(&a, &b), [i32::MAX, i32::MIN]);
    assert_eq!(sub(&b, &b), [0, 0]);
    let big: [i64; 1] = [i64::MAX / 2];
    assert_eq!(scale(&big, &2), [i64::MAX - 1]);
}
