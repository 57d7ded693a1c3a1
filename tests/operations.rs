use vector_operations::{add, matrix_vec_multiply, scale, sub};

#[test]
fn test_sub() {
    let a: [i32; 2] = [1, 2];
    let b = [5, 4];
    let expectedi32 = [-4, -2];
    assert_eq!(sub(&a, &b), expectedi32);
    let c: [i64; 2] = [1, 2];
    let d = [5, 4];
    let expectedi64 = [-4, -2];
    assert_eq!(sub(&c, &d), expectedi64);
}

#[test]
fn test_add() {
    let a = [1, 2, 3, 4, 5];
    let b = [5, 4, 3, 2, 1];
    let expected = [6, 6, 6, 6, 6];
    assert_eq!(add(&a, &b), expected);
}

#[test]
fn test_scale() {
    let a = [1, 2, 3, 4, 5];
    let expected = [5, 10, 15, 20, 25];
    assert_eq!(scale(&a, &5), expected);
}

#[test]
fn test_matrix_vec_multiply() {
    let matrix = [[1, 2], [-3, 4]];
    let vector = [5, 7];
    let expected = [-16, 38];
    assert_eq!(matrix_vec_multiply(&matrix, &vector), expected);
}
