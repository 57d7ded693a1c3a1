use crate::model::{
    all_fit, int_columns, ints, mat_vec, mat_vec_fits, row_sum, vec_add, vec_scale, vec_sub,
};
use crate::scalar::Scalar;
use vstd::array::array_fill_for_copy_types;
use vstd::prelude::*;

verus! {

broadcast use vstd::array::group_array_axioms;

/// Adds two vectors entry by entry.
///
/// Both vectors have length `F`, so their lengths cannot differ. Every
/// sum must fit `T`.
pub fn add<const F: usize, T: Scalar>(vec_a: &[T; F], vec_b: &[T; F]) -> (r: [T; F])
    requires
        all_fit::<T>(vec_add(ints(vec_a@), ints(vec_b@))),
    ensures
        ints(r@) == vec_add(ints(vec_a@), ints(vec_b@)),
        forall|i: int| 0 <= i < F ==> #[trigger] r[i].as_int() == vec_a[i].as_int() + vec_b[i].as_int(),
{
    let mut r: [T; F] = array_fill_for_copy_types(T::zero());
    let mut i: usize = 0;
    while i < F
        invariant
            i <= F,
            all_fit::<T>(vec_add(ints(vec_a@), ints(vec_b@))),
            forall|j: int| 0 <= j < i ==> r[j].as_int() == vec_a[j].as_int() + vec_b[j].as_int(),
        decreases F - i,
    {
        assert(T::fits(vec_add(ints(vec_a@), ints(vec_b@))[i as int]));
        r.set(i, vec_a[i].plus(vec_b[i]));
        i += 1;
    }
    assert(ints(r@) =~= vec_add(ints(vec_a@), ints(vec_b@)));
    r
}

/// Subtracts `vec_b` from `vec_a` entry by entry.
///
/// Both vectors have length `F`, so their lengths cannot differ. Every
/// difference must fit `T`.
pub fn sub<const F: usize, T: Scalar>(vec_a: &[T; F], vec_b: &[T; F]) -> (r: [T; F])
    requires
        all_fit::<T>(vec_sub(ints(vec_a@), ints(vec_b@))),
    ensures
        ints(r@) == vec_sub(ints(vec_a@), ints(vec_b@)),
        forall|i: int| 0 <= i < F ==> #[trigger] r[i].as_int() == vec_a[i].as_int() - vec_b[i].as_int(),
{
    let mut r: [T; F] = array_fill_for_copy_types(T::zero());
    let mut i: usize = 0;
    while i < F
        invariant
            i <= F,
            all_fit::<T>(vec_sub(ints(vec_a@), ints(vec_b@))),
            forall|j: int| 0 <= j < i ==> r[j].as_int() == vec_a[j].as_int() - vec_b[j].as_int(),
        decreases F - i,
    {
        assert(T::fits(vec_sub(ints(vec_a@), ints(vec_b@))[i as int]));
        r.set(i, vec_a[i].minus(vec_b[i]));
        i += 1;
    }
    assert(ints(r@) =~= vec_sub(ints(vec_a@), ints(vec_b@)));
    r
}

/// Multiplies every entry of `vec` by `scalar`.
///
/// Every product must fit `T`.
pub fn scale<const F: usize, T: Scalar>(vec: &[T; F], scalar: &T) -> (r: [T; F])
    requires
        all_fit::<T>(vec_scale(ints(vec@), scalar.as_int())),
    ensures
        ints(r@) == vec_scale(ints(vec@), scalar.as_int()),
        forall|i: int| 0 <= i < F ==> #[trigger] r[i].as_int() == vec[i].as_int() * scalar.as_int(),
{
    let mut r: [T; F] = array_fill_for_copy_types(T::zero());
    let mut i: usize = 0;
    while i < F
        invariant
            i <= F,
            all_fit::<T>(vec_scale(ints(vec@), scalar.as_int())),
            forall|j: int| 0 <= j < i ==> r[j].as_int() == vec[j].as_int() * scalar.as_int(),
        decreases F - i,
    {
        assert(T::fits(vec_scale(ints(vec@), scalar.as_int())[i as int]));
        r.set(i, vec[i].times(*scalar));
        i += 1;
    }
    assert(ints(r@) =~= vec_scale(ints(vec@), scalar.as_int()));
    r
}

/// Multiplies a matrix by a vector.
///
/// The matrix has `M` rows and `N` columns and is held by its columns:
/// `matrix[j]` is column `j`, so `matrix[j][i]` is the entry in row `i`.
/// Entry `i` of the result is the sum over `j` of `matrix[j][i] * vector[j]`,
/// accumulated from zero with `j` ascending. The vector's length is the
/// number of columns, so the shapes cannot disagree. Every product and
/// every partial sum must fit `T`.
pub fn matrix_vec_multiply<const M: usize, const N: usize, T: Scalar>(
    matrix: &[[T; M]; N],
    vector: &[T; N],
) -> (r: [T; M])
    requires
        mat_vec_fits::<T>(int_columns(matrix@), ints(vector@), M as nat),
    ensures
        ints(r@) == mat_vec(int_columns(matrix@), ints(vector@), M as nat),
        forall|i: int| 0 <= i < M ==> #[trigger] r[i].as_int() == row_sum(int_columns(matrix@), ints(vector@), i, N as nat),
{
    let ghost cols = int_columns(matrix@);
    let ghost v = ints(vector@);
    let mut r: [T; M] = array_fill_for_copy_types(T::zero());
    let mut i: usize = 0;
    while i < M
        invariant
            i <= M,
            cols == int_columns(matrix@),
            v == ints(vector@),
            v.len() == N,
            mat_vec_fits::<T>(cols, v, M as nat),
            forall|k: int| 0 <= k < i ==> r[k].as_int() == row_sum(cols, v, k, N as nat),
        decreases M - i,
    {
        let mut acc: T = T::zero();
        let mut j: usize = 0;
        while j < N
            invariant
                i < M,
                j <= N,
                cols == int_columns(matrix@),
                v == ints(vector@),
                v.len() == N,
                mat_vec_fits::<T>(cols, v, M as nat),
                acc.as_int() == row_sum(cols, v, i as int, j as nat),
            decreases N - j,
        {
            assert(cols[j as int][i as int] == matrix[j as int][i as int].as_int());
            assert(T::fits(cols[j as int][i as int] * v[j as int]));
            let p: T = matrix[j][i].times(vector[j]);
            assert(T::fits(row_sum(cols, v, i as int, (j + 1) as nat)));
            acc = acc.plus(p);
            j += 1;
        }
        r.set(i, acc);
        i += 1;
    }
    assert(ints(r@) =~= mat_vec(cols, v, M as nat));
    r
}

} // verus!
