use crate::scalar::Scalar;
use vstd::prelude::*;

verus! {

/// The integers that a sequence of scalars stands for.
pub open spec fn ints<T: Scalar>(s: Seq<T>) -> Seq<int> {
    s.map_values(|x: T| x.as_int())
}

/// Whether every entry of `s` can be held by `T`.
pub open spec fn all_fit<T: Scalar>(s: Seq<int>) -> bool {
    forall|i: int| 0 <= i < s.len() ==> T::fits(#[trigger] s[i])
}

/// The vector of length `n` whose entries are all zero.
pub open spec fn zeros(n: nat) -> Seq<int> {
    Seq::new(n, |i: int| 0)
}

/// Element-wise sum.
pub open spec fn vec_add(a: Seq<int>, b: Seq<int>) -> Seq<int> {
    Seq::new(a.len(), |i: int| a[i] + b[i])
}

/// Element-wise difference.
pub open spec fn vec_sub(a: Seq<int>, b: Seq<int>) -> Seq<int> {
    Seq::new(a.len(), |i: int| a[i] - b[i])
}

/// Every entry multiplied by `k`.
pub open spec fn vec_scale(v: Seq<int>, k: int) -> Seq<int> {
    Seq::new(v.len(), |i: int| v[i] * k)
}

/// The integers of a matrix held as a sequence of columns.
pub open spec fn int_columns<T: Scalar, const M: usize>(m: Seq<[T; M]>) -> Seq<Seq<int>> {
    m.map_values(|c: [T; M]| ints(c@))
}

/// Entry `i` of the product of the matrix with columns `cols` and the
/// vector `v`, summed over the first `n` columns.
pub open spec fn row_sum(cols: Seq<Seq<int>>, v: Seq<int>, i: int, n: nat) -> int
    decreases n,
{
    if n == 0 {
        0
    } else {
        row_sum(cols, v, i, (n - 1) as nat) + cols[n - 1][i] * v[n - 1]
    }
}

/// The product of the matrix with columns `cols` (each of length `rows`)
/// and the vector `v`: entry `i` is the sum over `j` of `cols[j][i] * v[j]`.
pub open spec fn mat_vec(cols: Seq<Seq<int>>, v: Seq<int>, rows: nat) -> Seq<int> {
    Seq::new(rows, |i: int| row_sum(cols, v, i, v.len()))
}

/// Whether `T` holds every product and every partial sum that arises
/// when the product of `cols` and `v` is accumulated column by column.
pub open spec fn mat_vec_fits<T: Scalar>(cols: Seq<Seq<int>>, v: Seq<int>, rows: nat) -> bool {
    forall|i: int, j: int|
        0 <= i < rows && 0 <= j < v.len() ==> T::fits(#[trigger] (cols[j][i] * v[j])) && T::fits(
            row_sum(cols, v, i, (j + 1) as nat),
        )
}

/// The `n` by `n` identity matrix: ones on the diagonal, zeros elsewhere.
pub open spec fn identity(n: nat) -> Seq<Seq<int>> {
    Seq::new(n, |j: int| Seq::new(n, |i: int| if i == j { 1int } else { 0int }))
}

} // verus!
