use crate::model::{identity, mat_vec, row_sum, vec_add, vec_scale, vec_sub, zeros};
use vstd::prelude::*;

verus! {

/// Addition is commutative: `a + b` and `b + a` are the same vector.
pub proof fn add_commutes(a: Seq<int>, b: Seq<int>)
    requires
        a.len() == b.len(),
    ensures
        vec_add(a, b) == vec_add(b, a),
{
    assert(vec_add(a, b) =~= vec_add(b, a));
}

/// Subtracting a vector from itself gives the zero vector of its length.
pub proof fn sub_self_is_zero(a: Seq<int>)
    ensures
        vec_sub(a, a) == zeros(a.len()),
{
    assert(vec_sub(a, a) =~= zeros(a.len()));
}

/// Scaling by one leaves a vector unchanged.
pub proof fn scale_by_one(v: Seq<int>)
    ensures
        vec_scale(v, 1) == v,
{
    assert(vec_scale(v, 1) =~= v);
}

/// Scaling by zero gives the zero vector of the same length.
pub proof fn scale_by_zero(v: Seq<int>)
    ensures
        vec_scale(v, 0) == zeros(v.len()),
{
    assert(vec_scale(v, 0) =~= zeros(v.len()));
}

/// Scaling distributes over addition: `(a + b) * k == a * k + b * k`.
pub proof fn scale_distributes(a: Seq<int>, b: Seq<int>, k: int)
    requires
        a.len() == b.len(),
    ensures
        vec_scale(vec_add(a, b), k) == vec_add(vec_scale(a, k), vec_scale(b, k)),
{
    assert forall|i: int| 0 <= i < a.len() implies (a[i] + b[i]) * k == a[i] * k + b[i] * k by {
        lemma_mul_distributes(a[i], b[i], k);
    }
    assert(vec_scale(vec_add(a, b), k) =~= vec_add(vec_scale(a, k), vec_scale(b, k)));
}

proof fn lemma_mul_distributes(x: int, y: int, k: int)
    ensures
        (x + y) * k == x * k + y * k,
{
    assert((x + y) * k == x * k + y * k) by (nonlinear_arith);
}

proof fn lemma_row_sum_additive(cols: Seq<Seq<int>>, v1: Seq<int>, v2: Seq<int>, i: int, n: nat)
    requires
        n <= v1.len(),
        v1.len() == v2.len(),
    ensures
        row_sum(cols, vec_add(v1, v2), i, n) == row_sum(cols, v1, i, n) + row_sum(cols, v2, i, n),
    decreases n,
{
    if n > 0 {
        lemma_row_sum_additive(cols, v1, v2, i, (n - 1) as nat);
        let c = cols[n - 1][i];
        assert(c * (v1[n - 1] + v2[n - 1]) == c * v1[n - 1] + c * v2[n - 1]) by {
            lemma_mul_distributes(v1[n - 1], v2[n - 1], c);
        }
    }
}

/// The matrix-vector product is additive in the vector:
/// `m * (v1 + v2) == m * v1 + m * v2`.
pub proof fn mat_vec_linear(cols: Seq<Seq<int>>, v1: Seq<int>, v2: Seq<int>, rows: nat)
    requires
        v1.len() == cols.len(),
        v2.len() == cols.len(),
        forall|j: int| 0 <= j < cols.len() ==> (#[trigger] cols[j]).len() == rows,
    ensures
        mat_vec(cols, vec_add(v1, v2), rows) == vec_add(
            mat_vec(cols, v1, rows),
            mat_vec(cols, v2, rows),
        ),
{
    assert forall|i: int| 0 <= i < rows implies #[trigger] row_sum(
        cols,
        vec_add(v1, v2),
        i,
        v1.len(),
    ) == row_sum(cols, v1, i, v1.len()) + row_sum(cols, v2, i, v1.len()) by {
        lemma_row_sum_additive(cols, v1, v2, i, v1.len());
    }
    assert(mat_vec(cols, vec_add(v1, v2), rows) =~= vec_add(
        mat_vec(cols, v1, rows),
        mat_vec(cols, v2, rows),
    ));
}

proof fn lemma_row_sum_identity(v: Seq<int>, i: int, k: nat)
    requires
        0 <= i < v.len(),
        k <= v.len(),
    ensures
        row_sum(identity(v.len()), v, i, k) == if i < k { v[i] } else { 0 },
    decreases k,
{
    if k > 0 {
        lemma_row_sum_identity(v, i, (k - 1) as nat);
        let e = identity(v.len())[k - 1][i];
        assert(e == if i == k - 1 { 1int } else { 0int });
        assert(e * v[k - 1] == if i == k - 1 { v[k - 1] } else { 0 });
    }
}

/// Multiplying the identity matrix of size `n` by a vector of length `n`
/// gives the vector back.
pub proof fn identity_mat_vec(v: Seq<int>)
    ensures
        mat_vec(identity(v.len()), v, v.len()) == v,
{
    assert forall|i: int| 0 <= i < v.len() implies #[trigger] row_sum(
        identity(v.len()),
        v,
        i,
        v.len(),
    ) == v[i] by {
        lemma_row_sum_identity(v, i, v.len());
    }
    assert(mat_vec(identity(v.len()), v, v.len()) =~= v);
}

} // verus!
