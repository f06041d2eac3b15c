//! Matrix-vector products over the field, and the algebra of linear combinations modulo p
//! on which the correctness of the transform-based product rests.

use crate::field::prime;
use vstd::arithmetic::div_mod::*;
use vstd::arithmetic::mul::*;
use vstd::prelude::*;

verus! {

/// The sum of `row[j] * x[j]` over `j < n`.
pub open spec fn dot_upto(row: Seq<int>, x: Seq<int>, n: nat) -> int
    decreases n,
{
    if n == 0 {
        0
    } else {
        dot_upto(row, x, (n - 1) as nat) + row[n - 1] * x[n - 1]
    }
}

/// The inner product of a matrix row with a vector.
pub open spec fn dot(row: Seq<int>, x: Seq<int>) -> int {
    dot_upto(row, x, row.len())
}

/// The product of a matrix, given by its rows, with a vector, each lane reduced modulo p.
pub open spec fn mat_vec(rows: Seq<Seq<int>>, x: Seq<int>) -> Seq<int> {
    Seq::new(rows.len(), |i: int| dot(rows[i], x) % prime())
}

/// Lane `i` of the combination of the columns `cols[j]`, `j < n`, with weights `x[j]`.
pub open spec fn combine(cols: Seq<Seq<int>>, x: Seq<int>, i: int, n: nat) -> int
    decreases n,
{
    if n == 0 {
        0
    } else {
        combine(cols, x, i, (n - 1) as nat) + cols[n - 1][i] * x[n - 1]
    }
}

/// Every lane of `y` is congruent to the combination of the columns with weights `x`.
pub open spec fn represents(y: Seq<int>, cols: Seq<Seq<int>>, x: Seq<int>) -> bool {
    forall|i: int| 0 <= i < y.len() ==> y[i] % prime() == #[trigger] combine(cols, x, i, cols.len()) % prime()
}

/// Congruent operands give congruent results under `base + k * v`.
pub proof fn lemma_affine_congruence(a: int, a2: int, k: int, b: int, b2: int)
    requires
        a % prime() == a2 % prime(),
        b % prime() == b2 % prime(),
    ensures
        (a + k * b) % prime() == (a2 + k * b2) % prime(),
{
    let p = prime();
    lemma_mul_mod_noop_right(k, b, p);
    lemma_mul_mod_noop_right(k, b2, p);
    lemma_add_mod_noop(a, k * b, p);
    lemma_add_mod_noop(a2, k * b2, p);
}

/// If lane `i` of every new column is `base * old[lo] + k * old[hi]` reduced modulo p, then
/// lane `i` of the new combination is congruent to the same expression in the old
/// combinations.
pub proof fn lemma_combine_affine(
    cols: Seq<Seq<int>>,
    next: Seq<Seq<int>>,
    x: Seq<int>,
    i: int,
    lo: int,
    hi: int,
    base: int,
    k: int,
    n: nat,
)
    requires
        forall|j: int| 0 <= j < n ==> (#[trigger] next[j])[i] == (base * cols[j][lo] + k * cols[j][hi]) % prime(),
    ensures
        combine(next, x, i, n) % prime() == (base * combine(cols, x, lo, n) + k * combine(cols, x, hi, n)) % prime(),
    decreases n,
{
    let p = prime();
    if n > 0 {
        let m = (n - 1) as nat;
        lemma_combine_affine(cols, next, x, i, lo, hi, base, k, m);
        let w = x[n - 1];
        let c = cols[n - 1];
        let e = base * c[lo] + k * c[hi];
        let old_lo = combine(cols, x, lo, m);
        let old_hi = combine(cols, x, hi, m);
        let prev = combine(next, x, i, m);
        assert(next[n - 1][i] == e % p);
        // (e % p) * w is congruent to e * w
        lemma_mul_mod_noop_left(e, w, p);
        lemma_add_mod_noop(prev, (e % p) * w, p);
        lemma_add_mod_noop(prev, e * w, p);
        lemma_add_mod_noop(base * old_lo + k * old_hi, e * w, p);
        assert((prev + (e % p) * w) % p == ((base * old_lo + k * old_hi) + e * w) % p);
        let cl = c[lo];
        let ch = c[hi];
        assert(e * w == base * (cl * w) + k * (ch * w)) by (nonlinear_arith)
            requires
                e == base * cl + k * ch,
        ;
        assert(base * (old_lo + cl * w) == base * old_lo + base * (cl * w)) by (nonlinear_arith);
        assert(k * (old_hi + ch * w) == k * old_hi + k * (ch * w)) by (nonlinear_arith);
    }
}

/// The unit vector with its one in lane `j`.
pub open spec fn basis(j: int, n: nat) -> Seq<int> {
    Seq::new(n, |i: int| if i == j { 1int } else { 0int })
}

/// The unit vectors as columns.
pub open spec fn basis_columns(n: nat) -> Seq<Seq<int>> {
    Seq::new(n, |j: int| basis(j, n))
}

/// Combining the first `m` unit vectors with weights `x` gives `x` on the first `m` lanes.
pub proof fn lemma_combine_basis(x: Seq<int>, i: int, n: nat, m: nat)
    requires
        0 <= i < n,
        m <= n,
    ensures
        combine(basis_columns(n), x, i, m) == if i < m { x[i] } else { 0 },
    decreases m,
{
    if m > 0 {
        lemma_combine_basis(x, i, n, (m - 1) as nat);
        assert(basis_columns(n)[m - 1][i] == if i == m - 1 { 1int } else { 0int });
    }
}

/// A combination of columns is the inner product with the matrix row made of their lanes.
pub proof fn lemma_combine_is_dot(cols: Seq<Seq<int>>, row: Seq<int>, x: Seq<int>, i: int, n: nat)
    requires
        forall|j: int| 0 <= j < n ==> (#[trigger] cols[j])[i] == row[j],
    ensures
        combine(cols, x, i, n) == dot_upto(row, x, n),
    decreases n,
{
    if n > 0 {
        lemma_combine_is_dot(cols, row, x, i, (n - 1) as nat);
    }
}

} // verus!
