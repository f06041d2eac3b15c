//! The 12x12 MDS product, computed row by row.

use crate::field::{add_mod, mul_mod, prime, residues, Felt};
use crate::mds::linear::{dot, dot_upto, mat_vec};
use vstd::arithmetic::div_mod::*;
use vstd::prelude::*;

verus! {

/// The MDS matrix: row `i` is the first row rotated right by `i` places.
pub const MDS_12X12: [[u64; 12]; 12] = [
    [7, 23, 8, 26, 13, 10, 9, 7, 6, 22, 21, 8],
    [8, 7, 23, 8, 26, 13, 10, 9, 7, 6, 22, 21],
    [21, 8, 7, 23, 8, 26, 13, 10, 9, 7, 6, 22],
    [22, 21, 8, 7, 23, 8, 26, 13, 10, 9, 7, 6],
    [6, 22, 21, 8, 7, 23, 8, 26, 13, 10, 9, 7],
    [7, 6, 22, 21, 8, 7, 23, 8, 26, 13, 10, 9],
    [9, 7, 6, 22, 21, 8, 7, 23, 8, 26, 13, 10],
    [10, 9, 7, 6, 22, 21, 8, 7, 23, 8, 26, 13],
    [13, 10, 9, 7, 6, 22, 21, 8, 7, 23, 8, 26],
    [26, 13, 10, 9, 7, 6, 22, 21, 8, 7, 23, 8],
    [8, 26, 13, 10, 9, 7, 6, 22, 21, 8, 7, 23],
    [23, 8, 26, 13, 10, 9, 7, 6, 22, 21, 8, 7],
];

/// The matrix is circulant: row `i` is row 0 rotated right by `i` places.
pub proof fn lemma_mds_is_circulant(i: int, j: int)
    requires
        0 <= i < 12,
        0 <= j < 12,
    ensures
        MDS_12X12[i][j] == MDS_12X12[0][(j - i + 12) % 12],
{
    if i == 0 {
        assert(MDS_12X12[0][0] == MDS_12X12[0][0] && MDS_12X12[0][1] == MDS_12X12[0][1]);
        assert(MDS_12X12[0][2] == MDS_12X12[0][2] && MDS_12X12[0][3] == MDS_12X12[0][3]);
        assert(MDS_12X12[0][4] == MDS_12X12[0][4] && MDS_12X12[0][5] == MDS_12X12[0][5]);
        assert(MDS_12X12[0][6] == MDS_12X12[0][6] && MDS_12X12[0][7] == MDS_12X12[0][7]);
        assert(MDS_12X12[0][8] == MDS_12X12[0][8] && MDS_12X12[0][9] == MDS_12X12[0][9]);
        assert(MDS_12X12[0][10] == MDS_12X12[0][10] && MDS_12X12[0][11] == MDS_12X12[0][11]);
    } else if i == 1 {
        assert(MDS_12X12[1][0] == MDS_12X12[0][11] && MDS_12X12[1][1] == MDS_12X12[0][0]);
        assert(MDS_12X12[1][2] == MDS_12X12[0][1] && MDS_12X12[1][3] == MDS_12X12[0][2]);
        assert(MDS_12X12[1][4] == MDS_12X12[0][3] && MDS_12X12[1][5] == MDS_12X12[0][4]);
        assert(MDS_12X12[1][6] == MDS_12X12[0][5] && MDS_12X12[1][7] == MDS_12X12[0][6]);
        assert(MDS_12X12[1][8] == MDS_12X12[0][7] && MDS_12X12[1][9] == MDS_12X12[0][8]);
        assert(MDS_12X12[1][10] == MDS_12X12[0][9] && MDS_12X12[1][11] == MDS_12X12[0][10]);
    } else if i == 2 {
        assert(MDS_12X12[2][0] == MDS_12X12[0][10] && MDS_12X12[2][1] == MDS_12X12[0][11]);
        assert(MDS_12X12[2][2] == MDS_12X12[0][0] && MDS_12X12[2][3] == MDS_12X12[0][1]);
        assert(MDS_12X12[2][4] == MDS_12X12[0][2] && MDS_12X12[2][5] == MDS_12X12[0][3]);
        assert(MDS_12X12[2][6] == MDS_12X12[0][4] && MDS_12X12[2][7] == MDS_12X12[0][5]);
        assert(MDS_12X12[2][8] == MDS_12X12[0][6] && MDS_12X12[2][9] == MDS_12X12[0][7]);
        assert(MDS_12X12[2][10] == MDS_12X12[0][8] && MDS_12X12[2][11] == MDS_12X12[0][9]);
    } else if i == 3 {
        assert(MDS_12X12[3][0] == MDS_12X12[0][9] && MDS_12X12[3][1] == MDS_12X12[0][10]);
        assert(MDS_12X12[3][2] == MDS_12X12[0][11] && MDS_12X12[3][3] == MDS_12X12[0][0]);
        assert(MDS_12X12[3][4] == MDS_12X12[0][1] && MDS_12X12[3][5] == MDS_12X12[0][2]);
        assert(MDS_12X12[3][6] == MDS_12X12[0][3] && MDS_12X12[3][7] == MDS_12X12[0][4]);
        assert(MDS_12X12[3][8] == MDS_12X12[0][5] && MDS_12X12[3][9] == MDS_12X12[0][6]);
        assert(MDS_12X12[3][10] == MDS_12X12[0][7] && MDS_12X12[3][11] == MDS_12X12[0][8]);
    } else if i == 4 {
        assert(MDS_12X12[4][0] == MDS_12X12[0][8] && MDS_12X12[4][1] == MDS_12X12[0][9]);
        assert(MDS_12X12[4][2] == MDS_12X12[0][10] && MDS_12X12[4][3] == MDS_12X12[0][11]);
        assert(MDS_12X12[4][4] == MDS_12X12[0][0] && MDS_12X12[4][5] == MDS_12X12[0][1]);
        assert(MDS_12X12[4][6] == MDS_12X12[0][2] && MDS_12X12[4][7] == MDS_12X12[0][3]);
        assert(MDS_12X12[4][8] == MDS_12X12[0][4] && MDS_12X12[4][9] == MDS_12X12[0][5]);
        assert(MDS_12X12[4][10] == MDS_12X12[0][6] && MDS_12X12[4][11] == MDS_12X12[0][7]);
    } else if i == 5 {
        assert(MDS_12X12[5][0] == MDS_12X12[0][7] && MDS_12X12[5][1] == MDS_12X12[0][8]);
        assert(MDS_12X12[5][2] == MDS_12X12[0][9] && MDS_12X12[5][3] == MDS_12X12[0][10]);
        assert(MDS_12X12[5][4] == MDS_12X12[0][11] && MDS_12X12[5][5] == MDS_12X12[0][0]);
        assert(MDS_12X12[5][6] == MDS_12X12[0][1] && MDS_12X12[5][7] == MDS_12X12[0][2]);
        assert(MDS_12X12[5][8] == MDS_12X12[0][3] && MDS_12X12[5][9] == MDS_12X12[0][4]);
        assert(MDS_12X12[5][10] == MDS_12X12[0][5] && MDS_12X12[5][11] == MDS_12X12[0][6]);
    } else if i == 6 {
        assert(MDS_12X12[6][0] == MDS_12X12[0][6] && MDS_12X12[6][1] == MDS_12X12[0][7]);
        assert(MDS_12X12[6][2] == MDS_12X12[0][8] && MDS_12X12[6][3] == MDS_12X12[0][9]);
        assert(MDS_12X12[6][4] == MDS_12X12[0][10] && MDS_12X12[6][5] == MDS_12X12[0][11]);
        assert(MDS_12X12[6][6] == MDS_12X12[0][0] && MDS_12X12[6][7] == MDS_12X12[0][1]);
        assert(MDS_12X12[6][8] == MDS_12X12[0][2] && MDS_12X12[6][9] == MDS_12X12[0][3]);
        assert(MDS_12X12[6][10] == MDS_12X12[0][4] && MDS_12X12[6][11] == MDS_12X12[0][5]);
    } else if i == 7 {
        assert(MDS_12X12[7][0] == MDS_12X12[0][5] && MDS_12X12[7][1] == MDS_12X12[0][6]);
        assert(MDS_12X12[7][2] == MDS_12X12[0][7] && MDS_12X12[7][3] == MDS_12X12[0][8]);
        assert(MDS_12X12[7][4] == MDS_12X12[0][9] && MDS_12X12[7][5] == MDS_12X12[0][10]);
        assert(MDS_12X12[7][6] == MDS_12X12[0][11] && MDS_12X12[7][7] == MDS_12X12[0][0]);
        assert(MDS_12X12[7][8] == MDS_12X12[0][1] && MDS_12X12[7][9] == MDS_12X12[0][2]);
        assert(MDS_12X12[7][10] == MDS_12X12[0][3] && MDS_12X12[7][11] == MDS_12X12[0][4]);
    } else if i == 8 {
        assert(MDS_12X12[8][0] == MDS_12X12[0][4] && MDS_12X12[8][1] == MDS_12X12[0][5]);
        assert(MDS_12X12[8][2] == MDS_12X12[0][6] && MDS_12X12[8][3] == MDS_12X12[0][7]);
        assert(MDS_12X12[8][4] == MDS_12X12[0][8] && MDS_12X12[8][5] == MDS_12X12[0][9]);
        assert(MDS_12X12[8][6] == MDS_12X12[0][10] && MDS_12X12[8][7] == MDS_12X12[0][11]);
        assert(MDS_12X12[8][8] == MDS_12X12[0][0] && MDS_12X12[8][9] == MDS_12X12[0][1]);
        assert(MDS_12X12[8][10] == MDS_12X12[0][2] && MDS_12X12[8][11] == MDS_12X12[0][3]);
    } else if i == 9 {
        assert(MDS_12X12[9][0] == MDS_12X12[0][3] && MDS_12X12[9][1] == MDS_12X12[0][4]);
        assert(MDS_12X12[9][2] == MDS_12X12[0][5] && MDS_12X12[9][3] == MDS_12X12[0][6]);
        assert(MDS_12X12[9][4] == MDS_12X12[0][7] && MDS_12X12[9][5] == MDS_12X12[0][8]);
        assert(MDS_12X12[9][6] == MDS_12X12[0][9] && MDS_12X12[9][7] == MDS_12X12[0][10]);
        assert(MDS_12X12[9][8] == MDS_12X12[0][11] && MDS_12X12[9][9] == MDS_12X12[0][0]);
        assert(MDS_12X12[9][10] == MDS_12X12[0][1] && MDS_12X12[9][11] == MDS_12X12[0][2]);
    } else if i == 10 {
        assert(MDS_12X12[10][0] == MDS_12X12[0][2] && MDS_12X12[10][1] == MDS_12X12[0][3]);
        assert(MDS_12X12[10][2] == MDS_12X12[0][4] && MDS_12X12[10][3] == MDS_12X12[0][5]);
        assert(MDS_12X12[10][4] == MDS_12X12[0][6] && MDS_12X12[10][5] == MDS_12X12[0][7]);
        assert(MDS_12X12[10][6] == MDS_12X12[0][8] && MDS_12X12[10][7] == MDS_12X12[0][9]);
        assert(MDS_12X12[10][8] == MDS_12X12[0][10] && MDS_12X12[10][9] == MDS_12X12[0][11]);
        assert(MDS_12X12[10][10] == MDS_12X12[0][0] && MDS_12X12[10][11] == MDS_12X12[0][1]);
    } else {
        assert(MDS_12X12[11][0] == MDS_12X12[0][1] && MDS_12X12[11][1] == MDS_12X12[0][2]);
        assert(MDS_12X12[11][2] == MDS_12X12[0][3] && MDS_12X12[11][3] == MDS_12X12[0][4]);
        assert(MDS_12X12[11][4] == MDS_12X12[0][5] && MDS_12X12[11][5] == MDS_12X12[0][6]);
        assert(MDS_12X12[11][6] == MDS_12X12[0][7] && MDS_12X12[11][7] == MDS_12X12[0][8]);
        assert(MDS_12X12[11][8] == MDS_12X12[0][9] && MDS_12X12[11][9] == MDS_12X12[0][10]);
        assert(MDS_12X12[11][10] == MDS_12X12[0][11] && MDS_12X12[11][11] == MDS_12X12[0][0]);
    }
}

/// The rows of the MDS matrix as integer sequences.
pub open spec fn mds_matrix() -> Seq<Seq<int>> {
    Seq::new(12, |i: int| Seq::new(12, |j: int| MDS_12X12[i][j] as int))
}

/// The MDS product: lane `i` is the inner product of row `i` with the state, modulo p.
pub open spec fn mds_product(x: Seq<int>) -> Seq<int> {
    mat_vec(mds_matrix(), x)
}

/// Adding one more product to a partial inner product, all reduced modulo p.
proof fn lemma_accumulate(acc: int, partial: int, m: int, v: int)
    requires
        acc == partial % prime(),
    ensures
        add_mod(acc, mul_mod(m % prime(), v)) == (partial + m * v) % prime(),
{
    let p = prime();
    lemma_mul_mod_noop_left(m, v, p);
    lemma_add_mod_noop(partial, m * v, p);
}

/// Multiplies the state by the MDS matrix.
pub fn mds_multiply(state: &mut [Felt; 12])
    ensures
        residues(final(state)@) == mds_product(residues(old(state)@)),
{
    let input = *state;
    let ghost x = residues(input@);
    let mut i: usize = 0;
    while i < 12
        invariant
            i <= 12,
            x == residues(input@),
            forall|k: int| 0 <= k < i ==> (#[trigger] state[k]).value == dot(mds_matrix()[k], x) % prime(),
        decreases 12 - i,
    {
        let ghost row = mds_matrix()[i as int];
        let mut acc = Felt::zero();
        let mut j: usize = 0;
        while j < 12
            invariant
                i < 12,
                j <= 12,
                x == residues(input@),
                row == mds_matrix()[i as int],
                acc.value == dot_upto(row, x, j as nat) % prime(),
            decreases 12 - j,
        {
            proof {
                lemma_accumulate(
                    acc.value as int,
                    dot_upto(row, x, j as nat),
                    MDS_12X12[i as int][j as int] as int,
                    input[j as int].value as int,
                );
            }
            acc = acc.add(Felt::new(MDS_12X12[i][j]).mul(input[j]));
            j += 1;
        }
        state[i] = acc;
        i += 1;
    }
    assert(residues(state@) =~= mds_product(x));
}

} // verus!
