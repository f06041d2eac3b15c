//! The 16x16 MDS product by a number-theoretic transform.
//!
//! The matrix is circulant, so multiplying by it is a cyclic convolution: a forward
//! transform, a lane-wise multiplication by the transform of the first row, and an inverse
//! transform. The transform of the first row consists of powers of two, so the lane-wise
//! multiplication is a shift of the 128-bit lift of each Montgomery word followed by one
//! Montgomery reduction.

use crate::field::{
    add_mod, mont_reduce, mont_reduce_spec, mul_mod, prime, sub_mod, to_mont, residues, Felt, MONT_R,
    MONT_R_INV,
};
use crate::mds::linear::{
    basis, basis_columns, combine, lemma_affine_congruence, lemma_combine_affine, lemma_combine_basis,
    lemma_combine_is_dot, mat_vec, represents,
};
use crate::mds::mds_16x16_columns::lemma_columns;
use vstd::arithmetic::div_mod::*;
use vstd::arithmetic::mul::*;
use vstd::prelude::*;

verus! {

/// The MDS matrix: row `i` is the first row rotated right by `i` places.
pub const MDS_16X16: [[u64; 16]; 16] = [
    [
        18446742626305572865, 12103477672291081763, 2060678330275253760, 2379906257383880660,
        13229869363167232, 12103947580051285184, 3631871650260640512, 18375880622847003104,
        18446743700047396865, 7491684177549991903, 16328081945490043393, 11603770461046470701,
        18433515290973110273, 5185371269165997376, 14872856315882446081, 4542937756286289441,
    ],
    [
        4542937756286289441, 18446742626305572865, 12103477672291081763, 2060678330275253760,
        2379906257383880660, 13229869363167232, 12103947580051285184, 3631871650260640512,
        18375880622847003104, 18446743700047396865, 7491684177549991903, 16328081945490043393,
        11603770461046470701, 18433515290973110273, 5185371269165997376, 14872856315882446081,
    ],
    [
        14872856315882446081, 4542937756286289441, 18446742626305572865, 12103477672291081763,
        2060678330275253760, 2379906257383880660, 13229869363167232, 12103947580051285184,
        3631871650260640512, 18375880622847003104, 18446743700047396865, 7491684177549991903,
        16328081945490043393, 11603770461046470701, 18433515290973110273, 5185371269165997376,
    ],
    [
        5185371269165997376, 14872856315882446081, 4542937756286289441, 18446742626305572865,
        12103477672291081763, 2060678330275253760, 2379906257383880660, 13229869363167232,
        12103947580051285184, 3631871650260640512, 18375880622847003104, 18446743700047396865,
        7491684177549991903, 16328081945490043393, 11603770461046470701, 18433515290973110273,
    ],
    [
        18433515290973110273, 5185371269165997376, 14872856315882446081, 4542937756286289441,
        18446742626305572865, 12103477672291081763, 2060678330275253760, 2379906257383880660,
        13229869363167232, 12103947580051285184, 3631871650260640512, 18375880622847003104,
        18446743700047396865, 7491684177549991903, 16328081945490043393, 11603770461046470701,
    ],
    [
        11603770461046470701, 18433515290973110273, 5185371269165997376, 14872856315882446081,
        4542937756286289441, 18446742626305572865, 12103477672291081763, 2060678330275253760,
        2379906257383880660, 13229869363167232, 12103947580051285184, 3631871650260640512,
        18375880622847003104, 18446743700047396865, 7491684177549991903, 16328081945490043393,
    ],
    [
        16328081945490043393, 11603770461046470701, 18433515290973110273, 5185371269165997376,
        14872856315882446081, 4542937756286289441, 18446742626305572865, 12103477672291081763,
        2060678330275253760, 2379906257383880660, 13229869363167232, 12103947580051285184,
        3631871650260640512, 18375880622847003104, 18446743700047396865, 7491684177549991903,
    ],
    [
        7491684177549991903, 16328081945490043393, 11603770461046470701, 18433515290973110273,
        5185371269165997376, 14872856315882446081, 4542937756286289441, 18446742626305572865,
        12103477672291081763, 2060678330275253760, 2379906257383880660, 13229869363167232,
        12103947580051285184, 3631871650260640512, 18375880622847003104, 18446743700047396865,
    ],
    [
        18446743700047396865, 7491684177549991903, 16328081945490043393, 11603770461046470701,
        18433515290973110273, 5185371269165997376, 14872856315882446081, 4542937756286289441,
        18446742626305572865, 12103477672291081763, 2060678330275253760, 2379906257383880660,
        13229869363167232, 12103947580051285184, 3631871650260640512, 18375880622847003104,
    ],
    [
        18375880622847003104, 18446743700047396865, 7491684177549991903, 16328081945490043393,
        11603770461046470701, 18433515290973110273, 5185371269165997376, 14872856315882446081,
        4542937756286289441, 18446742626305572865, 12103477672291081763, 2060678330275253760,
        2379906257383880660, 13229869363167232, 12103947580051285184, 3631871650260640512,
    ],
    [
        3631871650260640512, 18375880622847003104, 18446743700047396865, 7491684177549991903,
        16328081945490043393, 11603770461046470701, 18433515290973110273, 5185371269165997376,
        14872856315882446081, 4542937756286289441, 18446742626305572865, 12103477672291081763,
        2060678330275253760, 2379906257383880660, 13229869363167232, 12103947580051285184,
    ],
    [
        12103947580051285184, 3631871650260640512, 18375880622847003104, 18446743700047396865,
        7491684177549991903, 16328081945490043393, 11603770461046470701, 18433515290973110273,
        5185371269165997376, 14872856315882446081, 4542937756286289441, 18446742626305572865,
        12103477672291081763, 2060678330275253760, 2379906257383880660, 13229869363167232,
    ],
    [
        13229869363167232, 12103947580051285184, 3631871650260640512, 18375880622847003104,
        18446743700047396865, 7491684177549991903, 16328081945490043393, 11603770461046470701,
        18433515290973110273, 5185371269165997376, 14872856315882446081, 4542937756286289441,
        18446742626305572865, 12103477672291081763, 2060678330275253760, 2379906257383880660,
    ],
    [
        2379906257383880660, 13229869363167232, 12103947580051285184, 3631871650260640512,
        18375880622847003104, 18446743700047396865, 7491684177549991903, 16328081945490043393,
        11603770461046470701, 18433515290973110273, 5185371269165997376, 14872856315882446081,
        4542937756286289441, 18446742626305572865, 12103477672291081763, 2060678330275253760,
    ],
    [
        2060678330275253760, 2379906257383880660, 13229869363167232, 12103947580051285184,
        3631871650260640512, 18375880622847003104, 18446743700047396865, 7491684177549991903,
        16328081945490043393, 11603770461046470701, 18433515290973110273, 5185371269165997376,
        14872856315882446081, 4542937756286289441, 18446742626305572865, 12103477672291081763,
    ],
    [
        12103477672291081763, 2060678330275253760, 2379906257383880660, 13229869363167232,
        12103947580051285184, 3631871650260640512, 18375880622847003104, 18446743700047396865,
        7491684177549991903, 16328081945490043393, 11603770461046470701, 18433515290973110273,
        5185371269165997376, 14872856315882446081, 4542937756286289441, 18446742626305572865,
    ],
];

/// Left shifts that multiply the transformed lanes by the transform of the first row.
pub const SHIFTS: [u8; 16] = [4, 1, 4, 3, 3, 7, 0, 5, 1, 5, 0, 2, 6, 2, 4, 1];

/// Powers of the primitive 16th root of unity, in bit-reversed order.
pub const POWERS_OF_OMEGA_BITREVERSED: [u64; 8] = [
    1,
    281474976710656,
    18446744069397807105,
    18446742969902956801,
    17293822564807737345,
    4096,
    4503599626321920,
    18446744000695107585,
];

/// Powers of the inverse of the primitive 16th root of unity.
pub const POWERS_OF_OMEGA_INVERSE: [u64; 8] = [
    1,
    68719476736,
    1099511627520,
    18446744069414580225,
    18446462594437873665,
    18442240469788262401,
    16777216,
    1152921504606846976,
];

/// The matrix is circulant: row `i` is row 0 rotated right by `i` places.
pub proof fn lemma_mds_is_circulant(i: int, j: int)
    requires
        0 <= i < 16,
        0 <= j < 16,
    ensures
        MDS_16X16[i][j] == MDS_16X16[0][(j - i + 16) % 16],
{
    if i == 0 {
        assert(MDS_16X16[0][0] == MDS_16X16[0][0] && MDS_16X16[0][1] == MDS_16X16[0][1]);
        assert(MDS_16X16[0][2] == MDS_16X16[0][2] && MDS_16X16[0][3] == MDS_16X16[0][3]);
        assert(MDS_16X16[0][4] == MDS_16X16[0][4] && MDS_16X16[0][5] == MDS_16X16[0][5]);
        assert(MDS_16X16[0][6] == MDS_16X16[0][6] && MDS_16X16[0][7] == MDS_16X16[0][7]);
        assert(MDS_16X16[0][8] == MDS_16X16[0][8] && MDS_16X16[0][9] == MDS_16X16[0][9]);
        assert(MDS_16X16[0][10] == MDS_16X16[0][10] && MDS_16X16[0][11] == MDS_16X16[0][11]);
        assert(MDS_16X16[0][12] == MDS_16X16[0][12] && MDS_16X16[0][13] == MDS_16X16[0][13]);
        assert(MDS_16X16[0][14] == MDS_16X16[0][14] && MDS_16X16[0][15] == MDS_16X16[0][15]);
    } else if i == 1 {
        assert(MDS_16X16[1][0] == MDS_16X16[0][15] && MDS_16X16[1][1] == MDS_16X16[0][0]);
        assert(MDS_16X16[1][2] == MDS_16X16[0][1] && MDS_16X16[1][3] == MDS_16X16[0][2]);
        assert(MDS_16X16[1][4] == MDS_16X16[0][3] && MDS_16X16[1][5] == MDS_16X16[0][4]);
        assert(MDS_16X16[1][6] == MDS_16X16[0][5] && MDS_16X16[1][7] == MDS_16X16[0][6]);
        assert(MDS_16X16[1][8] == MDS_16X16[0][7] && MDS_16X16[1][9] == MDS_16X16[0][8]);
        assert(MDS_16X16[1][10] == MDS_16X16[0][9] && MDS_16X16[1][11] == MDS_16X16[0][10]);
        assert(MDS_16X16[1][12] == MDS_16X16[0][11] && MDS_16X16[1][13] == MDS_16X16[0][12]);
        assert(MDS_16X16[1][14] == MDS_16X16[0][13] && MDS_16X16[1][15] == MDS_16X16[0][14]);
    } else if i == 2 {
        assert(MDS_16X16[2][0] == MDS_16X16[0][14] && MDS_16X16[2][1] == MDS_16X16[0][15]);
        assert(MDS_16X16[2][2] == MDS_16X16[0][0] && MDS_16X16[2][3] == MDS_16X16[0][1]);
        assert(MDS_16X16[2][4] == MDS_16X16[0][2] && MDS_16X16[2][5] == MDS_16X16[0][3]);
        assert(MDS_16X16[2][6] == MDS_16X16[0][4] && MDS_16X16[2][7] == MDS_16X16[0][5]);
        assert(MDS_16X16[2][8] == MDS_16X16[0][6] && MDS_16X16[2][9] == MDS_16X16[0][7]);
        assert(MDS_16X16[2][10] == MDS_16X16[0][8] && MDS_16X16[2][11] == MDS_16X16[0][9]);
        assert(MDS_16X16[2][12] == MDS_16X16[0][10] && MDS_16X16[2][13] == MDS_16X16[0][11]);
        assert(MDS_16X16[2][14] == MDS_16X16[0][12] && MDS_16X16[2][15] == MDS_16X16[0][13]);
    } else if i == 3 {
        assert(MDS_16X16[3][0] == MDS_16X16[0][13] && MDS_16X16[3][1] == MDS_16X16[0][14]);
        assert(MDS_16X16[3][2] == MDS_16X16[0][15] && MDS_16X16[3][3] == MDS_16X16[0][0]);
        assert(MDS_16X16[3][4] == MDS_16X16[0][1] && MDS_16X16[3][5] == MDS_16X16[0][2]);
        assert(MDS_16X16[3][6] == MDS_16X16[0][3] && MDS_16X16[3][7] == MDS_16X16[0][4]);
        assert(MDS_16X16[3][8] == MDS_16X16[0][5] && MDS_16X16[3][9] == MDS_16X16[0][6]);
        assert(MDS_16X16[3][10] == MDS_16X16[0][7] && MDS_16X16[3][11] == MDS_16X16[0][8]);
        assert(MDS_16X16[3][12] == MDS_16X16[0][9] && MDS_16X16[3][13] == MDS_16X16[0][10]);
        assert(MDS_16X16[3][14] == MDS_16X16[0][11] && MDS_16X16[3][15] == MDS_16X16[0][12]);
    } else if i == 4 {
        assert(MDS_16X16[4][0] == MDS_16X16[0][12] && MDS_16X16[4][1] == MDS_16X16[0][13]);
        assert(MDS_16X16[4][2] == MDS_16X16[0][14] && MDS_16X16[4][3] == MDS_16X16[0][15]);
        assert(MDS_16X16[4][4] == MDS_16X16[0][0] && MDS_16X16[4][5] == MDS_16X16[0][1]);
        assert(MDS_16X16[4][6] == MDS_16X16[0][2] && MDS_16X16[4][7] == MDS_16X16[0][3]);
        assert(MDS_16X16[4][8] == MDS_16X16[0][4] && MDS_16X16[4][9] == MDS_16X16[0][5]);
        assert(MDS_16X16[4][10] == MDS_16X16[0][6] && MDS_16X16[4][11] == MDS_16X16[0][7]);
        assert(MDS_16X16[4][12] == MDS_16X16[0][8] && MDS_16X16[4][13] == MDS_16X16[0][9]);
        assert(MDS_16X16[4][14] == MDS_16X16[0][10] && MDS_16X16[4][15] == MDS_16X16[0][11]);
    } else if i == 5 {
        assert(MDS_16X16[5][0] == MDS_16X16[0][11] && MDS_16X16[5][1] == MDS_16X16[0][12]);
        assert(MDS_16X16[5][2] == MDS_16X16[0][13] && MDS_16X16[5][3] == MDS_16X16[0][14]);
        assert(MDS_16X16[5][4] == MDS_16X16[0][15] && MDS_16X16[5][5] == MDS_16X16[0][0]);
        assert(MDS_16X16[5][6] == MDS_16X16[0][1] && MDS_16X16[5][7] == MDS_16X16[0][2]);
        assert(MDS_16X16[5][8] == MDS_16X16[0][3] && MDS_16X16[5][9] == MDS_16X16[0][4]);
        assert(MDS_16X16[5][10] == MDS_16X16[0][5] && MDS_16X16[5][11] == MDS_16X16[0][6]);
        assert(MDS_16X16[5][12] == MDS_16X16[0][7] && MDS_16X16[5][13] == MDS_16X16[0][8]);
        assert(MDS_16X16[5][14] == MDS_16X16[0][9] && MDS_16X16[5][15] == MDS_16X16[0][10]);
    } else if i == 6 {
        assert(MDS_16X16[6][0] == MDS_16X16[0][10] && MDS_16X16[6][1] == MDS_16X16[0][11]);
        assert(MDS_16X16[6][2] == MDS_16X16[0][12] && MDS_16X16[6][3] == MDS_16X16[0][13]);
        assert(MDS_16X16[6][4] == MDS_16X16[0][14] && MDS_16X16[6][5] == MDS_16X16[0][15]);
        assert(MDS_16X16[6][6] == MDS_16X16[0][0] && MDS_16X16[6][7] == MDS_16X16[0][1]);
        assert(MDS_16X16[6][8] == MDS_16X16[0][2] && MDS_16X16[6][9] == MDS_16X16[0][3]);
        assert(MDS_16X16[6][10] == MDS_16X16[0][4] && MDS_16X16[6][11] == MDS_16X16[0][5]);
        assert(MDS_16X16[6][12] == MDS_16X16[0][6] && MDS_16X16[6][13] == MDS_16X16[0][7]);
        assert(MDS_16X16[6][14] == MDS_16X16[0][8] && MDS_16X16[6][15] == MDS_16X16[0][9]);
    } else if i == 7 {
        assert(MDS_16X16[7][0] == MDS_16X16[0][9] && MDS_16X16[7][1] == MDS_16X16[0][10]);
        assert(MDS_16X16[7][2] == MDS_16X16[0][11] && MDS_16X16[7][3] == MDS_16X16[0][12]);
        assert(MDS_16X16[7][4] == MDS_16X16[0][13] && MDS_16X16[7][5] == MDS_16X16[0][14]);
        assert(MDS_16X16[7][6] == MDS_16X16[0][15] && MDS_16X16[7][7] == MDS_16X16[0][0]);
        assert(MDS_16X16[7][8] == MDS_16X16[0][1] && MDS_16X16[7][9] == MDS_16X16[0][2]);
        assert(MDS_16X16[7][10] == MDS_16X16[0][3] && MDS_16X16[7][11] == MDS_16X16[0][4]);
        assert(MDS_16X16[7][12] == MDS_16X16[0][5] && MDS_16X16[7][13] == MDS_16X16[0][6]);
        assert(MDS_16X16[7][14] == MDS_16X16[0][7] && MDS_16X16[7][15] == MDS_16X16[0][8]);
    } else if i == 8 {
        assert(MDS_16X16[8][0] == MDS_16X16[0][8] && MDS_16X16[8][1] == MDS_16X16[0][9]);
        assert(MDS_16X16[8][2] == MDS_16X16[0][10] && MDS_16X16[8][3] == MDS_16X16[0][11]);
        assert(MDS_16X16[8][4] == MDS_16X16[0][12] && MDS_16X16[8][5] == MDS_16X16[0][13]);
        assert(MDS_16X16[8][6] == MDS_16X16[0][14] && MDS_16X16[8][7] == MDS_16X16[0][15]);
        assert(MDS_16X16[8][8] == MDS_16X16[0][0] && MDS_16X16[8][9] == MDS_16X16[0][1]);
        assert(MDS_16X16[8][10] == MDS_16X16[0][2] && MDS_16X16[8][11] == MDS_16X16[0][3]);
        assert(MDS_16X16[8][12] == MDS_16X16[0][4] && MDS_16X16[8][13] == MDS_16X16[0][5]);
        assert(MDS_16X16[8][14] == MDS_16X16[0][6] && MDS_16X16[8][15] == MDS_16X16[0][7]);
    } else if i == 9 {
        assert(MDS_16X16[9][0] == MDS_16X16[0][7] && MDS_16X16[9][1] == MDS_16X16[0][8]);
        assert(MDS_16X16[9][2] == MDS_16X16[0][9] && MDS_16X16[9][3] == MDS_16X16[0][10]);
        assert(MDS_16X16[9][4] == MDS_16X16[0][11] && MDS_16X16[9][5] == MDS_16X16[0][12]);
        assert(MDS_16X16[9][6] == MDS_16X16[0][13] && MDS_16X16[9][7] == MDS_16X16[0][14]);
        assert(MDS_16X16[9][8] == MDS_16X16[0][15] && MDS_16X16[9][9] == MDS_16X16[0][0]);
        assert(MDS_16X16[9][10] == MDS_16X16[0][1] && MDS_16X16[9][11] == MDS_16X16[0][2]);
        assert(MDS_16X16[9][12] == MDS_16X16[0][3] && MDS_16X16[9][13] == MDS_16X16[0][4]);
        assert(MDS_16X16[9][14] == MDS_16X16[0][5] && MDS_16X16[9][15] == MDS_16X16[0][6]);
    } else if i == 10 {
        assert(MDS_16X16[10][0] == MDS_16X16[0][6] && MDS_16X16[10][1] == MDS_16X16[0][7]);
        assert(MDS_16X16[10][2] == MDS_16X16[0][8] && MDS_16X16[10][3] == MDS_16X16[0][9]);
        assert(MDS_16X16[10][4] == MDS_16X16[0][10] && MDS_16X16[10][5] == MDS_16X16[0][11]);
        assert(MDS_16X16[10][6] == MDS_16X16[0][12] && MDS_16X16[10][7] == MDS_16X16[0][13]);
        assert(MDS_16X16[10][8] == MDS_16X16[0][14] && MDS_16X16[10][9] == MDS_16X16[0][15]);
        assert(MDS_16X16[10][10] == MDS_16X16[0][0] && MDS_16X16[10][11] == MDS_16X16[0][1]);
        assert(MDS_16X16[10][12] == MDS_16X16[0][2] && MDS_16X16[10][13] == MDS_16X16[0][3]);
        assert(MDS_16X16[10][14] == MDS_16X16[0][4] && MDS_16X16[10][15] == MDS_16X16[0][5]);
    } else if i == 11 {
        assert(MDS_16X16[11][0] == MDS_16X16[0][5] && MDS_16X16[11][1] == MDS_16X16[0][6]);
        assert(MDS_16X16[11][2] == MDS_16X16[0][7] && MDS_16X16[11][3] == MDS_16X16[0][8]);
        assert(MDS_16X16[11][4] == MDS_16X16[0][9] && MDS_16X16[11][5] == MDS_16X16[0][10]);
        assert(MDS_16X16[11][6] == MDS_16X16[0][11] && MDS_16X16[11][7] == MDS_16X16[0][12]);
        assert(MDS_16X16[11][8] == MDS_16X16[0][13] && MDS_16X16[11][9] == MDS_16X16[0][14]);
        assert(MDS_16X16[11][10] == MDS_16X16[0][15] && MDS_16X16[11][11] == MDS_16X16[0][0]);
        assert(MDS_16X16[11][12] == MDS_16X16[0][1] && MDS_16X16[11][13] == MDS_16X16[0][2]);
        assert(MDS_16X16[11][14] == MDS_16X16[0][3] && MDS_16X16[11][15] == MDS_16X16[0][4]);
    } else if i == 12 {
        assert(MDS_16X16[12][0] == MDS_16X16[0][4] && MDS_16X16[12][1] == MDS_16X16[0][5]);
        assert(MDS_16X16[12][2] == MDS_16X16[0][6] && MDS_16X16[12][3] == MDS_16X16[0][7]);
        assert(MDS_16X16[12][4] == MDS_16X16[0][8] && MDS_16X16[12][5] == MDS_16X16[0][9]);
        assert(MDS_16X16[12][6] == MDS_16X16[0][10] && MDS_16X16[12][7] == MDS_16X16[0][11]);
        assert(MDS_16X16[12][8] == MDS_16X16[0][12] && MDS_16X16[12][9] == MDS_16X16[0][13]);
        assert(MDS_16X16[12][10] == MDS_16X16[0][14] && MDS_16X16[12][11] == MDS_16X16[0][15]);
        assert(MDS_16X16[12][12] == MDS_16X16[0][0] && MDS_16X16[12][13] == MDS_16X16[0][1]);
        assert(MDS_16X16[12][14] == MDS_16X16[0][2] && MDS_16X16[12][15] == MDS_16X16[0][3]);
    } else if i == 13 {
        assert(MDS_16X16[13][0] == MDS_16X16[0][3] && MDS_16X16[13][1] == MDS_16X16[0][4]);
        assert(MDS_16X16[13][2] == MDS_16X16[0][5] && MDS_16X16[13][3] == MDS_16X16[0][6]);
        assert(MDS_16X16[13][4] == MDS_16X16[0][7] && MDS_16X16[13][5] == MDS_16X16[0][8]);
        assert(MDS_16X16[13][6] == MDS_16X16[0][9] && MDS_16X16[13][7] == MDS_16X16[0][10]);
        assert(MDS_16X16[13][8] == MDS_16X16[0][11] && MDS_16X16[13][9] == MDS_16X16[0][12]);
        assert(MDS_16X16[13][10] == MDS_16X16[0][13] && MDS_16X16[13][11] == MDS_16X16[0][14]);
        assert(MDS_16X16[13][12] == MDS_16X16[0][15] && MDS_16X16[13][13] == MDS_16X16[0][0]);
        assert(MDS_16X16[13][14] == MDS_16X16[0][1] && MDS_16X16[13][15] == MDS_16X16[0][2]);
    } else if i == 14 {
        assert(MDS_16X16[14][0] == MDS_16X16[0][2] && MDS_16X16[14][1] == MDS_16X16[0][3]);
        assert(MDS_16X16[14][2] == MDS_16X16[0][4] && MDS_16X16[14][3] == MDS_16X16[0][5]);
        assert(MDS_16X16[14][4] == MDS_16X16[0][6] && MDS_16X16[14][5] == MDS_16X16[0][7]);
        assert(MDS_16X16[14][6] == MDS_16X16[0][8] && MDS_16X16[14][7] == MDS_16X16[0][9]);
        assert(MDS_16X16[14][8] == MDS_16X16[0][10] && MDS_16X16[14][9] == MDS_16X16[0][11]);
        assert(MDS_16X16[14][10] == MDS_16X16[0][12] && MDS_16X16[14][11] == MDS_16X16[0][13]);
        assert(MDS_16X16[14][12] == MDS_16X16[0][14] && MDS_16X16[14][13] == MDS_16X16[0][15]);
        assert(MDS_16X16[14][14] == MDS_16X16[0][0] && MDS_16X16[14][15] == MDS_16X16[0][1]);
    } else {
        assert(MDS_16X16[15][0] == MDS_16X16[0][1] && MDS_16X16[15][1] == MDS_16X16[0][2]);
        assert(MDS_16X16[15][2] == MDS_16X16[0][3] && MDS_16X16[15][3] == MDS_16X16[0][4]);
        assert(MDS_16X16[15][4] == MDS_16X16[0][5] && MDS_16X16[15][5] == MDS_16X16[0][6]);
        assert(MDS_16X16[15][6] == MDS_16X16[0][7] && MDS_16X16[15][7] == MDS_16X16[0][8]);
        assert(MDS_16X16[15][8] == MDS_16X16[0][9] && MDS_16X16[15][9] == MDS_16X16[0][10]);
        assert(MDS_16X16[15][10] == MDS_16X16[0][11] && MDS_16X16[15][11] == MDS_16X16[0][12]);
        assert(MDS_16X16[15][12] == MDS_16X16[0][13] && MDS_16X16[15][13] == MDS_16X16[0][14]);
        assert(MDS_16X16[15][14] == MDS_16X16[0][15] && MDS_16X16[15][15] == MDS_16X16[0][0]);
    }
}

/// The rows of the MDS matrix as integer sequences.
pub open spec fn mds_matrix() -> Seq<Seq<int>> {
    Seq::new(16, |i: int| Seq::new(16, |j: int| MDS_16X16[i][j] as int))
}

/// The MDS product: lane `i` is the inner product of row `i` with the state, modulo p.
pub open spec fn mds_product(x: Seq<int>) -> Seq<int> {
    mat_vec(mds_matrix(), x)
}

/// `v` times entry `k` of `POWERS_OF_OMEGA_BITREVERSED`.
pub open spec fn times_omega(k: int, v: int) -> int {
    if k == 0 {
        v
    } else if k == 1 {
        281474976710656 * v
    } else if k == 2 {
        18446744069397807105 * v
    } else if k == 3 {
        18446742969902956801 * v
    } else if k == 4 {
        17293822564807737345 * v
    } else if k == 5 {
        4096 * v
    } else if k == 6 {
        4503599626321920 * v
    } else {
        18446744000695107585 * v
    }
}

/// `v` times entry `k` of `POWERS_OF_OMEGA_INVERSE`.
pub open spec fn times_omega_inverse(k: int, v: int) -> int {
    if k == 0 {
        v
    } else if k == 1 {
        68719476736 * v
    } else if k == 2 {
        1099511627520 * v
    } else if k == 3 {
        18446744069414580225 * v
    } else if k == 4 {
        18446462594437873665 * v
    } else if k == 5 {
        18442240469788262401 * v
    } else if k == 6 {
        16777216 * v
    } else {
        1152921504606846976 * v
    }
}

/// `v` times two to the power `s`, for the shifts that occur.
pub open spec fn times_pow2(s: int, v: int) -> int {
    if s == 0 {
        v
    } else if s == 1 {
        2 * v
    } else if s == 2 {
        4 * v
    } else if s == 3 {
        8 * v
    } else if s == 4 {
        16 * v
    } else if s == 5 {
        32 * v
    } else if s == 6 {
        64 * v
    } else {
        128 * v
    }
}

/// What the shift stage does to the residue of lane `i`: the Montgomery word is shifted and
/// reduced, so the residue is multiplied by `2^SHIFTS[i]` and divided by `2^64`.
pub open spec fn times_shift(i: int, v: int) -> int {
    18446744065119617025 * times_pow2(SHIFTS[i] as int, v)
}

/// `t` for the lower lane of a butterfly, `-t` for the upper one.
pub open spec fn signed(lower: bool, t: int) -> int {
    if lower {
        t
    } else {
        -t
    }
}

/// The lane from which lane `i` takes its unscaled term in stage `s`: the lower lane of its
/// butterfly.
pub open spec fn source_lo(s: int, i: int) -> int {
    if s == 0 || s == 8 {
        if i % 16 < 8 { i } else { i - 8 }
    } else if s == 1 || s == 7 {
        if i % 8 < 4 { i } else { i - 4 }
    } else if s == 2 || s == 6 {
        if i % 4 < 2 { i } else { i - 2 }
    } else if s == 3 || s == 5 {
        if i % 2 < 1 { i } else { i - 1 }
    } else {
        i
    }
}

/// The lane whose scaled value enters lane `i` in stage `s`: the upper lane of its butterfly.
pub open spec fn source_hi(s: int, i: int) -> int {
    if s == 0 || s == 8 {
        source_lo(s, i) + 8
    } else if s == 1 || s == 7 {
        source_lo(s, i) + 4
    } else if s == 2 || s == 6 {
        source_lo(s, i) + 2
    } else if s == 3 || s == 5 {
        source_lo(s, i) + 1
    } else {
        i
    }
}

/// The scaled term of lane `i` in stage `s`, for the value `v` of its upper lane. Stages 0 to
/// 3 are the forward transform with halves 8, 4, 2, 1 and one twiddle per block; stage 4 is
/// the shift; stages 5 to 8 are the inverse transform with halves 1, 2, 4, 8 and one twiddle
/// per position in the half.
pub open spec fn scaled(s: int, i: int, v: int) -> int {
    if s == 0 {
        signed(i % 16 < 8, times_omega(i / 16, v))
    } else if s == 1 {
        signed(i % 8 < 4, times_omega(i / 8, v))
    } else if s == 2 {
        signed(i % 4 < 2, times_omega(i / 4, v))
    } else if s == 3 {
        signed(i % 2 < 1, times_omega(i / 2, v))
    } else if s == 4 {
        times_shift(i, v)
    } else if s == 5 {
        signed(i % 2 < 1, times_omega_inverse(0, v))
    } else if s == 6 {
        signed(i % 4 < 2, times_omega_inverse(4 * (i % 2), v))
    } else if s == 7 {
        signed(i % 8 < 4, times_omega_inverse(2 * (i % 4), v))
    } else {
        signed(i % 16 < 8, times_omega_inverse(i % 8, v))
    }
}

/// Lane `i` after stage `s`, before reduction modulo p.
pub open spec fn step_raw(s: int, x: Seq<int>, i: int) -> int {
    if s == 4 {
        scaled(s, i, x[i])
    } else {
        x[source_lo(s, i)] + scaled(s, i, x[source_hi(s, i)])
    }
}

/// Lane `i` after stage `s`.
pub open spec fn step_lane(s: int, x: Seq<int>, i: int) -> int {
    step_raw(s, x, i) % prime()
}

/// The state after stage `s`.
pub open spec fn step(s: int, x: Seq<int>) -> Seq<int> {
    Seq::new(16, |i: int| step_lane(s, x, i))
}

/// The state after the first `n` stages.
pub open spec fn run(n: nat, x: Seq<int>) -> Seq<int>
    decreases n,
{
    if n == 0 {
        x
    } else {
        step(n - 1, run((n - 1) as nat, x))
    }
}

/// `c` is column `j` of the MDS matrix.
pub open spec fn is_mds_column(c: Seq<int>, j: int) -> bool {
    &&& c.len() == 16
    &&& forall|i: int| 0 <= i < 16 ==> c[i] == MDS_16X16[i][j]
}

/// Half the width of the blocks of butterfly stage `s`.
pub open spec fn half(s: int) -> int {
    if s == 0 || s == 8 {
        8
    } else if s == 1 || s == 7 {
        4
    } else if s == 2 || s == 6 {
        2
    } else {
        1
    }
}

/// The lower lane of butterfly `t` of stage `s`; its upper lane is `half(s)` lanes above.
pub open spec fn lower_lane(s: int, t: int) -> int {
    if s == 0 || s == 8 {
        t
    } else if s == 1 || s == 7 {
        (t / 4) * 8 + t % 4
    } else if s == 2 || s == 6 {
        (t / 2) * 4 + t % 2
    } else {
        2 * t
    }
}

/// The butterfly of stage `s` that writes lane `i`.
pub open spec fn butterfly_index(s: int, i: int) -> int {
    if s == 0 || s == 8 {
        i % 8
    } else if s == 1 || s == 7 {
        (i / 8) * 4 + i % 4
    } else if s == 2 || s == 6 {
        (i / 4) * 2 + i % 2
    } else {
        i / 2
    }
}

/// The entry of the table of powers that butterfly `t` of stage `s` multiplies by: one per
/// block in the forward transform, one per position in the block in the inverse transform.
pub open spec fn twiddle_index(s: int, t: int) -> int {
    if s == 0 || s == 5 {
        0
    } else if s == 1 {
        t / 4
    } else if s == 2 {
        t / 2
    } else if s == 3 || s == 8 {
        t
    } else if s == 6 {
        4 * (t % 2)
    } else {
        2 * (t % 4)
    }
}

/// The power that butterfly `t` of stage `s` multiplies by.
pub open spec fn twiddle(s: int, t: int) -> int {
    if s < 4 {
        POWERS_OF_OMEGA_BITREVERSED[twiddle_index(s, t)] as int
    } else {
        POWERS_OF_OMEGA_INVERSE[twiddle_index(s, t)] as int
    }
}

/// The forward transform: stages 0 to 3.
pub open spec fn ntt(x: Seq<int>) -> Seq<int> {
    step(3, step(2, step(1, step(0, x))))
}

/// The shift stage.
pub open spec fn shifted(x: Seq<int>) -> Seq<int> {
    step(4, x)
}

/// The inverse transform: stages 5 to 8.
pub open spec fn intt(x: Seq<int>) -> Seq<int> {
    step(8, step(7, step(6, step(5, x))))
}

/// Entry `k` of the table of powers multiplies as `times_omega` says.
proof fn lemma_omega_table(k: int, v: int)
    requires
        0 <= k < 8,
    ensures
        times_omega(k, v) == (POWERS_OF_OMEGA_BITREVERSED[k] as int) * v,
{
    if k == 0 {
        lemma_literal_product(POWERS_OF_OMEGA_BITREVERSED[k] as int, 1, v);
    } else if k == 1 {
        lemma_literal_product(POWERS_OF_OMEGA_BITREVERSED[k] as int, 281474976710656, v);
    } else if k == 2 {
        lemma_literal_product(POWERS_OF_OMEGA_BITREVERSED[k] as int, 18446744069397807105, v);
    } else if k == 3 {
        lemma_literal_product(POWERS_OF_OMEGA_BITREVERSED[k] as int, 18446742969902956801, v);
    } else if k == 4 {
        lemma_literal_product(POWERS_OF_OMEGA_BITREVERSED[k] as int, 17293822564807737345, v);
    } else if k == 5 {
        lemma_literal_product(POWERS_OF_OMEGA_BITREVERSED[k] as int, 4096, v);
    } else if k == 6 {
        lemma_literal_product(POWERS_OF_OMEGA_BITREVERSED[k] as int, 4503599626321920, v);
    } else {
        lemma_literal_product(POWERS_OF_OMEGA_BITREVERSED[k] as int, 18446744000695107585, v);
    }
}

/// Entry `k` of the table of inverse powers multiplies as `times_omega_inverse` says.
proof fn lemma_omega_inverse_table(k: int, v: int)
    requires
        0 <= k < 8,
    ensures
        times_omega_inverse(k, v) == (POWERS_OF_OMEGA_INVERSE[k] as int) * v,
{
    if k == 0 {
        lemma_literal_product(POWERS_OF_OMEGA_INVERSE[k] as int, 1, v);
    } else if k == 1 {
        lemma_literal_product(POWERS_OF_OMEGA_INVERSE[k] as int, 68719476736, v);
    } else if k == 2 {
        lemma_literal_product(POWERS_OF_OMEGA_INVERSE[k] as int, 1099511627520, v);
    } else if k == 3 {
        lemma_literal_product(POWERS_OF_OMEGA_INVERSE[k] as int, 18446744069414580225, v);
    } else if k == 4 {
        lemma_literal_product(POWERS_OF_OMEGA_INVERSE[k] as int, 18446462594437873665, v);
    } else if k == 5 {
        lemma_literal_product(POWERS_OF_OMEGA_INVERSE[k] as int, 18442240469788262401, v);
    } else if k == 6 {
        lemma_literal_product(POWERS_OF_OMEGA_INVERSE[k] as int, 16777216, v);
    } else {
        lemma_literal_product(POWERS_OF_OMEGA_INVERSE[k] as int, 1152921504606846976, v);
    }
}

/// The two lanes that a butterfly writes, without the inner reduction of the product.
proof fn lemma_butterfly(a: int, b: int, z: int)
    ensures
        add_mod(a, mul_mod(b, z % prime())) == (a + z * b) % prime(),
        sub_mod(a, mul_mod(b, z % prime())) == (a - z * b) % prime(),
{
    let p = prime();
    lemma_mul_mod_noop_right(b, z, p);
    lemma_mul_is_commutative(b, z);
    lemma_add_mod_noop_right(a, z * b, p);
    lemma_sub_mod_noop_right(a, z * b, p);
}

/// Lane `i` after the first `t` butterflies of stage `s`.
#[verifier::opaque]
pub open spec fn stage_progress(s: int, before: Seq<int>, t: int, i: int) -> int {
    if butterfly_index(s, i) < t {
        step_lane(s, before, i)
    } else {
        before[i]
    }
}

/// Butterfly `t` of stage `s` reads two lanes that the stage has not written yet and
/// writes them as the stage says; it leaves the other lanes alone.
#[verifier::rlimit(40)]
proof fn lemma_butterfly_lanes(s: int, t: int, x: Seq<int>)
    requires
        0 <= s < 9,
        s != 4,
        0 <= t < 8,
    ensures
        ({
            let lo = lower_lane(s, t);
            let hi = lo + half(s);
            let z = twiddle(s, t);
            &&& 0 <= lo < hi < 16
            &&& 0 <= twiddle_index(s, t) < 8
            &&& stage_progress(s, x, t, lo) == x[lo]
            &&& stage_progress(s, x, t, hi) == x[hi]
            &&& stage_progress(s, x, t + 1, lo) == (x[lo] + z * x[hi]) % prime()
            &&& stage_progress(s, x, t + 1, hi) == (x[lo] - z * x[hi]) % prime()
            &&& forall|i: int|
                0 <= i < 16 && i != lo && i != hi ==> #[trigger] stage_progress(s, x, t + 1, i) == stage_progress(
                    s,
                    x,
                    t,
                    i,
                )
        }),
{
    reveal(stage_progress);
    let lo = lower_lane(s, t);
    let hi = lo + half(s);
    let k = twiddle_index(s, t);
    if s < 4 {
        lemma_omega_table(k, x[hi]);
    } else {
        lemma_omega_inverse_table(k, x[hi]);
    }
}

/// No butterfly has written before the first, and all lanes are written after the eighth.
proof fn lemma_stage_ends(s: int, x: Seq<int>, i: int)
    requires
        0 <= s < 9,
        s != 4,
        0 <= i < 16,
    ensures
        stage_progress(s, x, 0, i) == x[i],
        stage_progress(s, x, 8, i) == step_lane(s, x, i),
{
    reveal(stage_progress);
}

/// One butterfly: lanes `lo` and `hi` become `x[lo] + zeta * x[hi]` and
/// `x[lo] - zeta * x[hi]`.
fn butterfly(x: &mut [Felt; 16], lo: usize, hi: usize, zeta: Felt)
    requires
        lo < hi < 16,
    ensures
        final(x)[lo as int].value == add_mod(
            old(x)[lo as int].value as int,
            mul_mod(old(x)[hi as int].value as int, zeta.value as int),
        ),
        final(x)[hi as int].value == sub_mod(
            old(x)[lo as int].value as int,
            mul_mod(old(x)[hi as int].value as int, zeta.value as int),
        ),
        forall|i: int| 0 <= i < 16 && i != lo && i != hi ==> final(x)[i] == old(x)[i],
{
    let u = x[lo];
    let v = x[hi].mul(zeta);
    x[lo] = u.add(v);
    x[hi] = u.sub(v);
}

/// One stage of butterflies, in place: eight butterflies, each on a pair of lanes that are
/// `half(s)` apart.
fn butterfly_stage(x: &mut [Felt; 16], s: usize)
    requires
        s < 9,
        s != 4,
    ensures
        residues(final(x)@) == step(s as int, residues(old(x)@)),
{
    let ghost before = residues(x@);
    let distance: usize = if s == 0 || s == 8 {
        8
    } else if s == 1 || s == 7 {
        4
    } else if s == 2 || s == 6 {
        2
    } else {
        1
    };
    proof {
        assert forall|i: int| 0 <= i < 16 implies (#[trigger] x[i]).value == stage_progress(
            s as int,
            before,
            0,
            i,
        ) by {
            lemma_stage_ends(s as int, before, i);
        }
    }
    let mut t: usize = 0;
    while t < 8
        invariant
            t <= 8,
            s < 9,
            s != 4,
            distance == half(s as int),
            before.len() == 16,
            forall|i: int| 0 <= i < 16 ==> (#[trigger] x[i]).value == stage_progress(s as int, before, t as int, i),
        decreases 8 - t,
    {
        let lo: usize = if s == 0 || s == 8 {
            t
        } else if s == 1 || s == 7 {
            (t / 4) * 8 + t % 4
        } else if s == 2 || s == 6 {
            (t / 2) * 4 + t % 2
        } else {
            2 * t
        };
        let k: usize = if s == 0 || s == 5 {
            0
        } else if s == 1 {
            t / 4
        } else if s == 2 {
            t / 2
        } else if s == 3 || s == 8 {
            t
        } else if s == 6 {
            4 * (t % 2)
        } else {
            2 * (t % 4)
        };
        proof {
            lemma_butterfly_lanes(s as int, t as int, before);
        }
        let zeta = if s < 4 {
            Felt::new(POWERS_OF_OMEGA_BITREVERSED[k])
        } else {
            Felt::new(POWERS_OF_OMEGA_INVERSE[k])
        };
        proof {
            lemma_butterfly(before[lo as int], before[lo + distance], twiddle(s as int, t as int));
        }
        butterfly(x, lo, lo + distance, zeta);
        t += 1;
    }
    proof {
        assert forall|i: int| 0 <= i < 16 implies residues(x@)[i] == step(s as int, before)[i] by {
            lemma_stage_ends(s as int, before, i);
        }
        assert(residues(x@) =~= step(s as int, before));
    }
}

/// The forward transform, in place and without the final reordering of lanes: four stages
/// of butterflies on blocks of 16, 8, 4 and 2 lanes.
pub fn ntt_noswap(x: &mut [Felt; 16])
    ensures
        residues(final(x)@) == ntt(residues(old(x)@)),
{
    butterfly_stage(x, 0);
    butterfly_stage(x, 1);
    butterfly_stage(x, 2);
    butterfly_stage(x, 3);
}

/// The inverse transform, in place, on lanes in the order that `ntt_noswap` leaves: four
/// stages of butterflies on blocks of 2, 4, 8 and 16 lanes.
pub fn intt_noswap(x: &mut [Felt; 16])
    ensures
        residues(final(x)@) == intt(residues(old(x)@)),
{
    butterfly_stage(x, 5);
    butterfly_stage(x, 6);
    butterfly_stage(x, 7);
    butterfly_stage(x, 8);
}

/// The shift of a word by `s` places in its 128-bit lift.
fn shift_left(word: u64, s: u8) -> (r: u128)
    requires
        s <= 7,
    ensures
        r == times_pow2(s as int, word as int),
{
    let x: u128 = word as u128;
    proof {
        assert(x << 0u128 == x) by (bit_vector);
        assert(x << 1u128 == 2 * x) by (bit_vector)
            requires
                x < 0x1_0000_0000_0000_0000u128,
        ;
        assert(x << 2u128 == 4 * x) by (bit_vector)
            requires
                x < 0x1_0000_0000_0000_0000u128,
        ;
        assert(x << 3u128 == 8 * x) by (bit_vector)
            requires
                x < 0x1_0000_0000_0000_0000u128,
        ;
        assert(x << 4u128 == 16 * x) by (bit_vector)
            requires
                x < 0x1_0000_0000_0000_0000u128,
        ;
        assert(x << 5u128 == 32 * x) by (bit_vector)
            requires
                x < 0x1_0000_0000_0000_0000u128,
        ;
        assert(x << 6u128 == 64 * x) by (bit_vector)
            requires
                x < 0x1_0000_0000_0000_0000u128,
        ;
        assert(x << 7u128 == 128 * x) by (bit_vector)
            requires
                x < 0x1_0000_0000_0000_0000u128,
        ;
    }
    x << s
}

/// Every shift is at most 7.
proof fn lemma_shifts_bounded(i: int)
    requires
        0 <= i < 16,
    ensures
        SHIFTS[i] <= 7,
{
    if i < 4 {
        assert(SHIFTS[0] <= 7 && SHIFTS[1] <= 7 && SHIFTS[2] <= 7 && SHIFTS[3] <= 7);
    } else if i < 8 {
        assert(SHIFTS[4] <= 7 && SHIFTS[5] <= 7 && SHIFTS[6] <= 7 && SHIFTS[7] <= 7);
    } else if i < 12 {
        assert(SHIFTS[8] <= 7 && SHIFTS[9] <= 7 && SHIFTS[10] <= 7 && SHIFTS[11] <= 7);
    } else {
        assert(SHIFTS[12] <= 7 && SHIFTS[13] <= 7 && SHIFTS[14] <= 7 && SHIFTS[15] <= 7);
    }
}

/// Shifting the Montgomery word of `v` by `s` places and reducing it gives the Montgomery
/// word of an element whose residue is `v * 2^s / 2^64`.
proof fn lemma_shift_lane(v: int, s: int)
    ensures
        mont_reduce_spec(mont_reduce_spec(times_pow2(s, to_mont(v)))) == (18446744065119617025 * times_pow2(
            s,
            v,
        )) % prime(),
{
    let p = prime();
    let r = MONT_R as int;
    let ri = MONT_R_INV as int;
    let f = times_pow2(s, 1);
    let a = v * r;
    lemma_times_pow2_linear(s, to_mont(v));
    lemma_times_pow2_linear(s, v);
    // the word after the reduction is f * v mod p
    assert((f * (a % p)) * ri == (f * ri) * (a % p)) by (nonlinear_arith);
    lemma_mul_mod_noop_right(f * ri, a, p);
    assert((f * ri) * a == (f * v) * (r * ri)) by (nonlinear_arith)
        requires
            a == v * r,
    ;
    assert((r * ri) % p == 1);
    lemma_mul_mod_noop_right(f * v, r * ri, p);
    assert(mont_reduce_spec(f * to_mont(v)) == (f * v) % p);
    // and the residue that this word stands for is f * v / 2^64
    lemma_mul_mod_noop_left(f * v, ri, p);
    lemma_mul_is_commutative(f * v, ri);
}

/// Multiplies the state by the MDS matrix: forward transform, shift of each lane's
/// Montgomery word in its 128-bit lift, Montgomery reduction, inverse transform.
pub fn mds_multiply(state: &mut [Felt; 16])
    ensures
        residues(final(state)@) == mds_product(residues(old(state)@)),
{
    let ghost input = residues(state@);
    let mut array: [u128; 16] = [0; 16];
    ntt_noswap(state);
    let ghost transformed = residues(state@);

    let mut i: usize = 0;
    while i < 16
        invariant
            i <= 16,
            residues(state@) == transformed,
            forall|k: int| 0 <= k < i ==> (#[trigger] array[k]) == times_pow2(SHIFTS[k] as int, to_mont(transformed[k])),
        decreases 16 - i,
    {
        proof {
            lemma_shifts_bounded(i as int);
            assert(transformed[i as int] == state[i as int].value);
        }
        array[i] = shift_left(state[i].inner(), SHIFTS[i]);
        i += 1;
    }
    let mut i: usize = 0;
    while i < 16
        invariant
            i <= 16,
            transformed.len() == 16,
            forall|k: int| 0 <= k < 16 ==> (#[trigger] array[k]) == times_pow2(SHIFTS[k] as int, to_mont(transformed[k])),
            forall|k: int| 0 <= k < i ==> (#[trigger] state[k]).value == step_lane(4, transformed, k),
        decreases 16 - i,
    {
        proof {
            lemma_shift_lane(transformed[i as int], SHIFTS[i as int] as int);
        }
        state[i] = Felt::from_mont(mont_reduce(array[i]));
        i += 1;
    }
    proof {
        assert(residues(state@) =~= shifted(transformed));
    }
    intt_noswap(state);
    proof {
        lemma_transform_is_mds_product(input);
    }
}

/// A factor that equals a literal multiplies like the literal.
proof fn lemma_literal_product(t: int, c: int, v: int)
    requires
        t == c,
    ensures
        t * v == c * v,
{
}

/// Multiplication by a power of the root of unity is multiplication by a constant.
proof fn lemma_times_omega_linear(k: int, v: int)
    ensures
        times_omega(k, v) == times_omega(k, 1) * v,
{
    if k == 0 {
        lemma_literal_product(times_omega(k, 1), 1, v);
    } else if k == 1 {
        lemma_literal_product(times_omega(k, 1), 281474976710656, v);
    } else if k == 2 {
        lemma_literal_product(times_omega(k, 1), 18446744069397807105, v);
    } else if k == 3 {
        lemma_literal_product(times_omega(k, 1), 18446742969902956801, v);
    } else if k == 4 {
        lemma_literal_product(times_omega(k, 1), 17293822564807737345, v);
    } else if k == 5 {
        lemma_literal_product(times_omega(k, 1), 4096, v);
    } else if k == 6 {
        lemma_literal_product(times_omega(k, 1), 4503599626321920, v);
    } else {
        lemma_literal_product(times_omega(k, 1), 18446744000695107585, v);
    }
}

/// Multiplication by a power of the inverse root of unity is multiplication by a constant.
proof fn lemma_times_omega_inverse_linear(k: int, v: int)
    ensures
        times_omega_inverse(k, v) == times_omega_inverse(k, 1) * v,
{
    if k == 0 {
        lemma_literal_product(times_omega_inverse(k, 1), 1, v);
    } else if k == 1 {
        lemma_literal_product(times_omega_inverse(k, 1), 68719476736, v);
    } else if k == 2 {
        lemma_literal_product(times_omega_inverse(k, 1), 1099511627520, v);
    } else if k == 3 {
        lemma_literal_product(times_omega_inverse(k, 1), 18446744069414580225, v);
    } else if k == 4 {
        lemma_literal_product(times_omega_inverse(k, 1), 18446462594437873665, v);
    } else if k == 5 {
        lemma_literal_product(times_omega_inverse(k, 1), 18442240469788262401, v);
    } else if k == 6 {
        lemma_literal_product(times_omega_inverse(k, 1), 16777216, v);
    } else {
        lemma_literal_product(times_omega_inverse(k, 1), 1152921504606846976, v);
    }
}

/// Multiplication by a power of two is multiplication by a constant.
proof fn lemma_times_pow2_linear(k: int, v: int)
    ensures
        times_pow2(k, v) == times_pow2(k, 1) * v,
{
    if k == 0 {
        lemma_literal_product(times_pow2(k, 1), 1, v);
    } else if k == 1 {
        lemma_literal_product(times_pow2(k, 1), 2, v);
    } else if k == 2 {
        lemma_literal_product(times_pow2(k, 1), 4, v);
    } else if k == 3 {
        lemma_literal_product(times_pow2(k, 1), 8, v);
    } else if k == 4 {
        lemma_literal_product(times_pow2(k, 1), 16, v);
    } else if k == 5 {
        lemma_literal_product(times_pow2(k, 1), 32, v);
    } else if k == 6 {
        lemma_literal_product(times_pow2(k, 1), 64, v);
    } else {
        lemma_literal_product(times_pow2(k, 1), 128, v);
    }
}

/// The sign of a butterfly lane commutes with the multiplication by the input.
proof fn lemma_signed_linear(lower: bool, t: int, v: int)
    ensures
        signed(lower, t * v) == signed(lower, t) * v,
{
    assert(-(t * v) == (-t) * v) by (nonlinear_arith);
}

/// The scaled term of a lane is its value for 1 times the input.
pub proof fn lemma_scaled_linear(s: int, i: int, v: int)
    requires
        0 <= s < 9,
        0 <= i < 16,
    ensures
        scaled(s, i, v) == scaled(s, i, 1) * v,
{
    if s == 0 {
        lemma_times_omega_linear(i / 16, v);
        lemma_signed_linear(i % 16 < 8, times_omega(i / 16, 1), v);
    } else if s == 1 {
        lemma_times_omega_linear(i / 8, v);
        lemma_signed_linear(i % 8 < 4, times_omega(i / 8, 1), v);
    } else if s == 2 {
        lemma_times_omega_linear(i / 4, v);
        lemma_signed_linear(i % 4 < 2, times_omega(i / 4, 1), v);
    } else if s == 3 {
        lemma_times_omega_linear(i / 2, v);
        lemma_signed_linear(i % 2 < 1, times_omega(i / 2, 1), v);
    } else if s == 4 {
        let t = times_pow2(SHIFTS[i] as int, 1);
        lemma_times_pow2_linear(SHIFTS[i] as int, v);
        lemma_mul_is_associative(18446744065119617025, t, v);
    } else if s == 5 {
        lemma_times_omega_inverse_linear(0, v);
        lemma_signed_linear(i % 2 < 1, times_omega_inverse(0, 1), v);
    } else if s == 6 {
        lemma_times_omega_inverse_linear(4 * (i % 2), v);
        lemma_signed_linear(i % 4 < 2, times_omega_inverse(4 * (i % 2), 1), v);
    } else if s == 7 {
        lemma_times_omega_inverse_linear(2 * (i % 4), v);
        lemma_signed_linear(i % 8 < 4, times_omega_inverse(2 * (i % 4), 1), v);
    } else {
        lemma_times_omega_inverse_linear(i % 8, v);
        lemma_signed_linear(i % 16 < 8, times_omega_inverse(i % 8, 1), v);
    }
}

/// The images of the unit vectors under the first `n` stages.
pub open spec fn columns_after(n: nat) -> Seq<Seq<int>> {
    Seq::new(16, |j: int| run(n, basis(j, 16)))
}

/// Each stage keeps a state that is a combination of columns a combination of the columns'
/// images, with the same weights.
pub proof fn lemma_step_represents(s: int, y: Seq<int>, cols: Seq<Seq<int>>, x: Seq<int>)
    requires
        0 <= s < 9,
        y.len() == 16,
        cols.len() == 16,
        represents(y, cols, x),
    ensures
        represents(step(s, y), Seq::new(16, |j: int| step(s, cols[j])), x),
{
    let p = prime();
    let next = Seq::new(16, |j: int| step(s, cols[j]));
    assert forall|i: int| 0 <= i < 16 implies step(s, y)[i] % p == #[trigger] combine(next, x, i, 16) % p by {
        let lo = source_lo(s, i);
        let hi = source_hi(s, i);
        let k = scaled(s, i, 1);
        assert(0 <= lo < 16 && 0 <= hi < 16);
        let c_lo = combine(cols, x, lo, 16);
        let c_hi = combine(cols, x, hi, 16);
        assert(y[lo] % p == c_lo % p);
        assert(y[hi] % p == c_hi % p);
        lemma_scaled_linear(s, i, y[hi]);
        lemma_mod_twice(step_raw(s, y, i), p);
        if s == 4 {
            assert forall|j: int| 0 <= j < 16 implies (#[trigger] next[j])[i] == (0 * cols[j][lo] + k * cols[j][hi]) % p by {
                lemma_scaled_linear(s, i, cols[j][hi]);
            }
            lemma_combine_affine(cols, next, x, i, lo, hi, 0, k, 16);
            lemma_affine_congruence(0, 0, k, y[hi], c_hi);
        } else {
            assert forall|j: int| 0 <= j < 16 implies (#[trigger] next[j])[i] == (1 * cols[j][lo] + k * cols[j][hi]) % p by {
                lemma_scaled_linear(s, i, cols[j][hi]);
            }
            lemma_combine_affine(cols, next, x, i, lo, hi, 1, k, 16);
            lemma_affine_congruence(y[lo], c_lo, k, y[hi], c_hi);
        }
    }
}

/// After any number of stages the state is the combination of the images of the unit
/// vectors, weighted by the input.
pub proof fn lemma_run_represents(n: nat, x: Seq<int>)
    requires
        n <= 9,
        x.len() == 16,
    ensures
        run(n, x).len() == 16,
        represents(run(n, x), columns_after(n), x),
    decreases n,
{
    if n == 0 {
        assert(columns_after(0) =~= basis_columns(16));
        assert forall|i: int| 0 <= i < 16 implies x[i] % prime() == #[trigger] combine(columns_after(0), x, i, 16)
            % prime() by {
            lemma_combine_basis(x, i, 16, 16);
        }
    } else {
        let m = (n - 1) as nat;
        lemma_run_represents(m, x);
        lemma_step_represents(m as int, run(m, x), columns_after(m), x);
        assert(Seq::new(16, |j: int| step(m as int, columns_after(m)[j])) =~= columns_after(n));
    }
}

/// The transform-based product is the MDS product: forward transform, shift and inverse
/// transform together multiply the state by the circulant matrix.
pub proof fn lemma_transform_is_mds_product(x: Seq<int>)
    requires
        x.len() == 16,
    ensures
        intt(shifted(ntt(x))) == mds_product(x),
{
    let p = prime();
    let cols = columns_after(9);
    lemma_run_represents(9, x);
    assert forall|i: int| 0 <= i < 16 implies run(9, x)[i] == mds_product(x)[i] by {
        let row = mds_matrix()[i];
        assert forall|j: int| 0 <= j < 16 implies (#[trigger] cols[j])[i] == row[j] by {
            lemma_columns(j);
        }
        lemma_combine_is_dot(cols, row, x, i, 16);
        assert(cols.len() == 16);
        assert(run(9, x)[i] % p == combine(cols, x, i, cols.len()) % p);
        lemma_mod_twice(step_raw(8, run(8, x), i), p);
    }
    assert(run(9, x) =~= mds_product(x));
    assert(run(9, x) == intt(shifted(ntt(x)))) by {
        reveal_with_fuel(run, 10);
    }
}

} // verus!
