//! The sixteen columns of the matrix that the transform-based product applies, each traced
//! through the nine stages of the transform on a unit vector. Every lane of every stage is
//! given with its quotient and remainder modulo p.

use crate::field::prime;
use crate::mds::linear::basis;
use crate::mds::mds_16x16::{is_mds_column, run, step, step_raw};
use vstd::arithmetic::div_mod::lemma_fundamental_div_mod_converse;
use vstd::prelude::*;

verus! {

/// A value written as `p * q + r` with `0 <= r < p` has remainder `r`.
proof fn lemma_reduce(x: int, q: int, r: int)
    requires
        x == 18446744069414584321 * q + r,
        0 <= r < 18446744069414584321,
    ensures
        x % prime() == r,
{
    lemma_fundamental_div_mod_converse(x, prime(), q, r);
}

/// The sixteen lanes of `c`.
#[verifier::opaque]
spec fn lanes16(
    c: Seq<int>,
    a0: int,
    a1: int,
    a2: int,
    a3: int,
    a4: int,
    a5: int,
    a6: int,
    a7: int,
    a8: int,
    a9: int,
    a10: int,
    a11: int,
    a12: int,
    a13: int,
    a14: int,
    a15: int,
) -> bool {
    &&& c.len() == 16
    &&& c[0] == a0
    &&& c[1] == a1
    &&& c[2] == a2
    &&& c[3] == a3
    &&& c[4] == a4
    &&& c[5] == a5
    &&& c[6] == a6
    &&& c[7] == a7
    &&& c[8] == a8
    &&& c[9] == a9
    &&& c[10] == a10
    &&& c[11] == a11
    &&& c[12] == a12
    &&& c[13] == a13
    &&& c[14] == a14
    &&& c[15] == a15
}

/// Stage 0 on column 0.
proof fn lemma_column_0_stage_0(c: Seq<int>)
    requires
        lanes16(c, 1, 0, 0, 0, 0, 0, 0, 0, 0, 0, 0, 0, 0, 0, 0, 0),
    ensures
        lanes16(step(0, c), 1, 0, 0, 0, 0, 0, 0, 0, 1, 0, 0, 0, 0, 0, 0, 0),
{
    reveal(lanes16);
    lemma_reduce(step_raw(0, c, 0), 0, 1);
    lemma_reduce(step_raw(0, c, 1), 0, 0);
    lemma_reduce(step_raw(0, c, 2), 0, 0);
    lemma_reduce(step_raw(0, c, 3), 0, 0);
    lemma_reduce(step_raw(0, c, 4), 0, 0);
    lemma_reduce(step_raw(0, c, 5), 0, 0);
    lemma_reduce(step_raw(0, c, 6), 0, 0);
    lemma_reduce(step_raw(0, c, 7), 0, 0);
    lemma_reduce(step_raw(0, c, 8), 0, 1);
    lemma_reduce(step_raw(0, c, 9), 0, 0);
    lemma_reduce(step_raw(0, c, 10), 0, 0);
    lemma_reduce(step_raw(0, c, 11), 0, 0);
    lemma_reduce(step_raw(0, c, 12), 0, 0);
    lemma_reduce(step_raw(0, c, 13), 0, 0);
    lemma_reduce(step_raw(0, c, 14), 0, 0);
    lemma_reduce(step_raw(0, c, 15), 0, 0);
}

/// Stage 1 on column 0.
proof fn lemma_column_0_stage_1(c: Seq<int>)
    requires
        lanes16(c, 1, 0, 0, 0, 0, 0, 0, 0, 1, 0, 0, 0, 0, 0, 0, 0),
    ensures
        lanes16(step(1, c), 1, 0, 0, 0, 1, 0, 0, 0, 1, 0, 0, 0, 1, 0, 0, 0),
{
    reveal(lanes16);
    lemma_reduce(step_raw(1, c, 0), 0, 1);
    lemma_reduce(step_raw(1, c, 1), 0, 0);
    lemma_reduce(step_raw(1, c, 2), 0, 0);
    lemma_reduce(step_raw(1, c, 3), 0, 0);
    lemma_reduce(step_raw(1, c, 4), 0, 1);
    lemma_reduce(step_raw(1, c, 5), 0, 0);
    lemma_reduce(step_raw(1, c, 6), 0, 0);
    lemma_reduce(step_raw(1, c, 7), 0, 0);
    lemma_reduce(step_raw(1, c, 8), 0, 1);
    lemma_reduce(step_raw(1, c, 9), 0, 0);
    lemma_reduce(step_raw(1, c, 10), 0, 0);
    lemma_reduce(step_raw(1, c, 11), 0, 0);
    lemma_reduce(step_raw(1, c, 12), 0, 1);
    lemma_reduce(step_raw(1, c, 13), 0, 0);
    lemma_reduce(step_raw(1, c, 14), 0, 0);
    lemma_reduce(step_raw(1, c, 15), 0, 0);
}

/// Stage 2 on column 0.
proof fn lemma_column_0_stage_2(c: Seq<int>)
    requires
        lanes16(c, 1, 0, 0, 0, 1, 0, 0, 0, 1, 0, 0, 0, 1, 0, 0, 0),
    ensures
        lanes16(step(2, c), 1, 0, 1, 0, 1, 0, 1, 0, 1, 0, 1, 0, 1, 0, 1, 0),
{
    reveal(lanes16);
    lemma_reduce(step_raw(2, c, 0), 0, 1);
    lemma_reduce(step_raw(2, c, 1), 0, 0);
    lemma_reduce(step_raw(2, c, 2), 0, 1);
    lemma_reduce(step_raw(2, c, 3), 0, 0);
    lemma_reduce(step_raw(2, c, 4), 0, 1);
    lemma_reduce(step_raw(2, c, 5), 0, 0);
    lemma_reduce(step_raw(2, c, 6), 0, 1);
    lemma_reduce(step_raw(2, c, 7), 0, 0);
    lemma_reduce(step_raw(2, c, 8), 0, 1);
    lemma_reduce(step_raw(2, c, 9), 0, 0);
    lemma_reduce(step_raw(2, c, 10), 0, 1);
    lemma_reduce(step_raw(2, c, 11), 0, 0);
    lemma_reduce(step_raw(2, c, 12), 0, 1);
    lemma_reduce(step_raw(2, c, 13), 0, 0);
    lemma_reduce(step_raw(2, c, 14), 0, 1);
    lemma_reduce(step_raw(2, c, 15), 0, 0);
}

/// Stage 3 on column 0.
proof fn lemma_column_0_stage_3(c: Seq<int>)
    requires
        lanes16(c, 1, 0, 1, 0, 1, 0, 1, 0, 1, 0, 1, 0, 1, 0, 1, 0),
    ensures
        lanes16(step(3, c), 1, 1, 1, 1, 1, 1, 1, 1, 1, 1, 1, 1, 1, 1, 1, 1),
{
    reveal(lanes16);
    lemma_reduce(step_raw(3, c, 0), 0, 1);
    lemma_reduce(step_raw(3, c, 1), 0, 1);
    lemma_reduce(step_raw(3, c, 2), 0, 1);
    lemma_reduce(step_raw(3, c, 3), 0, 1);
    lemma_reduce(step_raw(3, c, 4), 0, 1);
    lemma_reduce(step_raw(3, c, 5), 0, 1);
    lemma_reduce(step_raw(3, c, 6), 0, 1);
    lemma_reduce(step_raw(3, c, 7), 0, 1);
    lemma_reduce(step_raw(3, c, 8), 0, 1);
    lemma_reduce(step_raw(3, c, 9), 0, 1);
    lemma_reduce(step_raw(3, c, 10), 0, 1);
    lemma_reduce(step_raw(3, c, 11), 0, 1);
    lemma_reduce(step_raw(3, c, 12), 0, 1);
    lemma_reduce(step_raw(3, c, 13), 0, 1);
    lemma_reduce(step_raw(3, c, 14), 0, 1);
    lemma_reduce(step_raw(3, c, 15), 0, 1);
}

/// Stage 4 on column 0.
proof fn lemma_column_0_stage_4(c: Seq<int>)
    requires
        lanes16(c, 1, 1, 1, 1, 1, 1, 1, 1, 1, 1, 1, 1, 1, 1, 1, 1),
    ensures
        lanes16(step(4, c), 18446744000695107585, 18446744060824649729, 18446744000695107585, 18446744035054845953, 18446744035054845953, 18446743519658770433, 18446744065119617025, 18446743931975630849, 18446744060824649729, 18446743931975630849, 18446744065119617025, 18446744052234715137, 18446743794536677377, 18446744052234715137, 18446744000695107585, 18446744060824649729),
{
    reveal(lanes16);
    lemma_reduce(step_raw(4, c, 0), 15, 18446744000695107585);
    lemma_reduce(step_raw(4, c, 1), 1, 18446744060824649729);
    lemma_reduce(step_raw(4, c, 2), 15, 18446744000695107585);
    lemma_reduce(step_raw(4, c, 3), 7, 18446744035054845953);
    lemma_reduce(step_raw(4, c, 4), 7, 18446744035054845953);
    lemma_reduce(step_raw(4, c, 5), 127, 18446743519658770433);
    lemma_reduce(step_raw(4, c, 6), 0, 18446744065119617025);
    lemma_reduce(step_raw(4, c, 7), 31, 18446743931975630849);
    lemma_reduce(step_raw(4, c, 8), 1, 18446744060824649729);
    lemma_reduce(step_raw(4, c, 9), 31, 18446743931975630849);
    lemma_reduce(step_raw(4, c, 10), 0, 18446744065119617025);
    lemma_reduce(step_raw(4, c, 11), 3, 18446744052234715137);
    lemma_reduce(step_raw(4, c, 12), 63, 18446743794536677377);
    lemma_reduce(step_raw(4, c, 13), 3, 18446744052234715137);
    lemma_reduce(step_raw(4, c, 14), 15, 18446744000695107585);
    lemma_reduce(step_raw(4, c, 15), 1, 18446744060824649729);
}

/// Stage 5 on column 0.
proof fn lemma_column_0_stage_5(c: Seq<int>)
    requires
        lanes16(c, 18446744000695107585, 18446744060824649729, 18446744000695107585, 18446744035054845953, 18446744035054845953, 18446743519658770433, 18446744065119617025, 18446743931975630849, 18446744060824649729, 18446743931975630849, 18446744065119617025, 18446744052234715137, 18446743794536677377, 18446744052234715137, 18446744000695107585, 18446744060824649729),
    ensures
        lanes16(step(5, c), 18446743992105172993, 18446744009285042177, 18446743966335369217, 18446744035054845953, 18446743485299032065, 515396075520, 18446743927680663553, 133143986176, 18446743923385696257, 128849018880, 18446744047939747841, 12884901888, 18446743777356808193, 18446743811716546561, 18446743992105172993, 18446744009285042177),
{
    reveal(lanes16);
    lemma_reduce(step_raw(5, c, 0), 1, 18446743992105172993);
    lemma_reduce(step_raw(5, c, 1), -1, 18446744009285042177);
    lemma_reduce(step_raw(5, c, 2), 1, 18446743966335369217);
    lemma_reduce(step_raw(5, c, 3), -1, 18446744035054845953);
    lemma_reduce(step_raw(5, c, 4), 1, 18446743485299032065);
    lemma_reduce(step_raw(5, c, 5), 0, 515396075520);
    lemma_reduce(step_raw(5, c, 6), 1, 18446743927680663553);
    lemma_reduce(step_raw(5, c, 7), 0, 133143986176);
    lemma_reduce(step_raw(5, c, 8), 1, 18446743923385696257);
    lemma_reduce(step_raw(5, c, 9), 0, 128849018880);
    lemma_reduce(step_raw(5, c, 10), 1, 18446744047939747841);
    lemma_reduce(step_raw(5, c, 11), 0, 12884901888);
    lemma_reduce(step_raw(5, c, 12), 1, 18446743777356808193);
    lemma_reduce(step_raw(5, c, 13), -1, 18446743811716546561);
    lemma_reduce(step_raw(5, c, 14), 1, 18446743992105172993);
    lemma_reduce(step_raw(5, c, 15), -1, 18446744009285042177);
}

/// Stage 6 on column 0.
proof fn lemma_column_0_stage_6(c: Seq<int>)
    requires
        lanes16(c, 18446743992105172993, 18446744009285042177, 18446743966335369217, 18446744035054845953, 18446743485299032065, 515396075520, 18446743927680663553, 133143986176, 18446743923385696257, 128849018880, 18446744047939747841, 12884901888, 18446743777356808193, 18446743811716546561, 18446743992105172993, 18446744009285042177),
    ensures
        lanes16(step(6, c), 18446743889025957889, 2251739683618816, 25769803776, 18444492209471881217, 18446743343565111297, 18438018860534661121, 18446743627032952833, 8726239672074240, 18446743901910859777, 18445899773333667841, 18446743944860532737, 844553778954240, 18446743700047396865, 3940391974993920, 18446743854666219521, 18442803162043514881),
{
    reveal(lanes16);
    lemma_reduce(step_raw(6, c, 0), 1, 18446743889025957889);
    lemma_reduce(step_raw(6, c, 1), 18446462560078659586, 2251739683618816);
    lemma_reduce(step_raw(6, c, 2), 0, 25769803776);
    lemma_reduce(step_raw(6, c, 3), -18446462560078659585, 18444492209471881217);
    lemma_reduce(step_raw(6, c, 4), 1, 18446743343565111297);
    lemma_reduce(step_raw(6, c, 5), 133141954559, 18438018860534661121);
    lemma_reduce(step_raw(6, c, 6), -1, 18446743627032952833);
    lemma_reduce(step_raw(6, c, 7), -133141954560, 8726239672074240);
    lemma_reduce(step_raw(6, c, 8), 1, 18446743901910859777);
    lemma_reduce(step_raw(6, c, 9), 12884705279, 18445899773333667841);
    lemma_reduce(step_raw(6, c, 10), -1, 18446743944860532737);
    lemma_reduce(step_raw(6, c, 11), -12884705280, 844553778954240);
    lemma_reduce(step_raw(6, c, 12), 1, 18446743700047396865);
    lemma_reduce(step_raw(6, c, 13), 18446462534309249026, 3940391974993920);
    lemma_reduce(step_raw(6, c, 14), -1, 18446743854666219521);
    lemma_reduce(step_raw(6, c, 15), -18446462534309249025, 18442803162043514881);
}

/// Stage 7 on column 0.
proof fn lemma_column_0_stage_7(c: Seq<int>)
    requires
        lanes16(c, 18446743889025957889, 2251739683618816, 25769803776, 18444492209471881217, 18446743343565111297, 18438018860534661121, 18446743627032952833, 8726239672074240, 18446743901910859777, 18445899773333667841, 18446743944860532737, 844553778954240, 18446743700047396865, 3940391974993920, 18446743854666219521, 18442803162043514881),
    ensures
        lanes16(step(7, c), 18446743163176484865, 2236037154859354112, 28991948364251136, 8644659424608641280, 545460846592, 16215210393922467841, 18417752172589940737, 9797580924920536833, 18446743532543672321, 17437093456802692097, 14073624278204416, 14124132980917865985, 201863462912, 1007962020450059264, 18432670196028276737, 4324300196054626816),
{
    reveal(lanes16);
    lemma_reduce(step_raw(7, c, 0), 1, 18446743163176484865);
    lemma_reduce(step_raw(7, c, 1), 1098991564544, 2236037154859354112);
    lemma_reduce(step_raw(7, c, 2), 18446462152062992385, 28991948364251136);
    lemma_reduce(step_raw(7, c, 3), 7937, 8644659424608641280);
    lemma_reduce(step_raw(7, c, 4), 0, 545460846592);
    lemma_reduce(step_raw(7, c, 5), -1098991564545, 16215210393922467841);
    lemma_reduce(step_raw(7, c, 6), -18446462152062992386, 18417752172589940737);
    lemma_reduce(step_raw(7, c, 7), -7936, 9797580924920536833);
    lemma_reduce(step_raw(7, c, 8), 1, 18446743532543672321);
    lemma_reduce(step_raw(7, c, 9), 234865664, 17437093456802692097);
    lemma_reduce(step_raw(7, c, 10), 18446462379692785666, 14073624278204416);
    lemma_reduce(step_raw(7, c, 11), 16773631, 14124132980917865985);
    lemma_reduce(step_raw(7, c, 12), 0, 201863462912);
    lemma_reduce(step_raw(7, c, 13), -234865663, 1007962020450059264);
    lemma_reduce(step_raw(7, c, 14), -18446462379692785665, 18432670196028276737);
    lemma_reduce(step_raw(7, c, 15), -16773632, 4324300196054626816);
}

/// Stage 8 on column 0.
proof fn lemma_column_0_stage_8(c: Seq<int>)
    requires
        lanes16(c, 18446743163176484865, 2236037154859354112, 28991948364251136, 8644659424608641280, 545460846592, 16215210393922467841, 18417752172589940737, 9797580924920536833, 18446743532543672321, 17437093456802692097, 14073624278204416, 14124132980917865985, 201863462912, 1007962020450059264, 18432670196028276737, 4324300196054626816),
    ensures
        lanes16(step(8, c), 18446742626305572865, 4542937756286289441, 14872856315882446081, 5185371269165997376, 18433515290973110273, 11603770461046470701, 16328081945490043393, 7491684177549991903, 18446743700047396865, 18375880622847003104, 3631871650260640512, 12103947580051285184, 13229869363167232, 2379906257383880660, 2060678330275253760, 12103477672291081763),
{
    reveal(lanes16);
    lemma_reduce(step_raw(8, c, 0), 1, 18446742626305572865);
    lemma_reduce(step_raw(8, c, 1), 64958235103, 4542937756286289441);
    lemma_reduce(step_raw(8, c, 2), 838853375, 14872856315882446081);
    lemma_reduce(step_raw(8, c, 3), 14124132980917862849, 5185371269165997376);
    lemma_reduce(step_raw(8, c, 4), 201860382719, 18433515290973110273);
    lemma_reduce(step_raw(8, c, 5), 1007715935972410324, 11603770461046470701);
    lemma_reduce(step_raw(8, c, 6), 16764416, 16328081945490043393);
    lemma_reduce(step_raw(8, c, 7), 270268762316341026, 7491684177549991903);
    lemma_reduce(step_raw(8, c, 8), -1, 18446743700047396865);
    lemma_reduce(step_raw(8, c, 9), -64958235104, 18375880622847003104);
    lemma_reduce(step_raw(8, c, 10), -838853376, 3631871650260640512);
    lemma_reduce(step_raw(8, c, 11), -14124132980917862849, 12103947580051285184);
    lemma_reduce(step_raw(8, c, 12), -201860382720, 13229869363167232);
    lemma_reduce(step_raw(8, c, 13), -1007715935972410323, 2379906257383880660);
    lemma_reduce(step_raw(8, c, 14), -16764415, 2060678330275253760);
    lemma_reduce(step_raw(8, c, 15), -270268762316341026, 12103477672291081763);
}

/// The lanes of unit vector 0.
proof fn lemma_column_0_first()
    ensures
        lanes16(basis(0, 16), 1, 0, 0, 0, 0, 0, 0, 0, 0, 0, 0, 0, 0, 0, 0, 0),
{
    reveal(lanes16);
}

/// The lanes that the last stage leaves for unit vector 0 are column 0 of the matrix.
proof fn lemma_column_0_last(c: Seq<int>)
    requires
        lanes16(c, 18446742626305572865, 4542937756286289441, 14872856315882446081, 5185371269165997376, 18433515290973110273, 11603770461046470701, 16328081945490043393, 7491684177549991903, 18446743700047396865, 18375880622847003104, 3631871650260640512, 12103947580051285184, 13229869363167232, 2379906257383880660, 2060678330275253760, 12103477672291081763),
    ensures
        is_mds_column(c, 0),
{
    reveal(lanes16);
}

/// Column 0 of the matrix that the transform applies.
proof fn lemma_column_0()
    ensures
        is_mds_column(run(9, basis(0, 16)), 0),
{
    let c0 = basis(0, 16);
    lemma_column_0_first();
    lemma_column_0_stage_0(c0);
    let c1 = step(0, c0);
    lemma_column_0_stage_1(c1);
    let c2 = step(1, c1);
    lemma_column_0_stage_2(c2);
    let c3 = step(2, c2);
    lemma_column_0_stage_3(c3);
    let c4 = step(3, c3);
    lemma_column_0_stage_4(c4);
    let c5 = step(4, c4);
    lemma_column_0_stage_5(c5);
    let c6 = step(5, c5);
    lemma_column_0_stage_6(c6);
    let c7 = step(6, c6);
    lemma_column_0_stage_7(c7);
    let c8 = step(7, c7);
    lemma_column_0_stage_8(c8);
    let c9 = step(8, c8);
    lemma_column_0_last(c9);
    assert(run(9, c0) == c9) by {
        reveal_with_fuel(run, 10);
    }
}

/// Stage 0 on column 1.
proof fn lemma_column_1_stage_0(c: Seq<int>)
    requires
        lanes16(c, 0, 1, 0, 0, 0, 0, 0, 0, 0, 0, 0, 0, 0, 0, 0, 0),
    ensures
        lanes16(step(0, c), 0, 1, 0, 0, 0, 0, 0, 0, 0, 1, 0, 0, 0, 0, 0, 0),
{
    reveal(lanes16);
    lemma_reduce(step_raw(0, c, 0), 0, 0);
    lemma_reduce(step_raw(0, c, 1), 0, 1);
    lemma_reduce(step_raw(0, c, 2), 0, 0);
    lemma_reduce(step_raw(0, c, 3), 0, 0);
    lemma_reduce(step_raw(0, c, 4), 0, 0);
    lemma_reduce(step_raw(0, c, 5), 0, 0);
    lemma_reduce(step_raw(0, c, 6), 0, 0);
    lemma_reduce(step_raw(0, c, 7), 0, 0);
    lemma_reduce(step_raw(0, c, 8), 0, 0);
    lemma_reduce(step_raw(0, c, 9), 0, 1);
    lemma_reduce(step_raw(0, c, 10), 0, 0);
    lemma_reduce(step_raw(0, c, 11), 0, 0);
    lemma_reduce(step_raw(0, c, 12), 0, 0);
    lemma_reduce(step_raw(0, c, 13), 0, 0);
    lemma_reduce(step_raw(0, c, 14), 0, 0);
    lemma_reduce(step_raw(0, c, 15), 0, 0);
}

/// Stage 1 on column 1.
proof fn lemma_column_1_stage_1(c: Seq<int>)
    requires
        lanes16(c, 0, 1, 0, 0, 0, 0, 0, 0, 0, 1, 0, 0, 0, 0, 0, 0),
    ensures
        lanes16(step(1, c), 0, 1, 0, 0, 0, 1, 0, 0, 0, 1, 0, 0, 0, 1, 0, 0),
{
    reveal(lanes16);
    lemma_reduce(step_raw(1, c, 0), 0, 0);
    lemma_reduce(step_raw(1, c, 1), 0, 1);
    lemma_reduce(step_raw(1, c, 2), 0, 0);
    lemma_reduce(step_raw(1, c, 3), 0, 0);
    lemma_reduce(step_raw(1, c, 4), 0, 0);
    lemma_reduce(step_raw(1, c, 5), 0, 1);
    lemma_reduce(step_raw(1, c, 6), 0, 0);
    lemma_reduce(step_raw(1, c, 7), 0, 0);
    lemma_reduce(step_raw(1, c, 8), 0, 0);
    lemma_reduce(step_raw(1, c, 9), 0, 1);
    lemma_reduce(step_raw(1, c, 10), 0, 0);
    lemma_reduce(step_raw(1, c, 11), 0, 0);
    lemma_reduce(step_raw(1, c, 12), 0, 0);
    lemma_reduce(step_raw(1, c, 13), 0, 1);
    lemma_reduce(step_raw(1, c, 14), 0, 0);
    lemma_reduce(step_raw(1, c, 15), 0, 0);
}

/// Stage 2 on column 1.
proof fn lemma_column_1_stage_2(c: Seq<int>)
    requires
        lanes16(c, 0, 1, 0, 0, 0, 1, 0, 0, 0, 1, 0, 0, 0, 1, 0, 0),
    ensures
        lanes16(step(2, c), 0, 1, 0, 1, 0, 1, 0, 1, 0, 1, 0, 1, 0, 1, 0, 1),
{
    reveal(lanes16);
    lemma_reduce(step_raw(2, c, 0), 0, 0);
    lemma_reduce(step_raw(2, c, 1), 0, 1);
    lemma_reduce(step_raw(2, c, 2), 0, 0);
    lemma_reduce(step_raw(2, c, 3), 0, 1);
    lemma_reduce(step_raw(2, c, 4), 0, 0);
    lemma_reduce(step_raw(2, c, 5), 0, 1);
    lemma_reduce(step_raw(2, c, 6), 0, 0);
    lemma_reduce(step_raw(2, c, 7), 0, 1);
    lemma_reduce(step_raw(2, c, 8), 0, 0);
    lemma_reduce(step_raw(2, c, 9), 0, 1);
    lemma_reduce(step_raw(2, c, 10), 0, 0);
    lemma_reduce(step_raw(2, c, 11), 0, 1);
    lemma_reduce(step_raw(2, c, 12), 0, 0);
    lemma_reduce(step_raw(2, c, 13), 0, 1);
    lemma_reduce(step_raw(2, c, 14), 0, 0);
    lemma_reduce(step_raw(2, c, 15), 0, 1);
}

/// Stage 3 on column 1.
proof fn lemma_column_1_stage_3(c: Seq<int>)
    requires
        lanes16(c, 0, 1, 0, 1, 0, 1, 0, 1, 0, 1, 0, 1, 0, 1, 0, 1),
    ensures
        lanes16(step(3, c), 1, 18446744069414584320, 281474976710656, 18446462594437873665, 18446744069397807105, 16777216, 18446742969902956801, 1099511627520, 17293822564807737345, 1152921504606846976, 4096, 18446744069414580225, 4503599626321920, 18442240469788262401, 18446744000695107585, 68719476736),
{
    reveal(lanes16);
    lemma_reduce(step_raw(3, c, 0), 0, 1);
    lemma_reduce(step_raw(3, c, 1), -1, 18446744069414584320);
    lemma_reduce(step_raw(3, c, 2), 0, 281474976710656);
    lemma_reduce(step_raw(3, c, 3), -1, 18446462594437873665);
    lemma_reduce(step_raw(3, c, 4), 0, 18446744069397807105);
    lemma_reduce(step_raw(3, c, 5), -1, 16777216);
    lemma_reduce(step_raw(3, c, 6), 0, 18446742969902956801);
    lemma_reduce(step_raw(3, c, 7), -1, 1099511627520);
    lemma_reduce(step_raw(3, c, 8), 0, 17293822564807737345);
    lemma_reduce(step_raw(3, c, 9), -1, 1152921504606846976);
    lemma_reduce(step_raw(3, c, 10), 0, 4096);
    lemma_reduce(step_raw(3, c, 11), -1, 18446744069414580225);
    lemma_reduce(step_raw(3, c, 12), 0, 4503599626321920);
    lemma_reduce(step_raw(3, c, 13), -1, 18442240469788262401);
    lemma_reduce(step_raw(3, c, 14), 0, 18446744000695107585);
    lemma_reduce(step_raw(3, c, 15), -1, 68719476736);
}

/// Stage 4 on column 1.
proof fn lemma_column_1_stage_4(c: Seq<int>)
    requires
        lanes16(c, 1, 18446744069414584320, 281474976710656, 18446462594437873665, 18446744069397807105, 16777216, 18446742969902956801, 1099511627520, 17293822564807737345, 1152921504606846976, 4096, 18446744069414580225, 4503599626321920, 18442240469788262401, 18446744000695107585, 68719476736),
    ensures
        lanes16(step(4, c), 18446744000695107585, 8589934592, 18442240469788262401, 2251799813160960, 576460752303423488, 9223372032559808513, 18446744069414584065, 8192, 2305843008676823040, 2, 18446726477228539905, 70368744177664, 67108864, 18446744069410390017, 1099511627520, 18446743931975630881),
{
    reveal(lanes16);
    lemma_reduce(step_raw(4, c, 0), 15, 18446744000695107585);
    lemma_reduce(step_raw(4, c, 1), 36893488130239234048, 8589934592);
    lemma_reduce(step_raw(4, c, 2), 4503599626321919, 18442240469788262401);
    lemma_reduce(step_raw(4, c, 3), 147571700721143775240, 2251799813160960);
    lemma_reduce(step_raw(4, c, 4), 147573952520822718472, 576460752303423488);
    lemma_reduce(step_raw(4, c, 5), 2147483647, 9223372032559808513);
    lemma_reduce(step_raw(4, c, 6), 18446742965607989760, 18446744069414584065);
    lemma_reduce(step_raw(4, c, 7), 35184372072448, 8192);
    lemma_reduce(step_raw(4, c, 8), 34587645121562411010, 2305843008676823040);
    lemma_reduce(step_raw(4, c, 9), 36893488138829168638, 2);
    lemma_reduce(step_raw(4, c, 10), 4095, 18446726477228539905);
    lemma_reduce(step_raw(4, c, 11), 73786976260478451716, 70368744177664);
    lemma_reduce(step_raw(4, c, 12), 288230376017494016, 67108864);
    lemma_reduce(step_raw(4, c, 13), 73768961861977374723, 18446744069410390017);
    lemma_reduce(step_raw(4, c, 14), 295147903942402244880, 1099511627520);
    lemma_reduce(step_raw(4, c, 15), 137438953439, 18446743931975630881);
}

/// Stage 5 on column 1.
proof fn lemma_column_1_stage_5(c: Seq<int>)
    requires
        lanes16(c, 18446744000695107585, 8589934592, 18442240469788262401, 2251799813160960, 576460752303423488, 9223372032559808513, 18446744069414584065, 8192, 2305843008676823040, 2, 18446726477228539905, 70368744177664, 67108864, 18446744069410390017, 1099511627520, 18446743931975630881),
    ensures
        lanes16(step(5, c), 18446744009285042177, 18446743992105172993, 18444492269601423361, 18439988669975101441, 9799832784863232001, 9799832789158199296, 7936, 18446744069414575873, 2305843008676823042, 2305843008676823038, 52776558133248, 18446656108484362241, 62914560, 71303168, 962072674080, 1236950580960),
{
    reveal(lanes16);
    lemma_reduce(step_raw(5, c, 0), 0, 18446744009285042177);
    lemma_reduce(step_raw(5, c, 1), 0, 18446743992105172993);
    lemma_reduce(step_raw(5, c, 2), 0, 18444492269601423361);
    lemma_reduce(step_raw(5, c, 3), 0, 18439988669975101441);
    lemma_reduce(step_raw(5, c, 4), 0, 9799832784863232001);
    lemma_reduce(step_raw(5, c, 5), -1, 9799832789158199296);
    lemma_reduce(step_raw(5, c, 6), 1, 7936);
    lemma_reduce(step_raw(5, c, 7), 0, 18446744069414575873);
    lemma_reduce(step_raw(5, c, 8), 0, 2305843008676823042);
    lemma_reduce(step_raw(5, c, 9), 0, 2305843008676823038);
    lemma_reduce(step_raw(5, c, 10), 1, 52776558133248);
    lemma_reduce(step_raw(5, c, 11), 0, 18446656108484362241);
    lemma_reduce(step_raw(5, c, 12), 1, 62914560);
    lemma_reduce(step_raw(5, c, 13), -1, 71303168);
    lemma_reduce(step_raw(5, c, 14), 1, 962072674080);
    lemma_reduce(step_raw(5, c, 15), -1, 1236950580960);
}

/// Stage 6 on column 1.
proof fn lemma_column_1_stage_6(c: Seq<int>)
    requires
        lanes16(c, 18446744009285042177, 18446743992105172993, 18444492269601423361, 18439988669975101441, 9799832784863232001, 9799832789158199296, 7936, 18446744069414575873, 2305843008676823042, 2305843008676823038, 52776558133248, 18446656108484362241, 62914560, 71303168, 962072674080, 1236950580960),
    ensures
        lanes16(step(6, c), 18444492209471881217, 18446743889025957889, 2251739683618816, 25769803776, 9799832784863239937, 12177733392409821184, 9799832784863224065, 7421932185906577408, 2305895785234956290, 8070450530368880638, 2305790232118689794, 14987979556399349759, 962135588640, 90177536, 18446743107404824801, 52428800),
{
    reveal(lanes16);
    lemma_reduce(step_raw(6, c, 0), 1, 18444492209471881217);
    lemma_reduce(step_raw(6, c, 1), 18439707298077605889, 18446743889025957889);
    lemma_reduce(step_raw(6, c, 2), 0, 2251739683618816);
    lemma_reduce(step_raw(6, c, 3), -18439707298077605888, 25769803776);
    lemma_reduce(step_raw(6, c, 4), 0, 9799832784863239937);
    lemma_reduce(step_raw(6, c, 5), 18446462594437865217, 12177733392409821184);
    lemma_reduce(step_raw(6, c, 6), 0, 9799832784863224065);
    lemma_reduce(step_raw(6, c, 7), -18446462594437865217, 7421932185906577408);
    lemma_reduce(step_raw(6, c, 8), 0, 2305895785234956290);
    lemma_reduce(step_raw(6, c, 9), 18446374634849828865, 8070450530368880638);
    lemma_reduce(step_raw(6, c, 10), 0, 2305790232118689794);
    lemma_reduce(step_raw(6, c, 11), -18446374634849828866, 14987979556399349759);
    lemma_reduce(step_raw(6, c, 12), 0, 962135588640);
    lemma_reduce(step_raw(6, c, 13), 1236931706592, 90177536);
    lemma_reduce(step_raw(6, c, 14), -1, 18446743107404824801);
    lemma_reduce(step_raw(6, c, 15), -1236931706592, 52428800);
}

/// Stage 7 on column 1.
proof fn lemma_column_1_stage_7(c: Seq<int>)
    requires
        lanes16(c, 18444492209471881217, 18446743889025957889, 2251739683618816, 25769803776, 9799832784863239937, 12177733392409821184, 9799832784863224065, 7421932185906577408, 2305895785234956290, 8070450530368880638, 2305790232118689794, 14987979556399349759, 962135588640, 90177536, 18446743107404824801, 52428800),
    ensures
        lanes16(step(7, c), 9797580924920536833, 18446743163176484865, 2236037154859354112, 28991948364251136, 8644659424608641280, 545460846592, 16215210393922467841, 18417752172589940737, 2305896747370544930, 14987979556399349753, 2305786108935406530, 14988859165701570559, 2305894823099367650, 1152921504338411523, 2305794355301973058, 14987099947097128959),
{
    reveal(lanes16);
    lemma_reduce(step_raw(7, c, 0), 1, 9797580924920536833);
    lemma_reduce(step_raw(7, c, 1), 725849473024, 18446743163176484865);
    lemma_reduce(step_raw(7, c, 2), 9799683251281877249, 2236037154859354112);
    lemma_reduce(step_raw(7, c, 3), 6750208, 28991948364251136);
    lemma_reduce(step_raw(7, c, 4), 0, 8644659424608641280);
    lemma_reduce(step_raw(7, c, 5), -725849473023, 545460846592);
    lemma_reduce(step_raw(7, c, 6), -9799683251281877250, 16215210393922467841);
    lemma_reduce(step_raw(7, c, 7), -6750209, 18417752172589940737);
    lemma_reduce(step_raw(7, c, 8), 0, 2305896747370544930);
    lemma_reduce(step_raw(7, c, 9), 5, 14987979556399349753);
    lemma_reduce(step_raw(7, c, 10), 18446461632442793249, 2305786108935406530);
    lemma_reduce(step_raw(7, c, 11), 0, 14988859165701570559);
    lemma_reduce(step_raw(7, c, 12), 0, 2305894823099367650);
    lemma_reduce(step_raw(7, c, 13), -5, 1152921504338411523);
    lemma_reduce(step_raw(7, c, 14), -18446461632442793249, 2305794355301973058);
    lemma_reduce(step_raw(7, c, 15), 0, 14987099947097128959);
}

/// Stage 8 on column 1.
proof fn lemma_column_1_stage_8(c: Seq<int>)
    requires
        lanes16(c, 9797580924920536833, 18446743163176484865, 2236037154859354112, 28991948364251136, 8644659424608641280, 545460846592, 16215210393922467841, 18417752172589940737, 2305896747370544930, 14987979556399349753, 2305786108935406530, 14988859165701570559, 2305894823099367650, 1152921504338411523, 2305794355301973058, 14987099947097128959),
    ensures
        lanes16(step(8, c), 12103477672291081763, 18446742626305572865, 4542937756286289441, 14872856315882446081, 5185371269165997376, 18433515290973110273, 11603770461046470701, 16328081945490043393, 7491684177549991903, 18446743700047396865, 18375880622847003104, 3631871650260640512, 12103947580051285184, 13229869363167232, 2379906257383880660, 2060678330275253760),
{
    reveal(lanes16);
    lemma_reduce(step_raw(8, c, 0), 0, 12103477672291081763);
    lemma_reduce(step_raw(8, c, 1), 55834574848, 18446742626305572865);
    lemma_reduce(step_raw(8, c, 2), 137435561951, 4542937756286289441);
    lemma_reduce(step_raw(8, c, 3), 14988859165701567230, 14872856315882446081);
    lemma_reduce(step_raw(8, c, 4), 2305859637936653474, 5185371269165997376);
    lemma_reduce(step_raw(8, c, 5), 1152640029361766402, 18433515290973110273);
    lemma_reduce(step_raw(8, c, 6), 2097108, 11603770461046470701);
    lemma_reduce(step_raw(8, c, 7), 936693746911661568, 16328081945490043393);
    lemma_reduce(step_raw(8, c, 8), 0, 7491684177549991903);
    lemma_reduce(step_raw(8, c, 9), -55834574848, 18446743700047396865);
    lemma_reduce(step_raw(8, c, 10), -137435561952, 18375880622847003104);
    lemma_reduce(step_raw(8, c, 11), -14988859165701567231, 3631871650260640512);
    lemma_reduce(step_raw(8, c, 12), -2305859637936653474, 12103947580051285184);
    lemma_reduce(step_raw(8, c, 13), -1152640029361766403, 13229869363167232);
    lemma_reduce(step_raw(8, c, 14), -2097107, 2379906257383880660);
    lemma_reduce(step_raw(8, c, 15), -936693746911661567, 2060678330275253760);
}

/// The lanes of unit vector 1.
proof fn lemma_column_1_first()
    ensures
        lanes16(basis(1, 16), 0, 1, 0, 0, 0, 0, 0, 0, 0, 0, 0, 0, 0, 0, 0, 0),
{
    reveal(lanes16);
}

/// The lanes that the last stage leaves for unit vector 1 are column 1 of the matrix.
proof fn lemma_column_1_last(c: Seq<int>)
    requires
        lanes16(c, 12103477672291081763, 18446742626305572865, 4542937756286289441, 14872856315882446081, 5185371269165997376, 18433515290973110273, 11603770461046470701, 16328081945490043393, 7491684177549991903, 18446743700047396865, 18375880622847003104, 3631871650260640512, 12103947580051285184, 13229869363167232, 2379906257383880660, 2060678330275253760),
    ensures
        is_mds_column(c, 1),
{
    reveal(lanes16);
}

/// Column 1 of the matrix that the transform applies.
proof fn lemma_column_1()
    ensures
        is_mds_column(run(9, basis(1, 16)), 1),
{
    let c0 = basis(1, 16);
    lemma_column_1_first();
    lemma_column_1_stage_0(c0);
    let c1 = step(0, c0);
    lemma_column_1_stage_1(c1);
    let c2 = step(1, c1);
    lemma_column_1_stage_2(c2);
    let c3 = step(2, c2);
    lemma_column_1_stage_3(c3);
    let c4 = step(3, c3);
    lemma_column_1_stage_4(c4);
    let c5 = step(4, c4);
    lemma_column_1_stage_5(c5);
    let c6 = step(5, c5);
    lemma_column_1_stage_6(c6);
    let c7 = step(6, c6);
    lemma_column_1_stage_7(c7);
    let c8 = step(7, c7);
    lemma_column_1_stage_8(c8);
    let c9 = step(8, c8);
    lemma_column_1_last(c9);
    assert(run(9, c0) == c9) by {
        reveal_with_fuel(run, 10);
    }
}

/// Stage 0 on column 2.
proof fn lemma_column_2_stage_0(c: Seq<int>)
    requires
        lanes16(c, 0, 0, 1, 0, 0, 0, 0, 0, 0, 0, 0, 0, 0, 0, 0, 0),
    ensures
        lanes16(step(0, c), 0, 0, 1, 0, 0, 0, 0, 0, 0, 0, 1, 0, 0, 0, 0, 0),
{
    reveal(lanes16);
    lemma_reduce(step_raw(0, c, 0), 0, 0);
    lemma_reduce(step_raw(0, c, 1), 0, 0);
    lemma_reduce(step_raw(0, c, 2), 0, 1);
    lemma_reduce(step_raw(0, c, 3), 0, 0);
    lemma_reduce(step_raw(0, c, 4), 0, 0);
    lemma_reduce(step_raw(0, c, 5), 0, 0);
    lemma_reduce(step_raw(0, c, 6), 0, 0);
    lemma_reduce(step_raw(0, c, 7), 0, 0);
    lemma_reduce(step_raw(0, c, 8), 0, 0);
    lemma_reduce(step_raw(0, c, 9), 0, 0);
    lemma_reduce(step_raw(0, c, 10), 0, 1);
    lemma_reduce(step_raw(0, c, 11), 0, 0);
    lemma_reduce(step_raw(0, c, 12), 0, 0);
    lemma_reduce(step_raw(0, c, 13), 0, 0);
    lemma_reduce(step_raw(0, c, 14), 0, 0);
    lemma_reduce(step_raw(0, c, 15), 0, 0);
}

/// Stage 1 on column 2.
proof fn lemma_column_2_stage_1(c: Seq<int>)
    requires
        lanes16(c, 0, 0, 1, 0, 0, 0, 0, 0, 0, 0, 1, 0, 0, 0, 0, 0),
    ensures
        lanes16(step(1, c), 0, 0, 1, 0, 0, 0, 1, 0, 0, 0, 1, 0, 0, 0, 1, 0),
{
    reveal(lanes16);
    lemma_reduce(step_raw(1, c, 0), 0, 0);
    lemma_reduce(step_raw(1, c, 1), 0, 0);
    lemma_reduce(step_raw(1, c, 2), 0, 1);
    lemma_reduce(step_raw(1, c, 3), 0, 0);
    lemma_reduce(step_raw(1, c, 4), 0, 0);
    lemma_reduce(step_raw(1, c, 5), 0, 0);
    lemma_reduce(step_raw(1, c, 6), 0, 1);
    lemma_reduce(step_raw(1, c, 7), 0, 0);
    lemma_reduce(step_raw(1, c, 8), 0, 0);
    lemma_reduce(step_raw(1, c, 9), 0, 0);
    lemma_reduce(step_raw(1, c, 10), 0, 1);
    lemma_reduce(step_raw(1, c, 11), 0, 0);
    lemma_reduce(step_raw(1, c, 12), 0, 0);
    lemma_reduce(step_raw(1, c, 13), 0, 0);
    lemma_reduce(step_raw(1, c, 14), 0, 1);
    lemma_reduce(step_raw(1, c, 15), 0, 0);
}

/// Stage 2 on column 2.
proof fn lemma_column_2_stage_2(c: Seq<int>)
    requires
        lanes16(c, 0, 0, 1, 0, 0, 0, 1, 0, 0, 0, 1, 0, 0, 0, 1, 0),
    ensures
        lanes16(step(2, c), 1, 0, 18446744069414584320, 0, 281474976710656, 0, 18446462594437873665, 0, 18446744069397807105, 0, 16777216, 0, 18446742969902956801, 0, 1099511627520, 0),
{
    reveal(lanes16);
    lemma_reduce(step_raw(2, c, 0), 0, 1);
    lemma_reduce(step_raw(2, c, 1), 0, 0);
    lemma_reduce(step_raw(2, c, 2), -1, 18446744069414584320);
    lemma_reduce(step_raw(2, c, 3), 0, 0);
    lemma_reduce(step_raw(2, c, 4), 0, 281474976710656);
    lemma_reduce(step_raw(2, c, 5), 0, 0);
    lemma_reduce(step_raw(2, c, 6), -1, 18446462594437873665);
    lemma_reduce(step_raw(2, c, 7), 0, 0);
    lemma_reduce(step_raw(2, c, 8), 0, 18446744069397807105);
    lemma_reduce(step_raw(2, c, 9), 0, 0);
    lemma_reduce(step_raw(2, c, 10), -1, 16777216);
    lemma_reduce(step_raw(2, c, 11), 0, 0);
    lemma_reduce(step_raw(2, c, 12), 0, 18446742969902956801);
    lemma_reduce(step_raw(2, c, 13), 0, 0);
    lemma_reduce(step_raw(2, c, 14), -1, 1099511627520);
    lemma_reduce(step_raw(2, c, 15), 0, 0);
}

/// Stage 3 on column 2.
proof fn lemma_column_2_stage_3(c: Seq<int>)
    requires
        lanes16(c, 1, 0, 18446744069414584320, 0, 281474976710656, 0, 18446462594437873665, 0, 18446744069397807105, 0, 16777216, 0, 18446742969902956801, 0, 1099511627520, 0),
    ensures
        lanes16(step(3, c), 1, 1, 18446744069414584320, 18446744069414584320, 281474976710656, 281474976710656, 18446462594437873665, 18446462594437873665, 18446744069397807105, 18446744069397807105, 16777216, 16777216, 18446742969902956801, 18446742969902956801, 1099511627520, 1099511627520),
{
    reveal(lanes16);
    lemma_reduce(step_raw(3, c, 0), 0, 1);
    lemma_reduce(step_raw(3, c, 1), 0, 1);
    lemma_reduce(step_raw(3, c, 2), 0, 18446744069414584320);
    lemma_reduce(step_raw(3, c, 3), 0, 18446744069414584320);
    lemma_reduce(step_raw(3, c, 4), 0, 281474976710656);
    lemma_reduce(step_raw(3, c, 5), 0, 281474976710656);
    lemma_reduce(step_raw(3, c, 6), 0, 18446462594437873665);
    lemma_reduce(step_raw(3, c, 7), 0, 18446462594437873665);
    lemma_reduce(step_raw(3, c, 8), 0, 18446744069397807105);
    lemma_reduce(step_raw(3, c, 9), 0, 18446744069397807105);
    lemma_reduce(step_raw(3, c, 10), 0, 16777216);
    lemma_reduce(step_raw(3, c, 11), 0, 16777216);
    lemma_reduce(step_raw(3, c, 12), 0, 18446742969902956801);
    lemma_reduce(step_raw(3, c, 13), 0, 18446742969902956801);
    lemma_reduce(step_raw(3, c, 14), 0, 1099511627520);
    lemma_reduce(step_raw(3, c, 15), 0, 1099511627520);
}

/// Stage 4 on column 2.
proof fn lemma_column_2_stage_4(c: Seq<int>)
    requires
        lanes16(c, 1, 1, 18446744069414584320, 18446744069414584320, 281474976710656, 281474976710656, 18446462594437873665, 18446462594437873665, 18446744069397807105, 18446744069397807105, 16777216, 16777216, 18446742969902956801, 18446742969902956801, 1099511627520, 1099511627520),
    ensures
        lanes16(step(4, c), 18446744000695107585, 18446744060824649729, 68719476736, 34359738368, 18444492269601423361, 18410715272404008961, 281474976645120, 9007199252643840, 144115188075855872, 2305843009213693952, 18374686475376656385, 18158513693262872577, 18446744069414567937, 18446744069414583297, 4096, 512),
{
    reveal(lanes16);
    lemma_reduce(step_raw(4, c, 0), 15, 18446744000695107585);
    lemma_reduce(step_raw(4, c, 1), 1, 18446744060824649729);
    lemma_reduce(step_raw(4, c, 2), 295147905041913872384, 68719476736);
    lemma_reduce(step_raw(4, c, 3), 147573952520956936192, 34359738368);
    lemma_reduce(step_raw(4, c, 4), 2251799813160959, 18444492269601423361);
    lemma_reduce(step_raw(4, c, 5), 36028797010575359, 18410715272404008961);
    lemma_reduce(step_raw(4, c, 6), 18446462590142971905, 281474976645120);
    lemma_reduce(step_raw(4, c, 7), 590286802884575100960, 9007199252643840);
    lemma_reduce(step_raw(4, c, 8), 36893488130205679618, 144115188075855872);
    lemma_reduce(step_raw(4, c, 9), 590295810083290873888, 2305843009213693952);
    lemma_reduce(step_raw(4, c, 10), 16777215, 18374686475376656385);
    lemma_reduce(step_raw(4, c, 11), 67108863, 18158513693262872577);
    lemma_reduce(step_raw(4, c, 12), 1180591549798911344703, 18446744069414567937);
    lemma_reduce(step_raw(4, c, 13), 73786971862431959043, 18446744069414583297);
    lemma_reduce(step_raw(4, c, 14), 17592186036224, 4096);
    lemma_reduce(step_raw(4, c, 15), 2199023254528, 512);
}

/// Stage 5 on column 2.
proof fn lemma_column_2_stage_5(c: Seq<int>)
    requires
        lanes16(c, 18446744000695107585, 18446744060824649729, 68719476736, 34359738368, 18444492269601423361, 18410715272404008961, 281474976645120, 9007199252643840, 144115188075855872, 2305843009213693952, 18374686475376656385, 18158513693262872577, 18446744069414567937, 18446744069414583297, 4096, 512),
    ensures
        lanes16(step(5, c), 18446743992105172993, 18446744009285042177, 103079215104, 34359738368, 18408463472590848001, 33776997197414400, 9288674229288960, 18438018345138585601, 2449958197289549824, 16285016248276746241, 18086456099224944641, 216172782113783808, 18446744069414566913, 18446744069414568961, 4608, 3584),
{
    reveal(lanes16);
    lemma_reduce(step_raw(5, c, 0), 1, 18446743992105172993);
    lemma_reduce(step_raw(5, c, 1), -1, 18446744009285042177);
    lemma_reduce(step_raw(5, c, 2), 0, 103079215104);
    lemma_reduce(step_raw(5, c, 3), 0, 34359738368);
    lemma_reduce(step_raw(5, c, 4), 1, 18408463472590848001);
    lemma_reduce(step_raw(5, c, 5), 0, 33776997197414400);
    lemma_reduce(step_raw(5, c, 6), 0, 9288674229288960);
    lemma_reduce(step_raw(5, c, 7), -1, 18438018345138585601);
    lemma_reduce(step_raw(5, c, 8), 0, 2449958197289549824);
    lemma_reduce(step_raw(5, c, 9), -1, 16285016248276746241);
    lemma_reduce(step_raw(5, c, 10), 1, 18086456099224944641);
    lemma_reduce(step_raw(5, c, 11), 0, 216172782113783808);
    lemma_reduce(step_raw(5, c, 12), 1, 18446744069414566913);
    lemma_reduce(step_raw(5, c, 13), -1, 18446744069414568961);
    lemma_reduce(step_raw(5, c, 14), 0, 4608);
    lemma_reduce(step_raw(5, c, 15), 0, 3584);
}

/// Stage 6 on column 2.
proof fn lemma_column_2_stage_6(c: Seq<int>)
    requires
        lanes16(c, 18446743992105172993, 18446744009285042177, 103079215104, 34359738368, 18408463472590848001, 33776997197414400, 9288674229288960, 18438018345138585601, 2449958197289549824, 16285016248276746241, 18086456099224944641, 216172782113783808, 18446744069414566913, 18446744069414568961, 4608, 3584),
    ensures
        lanes16(step(6, c), 25769803776, 18444492209471881217, 18446743889025957889, 2251739683618816, 18417752146820136961, 33776864053428224, 18399174798361559041, 33777130341400576, 2089670227099910144, 16285016248276747009, 2810246167479189504, 16285016248276745473, 18446744069414571521, 17437937752883577857, 18446744069414562305, 1008806316530975744),
{
    reveal(lanes16);
    lemma_reduce(step_raw(6, c, 0), 1, 25769803776);
    lemma_reduce(step_raw(6, c, 1), 34359214080, 18444492209471881217);
    lemma_reduce(step_raw(6, c, 2), 0, 18446743889025957889);
    lemma_reduce(step_raw(6, c, 3), -34359214079, 2251739683618816);
    lemma_reduce(step_raw(6, c, 4), 0, 18417752146820136961);
    lemma_reduce(step_raw(6, c, 5), 18437737003305861121, 33776864053428224);
    lemma_reduce(step_raw(6, c, 6), 0, 18399174798361559041);
    lemma_reduce(step_raw(6, c, 7), -18437737003305861121, 33777130341400576);
    lemma_reduce(step_raw(6, c, 8), 1, 2089670227099910144);
    lemma_reduce(step_raw(6, c, 9), 216169483578899712, 16285016248276747009);
    lemma_reduce(step_raw(6, c, 10), -1, 2810246167479189504);
    lemma_reduce(step_raw(6, c, 11), -216169483578899712, 16285016248276745473);
    lemma_reduce(step_raw(6, c, 12), 0, 18446744069414571521);
    lemma_reduce(step_raw(6, c, 13), 3584, 17437937752883577857);
    lemma_reduce(step_raw(6, c, 14), 0, 18446744069414562305);
    lemma_reduce(step_raw(6, c, 15), -3583, 1008806316530975744);
}

/// Stage 7 on column 2.
proof fn lemma_column_2_stage_7(c: Seq<int>)
    requires
        lanes16(c, 25769803776, 18444492209471881217, 18446743889025957889, 2251739683618816, 18417752146820136961, 33776864053428224, 18399174798361559041, 33777130341400576, 2089670227099910144, 16285016248276747009, 2810246167479189504, 16285016248276745473, 18446744069414571521, 17437937752883577857, 18446744069414562305, 1008806316530975744),
    ensures
        lanes16(step(7, c), 18417752172589940737, 9797580924920536833, 18446743163176484865, 2236037154859354112, 28991948364251136, 8644659424608641280, 545460846592, 16215210393922467841, 2089670227099897344, 16268127809807581953, 9007199254740992000, 16288956640251739393, 2089670227099922944, 16301904686745912065, 15060037149631971329, 16281075856301751553),
{
    reveal(lanes16);
    lemma_reduce(step_raw(7, c, 0), 0, 18417752172589940737);
    lemma_reduce(step_raw(7, c, 1), 2013257984, 9797580924920536833);
    lemma_reduce(step_raw(7, c, 2), 18398894049234321409, 18446743163176484865);
    lemma_reduce(step_raw(7, c, 3), 30720, 2236037154859354112);
    lemma_reduce(step_raw(7, c, 4), -1, 28991948364251136);
    lemma_reduce(step_raw(7, c, 5), -2013257983, 8644659424608641280);
    lemma_reduce(step_raw(7, c, 6), -18398894049234321408, 545460846592);
    lemma_reduce(step_raw(7, c, 7), -30721, 16215210393922467841);
    lemma_reduce(step_raw(7, c, 8), 1, 2089670227099897344);
    lemma_reduce(step_raw(7, c, 9), 1039382085376, 16268127809807581953);
    lemma_reduce(step_raw(7, c, 10), 18446462594437851649, 9007199254740992000);
    lemma_reduce(step_raw(7, c, 11), 917504, 16288956640251739393);
    lemma_reduce(step_raw(7, c, 12), -1, 2089670227099922944);
    lemma_reduce(step_raw(7, c, 13), -1039382085376, 16301904686745912065);
    lemma_reduce(step_raw(7, c, 14), -18446462594437851650, 15060037149631971329);
    lemma_reduce(step_raw(7, c, 15), -917504, 16281075856301751553);
}

/// Stage 8 on column 2.
proof fn lemma_column_2_stage_8(c: Seq<int>)
    requires
        lanes16(c, 18417752172589940737, 9797580924920536833, 18446743163176484865, 2236037154859354112, 28991948364251136, 8644659424608641280, 545460846592, 16215210393922467841, 2089670227099897344, 16268127809807581953, 9007199254740992000, 16288956640251739393, 2089670227099922944, 16301904686745912065, 15060037149631971329, 16281075856301751553),
    ensures
        lanes16(step(8, c), 2060678330275253760, 12103477672291081763, 18446742626305572865, 4542937756286289441, 14872856315882446081, 5185371269165997376, 18433515290973110273, 11603770461046470701, 16328081945490043393, 7491684177549991903, 18446743700047396865, 18375880622847003104, 3631871650260640512, 12103947580051285184, 13229869363167232, 2379906257383880660),
{
    reveal(lanes16);
    lemma_reduce(step_raw(8, c, 0), 1, 2060678330275253760);
    lemma_reduce(step_raw(8, c, 1), 60603498718, 12103477672291081763);
    lemma_reduce(step_raw(8, c, 2), 536870912000, 18446742626305572865);
    lemma_reduce(step_raw(8, c, 3), 16288956640251735776, 4542937756286289441);
    lemma_reduce(step_raw(8, c, 4), 2089638341262710015, 14872856315882446081);
    lemma_reduce(step_raw(8, c, 5), 16297924729546999489, 5185371269165997376);
    lemma_reduce(step_raw(8, c, 6), 13697023, 18433515290973110273);
    lemma_reduce(step_raw(8, c, 7), 1017567241255780308, 11603770461046470701);
    lemma_reduce(step_raw(8, c, 8), 0, 16328081945490043393);
    lemma_reduce(step_raw(8, c, 9), -60603498718, 7491684177549991903);
    lemma_reduce(step_raw(8, c, 10), -536870912000, 18446743700047396865);
    lemma_reduce(step_raw(8, c, 11), -16288956640251735777, 18375880622847003104);
    lemma_reduce(step_raw(8, c, 12), -2089638341262710016, 3631871650260640512);
    lemma_reduce(step_raw(8, c, 13), -16297924729546999489, 12103947580051285184);
    lemma_reduce(step_raw(8, c, 14), -13697024, 13229869363167232);
    lemma_reduce(step_raw(8, c, 15), -1017567241255780307, 2379906257383880660);
}

/// The lanes of unit vector 2.
proof fn lemma_column_2_first()
    ensures
        lanes16(basis(2, 16), 0, 0, 1, 0, 0, 0, 0, 0, 0, 0, 0, 0, 0, 0, 0, 0),
{
    reveal(lanes16);
}

/// The lanes that the last stage leaves for unit vector 2 are column 2 of the matrix.
proof fn lemma_column_2_last(c: Seq<int>)
    requires
        lanes16(c, 2060678330275253760, 12103477672291081763, 18446742626305572865, 4542937756286289441, 14872856315882446081, 5185371269165997376, 18433515290973110273, 11603770461046470701, 16328081945490043393, 7491684177549991903, 18446743700047396865, 18375880622847003104, 3631871650260640512, 12103947580051285184, 13229869363167232, 2379906257383880660),
    ensures
        is_mds_column(c, 2),
{
    reveal(lanes16);
}

/// Column 2 of the matrix that the transform applies.
proof fn lemma_column_2()
    ensures
        is_mds_column(run(9, basis(2, 16)), 2),
{
    let c0 = basis(2, 16);
    lemma_column_2_first();
    lemma_column_2_stage_0(c0);
    let c1 = step(0, c0);
    lemma_column_2_stage_1(c1);
    let c2 = step(1, c1);
    lemma_column_2_stage_2(c2);
    let c3 = step(2, c2);
    lemma_column_2_stage_3(c3);
    let c4 = step(3, c3);
    lemma_column_2_stage_4(c4);
    let c5 = step(4, c4);
    lemma_column_2_stage_5(c5);
    let c6 = step(5, c5);
    lemma_column_2_stage_6(c6);
    let c7 = step(6, c6);
    lemma_column_2_stage_7(c7);
    let c8 = step(7, c7);
    lemma_column_2_stage_8(c8);
    let c9 = step(8, c8);
    lemma_column_2_last(c9);
    assert(run(9, c0) == c9) by {
        reveal_with_fuel(run, 10);
    }
}

/// Stage 0 on column 3.
proof fn lemma_column_3_stage_0(c: Seq<int>)
    requires
        lanes16(c, 0, 0, 0, 1, 0, 0, 0, 0, 0, 0, 0, 0, 0, 0, 0, 0),
    ensures
        lanes16(step(0, c), 0, 0, 0, 1, 0, 0, 0, 0, 0, 0, 0, 1, 0, 0, 0, 0),
{
    reveal(lanes16);
    lemma_reduce(step_raw(0, c, 0), 0, 0);
    lemma_reduce(step_raw(0, c, 1), 0, 0);
    lemma_reduce(step_raw(0, c, 2), 0, 0);
    lemma_reduce(step_raw(0, c, 3), 0, 1);
    lemma_reduce(step_raw(0, c, 4), 0, 0);
    lemma_reduce(step_raw(0, c, 5), 0, 0);
    lemma_reduce(step_raw(0, c, 6), 0, 0);
    lemma_reduce(step_raw(0, c, 7), 0, 0);
    lemma_reduce(step_raw(0, c, 8), 0, 0);
    lemma_reduce(step_raw(0, c, 9), 0, 0);
    lemma_reduce(step_raw(0, c, 10), 0, 0);
    lemma_reduce(step_raw(0, c, 11), 0, 1);
    lemma_reduce(step_raw(0, c, 12), 0, 0);
    lemma_reduce(step_raw(0, c, 13), 0, 0);
    lemma_reduce(step_raw(0, c, 14), 0, 0);
    lemma_reduce(step_raw(0, c, 15), 0, 0);
}

/// Stage 1 on column 3.
proof fn lemma_column_3_stage_1(c: Seq<int>)
    requires
        lanes16(c, 0, 0, 0, 1, 0, 0, 0, 0, 0, 0, 0, 1, 0, 0, 0, 0),
    ensures
        lanes16(step(1, c), 0, 0, 0, 1, 0, 0, 0, 1, 0, 0, 0, 1, 0, 0, 0, 1),
{
    reveal(lanes16);
    lemma_reduce(step_raw(1, c, 0), 0, 0);
    lemma_reduce(step_raw(1, c, 1), 0, 0);
    lemma_reduce(step_raw(1, c, 2), 0, 0);
    lemma_reduce(step_raw(1, c, 3), 0, 1);
    lemma_reduce(step_raw(1, c, 4), 0, 0);
    lemma_reduce(step_raw(1, c, 5), 0, 0);
    lemma_reduce(step_raw(1, c, 6), 0, 0);
    lemma_reduce(step_raw(1, c, 7), 0, 1);
    lemma_reduce(step_raw(1, c, 8), 0, 0);
    lemma_reduce(step_raw(1, c, 9), 0, 0);
    lemma_reduce(step_raw(1, c, 10), 0, 0);
    lemma_reduce(step_raw(1, c, 11), 0, 1);
    lemma_reduce(step_raw(1, c, 12), 0, 0);
    lemma_reduce(step_raw(1, c, 13), 0, 0);
    lemma_reduce(step_raw(1, c, 14), 0, 0);
    lemma_reduce(step_raw(1, c, 15), 0, 1);
}

/// Stage 2 on column 3.
proof fn lemma_column_3_stage_2(c: Seq<int>)
    requires
        lanes16(c, 0, 0, 0, 1, 0, 0, 0, 1, 0, 0, 0, 1, 0, 0, 0, 1),
    ensures
        lanes16(step(2, c), 0, 1, 0, 18446744069414584320, 0, 281474976710656, 0, 18446462594437873665, 0, 18446744069397807105, 0, 16777216, 0, 18446742969902956801, 0, 1099511627520),
{
    reveal(lanes16);
    lemma_reduce(step_raw(2, c, 0), 0, 0);
    lemma_reduce(step_raw(2, c, 1), 0, 1);
    lemma_reduce(step_raw(2, c, 2), 0, 0);
    lemma_reduce(step_raw(2, c, 3), -1, 18446744069414584320);
    lemma_reduce(step_raw(2, c, 4), 0, 0);
    lemma_reduce(step_raw(2, c, 5), 0, 281474976710656);
    lemma_reduce(step_raw(2, c, 6), 0, 0);
    lemma_reduce(step_raw(2, c, 7), -1, 18446462594437873665);
    lemma_reduce(step_raw(2, c, 8), 0, 0);
    lemma_reduce(step_raw(2, c, 9), 0, 18446744069397807105);
    lemma_reduce(step_raw(2, c, 10), 0, 0);
    lemma_reduce(step_raw(2, c, 11), -1, 16777216);
    lemma_reduce(step_raw(2, c, 12), 0, 0);
    lemma_reduce(step_raw(2, c, 13), 0, 18446742969902956801);
    lemma_reduce(step_raw(2, c, 14), 0, 0);
    lemma_reduce(step_raw(2, c, 15), -1, 1099511627520);
}

/// Stage 3 on column 3.
proof fn lemma_column_3_stage_3(c: Seq<int>)
    requires
        lanes16(c, 0, 1, 0, 18446744069414584320, 0, 281474976710656, 0, 18446462594437873665, 0, 18446744069397807105, 0, 16777216, 0, 18446742969902956801, 0, 1099511627520),
    ensures
        lanes16(step(3, c), 1, 18446744069414584320, 18446462594437873665, 281474976710656, 18446742969902956801, 1099511627520, 18446744069397807105, 16777216, 4503599626321920, 18442240469788262401, 68719476736, 18446744000695107585, 1152921504606846976, 17293822564807737345, 4096, 18446744069414580225),
{
    reveal(lanes16);
    lemma_reduce(step_raw(3, c, 0), 0, 1);
    lemma_reduce(step_raw(3, c, 1), -1, 18446744069414584320);
    lemma_reduce(step_raw(3, c, 2), 281474976710655, 18446462594437873665);
    lemma_reduce(step_raw(3, c, 3), -281474976710656, 281474976710656);
    lemma_reduce(step_raw(3, c, 4), 281474976710399, 18446742969902956801);
    lemma_reduce(step_raw(3, c, 5), -281474976710400, 1099511627520);
    lemma_reduce(step_raw(3, c, 6), 18446461494943023360, 18446744069397807105);
    lemma_reduce(step_raw(3, c, 7), -18446461494943023361, 16777216);
    lemma_reduce(step_raw(3, c, 8), 17293822564792008705, 4503599626321920);
    lemma_reduce(step_raw(3, c, 9), -17293822564792008706, 18442240469788262401);
    lemma_reduce(step_raw(3, c, 10), 0, 68719476736);
    lemma_reduce(step_raw(3, c, 11), -1, 18446744000695107585);
    lemma_reduce(step_raw(3, c, 12), 4503599357886464, 1152921504606846976);
    lemma_reduce(step_raw(3, c, 13), -4503599357886465, 17293822564807737345);
    lemma_reduce(step_raw(3, c, 14), 1099511623424, 4096);
    lemma_reduce(step_raw(3, c, 15), -1099511623425, 18446744069414580225);
}

/// Stage 4 on column 3.
proof fn lemma_column_3_stage_4(c: Seq<int>)
    requires
        lanes16(c, 1, 18446744069414584320, 18446462594437873665, 281474976710656, 18446742969902956801, 1099511627520, 18446744069397807105, 16777216, 4503599626321920, 18442240469788262401, 68719476736, 18446744000695107585, 1152921504606846976, 17293822564807737345, 4096, 18446744069414580225),
    ensures
        lanes16(step(4, c), 18446744000695107585, 8589934592, 4503599626321920, 18444492269601423361, 18446744069414582273, 32768, 72057594037927936, 16140901060200890369, 2097152, 18446744069381029889, 18446744000695107601, 274877906880, 4, 4611686017353646080, 18446462594437873665, 35184372088832),
{
    reveal(lanes16);
    lemma_reduce(step_raw(4, c, 0), 15, 18446744000695107585);
    lemma_reduce(step_raw(4, c, 1), 36893488130239234048, 8589934592);
    lemma_reduce(step_raw(4, c, 2), 295143401442287550480, 4503599626321920);
    lemma_reduce(step_raw(4, c, 3), 2251799813160959, 18444492269601423361);
    lemma_reduce(step_raw(4, c, 4), 147573943724863918087, 18446744069414582273);
    lemma_reduce(step_raw(4, c, 5), 140737488289792, 32768);
    lemma_reduce(step_raw(4, c, 6), 18446744065102839809, 72057594037927936);
    lemma_reduce(step_raw(4, c, 7), 536870911, 16140901060200890369);
    lemma_reduce(step_raw(4, c, 8), 9007199250546688, 2097152);
    lemma_reduce(step_raw(4, c, 9), 590151694895818997791, 18446744069381029889);
    lemma_reduce(step_raw(4, c, 10), 68719476719, 18446744000695107601);
    lemma_reduce(step_raw(4, c, 11), 73786975985600561220, 274877906880);
    lemma_reduce(step_raw(4, c, 12), 73786976277658337276, 4);
    lemma_reduce(step_raw(4, c, 13), 69175290243124822020, 4611686017353646080);
    lemma_reduce(step_raw(4, c, 14), 65535, 18446462594437873665);
    lemma_reduce(step_raw(4, c, 15), 36893488130239225858, 35184372088832);
}

/// Stage 5 on column 3.
proof fn lemma_column_3_stage_5(c: Seq<int>)
    requires
        lanes16(c, 18446744000695107585, 8589934592, 4503599626321920, 18444492269601423361, 18446744069414582273, 32768, 72057594037927936, 16140901060200890369, 2097152, 18446744069381029889, 18446744000695107601, 274877906880, 4, 4611686017353646080, 18446462594437873665, 35184372088832),
    ensures
        lanes16(step(5, c), 18446744009285042177, 18446743992105172993, 2251799813160960, 6755399439482880, 30720, 18446744069414549505, 16212958654238818305, 2377900603251621888, 18446744069383127041, 35651584, 206158430160, 18446743725817200721, 4611686017353646084, 13835058052060938245, 18446497778809962497, 18446427410065784833),
{
    reveal(lanes16);
    lemma_reduce(step_raw(5, c, 0), 0, 18446744009285042177);
    lemma_reduce(step_raw(5, c, 1), 0, 18446743992105172993);
    lemma_reduce(step_raw(5, c, 2), 1, 2251799813160960);
    lemma_reduce(step_raw(5, c, 3), -1, 6755399439482880);
    lemma_reduce(step_raw(5, c, 4), 1, 30720);
    lemma_reduce(step_raw(5, c, 5), 0, 18446744069414549505);
    lemma_reduce(step_raw(5, c, 6), 0, 16212958654238818305);
    lemma_reduce(step_raw(5, c, 7), -1, 2377900603251621888);
    lemma_reduce(step_raw(5, c, 8), 0, 18446744069383127041);
    lemma_reduce(step_raw(5, c, 9), -1, 35651584);
    lemma_reduce(step_raw(5, c, 10), 1, 206158430160);
    lemma_reduce(step_raw(5, c, 11), 0, 18446743725817200721);
    lemma_reduce(step_raw(5, c, 12), 0, 4611686017353646084);
    lemma_reduce(step_raw(5, c, 13), -1, 13835058052060938245);
    lemma_reduce(step_raw(5, c, 14), 0, 18446497778809962497);
    lemma_reduce(step_raw(5, c, 15), 0, 18446427410065784833);
}

/// Stage 6 on column 3.
proof fn lemma_column_3_stage_6(c: Seq<int>)
    requires
        lanes16(c, 18446744009285042177, 18446743992105172993, 2251799813160960, 6755399439482880, 30720, 18446744069414549505, 16212958654238818305, 2377900603251621888, 18446744069383127041, 35651584, 206158430160, 18446743725817200721, 4611686017353646084, 13835058052060938245, 18446497778809962497, 18446427410065784833),
    ensures
        lanes16(step(6, c), 2251739683618816, 25769803776, 18444492209471881217, 18446743889025957889, 16212958654238849025, 18446744069414557953, 2233785415175796736, 18446744069414541057, 206126972880, 30408704, 18446743863224696881, 40894464, 4611439726749024260, 16140901060737761284, 4611932307958267908, 11529215043384115206),
{
    reveal(lanes16);
    lemma_reduce(step_raw(6, c, 0), 1, 2251739683618816);
    lemma_reduce(step_raw(6, c, 1), 6755296360267777, 25769803776);
    lemma_reduce(step_raw(6, c, 2), 0, 18444492209471881217);
    lemma_reduce(step_raw(6, c, 3), -6755296360267776, 18446743889025957889);
    lemma_reduce(step_raw(6, c, 4), 0, 16212958654238849025);
    lemma_reduce(step_raw(6, c, 5), 2377864319367896832, 18446744069414557953);
    lemma_reduce(step_raw(6, c, 6), -1, 2233785415175796736);
    lemma_reduce(step_raw(6, c, 7), -2377864319367896832, 18446744069414541057);
    lemma_reduce(step_raw(6, c, 8), 1, 206126972880);
    lemma_reduce(step_raw(6, c, 9), 18446462250845732945, 30408704);
    lemma_reduce(step_raw(6, c, 10), 0, 18446743863224696881);
    lemma_reduce(step_raw(6, c, 11), -18446462250845732945, 40894464);
    lemma_reduce(step_raw(6, c, 12), 1, 4611439726749024260);
    lemma_reduce(step_raw(6, c, 13), 18446145939920912386, 16140901060737761284);
    lemma_reduce(step_raw(6, c, 14), -1, 4611932307958267908);
    lemma_reduce(step_raw(6, c, 15), -18446145939920912386, 11529215043384115206);
}

/// Stage 7 on column 3.
proof fn lemma_column_3_stage_7(c: Seq<int>)
    requires
        lanes16(c, 2251739683618816, 25769803776, 18444492209471881217, 18446743889025957889, 16212958654238849025, 18446744069414557953, 2233785415175796736, 18446744069414541057, 206126972880, 30408704, 18446743863224696881, 40894464, 4611439726749024260, 16140901060737761284, 4611932307958267908, 11529215043384115206),
    ensures
        lanes16(step(7, c), 16215210393922467841, 18417752172589940737, 9797580924920536833, 18446743163176484865, 2236037154859354112, 28991948364251136, 8644659424608641280, 545460846592, 4611439932875997140, 3436004244704, 2304787271324270641, 131072000, 13835304548792532941, 18446740633471157025, 16141956385710538800, 18446744069365301249),
{
    reveal(lanes16);
    lemma_reduce(step_raw(7, c, 0), 0, 16215210393922467841);
    lemma_reduce(step_raw(7, c, 1), 1099511627519, 18417752172589940737);
    lemma_reduce(step_raw(7, c, 2), 2233751330315327744, 9797580924920536833);
    lemma_reduce(step_raw(7, c, 3), 16777216, 18446743163176484865);
    lemma_reduce(step_raw(7, c, 4), -1, 2236037154859354112);
    lemma_reduce(step_raw(7, c, 5), -1099511627520, 28991948364251136);
    lemma_reduce(step_raw(7, c, 6), -2233751330315327743, 8644659424608641280);
    lemma_reduce(step_raw(7, c, 7), -16777215, 545460846592);
    lemma_reduce(step_raw(7, c, 8), 0, 4611439932875997140);
    lemma_reduce(step_raw(7, c, 9), 962072674080, 3436004244704);
    lemma_reduce(step_raw(7, c, 10), 4611861935455993860, 2304787271324270641);
    lemma_reduce(step_raw(7, c, 11), 10485760, 131072000);
    lemma_reduce(step_raw(7, c, 12), -1, 13835304548792532941);
    lemma_reduce(step_raw(7, c, 13), -962072674081, 18446740633471157025);
    lemma_reduce(step_raw(7, c, 14), -4611861935455993859, 16141956385710538800);
    lemma_reduce(step_raw(7, c, 15), -10485761, 18446744069365301249);
}

/// Stage 8 on column 3.
proof fn lemma_column_3_stage_8(c: Seq<int>)
    requires
        lanes16(c, 16215210393922467841, 18417752172589940737, 9797580924920536833, 18446743163176484865, 2236037154859354112, 28991948364251136, 8644659424608641280, 545460846592, 4611439932875997140, 3436004244704, 2304787271324270641, 131072000, 13835304548792532941, 18446740633471157025, 16141956385710538800, 18446744069365301249),
    ensures
        lanes16(step(8, c), 2379906257383880660, 2060678330275253760, 12103477672291081763, 18446742626305572865, 4542937756286289441, 14872856315882446081, 5185371269165997376, 18433515290973110273, 11603770461046470701, 16328081945490043393, 7491684177549991903, 18446743700047396865, 18375880622847003104, 3631871650260640512, 12103947580051285184, 13229869363167232),
{
    reveal(lanes16);
    lemma_reduce(step_raw(8, c, 0), 1, 2379906257383880660);
    lemma_reduce(step_raw(8, c, 1), 12801, 2060678330275253760);
    lemma_reduce(step_raw(8, c, 2), 137376026590, 12103477672291081763);
    lemma_reduce(step_raw(8, c, 3), 131072000, 18446742626305572865);
    lemma_reduce(step_raw(8, c, 4), 13835093438798758316, 4542937756286289441);
    lemma_reduce(step_raw(8, c, 5), 18442237034683688480, 14872856315882446081);
    lemma_reduce(step_raw(8, c, 6), 14681024, 5185371269165997376);
    lemma_reduce(step_raw(8, c, 7), 1152921504603766783, 18433515290973110273);
    lemma_reduce(step_raw(8, c, 8), 0, 11603770461046470701);
    lemma_reduce(step_raw(8, c, 9), -12800, 16328081945490043393);
    lemma_reduce(step_raw(8, c, 10), -137376026590, 7491684177549991903);
    lemma_reduce(step_raw(8, c, 11), -131072000, 18446743700047396865);
    lemma_reduce(step_raw(8, c, 12), -13835093438798758317, 18375880622847003104);
    lemma_reduce(step_raw(8, c, 13), -18442237034683688481, 3631871650260640512);
    lemma_reduce(step_raw(8, c, 14), -14681024, 12103947580051285184);
    lemma_reduce(step_raw(8, c, 15), -1152921504603766784, 13229869363167232);
}

/// The lanes of unit vector 3.
proof fn lemma_column_3_first()
    ensures
        lanes16(basis(3, 16), 0, 0, 0, 1, 0, 0, 0, 0, 0, 0, 0, 0, 0, 0, 0, 0),
{
    reveal(lanes16);
}

/// The lanes that the last stage leaves for unit vector 3 are column 3 of the matrix.
proof fn lemma_column_3_last(c: Seq<int>)
    requires
        lanes16(c, 2379906257383880660, 2060678330275253760, 12103477672291081763, 18446742626305572865, 4542937756286289441, 14872856315882446081, 5185371269165997376, 18433515290973110273, 11603770461046470701, 16328081945490043393, 7491684177549991903, 18446743700047396865, 18375880622847003104, 3631871650260640512, 12103947580051285184, 13229869363167232),
    ensures
        is_mds_column(c, 3),
{
    reveal(lanes16);
}

/// Column 3 of the matrix that the transform applies.
proof fn lemma_column_3()
    ensures
        is_mds_column(run(9, basis(3, 16)), 3),
{
    let c0 = basis(3, 16);
    lemma_column_3_first();
    lemma_column_3_stage_0(c0);
    let c1 = step(0, c0);
    lemma_column_3_stage_1(c1);
    let c2 = step(1, c1);
    lemma_column_3_stage_2(c2);
    let c3 = step(2, c2);
    lemma_column_3_stage_3(c3);
    let c4 = step(3, c3);
    lemma_column_3_stage_4(c4);
    let c5 = step(4, c4);
    lemma_column_3_stage_5(c5);
    let c6 = step(5, c5);
    lemma_column_3_stage_6(c6);
    let c7 = step(6, c6);
    lemma_column_3_stage_7(c7);
    let c8 = step(7, c7);
    lemma_column_3_stage_8(c8);
    let c9 = step(8, c8);
    lemma_column_3_last(c9);
    assert(run(9, c0) == c9) by {
        reveal_with_fuel(run, 10);
    }
}

/// Stage 0 on column 4.
proof fn lemma_column_4_stage_0(c: Seq<int>)
    requires
        lanes16(c, 0, 0, 0, 0, 1, 0, 0, 0, 0, 0, 0, 0, 0, 0, 0, 0),
    ensures
        lanes16(step(0, c), 0, 0, 0, 0, 1, 0, 0, 0, 0, 0, 0, 0, 1, 0, 0, 0),
{
    reveal(lanes16);
    lemma_reduce(step_raw(0, c, 0), 0, 0);
    lemma_reduce(step_raw(0, c, 1), 0, 0);
    lemma_reduce(step_raw(0, c, 2), 0, 0);
    lemma_reduce(step_raw(0, c, 3), 0, 0);
    lemma_reduce(step_raw(0, c, 4), 0, 1);
    lemma_reduce(step_raw(0, c, 5), 0, 0);
    lemma_reduce(step_raw(0, c, 6), 0, 0);
    lemma_reduce(step_raw(0, c, 7), 0, 0);
    lemma_reduce(step_raw(0, c, 8), 0, 0);
    lemma_reduce(step_raw(0, c, 9), 0, 0);
    lemma_reduce(step_raw(0, c, 10), 0, 0);
    lemma_reduce(step_raw(0, c, 11), 0, 0);
    lemma_reduce(step_raw(0, c, 12), 0, 1);
    lemma_reduce(step_raw(0, c, 13), 0, 0);
    lemma_reduce(step_raw(0, c, 14), 0, 0);
    lemma_reduce(step_raw(0, c, 15), 0, 0);
}

/// Stage 1 on column 4.
proof fn lemma_column_4_stage_1(c: Seq<int>)
    requires
        lanes16(c, 0, 0, 0, 0, 1, 0, 0, 0, 0, 0, 0, 0, 1, 0, 0, 0),
    ensures
        lanes16(step(1, c), 1, 0, 0, 0, 18446744069414584320, 0, 0, 0, 281474976710656, 0, 0, 0, 18446462594437873665, 0, 0, 0),
{
    reveal(lanes16);
    lemma_reduce(step_raw(1, c, 0), 0, 1);
    lemma_reduce(step_raw(1, c, 1), 0, 0);
    lemma_reduce(step_raw(1, c, 2), 0, 0);
    lemma_reduce(step_raw(1, c, 3), 0, 0);
    lemma_reduce(step_raw(1, c, 4), -1, 18446744069414584320);
    lemma_reduce(step_raw(1, c, 5), 0, 0);
    lemma_reduce(step_raw(1, c, 6), 0, 0);
    lemma_reduce(step_raw(1, c, 7), 0, 0);
    lemma_reduce(step_raw(1, c, 8), 0, 281474976710656);
    lemma_reduce(step_raw(1, c, 9), 0, 0);
    lemma_reduce(step_raw(1, c, 10), 0, 0);
    lemma_reduce(step_raw(1, c, 11), 0, 0);
    lemma_reduce(step_raw(1, c, 12), -1, 18446462594437873665);
    lemma_reduce(step_raw(1, c, 13), 0, 0);
    lemma_reduce(step_raw(1, c, 14), 0, 0);
    lemma_reduce(step_raw(1, c, 15), 0, 0);
}

/// Stage 2 on column 4.
proof fn lemma_column_4_stage_2(c: Seq<int>)
    requires
        lanes16(c, 1, 0, 0, 0, 18446744069414584320, 0, 0, 0, 281474976710656, 0, 0, 0, 18446462594437873665, 0, 0, 0),
    ensures
        lanes16(step(2, c), 1, 0, 1, 0, 18446744069414584320, 0, 18446744069414584320, 0, 281474976710656, 0, 281474976710656, 0, 18446462594437873665, 0, 18446462594437873665, 0),
{
    reveal(lanes16);
    lemma_reduce(step_raw(2, c, 0), 0, 1);
    lemma_reduce(step_raw(2, c, 1), 0, 0);
    lemma_reduce(step_raw(2, c, 2), 0, 1);
    lemma_reduce(step_raw(2, c, 3), 0, 0);
    lemma_reduce(step_raw(2, c, 4), 0, 18446744069414584320);
    lemma_reduce(step_raw(2, c, 5), 0, 0);
    lemma_reduce(step_raw(2, c, 6), 0, 18446744069414584320);
    lemma_reduce(step_raw(2, c, 7), 0, 0);
    lemma_reduce(step_raw(2, c, 8), 0, 281474976710656);
    lemma_reduce(step_raw(2, c, 9), 0, 0);
    lemma_reduce(step_raw(2, c, 10), 0, 281474976710656);
    lemma_reduce(step_raw(2, c, 11), 0, 0);
    lemma_reduce(step_raw(2, c, 12), 0, 18446462594437873665);
    lemma_reduce(step_raw(2, c, 13), 0, 0);
    lemma_reduce(step_raw(2, c, 14), 0, 18446462594437873665);
    lemma_reduce(step_raw(2, c, 15), 0, 0);
}

/// Stage 3 on column 4.
proof fn lemma_column_4_stage_3(c: Seq<int>)
    requires
        lanes16(c, 1, 0, 1, 0, 18446744069414584320, 0, 18446744069414584320, 0, 281474976710656, 0, 281474976710656, 0, 18446462594437873665, 0, 18446462594437873665, 0),
    ensures
        lanes16(step(3, c), 1, 1, 1, 1, 18446744069414584320, 18446744069414584320, 18446744069414584320, 18446744069414584320, 281474976710656, 281474976710656, 281474976710656, 281474976710656, 18446462594437873665, 18446462594437873665, 18446462594437873665, 18446462594437873665),
{
    reveal(lanes16);
    lemma_reduce(step_raw(3, c, 0), 0, 1);
    lemma_reduce(step_raw(3, c, 1), 0, 1);
    lemma_reduce(step_raw(3, c, 2), 0, 1);
    lemma_reduce(step_raw(3, c, 3), 0, 1);
    lemma_reduce(step_raw(3, c, 4), 0, 18446744069414584320);
    lemma_reduce(step_raw(3, c, 5), 0, 18446744069414584320);
    lemma_reduce(step_raw(3, c, 6), 0, 18446744069414584320);
    lemma_reduce(step_raw(3, c, 7), 0, 18446744069414584320);
    lemma_reduce(step_raw(3, c, 8), 0, 281474976710656);
    lemma_reduce(step_raw(3, c, 9), 0, 281474976710656);
    lemma_reduce(step_raw(3, c, 10), 0, 281474976710656);
    lemma_reduce(step_raw(3, c, 11), 0, 281474976710656);
    lemma_reduce(step_raw(3, c, 12), 0, 18446462594437873665);
    lemma_reduce(step_raw(3, c, 13), 0, 18446462594437873665);
    lemma_reduce(step_raw(3, c, 14), 0, 18446462594437873665);
    lemma_reduce(step_raw(3, c, 15), 0, 18446462594437873665);
}

/// Stage 4 on column 4.
proof fn lemma_column_4_stage_4(c: Seq<int>)
    requires
        lanes16(c, 1, 1, 1, 1, 18446744069414584320, 18446744069414584320, 18446744069414584320, 18446744069414584320, 281474976710656, 281474976710656, 281474976710656, 281474976710656, 18446462594437873665, 18446462594437873665, 18446462594437873665, 18446462594437873665),
    ensures
        lanes16(step(4, c), 18446744000695107585, 18446744060824649729, 18446744000695107585, 18446744035054845953, 34359738368, 549755813888, 4294967296, 137438953472, 18446181119461294081, 18437736870161940481, 18446462594437939201, 18445618169508003841, 18014398505287680, 1125899906580480, 4503599626321920, 562949953290240),
{
    reveal(lanes16);
    lemma_reduce(step_raw(4, c, 0), 15, 18446744000695107585);
    lemma_reduce(step_raw(4, c, 1), 1, 18446744060824649729);
    lemma_reduce(step_raw(4, c, 2), 15, 18446744000695107585);
    lemma_reduce(step_raw(4, c, 3), 7, 18446744035054845953);
    lemma_reduce(step_raw(4, c, 4), 147573952520956936192, 34359738368);
    lemma_reduce(step_raw(4, c, 5), 2361183240335310979072, 549755813888);
    lemma_reduce(step_raw(4, c, 6), 18446744065119617024, 4294967296);
    lemma_reduce(step_raw(4, c, 7), 590295810083827744768, 137438953472);
    lemma_reduce(step_raw(4, c, 8), 562949953290239, 18446181119461294081);
    lemma_reduce(step_raw(4, c, 9), 9007199252643839, 18437736870161940481);
    lemma_reduce(step_raw(4, c, 10), 281474976645119, 18446462594437939201);
    lemma_reduce(step_raw(4, c, 11), 1125899906580479, 18445618169508003841);
    lemma_reduce(step_raw(4, c, 12), 1180573605769150201920, 18014398505287680);
    lemma_reduce(step_raw(4, c, 13), 73785850360571887620, 1125899906580480);
    lemma_reduce(step_raw(4, c, 14), 295143401442287550480, 4503599626321920);
    lemma_reduce(step_raw(4, c, 15), 36892925180285943810, 562949953290240);
}

/// Stage 5 on column 4.
proof fn lemma_column_4_stage_5(c: Seq<int>)
    requires
        lanes16(c, 18446744000695107585, 18446744060824649729, 18446744000695107585, 18446744035054845953, 34359738368, 549755813888, 4294967296, 137438953472, 18446181119461294081, 18437736870161940481, 18446462594437939201, 18445618169508003841, 18014398505287680, 1125899906580480, 4503599626321920, 562949953290240),
    ensures
        lanes16(step(5, c), 18446743992105172993, 18446744009285042177, 18446743966335369217, 18446744035054845953, 584115552256, 18446743554018508801, 141733920768, 18446743936270598145, 18437173920208650241, 8444249299353600, 18445336694531358721, 844424929935360, 19140298411868160, 16888498598707200, 5066549579612160, 3940649673031680),
{
    reveal(lanes16);
    lemma_reduce(step_raw(5, c, 0), 1, 18446743992105172993);
    lemma_reduce(step_raw(5, c, 1), -1, 18446744009285042177);
    lemma_reduce(step_raw(5, c, 2), 1, 18446743966335369217);
    lemma_reduce(step_raw(5, c, 3), -1, 18446744035054845953);
    lemma_reduce(step_raw(5, c, 4), 0, 584115552256);
    lemma_reduce(step_raw(5, c, 5), -1, 18446743554018508801);
    lemma_reduce(step_raw(5, c, 6), 0, 141733920768);
    lemma_reduce(step_raw(5, c, 7), -1, 18446743936270598145);
    lemma_reduce(step_raw(5, c, 8), 1, 18437173920208650241);
    lemma_reduce(step_raw(5, c, 9), 0, 8444249299353600);
    lemma_reduce(step_raw(5, c, 10), 1, 18445336694531358721);
    lemma_reduce(step_raw(5, c, 11), 0, 844424929935360);
    lemma_reduce(step_raw(5, c, 12), 0, 19140298411868160);
    lemma_reduce(step_raw(5, c, 13), 0, 16888498598707200);
    lemma_reduce(step_raw(5, c, 14), 0, 5066549579612160);
    lemma_reduce(step_raw(5, c, 15), 0, 3940649673031680);
}

/// Stage 6 on column 4.
proof fn lemma_column_4_stage_6(c: Seq<int>)
    requires
        lanes16(c, 18446743992105172993, 18446744009285042177, 18446743966335369217, 18446744035054845953, 584115552256, 18446743554018508801, 141733920768, 18446743936270598145, 18437173920208650241, 8444249299353600, 18445336694531358721, 844424929935360, 19140298411868160, 16888498598707200, 5066549579612160, 3940649673031680),
    ensures
        lanes16(step(6, c), 18446743889025957889, 2251739683618816, 25769803776, 18444492209471881217, 725849473024, 8725208879923200, 442381631488, 18438017829742510081, 18435766545325424641, 8444262184255488, 18438581295091875841, 8444236414451712, 24206847991480320, 16888558728249344, 14073748832256000, 16888438469165056),
{
    reveal(lanes16);
    lemma_reduce(step_raw(6, c, 0), 1, 18446743889025957889);
    lemma_reduce(step_raw(6, c, 1), 18446462560078659586, 2251739683618816);
    lemma_reduce(step_raw(6, c, 2), 0, 25769803776);
    lemma_reduce(step_raw(6, c, 3), -18446462560078659585, 18444492209471881217);
    lemma_reduce(step_raw(6, c, 4), 0, 725849473024);
    lemma_reduce(step_raw(6, c, 5), 18446462461295919106, 8725208879923200);
    lemma_reduce(step_raw(6, c, 6), 0, 442381631488);
    lemma_reduce(step_raw(6, c, 7), -18446462461295919105, 18438017829742510081);
    lemma_reduce(step_raw(6, c, 8), 1, 18435766545325424641);
    lemma_reduce(step_raw(6, c, 9), 844412045033472, 8444262184255488);
    lemma_reduce(step_raw(6, c, 10), -1, 18438581295091875841);
    lemma_reduce(step_raw(6, c, 11), -844412045033472, 8444236414451712);
    lemma_reduce(step_raw(6, c, 12), 0, 24206847991480320);
    lemma_reduce(step_raw(6, c, 13), 3940589543489536, 16888558728249344);
    lemma_reduce(step_raw(6, c, 14), 0, 14073748832256000);
    lemma_reduce(step_raw(6, c, 15), -3940589543489536, 16888438469165056);
}

/// Stage 7 on column 4.
proof fn lemma_column_4_stage_7(c: Seq<int>)
    requires
        lanes16(c, 18446743889025957889, 2251739683618816, 25769803776, 18444492209471881217, 725849473024, 8725208879923200, 442381631488, 18438017829742510081, 18435766545325424641, 8444262184255488, 18438581295091875841, 8444236414451712, 24206847991480320, 16888558728249344, 14073748832256000, 16888438469165056),
    ensures
        lanes16(step(7, c), 545460846592, 16215210393922467841, 18417752172589940737, 9797580924920536833, 18446743163176484865, 2236037154859354112, 28991948364251136, 8644659424608641280, 13229323902320640, 14131732689323160065, 18438581509840240641, 17446381989298029569, 18411559697333944321, 4331899904459935232, 18438581080343511041, 1017250552945458176),
{
    reveal(lanes16);
    lemma_reduce(step_raw(7, c, 0), 1, 545460846592);
    lemma_reduce(step_raw(7, c, 1), 520062975, 16215210393922467841);
    lemma_reduce(step_raw(7, c, 2), 442374881279, 18417752172589940737);
    lemma_reduce(step_raw(7, c, 3), 16769280, 9797580924920536833);
    lemma_reduce(step_raw(7, c, 4), 0, 18446743163176484865);
    lemma_reduce(step_raw(7, c, 5), -520062976, 2236037154859354112);
    lemma_reduce(step_raw(7, c, 6), -442374881280, 28991948364251136);
    lemma_reduce(step_raw(7, c, 7), -16769279, 8644659424608641280);
    lemma_reduce(step_raw(7, c, 8), 1, 13229323902320640);
    lemma_reduce(step_raw(7, c, 9), 1006636543, 14131732689323160065);
    lemma_reduce(step_raw(7, c, 10), 14073534083891200, 18438581509840240641);
    lemma_reduce(step_raw(7, c, 11), 15359, 17446381989298029569);
    lemma_reduce(step_raw(7, c, 12), 0, 18411559697333944321);
    lemma_reduce(step_raw(7, c, 13), -1006636544, 4331899904459935232);
    lemma_reduce(step_raw(7, c, 14), -14073534083891200, 18438581080343511041);
    lemma_reduce(step_raw(7, c, 15), -15360, 1017250552945458176);
}

/// Stage 8 on column 4.
proof fn lemma_column_4_stage_8(c: Seq<int>)
    requires
        lanes16(c, 545460846592, 16215210393922467841, 18417752172589940737, 9797580924920536833, 18446743163176484865, 2236037154859354112, 28991948364251136, 8644659424608641280, 13229323902320640, 14131732689323160065, 18438581509840240641, 17446381989298029569, 18411559697333944321, 4331899904459935232, 18438581080343511041, 1017250552945458176),
    ensures
        lanes16(step(8, c), 13229869363167232, 2379906257383880660, 2060678330275253760, 12103477672291081763, 18446742626305572865, 4542937756286289441, 14872856315882446081, 5185371269165997376, 18433515290973110273, 11603770461046470701, 16328081945490043393, 7491684177549991903, 18446743700047396865, 18375880622847003104, 3631871650260640512, 12103947580051285184),
{
    reveal(lanes16);
    lemma_reduce(step_raw(8, c, 0), 0, 13229869363167232);
    lemma_reduce(step_raw(8, c, 1), 52644806701, 2379906257383880660);
    lemma_reduce(step_raw(8, c, 2), 1099025101057, 2060678330275253760);
    lemma_reduce(step_raw(8, c, 3), 17446381989298025695, 12103477672291081763);
    lemma_reduce(step_raw(8, c, 4), 18411278759228145665, 18446742626305572865);
    lemma_reduce(step_raw(8, c, 5), 4330842311709822943, 4542937756286289441);
    lemma_reduce(step_raw(8, c, 6), 16769791, 14872856315882446081);
    lemma_reduce(step_raw(8, c, 7), 63578159573894080, 5185371269165997376);
    lemma_reduce(step_raw(8, c, 8), -1, 18433515290973110273);
    lemma_reduce(step_raw(8, c, 9), -52644806700, 11603770461046470701);
    lemma_reduce(step_raw(8, c, 10), -1099025101056, 16328081945490043393);
    lemma_reduce(step_raw(8, c, 11), -17446381989298025695, 7491684177549991903);
    lemma_reduce(step_raw(8, c, 12), -18411278759228145665, 18446743700047396865);
    lemma_reduce(step_raw(8, c, 13), -4330842311709822944, 18375880622847003104);
    lemma_reduce(step_raw(8, c, 14), -16769792, 3631871650260640512);
    lemma_reduce(step_raw(8, c, 15), -63578159573894080, 12103947580051285184);
}

/// The lanes of unit vector 4.
proof fn lemma_column_4_first()
    ensures
        lanes16(basis(4, 16), 0, 0, 0, 0, 1, 0, 0, 0, 0, 0, 0, 0, 0, 0, 0, 0),
{
    reveal(lanes16);
}

/// The lanes that the last stage leaves for unit vector 4 are column 4 of the matrix.
proof fn lemma_column_4_last(c: Seq<int>)
    requires
        lanes16(c, 13229869363167232, 2379906257383880660, 2060678330275253760, 12103477672291081763, 18446742626305572865, 4542937756286289441, 14872856315882446081, 5185371269165997376, 18433515290973110273, 11603770461046470701, 16328081945490043393, 7491684177549991903, 18446743700047396865, 18375880622847003104, 3631871650260640512, 12103947580051285184),
    ensures
        is_mds_column(c, 4),
{
    reveal(lanes16);
}

/// Column 4 of the matrix that the transform applies.
proof fn lemma_column_4()
    ensures
        is_mds_column(run(9, basis(4, 16)), 4),
{
    let c0 = basis(4, 16);
    lemma_column_4_first();
    lemma_column_4_stage_0(c0);
    let c1 = step(0, c0);
    lemma_column_4_stage_1(c1);
    let c2 = step(1, c1);
    lemma_column_4_stage_2(c2);
    let c3 = step(2, c2);
    lemma_column_4_stage_3(c3);
    let c4 = step(3, c3);
    lemma_column_4_stage_4(c4);
    let c5 = step(4, c4);
    lemma_column_4_stage_5(c5);
    let c6 = step(5, c5);
    lemma_column_4_stage_6(c6);
    let c7 = step(6, c6);
    lemma_column_4_stage_7(c7);
    let c8 = step(7, c7);
    lemma_column_4_stage_8(c8);
    let c9 = step(8, c8);
    lemma_column_4_last(c9);
    assert(run(9, c0) == c9) by {
        reveal_with_fuel(run, 10);
    }
}

/// Stage 0 on column 5.
proof fn lemma_column_5_stage_0(c: Seq<int>)
    requires
        lanes16(c, 0, 0, 0, 0, 0, 1, 0, 0, 0, 0, 0, 0, 0, 0, 0, 0),
    ensures
        lanes16(step(0, c), 0, 0, 0, 0, 0, 1, 0, 0, 0, 0, 0, 0, 0, 1, 0, 0),
{
    reveal(lanes16);
    lemma_reduce(step_raw(0, c, 0), 0, 0);
    lemma_reduce(step_raw(0, c, 1), 0, 0);
    lemma_reduce(step_raw(0, c, 2), 0, 0);
    lemma_reduce(step_raw(0, c, 3), 0, 0);
    lemma_reduce(step_raw(0, c, 4), 0, 0);
    lemma_reduce(step_raw(0, c, 5), 0, 1);
    lemma_reduce(step_raw(0, c, 6), 0, 0);
    lemma_reduce(step_raw(0, c, 7), 0, 0);
    lemma_reduce(step_raw(0, c, 8), 0, 0);
    lemma_reduce(step_raw(0, c, 9), 0, 0);
    lemma_reduce(step_raw(0, c, 10), 0, 0);
    lemma_reduce(step_raw(0, c, 11), 0, 0);
    lemma_reduce(step_raw(0, c, 12), 0, 0);
    lemma_reduce(step_raw(0, c, 13), 0, 1);
    lemma_reduce(step_raw(0, c, 14), 0, 0);
    lemma_reduce(step_raw(0, c, 15), 0, 0);
}

/// Stage 1 on column 5.
proof fn lemma_column_5_stage_1(c: Seq<int>)
    requires
        lanes16(c, 0, 0, 0, 0, 0, 1, 0, 0, 0, 0, 0, 0, 0, 1, 0, 0),
    ensures
        lanes16(step(1, c), 0, 1, 0, 0, 0, 18446744069414584320, 0, 0, 0, 281474976710656, 0, 0, 0, 18446462594437873665, 0, 0),
{
    reveal(lanes16);
    lemma_reduce(step_raw(1, c, 0), 0, 0);
    lemma_reduce(step_raw(1, c, 1), 0, 1);
    lemma_reduce(step_raw(1, c, 2), 0, 0);
    lemma_reduce(step_raw(1, c, 3), 0, 0);
    lemma_reduce(step_raw(1, c, 4), 0, 0);
    lemma_reduce(step_raw(1, c, 5), -1, 18446744069414584320);
    lemma_reduce(step_raw(1, c, 6), 0, 0);
    lemma_reduce(step_raw(1, c, 7), 0, 0);
    lemma_reduce(step_raw(1, c, 8), 0, 0);
    lemma_reduce(step_raw(1, c, 9), 0, 281474976710656);
    lemma_reduce(step_raw(1, c, 10), 0, 0);
    lemma_reduce(step_raw(1, c, 11), 0, 0);
    lemma_reduce(step_raw(1, c, 12), 0, 0);
    lemma_reduce(step_raw(1, c, 13), -1, 18446462594437873665);
    lemma_reduce(step_raw(1, c, 14), 0, 0);
    lemma_reduce(step_raw(1, c, 15), 0, 0);
}

/// Stage 2 on column 5.
proof fn lemma_column_5_stage_2(c: Seq<int>)
    requires
        lanes16(c, 0, 1, 0, 0, 0, 18446744069414584320, 0, 0, 0, 281474976710656, 0, 0, 0, 18446462594437873665, 0, 0),
    ensures
        lanes16(step(2, c), 0, 1, 0, 1, 0, 18446744069414584320, 0, 18446744069414584320, 0, 281474976710656, 0, 281474976710656, 0, 18446462594437873665, 0, 18446462594437873665),
{
    reveal(lanes16);
    lemma_reduce(step_raw(2, c, 0), 0, 0);
    lemma_reduce(step_raw(2, c, 1), 0, 1);
    lemma_reduce(step_raw(2, c, 2), 0, 0);
    lemma_reduce(step_raw(2, c, 3), 0, 1);
    lemma_reduce(step_raw(2, c, 4), 0, 0);
    lemma_reduce(step_raw(2, c, 5), 0, 18446744069414584320);
    lemma_reduce(step_raw(2, c, 6), 0, 0);
    lemma_reduce(step_raw(2, c, 7), 0, 18446744069414584320);
    lemma_reduce(step_raw(2, c, 8), 0, 0);
    lemma_reduce(step_raw(2, c, 9), 0, 281474976710656);
    lemma_reduce(step_raw(2, c, 10), 0, 0);
    lemma_reduce(step_raw(2, c, 11), 0, 281474976710656);
    lemma_reduce(step_raw(2, c, 12), 0, 0);
    lemma_reduce(step_raw(2, c, 13), 0, 18446462594437873665);
    lemma_reduce(step_raw(2, c, 14), 0, 0);
    lemma_reduce(step_raw(2, c, 15), 0, 18446462594437873665);
}

/// Stage 3 on column 5.
proof fn lemma_column_5_stage_3(c: Seq<int>)
    requires
        lanes16(c, 0, 1, 0, 1, 0, 18446744069414584320, 0, 18446744069414584320, 0, 281474976710656, 0, 281474976710656, 0, 18446462594437873665, 0, 18446462594437873665),
    ensures
        lanes16(step(3, c), 1, 18446744069414584320, 281474976710656, 18446462594437873665, 16777216, 18446744069397807105, 1099511627520, 18446742969902956801, 4096, 18446744069414580225, 1152921504606846976, 17293822564807737345, 68719476736, 18446744000695107585, 4503599626321920, 18442240469788262401),
{
    reveal(lanes16);
    lemma_reduce(step_raw(3, c, 0), 0, 1);
    lemma_reduce(step_raw(3, c, 1), -1, 18446744069414584320);
    lemma_reduce(step_raw(3, c, 2), 0, 281474976710656);
    lemma_reduce(step_raw(3, c, 3), -1, 18446462594437873665);
    lemma_reduce(step_raw(3, c, 4), 18446744069397807104, 16777216);
    lemma_reduce(step_raw(3, c, 5), -18446744069397807105, 18446744069397807105);
    lemma_reduce(step_raw(3, c, 6), 18446742969902956800, 1099511627520);
    lemma_reduce(step_raw(3, c, 7), -18446742969902956801, 18446742969902956801);
    lemma_reduce(step_raw(3, c, 8), 263882790662144, 4096);
    lemma_reduce(step_raw(3, c, 9), -263882790662145, 18446744069414580225);
    lemma_reduce(step_raw(3, c, 10), 0, 1152921504606846976);
    lemma_reduce(step_raw(3, c, 11), -1, 17293822564807737345);
    lemma_reduce(step_raw(3, c, 12), 4503530906845184, 68719476736);
    lemma_reduce(step_raw(3, c, 13), -4503530906845185, 18446744000695107585);
    lemma_reduce(step_raw(3, c, 14), 18446462525719445505, 4503599626321920);
    lemma_reduce(step_raw(3, c, 15), -18446462525719445506, 18442240469788262401);
}

/// Stage 4 on column 5.
proof fn lemma_column_5_stage_4(c: Seq<int>)
    requires
        lanes16(c, 1, 18446744069414584320, 281474976710656, 18446462594437873665, 16777216, 18446744069397807105, 1099511627520, 18446742969902956801, 4096, 18446744069414580225, 1152921504606846976, 17293822564807737345, 68719476736, 18446744000695107585, 4503599626321920, 18442240469788262401),
    ensures
        lanes16(step(4, c), 18446744000695107585, 8589934592, 18442240469788262401, 2251799813160960, 17870283317111160833, 9223372036854775808, 256, 18446744069414576129, 18446708885042495489, 562949953421312, 17293822565076172801, 4611686017353646080, 18446739671368074241, 274877906880, 16777216, 18446744069412487169),
{
    reveal(lanes16);
    lemma_reduce(step_raw(4, c, 0), 15, 18446744000695107585);
    lemma_reduce(step_raw(4, c, 1), 36893488130239234048, 8589934592);
    lemma_reduce(step_raw(4, c, 2), 4503599626321919, 18442240469788262401);
    lemma_reduce(step_raw(4, c, 3), 147571700721143775240, 2251799813160960);
    lemma_reduce(step_raw(4, c, 4), 134217727, 17870283317111160833);
    lemma_reduce(step_raw(4, c, 5), 2361183240333163495552, 9223372036854775808);
    lemma_reduce(step_raw(4, c, 6), 1099511627264, 256);
    lemma_reduce(step_raw(4, c, 7), 590295774899455672351, 18446744069414576129);
    lemma_reduce(step_raw(4, c, 8), 8191, 18446708885042495489);
    lemma_reduce(step_raw(4, c, 9), 590295810083827613728, 562949953421312);
    lemma_reduce(step_raw(4, c, 10), 1152921504338411519, 17293822565076172801);
    lemma_reduce(step_raw(4, c, 11), 69175290243124822020, 4611686017353646080);
    lemma_reduce(step_raw(4, c, 12), 4398046510079, 18446739671368074241);
    lemma_reduce(step_raw(4, c, 13), 73786975985600561220, 274877906880);
    lemma_reduce(step_raw(4, c, 14), 72057594004373504, 16777216);
    lemma_reduce(step_raw(4, c, 15), 36884480930988687361, 18446744069412487169);
}

/// Stage 5 on column 5.
proof fn lemma_column_5_stage_5(c: Seq<int>)
    requires
        lanes16(c, 18446744000695107585, 8589934592, 18442240469788262401, 2251799813160960, 17870283317111160833, 9223372036854775808, 256, 18446744069414576129, 18446708885042495489, 562949953421312, 17293822565076172801, 4611686017353646080, 18446739671368074241, 274877906880, 16777216, 18446744069412487169),
    ensures
        lanes16(step(5, c), 18446744009285042177, 18446743992105172993, 18444492269601423361, 18439988669975101441, 8646911284551352320, 8646911280256385025, 18446744069414576385, 8448, 527765581332480, 18446145935089074177, 3458764513015234560, 12682136547722526721, 18446739946245981121, 18446739396490167361, 14680064, 18874368),
{
    reveal(lanes16);
    lemma_reduce(step_raw(5, c, 0), 0, 18446744009285042177);
    lemma_reduce(step_raw(5, c, 1), 0, 18446743992105172993);
    lemma_reduce(step_raw(5, c, 2), 0, 18444492269601423361);
    lemma_reduce(step_raw(5, c, 3), 0, 18439988669975101441);
    lemma_reduce(step_raw(5, c, 4), 1, 8646911284551352320);
    lemma_reduce(step_raw(5, c, 5), 0, 8646911280256385025);
    lemma_reduce(step_raw(5, c, 6), 0, 18446744069414576385);
    lemma_reduce(step_raw(5, c, 7), -1, 8448);
    lemma_reduce(step_raw(5, c, 8), 1, 527765581332480);
    lemma_reduce(step_raw(5, c, 9), 0, 18446145935089074177);
    lemma_reduce(step_raw(5, c, 10), 1, 3458764513015234560);
    lemma_reduce(step_raw(5, c, 11), 0, 12682136547722526721);
    lemma_reduce(step_raw(5, c, 12), 0, 18446739946245981121);
    lemma_reduce(step_raw(5, c, 13), 0, 18446739396490167361);
    lemma_reduce(step_raw(5, c, 14), 1, 14680064);
    lemma_reduce(step_raw(5, c, 15), -1, 18874368);
}

/// Stage 6 on column 5.
proof fn lemma_column_5_stage_6(c: Seq<int>)
    requires
        lanes16(c, 18446744009285042177, 18446743992105172993, 18444492269601423361, 18439988669975101441, 8646911284551352320, 8646911280256385025, 18446744069414576385, 8448, 527765581332480, 18446145935089074177, 3458764513015234560, 12682136547722526721, 18446739946245981121, 18446739396490167361, 14680064, 18874368),
    ensures
        lanes16(step(6, c), 18444492209471881217, 18446743889025957889, 2251739683618816, 25769803776, 8646911284551344384, 6269010677004763137, 8646911284551360256, 11024811883508006913, 3459292278596567040, 18446057974158852097, 14988507321980682241, 18446233896019296257, 18446739946260661185, 18446738159539586401, 18446739946231301057, 18446740633440748321),
{
    reveal(lanes16);
    lemma_reduce(step_raw(6, c, 0), 1, 18444492209471881217);
    lemma_reduce(step_raw(6, c, 1), 18439707298077605889, 18446743889025957889);
    lemma_reduce(step_raw(6, c, 2), 0, 2251739683618816);
    lemma_reduce(step_raw(6, c, 3), -18439707298077605888, 25769803776);
    lemma_reduce(step_raw(6, c, 4), 1, 8646911284551344384);
    lemma_reduce(step_raw(6, c, 5), 8448, 6269010677004763137);
    lemma_reduce(step_raw(6, c, 6), -1, 8646911284551360256);
    lemma_reduce(step_raw(6, c, 7), -8448, 11024811883508006913);
    lemma_reduce(step_raw(6, c, 8), 0, 3459292278596567040);
    lemma_reduce(step_raw(6, c, 9), 12681943033676038145, 18446057974158852097);
    lemma_reduce(step_raw(6, c, 10), -1, 14988507321980682241);
    lemma_reduce(step_raw(6, c, 11), -12681943033676038145, 18446233896019296257);
    lemma_reduce(step_raw(6, c, 12), 0, 18446739946260661185);
    lemma_reduce(step_raw(6, c, 13), 18874080, 18446738159539586401);
    lemma_reduce(step_raw(6, c, 14), 0, 18446739946231301057);
    lemma_reduce(step_raw(6, c, 15), -18874080, 18446740633440748321);
}

/// Stage 7 on column 5.
proof fn lemma_column_5_stage_7(c: Seq<int>)
    requires
        lanes16(c, 18444492209471881217, 18446743889025957889, 2251739683618816, 25769803776, 8646911284551344384, 6269010677004763137, 8646911284551360256, 11024811883508006913, 3459292278596567040, 18446057974158852097, 14988507321980682241, 18446233896019296257, 18446739946260661185, 18446738159539586401, 18446739946231301057, 18446740633440748321),
    ensures
        lanes16(step(7, c), 8644659424608641280, 545460846592, 16215210393922467841, 18417752172589940737, 9797580924920536833, 18446743163176484865, 2236037154859354112, 28991948364251136, 3459288155442643904, 826832744087552, 14988508283990441761, 16140390887342473220, 3459296401750490176, 18444545046159032321, 14988506359970922721, 2305332835281534973),
{
    reveal(lanes16);
    lemma_reduce(step_raw(7, c, 0), 1, 8644659424608641280);
    lemma_reduce(step_raw(7, c, 1), 373662154497, 545460846592);
    lemma_reduce(step_raw(7, c, 2), 8646779343155996415, 16215210393922467841);
    lemma_reduce(step_raw(7, c, 3), 10027007, 18417752172589940737);
    lemma_reduce(step_raw(7, c, 4), 0, 9797580924920536833);
    lemma_reduce(step_raw(7, c, 5), -373662154496, 18446743163176484865);
    lemma_reduce(step_raw(7, c, 6), -8646779343155996416, 2236037154859354112);
    lemma_reduce(step_raw(7, c, 7), -10027008, 28991948364251136);
    lemma_reduce(step_raw(7, c, 8), 1, 3459288155442643904);
    lemma_reduce(step_raw(7, c, 9), 1099511275265, 826832744087552);
    lemma_reduce(step_raw(7, c, 10), 18446458471317505185, 14988508283990441761);
    lemma_reduce(step_raw(7, c, 11), 16777213, 16140390887342473220);
    lemma_reduce(step_raw(7, c, 12), -1, 3459296401750490176);
    lemma_reduce(step_raw(7, c, 13), -1099511275264, 18444545046159032321);
    lemma_reduce(step_raw(7, c, 14), -18446458471317505185, 14988506359970922721);
    lemma_reduce(step_raw(7, c, 15), -16777212, 2305332835281534973);
}

/// Stage 8 on column 5.
proof fn lemma_column_5_stage_8(c: Seq<int>)
    requires
        lanes16(c, 8644659424608641280, 545460846592, 16215210393922467841, 18417752172589940737, 9797580924920536833, 18446743163176484865, 2236037154859354112, 28991948364251136, 3459288155442643904, 826832744087552, 14988508283990441761, 16140390887342473220, 3459296401750490176, 18444545046159032321, 14988506359970922721, 2305332835281534973),
    ensures
        lanes16(step(8, c), 12103947580051285184, 13229869363167232, 2379906257383880660, 2060678330275253760, 12103477672291081763, 18446742626305572865, 4542937756286289441, 14872856315882446081, 5185371269165997376, 18433515290973110273, 11603770461046470701, 16328081945490043393, 7491684177549991903, 18446743700047396865, 18375880622847003104, 3631871650260640512),
{
    reveal(lanes16);
    lemma_reduce(step_raw(8, c, 0), 0, 12103947580051285184);
    lemma_reduce(step_raw(8, c, 1), 3080192, 13229869363167232);
    lemma_reduce(step_raw(8, c, 2), 893384711981, 2379906257383880660);
    lemma_reduce(step_raw(8, c, 3), 16140390887342469637, 2060678330275253760);
    lemma_reduce(step_raw(8, c, 4), 3459243617076378910, 12103477672291081763);
    lemma_reduce(step_raw(8, c, 5), 18440041983403622401, 18446742626305572865);
    lemma_reduce(step_raw(8, c, 6), 13631967, 4542937756286289441);
    lemma_reduce(step_raw(8, c, 7), 144083302238642943, 14872856315882446081);
    lemma_reduce(step_raw(8, c, 8), 0, 5185371269165997376);
    lemma_reduce(step_raw(8, c, 9), -3080193, 18433515290973110273);
    lemma_reduce(step_raw(8, c, 10), -893384711980, 11603770461046470701);
    lemma_reduce(step_raw(8, c, 11), -16140390887342469636, 16328081945490043393);
    lemma_reduce(step_raw(8, c, 12), -3459243617076378910, 7491684177549991903);
    lemma_reduce(step_raw(8, c, 13), -18440041983403622401, 18446743700047396865);
    lemma_reduce(step_raw(8, c, 14), -13631968, 18375880622847003104);
    lemma_reduce(step_raw(8, c, 15), -144083302238642944, 3631871650260640512);
}

/// The lanes of unit vector 5.
proof fn lemma_column_5_first()
    ensures
        lanes16(basis(5, 16), 0, 0, 0, 0, 0, 1, 0, 0, 0, 0, 0, 0, 0, 0, 0, 0),
{
    reveal(lanes16);
}

/// The lanes that the last stage leaves for unit vector 5 are column 5 of the matrix.
proof fn lemma_column_5_last(c: Seq<int>)
    requires
        lanes16(c, 12103947580051285184, 13229869363167232, 2379906257383880660, 2060678330275253760, 12103477672291081763, 18446742626305572865, 4542937756286289441, 14872856315882446081, 5185371269165997376, 18433515290973110273, 11603770461046470701, 16328081945490043393, 7491684177549991903, 18446743700047396865, 18375880622847003104, 3631871650260640512),
    ensures
        is_mds_column(c, 5),
{
    reveal(lanes16);
}

/// Column 5 of the matrix that the transform applies.
proof fn lemma_column_5()
    ensures
        is_mds_column(run(9, basis(5, 16)), 5),
{
    let c0 = basis(5, 16);
    lemma_column_5_first();
    lemma_column_5_stage_0(c0);
    let c1 = step(0, c0);
    lemma_column_5_stage_1(c1);
    let c2 = step(1, c1);
    lemma_column_5_stage_2(c2);
    let c3 = step(2, c2);
    lemma_column_5_stage_3(c3);
    let c4 = step(3, c3);
    lemma_column_5_stage_4(c4);
    let c5 = step(4, c4);
    lemma_column_5_stage_5(c5);
    let c6 = step(5, c5);
    lemma_column_5_stage_6(c6);
    let c7 = step(6, c6);
    lemma_column_5_stage_7(c7);
    let c8 = step(7, c7);
    lemma_column_5_stage_8(c8);
    let c9 = step(8, c8);
    lemma_column_5_last(c9);
    assert(run(9, c0) == c9) by {
        reveal_with_fuel(run, 10);
    }
}

/// Stage 0 on column 6.
proof fn lemma_column_6_stage_0(c: Seq<int>)
    requires
        lanes16(c, 0, 0, 0, 0, 0, 0, 1, 0, 0, 0, 0, 0, 0, 0, 0, 0),
    ensures
        lanes16(step(0, c), 0, 0, 0, 0, 0, 0, 1, 0, 0, 0, 0, 0, 0, 0, 1, 0),
{
    reveal(lanes16);
    lemma_reduce(step_raw(0, c, 0), 0, 0);
    lemma_reduce(step_raw(0, c, 1), 0, 0);
    lemma_reduce(step_raw(0, c, 2), 0, 0);
    lemma_reduce(step_raw(0, c, 3), 0, 0);
    lemma_reduce(step_raw(0, c, 4), 0, 0);
    lemma_reduce(step_raw(0, c, 5), 0, 0);
    lemma_reduce(step_raw(0, c, 6), 0, 1);
    lemma_reduce(step_raw(0, c, 7), 0, 0);
    lemma_reduce(step_raw(0, c, 8), 0, 0);
    lemma_reduce(step_raw(0, c, 9), 0, 0);
    lemma_reduce(step_raw(0, c, 10), 0, 0);
    lemma_reduce(step_raw(0, c, 11), 0, 0);
    lemma_reduce(step_raw(0, c, 12), 0, 0);
    lemma_reduce(step_raw(0, c, 13), 0, 0);
    lemma_reduce(step_raw(0, c, 14), 0, 1);
    lemma_reduce(step_raw(0, c, 15), 0, 0);
}

/// Stage 1 on column 6.
proof fn lemma_column_6_stage_1(c: Seq<int>)
    requires
        lanes16(c, 0, 0, 0, 0, 0, 0, 1, 0, 0, 0, 0, 0, 0, 0, 1, 0),
    ensures
        lanes16(step(1, c), 0, 0, 1, 0, 0, 0, 18446744069414584320, 0, 0, 0, 281474976710656, 0, 0, 0, 18446462594437873665, 0),
{
    reveal(lanes16);
    lemma_reduce(step_raw(1, c, 0), 0, 0);
    lemma_reduce(step_raw(1, c, 1), 0, 0);
    lemma_reduce(step_raw(1, c, 2), 0, 1);
    lemma_reduce(step_raw(1, c, 3), 0, 0);
    lemma_reduce(step_raw(1, c, 4), 0, 0);
    lemma_reduce(step_raw(1, c, 5), 0, 0);
    lemma_reduce(step_raw(1, c, 6), -1, 18446744069414584320);
    lemma_reduce(step_raw(1, c, 7), 0, 0);
    lemma_reduce(step_raw(1, c, 8), 0, 0);
    lemma_reduce(step_raw(1, c, 9), 0, 0);
    lemma_reduce(step_raw(1, c, 10), 0, 281474976710656);
    lemma_reduce(step_raw(1, c, 11), 0, 0);
    lemma_reduce(step_raw(1, c, 12), 0, 0);
    lemma_reduce(step_raw(1, c, 13), 0, 0);
    lemma_reduce(step_raw(1, c, 14), -1, 18446462594437873665);
    lemma_reduce(step_raw(1, c, 15), 0, 0);
}

/// Stage 2 on column 6.
proof fn lemma_column_6_stage_2(c: Seq<int>)
    requires
        lanes16(c, 0, 0, 1, 0, 0, 0, 18446744069414584320, 0, 0, 0, 281474976710656, 0, 0, 0, 18446462594437873665, 0),
    ensures
        lanes16(step(2, c), 1, 0, 18446744069414584320, 0, 18446462594437873665, 0, 281474976710656, 0, 18446742969902956801, 0, 1099511627520, 0, 18446744069397807105, 0, 16777216, 0),
{
    reveal(lanes16);
    lemma_reduce(step_raw(2, c, 0), 0, 1);
    lemma_reduce(step_raw(2, c, 1), 0, 0);
    lemma_reduce(step_raw(2, c, 2), -1, 18446744069414584320);
    lemma_reduce(step_raw(2, c, 3), 0, 0);
    lemma_reduce(step_raw(2, c, 4), 281474976710655, 18446462594437873665);
    lemma_reduce(step_raw(2, c, 5), 0, 0);
    lemma_reduce(step_raw(2, c, 6), -281474976710656, 281474976710656);
    lemma_reduce(step_raw(2, c, 7), 0, 0);
    lemma_reduce(step_raw(2, c, 8), 281474976710399, 18446742969902956801);
    lemma_reduce(step_raw(2, c, 9), 0, 0);
    lemma_reduce(step_raw(2, c, 10), -281474976710400, 1099511627520);
    lemma_reduce(step_raw(2, c, 11), 0, 0);
    lemma_reduce(step_raw(2, c, 12), 18446461494943023360, 18446744069397807105);
    lemma_reduce(step_raw(2, c, 13), 0, 0);
    lemma_reduce(step_raw(2, c, 14), -18446461494943023361, 16777216);
    lemma_reduce(step_raw(2, c, 15), 0, 0);
}

/// Stage 3 on column 6.
proof fn lemma_column_6_stage_3(c: Seq<int>)
    requires
        lanes16(c, 1, 0, 18446744069414584320, 0, 18446462594437873665, 0, 281474976710656, 0, 18446742969902956801, 0, 1099511627520, 0, 18446744069397807105, 0, 16777216, 0),
    ensures
        lanes16(step(3, c), 1, 1, 18446744069414584320, 18446744069414584320, 18446462594437873665, 18446462594437873665, 281474976710656, 281474976710656, 18446742969902956801, 18446742969902956801, 1099511627520, 1099511627520, 18446744069397807105, 18446744069397807105, 16777216, 16777216),
{
    reveal(lanes16);
    lemma_reduce(step_raw(3, c, 0), 0, 1);
    lemma_reduce(step_raw(3, c, 1), 0, 1);
    lemma_reduce(step_raw(3, c, 2), 0, 18446744069414584320);
    lemma_reduce(step_raw(3, c, 3), 0, 18446744069414584320);
    lemma_reduce(step_raw(3, c, 4), 0, 18446462594437873665);
    lemma_reduce(step_raw(3, c, 5), 0, 18446462594437873665);
    lemma_reduce(step_raw(3, c, 6), 0, 281474976710656);
    lemma_reduce(step_raw(3, c, 7), 0, 281474976710656);
    lemma_reduce(step_raw(3, c, 8), 0, 18446742969902956801);
    lemma_reduce(step_raw(3, c, 9), 0, 18446742969902956801);
    lemma_reduce(step_raw(3, c, 10), 0, 1099511627520);
    lemma_reduce(step_raw(3, c, 11), 0, 1099511627520);
    lemma_reduce(step_raw(3, c, 12), 0, 18446744069397807105);
    lemma_reduce(step_raw(3, c, 13), 0, 18446744069397807105);
    lemma_reduce(step_raw(3, c, 14), 0, 16777216);
    lemma_reduce(step_raw(3, c, 15), 0, 16777216);
}

/// Stage 4 on column 6.
proof fn lemma_column_6_stage_4(c: Seq<int>)
    requires
        lanes16(c, 1, 1, 18446744069414584320, 18446744069414584320, 18446462594437873665, 18446462594437873665, 281474976710656, 281474976710656, 18446742969902956801, 18446742969902956801, 1099511627520, 1099511627520, 18446744069397807105, 18446744069397807105, 16777216, 16777216),
    ensures
        lanes16(step(4, c), 18446744000695107585, 18446744060824649729, 68719476736, 34359738368, 2251799813160960, 36028797010575360, 18446462594437939201, 18437736870161940481, 18446744069414583809, 18446744069414576129, 256, 1024, 4611686018427387904, 288230376151711744, 17293822564807737345, 18302628881338728449),
{
    reveal(lanes16);
    lemma_reduce(step_raw(4, c, 0), 15, 18446744000695107585);
    lemma_reduce(step_raw(4, c, 1), 1, 18446744060824649729);
    lemma_reduce(step_raw(4, c, 2), 295147905041913872384, 68719476736);
    lemma_reduce(step_raw(4, c, 3), 147573952520956936192, 34359738368);
    lemma_reduce(step_raw(4, c, 4), 147571700721143775240, 2251799813160960);
    lemma_reduce(step_raw(4, c, 5), 2361147211538300403840, 36028797010575360);
    lemma_reduce(step_raw(4, c, 6), 281474976645119, 18446462594437939201);
    lemma_reduce(step_raw(4, c, 7), 9007199252643839, 18437736870161940481);
    lemma_reduce(step_raw(4, c, 8), 36893485931215979521, 18446744069414583809);
    lemma_reduce(step_raw(4, c, 9), 590295774899455672351, 18446744069414576129);
    lemma_reduce(step_raw(4, c, 10), 1099511627264, 256);
    lemma_reduce(step_raw(4, c, 11), 4398046509056, 1024);
    lemma_reduce(step_raw(4, c, 12), 1180591620166581747776, 4611686018427387904);
    lemma_reduce(step_raw(4, c, 13), 73786976260411359236, 288230376151711744);
    lemma_reduce(step_raw(4, c, 14), 268435455, 17293822564807737345);
    lemma_reduce(step_raw(4, c, 15), 33554431, 18302628881338728449);
}

/// Stage 5 on column 6.
proof fn lemma_column_6_stage_5(c: Seq<int>)
    requires
        lanes16(c, 18446744000695107585, 18446744060824649729, 68719476736, 34359738368, 2251799813160960, 36028797010575360, 18446462594437939201, 18437736870161940481, 18446744069414583809, 18446744069414576129, 256, 1024, 4611686018427387904, 288230376151711744, 17293822564807737345, 18302628881338728449),
    ensures
        lanes16(step(5, c), 18446743992105172993, 18446744009285042177, 103079215104, 34359738368, 38280596823736320, 18412967072217169921, 18437455395185295361, 8725724275998720, 18446744069414575617, 7680, 1280, 18446744069414583553, 4899916394579099648, 4323455642275676160, 17149707376731881473, 17437937752883593217),
{
    reveal(lanes16);
    lemma_reduce(step_raw(5, c, 0), 1, 18446743992105172993);
    lemma_reduce(step_raw(5, c, 1), -1, 18446744009285042177);
    lemma_reduce(step_raw(5, c, 2), 0, 103079215104);
    lemma_reduce(step_raw(5, c, 3), 0, 34359738368);
    lemma_reduce(step_raw(5, c, 4), 0, 38280596823736320);
    lemma_reduce(step_raw(5, c, 5), -1, 18412967072217169921);
    lemma_reduce(step_raw(5, c, 6), 1, 18437455395185295361);
    lemma_reduce(step_raw(5, c, 7), 0, 8725724275998720);
    lemma_reduce(step_raw(5, c, 8), 1, 18446744069414575617);
    lemma_reduce(step_raw(5, c, 9), 0, 7680);
    lemma_reduce(step_raw(5, c, 10), 0, 1280);
    lemma_reduce(step_raw(5, c, 11), -1, 18446744069414583553);
    lemma_reduce(step_raw(5, c, 12), 0, 4899916394579099648);
    lemma_reduce(step_raw(5, c, 13), 0, 4323455642275676160);
    lemma_reduce(step_raw(5, c, 14), 1, 17149707376731881473);
    lemma_reduce(step_raw(5, c, 15), -1, 17437937752883593217);
}

/// Stage 6 on column 6.
proof fn lemma_column_6_stage_6(c: Seq<int>)
    requires
        lanes16(c, 18446743992105172993, 18446744009285042177, 103079215104, 34359738368, 38280596823736320, 18412967072217169921, 18437455395185295361, 8725724275998720, 18446744069414575617, 7680, 1280, 18446744069414583553, 4899916394579099648, 4323455642275676160, 17149707376731881473, 17437937752883593217),
    ensures
        lanes16(step(6, c), 25769803776, 18444492209471881217, 18446743889025957889, 2251739683618816, 28991922594447360, 18412967205361156097, 47569271053025280, 18412966939073183745, 18446744069414576897, 216172782113791488, 18446744069414574337, 18230571287300808193, 3602879701896396800, 4323455642275672576, 6196953087261802496, 4323455642275679744),
{
    reveal(lanes16);
    lemma_reduce(step_raw(6, c, 0), 1, 25769803776);
    lemma_reduce(step_raw(6, c, 1), 34359214080, 18444492209471881217);
    lemma_reduce(step_raw(6, c, 2), 0, 18446743889025957889);
    lemma_reduce(step_raw(6, c, 3), -34359214079, 2251739683618816);
    lemma_reduce(step_raw(6, c, 4), 1, 28991922594447360);
    lemma_reduce(step_raw(6, c, 5), 8725591132012544, 18412967205361156097);
    lemma_reduce(step_raw(6, c, 6), -1, 47569271053025280);
    lemma_reduce(step_raw(6, c, 7), -8725591132012544, 18412966939073183745);
    lemma_reduce(step_raw(6, c, 8), 0, 18446744069414576897);
    lemma_reduce(step_raw(6, c, 9), 18446462594437872897, 216172782113791488);
    lemma_reduce(step_raw(6, c, 10), 0, 18446744069414574337);
    lemma_reduce(step_raw(6, c, 11), -18446462594437872898, 18230571287300808193);
    lemma_reduce(step_raw(6, c, 12), 1, 3602879701896396800);
    lemma_reduce(step_raw(6, c, 13), 17437671671069675009, 4323455642275672576);
    lemma_reduce(step_raw(6, c, 14), -1, 6196953087261802496);
    lemma_reduce(step_raw(6, c, 15), -17437671671069675009, 4323455642275679744);
}

/// Stage 7 on column 6.
proof fn lemma_column_6_stage_7(c: Seq<int>)
    requires
        lanes16(c, 25769803776, 18444492209471881217, 18446743889025957889, 2251739683618816, 28991922594447360, 18412967205361156097, 47569271053025280, 18412966939073183745, 18446744069414576897, 216172782113791488, 18446744069414574337, 18230571287300808193, 3602879701896396800, 4323455642275672576, 6196953087261802496, 4323455642275679744),
    ensures
        lanes16(step(7, c), 28991948364251136, 8644659424608641280, 545460846592, 16215210393922467841, 18417752172589940737, 9797580924920536833, 18446743163176484865, 2236037154859354112, 3602879701896389376, 212231874742722048, 12032, 18247459846029057537, 14843864367518180097, 220113689484860928, 18446744069414552321, 18213682728572558849),
{
    reveal(lanes16);
    lemma_reduce(step_raw(7, c, 0), 0, 28991948364251136);
    lemma_reduce(step_raw(7, c, 1), 1097498369537, 8644659424608641280);
    lemma_reduce(step_raw(7, c, 2), 47568545203552257, 545460846592);
    lemma_reduce(step_raw(7, c, 3), 16746495, 16215210393922467841);
    lemma_reduce(step_raw(7, c, 4), -1, 18417752172589940737);
    lemma_reduce(step_raw(7, c, 5), -1097498369536, 9797580924920536833);
    lemma_reduce(step_raw(7, c, 6), -47568545203552256, 18446743163176484865);
    lemma_reduce(step_raw(7, c, 7), -16746496, 2236037154859354112);
    lemma_reduce(step_raw(7, c, 8), 1, 3602879701896389376);
    lemma_reduce(step_raw(7, c, 9), 257698037760, 212231874742722048);
    lemma_reduce(step_raw(7, c, 10), 6196858529261791745, 12032);
    lemma_reduce(step_raw(7, c, 11), 3932160, 18247459846029057537);
    lemma_reduce(step_raw(7, c, 12), 0, 14843864367518180097);
    lemma_reduce(step_raw(7, c, 13), -257698037760, 220113689484860928);
    lemma_reduce(step_raw(7, c, 14), -6196858529261791744, 18446744069414552321);
    lemma_reduce(step_raw(7, c, 15), -3932160, 18213682728572558849);
}

/// Stage 8 on column 6.
proof fn lemma_column_6_stage_8(c: Seq<int>)
    requires
        lanes16(c, 28991948364251136, 8644659424608641280, 545460846592, 16215210393922467841, 18417752172589940737, 9797580924920536833, 18446743163176484865, 2236037154859354112, 3602879701896389376, 212231874742722048, 12032, 18247459846029057537, 14843864367518180097, 220113689484860928, 18446744069414552321, 18213682728572558849),
    ensures
        lanes16(step(8, c), 3631871650260640512, 12103947580051285184, 13229869363167232, 2379906257383880660, 2060678330275253760, 12103477672291081763, 18446742626305572865, 4542937756286289441, 14872856315882446081, 5185371269165997376, 18433515290973110273, 11603770461046470701, 16328081945490043393, 7491684177549991903, 18446743700047396865, 18375880622847003104),
{
    reveal(lanes16);
    lemma_reduce(step_raw(8, c, 0), 0, 3631871650260640512);
    lemma_reduce(step_raw(8, c, 1), 790625344, 12103947580051285184);
    lemma_reduce(step_raw(8, c, 2), 0, 13229869363167232);
    lemma_reduce(step_raw(8, c, 3), 18247459846029053486, 2379906257383880660);
    lemma_reduce(step_raw(8, c, 4), 14843637868122871042, 2060678330275253760);
    lemma_reduce(step_raw(8, c, 5), 220059950791139038, 12103477672291081763);
    lemma_reduce(step_raw(8, c, 6), 16777216, 18446742626305572865);
    lemma_reduce(step_raw(8, c, 7), 1138355170800828895, 4542937756286289441);
    lemma_reduce(step_raw(8, c, 8), -1, 14872856315882446081);
    lemma_reduce(step_raw(8, c, 9), -790625344, 5185371269165997376);
    lemma_reduce(step_raw(8, c, 10), -1, 18433515290973110273);
    lemma_reduce(step_raw(8, c, 11), -18247459846029053485, 11603770461046470701);
    lemma_reduce(step_raw(8, c, 12), -14843637868122871041, 16328081945490043393);
    lemma_reduce(step_raw(8, c, 13), -220059950791139038, 7491684177549991903);
    lemma_reduce(step_raw(8, c, 14), -16777216, 18446743700047396865);
    lemma_reduce(step_raw(8, c, 15), -1138355170800828896, 18375880622847003104);
}

/// The lanes of unit vector 6.
proof fn lemma_column_6_first()
    ensures
        lanes16(basis(6, 16), 0, 0, 0, 0, 0, 0, 1, 0, 0, 0, 0, 0, 0, 0, 0, 0),
{
    reveal(lanes16);
}

/// The lanes that the last stage leaves for unit vector 6 are column 6 of the matrix.
proof fn lemma_column_6_last(c: Seq<int>)
    requires
        lanes16(c, 3631871650260640512, 12103947580051285184, 13229869363167232, 2379906257383880660, 2060678330275253760, 12103477672291081763, 18446742626305572865, 4542937756286289441, 14872856315882446081, 5185371269165997376, 18433515290973110273, 11603770461046470701, 16328081945490043393, 7491684177549991903, 18446743700047396865, 18375880622847003104),
    ensures
        is_mds_column(c, 6),
{
    reveal(lanes16);
}

/// Column 6 of the matrix that the transform applies.
proof fn lemma_column_6()
    ensures
        is_mds_column(run(9, basis(6, 16)), 6),
{
    let c0 = basis(6, 16);
    lemma_column_6_first();
    lemma_column_6_stage_0(c0);
    let c1 = step(0, c0);
    lemma_column_6_stage_1(c1);
    let c2 = step(1, c1);
    lemma_column_6_stage_2(c2);
    let c3 = step(2, c2);
    lemma_column_6_stage_3(c3);
    let c4 = step(3, c3);
    lemma_column_6_stage_4(c4);
    let c5 = step(4, c4);
    lemma_column_6_stage_5(c5);
    let c6 = step(5, c5);
    lemma_column_6_stage_6(c6);
    let c7 = step(6, c6);
    lemma_column_6_stage_7(c7);
    let c8 = step(7, c7);
    lemma_column_6_stage_8(c8);
    let c9 = step(8, c8);
    lemma_column_6_last(c9);
    assert(run(9, c0) == c9) by {
        reveal_with_fuel(run, 10);
    }
}

/// Stage 0 on column 7.
proof fn lemma_column_7_stage_0(c: Seq<int>)
    requires
        lanes16(c, 0, 0, 0, 0, 0, 0, 0, 1, 0, 0, 0, 0, 0, 0, 0, 0),
    ensures
        lanes16(step(0, c), 0, 0, 0, 0, 0, 0, 0, 1, 0, 0, 0, 0, 0, 0, 0, 1),
{
    reveal(lanes16);
    lemma_reduce(step_raw(0, c, 0), 0, 0);
    lemma_reduce(step_raw(0, c, 1), 0, 0);
    lemma_reduce(step_raw(0, c, 2), 0, 0);
    lemma_reduce(step_raw(0, c, 3), 0, 0);
    lemma_reduce(step_raw(0, c, 4), 0, 0);
    lemma_reduce(step_raw(0, c, 5), 0, 0);
    lemma_reduce(step_raw(0, c, 6), 0, 0);
    lemma_reduce(step_raw(0, c, 7), 0, 1);
    lemma_reduce(step_raw(0, c, 8), 0, 0);
    lemma_reduce(step_raw(0, c, 9), 0, 0);
    lemma_reduce(step_raw(0, c, 10), 0, 0);
    lemma_reduce(step_raw(0, c, 11), 0, 0);
    lemma_reduce(step_raw(0, c, 12), 0, 0);
    lemma_reduce(step_raw(0, c, 13), 0, 0);
    lemma_reduce(step_raw(0, c, 14), 0, 0);
    lemma_reduce(step_raw(0, c, 15), 0, 1);
}

/// Stage 1 on column 7.
proof fn lemma_column_7_stage_1(c: Seq<int>)
    requires
        lanes16(c, 0, 0, 0, 0, 0, 0, 0, 1, 0, 0, 0, 0, 0, 0, 0, 1),
    ensures
        lanes16(step(1, c), 0, 0, 0, 1, 0, 0, 0, 18446744069414584320, 0, 0, 0, 281474976710656, 0, 0, 0, 18446462594437873665),
{
    reveal(lanes16);
    lemma_reduce(step_raw(1, c, 0), 0, 0);
    lemma_reduce(step_raw(1, c, 1), 0, 0);
    lemma_reduce(step_raw(1, c, 2), 0, 0);
    lemma_reduce(step_raw(1, c, 3), 0, 1);
    lemma_reduce(step_raw(1, c, 4), 0, 0);
    lemma_reduce(step_raw(1, c, 5), 0, 0);
    lemma_reduce(step_raw(1, c, 6), 0, 0);
    lemma_reduce(step_raw(1, c, 7), -1, 18446744069414584320);
    lemma_reduce(step_raw(1, c, 8), 0, 0);
    lemma_reduce(step_raw(1, c, 9), 0, 0);
    lemma_reduce(step_raw(1, c, 10), 0, 0);
    lemma_reduce(step_raw(1, c, 11), 0, 281474976710656);
    lemma_reduce(step_raw(1, c, 12), 0, 0);
    lemma_reduce(step_raw(1, c, 13), 0, 0);
    lemma_reduce(step_raw(1, c, 14), 0, 0);
    lemma_reduce(step_raw(1, c, 15), -1, 18446462594437873665);
}

/// Stage 2 on column 7.
proof fn lemma_column_7_stage_2(c: Seq<int>)
    requires
        lanes16(c, 0, 0, 0, 1, 0, 0, 0, 18446744069414584320, 0, 0, 0, 281474976710656, 0, 0, 0, 18446462594437873665),
    ensures
        lanes16(step(2, c), 0, 1, 0, 18446744069414584320, 0, 18446462594437873665, 0, 281474976710656, 0, 18446742969902956801, 0, 1099511627520, 0, 18446744069397807105, 0, 16777216),
{
    reveal(lanes16);
    lemma_reduce(step_raw(2, c, 0), 0, 0);
    lemma_reduce(step_raw(2, c, 1), 0, 1);
    lemma_reduce(step_raw(2, c, 2), 0, 0);
    lemma_reduce(step_raw(2, c, 3), -1, 18446744069414584320);
    lemma_reduce(step_raw(2, c, 4), 0, 0);
    lemma_reduce(step_raw(2, c, 5), 281474976710655, 18446462594437873665);
    lemma_reduce(step_raw(2, c, 6), 0, 0);
    lemma_reduce(step_raw(2, c, 7), -281474976710656, 281474976710656);
    lemma_reduce(step_raw(2, c, 8), 0, 0);
    lemma_reduce(step_raw(2, c, 9), 281474976710399, 18446742969902956801);
    lemma_reduce(step_raw(2, c, 10), 0, 0);
    lemma_reduce(step_raw(2, c, 11), -281474976710400, 1099511627520);
    lemma_reduce(step_raw(2, c, 12), 0, 0);
    lemma_reduce(step_raw(2, c, 13), 18446461494943023360, 18446744069397807105);
    lemma_reduce(step_raw(2, c, 14), 0, 0);
    lemma_reduce(step_raw(2, c, 15), -18446461494943023361, 16777216);
}

/// Stage 3 on column 7.
proof fn lemma_column_7_stage_3(c: Seq<int>)
    requires
        lanes16(c, 0, 1, 0, 18446744069414584320, 0, 18446462594437873665, 0, 281474976710656, 0, 18446742969902956801, 0, 1099511627520, 0, 18446744069397807105, 0, 16777216),
    ensures
        lanes16(step(3, c), 1, 18446744069414584320, 18446462594437873665, 281474976710656, 1099511627520, 18446742969902956801, 16777216, 18446744069397807105, 18446744000695107585, 68719476736, 4503599626321920, 18442240469788262401, 4096, 18446744069414580225, 17293822564807737345, 1152921504606846976),
{
    reveal(lanes16);
    lemma_reduce(step_raw(3, c, 0), 0, 1);
    lemma_reduce(step_raw(3, c, 1), -1, 18446744069414584320);
    lemma_reduce(step_raw(3, c, 2), 281474976710655, 18446462594437873665);
    lemma_reduce(step_raw(3, c, 3), -281474976710656, 281474976710656);
    lemma_reduce(step_raw(3, c, 4), 18446462594421096705, 1099511627520);
    lemma_reduce(step_raw(3, c, 5), -18446462594421096706, 18446742969902956801);
    lemma_reduce(step_raw(3, c, 6), 281474959933440, 16777216);
    lemma_reduce(step_raw(3, c, 7), -281474959933441, 18446744069397807105);
    lemma_reduce(step_raw(3, c, 8), 17293821534015586560, 18446744000695107585);
    lemma_reduce(step_raw(3, c, 9), -17293821534015586561, 68719476736);
    lemma_reduce(step_raw(3, c, 10), 0, 4503599626321920);
    lemma_reduce(step_raw(3, c, 11), -1, 18442240469788262401);
    lemma_reduce(step_raw(3, c, 12), 4503599626317824, 4096);
    lemma_reduce(step_raw(3, c, 13), -4503599626317825, 18446744069414580225);
    lemma_reduce(step_raw(3, c, 14), 16777215, 17293822564807737345);
    lemma_reduce(step_raw(3, c, 15), -16777216, 1152921504606846976);
}

/// Stage 4 on column 7.
proof fn lemma_column_7_stage_4(c: Seq<int>)
    requires
        lanes16(c, 1, 18446744069414584320, 18446462594437873665, 281474976710656, 1099511627520, 18446742969902956801, 16777216, 18446744069397807105, 18446744000695107585, 68719476736, 4503599626321920, 18442240469788262401, 4096, 18446744069414580225, 17293822564807737345, 1152921504606846976),
    ensures
        lanes16(step(4, c), 18446744000695107585, 8589934592, 4503599626321920, 18444492269601423361, 2048, 18446744069414551553, 18374686475376656385, 2305843009213693952, 137438953440, 18446741870391329281, 1048576, 18446744069410390017, 18445618169507741697, 70368744177664, 18446744069414584320, 16140901060737761281),
{
    reveal(lanes16);
    lemma_reduce(step_raw(4, c, 0), 15, 18446744000695107585);
    lemma_reduce(step_raw(4, c, 1), 36893488130239234048, 8589934592);
    lemma_reduce(step_raw(4, c, 2), 295143401442287550480, 4503599626321920);
    lemma_reduce(step_raw(4, c, 3), 2251799813160959, 18444492269601423361);
    lemma_reduce(step_raw(4, c, 4), 8796093018112, 2048);
    lemma_reduce(step_raw(4, c, 5), 2361183099597822689407, 18446744069414551553);
    lemma_reduce(step_raw(4, c, 6), 16777215, 18374686475376656385);
    lemma_reduce(step_raw(4, c, 7), 590295810083290873888, 2305843009213693952);
    lemma_reduce(step_raw(4, c, 8), 36893487992800280610, 137438953440);
    lemma_reduce(step_raw(4, c, 9), 2199023255039, 18446741870391329281);
    lemma_reduce(step_raw(4, c, 10), 4503599625273344, 1048576);
    lemma_reduce(step_raw(4, c, 11), 73768961861977374723, 18446744069410390017);
    lemma_reduce(step_raw(4, c, 12), 262143, 18445618169507741697);
    lemma_reduce(step_raw(4, c, 13), 73786976260478451716, 70368744177664);
    lemma_reduce(step_raw(4, c, 14), 276701160972499288080, 18446744069414584320);
    lemma_reduce(step_raw(4, c, 15), 2305843008676823039, 16140901060737761281);
}

/// Stage 5 on column 7.
proof fn lemma_column_7_stage_5(c: Seq<int>)
    requires
        lanes16(c, 18446744000695107585, 8589934592, 4503599626321920, 18444492269601423361, 2048, 18446744069414551553, 18374686475376656385, 2305843009213693952, 137438953440, 18446741870391329281, 1048576, 18446744069410390017, 18445618169507741697, 70368744177664, 18446744069414584320, 16140901060737761281),
    ensures
        lanes16(step(5, c), 18446744009285042177, 18446743992105172993, 2251799813160960, 6755399439482880, 18446744069414553601, 34816, 2233785415175766016, 16068843466162962433, 18446742007830282721, 2336462208480, 18446744069411438593, 5242880, 18445688538251919361, 18445547800763564033, 16140901060737761280, 2305843008676823039),
{
    reveal(lanes16);
    lemma_reduce(step_raw(5, c, 0), 0, 18446744009285042177);
    lemma_reduce(step_raw(5, c, 1), 0, 18446743992105172993);
    lemma_reduce(step_raw(5, c, 2), 1, 2251799813160960);
    lemma_reduce(step_raw(5, c, 3), -1, 6755399439482880);
    lemma_reduce(step_raw(5, c, 4), 0, 18446744069414553601);
    lemma_reduce(step_raw(5, c, 5), -1, 34816);
    lemma_reduce(step_raw(5, c, 6), 1, 2233785415175766016);
    lemma_reduce(step_raw(5, c, 7), 0, 16068843466162962433);
    lemma_reduce(step_raw(5, c, 8), 0, 18446742007830282721);
    lemma_reduce(step_raw(5, c, 9), -1, 2336462208480);
    lemma_reduce(step_raw(5, c, 10), 0, 18446744069411438593);
    lemma_reduce(step_raw(5, c, 11), -1, 5242880);
    lemma_reduce(step_raw(5, c, 12), 0, 18445688538251919361);
    lemma_reduce(step_raw(5, c, 13), 0, 18445547800763564033);
    lemma_reduce(step_raw(5, c, 14), 1, 16140901060737761280);
    lemma_reduce(step_raw(5, c, 15), 0, 2305843008676823039);
}

/// Stage 6 on column 7.
proof fn lemma_column_7_stage_6(c: Seq<int>)
    requires
        lanes16(c, 18446744009285042177, 18446743992105172993, 2251799813160960, 6755399439482880, 18446744069414553601, 34816, 2233785415175766016, 16068843466162962433, 18446742007830282721, 2336462208480, 18446744069411438593, 5242880, 18445688538251919361, 18445547800763564033, 16140901060737761280, 2305843008676823039),
    ensures
        lanes16(step(6, c), 2251739683618816, 25769803776, 18444492209471881217, 18446743889025957889, 2233785415175735296, 26368, 16212958654238787585, 43264, 18446742007827136993, 1992864824880, 18446742007833428449, 2680059592080, 16139845529575096320, 18445864460112363521, 2304787477514158081, 18445231141414764545),
{
    reveal(lanes16);
    lemma_reduce(step_raw(6, c, 0), 1, 2251739683618816);
    lemma_reduce(step_raw(6, c, 1), 6755296360267777, 25769803776);
    lemma_reduce(step_raw(6, c, 2), 0, 18444492209471881217);
    lemma_reduce(step_raw(6, c, 3), -6755296360267776, 18446743889025957889);
    lemma_reduce(step_raw(6, c, 4), 1, 2233785415175735296);
    lemma_reduce(step_raw(6, c, 5), 16068598275069976833, 26368);
    lemma_reduce(step_raw(6, c, 6), 0, 16212958654238787585);
    lemma_reduce(step_raw(6, c, 7), -16068598275069976833, 43264);
    lemma_reduce(step_raw(6, c, 8), 1, 18446742007827136993);
    lemma_reduce(step_raw(6, c, 9), 5242800, 1992864824880);
    lemma_reduce(step_raw(6, c, 10), -1, 18446742007833428449);
    lemma_reduce(step_raw(6, c, 11), -5242800, 2680059592080);
    lemma_reduce(step_raw(6, c, 12), 1, 16139845529575096320);
    lemma_reduce(step_raw(6, c, 13), 2305807824304734207, 18445864460112363521);
    lemma_reduce(step_raw(6, c, 14), 0, 2304787477514158081);
    lemma_reduce(step_raw(6, c, 15), -2305807824304734207, 18445231141414764545);
}

/// Stage 7 on column 7.
proof fn lemma_column_7_stage_7(c: Seq<int>)
    requires
        lanes16(c, 2251739683618816, 25769803776, 18444492209471881217, 18446743889025957889, 2233785415175735296, 26368, 16212958654238787585, 43264, 18446742007827136993, 1992864824880, 18446742007833428449, 2680059592080, 16139845529575096320, 18445864460112363521, 2304787477514158081, 18445231141414764545),
    ensures
        lanes16(step(7, c), 2236037154859354112, 28991948364251136, 8644659424608641280, 545460846592, 16215210393922467841, 18417752172589940737, 9797580924920536833, 18446743163176484865, 16139843467987648992, 1992917253680, 13834809699875160541, 18446740839599178481, 2306896478252040673, 1992812396080, 4611930246377112036, 8589934590000),
{
    reveal(lanes16);
    lemma_reduce(step_raw(7, c, 0), 0, 2236037154859354112);
    lemma_reduce(step_raw(7, c, 1), 0, 28991948364251136);
    lemma_reduce(step_raw(7, c, 2), 16212711264122545922, 8644659424608641280);
    lemma_reduce(step_raw(7, c, 3), 1, 545460846592);
    lemma_reduce(step_raw(7, c, 4), -1, 16215210393922467841);
    lemma_reduce(step_raw(7, c, 5), -1, 18417752172589940737);
    lemma_reduce(step_raw(7, c, 6), -16212711264122545921, 9797580924920536833);
    lemma_reduce(step_raw(7, c, 7), 0, 18446743163176484865);
    lemma_reduce(step_raw(7, c, 8), 1, 16139843467987648992);
    lemma_reduce(step_raw(7, c, 9), 1099459198720, 1992917253680);
    lemma_reduce(step_raw(7, c, 10), 2304752309248196613, 13834809699875160541);
    lemma_reduce(step_raw(7, c, 11), 16775839, 18446740839599178481);
    lemma_reduce(step_raw(7, c, 12), 0, 2306896478252040673);
    lemma_reduce(step_raw(7, c, 13), -1099459198720, 1992812396080);
    lemma_reduce(step_raw(7, c, 14), -2304752309248196612, 4611930246377112036);
    lemma_reduce(step_raw(7, c, 15), -16775840, 8589934590000);
}

/// Stage 8 on column 7.
proof fn lemma_column_7_stage_8(c: Seq<int>)
    requires
        lanes16(c, 2236037154859354112, 28991948364251136, 8644659424608641280, 545460846592, 16215210393922467841, 18417752172589940737, 9797580924920536833, 18446743163176484865, 16139843467987648992, 1992917253680, 13834809699875160541, 18446740839599178481, 2306896478252040673, 1992812396080, 4611930246377112036, 8589934590000),
    ensures
        lanes16(step(8, c), 18375880622847003104, 3631871650260640512, 12103947580051285184, 13229869363167232, 2379906257383880660, 2060678330275253760, 12103477672291081763, 18446742626305572865, 4542937756286289441, 14872856315882446081, 5185371269165997376, 18433515290973110273, 11603770461046470701, 16328081945490043393, 7491684177549991903, 18446743700047396865),
{
    reveal(lanes16);
    lemma_reduce(step_raw(8, c, 0), 0, 18375880622847003104);
    lemma_reduce(step_raw(8, c, 1), 7424, 3631871650260640512);
    lemma_reduce(step_raw(8, c, 2), 824618917696, 12103947580051285184);
    lemma_reduce(step_raw(8, c, 3), 18446740839599174385, 13229869363167232);
    lemma_reduce(step_raw(8, c, 4), 2306861277805281806, 2379906257383880660);
    lemma_reduce(step_raw(8, c, 5), 1992325869617, 2060678330275253760);
    lemma_reduce(step_raw(8, c, 6), 4194526, 12103477672291081763);
    lemma_reduce(step_raw(8, c, 7), 536870912000, 18446742626305572865);
    lemma_reduce(step_raw(8, c, 8), -1, 4542937756286289441);
    lemma_reduce(step_raw(8, c, 9), -7425, 14872856315882446081);
    lemma_reduce(step_raw(8, c, 10), -824618917696, 5185371269165997376);
    lemma_reduce(step_raw(8, c, 11), -18446740839599174386, 18433515290973110273);
    lemma_reduce(step_raw(8, c, 12), -2306861277805281805, 11603770461046470701);
    lemma_reduce(step_raw(8, c, 13), -1992325869616, 16328081945490043393);
    lemma_reduce(step_raw(8, c, 14), -4194526, 7491684177549991903);
    lemma_reduce(step_raw(8, c, 15), -536870912000, 18446743700047396865);
}

/// The lanes of unit vector 7.
proof fn lemma_column_7_first()
    ensures
        lanes16(basis(7, 16), 0, 0, 0, 0, 0, 0, 0, 1, 0, 0, 0, 0, 0, 0, 0, 0),
{
    reveal(lanes16);
}

/// The lanes that the last stage leaves for unit vector 7 are column 7 of the matrix.
proof fn lemma_column_7_last(c: Seq<int>)
    requires
        lanes16(c, 18375880622847003104, 3631871650260640512, 12103947580051285184, 13229869363167232, 2379906257383880660, 2060678330275253760, 12103477672291081763, 18446742626305572865, 4542937756286289441, 14872856315882446081, 5185371269165997376, 18433515290973110273, 11603770461046470701, 16328081945490043393, 7491684177549991903, 18446743700047396865),
    ensures
        is_mds_column(c, 7),
{
    reveal(lanes16);
}

/// Column 7 of the matrix that the transform applies.
proof fn lemma_column_7()
    ensures
        is_mds_column(run(9, basis(7, 16)), 7),
{
    let c0 = basis(7, 16);
    lemma_column_7_first();
    lemma_column_7_stage_0(c0);
    let c1 = step(0, c0);
    lemma_column_7_stage_1(c1);
    let c2 = step(1, c1);
    lemma_column_7_stage_2(c2);
    let c3 = step(2, c2);
    lemma_column_7_stage_3(c3);
    let c4 = step(3, c3);
    lemma_column_7_stage_4(c4);
    let c5 = step(4, c4);
    lemma_column_7_stage_5(c5);
    let c6 = step(5, c5);
    lemma_column_7_stage_6(c6);
    let c7 = step(6, c6);
    lemma_column_7_stage_7(c7);
    let c8 = step(7, c7);
    lemma_column_7_stage_8(c8);
    let c9 = step(8, c8);
    lemma_column_7_last(c9);
    assert(run(9, c0) == c9) by {
        reveal_with_fuel(run, 10);
    }
}

/// Stage 0 on column 8.
proof fn lemma_column_8_stage_0(c: Seq<int>)
    requires
        lanes16(c, 0, 0, 0, 0, 0, 0, 0, 0, 1, 0, 0, 0, 0, 0, 0, 0),
    ensures
        lanes16(step(0, c), 1, 0, 0, 0, 0, 0, 0, 0, 18446744069414584320, 0, 0, 0, 0, 0, 0, 0),
{
    reveal(lanes16);
    lemma_reduce(step_raw(0, c, 0), 0, 1);
    lemma_reduce(step_raw(0, c, 1), 0, 0);
    lemma_reduce(step_raw(0, c, 2), 0, 0);
    lemma_reduce(step_raw(0, c, 3), 0, 0);
    lemma_reduce(step_raw(0, c, 4), 0, 0);
    lemma_reduce(step_raw(0, c, 5), 0, 0);
    lemma_reduce(step_raw(0, c, 6), 0, 0);
    lemma_reduce(step_raw(0, c, 7), 0, 0);
    lemma_reduce(step_raw(0, c, 8), -1, 18446744069414584320);
    lemma_reduce(step_raw(0, c, 9), 0, 0);
    lemma_reduce(step_raw(0, c, 10), 0, 0);
    lemma_reduce(step_raw(0, c, 11), 0, 0);
    lemma_reduce(step_raw(0, c, 12), 0, 0);
    lemma_reduce(step_raw(0, c, 13), 0, 0);
    lemma_reduce(step_raw(0, c, 14), 0, 0);
    lemma_reduce(step_raw(0, c, 15), 0, 0);
}

/// Stage 1 on column 8.
proof fn lemma_column_8_stage_1(c: Seq<int>)
    requires
        lanes16(c, 1, 0, 0, 0, 0, 0, 0, 0, 18446744069414584320, 0, 0, 0, 0, 0, 0, 0),
    ensures
        lanes16(step(1, c), 1, 0, 0, 0, 1, 0, 0, 0, 18446744069414584320, 0, 0, 0, 18446744069414584320, 0, 0, 0),
{
    reveal(lanes16);
    lemma_reduce(step_raw(1, c, 0), 0, 1);
    lemma_reduce(step_raw(1, c, 1), 0, 0);
    lemma_reduce(step_raw(1, c, 2), 0, 0);
    lemma_reduce(step_raw(1, c, 3), 0, 0);
    lemma_reduce(step_raw(1, c, 4), 0, 1);
    lemma_reduce(step_raw(1, c, 5), 0, 0);
    lemma_reduce(step_raw(1, c, 6), 0, 0);
    lemma_reduce(step_raw(1, c, 7), 0, 0);
    lemma_reduce(step_raw(1, c, 8), 0, 18446744069414584320);
    lemma_reduce(step_raw(1, c, 9), 0, 0);
    lemma_reduce(step_raw(1, c, 10), 0, 0);
    lemma_reduce(step_raw(1, c, 11), 0, 0);
    lemma_reduce(step_raw(1, c, 12), 0, 18446744069414584320);
    lemma_reduce(step_raw(1, c, 13), 0, 0);
    lemma_reduce(step_raw(1, c, 14), 0, 0);
    lemma_reduce(step_raw(1, c, 15), 0, 0);
}

/// Stage 2 on column 8.
proof fn lemma_column_8_stage_2(c: Seq<int>)
    requires
        lanes16(c, 1, 0, 0, 0, 1, 0, 0, 0, 18446744069414584320, 0, 0, 0, 18446744069414584320, 0, 0, 0),
    ensures
        lanes16(step(2, c), 1, 0, 1, 0, 1, 0, 1, 0, 18446744069414584320, 0, 18446744069414584320, 0, 18446744069414584320, 0, 18446744069414584320, 0),
{
    reveal(lanes16);
    lemma_reduce(step_raw(2, c, 0), 0, 1);
    lemma_reduce(step_raw(2, c, 1), 0, 0);
    lemma_reduce(step_raw(2, c, 2), 0, 1);
    lemma_reduce(step_raw(2, c, 3), 0, 0);
    lemma_reduce(step_raw(2, c, 4), 0, 1);
    lemma_reduce(step_raw(2, c, 5), 0, 0);
    lemma_reduce(step_raw(2, c, 6), 0, 1);
    lemma_reduce(step_raw(2, c, 7), 0, 0);
    lemma_reduce(step_raw(2, c, 8), 0, 18446744069414584320);
    lemma_reduce(step_raw(2, c, 9), 0, 0);
    lemma_reduce(step_raw(2, c, 10), 0, 18446744069414584320);
    lemma_reduce(step_raw(2, c, 11), 0, 0);
    lemma_reduce(step_raw(2, c, 12), 0, 18446744069414584320);
    lemma_reduce(step_raw(2, c, 13), 0, 0);
    lemma_reduce(step_raw(2, c, 14), 0, 18446744069414584320);
    lemma_reduce(step_raw(2, c, 15), 0, 0);
}

/// Stage 3 on column 8.
proof fn lemma_column_8_stage_3(c: Seq<int>)
    requires
        lanes16(c, 1, 0, 1, 0, 1, 0, 1, 0, 18446744069414584320, 0, 18446744069414584320, 0, 18446744069414584320, 0, 18446744069414584320, 0),
    ensures
        lanes16(step(3, c), 1, 1, 1, 1, 1, 1, 1, 1, 18446744069414584320, 18446744069414584320, 18446744069414584320, 18446744069414584320, 18446744069414584320, 18446744069414584320, 18446744069414584320, 18446744069414584320),
{
    reveal(lanes16);
    lemma_reduce(step_raw(3, c, 0), 0, 1);
    lemma_reduce(step_raw(3, c, 1), 0, 1);
    lemma_reduce(step_raw(3, c, 2), 0, 1);
    lemma_reduce(step_raw(3, c, 3), 0, 1);
    lemma_reduce(step_raw(3, c, 4), 0, 1);
    lemma_reduce(step_raw(3, c, 5), 0, 1);
    lemma_reduce(step_raw(3, c, 6), 0, 1);
    lemma_reduce(step_raw(3, c, 7), 0, 1);
    lemma_reduce(step_raw(3, c, 8), 0, 18446744069414584320);
    lemma_reduce(step_raw(3, c, 9), 0, 18446744069414584320);
    lemma_reduce(step_raw(3, c, 10), 0, 18446744069414584320);
    lemma_reduce(step_raw(3, c, 11), 0, 18446744069414584320);
    lemma_reduce(step_raw(3, c, 12), 0, 18446744069414584320);
    lemma_reduce(step_raw(3, c, 13), 0, 18446744069414584320);
    lemma_reduce(step_raw(3, c, 14), 0, 18446744069414584320);
    lemma_reduce(step_raw(3, c, 15), 0, 18446744069414584320);
}

/// Stage 4 on column 8.
proof fn lemma_column_8_stage_4(c: Seq<int>)
    requires
        lanes16(c, 1, 1, 1, 1, 1, 1, 1, 1, 18446744069414584320, 18446744069414584320, 18446744069414584320, 18446744069414584320, 18446744069414584320, 18446744069414584320, 18446744069414584320, 18446744069414584320),
    ensures
        lanes16(step(4, c), 18446744000695107585, 18446744060824649729, 18446744000695107585, 18446744035054845953, 18446744035054845953, 18446743519658770433, 18446744065119617025, 18446743931975630849, 8589934592, 137438953472, 4294967296, 17179869184, 274877906944, 17179869184, 68719476736, 8589934592),
{
    reveal(lanes16);
    lemma_reduce(step_raw(4, c, 0), 15, 18446744000695107585);
    lemma_reduce(step_raw(4, c, 1), 1, 18446744060824649729);
    lemma_reduce(step_raw(4, c, 2), 15, 18446744000695107585);
    lemma_reduce(step_raw(4, c, 3), 7, 18446744035054845953);
    lemma_reduce(step_raw(4, c, 4), 7, 18446744035054845953);
    lemma_reduce(step_raw(4, c, 5), 127, 18446743519658770433);
    lemma_reduce(step_raw(4, c, 6), 0, 18446744065119617025);
    lemma_reduce(step_raw(4, c, 7), 31, 18446743931975630849);
    lemma_reduce(step_raw(4, c, 8), 36893488130239234048, 8589934592);
    lemma_reduce(step_raw(4, c, 9), 590295810083827744768, 137438953472);
    lemma_reduce(step_raw(4, c, 10), 18446744065119617024, 4294967296);
    lemma_reduce(step_raw(4, c, 11), 73786976260478468096, 17179869184);
    lemma_reduce(step_raw(4, c, 12), 1180591620167655489536, 274877906944);
    lemma_reduce(step_raw(4, c, 13), 73786976260478468096, 17179869184);
    lemma_reduce(step_raw(4, c, 14), 295147905041913872384, 68719476736);
    lemma_reduce(step_raw(4, c, 15), 36893488130239234048, 8589934592);
}

/// Stage 5 on column 8.
proof fn lemma_column_8_stage_5(c: Seq<int>)
    requires
        lanes16(c, 18446744000695107585, 18446744060824649729, 18446744000695107585, 18446744035054845953, 18446744035054845953, 18446743519658770433, 18446744065119617025, 18446743931975630849, 8589934592, 137438953472, 4294967296, 17179869184, 274877906944, 17179869184, 68719476736, 8589934592),
    ensures
        lanes16(step(5, c), 18446743992105172993, 18446744009285042177, 18446743966335369217, 18446744035054845953, 18446743485299032065, 515396075520, 18446743927680663553, 133143986176, 146028888064, 18446743940565565441, 21474836480, 18446744056529682433, 292057776128, 257698037760, 77309411328, 60129542144),
{
    reveal(lanes16);
    lemma_reduce(step_raw(5, c, 0), 1, 18446743992105172993);
    lemma_reduce(step_raw(5, c, 1), -1, 18446744009285042177);
    lemma_reduce(step_raw(5, c, 2), 1, 18446743966335369217);
    lemma_reduce(step_raw(5, c, 3), -1, 18446744035054845953);
    lemma_reduce(step_raw(5, c, 4), 1, 18446743485299032065);
    lemma_reduce(step_raw(5, c, 5), 0, 515396075520);
    lemma_reduce(step_raw(5, c, 6), 1, 18446743927680663553);
    lemma_reduce(step_raw(5, c, 7), 0, 133143986176);
    lemma_reduce(step_raw(5, c, 8), 0, 146028888064);
    lemma_reduce(step_raw(5, c, 9), -1, 18446743940565565441);
    lemma_reduce(step_raw(5, c, 10), 0, 21474836480);
    lemma_reduce(step_raw(5, c, 11), -1, 18446744056529682433);
    lemma_reduce(step_raw(5, c, 12), 0, 292057776128);
    lemma_reduce(step_raw(5, c, 13), 0, 257698037760);
    lemma_reduce(step_raw(5, c, 14), 0, 77309411328);
    lemma_reduce(step_raw(5, c, 15), 0, 60129542144);
}

/// Stage 6 on column 8.
proof fn lemma_column_8_stage_6(c: Seq<int>)
    requires
        lanes16(c, 18446743992105172993, 18446744009285042177, 18446743966335369217, 18446744035054845953, 18446743485299032065, 515396075520, 18446743927680663553, 133143986176, 146028888064, 18446743940565565441, 21474836480, 18446744056529682433, 292057776128, 257698037760, 77309411328, 60129542144),
    ensures
        lanes16(step(6, c), 18446743889025957889, 2251739683618816, 25769803776, 18444492209471881217, 18446743343565111297, 18438018860534661121, 18446743627032952833, 8726239672074240, 167503724544, 844296080916480, 124554051584, 18445899515635630081, 369367187456, 18442803677439590401, 214748364800, 3940907371069440),
{
    reveal(lanes16);
    lemma_reduce(step_raw(6, c, 0), 1, 18446743889025957889);
    lemma_reduce(step_raw(6, c, 1), 18446462560078659586, 2251739683618816);
    lemma_reduce(step_raw(6, c, 2), 0, 25769803776);
    lemma_reduce(step_raw(6, c, 3), -18446462560078659585, 18444492209471881217);
    lemma_reduce(step_raw(6, c, 4), 1, 18446743343565111297);
    lemma_reduce(step_raw(6, c, 5), 133141954559, 18438018860534661121);
    lemma_reduce(step_raw(6, c, 6), -1, 18446743627032952833);
    lemma_reduce(step_raw(6, c, 7), -133141954560, 8726239672074240);
    lemma_reduce(step_raw(6, c, 8), 0, 167503724544);
    lemma_reduce(step_raw(6, c, 9), 18446462581553168386, 844296080916480);
    lemma_reduce(step_raw(6, c, 10), 0, 124554051584);
    lemma_reduce(step_raw(6, c, 11), -18446462581553168385, 18445899515635630081);
    lemma_reduce(step_raw(6, c, 12), 0, 369367187456);
    lemma_reduce(step_raw(6, c, 13), 60128624639, 18442803677439590401);
    lemma_reduce(step_raw(6, c, 14), 0, 214748364800);
    lemma_reduce(step_raw(6, c, 15), -60128624640, 3940907371069440);
}

/// Stage 7 on column 8.
proof fn lemma_column_8_stage_7(c: Seq<int>)
    requires
        lanes16(c, 18446743889025957889, 2251739683618816, 25769803776, 18444492209471881217, 18446743343565111297, 18438018860534661121, 18446743627032952833, 8726239672074240, 167503724544, 844296080916480, 124554051584, 18445899515635630081, 369367187456, 18442803677439590401, 214748364800, 3940907371069440),
    ensures
        lanes16(step(7, c), 18446743163176484865, 2236037154859354112, 28991948364251136, 8644659424608641280, 545460846592, 16215210393922467841, 18417752172589940737, 9797580924920536833, 536870912000, 1009650612611892224, 18432670445136379905, 4322611088496718336, 18446743867551121409, 17438782048964525057, 14073873386307584, 14122443873359957505),
{
    reveal(lanes16);
    lemma_reduce(step_raw(7, c, 0), 1, 18446743163176484865);
    lemma_reduce(step_raw(7, c, 1), 1098991564544, 2236037154859354112);
    lemma_reduce(step_raw(7, c, 2), 18446462152062992385, 28991948364251136);
    lemma_reduce(step_raw(7, c, 3), 7937, 8644659424608641280);
    lemma_reduce(step_raw(7, c, 4), 0, 545460846592);
    lemma_reduce(step_raw(7, c, 5), -1098991564545, 16215210393922467841);
    lemma_reduce(step_raw(7, c, 6), -18446462152062992386, 18417752172589940737);
    lemma_reduce(step_raw(7, c, 7), -7936, 9797580924920536833);
    lemma_reduce(step_raw(7, c, 8), 0, 536870912000);
    lemma_reduce(step_raw(7, c, 9), 1099276761856, 1009650612611892224);
    lemma_reduce(step_raw(7, c, 10), 214745087999, 18432670445136379905);
    lemma_reduce(step_raw(7, c, 11), 3585, 4322611088496718336);
    lemma_reduce(step_raw(7, c, 12), -1, 18446743867551121409);
    lemma_reduce(step_raw(7, c, 13), -1099276761857, 17438782048964525057);
    lemma_reduce(step_raw(7, c, 14), -214745088000, 14073873386307584);
    lemma_reduce(step_raw(7, c, 15), -3584, 14122443873359957505);
}

/// Stage 8 on column 8.
proof fn lemma_column_8_stage_8(c: Seq<int>)
    requires
        lanes16(c, 18446743163176484865, 2236037154859354112, 28991948364251136, 8644659424608641280, 545460846592, 16215210393922467841, 18417752172589940737, 9797580924920536833, 536870912000, 1009650612611892224, 18432670445136379905, 4322611088496718336, 18446743867551121409, 17438782048964525057, 14073873386307584, 14122443873359957505),
    ensures
        lanes16(step(8, c), 18446743700047396865, 18375880622847003104, 3631871650260640512, 12103947580051285184, 13229869363167232, 2379906257383880660, 2060678330275253760, 12103477672291081763, 18446742626305572865, 4542937756286289441, 14872856315882446081, 5185371269165997376, 18433515290973110273, 11603770461046470701, 16328081945490043393, 7491684177549991903),
{
    reveal(lanes16);
    lemma_reduce(step_raw(8, c, 0), 0, 18446743700047396865);
    lemma_reduce(step_raw(8, c, 1), 3761241632, 18375880622847003104);
    lemma_reduce(step_raw(8, c, 2), 1098672774144, 3631871650260640512);
    lemma_reduce(step_raw(8, c, 3), 4322611088496717376, 12103947580051285184);
    lemma_reduce(step_raw(8, c, 4), 18446462392577490945, 13229869363167232);
    lemma_reduce(step_raw(8, c, 5), 17434524533815852078, 2379906257383880660);
    lemma_reduce(step_raw(8, c, 6), 12801, 2060678330275253760);
    lemma_reduce(step_raw(8, c, 7), 882652742290505950, 12103477672291081763);
    lemma_reduce(step_raw(8, c, 8), 0, 18446742626305572865);
    lemma_reduce(step_raw(8, c, 9), -3761241633, 4542937756286289441);
    lemma_reduce(step_raw(8, c, 10), -1098672774145, 14872856315882446081);
    lemma_reduce(step_raw(8, c, 11), -4322611088496717376, 5185371269165997376);
    lemma_reduce(step_raw(8, c, 12), -18446462392577490946, 18433515290973110273);
    lemma_reduce(step_raw(8, c, 13), -17434524533815852077, 11603770461046470701);
    lemma_reduce(step_raw(8, c, 14), -12800, 16328081945490043393);
    lemma_reduce(step_raw(8, c, 15), -882652742290505950, 7491684177549991903);
}

/// The lanes of unit vector 8.
proof fn lemma_column_8_first()
    ensures
        lanes16(basis(8, 16), 0, 0, 0, 0, 0, 0, 0, 0, 1, 0, 0, 0, 0, 0, 0, 0),
{
    reveal(lanes16);
}

/// The lanes that the last stage leaves for unit vector 8 are column 8 of the matrix.
proof fn lemma_column_8_last(c: Seq<int>)
    requires
        lanes16(c, 18446743700047396865, 18375880622847003104, 3631871650260640512, 12103947580051285184, 13229869363167232, 2379906257383880660, 2060678330275253760, 12103477672291081763, 18446742626305572865, 4542937756286289441, 14872856315882446081, 5185371269165997376, 18433515290973110273, 11603770461046470701, 16328081945490043393, 7491684177549991903),
    ensures
        is_mds_column(c, 8),
{
    reveal(lanes16);
}

/// Column 8 of the matrix that the transform applies.
proof fn lemma_column_8()
    ensures
        is_mds_column(run(9, basis(8, 16)), 8),
{
    let c0 = basis(8, 16);
    lemma_column_8_first();
    lemma_column_8_stage_0(c0);
    let c1 = step(0, c0);
    lemma_column_8_stage_1(c1);
    let c2 = step(1, c1);
    lemma_column_8_stage_2(c2);
    let c3 = step(2, c2);
    lemma_column_8_stage_3(c3);
    let c4 = step(3, c3);
    lemma_column_8_stage_4(c4);
    let c5 = step(4, c4);
    lemma_column_8_stage_5(c5);
    let c6 = step(5, c5);
    lemma_column_8_stage_6(c6);
    let c7 = step(6, c6);
    lemma_column_8_stage_7(c7);
    let c8 = step(7, c7);
    lemma_column_8_stage_8(c8);
    let c9 = step(8, c8);
    lemma_column_8_last(c9);
    assert(run(9, c0) == c9) by {
        reveal_with_fuel(run, 10);
    }
}

/// Stage 0 on column 9.
proof fn lemma_column_9_stage_0(c: Seq<int>)
    requires
        lanes16(c, 0, 0, 0, 0, 0, 0, 0, 0, 0, 1, 0, 0, 0, 0, 0, 0),
    ensures
        lanes16(step(0, c), 0, 1, 0, 0, 0, 0, 0, 0, 0, 18446744069414584320, 0, 0, 0, 0, 0, 0),
{
    reveal(lanes16);
    lemma_reduce(step_raw(0, c, 0), 0, 0);
    lemma_reduce(step_raw(0, c, 1), 0, 1);
    lemma_reduce(step_raw(0, c, 2), 0, 0);
    lemma_reduce(step_raw(0, c, 3), 0, 0);
    lemma_reduce(step_raw(0, c, 4), 0, 0);
    lemma_reduce(step_raw(0, c, 5), 0, 0);
    lemma_reduce(step_raw(0, c, 6), 0, 0);
    lemma_reduce(step_raw(0, c, 7), 0, 0);
    lemma_reduce(step_raw(0, c, 8), 0, 0);
    lemma_reduce(step_raw(0, c, 9), -1, 18446744069414584320);
    lemma_reduce(step_raw(0, c, 10), 0, 0);
    lemma_reduce(step_raw(0, c, 11), 0, 0);
    lemma_reduce(step_raw(0, c, 12), 0, 0);
    lemma_reduce(step_raw(0, c, 13), 0, 0);
    lemma_reduce(step_raw(0, c, 14), 0, 0);
    lemma_reduce(step_raw(0, c, 15), 0, 0);
}

/// Stage 1 on column 9.
proof fn lemma_column_9_stage_1(c: Seq<int>)
    requires
        lanes16(c, 0, 1, 0, 0, 0, 0, 0, 0, 0, 18446744069414584320, 0, 0, 0, 0, 0, 0),
    ensures
        lanes16(step(1, c), 0, 1, 0, 0, 0, 1, 0, 0, 0, 18446744069414584320, 0, 0, 0, 18446744069414584320, 0, 0),
{
    reveal(lanes16);
    lemma_reduce(step_raw(1, c, 0), 0, 0);
    lemma_reduce(step_raw(1, c, 1), 0, 1);
    lemma_reduce(step_raw(1, c, 2), 0, 0);
    lemma_reduce(step_raw(1, c, 3), 0, 0);
    lemma_reduce(step_raw(1, c, 4), 0, 0);
    lemma_reduce(step_raw(1, c, 5), 0, 1);
    lemma_reduce(step_raw(1, c, 6), 0, 0);
    lemma_reduce(step_raw(1, c, 7), 0, 0);
    lemma_reduce(step_raw(1, c, 8), 0, 0);
    lemma_reduce(step_raw(1, c, 9), 0, 18446744069414584320);
    lemma_reduce(step_raw(1, c, 10), 0, 0);
    lemma_reduce(step_raw(1, c, 11), 0, 0);
    lemma_reduce(step_raw(1, c, 12), 0, 0);
    lemma_reduce(step_raw(1, c, 13), 0, 18446744069414584320);
    lemma_reduce(step_raw(1, c, 14), 0, 0);
    lemma_reduce(step_raw(1, c, 15), 0, 0);
}

/// Stage 2 on column 9.
proof fn lemma_column_9_stage_2(c: Seq<int>)
    requires
        lanes16(c, 0, 1, 0, 0, 0, 1, 0, 0, 0, 18446744069414584320, 0, 0, 0, 18446744069414584320, 0, 0),
    ensures
        lanes16(step(2, c), 0, 1, 0, 1, 0, 1, 0, 1, 0, 18446744069414584320, 0, 18446744069414584320, 0, 18446744069414584320, 0, 18446744069414584320),
{
    reveal(lanes16);
    lemma_reduce(step_raw(2, c, 0), 0, 0);
    lemma_reduce(step_raw(2, c, 1), 0, 1);
    lemma_reduce(step_raw(2, c, 2), 0, 0);
    lemma_reduce(step_raw(2, c, 3), 0, 1);
    lemma_reduce(step_raw(2, c, 4), 0, 0);
    lemma_reduce(step_raw(2, c, 5), 0, 1);
    lemma_reduce(step_raw(2, c, 6), 0, 0);
    lemma_reduce(step_raw(2, c, 7), 0, 1);
    lemma_reduce(step_raw(2, c, 8), 0, 0);
    lemma_reduce(step_raw(2, c, 9), 0, 18446744069414584320);
    lemma_reduce(step_raw(2, c, 10), 0, 0);
    lemma_reduce(step_raw(2, c, 11), 0, 18446744069414584320);
    lemma_reduce(step_raw(2, c, 12), 0, 0);
    lemma_reduce(step_raw(2, c, 13), 0, 18446744069414584320);
    lemma_reduce(step_raw(2, c, 14), 0, 0);
    lemma_reduce(step_raw(2, c, 15), 0, 18446744069414584320);
}

/// Stage 3 on column 9.
proof fn lemma_column_9_stage_3(c: Seq<int>)
    requires
        lanes16(c, 0, 1, 0, 1, 0, 1, 0, 1, 0, 18446744069414584320, 0, 18446744069414584320, 0, 18446744069414584320, 0, 18446744069414584320),
    ensures
        lanes16(step(3, c), 1, 18446744069414584320, 281474976710656, 18446462594437873665, 18446744069397807105, 16777216, 18446742969902956801, 1099511627520, 1152921504606846976, 17293822564807737345, 18446744069414580225, 4096, 18442240469788262401, 4503599626321920, 68719476736, 18446744000695107585),
{
    reveal(lanes16);
    lemma_reduce(step_raw(3, c, 0), 0, 1);
    lemma_reduce(step_raw(3, c, 1), -1, 18446744069414584320);
    lemma_reduce(step_raw(3, c, 2), 0, 281474976710656);
    lemma_reduce(step_raw(3, c, 3), -1, 18446462594437873665);
    lemma_reduce(step_raw(3, c, 4), 0, 18446744069397807105);
    lemma_reduce(step_raw(3, c, 5), -1, 16777216);
    lemma_reduce(step_raw(3, c, 6), 0, 18446742969902956801);
    lemma_reduce(step_raw(3, c, 7), -1, 1099511627520);
    lemma_reduce(step_raw(3, c, 8), 17293822564807737344, 1152921504606846976);
    lemma_reduce(step_raw(3, c, 9), -17293822564807737345, 17293822564807737345);
    lemma_reduce(step_raw(3, c, 10), 4095, 18446744069414580225);
    lemma_reduce(step_raw(3, c, 11), -4096, 4096);
    lemma_reduce(step_raw(3, c, 12), 4503599626321919, 18442240469788262401);
    lemma_reduce(step_raw(3, c, 13), -4503599626321920, 4503599626321920);
    lemma_reduce(step_raw(3, c, 14), 18446744000695107584, 68719476736);
    lemma_reduce(step_raw(3, c, 15), -18446744000695107585, 18446744000695107585);
}

/// Stage 4 on column 9.
proof fn lemma_column_9_stage_4(c: Seq<int>)
    requires
        lanes16(c, 1, 18446744069414584320, 281474976710656, 18446462594437873665, 18446744069397807105, 16777216, 18446742969902956801, 1099511627520, 1152921504606846976, 17293822564807737345, 18446744069414580225, 4096, 18442240469788262401, 4503599626321920, 68719476736, 18446744000695107585),
    ensures
        lanes16(step(4, c), 18446744000695107585, 8589934592, 18442240469788262401, 2251799813160960, 576460752303423488, 9223372032559808513, 18446744069414584065, 8192, 16140901060737761281, 18446744069414584319, 17592186044416, 18446673700670406657, 18446744069347475457, 4194304, 18446742969902956801, 137438953440),
{
    reveal(lanes16);
    lemma_reduce(step_raw(4, c, 0), 15, 18446744000695107585);
    lemma_reduce(step_raw(4, c, 1), 36893488130239234048, 8589934592);
    lemma_reduce(step_raw(4, c, 2), 4503599626321919, 18442240469788262401);
    lemma_reduce(step_raw(4, c, 3), 147571700721143775240, 2251799813160960);
    lemma_reduce(step_raw(4, c, 4), 147573952520822718472, 576460752303423488);
    lemma_reduce(step_raw(4, c, 5), 2147483647, 9223372032559808513);
    lemma_reduce(step_raw(4, c, 6), 18446742965607989760, 18446744069414584065);
    lemma_reduce(step_raw(4, c, 7), 35184372072448, 8192);
    lemma_reduce(step_raw(4, c, 8), 2305843008676823039, 16140901060737761281);
    lemma_reduce(step_raw(4, c, 9), 553402321944998576161, 18446744069414584319);
    lemma_reduce(step_raw(4, c, 10), 18446744065119612929, 17592186044416);
    lemma_reduce(step_raw(4, c, 11), 16383, 18446673700670406657);
    lemma_reduce(step_raw(4, c, 12), 1180303389791637995583, 18446744069347475457);
    lemma_reduce(step_raw(4, c, 13), 18014398501093376, 4194304);
    lemma_reduce(step_raw(4, c, 14), 1099511627519, 18446742969902956801);
    lemma_reduce(step_raw(4, c, 15), 36893487992800280610, 137438953440);
}

/// Stage 5 on column 9.
proof fn lemma_column_9_stage_5(c: Seq<int>)
    requires
        lanes16(c, 18446744000695107585, 8589934592, 18442240469788262401, 2251799813160960, 576460752303423488, 9223372032559808513, 18446744069414584065, 8192, 16140901060737761281, 18446744069414584319, 17592186044416, 18446673700670406657, 18446744069347475457, 4194304, 18446742969902956801, 137438953440),
    ensures
        lanes16(step(5, c), 18446744009285042177, 18446743992105172993, 18444492269601423361, 18439988669975101441, 9799832784863232001, 9799832789158199296, 7936, 18446744069414575873, 16140901060737761279, 16140901060737761283, 18446691292856451073, 87960930222080, 18446744069351669761, 18446744069343281153, 18446743107341910241, 18446742832464003361),
{
    reveal(lanes16);
    lemma_reduce(step_raw(5, c, 0), 0, 18446744009285042177);
    lemma_reduce(step_raw(5, c, 1), 0, 18446743992105172993);
    lemma_reduce(step_raw(5, c, 2), 0, 18444492269601423361);
    lemma_reduce(step_raw(5, c, 3), 0, 18439988669975101441);
    lemma_reduce(step_raw(5, c, 4), 0, 9799832784863232001);
    lemma_reduce(step_raw(5, c, 5), -1, 9799832789158199296);
    lemma_reduce(step_raw(5, c, 6), 1, 7936);
    lemma_reduce(step_raw(5, c, 7), 0, 18446744069414575873);
    lemma_reduce(step_raw(5, c, 8), 1, 16140901060737761279);
    lemma_reduce(step_raw(5, c, 9), -1, 16140901060737761283);
    lemma_reduce(step_raw(5, c, 10), 0, 18446691292856451073);
    lemma_reduce(step_raw(5, c, 11), -1, 87960930222080);
    lemma_reduce(step_raw(5, c, 12), 0, 18446744069351669761);
    lemma_reduce(step_raw(5, c, 13), 0, 18446744069343281153);
    lemma_reduce(step_raw(5, c, 14), 0, 18446743107341910241);
    lemma_reduce(step_raw(5, c, 15), 0, 18446742832464003361);
}

/// Stage 6 on column 9.
proof fn lemma_column_9_stage_6(c: Seq<int>)
    requires
        lanes16(c, 18446744009285042177, 18446743992105172993, 18444492269601423361, 18439988669975101441, 9799832784863232001, 9799832789158199296, 7936, 18446744069414575873, 16140901060737761279, 16140901060737761283, 18446691292856451073, 87960930222080, 18446744069351669761, 18446744069343281153, 18446743107341910241, 18446742832464003361),
    ensures
        lanes16(step(6, c), 18444492209471881217, 18446743889025957889, 2251739683618816, 25769803776, 9799832784863239937, 12177733392409821184, 9799832784863224065, 7421932185906577408, 16140848284179628031, 10376293539045703683, 16140953837295894527, 3458764513015234562, 18446743107278995681, 18446744069324406785, 962009759520, 18446744069362155521),
{
    reveal(lanes16);
    lemma_reduce(step_raw(6, c, 0), 1, 18444492209471881217);
    lemma_reduce(step_raw(6, c, 1), 18439707298077605889, 18446743889025957889);
    lemma_reduce(step_raw(6, c, 2), 0, 2251739683618816);
    lemma_reduce(step_raw(6, c, 3), -18439707298077605888, 25769803776);
    lemma_reduce(step_raw(6, c, 4), 0, 9799832784863239937);
    lemma_reduce(step_raw(6, c, 5), 18446462594437865217, 12177733392409821184);
    lemma_reduce(step_raw(6, c, 6), 0, 9799832784863224065);
    lemma_reduce(step_raw(6, c, 7), -18446462594437865217, 7421932185906577408);
    lemma_reduce(step_raw(6, c, 8), 1, 16140848284179628031);
    lemma_reduce(step_raw(6, c, 9), 87959588044800, 10376293539045703683);
    lemma_reduce(step_raw(6, c, 10), -1, 16140953837295894527);
    lemma_reduce(step_raw(6, c, 11), -87959588044799, 3458764513015234562);
    lemma_reduce(step_raw(6, c, 12), 1, 18446743107278995681);
    lemma_reduce(step_raw(6, c, 13), 18446461357506167073, 18446744069324406785);
    lemma_reduce(step_raw(6, c, 14), 0, 962009759520);
    lemma_reduce(step_raw(6, c, 15), -18446461357506167073, 18446744069362155521);
}

/// Stage 7 on column 9.
proof fn lemma_column_9_stage_7(c: Seq<int>)
    requires
        lanes16(c, 18444492209471881217, 18446743889025957889, 2251739683618816, 25769803776, 9799832784863239937, 12177733392409821184, 9799832784863224065, 7421932185906577408, 16140848284179628031, 10376293539045703683, 16140953837295894527, 3458764513015234562, 18446743107278995681, 18446744069324406785, 962009759520, 18446744069362155521),
    ensures
        lanes16(step(7, c), 9797580924920536833, 18446743163176484865, 2236037154859354112, 28991948364251136, 8644659424608641280, 545460846592, 16215210393922467841, 18417752172589940737, 16140847322044039391, 3458764513015234568, 16140957960479177791, 3457884903713013762, 16140849246315216671, 17293822565076172798, 16140949714112611263, 3459644122317455362),
{
    reveal(lanes16);
    lemma_reduce(step_raw(7, c, 0), 1, 9797580924920536833);
    lemma_reduce(step_raw(7, c, 1), 725849473024, 18446743163176484865);
    lemma_reduce(step_raw(7, c, 2), 9799683251281877249, 2236037154859354112);
    lemma_reduce(step_raw(7, c, 3), 6750208, 28991948364251136);
    lemma_reduce(step_raw(7, c, 4), 0, 8644659424608641280);
    lemma_reduce(step_raw(7, c, 5), -725849473023, 545460846592);
    lemma_reduce(step_raw(7, c, 6), -9799683251281877250, 16215210393922467841);
    lemma_reduce(step_raw(7, c, 7), -6750209, 18417752172589940737);
    lemma_reduce(step_raw(7, c, 8), 1, 16140847322044039391);
    lemma_reduce(step_raw(7, c, 9), 1099511627515, 3458764513015234568);
    lemma_reduce(step_raw(7, c, 10), 961995080416, 16140957960479177791);
    lemma_reduce(step_raw(7, c, 11), 16777216, 3457884903713013762);
    lemma_reduce(step_raw(7, c, 12), -1, 16140849246315216671);
    lemma_reduce(step_raw(7, c, 13), -1099511627515, 17293822565076172798);
    lemma_reduce(step_raw(7, c, 14), -961995080416, 16140949714112611263);
    lemma_reduce(step_raw(7, c, 15), -16777216, 3459644122317455362);
}

/// Stage 8 on column 9.
proof fn lemma_column_9_stage_8(c: Seq<int>)
    requires
        lanes16(c, 9797580924920536833, 18446743163176484865, 2236037154859354112, 28991948364251136, 8644659424608641280, 545460846592, 16215210393922467841, 18417752172589940737, 16140847322044039391, 3458764513015234568, 16140957960479177791, 3457884903713013762, 16140849246315216671, 17293822565076172798, 16140949714112611263, 3459644122317455362),
    ensures
        lanes16(step(8, c), 7491684177549991903, 18446743700047396865, 18375880622847003104, 3631871650260640512, 12103947580051285184, 13229869363167232, 2379906257383880660, 2060678330275253760, 12103477672291081763, 18446742626305572865, 4542937756286289441, 14872856315882446081, 5185371269165997376, 18433515290973110273, 11603770461046470701, 16328081945490043393),
{
    reveal(lanes16);
    lemma_reduce(step_raw(8, c, 0), 1, 7491684177549991903);
    lemma_reduce(step_raw(8, c, 1), 12884901888, 18446743700047396865);
    lemma_reduce(step_raw(8, c, 2), 962076065568, 18375880622847003104);
    lemma_reduce(step_raw(8, c, 3), 3457884903713012994, 3631871650260640512);
    lemma_reduce(step_raw(8, c, 4), 16140602956501220191, 12103947580051285184);
    lemma_reduce(step_raw(8, c, 5), 17289600440426495998, 13229869363167232);
    lemma_reduce(step_raw(8, c, 6), 14680109, 2379906257383880660);
    lemma_reduce(step_raw(8, c, 7), 216227757695185409, 2060678330275253760);
    lemma_reduce(step_raw(8, c, 8), -1, 12103477672291081763);
    lemma_reduce(step_raw(8, c, 9), -12884901888, 18446742626305572865);
    lemma_reduce(step_raw(8, c, 10), -962076065569, 4542937756286289441);
    lemma_reduce(step_raw(8, c, 11), -3457884903713012995, 14872856315882446081);
    lemma_reduce(step_raw(8, c, 12), -16140602956501220191, 5185371269165997376);
    lemma_reduce(step_raw(8, c, 13), -17289600440426495999, 18433515290973110273);
    lemma_reduce(step_raw(8, c, 14), -14680108, 11603770461046470701);
    lemma_reduce(step_raw(8, c, 15), -216227757695185408, 16328081945490043393);
}

/// The lanes of unit vector 9.
proof fn lemma_column_9_first()
    ensures
        lanes16(basis(9, 16), 0, 0, 0, 0, 0, 0, 0, 0, 0, 1, 0, 0, 0, 0, 0, 0),
{
    reveal(lanes16);
}

/// The lanes that the last stage leaves for unit vector 9 are column 9 of the matrix.
proof fn lemma_column_9_last(c: Seq<int>)
    requires
        lanes16(c, 7491684177549991903, 18446743700047396865, 18375880622847003104, 3631871650260640512, 12103947580051285184, 13229869363167232, 2379906257383880660, 2060678330275253760, 12103477672291081763, 18446742626305572865, 4542937756286289441, 14872856315882446081, 5185371269165997376, 18433515290973110273, 11603770461046470701, 16328081945490043393),
    ensures
        is_mds_column(c, 9),
{
    reveal(lanes16);
}

/// Column 9 of the matrix that the transform applies.
proof fn lemma_column_9()
    ensures
        is_mds_column(run(9, basis(9, 16)), 9),
{
    let c0 = basis(9, 16);
    lemma_column_9_first();
    lemma_column_9_stage_0(c0);
    let c1 = step(0, c0);
    lemma_column_9_stage_1(c1);
    let c2 = step(1, c1);
    lemma_column_9_stage_2(c2);
    let c3 = step(2, c2);
    lemma_column_9_stage_3(c3);
    let c4 = step(3, c3);
    lemma_column_9_stage_4(c4);
    let c5 = step(4, c4);
    lemma_column_9_stage_5(c5);
    let c6 = step(5, c5);
    lemma_column_9_stage_6(c6);
    let c7 = step(6, c6);
    lemma_column_9_stage_7(c7);
    let c8 = step(7, c7);
    lemma_column_9_stage_8(c8);
    let c9 = step(8, c8);
    lemma_column_9_last(c9);
    assert(run(9, c0) == c9) by {
        reveal_with_fuel(run, 10);
    }
}

/// Stage 0 on column 10.
proof fn lemma_column_10_stage_0(c: Seq<int>)
    requires
        lanes16(c, 0, 0, 0, 0, 0, 0, 0, 0, 0, 0, 1, 0, 0, 0, 0, 0),
    ensures
        lanes16(step(0, c), 0, 0, 1, 0, 0, 0, 0, 0, 0, 0, 18446744069414584320, 0, 0, 0, 0, 0),
{
    reveal(lanes16);
    lemma_reduce(step_raw(0, c, 0), 0, 0);
    lemma_reduce(step_raw(0, c, 1), 0, 0);
    lemma_reduce(step_raw(0, c, 2), 0, 1);
    lemma_reduce(step_raw(0, c, 3), 0, 0);
    lemma_reduce(step_raw(0, c, 4), 0, 0);
    lemma_reduce(step_raw(0, c, 5), 0, 0);
    lemma_reduce(step_raw(0, c, 6), 0, 0);
    lemma_reduce(step_raw(0, c, 7), 0, 0);
    lemma_reduce(step_raw(0, c, 8), 0, 0);
    lemma_reduce(step_raw(0, c, 9), 0, 0);
    lemma_reduce(step_raw(0, c, 10), -1, 18446744069414584320);
    lemma_reduce(step_raw(0, c, 11), 0, 0);
    lemma_reduce(step_raw(0, c, 12), 0, 0);
    lemma_reduce(step_raw(0, c, 13), 0, 0);
    lemma_reduce(step_raw(0, c, 14), 0, 0);
    lemma_reduce(step_raw(0, c, 15), 0, 0);
}

/// Stage 1 on column 10.
proof fn lemma_column_10_stage_1(c: Seq<int>)
    requires
        lanes16(c, 0, 0, 1, 0, 0, 0, 0, 0, 0, 0, 18446744069414584320, 0, 0, 0, 0, 0),
    ensures
        lanes16(step(1, c), 0, 0, 1, 0, 0, 0, 1, 0, 0, 0, 18446744069414584320, 0, 0, 0, 18446744069414584320, 0),
{
    reveal(lanes16);
    lemma_reduce(step_raw(1, c, 0), 0, 0);
    lemma_reduce(step_raw(1, c, 1), 0, 0);
    lemma_reduce(step_raw(1, c, 2), 0, 1);
    lemma_reduce(step_raw(1, c, 3), 0, 0);
    lemma_reduce(step_raw(1, c, 4), 0, 0);
    lemma_reduce(step_raw(1, c, 5), 0, 0);
    lemma_reduce(step_raw(1, c, 6), 0, 1);
    lemma_reduce(step_raw(1, c, 7), 0, 0);
    lemma_reduce(step_raw(1, c, 8), 0, 0);
    lemma_reduce(step_raw(1, c, 9), 0, 0);
    lemma_reduce(step_raw(1, c, 10), 0, 18446744069414584320);
    lemma_reduce(step_raw(1, c, 11), 0, 0);
    lemma_reduce(step_raw(1, c, 12), 0, 0);
    lemma_reduce(step_raw(1, c, 13), 0, 0);
    lemma_reduce(step_raw(1, c, 14), 0, 18446744069414584320);
    lemma_reduce(step_raw(1, c, 15), 0, 0);
}

/// Stage 2 on column 10.
proof fn lemma_column_10_stage_2(c: Seq<int>)
    requires
        lanes16(c, 0, 0, 1, 0, 0, 0, 1, 0, 0, 0, 18446744069414584320, 0, 0, 0, 18446744069414584320, 0),
    ensures
        lanes16(step(2, c), 1, 0, 18446744069414584320, 0, 281474976710656, 0, 18446462594437873665, 0, 16777216, 0, 18446744069397807105, 0, 1099511627520, 0, 18446742969902956801, 0),
{
    reveal(lanes16);
    lemma_reduce(step_raw(2, c, 0), 0, 1);
    lemma_reduce(step_raw(2, c, 1), 0, 0);
    lemma_reduce(step_raw(2, c, 2), -1, 18446744069414584320);
    lemma_reduce(step_raw(2, c, 3), 0, 0);
    lemma_reduce(step_raw(2, c, 4), 0, 281474976710656);
    lemma_reduce(step_raw(2, c, 5), 0, 0);
    lemma_reduce(step_raw(2, c, 6), -1, 18446462594437873665);
    lemma_reduce(step_raw(2, c, 7), 0, 0);
    lemma_reduce(step_raw(2, c, 8), 18446744069397807104, 16777216);
    lemma_reduce(step_raw(2, c, 9), 0, 0);
    lemma_reduce(step_raw(2, c, 10), -18446744069397807105, 18446744069397807105);
    lemma_reduce(step_raw(2, c, 11), 0, 0);
    lemma_reduce(step_raw(2, c, 12), 18446742969902956800, 1099511627520);
    lemma_reduce(step_raw(2, c, 13), 0, 0);
    lemma_reduce(step_raw(2, c, 14), -18446742969902956801, 18446742969902956801);
    lemma_reduce(step_raw(2, c, 15), 0, 0);
}

/// Stage 3 on column 10.
proof fn lemma_column_10_stage_3(c: Seq<int>)
    requires
        lanes16(c, 1, 0, 18446744069414584320, 0, 281474976710656, 0, 18446462594437873665, 0, 16777216, 0, 18446744069397807105, 0, 1099511627520, 0, 18446742969902956801, 0),
    ensures
        lanes16(step(3, c), 1, 1, 18446744069414584320, 18446744069414584320, 281474976710656, 281474976710656, 18446462594437873665, 18446462594437873665, 16777216, 16777216, 18446744069397807105, 18446744069397807105, 1099511627520, 1099511627520, 18446742969902956801, 18446742969902956801),
{
    reveal(lanes16);
    lemma_reduce(step_raw(3, c, 0), 0, 1);
    lemma_reduce(step_raw(3, c, 1), 0, 1);
    lemma_reduce(step_raw(3, c, 2), 0, 18446744069414584320);
    lemma_reduce(step_raw(3, c, 3), 0, 18446744069414584320);
    lemma_reduce(step_raw(3, c, 4), 0, 281474976710656);
    lemma_reduce(step_raw(3, c, 5), 0, 281474976710656);
    lemma_reduce(step_raw(3, c, 6), 0, 18446462594437873665);
    lemma_reduce(step_raw(3, c, 7), 0, 18446462594437873665);
    lemma_reduce(step_raw(3, c, 8), 0, 16777216);
    lemma_reduce(step_raw(3, c, 9), 0, 16777216);
    lemma_reduce(step_raw(3, c, 10), 0, 18446744069397807105);
    lemma_reduce(step_raw(3, c, 11), 0, 18446744069397807105);
    lemma_reduce(step_raw(3, c, 12), 0, 1099511627520);
    lemma_reduce(step_raw(3, c, 13), 0, 1099511627520);
    lemma_reduce(step_raw(3, c, 14), 0, 18446742969902956801);
    lemma_reduce(step_raw(3, c, 15), 0, 18446742969902956801);
}

/// Stage 4 on column 10.
proof fn lemma_column_10_stage_4(c: Seq<int>)
    requires
        lanes16(c, 1, 1, 18446744069414584320, 18446744069414584320, 281474976710656, 281474976710656, 18446462594437873665, 18446462594437873665, 16777216, 16777216, 18446744069397807105, 18446744069397807105, 1099511627520, 1099511627520, 18446742969902956801, 18446742969902956801),
    ensures
        lanes16(step(4, c), 18446744000695107585, 18446744060824649729, 68719476736, 34359738368, 18444492269601423361, 18410715272404008961, 281474976645120, 9007199252643840, 18302628881338728449, 16140901060200890369, 72057594037927936, 288230376151711744, 16384, 1024, 18446744069414580225, 18446744069414583809),
{
    reveal(lanes16);
    lemma_reduce(step_raw(4, c, 0), 15, 18446744000695107585);
    lemma_reduce(step_raw(4, c, 1), 1, 18446744060824649729);
    lemma_reduce(step_raw(4, c, 2), 295147905041913872384, 68719476736);
    lemma_reduce(step_raw(4, c, 3), 147573952520956936192, 34359738368);
    lemma_reduce(step_raw(4, c, 4), 2251799813160959, 18444492269601423361);
    lemma_reduce(step_raw(4, c, 5), 36028797010575359, 18410715272404008961);
    lemma_reduce(step_raw(4, c, 6), 18446462590142971905, 281474976645120);
    lemma_reduce(step_raw(4, c, 7), 590286802884575100960, 9007199252643840);
    lemma_reduce(step_raw(4, c, 8), 33554431, 18302628881338728449);
    lemma_reduce(step_raw(4, c, 9), 536870911, 16140901060200890369);
    lemma_reduce(step_raw(4, c, 10), 18446744065102839809, 72057594037927936);
    lemma_reduce(step_raw(4, c, 11), 73786976260411359236, 288230376151711744);
    lemma_reduce(step_raw(4, c, 12), 70368744144896, 16384);
    lemma_reduce(step_raw(4, c, 13), 4398046509056, 1024);
    lemma_reduce(step_raw(4, c, 14), 295147887449727836175, 18446744069414580225);
    lemma_reduce(step_raw(4, c, 15), 36893485931215979521, 18446744069414583809);
}

/// Stage 5 on column 10.
proof fn lemma_column_10_stage_5(c: Seq<int>)
    requires
        lanes16(c, 18446744000695107585, 18446744060824649729, 68719476736, 34359738368, 18444492269601423361, 18410715272404008961, 281474976645120, 9007199252643840, 18302628881338728449, 16140901060200890369, 72057594037927936, 288230376151711744, 16384, 1024, 18446744069414580225, 18446744069414583809),
    ensures
        lanes16(step(5, c), 18446743992105172993, 18446744009285042177, 103079215104, 34359738368, 18408463472590848001, 33776997197414400, 9288674229288960, 18438018345138585601, 15996785872125034497, 2161727821137838080, 360287970189639680, 18230571287300800513, 17408, 15360, 18446744069414579713, 18446744069414580737),
{
    reveal(lanes16);
    lemma_reduce(step_raw(5, c, 0), 1, 18446743992105172993);
    lemma_reduce(step_raw(5, c, 1), -1, 18446744009285042177);
    lemma_reduce(step_raw(5, c, 2), 0, 103079215104);
    lemma_reduce(step_raw(5, c, 3), 0, 34359738368);
    lemma_reduce(step_raw(5, c, 4), 1, 18408463472590848001);
    lemma_reduce(step_raw(5, c, 5), 0, 33776997197414400);
    lemma_reduce(step_raw(5, c, 6), 0, 9288674229288960);
    lemma_reduce(step_raw(5, c, 7), -1, 18438018345138585601);
    lemma_reduce(step_raw(5, c, 8), 1, 15996785872125034497);
    lemma_reduce(step_raw(5, c, 9), 0, 2161727821137838080);
    lemma_reduce(step_raw(5, c, 10), 0, 360287970189639680);
    lemma_reduce(step_raw(5, c, 11), -1, 18230571287300800513);
    lemma_reduce(step_raw(5, c, 12), 0, 17408);
    lemma_reduce(step_raw(5, c, 13), 0, 15360);
    lemma_reduce(step_raw(5, c, 14), 1, 18446744069414579713);
    lemma_reduce(step_raw(5, c, 15), -1, 18446744069414580737);
}

/// Stage 6 on column 10.
proof fn lemma_column_10_stage_6(c: Seq<int>)
    requires
        lanes16(c, 18446743992105172993, 18446744009285042177, 103079215104, 34359738368, 18408463472590848001, 33776997197414400, 9288674229288960, 18438018345138585601, 15996785872125034497, 2161727821137838080, 360287970189639680, 18230571287300800513, 17408, 15360, 18446744069414579713, 18446744069414580737),
    ensures
        lanes16(step(6, c), 25769803776, 18444492209471881217, 18446743889025957889, 2251739683618816, 18417752146820136961, 33776864053428224, 18399174798361559041, 33777130341400576, 16357073842314674177, 2161727821137837312, 15636497901935394817, 2161727821137838848, 12800, 1008806316531006464, 22016, 17437937752883608577),
{
    reveal(lanes16);
    lemma_reduce(step_raw(6, c, 0), 1, 25769803776);
    lemma_reduce(step_raw(6, c, 1), 34359214080, 18444492209471881217);
    lemma_reduce(step_raw(6, c, 2), 0, 18446743889025957889);
    lemma_reduce(step_raw(6, c, 3), -34359214079, 2251739683618816);
    lemma_reduce(step_raw(6, c, 4), 0, 18417752146820136961);
    lemma_reduce(step_raw(6, c, 5), 18437737003305861121, 33776864053428224);
    lemma_reduce(step_raw(6, c, 6), 0, 18399174798361559041);
    lemma_reduce(step_raw(6, c, 7), -18437737003305861121, 33777130341400576);
    lemma_reduce(step_raw(6, c, 8), 0, 16357073842314674177);
    lemma_reduce(step_raw(6, c, 9), 18230293110858973953, 2161727821137837312);
    lemma_reduce(step_raw(6, c, 10), 0, 15636497901935394817);
    lemma_reduce(step_raw(6, c, 11), -18230293110858973953, 2161727821137838848);
    lemma_reduce(step_raw(6, c, 12), 1, 12800);
    lemma_reduce(step_raw(6, c, 13), 18446462594437870081, 1008806316531006464);
    lemma_reduce(step_raw(6, c, 14), -1, 22016);
    lemma_reduce(step_raw(6, c, 15), -18446462594437870082, 17437937752883608577);
}

/// Stage 7 on column 10.
proof fn lemma_column_10_stage_7(c: Seq<int>)
    requires
        lanes16(c, 25769803776, 18444492209471881217, 18446743889025957889, 2251739683618816, 18417752146820136961, 33776864053428224, 18399174798361559041, 33777130341400576, 16357073842314674177, 2161727821137837312, 15636497901935394817, 2161727821137838848, 12800, 1008806316531006464, 22016, 17437937752883608577),
    ensures
        lanes16(step(7, c), 18417752172589940737, 9797580924920536833, 18446743163176484865, 2236037154859354112, 28991948364251136, 8644659424608641280, 545460846592, 16215210393922467841, 16357073842314686977, 2178616259607002368, 9439544814673592321, 2157787429162844928, 16357073842314661377, 2144839382668672256, 3386706919782612992, 2165668213112832768),
{
    reveal(lanes16);
    lemma_reduce(step_raw(7, c, 0), 0, 18417752172589940737);
    lemma_reduce(step_raw(7, c, 1), 2013257984, 9797580924920536833);
    lemma_reduce(step_raw(7, c, 2), 18398894049234321409, 18446743163176484865);
    lemma_reduce(step_raw(7, c, 3), 30720, 2236037154859354112);
    lemma_reduce(step_raw(7, c, 4), -1, 28991948364251136);
    lemma_reduce(step_raw(7, c, 5), -2013257983, 8644659424608641280);
    lemma_reduce(step_raw(7, c, 6), -18398894049234321408, 545460846592);
    lemma_reduce(step_raw(7, c, 7), -30721, 16215210393922467841);
    lemma_reduce(step_raw(7, c, 8), 0, 16357073842314686977);
    lemma_reduce(step_raw(7, c, 9), 60129542144, 2178616259607002368);
    lemma_reduce(step_raw(7, c, 10), 22016, 9439544814673592321);
    lemma_reduce(step_raw(7, c, 11), 15859712, 2157787429162844928);
    lemma_reduce(step_raw(7, c, 12), 0, 16357073842314661377);
    lemma_reduce(step_raw(7, c, 13), -60129542144, 2144839382668672256);
    lemma_reduce(step_raw(7, c, 14), -22015, 3386706919782612992);
    lemma_reduce(step_raw(7, c, 15), -15859712, 2165668213112832768);
}

/// Stage 8 on column 10.
proof fn lemma_column_10_stage_8(c: Seq<int>)
    requires
        lanes16(c, 18417752172589940737, 9797580924920536833, 18446743163176484865, 2236037154859354112, 28991948364251136, 8644659424608641280, 545460846592, 16215210393922467841, 16357073842314686977, 2178616259607002368, 9439544814673592321, 2157787429162844928, 16357073842314661377, 2144839382668672256, 3386706919782612992, 2165668213112832768),
    ensures
        lanes16(step(8, c), 16328081945490043393, 7491684177549991903, 18446743700047396865, 18375880622847003104, 3631871650260640512, 12103947580051285184, 13229869363167232, 2379906257383880660, 2060678330275253760, 12103477672291081763, 18446742626305572865, 4542937756286289441, 14872856315882446081, 5185371269165997376, 18433515290973110273, 11603770461046470701),
{
    reveal(lanes16);
    lemma_reduce(step_raw(8, c, 0), 1, 16328081945490043393);
    lemma_reduce(step_raw(8, c, 1), 8115978018, 7491684177549991903);
    lemma_reduce(step_raw(8, c, 2), 562640715520, 18446743700047396865);
    lemma_reduce(step_raw(8, c, 3), 2157787429162844448, 18375880622847003104);
    lemma_reduce(step_raw(8, c, 4), 16356824253175163649, 3631871650260640512);
    lemma_reduce(step_raw(8, c, 5), 2144315740241262912, 12103947580051285184);
    lemma_reduce(step_raw(8, c, 6), 3080192, 13229869363167232);
    lemma_reduce(step_raw(8, c, 7), 135354263351066669, 2379906257383880660);
    lemma_reduce(step_raw(8, c, 8), 0, 2060678330275253760);
    lemma_reduce(step_raw(8, c, 9), -8115978018, 12103477672291081763);
    lemma_reduce(step_raw(8, c, 10), -562640715520, 18446742626305572865);
    lemma_reduce(step_raw(8, c, 11), -2157787429162844449, 4542937756286289441);
    lemma_reduce(step_raw(8, c, 12), -16356824253175163650, 14872856315882446081);
    lemma_reduce(step_raw(8, c, 13), -2144315740241262912, 5185371269165997376);
    lemma_reduce(step_raw(8, c, 14), -3080193, 18433515290973110273);
    lemma_reduce(step_raw(8, c, 15), -135354263351066668, 11603770461046470701);
}

/// The lanes of unit vector 10.
proof fn lemma_column_10_first()
    ensures
        lanes16(basis(10, 16), 0, 0, 0, 0, 0, 0, 0, 0, 0, 0, 1, 0, 0, 0, 0, 0),
{
    reveal(lanes16);
}

/// The lanes that the last stage leaves for unit vector 10 are column 10 of the matrix.
proof fn lemma_column_10_last(c: Seq<int>)
    requires
        lanes16(c, 16328081945490043393, 7491684177549991903, 18446743700047396865, 18375880622847003104, 3631871650260640512, 12103947580051285184, 13229869363167232, 2379906257383880660, 2060678330275253760, 12103477672291081763, 18446742626305572865, 4542937756286289441, 14872856315882446081, 5185371269165997376, 18433515290973110273, 11603770461046470701),
    ensures
        is_mds_column(c, 10),
{
    reveal(lanes16);
}

/// Column 10 of the matrix that the transform applies.
proof fn lemma_column_10()
    ensures
        is_mds_column(run(9, basis(10, 16)), 10),
{
    let c0 = basis(10, 16);
    lemma_column_10_first();
    lemma_column_10_stage_0(c0);
    let c1 = step(0, c0);
    lemma_column_10_stage_1(c1);
    let c2 = step(1, c1);
    lemma_column_10_stage_2(c2);
    let c3 = step(2, c2);
    lemma_column_10_stage_3(c3);
    let c4 = step(3, c3);
    lemma_column_10_stage_4(c4);
    let c5 = step(4, c4);
    lemma_column_10_stage_5(c5);
    let c6 = step(5, c5);
    lemma_column_10_stage_6(c6);
    let c7 = step(6, c6);
    lemma_column_10_stage_7(c7);
    let c8 = step(7, c7);
    lemma_column_10_stage_8(c8);
    let c9 = step(8, c8);
    lemma_column_10_last(c9);
    assert(run(9, c0) == c9) by {
        reveal_with_fuel(run, 10);
    }
}

/// Stage 0 on column 11.
proof fn lemma_column_11_stage_0(c: Seq<int>)
    requires
        lanes16(c, 0, 0, 0, 0, 0, 0, 0, 0, 0, 0, 0, 1, 0, 0, 0, 0),
    ensures
        lanes16(step(0, c), 0, 0, 0, 1, 0, 0, 0, 0, 0, 0, 0, 18446744069414584320, 0, 0, 0, 0),
{
    reveal(lanes16);
    lemma_reduce(step_raw(0, c, 0), 0, 0);
    lemma_reduce(step_raw(0, c, 1), 0, 0);
    lemma_reduce(step_raw(0, c, 2), 0, 0);
    lemma_reduce(step_raw(0, c, 3), 0, 1);
    lemma_reduce(step_raw(0, c, 4), 0, 0);
    lemma_reduce(step_raw(0, c, 5), 0, 0);
    lemma_reduce(step_raw(0, c, 6), 0, 0);
    lemma_reduce(step_raw(0, c, 7), 0, 0);
    lemma_reduce(step_raw(0, c, 8), 0, 0);
    lemma_reduce(step_raw(0, c, 9), 0, 0);
    lemma_reduce(step_raw(0, c, 10), 0, 0);
    lemma_reduce(step_raw(0, c, 11), -1, 18446744069414584320);
    lemma_reduce(step_raw(0, c, 12), 0, 0);
    lemma_reduce(step_raw(0, c, 13), 0, 0);
    lemma_reduce(step_raw(0, c, 14), 0, 0);
    lemma_reduce(step_raw(0, c, 15), 0, 0);
}

/// Stage 1 on column 11.
proof fn lemma_column_11_stage_1(c: Seq<int>)
    requires
        lanes16(c, 0, 0, 0, 1, 0, 0, 0, 0, 0, 0, 0, 18446744069414584320, 0, 0, 0, 0),
    ensures
        lanes16(step(1, c), 0, 0, 0, 1, 0, 0, 0, 1, 0, 0, 0, 18446744069414584320, 0, 0, 0, 18446744069414584320),
{
    reveal(lanes16);
    lemma_reduce(step_raw(1, c, 0), 0, 0);
    lemma_reduce(step_raw(1, c, 1), 0, 0);
    lemma_reduce(step_raw(1, c, 2), 0, 0);
    lemma_reduce(step_raw(1, c, 3), 0, 1);
    lemma_reduce(step_raw(1, c, 4), 0, 0);
    lemma_reduce(step_raw(1, c, 5), 0, 0);
    lemma_reduce(step_raw(1, c, 6), 0, 0);
    lemma_reduce(step_raw(1, c, 7), 0, 1);
    lemma_reduce(step_raw(1, c, 8), 0, 0);
    lemma_reduce(step_raw(1, c, 9), 0, 0);
    lemma_reduce(step_raw(1, c, 10), 0, 0);
    lemma_reduce(step_raw(1, c, 11), 0, 18446744069414584320);
    lemma_reduce(step_raw(1, c, 12), 0, 0);
    lemma_reduce(step_raw(1, c, 13), 0, 0);
    lemma_reduce(step_raw(1, c, 14), 0, 0);
    lemma_reduce(step_raw(1, c, 15), 0, 18446744069414584320);
}

/// Stage 2 on column 11.
proof fn lemma_column_11_stage_2(c: Seq<int>)
    requires
        lanes16(c, 0, 0, 0, 1, 0, 0, 0, 1, 0, 0, 0, 18446744069414584320, 0, 0, 0, 18446744069414584320),
    ensures
        lanes16(step(2, c), 0, 1, 0, 18446744069414584320, 0, 281474976710656, 0, 18446462594437873665, 0, 16777216, 0, 18446744069397807105, 0, 1099511627520, 0, 18446742969902956801),
{
    reveal(lanes16);
    lemma_reduce(step_raw(2, c, 0), 0, 0);
    lemma_reduce(step_raw(2, c, 1), 0, 1);
    lemma_reduce(step_raw(2, c, 2), 0, 0);
    lemma_reduce(step_raw(2, c, 3), -1, 18446744069414584320);
    lemma_reduce(step_raw(2, c, 4), 0, 0);
    lemma_reduce(step_raw(2, c, 5), 0, 281474976710656);
    lemma_reduce(step_raw(2, c, 6), 0, 0);
    lemma_reduce(step_raw(2, c, 7), -1, 18446462594437873665);
    lemma_reduce(step_raw(2, c, 8), 0, 0);
    lemma_reduce(step_raw(2, c, 9), 18446744069397807104, 16777216);
    lemma_reduce(step_raw(2, c, 10), 0, 0);
    lemma_reduce(step_raw(2, c, 11), -18446744069397807105, 18446744069397807105);
    lemma_reduce(step_raw(2, c, 12), 0, 0);
    lemma_reduce(step_raw(2, c, 13), 18446742969902956800, 1099511627520);
    lemma_reduce(step_raw(2, c, 14), 0, 0);
    lemma_reduce(step_raw(2, c, 15), -18446742969902956801, 18446742969902956801);
}

/// Stage 3 on column 11.
proof fn lemma_column_11_stage_3(c: Seq<int>)
    requires
        lanes16(c, 0, 1, 0, 18446744069414584320, 0, 281474976710656, 0, 18446462594437873665, 0, 16777216, 0, 18446744069397807105, 0, 1099511627520, 0, 18446742969902956801),
    ensures
        lanes16(step(3, c), 1, 18446744069414584320, 18446462594437873665, 281474976710656, 18446742969902956801, 1099511627520, 18446744069397807105, 16777216, 18442240469788262401, 4503599626321920, 18446744000695107585, 68719476736, 17293822564807737345, 1152921504606846976, 18446744069414580225, 4096),
{
    reveal(lanes16);
    lemma_reduce(step_raw(3, c, 0), 0, 1);
    lemma_reduce(step_raw(3, c, 1), -1, 18446744069414584320);
    lemma_reduce(step_raw(3, c, 2), 281474976710655, 18446462594437873665);
    lemma_reduce(step_raw(3, c, 3), -281474976710656, 281474976710656);
    lemma_reduce(step_raw(3, c, 4), 281474976710399, 18446742969902956801);
    lemma_reduce(step_raw(3, c, 5), -281474976710400, 1099511627520);
    lemma_reduce(step_raw(3, c, 6), 18446461494943023360, 18446744069397807105);
    lemma_reduce(step_raw(3, c, 7), -18446461494943023361, 16777216);
    lemma_reduce(step_raw(3, c, 8), 15728639, 18442240469788262401);
    lemma_reduce(step_raw(3, c, 9), -15728640, 4503599626321920);
    lemma_reduce(step_raw(3, c, 10), 4095, 18446744000695107585);
    lemma_reduce(step_raw(3, c, 11), -4096, 68719476736);
    lemma_reduce(step_raw(3, c, 12), 268435455, 17293822564807737345);
    lemma_reduce(step_raw(3, c, 13), -268435456, 1152921504606846976);
    lemma_reduce(step_raw(3, c, 14), 18446742901183484160, 18446744069414580225);
    lemma_reduce(step_raw(3, c, 15), -18446742901183484161, 4096);
}

/// Stage 4 on column 11.
proof fn lemma_column_11_stage_4(c: Seq<int>)
    requires
        lanes16(c, 1, 18446744069414584320, 18446462594437873665, 281474976710656, 18446742969902956801, 1099511627520, 18446744069397807105, 16777216, 18442240469788262401, 4503599626321920, 18446744000695107585, 68719476736, 17293822564807737345, 1152921504606846976, 18446744069414580225, 4096),
    ensures
        lanes16(step(4, c), 18446744000695107585, 8589934592, 4503599626321920, 18444492269601423361, 18446744069414582273, 32768, 72057594037927936, 16140901060200890369, 18446744069412487169, 33554432, 68719476720, 18446743794536677441, 18446744069414584317, 13835058052060938241, 281474976710656, 18446708885042495489),
{
    reveal(lanes16);
    lemma_reduce(step_raw(4, c, 0), 15, 18446744000695107585);
    lemma_reduce(step_raw(4, c, 1), 36893488130239234048, 8589934592);
    lemma_reduce(step_raw(4, c, 2), 295143401442287550480, 4503599626321920);
    lemma_reduce(step_raw(4, c, 3), 2251799813160959, 18444492269601423361);
    lemma_reduce(step_raw(4, c, 4), 147573943724863918087, 18446744069414582273);
    lemma_reduce(step_raw(4, c, 5), 140737488289792, 32768);
    lemma_reduce(step_raw(4, c, 6), 18446744065102839809, 72057594037927936);
    lemma_reduce(step_raw(4, c, 7), 536870911, 16140901060200890369);
    lemma_reduce(step_raw(4, c, 8), 36884480930988687361, 18446744069412487169);
    lemma_reduce(step_raw(4, c, 9), 144115188008747008, 33554432);
    lemma_reduce(step_raw(4, c, 10), 18446743996400140305, 68719476720);
    lemma_reduce(step_raw(4, c, 11), 274877906879, 18446743794536677441);
    lemma_reduce(step_raw(4, c, 12), 1106804643889997152323, 18446744069414584317);
    lemma_reduce(step_raw(4, c, 13), 4611686017353646079, 13835058052060938241);
    lemma_reduce(step_raw(4, c, 14), 295147905041913806864, 281474976710656);
    lemma_reduce(step_raw(4, c, 15), 8191, 18446708885042495489);
}

/// Stage 5 on column 11.
proof fn lemma_column_11_stage_5(c: Seq<int>)
    requires
        lanes16(c, 18446744000695107585, 8589934592, 4503599626321920, 18444492269601423361, 18446744069414582273, 32768, 72057594037927936, 16140901060200890369, 18446744069412487169, 33554432, 68719476720, 18446743794536677441, 18446744069414584317, 13835058052060938241, 281474976710656, 18446708885042495489),
    ensures
        lanes16(step(5, c), 18446744009285042177, 18446743992105172993, 2251799813160960, 6755399439482880, 30720, 18446744069414549505, 16212958654238818305, 2377900603251621888, 31457280, 18446744069378932737, 18446743863256154161, 343597383600, 13835058052060938237, 4611686017353646076, 246290604621824, 316659348799488),
{
    reveal(lanes16);
    lemma_reduce(step_raw(5, c, 0), 0, 18446744009285042177);
    lemma_reduce(step_raw(5, c, 1), 0, 18446743992105172993);
    lemma_reduce(step_raw(5, c, 2), 1, 2251799813160960);
    lemma_reduce(step_raw(5, c, 3), -1, 6755399439482880);
    lemma_reduce(step_raw(5, c, 4), 1, 30720);
    lemma_reduce(step_raw(5, c, 5), 0, 18446744069414549505);
    lemma_reduce(step_raw(5, c, 6), 0, 16212958654238818305);
    lemma_reduce(step_raw(5, c, 7), -1, 2377900603251621888);
    lemma_reduce(step_raw(5, c, 8), 1, 31457280);
    lemma_reduce(step_raw(5, c, 9), 0, 18446744069378932737);
    lemma_reduce(step_raw(5, c, 10), 0, 18446743863256154161);
    lemma_reduce(step_raw(5, c, 11), -1, 343597383600);
    lemma_reduce(step_raw(5, c, 12), 1, 13835058052060938237);
    lemma_reduce(step_raw(5, c, 13), 0, 4611686017353646076);
    lemma_reduce(step_raw(5, c, 14), 1, 246290604621824);
    lemma_reduce(step_raw(5, c, 15), -1, 316659348799488);
}

/// Stage 6 on column 11.
proof fn lemma_column_11_stage_6(c: Seq<int>)
    requires
        lanes16(c, 18446744009285042177, 18446743992105172993, 2251799813160960, 6755399439482880, 30720, 18446744069414549505, 16212958654238818305, 2377900603251621888, 31457280, 18446744069378932737, 18446743863256154161, 343597383600, 13835058052060938237, 4611686017353646076, 246290604621824, 316659348799488),
    ensures
        lanes16(step(6, c), 2251739683618816, 25769803776, 18444492209471881217, 18446743889025957889, 16212958654238849025, 18446744069414557953, 2233785415175796736, 18446744069414541057, 18446743863287611441, 18446744069384175617, 206189887440, 18446744069373689857, 13835304342665560061, 2305843008676823037, 13834811761456316413, 6917529026030469115),
{
    reveal(lanes16);
    lemma_reduce(step_raw(6, c, 0), 1, 2251739683618816);
    lemma_reduce(step_raw(6, c, 1), 6755296360267777, 25769803776);
    lemma_reduce(step_raw(6, c, 2), 0, 18444492209471881217);
    lemma_reduce(step_raw(6, c, 3), -6755296360267776, 18446743889025957889);
    lemma_reduce(step_raw(6, c, 4), 0, 16212958654238849025);
    lemma_reduce(step_raw(6, c, 5), 2377864319367896832, 18446744069414557953);
    lemma_reduce(step_raw(6, c, 6), -1, 2233785415175796736);
    lemma_reduce(step_raw(6, c, 7), -2377864319367896832, 18446744069414541057);
    lemma_reduce(step_raw(6, c, 8), 0, 18446743863287611441);
    lemma_reduce(step_raw(6, c, 9), 343592140720, 18446744069384175617);
    lemma_reduce(step_raw(6, c, 10), -1, 206189887440);
    lemma_reduce(step_raw(6, c, 11), -343592140720, 18446744069373689857);
    lemma_reduce(step_raw(6, c, 12), 0, 13835304342665560061);
    lemma_reduce(step_raw(6, c, 13), 316654516961279, 2305843008676823037);
    lemma_reduce(step_raw(6, c, 14), 0, 13834811761456316413);
    lemma_reduce(step_raw(6, c, 15), -316654516961279, 6917529026030469115);
}

/// Stage 7 on column 11.
proof fn lemma_column_11_stage_7(c: Seq<int>)
    requires
        lanes16(c, 2251739683618816, 25769803776, 18444492209471881217, 18446743889025957889, 16212958654238849025, 18446744069414557953, 2233785415175796736, 18446744069414541057, 18446743863287611441, 18446744069384175617, 206189887440, 18446744069373689857, 13835304342665560061, 2305843008676823037, 13834811761456316413, 6917529026030469115),
    ensures
        lanes16(step(7, c), 16215210393922467841, 18417752172589940737, 9797580924920536833, 18446743163176484865, 2236037154859354112, 28991948364251136, 8644659424608641280, 545460846592, 13835304136538587181, 18446740633410339617, 16141956798090313680, 18446744069283512321, 4611439520622051380, 3435943427296, 2304787683704045521, 49283072),
{
    reveal(lanes16);
    lemma_reduce(step_raw(7, c, 0), 0, 16215210393922467841);
    lemma_reduce(step_raw(7, c, 1), 1099511627519, 18417752172589940737);
    lemma_reduce(step_raw(7, c, 2), 2233751330315327744, 9797580924920536833);
    lemma_reduce(step_raw(7, c, 3), 16777216, 18446743163176484865);
    lemma_reduce(step_raw(7, c, 4), -1, 2236037154859354112);
    lemma_reduce(step_raw(7, c, 5), -1099511627520, 28991948364251136);
    lemma_reduce(step_raw(7, c, 6), -2233751330315327743, 8644659424608641280);
    lemma_reduce(step_raw(7, c, 7), -16777215, 545460846592);
    lemma_reduce(step_raw(7, c, 8), 1, 13835304136538587181);
    lemma_reduce(step_raw(7, c, 9), 137438953440, 18446740633410339617);
    lemma_reduce(step_raw(7, c, 10), 13834600658981879805, 16141956798090313680);
    lemma_reduce(step_raw(7, c, 11), 6291456, 18446744069283512321);
    lemma_reduce(step_raw(7, c, 12), 0, 4611439520622051380);
    lemma_reduce(step_raw(7, c, 13), -137438953439, 3435943427296);
    lemma_reduce(step_raw(7, c, 14), -13834600658981879806, 2304787683704045521);
    lemma_reduce(step_raw(7, c, 15), -6291455, 49283072);
}

/// Stage 8 on column 11.
proof fn lemma_column_11_stage_8(c: Seq<int>)
    requires
        lanes16(c, 16215210393922467841, 18417752172589940737, 9797580924920536833, 18446743163176484865, 2236037154859354112, 28991948364251136, 8644659424608641280, 545460846592, 13835304136538587181, 18446740633410339617, 16141956798090313680, 18446744069283512321, 4611439520622051380, 3435943427296, 2304787683704045521, 49283072),
    ensures
        lanes16(step(8, c), 11603770461046470701, 16328081945490043393, 7491684177549991903, 18446743700047396865, 18375880622847003104, 3631871650260640512, 12103947580051285184, 13229869363167232, 2379906257383880660, 2060678330275253760, 12103477672291081763, 18446742626305572865, 4542937756286289441, 14872856315882446081, 5185371269165997376, 18433515290973110273),
{
    reveal(lanes16);
    lemma_reduce(step_raw(8, c, 0), 1, 11603770461046470701);
    lemma_reduce(step_raw(8, c, 1), 68719463936, 16328081945490043393);
    lemma_reduce(step_raw(8, c, 2), 962135600930, 7491684177549991903);
    lemma_reduce(step_raw(8, c, 3), 18446744069283508225, 18446743700047396865);
    lemma_reduce(step_raw(8, c, 4), 4611369155639115348, 18375880622847003104);
    lemma_reduce(step_raw(8, c, 5), 3435104573920, 3631871650260640512);
    lemma_reduce(step_raw(8, c, 6), 2096192, 12103947580051285184);
    lemma_reduce(step_raw(8, c, 7), 3080192, 13229869363167232);
    lemma_reduce(step_raw(8, c, 8), 0, 2379906257383880660);
    lemma_reduce(step_raw(8, c, 9), -68719463935, 2060678330275253760);
    lemma_reduce(step_raw(8, c, 10), -962135600930, 12103477672291081763);
    lemma_reduce(step_raw(8, c, 11), -18446744069283508225, 18446742626305572865);
    lemma_reduce(step_raw(8, c, 12), -4611369155639115349, 4542937756286289441);
    lemma_reduce(step_raw(8, c, 13), -3435104573921, 14872856315882446081);
    lemma_reduce(step_raw(8, c, 14), -2096192, 5185371269165997376);
    lemma_reduce(step_raw(8, c, 15), -3080193, 18433515290973110273);
}

/// The lanes of unit vector 11.
proof fn lemma_column_11_first()
    ensures
        lanes16(basis(11, 16), 0, 0, 0, 0, 0, 0, 0, 0, 0, 0, 0, 1, 0, 0, 0, 0),
{
    reveal(lanes16);
}

/// The lanes that the last stage leaves for unit vector 11 are column 11 of the matrix.
proof fn lemma_column_11_last(c: Seq<int>)
    requires
        lanes16(c, 11603770461046470701, 16328081945490043393, 7491684177549991903, 18446743700047396865, 18375880622847003104, 3631871650260640512, 12103947580051285184, 13229869363167232, 2379906257383880660, 2060678330275253760, 12103477672291081763, 18446742626305572865, 4542937756286289441, 14872856315882446081, 5185371269165997376, 18433515290973110273),
    ensures
        is_mds_column(c, 11),
{
    reveal(lanes16);
}

/// Column 11 of the matrix that the transform applies.
proof fn lemma_column_11()
    ensures
        is_mds_column(run(9, basis(11, 16)), 11),
{
    let c0 = basis(11, 16);
    lemma_column_11_first();
    lemma_column_11_stage_0(c0);
    let c1 = step(0, c0);
    lemma_column_11_stage_1(c1);
    let c2 = step(1, c1);
    lemma_column_11_stage_2(c2);
    let c3 = step(2, c2);
    lemma_column_11_stage_3(c3);
    let c4 = step(3, c3);
    lemma_column_11_stage_4(c4);
    let c5 = step(4, c4);
    lemma_column_11_stage_5(c5);
    let c6 = step(5, c5);
    lemma_column_11_stage_6(c6);
    let c7 = step(6, c6);
    lemma_column_11_stage_7(c7);
    let c8 = step(7, c7);
    lemma_column_11_stage_8(c8);
    let c9 = step(8, c8);
    lemma_column_11_last(c9);
    assert(run(9, c0) == c9) by {
        reveal_with_fuel(run, 10);
    }
}

/// Stage 0 on column 12.
proof fn lemma_column_12_stage_0(c: Seq<int>)
    requires
        lanes16(c, 0, 0, 0, 0, 0, 0, 0, 0, 0, 0, 0, 0, 1, 0, 0, 0),
    ensures
        lanes16(step(0, c), 0, 0, 0, 0, 1, 0, 0, 0, 0, 0, 0, 0, 18446744069414584320, 0, 0, 0),
{
    reveal(lanes16);
    lemma_reduce(step_raw(0, c, 0), 0, 0);
    lemma_reduce(step_raw(0, c, 1), 0, 0);
    lemma_reduce(step_raw(0, c, 2), 0, 0);
    lemma_reduce(step_raw(0, c, 3), 0, 0);
    lemma_reduce(step_raw(0, c, 4), 0, 1);
    lemma_reduce(step_raw(0, c, 5), 0, 0);
    lemma_reduce(step_raw(0, c, 6), 0, 0);
    lemma_reduce(step_raw(0, c, 7), 0, 0);
    lemma_reduce(step_raw(0, c, 8), 0, 0);
    lemma_reduce(step_raw(0, c, 9), 0, 0);
    lemma_reduce(step_raw(0, c, 10), 0, 0);
    lemma_reduce(step_raw(0, c, 11), 0, 0);
    lemma_reduce(step_raw(0, c, 12), -1, 18446744069414584320);
    lemma_reduce(step_raw(0, c, 13), 0, 0);
    lemma_reduce(step_raw(0, c, 14), 0, 0);
    lemma_reduce(step_raw(0, c, 15), 0, 0);
}

/// Stage 1 on column 12.
proof fn lemma_column_12_stage_1(c: Seq<int>)
    requires
        lanes16(c, 0, 0, 0, 0, 1, 0, 0, 0, 0, 0, 0, 0, 18446744069414584320, 0, 0, 0),
    ensures
        lanes16(step(1, c), 1, 0, 0, 0, 18446744069414584320, 0, 0, 0, 18446462594437873665, 0, 0, 0, 281474976710656, 0, 0, 0),
{
    reveal(lanes16);
    lemma_reduce(step_raw(1, c, 0), 0, 1);
    lemma_reduce(step_raw(1, c, 1), 0, 0);
    lemma_reduce(step_raw(1, c, 2), 0, 0);
    lemma_reduce(step_raw(1, c, 3), 0, 0);
    lemma_reduce(step_raw(1, c, 4), -1, 18446744069414584320);
    lemma_reduce(step_raw(1, c, 5), 0, 0);
    lemma_reduce(step_raw(1, c, 6), 0, 0);
    lemma_reduce(step_raw(1, c, 7), 0, 0);
    lemma_reduce(step_raw(1, c, 8), 281474976710655, 18446462594437873665);
    lemma_reduce(step_raw(1, c, 9), 0, 0);
    lemma_reduce(step_raw(1, c, 10), 0, 0);
    lemma_reduce(step_raw(1, c, 11), 0, 0);
    lemma_reduce(step_raw(1, c, 12), -281474976710656, 281474976710656);
    lemma_reduce(step_raw(1, c, 13), 0, 0);
    lemma_reduce(step_raw(1, c, 14), 0, 0);
    lemma_reduce(step_raw(1, c, 15), 0, 0);
}

/// Stage 2 on column 12.
proof fn lemma_column_12_stage_2(c: Seq<int>)
    requires
        lanes16(c, 1, 0, 0, 0, 18446744069414584320, 0, 0, 0, 18446462594437873665, 0, 0, 0, 281474976710656, 0, 0, 0),
    ensures
        lanes16(step(2, c), 1, 0, 1, 0, 18446744069414584320, 0, 18446744069414584320, 0, 18446462594437873665, 0, 18446462594437873665, 0, 281474976710656, 0, 281474976710656, 0),
{
    reveal(lanes16);
    lemma_reduce(step_raw(2, c, 0), 0, 1);
    lemma_reduce(step_raw(2, c, 1), 0, 0);
    lemma_reduce(step_raw(2, c, 2), 0, 1);
    lemma_reduce(step_raw(2, c, 3), 0, 0);
    lemma_reduce(step_raw(2, c, 4), 0, 18446744069414584320);
    lemma_reduce(step_raw(2, c, 5), 0, 0);
    lemma_reduce(step_raw(2, c, 6), 0, 18446744069414584320);
    lemma_reduce(step_raw(2, c, 7), 0, 0);
    lemma_reduce(step_raw(2, c, 8), 0, 18446462594437873665);
    lemma_reduce(step_raw(2, c, 9), 0, 0);
    lemma_reduce(step_raw(2, c, 10), 0, 18446462594437873665);
    lemma_reduce(step_raw(2, c, 11), 0, 0);
    lemma_reduce(step_raw(2, c, 12), 0, 281474976710656);
    lemma_reduce(step_raw(2, c, 13), 0, 0);
    lemma_reduce(step_raw(2, c, 14), 0, 281474976710656);
    lemma_reduce(step_raw(2, c, 15), 0, 0);
}

/// Stage 3 on column 12.
proof fn lemma_column_12_stage_3(c: Seq<int>)
    requires
        lanes16(c, 1, 0, 1, 0, 18446744069414584320, 0, 18446744069414584320, 0, 18446462594437873665, 0, 18446462594437873665, 0, 281474976710656, 0, 281474976710656, 0),
    ensures
        lanes16(step(3, c), 1, 1, 1, 1, 18446744069414584320, 18446744069414584320, 18446744069414584320, 18446744069414584320, 18446462594437873665, 18446462594437873665, 18446462594437873665, 18446462594437873665, 281474976710656, 281474976710656, 281474976710656, 281474976710656),
{
    reveal(lanes16);
    lemma_reduce(step_raw(3, c, 0), 0, 1);
    lemma_reduce(step_raw(3, c, 1), 0, 1);
    lemma_reduce(step_raw(3, c, 2), 0, 1);
    lemma_reduce(step_raw(3, c, 3), 0, 1);
    lemma_reduce(step_raw(3, c, 4), 0, 18446744069414584320);
    lemma_reduce(step_raw(3, c, 5), 0, 18446744069414584320);
    lemma_reduce(step_raw(3, c, 6), 0, 18446744069414584320);
    lemma_reduce(step_raw(3, c, 7), 0, 18446744069414584320);
    lemma_reduce(step_raw(3, c, 8), 0, 18446462594437873665);
    lemma_reduce(step_raw(3, c, 9), 0, 18446462594437873665);
    lemma_reduce(step_raw(3, c, 10), 0, 18446462594437873665);
    lemma_reduce(step_raw(3, c, 11), 0, 18446462594437873665);
    lemma_reduce(step_raw(3, c, 12), 0, 281474976710656);
    lemma_reduce(step_raw(3, c, 13), 0, 281474976710656);
    lemma_reduce(step_raw(3, c, 14), 0, 281474976710656);
    lemma_reduce(step_raw(3, c, 15), 0, 281474976710656);
}

/// Stage 4 on column 12.
proof fn lemma_column_12_stage_4(c: Seq<int>)
    requires
        lanes16(c, 1, 1, 1, 1, 18446744069414584320, 18446744069414584320, 18446744069414584320, 18446744069414584320, 18446462594437873665, 18446462594437873665, 18446462594437873665, 18446462594437873665, 281474976710656, 281474976710656, 281474976710656, 281474976710656),
    ensures
        lanes16(step(4, c), 18446744000695107585, 18446744060824649729, 18446744000695107585, 18446744035054845953, 34359738368, 549755813888, 4294967296, 137438953472, 562949953290240, 9007199252643840, 281474976645120, 1125899906580480, 18428729670909296641, 18445618169508003841, 18442240469788262401, 18446181119461294081),
{
    reveal(lanes16);
    lemma_reduce(step_raw(4, c, 0), 15, 18446744000695107585);
    lemma_reduce(step_raw(4, c, 1), 1, 18446744060824649729);
    lemma_reduce(step_raw(4, c, 2), 15, 18446744000695107585);
    lemma_reduce(step_raw(4, c, 3), 7, 18446744035054845953);
    lemma_reduce(step_raw(4, c, 4), 147573952520956936192, 34359738368);
    lemma_reduce(step_raw(4, c, 5), 2361183240335310979072, 549755813888);
    lemma_reduce(step_raw(4, c, 6), 18446744065119617024, 4294967296);
    lemma_reduce(step_raw(4, c, 7), 590295810083827744768, 137438953472);
    lemma_reduce(step_raw(4, c, 8), 36892925180285943810, 562949953290240);
    lemma_reduce(step_raw(4, c, 9), 590286802884575100960, 9007199252643840);
    lemma_reduce(step_raw(4, c, 10), 18446462590142971905, 281474976645120);
    lemma_reduce(step_raw(4, c, 11), 73785850360571887620, 1125899906580480);
    lemma_reduce(step_raw(4, c, 12), 18014398505287679, 18428729670909296641);
    lemma_reduce(step_raw(4, c, 13), 1125899906580479, 18445618169508003841);
    lemma_reduce(step_raw(4, c, 14), 4503599626321919, 18442240469788262401);
    lemma_reduce(step_raw(4, c, 15), 562949953290239, 18446181119461294081);
}

/// Stage 5 on column 12.
proof fn lemma_column_12_stage_5(c: Seq<int>)
    requires
        lanes16(c, 18446744000695107585, 18446744060824649729, 18446744000695107585, 18446744035054845953, 34359738368, 549755813888, 4294967296, 137438953472, 562949953290240, 9007199252643840, 281474976645120, 1125899906580480, 18428729670909296641, 18445618169508003841, 18442240469788262401, 18446181119461294081),
    ensures
        lanes16(step(5, c), 18446743992105172993, 18446744009285042177, 18446743966335369217, 18446744035054845953, 584115552256, 18446743554018508801, 141733920768, 18446743936270598145, 9570149205934080, 18438299820115230721, 1407374883225600, 18445899644484648961, 18427603771002716161, 18429855570815877121, 18441677519834972161, 18442803419741552641),
{
    reveal(lanes16);
    lemma_reduce(step_raw(5, c, 0), 1, 18446743992105172993);
    lemma_reduce(step_raw(5, c, 1), -1, 18446744009285042177);
    lemma_reduce(step_raw(5, c, 2), 1, 18446743966335369217);
    lemma_reduce(step_raw(5, c, 3), -1, 18446744035054845953);
    lemma_reduce(step_raw(5, c, 4), 0, 584115552256);
    lemma_reduce(step_raw(5, c, 5), -1, 18446743554018508801);
    lemma_reduce(step_raw(5, c, 6), 0, 141733920768);
    lemma_reduce(step_raw(5, c, 7), -1, 18446743936270598145);
    lemma_reduce(step_raw(5, c, 8), 0, 9570149205934080);
    lemma_reduce(step_raw(5, c, 9), -1, 18438299820115230721);
    lemma_reduce(step_raw(5, c, 10), 0, 1407374883225600);
    lemma_reduce(step_raw(5, c, 11), -1, 18445899644484648961);
    lemma_reduce(step_raw(5, c, 12), 1, 18427603771002716161);
    lemma_reduce(step_raw(5, c, 13), -1, 18429855570815877121);
    lemma_reduce(step_raw(5, c, 14), 1, 18441677519834972161);
    lemma_reduce(step_raw(5, c, 15), -1, 18442803419741552641);
}

/// Stage 6 on column 12.
proof fn lemma_column_12_stage_6(c: Seq<int>)
    requires
        lanes16(c, 18446743992105172993, 18446744009285042177, 18446743966335369217, 18446744035054845953, 584115552256, 18446743554018508801, 141733920768, 18446743936270598145, 9570149205934080, 18438299820115230721, 1407374883225600, 18445899644484648961, 18427603771002716161, 18429855570815877121, 18441677519834972161, 18442803419741552641),
    ensures
        lanes16(step(6, c), 18446743889025957889, 2251739683618816, 25769803776, 18444492209471881217, 725849473024, 8725208879923200, 442381631488, 18438017829742510081, 10977524089159680, 18438299807230328833, 8162774322708480, 18438299833000132609, 18422537221423104001, 18429855510686334977, 18432670320582328321, 18429855630945419265),
{
    reveal(lanes16);
    lemma_reduce(step_raw(6, c, 0), 1, 18446743889025957889);
    lemma_reduce(step_raw(6, c, 1), 18446462560078659586, 2251739683618816);
    lemma_reduce(step_raw(6, c, 2), 0, 25769803776);
    lemma_reduce(step_raw(6, c, 3), -18446462560078659585, 18444492209471881217);
    lemma_reduce(step_raw(6, c, 4), 0, 725849473024);
    lemma_reduce(step_raw(6, c, 5), 18446462461295919106, 8725208879923200);
    lemma_reduce(step_raw(6, c, 6), 0, 442381631488);
    lemma_reduce(step_raw(6, c, 7), -18446462461295919105, 18438017829742510081);
    lemma_reduce(step_raw(6, c, 8), 0, 10977524089159680);
    lemma_reduce(step_raw(6, c, 9), 18445618182392840193, 18438299807230328833);
    lemma_reduce(step_raw(6, c, 10), 0, 8162774322708480);
    lemma_reduce(step_raw(6, c, 11), -18445618182392840193, 18438299833000132609);
    lemma_reduce(step_raw(6, c, 12), 1, 18422537221423104001);
    lemma_reduce(step_raw(6, c, 13), 18442522004894384129, 18429855510686334977);
    lemma_reduce(step_raw(6, c, 14), -1, 18432670320582328321);
    lemma_reduce(step_raw(6, c, 15), -18442522004894384129, 18429855630945419265);
}

/// Stage 7 on column 12.
proof fn lemma_column_12_stage_7(c: Seq<int>)
    requires
        lanes16(c, 18446743889025957889, 2251739683618816, 25769803776, 18444492209471881217, 725849473024, 8725208879923200, 442381631488, 18438017829742510081, 10977524089159680, 18438299807230328833, 8162774322708480, 18438299833000132609, 18422537221423104001, 18429855510686334977, 18432670320582328321, 18429855630945419265),
    ensures
        lanes16(step(7, c), 545460846592, 16215210393922467841, 18417752172589940737, 9797580924920536833, 18446743163176484865, 2236037154859354112, 28991948364251136, 8644659424608641280, 18433514745512263681, 4315011380091424256, 8162559574343680, 1000362080116554752, 35184372080640000, 14114844164954649089, 8162989071073280, 17429493516469126145),
{
    reveal(lanes16);
    lemma_reduce(step_raw(7, c, 0), 1, 545460846592);
    lemma_reduce(step_raw(7, c, 1), 520062975, 16215210393922467841);
    lemma_reduce(step_raw(7, c, 2), 442374881279, 18417752172589940737);
    lemma_reduce(step_raw(7, c, 3), 16769280, 9797580924920536833);
    lemma_reduce(step_raw(7, c, 4), 0, 18446743163176484865);
    lemma_reduce(step_raw(7, c, 5), -520062976, 2236037154859354112);
    lemma_reduce(step_raw(7, c, 6), -442374881280, 28991948364251136);
    lemma_reduce(step_raw(7, c, 7), -16769279, 8644659424608641280);
    lemma_reduce(step_raw(7, c, 8), 0, 18433514745512263681);
    lemma_reduce(step_raw(7, c, 9), 1098504990977, 4315011380091424256);
    lemma_reduce(step_raw(7, c, 10), 18432389060353982465, 8162559574343680);
    lemma_reduce(step_raw(7, c, 11), 16761857, 1000362080116554752);
    lemma_reduce(step_raw(7, c, 12), -1, 35184372080640000);
    lemma_reduce(step_raw(7, c, 13), -1098504990976, 14114844164954649089);
    lemma_reduce(step_raw(7, c, 14), -18432389060353982465, 8162989071073280);
    lemma_reduce(step_raw(7, c, 15), -16761856, 17429493516469126145);
}

/// Stage 8 on column 12.
proof fn lemma_column_12_stage_8(c: Seq<int>)
    requires
        lanes16(c, 545460846592, 16215210393922467841, 18417752172589940737, 9797580924920536833, 18446743163176484865, 2236037154859354112, 28991948364251136, 8644659424608641280, 18433514745512263681, 4315011380091424256, 8162559574343680, 1000362080116554752, 35184372080640000, 14114844164954649089, 8162989071073280, 17429493516469126145),
    ensures
        lanes16(step(8, c), 18433515290973110273, 11603770461046470701, 16328081945490043393, 7491684177549991903, 18446743700047396865, 18375880622847003104, 3631871650260640512, 12103947580051285184, 13229869363167232, 2379906257383880660, 2060678330275253760, 12103477672291081763, 18446742626305572865, 4542937756286289441, 14872856315882446081, 5185371269165997376),
{
    reveal(lanes16);
    lemma_reduce(step_raw(8, c, 0), 0, 18433515290973110273);
    lemma_reduce(step_raw(8, c, 1), 16074670036, 11603770461046470701);
    lemma_reduce(step_raw(8, c, 2), 486526464, 16328081945490043393);
    lemma_reduce(step_raw(8, c, 3), 1000362080116554530, 7491684177549991903);
    lemma_reduce(step_raw(8, c, 4), 35183835209728000, 18446743700047396865);
    lemma_reduce(step_raw(8, c, 5), 14111398158078439457, 18375880622847003104);
    lemma_reduce(step_raw(8, c, 6), 7424, 3631871650260640512);
    lemma_reduce(step_raw(8, c, 7), 1089343345032952896, 12103947580051285184);
    lemma_reduce(step_raw(8, c, 8), -1, 13229869363167232);
    lemma_reduce(step_raw(8, c, 9), -16074670035, 2379906257383880660);
    lemma_reduce(step_raw(8, c, 10), -486526463, 2060678330275253760);
    lemma_reduce(step_raw(8, c, 11), -1000362080116554530, 12103477672291081763);
    lemma_reduce(step_raw(8, c, 12), -35183835209728000, 18446742626305572865);
    lemma_reduce(step_raw(8, c, 13), -14111398158078439458, 4542937756286289441);
    lemma_reduce(step_raw(8, c, 14), -7425, 14872856315882446081);
    lemma_reduce(step_raw(8, c, 15), -1089343345032952896, 5185371269165997376);
}

/// The lanes of unit vector 12.
proof fn lemma_column_12_first()
    ensures
        lanes16(basis(12, 16), 0, 0, 0, 0, 0, 0, 0, 0, 0, 0, 0, 0, 1, 0, 0, 0),
{
    reveal(lanes16);
}

/// The lanes that the last stage leaves for unit vector 12 are column 12 of the matrix.
proof fn lemma_column_12_last(c: Seq<int>)
    requires
        lanes16(c, 18433515290973110273, 11603770461046470701, 16328081945490043393, 7491684177549991903, 18446743700047396865, 18375880622847003104, 3631871650260640512, 12103947580051285184, 13229869363167232, 2379906257383880660, 2060678330275253760, 12103477672291081763, 18446742626305572865, 4542937756286289441, 14872856315882446081, 5185371269165997376),
    ensures
        is_mds_column(c, 12),
{
    reveal(lanes16);
}

/// Column 12 of the matrix that the transform applies.
proof fn lemma_column_12()
    ensures
        is_mds_column(run(9, basis(12, 16)), 12),
{
    let c0 = basis(12, 16);
    lemma_column_12_first();
    lemma_column_12_stage_0(c0);
    let c1 = step(0, c0);
    lemma_column_12_stage_1(c1);
    let c2 = step(1, c1);
    lemma_column_12_stage_2(c2);
    let c3 = step(2, c2);
    lemma_column_12_stage_3(c3);
    let c4 = step(3, c3);
    lemma_column_12_stage_4(c4);
    let c5 = step(4, c4);
    lemma_column_12_stage_5(c5);
    let c6 = step(5, c5);
    lemma_column_12_stage_6(c6);
    let c7 = step(6, c6);
    lemma_column_12_stage_7(c7);
    let c8 = step(7, c7);
    lemma_column_12_stage_8(c8);
    let c9 = step(8, c8);
    lemma_column_12_last(c9);
    assert(run(9, c0) == c9) by {
        reveal_with_fuel(run, 10);
    }
}

/// Stage 0 on column 13.
proof fn lemma_column_13_stage_0(c: Seq<int>)
    requires
        lanes16(c, 0, 0, 0, 0, 0, 0, 0, 0, 0, 0, 0, 0, 0, 1, 0, 0),
    ensures
        lanes16(step(0, c), 0, 0, 0, 0, 0, 1, 0, 0, 0, 0, 0, 0, 0, 18446744069414584320, 0, 0),
{
    reveal(lanes16);
    lemma_reduce(step_raw(0, c, 0), 0, 0);
    lemma_reduce(step_raw(0, c, 1), 0, 0);
    lemma_reduce(step_raw(0, c, 2), 0, 0);
    lemma_reduce(step_raw(0, c, 3), 0, 0);
    lemma_reduce(step_raw(0, c, 4), 0, 0);
    lemma_reduce(step_raw(0, c, 5), 0, 1);
    lemma_reduce(step_raw(0, c, 6), 0, 0);
    lemma_reduce(step_raw(0, c, 7), 0, 0);
    lemma_reduce(step_raw(0, c, 8), 0, 0);
    lemma_reduce(step_raw(0, c, 9), 0, 0);
    lemma_reduce(step_raw(0, c, 10), 0, 0);
    lemma_reduce(step_raw(0, c, 11), 0, 0);
    lemma_reduce(step_raw(0, c, 12), 0, 0);
    lemma_reduce(step_raw(0, c, 13), -1, 18446744069414584320);
    lemma_reduce(step_raw(0, c, 14), 0, 0);
    lemma_reduce(step_raw(0, c, 15), 0, 0);
}

/// Stage 1 on column 13.
proof fn lemma_column_13_stage_1(c: Seq<int>)
    requires
        lanes16(c, 0, 0, 0, 0, 0, 1, 0, 0, 0, 0, 0, 0, 0, 18446744069414584320, 0, 0),
    ensures
        lanes16(step(1, c), 0, 1, 0, 0, 0, 18446744069414584320, 0, 0, 0, 18446462594437873665, 0, 0, 0, 281474976710656, 0, 0),
{
    reveal(lanes16);
    lemma_reduce(step_raw(1, c, 0), 0, 0);
    lemma_reduce(step_raw(1, c, 1), 0, 1);
    lemma_reduce(step_raw(1, c, 2), 0, 0);
    lemma_reduce(step_raw(1, c, 3), 0, 0);
    lemma_reduce(step_raw(1, c, 4), 0, 0);
    lemma_reduce(step_raw(1, c, 5), -1, 18446744069414584320);
    lemma_reduce(step_raw(1, c, 6), 0, 0);
    lemma_reduce(step_raw(1, c, 7), 0, 0);
    lemma_reduce(step_raw(1, c, 8), 0, 0);
    lemma_reduce(step_raw(1, c, 9), 281474976710655, 18446462594437873665);
    lemma_reduce(step_raw(1, c, 10), 0, 0);
    lemma_reduce(step_raw(1, c, 11), 0, 0);
    lemma_reduce(step_raw(1, c, 12), 0, 0);
    lemma_reduce(step_raw(1, c, 13), -281474976710656, 281474976710656);
    lemma_reduce(step_raw(1, c, 14), 0, 0);
    lemma_reduce(step_raw(1, c, 15), 0, 0);
}

/// Stage 2 on column 13.
proof fn lemma_column_13_stage_2(c: Seq<int>)
    requires
        lanes16(c, 0, 1, 0, 0, 0, 18446744069414584320, 0, 0, 0, 18446462594437873665, 0, 0, 0, 281474976710656, 0, 0),
    ensures
        lanes16(step(2, c), 0, 1, 0, 1, 0, 18446744069414584320, 0, 18446744069414584320, 0, 18446462594437873665, 0, 18446462594437873665, 0, 281474976710656, 0, 281474976710656),
{
    reveal(lanes16);
    lemma_reduce(step_raw(2, c, 0), 0, 0);
    lemma_reduce(step_raw(2, c, 1), 0, 1);
    lemma_reduce(step_raw(2, c, 2), 0, 0);
    lemma_reduce(step_raw(2, c, 3), 0, 1);
    lemma_reduce(step_raw(2, c, 4), 0, 0);
    lemma_reduce(step_raw(2, c, 5), 0, 18446744069414584320);
    lemma_reduce(step_raw(2, c, 6), 0, 0);
    lemma_reduce(step_raw(2, c, 7), 0, 18446744069414584320);
    lemma_reduce(step_raw(2, c, 8), 0, 0);
    lemma_reduce(step_raw(2, c, 9), 0, 18446462594437873665);
    lemma_reduce(step_raw(2, c, 10), 0, 0);
    lemma_reduce(step_raw(2, c, 11), 0, 18446462594437873665);
    lemma_reduce(step_raw(2, c, 12), 0, 0);
    lemma_reduce(step_raw(2, c, 13), 0, 281474976710656);
    lemma_reduce(step_raw(2, c, 14), 0, 0);
    lemma_reduce(step_raw(2, c, 15), 0, 281474976710656);
}

/// Stage 3 on column 13.
proof fn lemma_column_13_stage_3(c: Seq<int>)
    requires
        lanes16(c, 0, 1, 0, 1, 0, 18446744069414584320, 0, 18446744069414584320, 0, 18446462594437873665, 0, 18446462594437873665, 0, 281474976710656, 0, 281474976710656),
    ensures
        lanes16(step(3, c), 1, 18446744069414584320, 281474976710656, 18446462594437873665, 16777216, 18446744069397807105, 1099511627520, 18446742969902956801, 18446744069414580225, 4096, 17293822564807737345, 1152921504606846976, 18446744000695107585, 68719476736, 18442240469788262401, 4503599626321920),
{
    reveal(lanes16);
    lemma_reduce(step_raw(3, c, 0), 0, 1);
    lemma_reduce(step_raw(3, c, 1), -1, 18446744069414584320);
    lemma_reduce(step_raw(3, c, 2), 0, 281474976710656);
    lemma_reduce(step_raw(3, c, 3), -1, 18446462594437873665);
    lemma_reduce(step_raw(3, c, 4), 18446744069397807104, 16777216);
    lemma_reduce(step_raw(3, c, 5), -18446744069397807105, 18446744069397807105);
    lemma_reduce(step_raw(3, c, 6), 18446742969902956800, 1099511627520);
    lemma_reduce(step_raw(3, c, 7), -18446742969902956801, 18446742969902956801);
    lemma_reduce(step_raw(3, c, 8), 17293558682017075200, 18446744069414580225);
    lemma_reduce(step_raw(3, c, 9), -17293558682017075201, 4096);
    lemma_reduce(step_raw(3, c, 10), 4095, 17293822564807737345);
    lemma_reduce(step_raw(3, c, 11), -4096, 1152921504606846976);
    lemma_reduce(step_raw(3, c, 12), 68719476735, 18446744000695107585);
    lemma_reduce(step_raw(3, c, 13), -68719476736, 68719476736);
    lemma_reduce(step_raw(3, c, 14), 281474975662079, 18442240469788262401);
    lemma_reduce(step_raw(3, c, 15), -281474975662080, 4503599626321920);
}

/// Stage 4 on column 13.
proof fn lemma_column_13_stage_4(c: Seq<int>)
    requires
        lanes16(c, 1, 18446744069414584320, 281474976710656, 18446462594437873665, 16777216, 18446744069397807105, 1099511627520, 18446742969902956801, 18446744069414580225, 4096, 17293822564807737345, 1152921504606846976, 18446744000695107585, 68719476736, 18442240469788262401, 4503599626321920),
    ensures
        lanes16(step(4, c), 18446744000695107585, 8589934592, 18442240469788262401, 2251799813160960, 17870283317111160833, 9223372036854775808, 256, 18446744069414576129, 35184372088832, 18446181119461163009, 1152921504338411520, 13835058052060938241, 4398046510080, 18446743794536677441, 18446744069397807105, 2097152),
{
    reveal(lanes16);
    lemma_reduce(step_raw(4, c, 0), 15, 18446744000695107585);
    lemma_reduce(step_raw(4, c, 1), 36893488130239234048, 8589934592);
    lemma_reduce(step_raw(4, c, 2), 4503599626321919, 18442240469788262401);
    lemma_reduce(step_raw(4, c, 3), 147571700721143775240, 2251799813160960);
    lemma_reduce(step_raw(4, c, 4), 134217727, 17870283317111160833);
    lemma_reduce(step_raw(4, c, 5), 2361183240333163495552, 9223372036854775808);
    lemma_reduce(step_raw(4, c, 6), 1099511627264, 256);
    lemma_reduce(step_raw(4, c, 7), 590295774899455672351, 18446744069414576129);
    lemma_reduce(step_raw(4, c, 8), 36893488130239225858, 35184372088832);
    lemma_reduce(step_raw(4, c, 9), 131071, 18446181119461163009);
    lemma_reduce(step_raw(4, c, 10), 17293822560781205505, 1152921504338411520);
    lemma_reduce(step_raw(4, c, 11), 4611686017353646079, 13835058052060938241);
    lemma_reduce(step_raw(4, c, 12), 1180591615769608979520, 4398046510080);
    lemma_reduce(step_raw(4, c, 13), 274877906879, 18446743794536677441);
    lemma_reduce(step_raw(4, c, 14), 295075847447909498895, 18446744069397807105);
    lemma_reduce(step_raw(4, c, 15), 9007199250546688, 2097152);
}

/// Stage 5 on column 13.
proof fn lemma_column_13_stage_5(c: Seq<int>)
    requires
        lanes16(c, 18446744000695107585, 8589934592, 18442240469788262401, 2251799813160960, 17870283317111160833, 9223372036854775808, 256, 18446744069414576129, 35184372088832, 18446181119461163009, 1152921504338411520, 13835058052060938241, 4398046510080, 18446743794536677441, 18446744069397807105, 2097152),
    ensures
        lanes16(step(5, c), 18446744009285042177, 18446743992105172993, 18444492269601423361, 18439988669975101441, 8646911284551352320, 8646911280256385025, 18446744069414576385, 8448, 18446216303833251841, 598134325510144, 14987979556399349761, 5764607521692057600, 4123168603200, 4672924416960, 18446744069399904257, 18446744069395709953),
{
    reveal(lanes16);
    lemma_reduce(step_raw(5, c, 0), 0, 18446744009285042177);
    lemma_reduce(step_raw(5, c, 1), 0, 18446743992105172993);
    lemma_reduce(step_raw(5, c, 2), 0, 18444492269601423361);
    lemma_reduce(step_raw(5, c, 3), 0, 18439988669975101441);
    lemma_reduce(step_raw(5, c, 4), 1, 8646911284551352320);
    lemma_reduce(step_raw(5, c, 5), 0, 8646911280256385025);
    lemma_reduce(step_raw(5, c, 6), 0, 18446744069414576385);
    lemma_reduce(step_raw(5, c, 7), -1, 8448);
    lemma_reduce(step_raw(5, c, 8), 0, 18446216303833251841);
    lemma_reduce(step_raw(5, c, 9), -1, 598134325510144);
    lemma_reduce(step_raw(5, c, 10), 0, 14987979556399349761);
    lemma_reduce(step_raw(5, c, 11), -1, 5764607521692057600);
    lemma_reduce(step_raw(5, c, 12), 1, 4123168603200);
    lemma_reduce(step_raw(5, c, 13), -1, 4672924416960);
    lemma_reduce(step_raw(5, c, 14), 0, 18446744069399904257);
    lemma_reduce(step_raw(5, c, 15), 0, 18446744069395709953);
}

/// Stage 6 on column 13.
proof fn lemma_column_13_stage_6(c: Seq<int>)
    requires
        lanes16(c, 18446744009285042177, 18446743992105172993, 18444492269601423361, 18439988669975101441, 8646911284551352320, 8646911280256385025, 18446744069414576385, 8448, 18446216303833251841, 598134325510144, 14987979556399349761, 5764607521692057600, 4123168603200, 4672924416960, 18446744069399904257, 18446744069395709953),
    ensures
        lanes16(step(6, c), 18444492209471881217, 18446743889025957889, 2251739683618816, 25769803776, 8646911284551344384, 6269010677004763137, 8646911284551360256, 11024811883508006913, 14987451790818017281, 686095255732224, 3458236747433902080, 510173395288064, 4123153923136, 5909874997920, 4123183283264, 3435973836000),
{
    reveal(lanes16);
    lemma_reduce(step_raw(6, c, 0), 1, 18444492209471881217);
    lemma_reduce(step_raw(6, c, 1), 18439707298077605889, 18446743889025957889);
    lemma_reduce(step_raw(6, c, 2), 0, 2251739683618816);
    lemma_reduce(step_raw(6, c, 3), -18439707298077605888, 25769803776);
    lemma_reduce(step_raw(6, c, 4), 1, 8646911284551344384);
    lemma_reduce(step_raw(6, c, 5), 8448, 6269010677004763137);
    lemma_reduce(step_raw(6, c, 6), -1, 8646911284551360256);
    lemma_reduce(step_raw(6, c, 7), -8448, 11024811883508006913);
    lemma_reduce(step_raw(6, c, 8), 1, 14987451790818017281);
    lemma_reduce(step_raw(6, c, 9), 5764519560761835520, 686095255732224);
    lemma_reduce(step_raw(6, c, 10), 0, 3458236747433902080);
    lemma_reduce(step_raw(6, c, 11), -5764519560761835520, 510173395288064);
    lemma_reduce(step_raw(6, c, 12), 1, 4123153923136);
    lemma_reduce(step_raw(6, c, 13), 18446462594418999585, 5909874997920);
    lemma_reduce(step_raw(6, c, 14), -1, 4123183283264);
    lemma_reduce(step_raw(6, c, 15), -18446462594418999585, 3435973836000);
}

/// Stage 7 on column 13.
proof fn lemma_column_13_stage_7(c: Seq<int>)
    requires
        lanes16(c, 18444492209471881217, 18446743889025957889, 2251739683618816, 25769803776, 8646911284551344384, 6269010677004763137, 8646911284551360256, 11024811883508006913, 14987451790818017281, 686095255732224, 3458236747433902080, 510173395288064, 4123153923136, 5909874997920, 4123183283264, 3435973836000),
    ensures
        lanes16(step(7, c), 8644659424608641280, 545460846592, 16215210393922467841, 18417752172589940737, 9797580924920536833, 18446743163176484865, 2236037154859354112, 28991948364251136, 14987455913971940417, 18445917236670496769, 3458235785424142560, 2306353182072111101, 14987447667664094145, 2199023255552000, 3458237709443661600, 16141411234133049348),
{
    reveal(lanes16);
    lemma_reduce(step_raw(7, c, 0), 1, 8644659424608641280);
    lemma_reduce(step_raw(7, c, 1), 373662154497, 545460846592);
    lemma_reduce(step_raw(7, c, 2), 8646779343155996415, 16215210393922467841);
    lemma_reduce(step_raw(7, c, 3), 10027007, 18417752172589940737);
    lemma_reduce(step_raw(7, c, 4), 0, 9797580924920536833);
    lemma_reduce(step_raw(7, c, 5), -373662154496, 18446743163176484865);
    lemma_reduce(step_raw(7, c, 6), -8646779343155996416, 2236037154859354112);
    lemma_reduce(step_raw(7, c, 7), -10027008, 28991948364251136);
    lemma_reduce(step_raw(7, c, 8), 0, 14987455913971940417);
    lemma_reduce(step_raw(7, c, 9), 352255, 18445917236670496769);
    lemma_reduce(step_raw(7, c, 10), 4123120368480, 3458235785424142560);
    lemma_reduce(step_raw(7, c, 11), 3, 2306353182072111101);
    lemma_reduce(step_raw(7, c, 12), 0, 14987447667664094145);
    lemma_reduce(step_raw(7, c, 13), -352256, 2199023255552000);
    lemma_reduce(step_raw(7, c, 14), -4123120368480, 3458237709443661600);
    lemma_reduce(step_raw(7, c, 15), -4, 16141411234133049348);
}

/// Stage 8 on column 13.
proof fn lemma_column_13_stage_8(c: Seq<int>)
    requires
        lanes16(c, 8644659424608641280, 545460846592, 16215210393922467841, 18417752172589940737, 9797580924920536833, 18446743163176484865, 2236037154859354112, 28991948364251136, 14987455913971940417, 18445917236670496769, 3458235785424142560, 2306353182072111101, 14987447667664094145, 2199023255552000, 3458237709443661600, 16141411234133049348),
    ensures
        lanes16(step(8, c), 5185371269165997376, 18433515290973110273, 11603770461046470701, 16328081945490043393, 7491684177549991903, 18446743700047396865, 18375880622847003104, 3631871650260640512, 12103947580051285184, 13229869363167232, 2379906257383880660, 2060678330275253760, 12103477672291081763, 18446742626305572865, 4542937756286289441, 14872856315882446081),
{
    reveal(lanes16);
    lemma_reduce(step_raw(8, c, 0), 1, 5185371269165997376);
    lemma_reduce(step_raw(8, c, 1), 68716396543, 18433515290973110273);
    lemma_reduce(step_raw(8, c, 2), 206126915540, 11603770461046470701);
    lemma_reduce(step_raw(8, c, 3), 2306353182072110589, 16328081945490043393);
    lemma_reduce(step_raw(8, c, 4), 14987218977361494755, 7491684177549991903);
    lemma_reduce(step_raw(8, c, 5), 2198486384640000, 18446743700047396865);
    lemma_reduce(step_raw(8, c, 6), 3145248, 18375880622847003104);
    lemma_reduce(step_raw(8, c, 7), 1008838202368204032, 3631871650260640512);
    lemma_reduce(step_raw(8, c, 8), -1, 12103947580051285184);
    lemma_reduce(step_raw(8, c, 9), -68716396544, 13229869363167232);
    lemma_reduce(step_raw(8, c, 10), -206126915539, 2379906257383880660);
    lemma_reduce(step_raw(8, c, 11), -2306353182072110588, 2060678330275253760);
    lemma_reduce(step_raw(8, c, 12), -14987218977361494755, 12103477672291081763);
    lemma_reduce(step_raw(8, c, 13), -2198486384640000, 18446742626305572865);
    lemma_reduce(step_raw(8, c, 14), -3145249, 4542937756286289441);
    lemma_reduce(step_raw(8, c, 15), -1008838202368204033, 14872856315882446081);
}

/// The lanes of unit vector 13.
proof fn lemma_column_13_first()
    ensures
        lanes16(basis(13, 16), 0, 0, 0, 0, 0, 0, 0, 0, 0, 0, 0, 0, 0, 1, 0, 0),
{
    reveal(lanes16);
}

/// The lanes that the last stage leaves for unit vector 13 are column 13 of the matrix.
proof fn lemma_column_13_last(c: Seq<int>)
    requires
        lanes16(c, 5185371269165997376, 18433515290973110273, 11603770461046470701, 16328081945490043393, 7491684177549991903, 18446743700047396865, 18375880622847003104, 3631871650260640512, 12103947580051285184, 13229869363167232, 2379906257383880660, 2060678330275253760, 12103477672291081763, 18446742626305572865, 4542937756286289441, 14872856315882446081),
    ensures
        is_mds_column(c, 13),
{
    reveal(lanes16);
}

/// Column 13 of the matrix that the transform applies.
proof fn lemma_column_13()
    ensures
        is_mds_column(run(9, basis(13, 16)), 13),
{
    let c0 = basis(13, 16);
    lemma_column_13_first();
    lemma_column_13_stage_0(c0);
    let c1 = step(0, c0);
    lemma_column_13_stage_1(c1);
    let c2 = step(1, c1);
    lemma_column_13_stage_2(c2);
    let c3 = step(2, c2);
    lemma_column_13_stage_3(c3);
    let c4 = step(3, c3);
    lemma_column_13_stage_4(c4);
    let c5 = step(4, c4);
    lemma_column_13_stage_5(c5);
    let c6 = step(5, c5);
    lemma_column_13_stage_6(c6);
    let c7 = step(6, c6);
    lemma_column_13_stage_7(c7);
    let c8 = step(7, c7);
    lemma_column_13_stage_8(c8);
    let c9 = step(8, c8);
    lemma_column_13_last(c9);
    assert(run(9, c0) == c9) by {
        reveal_with_fuel(run, 10);
    }
}

/// Stage 0 on column 14.
proof fn lemma_column_14_stage_0(c: Seq<int>)
    requires
        lanes16(c, 0, 0, 0, 0, 0, 0, 0, 0, 0, 0, 0, 0, 0, 0, 1, 0),
    ensures
        lanes16(step(0, c), 0, 0, 0, 0, 0, 0, 1, 0, 0, 0, 0, 0, 0, 0, 18446744069414584320, 0),
{
    reveal(lanes16);
    lemma_reduce(step_raw(0, c, 0), 0, 0);
    lemma_reduce(step_raw(0, c, 1), 0, 0);
    lemma_reduce(step_raw(0, c, 2), 0, 0);
    lemma_reduce(step_raw(0, c, 3), 0, 0);
    lemma_reduce(step_raw(0, c, 4), 0, 0);
    lemma_reduce(step_raw(0, c, 5), 0, 0);
    lemma_reduce(step_raw(0, c, 6), 0, 1);
    lemma_reduce(step_raw(0, c, 7), 0, 0);
    lemma_reduce(step_raw(0, c, 8), 0, 0);
    lemma_reduce(step_raw(0, c, 9), 0, 0);
    lemma_reduce(step_raw(0, c, 10), 0, 0);
    lemma_reduce(step_raw(0, c, 11), 0, 0);
    lemma_reduce(step_raw(0, c, 12), 0, 0);
    lemma_reduce(step_raw(0, c, 13), 0, 0);
    lemma_reduce(step_raw(0, c, 14), -1, 18446744069414584320);
    lemma_reduce(step_raw(0, c, 15), 0, 0);
}

/// Stage 1 on column 14.
proof fn lemma_column_14_stage_1(c: Seq<int>)
    requires
        lanes16(c, 0, 0, 0, 0, 0, 0, 1, 0, 0, 0, 0, 0, 0, 0, 18446744069414584320, 0),
    ensures
        lanes16(step(1, c), 0, 0, 1, 0, 0, 0, 18446744069414584320, 0, 0, 0, 18446462594437873665, 0, 0, 0, 281474976710656, 0),
{
    reveal(lanes16);
    lemma_reduce(step_raw(1, c, 0), 0, 0);
    lemma_reduce(step_raw(1, c, 1), 0, 0);
    lemma_reduce(step_raw(1, c, 2), 0, 1);
    lemma_reduce(step_raw(1, c, 3), 0, 0);
    lemma_reduce(step_raw(1, c, 4), 0, 0);
    lemma_reduce(step_raw(1, c, 5), 0, 0);
    lemma_reduce(step_raw(1, c, 6), -1, 18446744069414584320);
    lemma_reduce(step_raw(1, c, 7), 0, 0);
    lemma_reduce(step_raw(1, c, 8), 0, 0);
    lemma_reduce(step_raw(1, c, 9), 0, 0);
    lemma_reduce(step_raw(1, c, 10), 281474976710655, 18446462594437873665);
    lemma_reduce(step_raw(1, c, 11), 0, 0);
    lemma_reduce(step_raw(1, c, 12), 0, 0);
    lemma_reduce(step_raw(1, c, 13), 0, 0);
    lemma_reduce(step_raw(1, c, 14), -281474976710656, 281474976710656);
    lemma_reduce(step_raw(1, c, 15), 0, 0);
}

/// Stage 2 on column 14.
proof fn lemma_column_14_stage_2(c: Seq<int>)
    requires
        lanes16(c, 0, 0, 1, 0, 0, 0, 18446744069414584320, 0, 0, 0, 18446462594437873665, 0, 0, 0, 281474976710656, 0),
    ensures
        lanes16(step(2, c), 1, 0, 18446744069414584320, 0, 18446462594437873665, 0, 281474976710656, 0, 1099511627520, 0, 18446742969902956801, 0, 16777216, 0, 18446744069397807105, 0),
{
    reveal(lanes16);
    lemma_reduce(step_raw(2, c, 0), 0, 1);
    lemma_reduce(step_raw(2, c, 1), 0, 0);
    lemma_reduce(step_raw(2, c, 2), -1, 18446744069414584320);
    lemma_reduce(step_raw(2, c, 3), 0, 0);
    lemma_reduce(step_raw(2, c, 4), 281474976710655, 18446462594437873665);
    lemma_reduce(step_raw(2, c, 5), 0, 0);
    lemma_reduce(step_raw(2, c, 6), -281474976710656, 281474976710656);
    lemma_reduce(step_raw(2, c, 7), 0, 0);
    lemma_reduce(step_raw(2, c, 8), 18446462594421096705, 1099511627520);
    lemma_reduce(step_raw(2, c, 9), 0, 0);
    lemma_reduce(step_raw(2, c, 10), -18446462594421096706, 18446742969902956801);
    lemma_reduce(step_raw(2, c, 11), 0, 0);
    lemma_reduce(step_raw(2, c, 12), 281474959933440, 16777216);
    lemma_reduce(step_raw(2, c, 13), 0, 0);
    lemma_reduce(step_raw(2, c, 14), -281474959933441, 18446744069397807105);
    lemma_reduce(step_raw(2, c, 15), 0, 0);
}

/// Stage 3 on column 14.
proof fn lemma_column_14_stage_3(c: Seq<int>)
    requires
        lanes16(c, 1, 0, 18446744069414584320, 0, 18446462594437873665, 0, 281474976710656, 0, 1099511627520, 0, 18446742969902956801, 0, 16777216, 0, 18446744069397807105, 0),
    ensures
        lanes16(step(3, c), 1, 1, 18446744069414584320, 18446744069414584320, 18446462594437873665, 18446462594437873665, 281474976710656, 281474976710656, 1099511627520, 1099511627520, 18446742969902956801, 18446742969902956801, 16777216, 16777216, 18446744069397807105, 18446744069397807105),
{
    reveal(lanes16);
    lemma_reduce(step_raw(3, c, 0), 0, 1);
    lemma_reduce(step_raw(3, c, 1), 0, 1);
    lemma_reduce(step_raw(3, c, 2), 0, 18446744069414584320);
    lemma_reduce(step_raw(3, c, 3), 0, 18446744069414584320);
    lemma_reduce(step_raw(3, c, 4), 0, 18446462594437873665);
    lemma_reduce(step_raw(3, c, 5), 0, 18446462594437873665);
    lemma_reduce(step_raw(3, c, 6), 0, 281474976710656);
    lemma_reduce(step_raw(3, c, 7), 0, 281474976710656);
    lemma_reduce(step_raw(3, c, 8), 0, 1099511627520);
    lemma_reduce(step_raw(3, c, 9), 0, 1099511627520);
    lemma_reduce(step_raw(3, c, 10), 0, 18446742969902956801);
    lemma_reduce(step_raw(3, c, 11), 0, 18446742969902956801);
    lemma_reduce(step_raw(3, c, 12), 0, 16777216);
    lemma_reduce(step_raw(3, c, 13), 0, 16777216);
    lemma_reduce(step_raw(3, c, 14), 0, 18446744069397807105);
    lemma_reduce(step_raw(3, c, 15), 0, 18446744069397807105);
}

/// Stage 4 on column 14.
proof fn lemma_column_14_stage_4(c: Seq<int>)
    requires
        lanes16(c, 1, 1, 18446744069414584320, 18446744069414584320, 18446462594437873665, 18446462594437873665, 281474976710656, 281474976710656, 1099511627520, 1099511627520, 18446742969902956801, 18446742969902956801, 16777216, 16777216, 18446744069397807105, 18446744069397807105),
    ensures
        lanes16(step(4, c), 18446744000695107585, 18446744060824649729, 68719476736, 34359738368, 2251799813160960, 36028797010575360, 18446462594437939201, 18437736870161940481, 512, 8192, 18446744069414584065, 18446744069414583297, 13835058050987196417, 18158513693262872577, 1152921504606846976, 144115188075855872),
{
    reveal(lanes16);
    lemma_reduce(step_raw(4, c, 0), 15, 18446744000695107585);
    lemma_reduce(step_raw(4, c, 1), 1, 18446744060824649729);
    lemma_reduce(step_raw(4, c, 2), 295147905041913872384, 68719476736);
    lemma_reduce(step_raw(4, c, 3), 147573952520956936192, 34359738368);
    lemma_reduce(step_raw(4, c, 4), 147571700721143775240, 2251799813160960);
    lemma_reduce(step_raw(4, c, 5), 2361147211538300403840, 36028797010575360);
    lemma_reduce(step_raw(4, c, 6), 281474976645119, 18446462594437939201);
    lemma_reduce(step_raw(4, c, 7), 9007199252643839, 18437736870161940481);
    lemma_reduce(step_raw(4, c, 8), 2199023254528, 512);
    lemma_reduce(step_raw(4, c, 9), 35184372072448, 8192);
    lemma_reduce(step_raw(4, c, 10), 18446742965607989760, 18446744069414584065);
    lemma_reduce(step_raw(4, c, 11), 73786971862431959043, 18446744069414583297);
    lemma_reduce(step_raw(4, c, 12), 1073741823, 13835058050987196417);
    lemma_reduce(step_raw(4, c, 13), 67108863, 18158513693262872577);
    lemma_reduce(step_raw(4, c, 14), 295147905041645436944, 1152921504606846976);
    lemma_reduce(step_raw(4, c, 15), 36893488130205679618, 144115188075855872);
}

/// Stage 5 on column 14.
proof fn lemma_column_14_stage_5(c: Seq<int>)
    requires
        lanes16(c, 18446744000695107585, 18446744060824649729, 68719476736, 34359738368, 2251799813160960, 36028797010575360, 18446462594437939201, 18437736870161940481, 512, 8192, 18446744069414584065, 18446744069414583297, 13835058050987196417, 18158513693262872577, 1152921504606846976, 144115188075855872),
    ensures
        lanes16(step(5, c), 18446743992105172993, 18446744009285042177, 103079215104, 34359738368, 38280596823736320, 18412967072217169921, 18437455395185295361, 8725724275998720, 8704, 18446744069414576641, 18446744069414583041, 768, 13546827674835484673, 14123288427138908161, 1297036692682702848, 1008806316530991104),
{
    reveal(lanes16);
    lemma_reduce(step_raw(5, c, 0), 1, 18446743992105172993);
    lemma_reduce(step_raw(5, c, 1), -1, 18446744009285042177);
    lemma_reduce(step_raw(5, c, 2), 0, 103079215104);
    lemma_reduce(step_raw(5, c, 3), 0, 34359738368);
    lemma_reduce(step_raw(5, c, 4), 0, 38280596823736320);
    lemma_reduce(step_raw(5, c, 5), -1, 18412967072217169921);
    lemma_reduce(step_raw(5, c, 6), 1, 18437455395185295361);
    lemma_reduce(step_raw(5, c, 7), 0, 8725724275998720);
    lemma_reduce(step_raw(5, c, 8), 0, 8704);
    lemma_reduce(step_raw(5, c, 9), -1, 18446744069414576641);
    lemma_reduce(step_raw(5, c, 10), 1, 18446744069414583041);
    lemma_reduce(step_raw(5, c, 11), 0, 768);
    lemma_reduce(step_raw(5, c, 12), 1, 13546827674835484673);
    lemma_reduce(step_raw(5, c, 13), -1, 14123288427138908161);
    lemma_reduce(step_raw(5, c, 14), 0, 1297036692682702848);
    lemma_reduce(step_raw(5, c, 15), 0, 1008806316530991104);
}

/// Stage 6 on column 14.
proof fn lemma_column_14_stage_6(c: Seq<int>)
    requires
        lanes16(c, 18446743992105172993, 18446744009285042177, 103079215104, 34359738368, 38280596823736320, 18412967072217169921, 18437455395185295361, 8725724275998720, 8704, 18446744069414576641, 18446744069414583041, 768, 13546827674835484673, 14123288427138908161, 1297036692682702848, 1008806316530991104),
    ensures
        lanes16(step(6, c), 25769803776, 18444492209471881217, 18446743889025957889, 2251739683618816, 28991922594447360, 18412967205361156097, 47569271053025280, 18412966939073183745, 7424, 18230571287300792833, 9984, 216172782113776128, 14843864367518187521, 14123288427138911745, 12249790982152781825, 14123288427138904577),
{
    reveal(lanes16);
    lemma_reduce(step_raw(6, c, 0), 1, 25769803776);
    lemma_reduce(step_raw(6, c, 1), 34359214080, 18444492209471881217);
    lemma_reduce(step_raw(6, c, 2), 0, 18446743889025957889);
    lemma_reduce(step_raw(6, c, 3), -34359214079, 2251739683618816);
    lemma_reduce(step_raw(6, c, 4), 1, 28991922594447360);
    lemma_reduce(step_raw(6, c, 5), 8725591132012544, 18412967205361156097);
    lemma_reduce(step_raw(6, c, 6), -1, 47569271053025280);
    lemma_reduce(step_raw(6, c, 7), -8725591132012544, 18412966939073183745);
    lemma_reduce(step_raw(6, c, 8), 1, 7424);
    lemma_reduce(step_raw(6, c, 9), 768, 18230571287300792833);
    lemma_reduce(step_raw(6, c, 10), -1, 9984);
    lemma_reduce(step_raw(6, c, 11), -767, 216172782113776128);
    lemma_reduce(step_raw(6, c, 12), 0, 14843864367518187521);
    lemma_reduce(step_raw(6, c, 13), 1008790923368198656, 14123288427138911745);
    lemma_reduce(step_raw(6, c, 14), 0, 12249790982152781825);
    lemma_reduce(step_raw(6, c, 15), -1008790923368198656, 14123288427138904577);
}

/// Stage 7 on column 14.
proof fn lemma_column_14_stage_7(c: Seq<int>)
    requires
        lanes16(c, 25769803776, 18444492209471881217, 18446743889025957889, 2251739683618816, 28991922594447360, 18412967205361156097, 47569271053025280, 18412966939073183745, 7424, 18230571287300792833, 9984, 216172782113776128, 14843864367518187521, 14123288427138911745, 12249790982152781825, 14123288427138904577),
    ensures
        lanes16(step(7, c), 28991948364251136, 8644659424608641280, 545460846592, 16215210393922467841, 18417752172589940737, 9797580924920536833, 18446743163176484865, 2236037154859354112, 14843864367518194945, 18234512194671862273, 18446744069414572289, 199284223385526784, 3602879701896404224, 18226630379929723393, 32000, 233061340842025472),
{
    reveal(lanes16);
    lemma_reduce(step_raw(7, c, 0), 0, 28991948364251136);
    lemma_reduce(step_raw(7, c, 1), 1097498369537, 8644659424608641280);
    lemma_reduce(step_raw(7, c, 2), 47568545203552257, 545460846592);
    lemma_reduce(step_raw(7, c, 3), 16746495, 16215210393922467841);
    lemma_reduce(step_raw(7, c, 4), -1, 18417752172589940737);
    lemma_reduce(step_raw(7, c, 5), -1097498369536, 9797580924920536833);
    lemma_reduce(step_raw(7, c, 6), -47568545203552256, 18446743163176484865);
    lemma_reduce(step_raw(7, c, 7), -16746496, 2236037154859354112);
    lemma_reduce(step_raw(7, c, 8), 0, 14843864367518194945);
    lemma_reduce(step_raw(7, c, 9), 841813589760, 18234512194671862273);
    lemma_reduce(step_raw(7, c, 10), 12249604065176081920, 18446744069414572289);
    lemma_reduce(step_raw(7, c, 11), 12845056, 199284223385526784);
    lemma_reduce(step_raw(7, c, 12), -1, 3602879701896404224);
    lemma_reduce(step_raw(7, c, 13), -841813589760, 18226630379929723393);
    lemma_reduce(step_raw(7, c, 14), -12249604065176081921, 32000);
    lemma_reduce(step_raw(7, c, 15), -12845056, 233061340842025472);
}

/// Stage 8 on column 14.
proof fn lemma_column_14_stage_8(c: Seq<int>)
    requires
        lanes16(c, 28991948364251136, 8644659424608641280, 545460846592, 16215210393922467841, 18417752172589940737, 9797580924920536833, 18446743163176484865, 2236037154859354112, 14843864367518194945, 18234512194671862273, 18446744069414572289, 199284223385526784, 3602879701896404224, 18226630379929723393, 32000, 233061340842025472),
    ensures
        lanes16(step(8, c), 14872856315882446081, 5185371269165997376, 18433515290973110273, 11603770461046470701, 16328081945490043393, 7491684177549991903, 18446743700047396865, 18375880622847003104, 3631871650260640512, 12103947580051285184, 13229869363167232, 2379906257383880660, 2060678330275253760, 12103477672291081763, 18446742626305572865, 4542937756286289441),
{
    reveal(lanes16);
    lemma_reduce(step_raw(8, c, 0), 0, 14872856315882446081);
    lemma_reduce(step_raw(8, c, 1), 67928851392, 5185371269165997376);
    lemma_reduce(step_raw(8, c, 2), 1099511627519, 18433515290973110273);
    lemma_reduce(step_raw(8, c, 3), 199284223385526740, 11603770461046470701);
    lemma_reduce(step_raw(8, c, 4), 3602824726315002624, 16328081945490043393);
    lemma_reduce(step_raw(8, c, 5), 18222180518997123363, 7491684177549991903);
    lemma_reduce(step_raw(8, c, 6), 0, 18446743700047396865);
    lemma_reduce(step_raw(8, c, 7), 14566333806018080, 18375880622847003104);
    lemma_reduce(step_raw(8, c, 8), -1, 3631871650260640512);
    lemma_reduce(step_raw(8, c, 9), -67928851392, 12103947580051285184);
    lemma_reduce(step_raw(8, c, 10), -1099511627520, 13229869363167232);
    lemma_reduce(step_raw(8, c, 11), -199284223385526739, 2379906257383880660);
    lemma_reduce(step_raw(8, c, 12), -3602824726315002623, 2060678330275253760);
    lemma_reduce(step_raw(8, c, 13), -18222180518997123363, 12103477672291081763);
    lemma_reduce(step_raw(8, c, 14), 0, 18446742626305572865);
    lemma_reduce(step_raw(8, c, 15), -14566333806018081, 4542937756286289441);
}

/// The lanes of unit vector 14.
proof fn lemma_column_14_first()
    ensures
        lanes16(basis(14, 16), 0, 0, 0, 0, 0, 0, 0, 0, 0, 0, 0, 0, 0, 0, 1, 0),
{
    reveal(lanes16);
}

/// The lanes that the last stage leaves for unit vector 14 are column 14 of the matrix.
proof fn lemma_column_14_last(c: Seq<int>)
    requires
        lanes16(c, 14872856315882446081, 5185371269165997376, 18433515290973110273, 11603770461046470701, 16328081945490043393, 7491684177549991903, 18446743700047396865, 18375880622847003104, 3631871650260640512, 12103947580051285184, 13229869363167232, 2379906257383880660, 2060678330275253760, 12103477672291081763, 18446742626305572865, 4542937756286289441),
    ensures
        is_mds_column(c, 14),
{
    reveal(lanes16);
}

/// Column 14 of the matrix that the transform applies.
proof fn lemma_column_14()
    ensures
        is_mds_column(run(9, basis(14, 16)), 14),
{
    let c0 = basis(14, 16);
    lemma_column_14_first();
    lemma_column_14_stage_0(c0);
    let c1 = step(0, c0);
    lemma_column_14_stage_1(c1);
    let c2 = step(1, c1);
    lemma_column_14_stage_2(c2);
    let c3 = step(2, c2);
    lemma_column_14_stage_3(c3);
    let c4 = step(3, c3);
    lemma_column_14_stage_4(c4);
    let c5 = step(4, c4);
    lemma_column_14_stage_5(c5);
    let c6 = step(5, c5);
    lemma_column_14_stage_6(c6);
    let c7 = step(6, c6);
    lemma_column_14_stage_7(c7);
    let c8 = step(7, c7);
    lemma_column_14_stage_8(c8);
    let c9 = step(8, c8);
    lemma_column_14_last(c9);
    assert(run(9, c0) == c9) by {
        reveal_with_fuel(run, 10);
    }
}

/// Stage 0 on column 15.
proof fn lemma_column_15_stage_0(c: Seq<int>)
    requires
        lanes16(c, 0, 0, 0, 0, 0, 0, 0, 0, 0, 0, 0, 0, 0, 0, 0, 1),
    ensures
        lanes16(step(0, c), 0, 0, 0, 0, 0, 0, 0, 1, 0, 0, 0, 0, 0, 0, 0, 18446744069414584320),
{
    reveal(lanes16);
    lemma_reduce(step_raw(0, c, 0), 0, 0);
    lemma_reduce(step_raw(0, c, 1), 0, 0);
    lemma_reduce(step_raw(0, c, 2), 0, 0);
    lemma_reduce(step_raw(0, c, 3), 0, 0);
    lemma_reduce(step_raw(0, c, 4), 0, 0);
    lemma_reduce(step_raw(0, c, 5), 0, 0);
    lemma_reduce(step_raw(0, c, 6), 0, 0);
    lemma_reduce(step_raw(0, c, 7), 0, 1);
    lemma_reduce(step_raw(0, c, 8), 0, 0);
    lemma_reduce(step_raw(0, c, 9), 0, 0);
    lemma_reduce(step_raw(0, c, 10), 0, 0);
    lemma_reduce(step_raw(0, c, 11), 0, 0);
    lemma_reduce(step_raw(0, c, 12), 0, 0);
    lemma_reduce(step_raw(0, c, 13), 0, 0);
    lemma_reduce(step_raw(0, c, 14), 0, 0);
    lemma_reduce(step_raw(0, c, 15), -1, 18446744069414584320);
}

/// Stage 1 on column 15.
proof fn lemma_column_15_stage_1(c: Seq<int>)
    requires
        lanes16(c, 0, 0, 0, 0, 0, 0, 0, 1, 0, 0, 0, 0, 0, 0, 0, 18446744069414584320),
    ensures
        lanes16(step(1, c), 0, 0, 0, 1, 0, 0, 0, 18446744069414584320, 0, 0, 0, 18446462594437873665, 0, 0, 0, 281474976710656),
{
    reveal(lanes16);
    lemma_reduce(step_raw(1, c, 0), 0, 0);
    lemma_reduce(step_raw(1, c, 1), 0, 0);
    lemma_reduce(step_raw(1, c, 2), 0, 0);
    lemma_reduce(step_raw(1, c, 3), 0, 1);
    lemma_reduce(step_raw(1, c, 4), 0, 0);
    lemma_reduce(step_raw(1, c, 5), 0, 0);
    lemma_reduce(step_raw(1, c, 6), 0, 0);
    lemma_reduce(step_raw(1, c, 7), -1, 18446744069414584320);
    lemma_reduce(step_raw(1, c, 8), 0, 0);
    lemma_reduce(step_raw(1, c, 9), 0, 0);
    lemma_reduce(step_raw(1, c, 10), 0, 0);
    lemma_reduce(step_raw(1, c, 11), 281474976710655, 18446462594437873665);
    lemma_reduce(step_raw(1, c, 12), 0, 0);
    lemma_reduce(step_raw(1, c, 13), 0, 0);
    lemma_reduce(step_raw(1, c, 14), 0, 0);
    lemma_reduce(step_raw(1, c, 15), -281474976710656, 281474976710656);
}

/// Stage 2 on column 15.
proof fn lemma_column_15_stage_2(c: Seq<int>)
    requires
        lanes16(c, 0, 0, 0, 1, 0, 0, 0, 18446744069414584320, 0, 0, 0, 18446462594437873665, 0, 0, 0, 281474976710656),
    ensures
        lanes16(step(2, c), 0, 1, 0, 18446744069414584320, 0, 18446462594437873665, 0, 281474976710656, 0, 1099511627520, 0, 18446742969902956801, 0, 16777216, 0, 18446744069397807105),
{
    reveal(lanes16);
    lemma_reduce(step_raw(2, c, 0), 0, 0);
    lemma_reduce(step_raw(2, c, 1), 0, 1);
    lemma_reduce(step_raw(2, c, 2), 0, 0);
    lemma_reduce(step_raw(2, c, 3), -1, 18446744069414584320);
    lemma_reduce(step_raw(2, c, 4), 0, 0);
    lemma_reduce(step_raw(2, c, 5), 281474976710655, 18446462594437873665);
    lemma_reduce(step_raw(2, c, 6), 0, 0);
    lemma_reduce(step_raw(2, c, 7), -281474976710656, 281474976710656);
    lemma_reduce(step_raw(2, c, 8), 0, 0);
    lemma_reduce(step_raw(2, c, 9), 18446462594421096705, 1099511627520);
    lemma_reduce(step_raw(2, c, 10), 0, 0);
    lemma_reduce(step_raw(2, c, 11), -18446462594421096706, 18446742969902956801);
    lemma_reduce(step_raw(2, c, 12), 0, 0);
    lemma_reduce(step_raw(2, c, 13), 281474959933440, 16777216);
    lemma_reduce(step_raw(2, c, 14), 0, 0);
    lemma_reduce(step_raw(2, c, 15), -281474959933441, 18446744069397807105);
}

/// Stage 3 on column 15.
proof fn lemma_column_15_stage_3(c: Seq<int>)
    requires
        lanes16(c, 0, 1, 0, 18446744069414584320, 0, 18446462594437873665, 0, 281474976710656, 0, 1099511627520, 0, 18446742969902956801, 0, 16777216, 0, 18446744069397807105),
    ensures
        lanes16(step(3, c), 1, 18446744069414584320, 18446462594437873665, 281474976710656, 1099511627520, 18446742969902956801, 16777216, 18446744069397807105, 68719476736, 18446744000695107585, 18442240469788262401, 4503599626321920, 18446744069414580225, 4096, 1152921504606846976, 17293822564807737345),
{
    reveal(lanes16);
    lemma_reduce(step_raw(3, c, 0), 0, 1);
    lemma_reduce(step_raw(3, c, 1), -1, 18446744069414584320);
    lemma_reduce(step_raw(3, c, 2), 281474976710655, 18446462594437873665);
    lemma_reduce(step_raw(3, c, 3), -281474976710656, 281474976710656);
    lemma_reduce(step_raw(3, c, 4), 18446462594421096705, 1099511627520);
    lemma_reduce(step_raw(3, c, 5), -18446462594421096706, 18446742969902956801);
    lemma_reduce(step_raw(3, c, 6), 281474959933440, 16777216);
    lemma_reduce(step_raw(3, c, 7), -281474959933441, 18446744069397807105);
    lemma_reduce(step_raw(3, c, 8), 1030792150784, 68719476736);
    lemma_reduce(step_raw(3, c, 9), -1030792150785, 18446744000695107585);
    lemma_reduce(step_raw(3, c, 10), 4095, 18442240469788262401);
    lemma_reduce(step_raw(3, c, 11), -4096, 4503599626321920);
    lemma_reduce(step_raw(3, c, 12), 4095, 18446744069414580225);
    lemma_reduce(step_raw(3, c, 13), -4096, 4096);
    lemma_reduce(step_raw(3, c, 14), 18446744000678330369, 1152921504606846976);
    lemma_reduce(step_raw(3, c, 15), -18446744000678330370, 17293822564807737345);
}

/// Stage 4 on column 15.
proof fn lemma_column_15_stage_4(c: Seq<int>)
    requires
        lanes16(c, 1, 18446744069414584320, 18446462594437873665, 281474976710656, 1099511627520, 18446742969902956801, 16777216, 18446744069397807105, 68719476736, 18446744000695107585, 18442240469788262401, 4503599626321920, 18446744069414580225, 4096, 1152921504606846976, 17293822564807737345),
    ensures
        lanes16(step(4, c), 18446744000695107585, 8589934592, 4503599626321920, 18444492269601423361, 2048, 18446744069414551553, 18374686475376656385, 2305843009213693952, 18446743931975630881, 2199023255040, 18446744069413535745, 4194304, 1125899906842624, 18446673700670406657, 1, 2305843008676823040),
{
    reveal(lanes16);
    lemma_reduce(step_raw(4, c, 0), 15, 18446744000695107585);
    lemma_reduce(step_raw(4, c, 1), 36893488130239234048, 8589934592);
    lemma_reduce(step_raw(4, c, 2), 295143401442287550480, 4503599626321920);
    lemma_reduce(step_raw(4, c, 3), 2251799813160959, 18444492269601423361);
    lemma_reduce(step_raw(4, c, 4), 8796093018112, 2048);
    lemma_reduce(step_raw(4, c, 5), 2361183099597822689407, 18446744069414551553);
    lemma_reduce(step_raw(4, c, 6), 16777215, 18374686475376656385);
    lemma_reduce(step_raw(4, c, 7), 590295810083290873888, 2305843009213693952);
    lemma_reduce(step_raw(4, c, 8), 137438953439, 18446743931975630881);
    lemma_reduce(step_raw(4, c, 9), 590295807884804489760, 2199023255040);
    lemma_reduce(step_raw(4, c, 10), 18442240465494343680, 18446744069413535745);
    lemma_reduce(step_raw(4, c, 11), 18014398501093376, 4194304);
    lemma_reduce(step_raw(4, c, 12), 1180591620167655227456, 1125899906842624);
    lemma_reduce(step_raw(4, c, 13), 16383, 18446673700670406657);
    lemma_reduce(step_raw(4, c, 14), 18446744069414584319, 1);
    lemma_reduce(step_raw(4, c, 15), 34587645121562411010, 2305843008676823040);
}

/// Stage 5 on column 15.
proof fn lemma_column_15_stage_5(c: Seq<int>)
    requires
        lanes16(c, 18446744000695107585, 8589934592, 4503599626321920, 18444492269601423361, 2048, 18446744069414551553, 18374686475376656385, 2305843009213693952, 18446743931975630881, 2199023255040, 18446744069413535745, 4194304, 1125899906842624, 18446673700670406657, 1, 2305843008676823040),
    ensures
        lanes16(step(5, c), 18446744009285042177, 18446743992105172993, 2251799813160960, 6755399439482880, 18446744069414553601, 34816, 2233785415175766016, 16068843466162962433, 2061584301600, 18446741732952375841, 3145728, 18446744069409341441, 1055531162664960, 1196268651020288, 2305843008676823041, 16140901060737761282),
{
    reveal(lanes16);
    lemma_reduce(step_raw(5, c, 0), 0, 18446744009285042177);
    lemma_reduce(step_raw(5, c, 1), 0, 18446743992105172993);
    lemma_reduce(step_raw(5, c, 2), 1, 2251799813160960);
    lemma_reduce(step_raw(5, c, 3), -1, 6755399439482880);
    lemma_reduce(step_raw(5, c, 4), 0, 18446744069414553601);
    lemma_reduce(step_raw(5, c, 5), -1, 34816);
    lemma_reduce(step_raw(5, c, 6), 1, 2233785415175766016);
    lemma_reduce(step_raw(5, c, 7), 0, 16068843466162962433);
    lemma_reduce(step_raw(5, c, 8), 1, 2061584301600);
    lemma_reduce(step_raw(5, c, 9), 0, 18446741732952375841);
    lemma_reduce(step_raw(5, c, 10), 1, 3145728);
    lemma_reduce(step_raw(5, c, 11), 0, 18446744069409341441);
    lemma_reduce(step_raw(5, c, 12), 1, 1055531162664960);
    lemma_reduce(step_raw(5, c, 13), -1, 1196268651020288);
    lemma_reduce(step_raw(5, c, 14), 0, 2305843008676823041);
    lemma_reduce(step_raw(5, c, 15), -1, 16140901060737761282);
}

/// Stage 6 on column 15.
proof fn lemma_column_15_stage_6(c: Seq<int>)
    requires
        lanes16(c, 18446744009285042177, 18446743992105172993, 2251799813160960, 6755399439482880, 18446744069414553601, 34816, 2233785415175766016, 16068843466162962433, 2061584301600, 18446741732952375841, 3145728, 18446744069409341441, 1055531162664960, 1196268651020288, 2305843008676823041, 16140901060737761282),
    ensures
        lanes16(step(6, c), 2251739683618816, 25769803776, 18444492209471881217, 18446743889025957889, 2233785415175735296, 26368, 16212958654238787585, 43264, 2061587447328, 18446742076549759441, 2061581155872, 18446741389354992241, 2306898539839488001, 879609302220800, 16141956591900426240, 1512927999819776),
{
    reveal(lanes16);
    lemma_reduce(step_raw(6, c, 0), 1, 2251739683618816);
    lemma_reduce(step_raw(6, c, 1), 6755296360267777, 25769803776);
    lemma_reduce(step_raw(6, c, 2), 0, 18444492209471881217);
    lemma_reduce(step_raw(6, c, 3), -6755296360267776, 18446743889025957889);
    lemma_reduce(step_raw(6, c, 4), 1, 2233785415175735296);
    lemma_reduce(step_raw(6, c, 5), 16068598275069976833, 26368);
    lemma_reduce(step_raw(6, c, 6), 0, 16212958654238787585);
    lemma_reduce(step_raw(6, c, 7), -16068598275069976833, 43264);
    lemma_reduce(step_raw(6, c, 8), 0, 2061587447328);
    lemma_reduce(step_raw(6, c, 9), 18446462594432630865, 18446742076549759441);
    lemma_reduce(step_raw(6, c, 10), 0, 2061581155872);
    lemma_reduce(step_raw(6, c, 11), -18446462594432630865, 18446741389354992241);
    lemma_reduce(step_raw(6, c, 12), 0, 2306898539839488001);
    lemma_reduce(step_raw(6, c, 13), 16140654770133139458, 879609302220800);
    lemma_reduce(step_raw(6, c, 14), -1, 16141956591900426240);
    lemma_reduce(step_raw(6, c, 15), -16140654770133139458, 1512927999819776);
}

/// Stage 7 on column 15.
proof fn lemma_column_15_stage_7(c: Seq<int>)
    requires
        lanes16(c, 2251739683618816, 25769803776, 18444492209471881217, 18446743889025957889, 2233785415175735296, 26368, 16212958654238787585, 43264, 2061587447328, 18446742076549759441, 2061581155872, 18446741389354992241, 2306898539839488001, 879609302220800, 16141956591900426240, 1512927999819776),
    ensures
        lanes16(step(7, c), 2236037154859354112, 28991948364251136, 8644659424608641280, 545460846592, 16215210393922467841, 18417752172589940737, 9797580924920536833, 18446743163176484865, 2306900601426935329, 18446742076497330641, 4611934369539423780, 3229815405840, 16139847591162543648, 18446742076602188241, 13834813823037472285, 18446735479479994321),
{
    reveal(lanes16);
    lemma_reduce(step_raw(7, c, 0), 0, 2236037154859354112);
    lemma_reduce(step_raw(7, c, 1), 0, 28991948364251136);
    lemma_reduce(step_raw(7, c, 2), 16212711264122545922, 8644659424608641280);
    lemma_reduce(step_raw(7, c, 3), 1, 545460846592);
    lemma_reduce(step_raw(7, c, 4), -1, 16215210393922467841);
    lemma_reduce(step_raw(7, c, 5), -1, 18417752172589940737);
    lemma_reduce(step_raw(7, c, 6), -16212711264122545921, 9797580924920536833);
    lemma_reduce(step_raw(7, c, 7), 0, 18446743163176484865);
    lemma_reduce(step_raw(7, c, 8), 0, 2306900601426935329);
    lemma_reduce(step_raw(7, c, 9), 52428800, 18446742076497330641);
    lemma_reduce(step_raw(7, c, 10), 16141710285189677052, 4611934369539423780);
    lemma_reduce(step_raw(7, c, 11), 1377, 3229815405840);
    lemma_reduce(step_raw(7, c, 12), -1, 16139847591162543648);
    lemma_reduce(step_raw(7, c, 13), -52428800, 18446742076602188241);
    lemma_reduce(step_raw(7, c, 14), -16141710285189677053, 13834813823037472285);
    lemma_reduce(step_raw(7, c, 15), -1376, 18446735479479994321);
}

/// Stage 8 on column 15.
proof fn lemma_column_15_stage_8(c: Seq<int>)
    requires
        lanes16(c, 2236037154859354112, 28991948364251136, 8644659424608641280, 545460846592, 16215210393922467841, 18417752172589940737, 9797580924920536833, 18446743163176484865, 2306900601426935329, 18446742076497330641, 4611934369539423780, 3229815405840, 16139847591162543648, 18446742076602188241, 13834813823037472285, 18446735479479994321),
    ensures
        lanes16(step(8, c), 4542937756286289441, 14872856315882446081, 5185371269165997376, 18433515290973110273, 11603770461046470701, 16328081945490043393, 7491684177549991903, 18446743700047396865, 18375880622847003104, 3631871650260640512, 12103947580051285184, 13229869363167232, 2379906257383880660, 2060678330275253760, 12103477672291081763, 18446742626305572865),
{
    reveal(lanes16);
    lemma_reduce(step_raw(8, c, 0), 0, 4542937756286289441);
    lemma_reduce(step_raw(8, c, 1), 68719469311, 14872856315882446081);
    lemma_reduce(step_raw(8, c, 2), 274892709824, 5185371269165997376);
    lemma_reduce(step_raw(8, c, 3), 3229815405839, 18433515290973110273);
    lemma_reduce(step_raw(8, c, 4), 16139601316632591860, 11603770461046470701);
    lemma_reduce(step_raw(8, c, 5), 18442238477462392785, 16328081945490043393);
    lemma_reduce(step_raw(8, c, 6), 12582690, 7491684177549991903);
    lemma_reduce(step_raw(8, c, 7), 1152920967735934976, 18446743700047396865);
    lemma_reduce(step_raw(8, c, 8), -1, 18375880622847003104);
    lemma_reduce(step_raw(8, c, 9), -68719469312, 3631871650260640512);
    lemma_reduce(step_raw(8, c, 10), -274892709824, 12103947580051285184);
    lemma_reduce(step_raw(8, c, 11), -3229815405840, 13229869363167232);
    lemma_reduce(step_raw(8, c, 12), -16139601316632591859, 2379906257383880660);
    lemma_reduce(step_raw(8, c, 13), -18442238477462392784, 2060678330275253760);
    lemma_reduce(step_raw(8, c, 14), -12582690, 12103477672291081763);
    lemma_reduce(step_raw(8, c, 15), -1152920967735934976, 18446742626305572865);
}

/// The lanes of unit vector 15.
proof fn lemma_column_15_first()
    ensures
        lanes16(basis(15, 16), 0, 0, 0, 0, 0, 0, 0, 0, 0, 0, 0, 0, 0, 0, 0, 1),
{
    reveal(lanes16);
}

/// The lanes that the last stage leaves for unit vector 15 are column 15 of the matrix.
proof fn lemma_column_15_last(c: Seq<int>)
    requires
        lanes16(c, 4542937756286289441, 14872856315882446081, 5185371269165997376, 18433515290973110273, 11603770461046470701, 16328081945490043393, 7491684177549991903, 18446743700047396865, 18375880622847003104, 3631871650260640512, 12103947580051285184, 13229869363167232, 2379906257383880660, 2060678330275253760, 12103477672291081763, 18446742626305572865),
    ensures
        is_mds_column(c, 15),
{
    reveal(lanes16);
}

/// Column 15 of the matrix that the transform applies.
proof fn lemma_column_15()
    ensures
        is_mds_column(run(9, basis(15, 16)), 15),
{
    let c0 = basis(15, 16);
    lemma_column_15_first();
    lemma_column_15_stage_0(c0);
    let c1 = step(0, c0);
    lemma_column_15_stage_1(c1);
    let c2 = step(1, c1);
    lemma_column_15_stage_2(c2);
    let c3 = step(2, c2);
    lemma_column_15_stage_3(c3);
    let c4 = step(3, c3);
    lemma_column_15_stage_4(c4);
    let c5 = step(4, c4);
    lemma_column_15_stage_5(c5);
    let c6 = step(5, c5);
    lemma_column_15_stage_6(c6);
    let c7 = step(6, c6);
    lemma_column_15_stage_7(c7);
    let c8 = step(7, c7);
    lemma_column_15_stage_8(c8);
    let c9 = step(8, c8);
    lemma_column_15_last(c9);
    assert(run(9, c0) == c9) by {
        reveal_with_fuel(run, 10);
    }
}

/// On every unit vector the transform-based product gives the matching column of the MDS
/// matrix.
pub proof fn lemma_columns(j: int)
    requires
        0 <= j < 16,
    ensures
        is_mds_column(run(9, basis(j, 16)), j),
{
    if j == 0 {
        lemma_column_0();
    }
    if j == 1 {
        lemma_column_1();
    }
    if j == 2 {
        lemma_column_2();
    }
    if j == 3 {
        lemma_column_3();
    }
    if j == 4 {
        lemma_column_4();
    }
    if j == 5 {
        lemma_column_5();
    }
    if j == 6 {
        lemma_column_6();
    }
    if j == 7 {
        lemma_column_7();
    }
    if j == 8 {
        lemma_column_8();
    }
    if j == 9 {
        lemma_column_9();
    }
    if j == 10 {
        lemma_column_10();
    }
    if j == 11 {
        lemma_column_11();
    }
    if j == 12 {
        lemma_column_12();
    }
    if j == 13 {
        lemma_column_13();
    }
    if j == 14 {
        lemma_column_14();
    }
    if j == 15 {
        lemma_column_15();
    }
}

} // verus!
