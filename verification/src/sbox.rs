//! The split-and-lookup S-box: a byte-wise substitution on the Montgomery word of a field
//! element.

use crate::field::{lemma_mont_word_round_trip, mont_reduce_spec, prime, to_mont, Felt};
use vstd::arithmetic::div_mod::{lemma_div_denominator, lemma_fundamental_div_mod_converse};
use vstd::prelude::*;

verus! {

/// The byte substitution, a permutation of the 256 byte values.
pub const LOOKUP_TABLE: [u8; 256] = [
    0, 7, 26, 63, 124, 215, 85, 254, 214, 228, 45, 185, 140, 173, 33, 240,
    29, 177, 176, 32, 8, 110, 87, 202, 204, 99, 150, 106, 230, 14, 235, 128,
    213, 239, 212, 138, 23, 130, 208, 6, 44, 71, 93, 116, 146, 189, 251, 81,
    199, 97, 38, 28, 73, 179, 95, 84, 152, 48, 35, 119, 49, 88, 242, 3,
    148, 169, 72, 120, 62, 161, 166, 83, 175, 191, 137, 19, 100, 129, 112, 55,
    221, 102, 218, 61, 151, 237, 68, 164, 17, 147, 46, 234, 203, 216, 22, 141,
    65, 57, 123, 12, 244, 54, 219, 231, 96, 77, 180, 154, 5, 253, 133, 165,
    98, 195, 205, 134, 245, 30, 9, 188, 59, 142, 186, 197, 181, 144, 92, 31,
    224, 163, 111, 74, 58, 69, 113, 196, 67, 246, 225, 10, 121, 50, 60, 157,
    90, 122, 2, 250, 101, 75, 178, 159, 24, 36, 201, 11, 243, 132, 198, 190,
    114, 233, 39, 52, 21, 209, 108, 238, 91, 187, 18, 104, 194, 37, 153, 34,
    200, 143, 126, 155, 236, 118, 64, 80, 172, 89, 94, 193, 135, 183, 86, 107,
    252, 13, 167, 206, 136, 220, 207, 103, 171, 160, 76, 182, 227, 217, 158, 56,
    174, 4, 66, 109, 139, 162, 184, 211, 249, 47, 125, 232, 117, 43, 16, 42,
    127, 20, 241, 25, 149, 105, 156, 51, 53, 168, 145, 247, 223, 79, 78, 226,
    15, 222, 82, 115, 70, 210, 27, 41, 1, 170, 40, 131, 192, 229, 248, 255,
];

/// Byte `k` of the 64-bit word `w`, counted from the least significant.
pub open spec fn byte_at(w: int, k: int) -> int {
    if k == 0 {
        w % 0x100
    } else if k == 1 {
        (w / 0x100) % 0x100
    } else if k == 2 {
        (w / 0x1_0000) % 0x100
    } else if k == 3 {
        (w / 0x100_0000) % 0x100
    } else if k == 4 {
        (w / 0x1_0000_0000) % 0x100
    } else if k == 5 {
        (w / 0x100_0000_0000) % 0x100
    } else if k == 6 {
        (w / 0x1_0000_0000_0000) % 0x100
    } else {
        (w / 0x100_0000_0000_0000) % 0x100
    }
}

/// The eight bytes of a 64-bit word, least significant first.
pub open spec fn le_bytes(w: int) -> Seq<u8> {
    Seq::new(8, |k: int| byte_at(w, k) as u8)
}

/// The 64-bit word with the given eight bytes, least significant first.
pub open spec fn le_word(b: Seq<u8>) -> int {
    b[0] + b[1] * 0x100 + b[2] * 0x1_0000 + b[3] * 0x100_0000 + b[4] * 0x1_0000_0000 + b[5]
        * 0x100_0000_0000 + b[6] * 0x1_0000_0000_0000 + b[7] * 0x100_0000_0000_0000
}

/// The byte at weight `d` of a number written as `low + d * (byte + 256 * high)`.
proof fn lemma_byte_of_sum(low: int, byte: int, high: int, d: int)
    requires
        0 <= low < d,
        0 <= byte < 0x100,
    ensures
        ((low + d * (byte + 0x100 * high)) / d) % 0x100 == byte,
{
    let q = byte + 0x100 * high;
    assert(low + d * q == q * d + low) by (nonlinear_arith);
    lemma_fundamental_div_mod_converse(low + d * q, d, q, low);
    lemma_fundamental_div_mod_converse(q, 0x100, high, byte);
}

/// A word that eight bytes spell has these bytes.
pub proof fn lemma_le_round_trip(b: Seq<u8>)
    requires
        b.len() == 8,
    ensures
        le_bytes(le_word(b)) == b,
{
    let v = le_word(b);
    let (b0, b1, b2, b3) = (b[0] as int, b[1] as int, b[2] as int, b[3] as int);
    let (b4, b5, b6, b7) = (b[4] as int, b[5] as int, b[6] as int, b[7] as int);
    let h6 = b7;
    let h5 = b6 + 0x100 * h6;
    let h4 = b5 + 0x100 * h5;
    let h3 = b4 + 0x100 * h4;
    let h2 = b3 + 0x100 * h3;
    let h1 = b2 + 0x100 * h2;
    let h0 = b1 + 0x100 * h1;
    let l1 = b0;
    let l2 = l1 + 0x100 * b1;
    let l3 = l2 + 0x1_0000 * b2;
    let l4 = l3 + 0x100_0000 * b3;
    let l5 = l4 + 0x1_0000_0000 * b4;
    let l6 = l5 + 0x100_0000_0000 * b5;
    let l7 = l6 + 0x1_0000_0000_0000 * b6;
    assert(byte_at(v, 0) == b0) by {
        lemma_byte_of_sum(0, b0, h0, 1);
    }
    assert(byte_at(v, 1) == b1) by {
        lemma_byte_of_sum(l1, b1, h1, 0x100);
    }
    assert(byte_at(v, 2) == b2) by {
        lemma_byte_of_sum(l2, b2, h2, 0x1_0000);
    }
    assert(byte_at(v, 3) == b3) by {
        lemma_byte_of_sum(l3, b3, h3, 0x100_0000);
    }
    assert(byte_at(v, 4) == b4) by {
        lemma_byte_of_sum(l4, b4, h4, 0x1_0000_0000);
    }
    assert(byte_at(v, 5) == b5) by {
        lemma_byte_of_sum(l5, b5, h5, 0x100_0000_0000);
    }
    assert(byte_at(v, 6) == b6) by {
        lemma_byte_of_sum(l6, b6, h6, 0x1_0000_0000_0000);
    }
    assert(byte_at(v, 7) == b7) by {
        lemma_byte_of_sum(l7, b7, 0, 0x100_0000_0000_0000);
    }
    assert(le_bytes(v) =~= b);
}

/// Every byte replaced by its entry in the lookup table.
pub open spec fn substitute(b: Seq<u8>) -> Seq<u8> {
    Seq::new(b.len(), |k: int| LOOKUP_TABLE[b[k] as int])
}

/// The S-box on a residue: the bytes of its Montgomery word are substituted, and the new
/// word is read as a Montgomery word again.
pub open spec fn split_and_lookup_spec(v: int) -> int {
    mont_reduce_spec(le_word(substitute(le_bytes(to_mont(v)))))
}

/// The bytes of a word spell the word.
pub proof fn lemma_le_bytes_spell(w: int)
    requires
        0 <= w < 0x1_0000_0000_0000_0000,
    ensures
        le_word(le_bytes(w)) == w,
{
    let b = le_bytes(w);
    assert(b[0] == byte_at(w, 0) && b[1] == byte_at(w, 1) && b[2] == byte_at(w, 2) && b[3] == byte_at(w, 3));
    assert(b[4] == byte_at(w, 4) && b[5] == byte_at(w, 5) && b[6] == byte_at(w, 6) && b[7] == byte_at(w, 7));
    let q1 = w / 0x100;
    let q2 = q1 / 0x100;
    let q3 = q2 / 0x100;
    let q4 = q3 / 0x100;
    let q5 = q4 / 0x100;
    let q6 = q5 / 0x100;
    let q7 = q6 / 0x100;
    lemma_div_denominator(w, 0x100, 0x100);
    lemma_div_denominator(w, 0x1_0000, 0x100);
    lemma_div_denominator(w, 0x100_0000, 0x100);
    lemma_div_denominator(w, 0x1_0000_0000, 0x100);
    lemma_div_denominator(w, 0x100_0000_0000, 0x100);
    lemma_div_denominator(w, 0x1_0000_0000_0000, 0x100);
    assert(q2 == w / 0x1_0000 && q3 == w / 0x100_0000 && q4 == w / 0x1_0000_0000);
    assert(q5 == w / 0x100_0000_0000 && q6 == w / 0x1_0000_0000_0000 && q7 == w / 0x100_0000_0000_0000);
    assert(w == q1 * 0x100 + b[0]);
    assert(q1 == q2 * 0x100 + b[1]);
    assert(q2 == q3 * 0x100 + b[2]);
    assert(q3 == q4 * 0x100 + b[3]);
    assert(q4 == q5 * 0x100 + b[4]);
    assert(q5 == q6 * 0x100 + b[5]);
    assert(q6 == q7 * 0x100 + b[6]);
    assert(q7 == b[7]);
}

/// Only the byte 255 is replaced by 255.
pub proof fn lemma_only_255_gives_255(t: int)
    requires
        0 <= t < 255,
    ensures
        LOOKUP_TABLE[t] != 255,
{
    assert(LOOKUP_TABLE[0] != 255 && LOOKUP_TABLE[1] != 255 && LOOKUP_TABLE[2] != 255 && LOOKUP_TABLE[3] != 255 && LOOKUP_TABLE[4] != 255);
    assert(LOOKUP_TABLE[5] != 255 && LOOKUP_TABLE[6] != 255 && LOOKUP_TABLE[7] != 255 && LOOKUP_TABLE[8] != 255 && LOOKUP_TABLE[9] != 255);
    assert(LOOKUP_TABLE[10] != 255 && LOOKUP_TABLE[11] != 255 && LOOKUP_TABLE[12] != 255 && LOOKUP_TABLE[13] != 255 && LOOKUP_TABLE[14] != 255);
    assert(LOOKUP_TABLE[15] != 255 && LOOKUP_TABLE[16] != 255 && LOOKUP_TABLE[17] != 255 && LOOKUP_TABLE[18] != 255 && LOOKUP_TABLE[19] != 255);
    assert(LOOKUP_TABLE[20] != 255 && LOOKUP_TABLE[21] != 255 && LOOKUP_TABLE[22] != 255 && LOOKUP_TABLE[23] != 255 && LOOKUP_TABLE[24] != 255);
    assert(LOOKUP_TABLE[25] != 255 && LOOKUP_TABLE[26] != 255 && LOOKUP_TABLE[27] != 255 && LOOKUP_TABLE[28] != 255 && LOOKUP_TABLE[29] != 255);
    assert(LOOKUP_TABLE[30] != 255 && LOOKUP_TABLE[31] != 255 && LOOKUP_TABLE[32] != 255 && LOOKUP_TABLE[33] != 255 && LOOKUP_TABLE[34] != 255);
    assert(LOOKUP_TABLE[35] != 255 && LOOKUP_TABLE[36] != 255 && LOOKUP_TABLE[37] != 255 && LOOKUP_TABLE[38] != 255 && LOOKUP_TABLE[39] != 255);
    assert(LOOKUP_TABLE[40] != 255 && LOOKUP_TABLE[41] != 255 && LOOKUP_TABLE[42] != 255 && LOOKUP_TABLE[43] != 255 && LOOKUP_TABLE[44] != 255);
    assert(LOOKUP_TABLE[45] != 255 && LOOKUP_TABLE[46] != 255 && LOOKUP_TABLE[47] != 255 && LOOKUP_TABLE[48] != 255 && LOOKUP_TABLE[49] != 255);
    assert(LOOKUP_TABLE[50] != 255 && LOOKUP_TABLE[51] != 255 && LOOKUP_TABLE[52] != 255 && LOOKUP_TABLE[53] != 255 && LOOKUP_TABLE[54] != 255);
    assert(LOOKUP_TABLE[55] != 255 && LOOKUP_TABLE[56] != 255 && LOOKUP_TABLE[57] != 255 && LOOKUP_TABLE[58] != 255 && LOOKUP_TABLE[59] != 255);
    assert(LOOKUP_TABLE[60] != 255 && LOOKUP_TABLE[61] != 255 && LOOKUP_TABLE[62] != 255 && LOOKUP_TABLE[63] != 255 && LOOKUP_TABLE[64] != 255);
    assert(LOOKUP_TABLE[65] != 255 && LOOKUP_TABLE[66] != 255 && LOOKUP_TABLE[67] != 255 && LOOKUP_TABLE[68] != 255 && LOOKUP_TABLE[69] != 255);
    assert(LOOKUP_TABLE[70] != 255 && LOOKUP_TABLE[71] != 255 && LOOKUP_TABLE[72] != 255 && LOOKUP_TABLE[73] != 255 && LOOKUP_TABLE[74] != 255);
    assert(LOOKUP_TABLE[75] != 255 && LOOKUP_TABLE[76] != 255 && LOOKUP_TABLE[77] != 255 && LOOKUP_TABLE[78] != 255 && LOOKUP_TABLE[79] != 255);
    assert(LOOKUP_TABLE[80] != 255 && LOOKUP_TABLE[81] != 255 && LOOKUP_TABLE[82] != 255 && LOOKUP_TABLE[83] != 255 && LOOKUP_TABLE[84] != 255);
    assert(LOOKUP_TABLE[85] != 255 && LOOKUP_TABLE[86] != 255 && LOOKUP_TABLE[87] != 255 && LOOKUP_TABLE[88] != 255 && LOOKUP_TABLE[89] != 255);
    assert(LOOKUP_TABLE[90] != 255 && LOOKUP_TABLE[91] != 255 && LOOKUP_TABLE[92] != 255 && LOOKUP_TABLE[93] != 255 && LOOKUP_TABLE[94] != 255);
    assert(LOOKUP_TABLE[95] != 255 && LOOKUP_TABLE[96] != 255 && LOOKUP_TABLE[97] != 255 && LOOKUP_TABLE[98] != 255 && LOOKUP_TABLE[99] != 255);
    assert(LOOKUP_TABLE[100] != 255 && LOOKUP_TABLE[101] != 255 && LOOKUP_TABLE[102] != 255 && LOOKUP_TABLE[103] != 255 && LOOKUP_TABLE[104] != 255);
    assert(LOOKUP_TABLE[105] != 255 && LOOKUP_TABLE[106] != 255 && LOOKUP_TABLE[107] != 255 && LOOKUP_TABLE[108] != 255 && LOOKUP_TABLE[109] != 255);
    assert(LOOKUP_TABLE[110] != 255 && LOOKUP_TABLE[111] != 255 && LOOKUP_TABLE[112] != 255 && LOOKUP_TABLE[113] != 255 && LOOKUP_TABLE[114] != 255);
    assert(LOOKUP_TABLE[115] != 255 && LOOKUP_TABLE[116] != 255 && LOOKUP_TABLE[117] != 255 && LOOKUP_TABLE[118] != 255 && LOOKUP_TABLE[119] != 255);
    assert(LOOKUP_TABLE[120] != 255 && LOOKUP_TABLE[121] != 255 && LOOKUP_TABLE[122] != 255 && LOOKUP_TABLE[123] != 255 && LOOKUP_TABLE[124] != 255);
    assert(LOOKUP_TABLE[125] != 255 && LOOKUP_TABLE[126] != 255 && LOOKUP_TABLE[127] != 255 && LOOKUP_TABLE[128] != 255 && LOOKUP_TABLE[129] != 255);
    assert(LOOKUP_TABLE[130] != 255 && LOOKUP_TABLE[131] != 255 && LOOKUP_TABLE[132] != 255 && LOOKUP_TABLE[133] != 255 && LOOKUP_TABLE[134] != 255);
    assert(LOOKUP_TABLE[135] != 255 && LOOKUP_TABLE[136] != 255 && LOOKUP_TABLE[137] != 255 && LOOKUP_TABLE[138] != 255 && LOOKUP_TABLE[139] != 255);
    assert(LOOKUP_TABLE[140] != 255 && LOOKUP_TABLE[141] != 255 && LOOKUP_TABLE[142] != 255 && LOOKUP_TABLE[143] != 255 && LOOKUP_TABLE[144] != 255);
    assert(LOOKUP_TABLE[145] != 255 && LOOKUP_TABLE[146] != 255 && LOOKUP_TABLE[147] != 255 && LOOKUP_TABLE[148] != 255 && LOOKUP_TABLE[149] != 255);
    assert(LOOKUP_TABLE[150] != 255 && LOOKUP_TABLE[151] != 255 && LOOKUP_TABLE[152] != 255 && LOOKUP_TABLE[153] != 255 && LOOKUP_TABLE[154] != 255);
    assert(LOOKUP_TABLE[155] != 255 && LOOKUP_TABLE[156] != 255 && LOOKUP_TABLE[157] != 255 && LOOKUP_TABLE[158] != 255 && LOOKUP_TABLE[159] != 255);
    assert(LOOKUP_TABLE[160] != 255 && LOOKUP_TABLE[161] != 255 && LOOKUP_TABLE[162] != 255 && LOOKUP_TABLE[163] != 255 && LOOKUP_TABLE[164] != 255);
    assert(LOOKUP_TABLE[165] != 255 && LOOKUP_TABLE[166] != 255 && LOOKUP_TABLE[167] != 255 && LOOKUP_TABLE[168] != 255 && LOOKUP_TABLE[169] != 255);
    assert(LOOKUP_TABLE[170] != 255 && LOOKUP_TABLE[171] != 255 && LOOKUP_TABLE[172] != 255 && LOOKUP_TABLE[173] != 255 && LOOKUP_TABLE[174] != 255);
    assert(LOOKUP_TABLE[175] != 255 && LOOKUP_TABLE[176] != 255 && LOOKUP_TABLE[177] != 255 && LOOKUP_TABLE[178] != 255 && LOOKUP_TABLE[179] != 255);
    assert(LOOKUP_TABLE[180] != 255 && LOOKUP_TABLE[181] != 255 && LOOKUP_TABLE[182] != 255 && LOOKUP_TABLE[183] != 255 && LOOKUP_TABLE[184] != 255);
    assert(LOOKUP_TABLE[185] != 255 && LOOKUP_TABLE[186] != 255 && LOOKUP_TABLE[187] != 255 && LOOKUP_TABLE[188] != 255 && LOOKUP_TABLE[189] != 255);
    assert(LOOKUP_TABLE[190] != 255 && LOOKUP_TABLE[191] != 255 && LOOKUP_TABLE[192] != 255 && LOOKUP_TABLE[193] != 255 && LOOKUP_TABLE[194] != 255);
    assert(LOOKUP_TABLE[195] != 255 && LOOKUP_TABLE[196] != 255 && LOOKUP_TABLE[197] != 255 && LOOKUP_TABLE[198] != 255 && LOOKUP_TABLE[199] != 255);
    assert(LOOKUP_TABLE[200] != 255 && LOOKUP_TABLE[201] != 255 && LOOKUP_TABLE[202] != 255 && LOOKUP_TABLE[203] != 255 && LOOKUP_TABLE[204] != 255);
    assert(LOOKUP_TABLE[205] != 255 && LOOKUP_TABLE[206] != 255 && LOOKUP_TABLE[207] != 255 && LOOKUP_TABLE[208] != 255 && LOOKUP_TABLE[209] != 255);
    assert(LOOKUP_TABLE[210] != 255 && LOOKUP_TABLE[211] != 255 && LOOKUP_TABLE[212] != 255 && LOOKUP_TABLE[213] != 255 && LOOKUP_TABLE[214] != 255);
    assert(LOOKUP_TABLE[215] != 255 && LOOKUP_TABLE[216] != 255 && LOOKUP_TABLE[217] != 255 && LOOKUP_TABLE[218] != 255 && LOOKUP_TABLE[219] != 255);
    assert(LOOKUP_TABLE[220] != 255 && LOOKUP_TABLE[221] != 255 && LOOKUP_TABLE[222] != 255 && LOOKUP_TABLE[223] != 255 && LOOKUP_TABLE[224] != 255);
    assert(LOOKUP_TABLE[225] != 255 && LOOKUP_TABLE[226] != 255 && LOOKUP_TABLE[227] != 255 && LOOKUP_TABLE[228] != 255 && LOOKUP_TABLE[229] != 255);
    assert(LOOKUP_TABLE[230] != 255 && LOOKUP_TABLE[231] != 255 && LOOKUP_TABLE[232] != 255 && LOOKUP_TABLE[233] != 255 && LOOKUP_TABLE[234] != 255);
    assert(LOOKUP_TABLE[235] != 255 && LOOKUP_TABLE[236] != 255 && LOOKUP_TABLE[237] != 255 && LOOKUP_TABLE[238] != 255 && LOOKUP_TABLE[239] != 255);
    assert(LOOKUP_TABLE[240] != 255 && LOOKUP_TABLE[241] != 255 && LOOKUP_TABLE[242] != 255 && LOOKUP_TABLE[243] != 255 && LOOKUP_TABLE[244] != 255);
    assert(LOOKUP_TABLE[245] != 255 && LOOKUP_TABLE[246] != 255 && LOOKUP_TABLE[247] != 255 && LOOKUP_TABLE[248] != 255 && LOOKUP_TABLE[249] != 255);
    assert(LOOKUP_TABLE[250] != 255 && LOOKUP_TABLE[251] != 255 && LOOKUP_TABLE[252] != 255 && LOOKUP_TABLE[253] != 255 && LOOKUP_TABLE[254] != 255);
}

/// The substitution keeps Montgomery words below the modulus: the word of a field element
/// is replaced by the word of a field element. The only word with four top bytes of 255 is
/// p - 1, which the substitution leaves as it is.
pub proof fn lemma_substitution_stays_below_modulus(w: int)
    requires
        0 <= w < prime(),
    ensures
        0 <= le_word(substitute(le_bytes(w))) < prime(),
{
    let b = le_bytes(w);
    let c = substitute(b);
    lemma_le_bytes_spell(w);
    assert(c[0] == LOOKUP_TABLE[b[0] as int] && c[1] == LOOKUP_TABLE[b[1] as int]);
    assert(c[2] == LOOKUP_TABLE[b[2] as int] && c[3] == LOOKUP_TABLE[b[3] as int]);
    assert(c[4] == LOOKUP_TABLE[b[4] as int] && c[5] == LOOKUP_TABLE[b[5] as int]);
    assert(c[6] == LOOKUP_TABLE[b[6] as int] && c[7] == LOOKUP_TABLE[b[7] as int]);
    if b[4] == 255 && b[5] == 255 && b[6] == 255 && b[7] == 255 {
        assert(b[0] == 0 && b[1] == 0 && b[2] == 0 && b[3] == 0);
        assert(LOOKUP_TABLE[0] == 0 && LOOKUP_TABLE[255] == 255);
    } else {
        if b[4] < 255 {
            lemma_only_255_gives_255(b[4] as int);
        }
        if b[5] < 255 {
            lemma_only_255_gives_255(b[5] as int);
        }
        if b[6] < 255 {
            lemma_only_255_gives_255(b[6] as int);
        }
        if b[7] < 255 {
            lemma_only_255_gives_255(b[7] as int);
        }
    }
}

/// The bytes of a word, least significant first.
pub fn word_to_le_bytes(w: u64) -> (b: [u8; 8])
    ensures
        b@ == le_bytes(w as int),
{
    let b: [u8; 8] = [
        (w % 0x100) as u8,
        ((w / 0x100) % 0x100) as u8,
        ((w / 0x1_0000) % 0x100) as u8,
        ((w / 0x100_0000) % 0x100) as u8,
        ((w / 0x1_0000_0000) % 0x100) as u8,
        ((w / 0x100_0000_0000) % 0x100) as u8,
        ((w / 0x1_0000_0000_0000) % 0x100) as u8,
        ((w / 0x100_0000_0000_0000) % 0x100) as u8,
    ];
    assert(b@ =~= le_bytes(w as int));
    b
}

/// The word with the given bytes, least significant first.
pub fn word_from_le_bytes(b: &[u8; 8]) -> (w: u64)
    ensures
        w == le_word(b@),
{
    (b[0] as u64) + (b[1] as u64) * 0x100 + (b[2] as u64) * 0x1_0000 + (b[3] as u64) * 0x100_0000 + (
    b[4] as u64) * 0x1_0000_0000 + (b[5] as u64) * 0x100_0000_0000 + (b[6] as u64)
        * 0x1_0000_0000_0000 + (b[7] as u64) * 0x100_0000_0000_0000
}

/// Applies the S-box to a field element: the bytes of its Montgomery word are substituted,
/// and the result is the element with the new Montgomery word.
pub fn apply_split_and_lookup(x: Felt) -> (r: Felt)
    ensures
        r.valid(),
        r.value == split_and_lookup_spec(x.value as int),
        to_mont(r.value as int) == le_word(substitute(le_bytes(to_mont(x.value as int)))),
{
    let mut bytes = word_to_le_bytes(x.inner());
    let ghost before = bytes@;
    let mut i: usize = 0;
    while i < 8
        invariant
            i <= 8,
            before.len() == 8,
            forall|k: int| 0 <= k < i ==> (#[trigger] bytes[k]) == LOOKUP_TABLE[before[k] as int],
            forall|k: int| i <= k < 8 ==> (#[trigger] bytes[k]) == before[k],
        decreases 8 - i,
    {
        bytes[i] = LOOKUP_TABLE[bytes[i] as usize];
        i += 1;
    }
    assert(bytes@ =~= substitute(before));
    proof {
        lemma_substitution_stays_below_modulus(to_mont(x.value as int));
        lemma_mont_word_round_trip(le_word(bytes@));
    }
    Felt::from_mont(word_from_le_bytes(&bytes))
}

} // verus!
