//! The layers of a round that do not depend on the state width: the S-box layer and the
//! addition of round constants.

use crate::field::{add_mod, pow7_mod, prime};
use crate::sbox::split_and_lookup_spec;
use vstd::arithmetic::div_mod::*;
use vstd::prelude::*;

verus! {

/// Number of lanes, counted from lane 0, that go through the split-and-lookup S-box; the
/// others are raised to the seventh power.
pub const LOOKUP_LANES: usize = 4;

/// The S-box layer: split-and-lookup on the first four lanes, the seventh power on the rest.
pub open spec fn sbox_layer(x: Seq<int>) -> Seq<int> {
    Seq::new(x.len(), |i: int| if i < LOOKUP_LANES { split_and_lookup_spec(x[i]) } else { pow7_mod(x[i]) })
}

/// The round constants as integers.
pub open spec fn constants(ark: Seq<u64>) -> Seq<int> {
    Seq::new(ark.len(), |i: int| ark[i] as int)
}

/// The addition of the round constants, lane by lane.
pub open spec fn add_constants_spec(x: Seq<int>, ark: Seq<int>) -> Seq<int> {
    Seq::new(x.len(), |i: int| add_mod(x[i], ark[i]))
}

/// Every lane is below the modulus.
pub open spec fn canonical(x: Seq<int>) -> bool {
    forall|i: int| 0 <= i < x.len() ==> 0 <= #[trigger] x[i] < prime()
}

/// The sum of two stripes of four lanes each, of the state before and after the
/// permutation, on lane `i`.
pub open spec fn jive4_lane(before: Seq<int>, after: Seq<int>, i: int) -> int {
    (before[i] + before[4 + i] + before[8 + i] + before[12 + i] + after[i] + after[4 + i] + after[8 + i]
        + after[12 + i]) % prime()
}

/// The Jive summation: four lanes, each the sum of its stripe before and after.
pub open spec fn jive4(before: Seq<int>, after: Seq<int>) -> Seq<int> {
    Seq::new(4, |i: int| jive4_lane(before, after, i))
}

/// Eight field additions, left to right, give the sum reduced once.
pub proof fn lemma_sum8(a: int, b: int, c: int, d: int, e: int, f: int, g: int, h: int)
    ensures
        add_mod(add_mod(add_mod(add_mod(add_mod(add_mod(add_mod(a, b), c), d), e), f), g), h) == (a + b + c
            + d + e + f + g + h) % prime(),
{
    let p = prime();
    lemma_add_mod_noop_right(c, a + b, p);
    lemma_add_mod_noop_right(d, a + b + c, p);
    lemma_add_mod_noop_right(e, a + b + c + d, p);
    lemma_add_mod_noop_right(f, a + b + c + d + e, p);
    lemma_add_mod_noop_right(g, a + b + c + d + e + f, p);
    lemma_add_mod_noop_right(h, a + b + c + d + e + f + g, p);
}

} // verus!
