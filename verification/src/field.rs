//! The prime field with modulus p = 2^64 - 2^32 + 1.
//!
//! A [`Felt`] stores the canonical residue of a field element. The Montgomery word of an
//! element, `value * 2^64 mod p`, is what the byte-wise substitution layer of the hash
//! functions reads and writes; [`Felt::inner`] and [`Felt::from_mont`] convert to and from it.

use vstd::arithmetic::div_mod::*;
use vstd::arithmetic::mul::*;
use vstd::prelude::*;

verus! {

/// The field modulus p = 2^64 - 2^32 + 1.
pub const MODULUS: u64 = 0xffff_ffff_0000_0001;

/// 2^64 mod p, the Montgomery radix.
pub const MONT_R: u64 = 0xffff_ffff;

/// 2^(-64) mod p, the inverse of the Montgomery radix.
pub const MONT_R_INV: u64 = 0xffff_fffe_0000_0001;

/// The modulus as a mathematical integer.
pub open spec fn prime() -> int {
    MODULUS as int
}

/// Field addition on integers.
pub open spec fn add_mod(a: int, b: int) -> int {
    (a + b) % prime()
}

/// Field subtraction on integers.
pub open spec fn sub_mod(a: int, b: int) -> int {
    (a - b) % prime()
}

/// Field multiplication on integers.
pub open spec fn mul_mod(a: int, b: int) -> int {
    (a * b) % prime()
}

/// The seventh power in the field.
pub open spec fn pow7_mod(a: int) -> int {
    (a * a * a * a * a * a * a) % prime()
}

/// The Montgomery word of the residue `v`: `v * 2^64 mod p`.
pub open spec fn to_mont(v: int) -> int {
    (v * (MONT_R as int)) % prime()
}

/// Montgomery reduction: `x / 2^64 mod p`. Applied to a Montgomery word it gives back the
/// residue that the word stands for.
pub open spec fn mont_reduce_spec(x: int) -> int {
    (x * (MONT_R_INV as int)) % prime()
}

/// An element of the field.
#[derive(Clone, Copy, Debug, PartialEq, Eq, Structural)]
pub struct Felt {
    /// The residue; every constructor and every operation leaves it below the modulus.
    pub value: u64,
}

impl Felt {
    /// The residue is canonical.
    pub open spec fn valid(self) -> bool {
        self.value < MODULUS
    }

    /// The element `value mod p`.
    pub fn new(value: u64) -> (r: Felt)
        ensures
            r.valid(),
            r.value == value % MODULUS,
    {
        Felt { value: value % MODULUS }
    }

    /// The additive identity.
    pub fn zero() -> (r: Felt)
        ensures
            r.value == 0,
    {
        Felt { value: 0 }
    }

    /// The multiplicative identity.
    pub fn one() -> (r: Felt)
        ensures
            r.value == 1,
    {
        Felt { value: 1 }
    }

    /// The canonical integer of the element.
    pub fn as_int(&self) -> (r: u64)
        ensures
            r == self.value % MODULUS,
    {
        self.value % MODULUS
    }

    /// The Montgomery word of the element.
    pub fn inner(&self) -> (w: u64)
        ensures
            w < MODULUS,
            w == to_mont(self.value as int),
    {
        proof {
            lemma_mul_upper_bound(self.value as int, u64::MAX as int, MONT_R as int, MONT_R as int);
        }
        let wide: u128 = (self.value as u128) * (MONT_R as u128);
        (wide % (MODULUS as u128)) as u64
    }

    /// The element that the Montgomery word `word` stands for. Any 64-bit word is accepted:
    /// one at or above the modulus stands for its residue.
    pub fn from_mont(word: u64) -> (r: Felt)
        ensures
            r.valid(),
            r.value == mont_reduce_spec(word as int),
    {
        Felt { value: mont_reduce(word as u128) }
    }

    /// Field addition.
    pub fn add(self, rhs: Felt) -> (r: Felt)
        ensures
            r.valid(),
            r.value == add_mod(self.value as int, rhs.value as int),
    {
        let wide: u128 = (self.value as u128) + (rhs.value as u128);
        Felt { value: (wide % (MODULUS as u128)) as u64 }
    }

    /// Field subtraction.
    pub fn sub(self, rhs: Felt) -> (r: Felt)
        ensures
            r.valid(),
            r.value == sub_mod(self.value as int, rhs.value as int),
    {
        let back: u64 = rhs.value % MODULUS;
        let wide: u128 = (self.value as u128) + ((MODULUS - back) as u128);
        proof {
            // a + (p - b mod p) and a - b differ by a multiple of p
            let a = self.value as int;
            let b = rhs.value as int;
            lemma_fundamental_div_mod(b, prime());
            lemma_mod_multiples_vanish(1 + b / prime(), a - b, prime());
            assert(a + (prime() - b % prime()) == prime() * (1 + b / prime()) + (a - b)) by {
                lemma_mul_is_distributive_add(prime(), 1, b / prime());
            }
        }
        Felt { value: (wide % (MODULUS as u128)) as u64 }
    }

    /// Field multiplication.
    pub fn mul(self, rhs: Felt) -> (r: Felt)
        ensures
            r.valid(),
            r.value == mul_mod(self.value as int, rhs.value as int),
    {
        proof {
            lemma_mul_upper_bound(self.value as int, u64::MAX as int, rhs.value as int, u64::MAX as int);
        }
        let wide: u128 = (self.value as u128) * (rhs.value as u128);
        Felt { value: (wide % (MODULUS as u128)) as u64 }
    }

    /// The seventh power, the monomial of the substitution layer.
    pub fn exp7(self) -> (r: Felt)
        ensures
            r.valid(),
            r.value == pow7_mod(self.value as int),
    {
        let x2 = self.mul(self);
        let x4 = x2.mul(x2);
        let x3 = x2.mul(self);
        let x7 = x3.mul(x4);
        proof {
            lemma_pow7_chain(self.value as int);
        }
        x7
    }
}

/// The residues of a sequence of field elements.
pub open spec fn residues(s: Seq<Felt>) -> Seq<int> {
    Seq::new(s.len(), |i: int| s[i].value as int)
}

/// A sequence of field elements is determined by its residues.
pub proof fn lemma_residues_determine(a: Seq<Felt>, b: Seq<Felt>)
    requires
        residues(a) == residues(b),
    ensures
        a == b,
{
    assert(a.len() == residues(a).len());
    assert(b.len() == residues(b).len());
    assert forall|i: int| 0 <= i < a.len() implies a[i] == b[i] by {
        assert(residues(a)[i] == a[i].value);
        assert(residues(b)[i] == b[i].value);
    }
    assert(a =~= b);
}

/// Montgomery reduction of a 128-bit value: `x / 2^64 mod p`, always below the modulus.
pub fn mont_reduce(x: u128) -> (w: u64)
    ensures
        w < MODULUS,
        w == mont_reduce_spec(x as int),
{
    let low: u128 = x % (MODULUS as u128);
    proof {
        lemma_mul_upper_bound(low as int, MODULUS as int, MONT_R_INV as int, MONT_R_INV as int);
        lemma_mul_mod_noop_left(x as int, MONT_R_INV as int, prime());
    }
    let wide: u128 = low * (MONT_R_INV as u128);
    (wide % (MODULUS as u128)) as u64
}

/// Squaring twice and multiplying, as `exp7` does, gives the seventh power.
pub proof fn lemma_pow7_chain(a: int)
    ensures
        mul_mod(mul_mod(mul_mod(a, a), a), mul_mod(mul_mod(a, a), mul_mod(a, a))) == pow7_mod(a),
{
    let p = prime();
    let x2 = mul_mod(a, a);
    let x3 = mul_mod(x2, a);
    let x4 = mul_mod(x2, x2);
    lemma_mul_mod_noop_left(a * a, a, p);
    assert(x3 == (a * a * a) % p);
    lemma_mul_mod_noop(a * a, a * a, p);
    assert(x4 == ((a * a) * (a * a)) % p);
    lemma_mul_mod_noop(a * a * a, (a * a) * (a * a), p);
    assert((a * a * a) * ((a * a) * (a * a)) == a * a * a * a * a * a * a) by (nonlinear_arith);
}

/// The other way round: the Montgomery word of the residue that a word below p stands for
/// is that word.
pub proof fn lemma_mont_word_round_trip(w: int)
    requires
        0 <= w < prime(),
    ensures
        to_mont(mont_reduce_spec(w)) == w,
{
    let p = prime();
    let r = MONT_R as int;
    let ri = MONT_R_INV as int;
    lemma_mul_mod_noop_left(w * ri, r, p);
    lemma_mul_is_associative(w, ri, r);
    assert((ri * r) % p == 1);
    lemma_mul_mod_noop_right(w, ri * r, p);
    lemma_small_mod(w as nat, p as nat);
}

/// The Montgomery radix and its inverse cancel: reducing the Montgomery word of a residue
/// gives the residue back.
pub proof fn lemma_mont_round_trip(v: int)
    ensures
        mont_reduce_spec(to_mont(v)) == v % prime(),
{
    let p = prime();
    let r = MONT_R as int;
    let ri = MONT_R_INV as int;
    lemma_mul_mod_noop_left(v * r, ri, p);
    lemma_mul_is_associative(v, r, ri);
    assert((r * ri) % p == 1);
    lemma_mul_mod_noop_right(v, r * ri, p);
}

} // verus!
