//! The Tip5 hash function: a sponge of 16 field elements with a rate of 10 and a digest of
//! 5 elements, over a permutation of 5 rounds.

use crate::field::{add_mod, lemma_residues_determine, prime, residues, Felt, MODULUS};
use crate::mds::mds_16x16::{mds_multiply, mds_product, MDS_16X16};
use crate::sbox::{apply_split_and_lookup, LOOKUP_TABLE};
use crate::sponge::{
    absorb, chunk_count, chunk_element, chunk_elements, count_chunks, filled, initial_state,
    lemma_absorb_step, lemma_digest_congruent, lemma_empty_digest, lemma_single_block_digest,
    sponge_digest, zeros, Permutation,
};
use crate::tip::layers::{add_constants_spec, canonical, constants, sbox_layer, LOOKUP_LANES};
use core::ops::Range;
use vstd::arithmetic::div_mod::*;
use vstd::prelude::*;

verus! {

/// Number of field elements in the sponge state.
pub const STATE_WIDTH: usize = 16;

/// Number of state elements, from element 0, that input is absorbed into.
pub const RATE_WIDTH: usize = 10;

/// Number of field elements in a digest; the digest is read from the first elements of the
/// state.
pub const DIGEST_SIZE: usize = 5;

/// Number of rounds of the permutation.
pub const NUM_ROUNDS: usize = 5;

/// Round constants, one row per round.
pub const ARK: [[u64; 16]; 5] = [
    [
        13630775303355457758, 16896927574093233874, 10379449653650130495, 1965408364413093495,
        15232538947090185111, 15892634398091747074, 3989134140024871768, 2851411912127730865,
        8709136439293758776, 3694858669662939734, 12692440244315327141, 10722316166358076749,
        12745429320441639448, 17932424223723990421, 7558102534867937463, 15551047435855531404,
    ],
    [
        17532528648579384106, 5216785850422679555, 15418071332095031847, 11921929762955146258,
        9738718993677019874, 3464580399432997147, 13408434769117164050, 264428218649616431,
        4436247869008081381, 4063129435850804221, 2865073155741120117, 5749834437609765994,
        6804196764189408435, 17060469201292988508, 9475383556737206708, 12876344085611465020,
    ],
    [
        13835756199368269249, 1648753455944344172, 9836124473569258483, 12867641597107932229,
        11254152636692960595, 16550832737139861108, 11861573970480733262, 1256660473588673495,
        13879506000676455136, 10564103842682358721, 16142842524796397521, 3287098591948630584,
        685911471061284805, 5285298776918878023, 18310953571768047354, 3142266350630002035,
    ],
    [
        549990724933663297, 4901984846118077401, 11458643033696775769, 8706785264119212710,
        12521758138015724072, 11877914062416978196, 11333318251134523752, 3933899631278608623,
        16635128972021157924, 10291337173108950450, 4142107155024199350, 16973934533787743537,
        11068111539125175221, 17546769694830203606, 5315217744825068993, 4609594252909613081,
    ],
    [
        3350107164315270407, 17715942834299349177, 9600609149219873996, 12894357635820003949,
        4597649658040514631, 7735563950920491847, 1663379455870887181, 13889298103638829706,
        7375530351220884434, 3502022433285269151, 9231805330431056952, 9252272755288523725,
        10014268662326746219, 15565031632950843234, 1209725273521819323, 6024642864597845108,
    ],
];

/// A digest of 5 field elements.
#[derive(Clone, Copy, Debug, PartialEq, Eq)]
pub struct ElementDigest(pub [Felt; 5]);

impl ElementDigest {
    /// A digest with the given elements.
    pub fn new(value: [Felt; 5]) -> (r: Self)
        ensures
            r.0 == value,
    {
        ElementDigest(value)
    }

    /// The elements of the digest.
    pub fn as_elements(&self) -> (r: &[Felt])
        ensures
            r@ == self.0@,
    {
        self.0.as_slice()
    }
}

/// The Tip5 hash function with a digest of 320 bits.
#[allow(non_camel_case_types)]
pub struct Tip5_320();

impl Tip5_320 {
    /// Targeted collision resistance, in bits.
    pub const COLLISION_RESISTANCE: u32 = 160;

    /// Number of rounds of the permutation.
    pub const NUM_ROUNDS: usize = NUM_ROUNDS;

    /// Number of field elements in the sponge state.
    pub const STATE_WIDTH: usize = STATE_WIDTH;

    /// The lanes of the state that input is absorbed into.
    pub const RATE_RANGE: Range<usize> = 0..10;

    /// The lanes of the state that input never touches; the first one holds the length tag.
    pub const CAPACITY_RANGE: Range<usize> = 10..16;

    /// The lanes of the state that the digest is read from.
    pub const DIGEST_RANGE: Range<usize> = 0..5;

    /// The byte substitution of the S-box.
    pub const LOOKUP: [u8; 256] = LOOKUP_TABLE;

    /// The MDS matrix.
    pub const MDS: [[u64; 16]; 16] = MDS_16X16;

    /// The round constants.
    pub const ARK: [[u64; 16]; 5] = ARK;

    /// Round `round` on residues: S-box layer, MDS product, round constants, in this order.
    pub open spec fn round(x: Seq<int>, round: int) -> Seq<int> {
        add_constants_spec(mds_product(sbox_layer(x)), constants(ARK[round]@))
    }

    /// The first `n` rounds on residues.
    pub open spec fn rounds(x: Seq<int>, n: nat) -> Seq<int>
        decreases n,
    {
        if n == 0 {
            x
        } else {
            Self::round(Self::rounds(x, (n - 1) as nat), n - 1)
        }
    }

    /// The permutation on residues: rounds 0 to 4.
    pub open spec fn permutation(x: Seq<int>) -> Seq<int> {
        Self::rounds(x, NUM_ROUNDS as nat)
    }

    /// The permutation as a function value.
    pub open spec fn permutation_fn() -> Permutation {
        |x: Seq<int>| Self::permutation(x)
    }

    /// The digest of a sequence of field elements.
    pub open spec fn digest_of(elements: Seq<int>) -> Seq<int> {
        sponge_digest(Self::permutation_fn(), STATE_WIDTH as nat, RATE_WIDTH as int, DIGEST_SIZE as int, elements)
    }

    /// The state that `merge` permutes: the two digests in the first lanes of the rate, the
    /// rate width as the tag.
    pub open spec fn merge_state(a: Seq<int>, b: Seq<int>) -> Seq<int> {
        Seq::new(
            STATE_WIDTH as nat,
            |i: int|
                if i < DIGEST_SIZE {
                    a[i]
                } else if i < 2 * DIGEST_SIZE {
                    b[i - DIGEST_SIZE]
                } else if i == RATE_WIDTH {
                    RATE_WIDTH as int
                } else {
                    0
                },
        )
    }

    /// The state that `merge_with_int` permutes: the seed, then the value modulo p; a value
    /// at or above p leaves its quotient by p in the next lane and counts as two elements.
    pub open spec fn merge_with_int_state(seed: Seq<int>, value: int) -> Seq<int> {
        Seq::new(
            STATE_WIDTH as nat,
            |i: int|
                if i < DIGEST_SIZE {
                    seed[i]
                } else if i == DIGEST_SIZE {
                    value % prime()
                } else if i == DIGEST_SIZE + 1 && value >= prime() {
                    value / prime()
                } else if i == RATE_WIDTH {
                    if value < prime() {
                        DIGEST_SIZE + 1
                    } else {
                        DIGEST_SIZE + 2
                    }
                } else {
                    0
                },
        )
    }

    /// Hashes a byte string: its 7-byte chunks, the last one padded with a byte of value 1,
    /// are absorbed as field elements. The digest is that of `hash_elements` on those
    /// elements; the empty string has the all-zero digest.
    pub fn hash(bytes: &[u8]) -> (digest: ElementDigest)
        ensures
            residues(digest.0@) == Self::digest_of(chunk_elements(bytes@)),
            canonical(residues(digest.0@)),
            bytes@.len() == 0 ==> residues(digest.0@) == zeros(DIGEST_SIZE as nat),
    {
        let num_elements = count_chunks(bytes);
        let ghost input = chunk_elements(bytes@);
        let ghost perm = Self::permutation_fn();

        let mut state = [Felt::zero(); 16];
        state[RATE_WIDTH] = Felt::new(num_elements as u64);
        let ghost start = residues(state@);
        assert(start =~= initial_state(STATE_WIDTH as nat, RATE_WIDTH as int, (input.len() as int) % prime()));
        assert(input.take(0) =~= Seq::<int>::empty());

        let mut i: usize = 0;
        let mut k: usize = 0;
        while k < num_elements
            invariant
                k <= num_elements,
                num_elements == chunk_count(bytes.len() as int),
                i == k % RATE_WIDTH,
                input == chunk_elements(bytes@),
                perm == Self::permutation_fn(),
                residues(state@) == absorb(perm, RATE_WIDTH as int, start, input.take(k as int)),
                canonical(residues(state@)),
            decreases num_elements - k,
        {
            let ghost before = residues(state@);
            let ghost added = before.update(i as int, add_mod(before[i as int], input[k as int]));
            proof {
                lemma_absorb_step(perm, RATE_WIDTH as int, start, input, k as int);
                lemma_add_mod_noop(k as int, 1, RATE_WIDTH as int);
                assert(perm(added) == Self::permutation(added));
            }
            i = Self::absorb_element(&mut state, i, chunk_element(bytes, k));
            k += 1;
        }
        assert(input.take(k as int) =~= input);

        if i > 0 {
            Self::apply_permutation(&mut state);
        }
        proof {
            lemma_empty_digest(perm, STATE_WIDTH as nat, RATE_WIDTH as int, DIGEST_SIZE as int);
            if input.len() == 0 {
                assert(input =~= Seq::<int>::empty());
            }
        }
        Self::digest_from(&state)
    }

    /// Hashes a sequence of field elements: the element count is the tag, the elements are
    /// added to the rate lanes one by one, the state is permuted whenever the rate is full
    /// and once more if a partial block is left. The empty sequence has the all-zero
    /// digest.
    pub fn hash_elements(elements: &[Felt]) -> (digest: ElementDigest)
        ensures
            residues(digest.0@) == Self::digest_of(residues(elements@)),
            canonical(residues(digest.0@)),
            elements@.len() == 0 ==> residues(digest.0@) == zeros(DIGEST_SIZE as nat),
    {
        let ghost input = residues(elements@);
        let ghost perm = Self::permutation_fn();

        let mut state = [Felt::zero(); 16];
        state[RATE_WIDTH] = Felt::new(elements.len() as u64);
        let ghost start = residues(state@);
        assert(start =~= initial_state(STATE_WIDTH as nat, RATE_WIDTH as int, (input.len() as int) % prime()));
        assert(input.take(0) =~= Seq::<int>::empty());

        let mut i: usize = 0;
        let mut k: usize = 0;
        while k < elements.len()
            invariant
                k <= elements.len(),
                i == k % RATE_WIDTH,
                input == residues(elements@),
                perm == Self::permutation_fn(),
                residues(state@) == absorb(perm, RATE_WIDTH as int, start, input.take(k as int)),
                canonical(residues(state@)),
            decreases elements.len() - k,
        {
            let ghost before = residues(state@);
            let ghost added = before.update(i as int, add_mod(before[i as int], input[k as int]));
            proof {
                lemma_absorb_step(perm, RATE_WIDTH as int, start, input, k as int);
                lemma_add_mod_noop(k as int, 1, RATE_WIDTH as int);
                assert(perm(added) == Self::permutation(added));
            }
            i = Self::absorb_element(&mut state, i, elements[k]);
            k += 1;
        }
        assert(input.take(k as int) =~= input);

        if i > 0 {
            Self::apply_permutation(&mut state);
        }
        proof {
            lemma_empty_digest(perm, STATE_WIDTH as nat, RATE_WIDTH as int, DIGEST_SIZE as int);
            if input.len() == 0 {
                assert(input =~= Seq::<int>::empty());
            }
        }
        Self::digest_from(&state)
    }

    /// Absorbs one element into lane `i` of the rate and permutes the state if that fills
    /// the rate. Returns the lane for the next element.
    fn absorb_element(state: &mut [Felt; 16], i: usize, element: Felt) -> (next: usize)
        requires
            i < RATE_WIDTH,
            canonical(residues(old(state)@)),
        ensures
            next == (i + 1) % (RATE_WIDTH as int),
            residues(final(state)@) == ({
                let before = residues(old(state)@);
                let added = before.update(i as int, add_mod(before[i as int], element.value as int));
                if i + 1 == RATE_WIDTH {
                    Self::permutation(added)
                } else {
                    added
                }
            }),
            canonical(residues(final(state)@)),
    {
        let ghost before = residues(state@);
        state[i] = state[i].add(element);
        assert(residues(state@) =~= before.update(i as int, add_mod(before[i as int], element.value as int)));
        if (i + 1) % RATE_WIDTH == 0 {
            Self::apply_permutation(state);
            0
        } else {
            i + 1
        }
    }

    /// Merges two digests into one: both are copied into the rate, the tag is the rate
    /// width, and the digest is read after one permutation.
    pub fn merge(values: &[ElementDigest; 2]) -> (digest: ElementDigest)
        ensures
            residues(digest.0@) == Self::permutation(
                Self::merge_state(residues(values[0].0@), residues(values[1].0@)),
            ).subrange(0, DIGEST_SIZE as int),
            canonical(residues(digest.0@)),
    {
        let mut state = [Felt::zero(); 16];
        let mut i: usize = 0;
        while i < DIGEST_SIZE
            invariant
                i <= DIGEST_SIZE,
                forall|j: int|
                    0 <= j < STATE_WIDTH ==> (#[trigger] state[j]).value == (if j < i {
                        values[0].0[j].value
                    } else if DIGEST_SIZE <= j < DIGEST_SIZE + i {
                        values[1].0[j - DIGEST_SIZE].value
                    } else {
                        0
                    }),
            decreases DIGEST_SIZE - i,
        {
            state[i] = values[0].0[i];
            state[DIGEST_SIZE + i] = values[1].0[i];
            i += 1;
        }
        state[RATE_WIDTH] = Felt::new(RATE_WIDTH as u64);
        assert(residues(state@) =~= Self::merge_state(residues(values[0].0@), residues(values[1].0@)));

        Self::apply_permutation(&mut state);
        Self::digest_from(&state)
    }

    /// Merges a digest with an integer: the seed and the integer, as one field element or as
    /// two if it does not fit into one, are permuted once with their count as the tag.
    pub fn merge_with_int(seed: ElementDigest, value: u64) -> (digest: ElementDigest)
        ensures
            residues(digest.0@) == Self::permutation(
                Self::merge_with_int_state(residues(seed.0@), value as int),
            ).subrange(0, DIGEST_SIZE as int),
            canonical(residues(digest.0@)),
    {
        let mut state = [Felt::zero(); 16];
        let mut i: usize = 0;
        while i < DIGEST_SIZE
            invariant
                i <= DIGEST_SIZE,
                forall|j: int| 0 <= j < i ==> (#[trigger] state[j]) == seed.0[j],
                forall|j: int| i <= j < STATE_WIDTH ==> (#[trigger] state[j]).value == 0,
            decreases DIGEST_SIZE - i,
        {
            state[i] = seed.0[i];
            i += 1;
        }
        state[DIGEST_SIZE] = Felt::new(value);
        if value < MODULUS {
            state[RATE_WIDTH] = Felt::new(DIGEST_SIZE as u64 + 1);
        } else {
            state[DIGEST_SIZE + 1] = Felt::new(value / MODULUS);
            state[RATE_WIDTH] = Felt::new(DIGEST_SIZE as u64 + 2);
        }
        assert(residues(state@) =~= Self::merge_with_int_state(residues(seed.0@), value as int));

        Self::apply_permutation(&mut state);
        Self::digest_from(&state)
    }

    /// Applies the permutation to the state: rounds 0 to 4, in place.
    pub fn apply_permutation(state: &mut [Felt; 16])
        ensures
            residues(final(state)@) == Self::permutation(residues(old(state)@)),
            canonical(residues(final(state)@)),
    {
        let ghost input = residues(state@);
        let mut i: usize = 0;
        while i < NUM_ROUNDS
            invariant
                i <= NUM_ROUNDS,
                residues(state@) == Self::rounds(input, i as nat),
                i > 0 ==> canonical(residues(state@)),
            decreases NUM_ROUNDS - i,
        {
            Self::apply_round(state, i);
            i += 1;
        }
    }

    /// Applies round `round` to the state: S-box layer, MDS product, round constants.
    pub fn apply_round(state: &mut [Felt; 16], round: usize)
        requires
            round < NUM_ROUNDS,
        ensures
            residues(final(state)@) == Self::round(residues(old(state)@), round as int),
            canonical(residues(final(state)@)),
    {
        Self::apply_sbox(state);
        Self::apply_mds(state);
        Self::add_constants(state, &ARK[round]);
    }

    /// Multiplies the state by the MDS matrix.
    pub fn apply_mds(state: &mut [Felt; 16])
        ensures
            residues(final(state)@) == mds_product(residues(old(state)@)),
    {
        mds_multiply(state)
    }

    /// Adds the round constants `ark` to the state, lane by lane.
    pub fn add_constants(state: &mut [Felt; 16], ark: &[u64; 16])
        ensures
            residues(final(state)@) == add_constants_spec(residues(old(state)@), constants(ark@)),
            canonical(residues(final(state)@)),
    {
        let ghost input = residues(state@);
        let mut i: usize = 0;
        while i < STATE_WIDTH
            invariant
                i <= STATE_WIDTH,
                input.len() == STATE_WIDTH,
                forall|j: int| 0 <= j < i ==> (#[trigger] state[j]).value == add_mod(input[j], ark[j] as int),
                forall|j: int| i <= j < STATE_WIDTH ==> (#[trigger] state[j]).value == input[j],
            decreases STATE_WIDTH - i,
        {
            proof {
                lemma_add_mod_noop_right(input[i as int], ark[i as int] as int, prime());
            }
            state[i] = state[i].add(Felt::new(ark[i]));
            i += 1;
        }
        assert(residues(state@) =~= add_constants_spec(input, constants(ark@)));
    }

    /// Applies the S-box layer: split-and-lookup on the first four lanes, the seventh power
    /// on the others.
    pub fn apply_sbox(state: &mut [Felt; 16])
        ensures
            residues(final(state)@) == sbox_layer(residues(old(state)@)),
    {
        let ghost input = residues(state@);
        let mut i: usize = 0;
        while i < STATE_WIDTH
            invariant
                i <= STATE_WIDTH,
                input.len() == STATE_WIDTH,
                forall|j: int| 0 <= j < i ==> (#[trigger] state[j]).value == sbox_layer(input)[j],
                forall|j: int| i <= j < STATE_WIDTH ==> (#[trigger] state[j]).value == input[j],
            decreases STATE_WIDTH - i,
        {
            if i < LOOKUP_LANES {
                state[i] = apply_split_and_lookup(state[i]);
            } else {
                state[i] = state[i].exp7();
            }
            i += 1;
        }
        assert(residues(state@) =~= sbox_layer(input));
    }

    /// The digest in a state: its first elements.
    fn digest_from(state: &[Felt; 16]) -> (digest: ElementDigest)
        ensures
            residues(digest.0@) == residues(state@).subrange(0, DIGEST_SIZE as int),
            canonical(residues(state@)) ==> canonical(residues(digest.0@)),
    {
        let digest = ElementDigest::new([state[0], state[1], state[2], state[3], state[4]]);
        assert(residues(digest.0@) =~= residues(state@).subrange(0, DIGEST_SIZE as int));
        digest
    }

    /// The permutation is a function of the state: whenever `apply_permutation` runs on
    /// equal states, it leaves equal states.
    pub proof fn lemma_permutation_deterministic(
        a: Seq<Felt>,
        b: Seq<Felt>,
        after_a: Seq<Felt>,
        after_b: Seq<Felt>,
    )
        requires
            a == b,
            residues(after_a) == Self::permutation(residues(a)),
            residues(after_b) == Self::permutation(residues(b)),
        ensures
            after_a == after_b,
    {
        lemma_residues_determine(after_a, after_b);
    }

    /// The digest that `hash` gives for a byte string is the digest that `hash_elements`
    /// gives for the elements that the chunks of the string spell.
    pub proof fn lemma_hash_is_hash_elements(
        bytes: Seq<u8>,
        elements: Seq<Felt>,
        of_bytes: Seq<Felt>,
        of_elements: Seq<Felt>,
    )
        requires
            residues(elements) == chunk_elements(bytes),
            residues(of_bytes) == Self::digest_of(chunk_elements(bytes)),
            residues(of_elements) == Self::digest_of(residues(elements)),
        ensures
            of_bytes == of_elements,
    {
        lemma_residues_determine(of_bytes, of_elements);
    }

    /// The digest that `hash_elements` gives depends on the field elements only: integers
    /// that are congruent modulo p, lane by lane, give the same digest.
    pub proof fn lemma_hash_elements_reads_residues(a: Seq<Felt>, b: Seq<Felt>)
        requires
            a.len() == b.len(),
            forall|i: int| 0 <= i < a.len() ==> a[i].value % MODULUS == b[i].value % MODULUS,
        ensures
            Self::digest_of(residues(a)) == Self::digest_of(residues(b)),
    {
        lemma_digest_congruent(
            Self::permutation_fn(),
            STATE_WIDTH as nat,
            RATE_WIDTH as int,
            DIGEST_SIZE as int,
            residues(a),
            residues(b),
        );
    }

    /// Merging a digest with an integer is hashing the elements of the digest followed by
    /// the integer: by the integer itself if it is below p, else by its remainder and its
    /// quotient by p.
    pub proof fn lemma_merge_with_int_is_hash_elements(seed: Seq<int>, value: int)
        requires
            seed.len() == DIGEST_SIZE,
            canonical(seed),
            0 <= value <= u64::MAX,
        ensures
            Self::permutation(Self::merge_with_int_state(seed, value)).subrange(0, DIGEST_SIZE as int)
                == Self::digest_of(
                if value < prime() {
                    seed.push(value)
                } else {
                    seed.push(value % prime()).push(value / prime())
                },
            ),
    {
        let p = prime();
        let elements = if value < p {
            seed.push(value)
        } else {
            seed.push(value % p).push(value / p)
        };
        let start = initial_state(STATE_WIDTH as nat, RATE_WIDTH as int, (elements.len() as int) % p);
        lemma_single_block_digest(
            Self::permutation_fn(),
            STATE_WIDTH as nat,
            RATE_WIDTH as int,
            DIGEST_SIZE as int,
            elements,
        );
        assert forall|i: int| 0 <= i < elements.len() implies (#[trigger] elements[i]) % p == elements[i] by {
            if i < DIGEST_SIZE {
                assert(elements[i] == seed[i]);
            }
            lemma_small_mod(elements[i] as nat, p as nat);
        }
        lemma_small_mod(elements.len(), p as nat);
        assert(start[RATE_WIDTH as int] == elements.len());
        assert forall|i: int| 0 <= i < STATE_WIDTH implies Self::merge_with_int_state(seed, value)[i] == filled(
            start,
            elements,
        )[i] by {
            if i < elements.len() {
                assert(elements[i] % p == elements[i]);
            }
        }
        assert(Self::merge_with_int_state(seed, value) =~= filled(start, elements));
    }

    /// Merging two digests is hashing the elements of the first followed by those of the
    /// second: together they fill the rate.
    pub proof fn lemma_merge_is_hash_elements(a: Seq<int>, b: Seq<int>)
        requires
            a.len() == DIGEST_SIZE,
            b.len() == DIGEST_SIZE,
            canonical(a),
            canonical(b),
        ensures
            Self::permutation(Self::merge_state(a, b)).subrange(0, DIGEST_SIZE as int) == Self::digest_of(a + b),
    {
        let p = prime();
        let elements = a + b;
        let start = initial_state(STATE_WIDTH as nat, RATE_WIDTH as int, (elements.len() as int) % p);
        lemma_single_block_digest(
            Self::permutation_fn(),
            STATE_WIDTH as nat,
            RATE_WIDTH as int,
            DIGEST_SIZE as int,
            elements,
        );
        assert forall|i: int| 0 <= i < elements.len() implies (#[trigger] elements[i]) % p == elements[i] by {
            if i < DIGEST_SIZE {
                assert(elements[i] == a[i]);
            } else {
                assert(elements[i] == b[i - DIGEST_SIZE]);
            }
            lemma_small_mod(elements[i] as nat, p as nat);
        }
        lemma_small_mod(elements.len(), p as nat);
        assert(start[RATE_WIDTH as int] == elements.len());
        assert forall|i: int| 0 <= i < STATE_WIDTH implies Self::merge_state(a, b)[i] == filled(start, elements)[i] by {
            if i < 2 * DIGEST_SIZE {
                assert(elements[i] % p == elements[i]);
            }
        }
        assert(Self::merge_state(a, b) =~= filled(start, elements));
    }
}

} // verus!
