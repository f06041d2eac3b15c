//! The sponge construction shared by the three hash functions: the state before absorption,
//! the absorption of field elements, the packing of bytes into field elements, and what
//! holds of them whatever the permutation is.

use crate::field::{add_mod, prime, Felt};
use crate::sbox::{le_word, lemma_le_round_trip, word_from_le_bytes};
use vstd::arithmetic::div_mod::*;
use vstd::prelude::*;

verus! {

/// A permutation of the state, on residues.
pub type Permutation = spec_fn(Seq<int>) -> Seq<int>;

/// The all-zero sequence of length `n`.
pub open spec fn zeros(n: nat) -> Seq<int> {
    Seq::new(n, |i: int| 0int)
}

/// The state before absorption: the length tag in the first capacity lane, zero elsewhere.
pub open spec fn initial_state(width: nat, rate: int, tag: int) -> Seq<int> {
    Seq::new(width, |i: int| if i == rate { tag } else { 0 })
}

/// The state after absorbing `elements` one by one into the rate lanes, with a permutation
/// every time the rate is full.
pub open spec fn absorb(perm: Permutation, rate: int, state: Seq<int>, elements: Seq<int>) -> Seq<int>
    decreases elements.len(),
{
    if elements.len() == 0 {
        state
    } else {
        let head = elements.drop_last();
        let before = absorb(perm, rate, state, head);
        let i = (head.len() as int) % rate;
        let added = before.update(i, add_mod(before[i], elements.last()));
        if i + 1 == rate {
            perm(added)
        } else {
            added
        }
    }
}

/// Absorbing one more element: it is added to the lane after the last one used, and the
/// state is permuted if that fills the rate.
pub proof fn lemma_absorb_step(perm: Permutation, rate: int, state: Seq<int>, elements: Seq<int>, k: int)
    requires
        0 <= k < elements.len(),
    ensures
        absorb(perm, rate, state, elements.take(k + 1)) == ({
            let before = absorb(perm, rate, state, elements.take(k));
            let i = k % rate;
            let added = before.update(i, add_mod(before[i], elements[k]));
            if i + 1 == rate {
                perm(added)
            } else {
                added
            }
        }),
{
    assert(elements.take(k + 1).drop_last() =~= elements.take(k));
}

/// The state after the last permutation: one more if a partial block is left.
pub open spec fn finish(perm: Permutation, rate: int, state: Seq<int>, count: int) -> Seq<int> {
    if count % rate > 0 {
        perm(state)
    } else {
        state
    }
}

/// The digest of a sequence of field elements: the first lanes of the state after
/// absorption, the element count being the length tag.
pub open spec fn sponge_digest(
    perm: Permutation,
    width: nat,
    rate: int,
    digest_size: int,
    elements: Seq<int>,
) -> Seq<int> {
    let start = initial_state(width, rate, (elements.len() as int) % prime());
    finish(perm, rate, absorb(perm, rate, start, elements), elements.len() as int).subrange(0, digest_size)
}

/// The number of 7-byte chunks of a byte string of length `len`, a partial one counted.
pub open spec fn chunk_count(len: int) -> int {
    (len + 6) / 7
}

/// The 8-byte buffer for chunk `k`: its bytes, then zeros; the last chunk is followed by a
/// byte of value 1, at offset 7 if the chunk is full.
pub open spec fn chunk_buffer(bytes: Seq<u8>, k: int) -> Seq<u8> {
    let last = k == chunk_count(bytes.len() as int) - 1;
    let size = if last { bytes.len() - 7 * k } else { 7 };
    Seq::new(8, |t: int| if t < size { bytes[7 * k + t] } else if t == size && last { 1u8 } else { 0u8 })
}

/// The field elements that a byte string is absorbed as: the buffers of its chunks read as
/// little-endian words.
pub open spec fn chunk_elements(bytes: Seq<u8>) -> Seq<int> {
    Seq::new(chunk_count(bytes.len() as int) as nat, |k: int| le_word(chunk_buffer(bytes, k)))
}

/// The number of chunks of a byte string.
pub fn count_chunks(bytes: &[u8]) -> (n: usize)
    ensures
        n == chunk_count(bytes.len() as int),
        n <= bytes.len(),
{
    if bytes.len() % 7 == 0 {
        bytes.len() / 7
    } else {
        bytes.len() / 7 + 1
    }
}

/// The field element for chunk `k` of a byte string.
pub fn chunk_element(bytes: &[u8], k: usize) -> (r: Felt)
    requires
        k < chunk_count(bytes.len() as int),
    ensures
        r.valid(),
        r.value == chunk_elements(bytes@)[k as int],
{
    let n = count_chunks(bytes);
    let start: usize = 7 * k;
    let last = k + 1 == n;
    let size: usize = if last { bytes.len() - start } else { 7 };
    let mut buf = [0u8; 8];
    let mut t: usize = 0;
    while t < size
        invariant
            t <= size <= 7,
            start + size <= bytes.len(),
            forall|j: int| 0 <= j < t ==> (#[trigger] buf[j]) == bytes[start + j],
            forall|j: int| t <= j < 8 ==> (#[trigger] buf[j]) == 0,
        decreases size - t,
    {
        buf[t] = bytes[start + t];
        t += 1;
    }
    if last {
        buf[size] = 1;
    }
    assert(buf@ =~= chunk_buffer(bytes@, k as int));
    Felt::new(word_from_le_bytes(&buf))
}

/// The word of a chunk buffer is below 2^57, hence below the modulus: a chunk is absorbed
/// as the number that its bytes and pad spell.
pub proof fn lemma_chunk_below_modulus(bytes: Seq<u8>, k: int)
    requires
        0 <= k < chunk_count(bytes.len() as int),
    ensures
        0 <= chunk_elements(bytes)[k] < 0x200_0000_0000_0000,
{
    let b = chunk_buffer(bytes, k);
    assert(b[7] <= 1);
}

/// A last chunk of seven bytes fills its buffer up to the pad byte, which then stands at
/// offset 7, the top byte of the word; no further chunk is added for the pad.
pub proof fn lemma_full_last_chunk(bytes: Seq<u8>)
    requires
        bytes.len() > 0,
        bytes.len() % 7 == 0,
    ensures
        chunk_count(bytes.len() as int) == bytes.len() / 7,
        chunk_buffer(bytes, bytes.len() / 7 - 1)[7] == 1,
        forall|t: int|
            0 <= t < 7 ==> (#[trigger] chunk_buffer(bytes, bytes.len() / 7 - 1)[t]) == bytes[bytes.len() - 7 + t],
        chunk_elements(bytes)[bytes.len() / 7 - 1] >= 0x100_0000_0000_0000,
{
    let k = bytes.len() / 7 - 1;
    let b = chunk_buffer(bytes, k);
    assert(b[7] == 1);
    assert(chunk_elements(bytes)[k] == le_word(b));
}

/// The packing of bytes into field elements loses nothing: byte strings that are absorbed as
/// the same elements are the same. The pad byte marks where the last chunk ends.
pub proof fn lemma_chunk_elements_injective(a: Seq<u8>, b: Seq<u8>)
    requires
        chunk_elements(a) == chunk_elements(b),
    ensures
        a == b,
{
    let n = chunk_count(a.len() as int);
    assert(chunk_elements(a).len() == n);
    assert(chunk_elements(b).len() == chunk_count(b.len() as int));
    if n == 0 {
        assert(a =~= b);
    } else {
        // equal elements have equal buffers
        assert forall|k: int| 0 <= k < n implies chunk_buffer(a, k) == chunk_buffer(b, k) by {
            assert(chunk_elements(a)[k] == le_word(chunk_buffer(a, k)));
            assert(chunk_elements(b)[k] == le_word(chunk_buffer(b, k)));
            lemma_le_round_trip(chunk_buffer(a, k));
            lemma_le_round_trip(chunk_buffer(b, k));
        }
        // the pad byte of the last buffer gives the length
        let last = n - 1;
        let size_a = a.len() - 7 * last;
        let size_b = b.len() - 7 * last;
        let buffer_a = chunk_buffer(a, last);
        let buffer_b = chunk_buffer(b, last);
        assert(buffer_a[size_a] == 1 && buffer_b[size_b] == 1);
        if size_a < size_b {
            assert(buffer_a[size_b] == 0);
        }
        if size_b < size_a {
            assert(buffer_b[size_a] == 0);
        }
        assert(a.len() == b.len());
        assert forall|i: int| 0 <= i < a.len() implies a[i] == b[i] by {
            let k = i / 7;
            let t = i % 7;
            assert(chunk_buffer(a, k)[t] == a[7 * k + t]);
            assert(chunk_buffer(b, k)[t] == b[7 * k + t]);
        }
        assert(a =~= b);
    }
}

/// Appending a zero byte changes what is absorbed: the number of elements if the length
/// was a multiple of 7, the last element otherwise.
pub proof fn lemma_trailing_zero_changes_elements(bytes: Seq<u8>)
    ensures
        chunk_elements(bytes.push(0u8)) != chunk_elements(bytes),
{
    if chunk_elements(bytes.push(0u8)) == chunk_elements(bytes) {
        lemma_chunk_elements_injective(bytes.push(0u8), bytes);
        assert(bytes.push(0u8).len() == bytes.len() + 1);
    }
}

/// Absorption reads the elements modulo p only: sequences that agree lane by lane modulo p
/// lead to the same state.
pub proof fn lemma_absorb_congruent(perm: Permutation, rate: int, state: Seq<int>, a: Seq<int>, b: Seq<int>)
    requires
        a.len() == b.len(),
        forall|i: int| 0 <= i < a.len() ==> a[i] % prime() == b[i] % prime(),
    ensures
        absorb(perm, rate, state, a) == absorb(perm, rate, state, b),
    decreases a.len(),
{
    if a.len() > 0 {
        lemma_absorb_congruent(perm, rate, state, a.drop_last(), b.drop_last());
        let before = absorb(perm, rate, state, a.drop_last());
        let i = (a.drop_last().len() as int) % rate;
        lemma_add_mod_noop_right(before[i], a.last(), prime());
        lemma_add_mod_noop_right(before[i], b.last(), prime());
    }
}

/// The digest depends on the field elements that are hashed, not on the integers that
/// represent them.
pub proof fn lemma_digest_congruent(
    perm: Permutation,
    width: nat,
    rate: int,
    digest_size: int,
    a: Seq<int>,
    b: Seq<int>,
)
    requires
        a.len() == b.len(),
        forall|i: int| 0 <= i < a.len() ==> a[i] % prime() == b[i] % prime(),
    ensures
        sponge_digest(perm, width, rate, digest_size, a) == sponge_digest(perm, width, rate, digest_size, b),
{
    lemma_absorb_congruent(perm, rate, initial_state(width, rate, (a.len() as int) % prime()), a, b);
}

/// Nothing absorbed, nothing permuted: the digest of the empty sequence is all zeros.
pub proof fn lemma_empty_digest(perm: Permutation, width: nat, rate: int, digest_size: int)
    requires
        0 <= digest_size <= rate < width,
    ensures
        sponge_digest(perm, width, rate, digest_size, Seq::<int>::empty()) == zeros(digest_size as nat),
{
    let e = Seq::<int>::empty();
    assert(sponge_digest(perm, width, rate, digest_size, e) =~= zeros(digest_size as nat));
}

/// The state with the elements added to its first lanes.
pub open spec fn filled(state: Seq<int>, elements: Seq<int>) -> Seq<int> {
    Seq::new(state.len(), |i: int| if i < elements.len() { add_mod(state[i], elements[i]) } else { state[i] })
}

/// While fewer elements than the rate holds have been absorbed, no permutation has run:
/// element `i` has been added to lane `i`.
pub proof fn lemma_absorb_partial_block(perm: Permutation, rate: int, state: Seq<int>, elements: Seq<int>)
    requires
        elements.len() < rate <= state.len(),
    ensures
        absorb(perm, rate, state, elements) == filled(state, elements),
    decreases elements.len(),
{
    if elements.len() == 0 {
        assert(filled(state, elements) =~= state);
    } else {
        let head = elements.drop_last();
        lemma_absorb_partial_block(perm, rate, state, head);
        let i = head.len() as int;
        lemma_small_mod(i as nat, rate as nat);
        let before = filled(state, head);
        assert(before.update(i, add_mod(before[i], elements.last())) =~= filled(state, elements));
    }
}

/// An input that fits into one block is permuted exactly once: after the last element if
/// it fills the rate, at the end otherwise. The digest is read from the permuted state.
pub proof fn lemma_single_block_digest(
    perm: Permutation,
    width: nat,
    rate: int,
    digest_size: int,
    elements: Seq<int>,
)
    requires
        0 < elements.len() <= rate < width,
    ensures
        sponge_digest(perm, width, rate, digest_size, elements) == perm(
            filled(initial_state(width, rate, (elements.len() as int) % prime()), elements),
        ).subrange(0, digest_size),
{
    let start = initial_state(width, rate, (elements.len() as int) % prime());
    let head = elements.drop_last();
    let i = head.len() as int;
    lemma_absorb_partial_block(perm, rate, start, head);
    lemma_small_mod(i as nat, rate as nat);
    let before = filled(start, head);
    assert(before.update(i, add_mod(before[i], elements.last())) =~= filled(start, elements));
    if elements.len() < rate {
        lemma_small_mod(elements.len(), rate as nat);
    } else {
        lemma_mod_self_0(rate);
    }
}

/// An element appended to the input changes the length tag, whatever the element is, as
/// long as fewer than p elements are hashed.
pub proof fn lemma_longer_input_changes_tag(width: nat, rate: int, count: int)
    requires
        0 <= rate < width,
        0 <= count,
        count + 1 < prime(),
    ensures
        initial_state(width, rate, (count + 1) % prime()) != initial_state(width, rate, count % prime()),
{
    let a = initial_state(width, rate, (count + 1) % prime());
    let b = initial_state(width, rate, count % prime());
    lemma_small_mod((count + 1) as nat, prime() as nat);
    lemma_small_mod(count as nat, prime() as nat);
    assert(a[rate] == count + 1);
    assert(b[rate] == count);
}

} // verus!
