use tip_hash::field::{Felt, MODULUS};
use tip_hash::tip::tip5::{ElementDigest, ARK, DIGEST_SIZE, NUM_ROUNDS, RATE_WIDTH, STATE_WIDTH};
use tip_hash::tip::{Tip4_256, Tip5_320};

fn felts(values: &[u64]) -> Vec<Felt> {
    values.iter().map(|&v| Felt::new(v)).collect()
}

fn state_of(values: &[u64]) -> [Felt; STATE_WIDTH] {
    let mut state = [Felt::zero(); STATE_WIDTH];
    for (s, &v) in state.iter_mut().zip(values) {
        *s = Felt::new(v);
    }
    state
}

fn digest_of(values: [u64; DIGEST_SIZE]) -> ElementDigest {
    let mut elements = [Felt::zero(); DIGEST_SIZE];
    for (e, &v) in elements.iter_mut().zip(values.iter()) {
        *e = Felt::new(v);
    }
    ElementDigest::new(elements)
}

#[test]
fn tip5_apply_permutation() {
    let mut state: [Felt; STATE_WIDTH] = [
        Felt::new(0),
        Felt::new(1),
        Felt::new(2),
        Felt::new(3),
        Felt::new(4),
        Felt::new(5),
        Felt::new(6),
        Felt::new(7),
        Felt::new(8),
        Felt::new(9),
        Felt::new(10),
        Felt::new(11),
        Felt::new(12),
        Felt::new(13),
        Felt::new(14),
        Felt::new(15),
    ];

    Tip5_320::apply_permutation(&mut state);

    let expected = vec![
        Felt::new(10175906631542820923),
        Felt::new(3855840548738021448),
        Felt::new(2025673606217227566),
        Felt::new(12844804840549141103),
        Felt::new(14675156848853604811),
        Felt::new(14826089615852996663),
        Felt::new(10347352866268213224),
        Felt::new(11152115716500330301),
        Felt::new(5111971323170855292),
        Felt::new(8786047983351640631),
        Felt::new(13278464272689444323),
        Felt::new(6663957460006323152),
        Felt::new(2554291996928436336),
        Felt::new(1966561718193927968),
        Felt::new(14725516211967935089),
        Felt::new(12331578240098214586),
    ];
    assert_eq!(expected, state);
}

#[test]
fn tip5_hash() {
    let state: [Felt; RATE_WIDTH] = [
        Felt::new(0),
        Felt::new(1),
        Felt::new(2),
        Felt::new(3),
        Felt::new(4),
        Felt::new(5),
        Felt::new(6),
        Felt::new(7),
        Felt::new(8),
        Felt::new(9),
    ];

    let result = Tip5_320::hash_elements(&state);

    let expected = vec![
        Felt::new(11606474556183478127),
        Felt::new(7414287774634619863),
        Felt::new(9612525545596271753),
        Felt::new(4029871457117740896),
        Felt::new(13014278221680054371),
    ];
    assert_eq!(expected, result.as_elements());
}

#[test]
fn tip5_parameters() {
    assert_eq!(Tip5_320::STATE_WIDTH, 16);
    assert_eq!(Tip5_320::RATE_RANGE, 0..10);
    assert_eq!(Tip5_320::CAPACITY_RANGE, 10..16);
    assert_eq!(Tip5_320::DIGEST_RANGE, 0..5);
    assert_eq!(Tip5_320::NUM_ROUNDS, 5);
    assert_eq!(Tip5_320::COLLISION_RESISTANCE, 160);
    assert_eq!(RATE_WIDTH + Tip5_320::CAPACITY_RANGE.len(), STATE_WIDTH);
    assert!(DIGEST_SIZE <= RATE_WIDTH);
    assert_eq!(Tip5_320::ARK, ARK);
    assert!(ARK.iter().flatten().all(|&c| c < MODULUS));
    assert_eq!(Tip5_320::MDS, Tip4_256::MDS);
    assert_eq!(Tip5_320::LOOKUP, Tip4_256::LOOKUP);
    assert_ne!(Tip5_320::ARK, Tip4_256::ARK);
}

#[test]
fn tip5_permutation_is_five_rounds_in_order() {
    let mut by_rounds = state_of(&[9, 8, 7, 6, 5, 4, 3, 2, 1, 0, 11, 22, 33, 44, 55, 66]);
    let mut at_once = by_rounds;
    for round in 0..NUM_ROUNDS {
        Tip5_320::apply_round(&mut by_rounds, round);
    }
    Tip5_320::apply_permutation(&mut at_once);
    assert_eq!(by_rounds, at_once);
    assert!(at_once.iter().all(|e| e.value < MODULUS));

    let mut again = state_of(&[9, 8, 7, 6, 5, 4, 3, 2, 1, 0, 11, 22, 33, 44, 55, 66]);
    Tip5_320::apply_permutation(&mut again);
    assert_eq!(again, at_once);
}

#[test]
fn tip5_hash_empty_is_zero() {
    let zeros = vec![Felt::new(0); DIGEST_SIZE];
    assert_eq!(zeros, Tip5_320::hash(&[]).as_elements());
    assert_eq!(zeros, Tip5_320::hash_elements(&[]).as_elements());
}

#[test]
fn tip5_hash_seven_bytes_pads_at_offset_seven() {
    let bytes = [1u8, 2, 3, 4, 5, 6, 7];
    let element = u64::from_le_bytes([1, 2, 3, 4, 5, 6, 7, 1]);
    let expected = felts(&[
        8546773668217013288,
        18109548321345577900,
        5174512058447822099,
        14732611491691824335,
        2576151071073999919,
    ]);
    assert_eq!(expected, Tip5_320::hash(&bytes).as_elements());
    assert_eq!(expected, Tip5_320::hash_elements(&[Felt::new(element)]).as_elements());
}

#[test]
fn tip5_hash_fourteen_bytes_is_one_permutation() {
    let bytes: Vec<u8> = (1..=14).collect();
    let mut state = [Felt::zero(); STATE_WIDTH];
    state[0] = Felt::new(u64::from_le_bytes([1, 2, 3, 4, 5, 6, 7, 0]));
    state[1] = Felt::new(u64::from_le_bytes([8, 9, 10, 11, 12, 13, 14, 1]));
    state[RATE_WIDTH] = Felt::new(2);
    Tip5_320::apply_permutation(&mut state);

    let digest = Tip5_320::hash(&bytes);
    assert_eq!(&state[..DIGEST_SIZE], digest.as_elements());
    assert_eq!(
        felts(&[
            2022829213031206422,
            456636776897535007,
            14841921530160010318,
            3893321533337542301,
            15667239586133557224,
        ]),
        digest.as_elements()
    );
}

#[test]
fn tip5_hash_exact() {
    let bytes: Vec<u8> = (1..=100).collect();
    assert_eq!(
        felts(&[
            1837096650637258850,
            9115595826836552491,
            8391257519140759250,
            8948691080298471942,
            15046444401802393764,
        ]),
        Tip5_320::hash(&bytes).as_elements()
    );
    assert_eq!(
        felts(&[
            8393049660445741382,
            16883494798817051934,
            17005038020866131048,
            14455988576510741440,
            5299282743741093590,
        ]),
        Tip5_320::hash(&[0]).as_elements()
    );
}

#[test]
fn tip5_hash_is_hash_elements_on_chunks() {
    for len in 1..80usize {
        let bytes: Vec<u8> = (0..len).map(|i| (i * 13 + 200) as u8).collect();
        let mut elements = Vec::new();
        let chunks: Vec<&[u8]> = bytes.chunks(7).collect();
        for (k, chunk) in chunks.iter().enumerate() {
            let mut buf = [0u8; 8];
            buf[..chunk.len()].copy_from_slice(chunk);
            if k == chunks.len() - 1 {
                buf[chunk.len()] = 1;
            }
            elements.push(Felt::new(u64::from_le_bytes(buf)));
        }
        assert_eq!(Tip5_320::hash(&bytes), Tip5_320::hash_elements(&elements));
    }
}

#[test]
fn tip5_trailing_zero_changes_hash() {
    for len in 0..30usize {
        let bytes: Vec<u8> = (0..len).map(|i| (i * 5) as u8).collect();
        let mut longer = bytes.clone();
        longer.push(0);
        assert_ne!(Tip5_320::hash(&bytes), Tip5_320::hash(&longer));
    }
    assert_ne!(
        Tip5_320::hash_elements(&felts(&[1, 2, 3])),
        Tip5_320::hash_elements(&felts(&[1, 2, 3, 0]))
    );
}

#[test]
fn tip5_hash_elements_exact_over_several_blocks() {
    let elements: Vec<Felt> = (100..130).map(Felt::new).collect();
    assert_eq!(
        felts(&[
            12735171807256166180,
            15718322608278872408,
            11204417090916224433,
            15960908160282140795,
            9857654321658559360,
        ]),
        Tip5_320::hash_elements(&elements).as_elements()
    );
    let unreduced: Vec<Felt> = (100..130).map(|v| Felt { value: v + MODULUS }).collect();
    assert_eq!(Tip5_320::hash_elements(&elements), Tip5_320::hash_elements(&unreduced));
}

#[test]
fn tip5_merge_fills_the_rate() {
    let a = digest_of([1, 2, 3, 4, 5]);
    let b = digest_of([11, 12, 13, 14, 15]);
    let mut state = state_of(&[1, 2, 3, 4, 5, 11, 12, 13, 14, 15]);
    state[RATE_WIDTH] = Felt::new(10);
    Tip5_320::apply_permutation(&mut state);

    let digest = Tip5_320::merge(&[a, b]);
    assert_eq!(&state[..DIGEST_SIZE], digest.as_elements());
    assert_eq!(
        felts(&[
            16317766051235644331,
            3527012663943066060,
            17126136028546101685,
            14088657378461724887,
            16129971172594920698,
        ]),
        digest.as_elements()
    );
}

#[test]
fn tip5_merge_with_int_exact() {
    let seed = digest_of([1, 2, 3, 4, 5]);
    assert_eq!(
        felts(&[
            12508782360852247948,
            15302426336923749463,
            15331321130243131055,
            15341276024816217103,
            9166599212171588888,
        ]),
        Tip5_320::merge_with_int(seed, 42).as_elements()
    );
    assert_eq!(
        felts(&[
            8066628126973014736,
            12666694189803345362,
            17661362638243401931,
            16072100594462926466,
            6258891993356459892,
        ]),
        Tip5_320::merge_with_int(seed, MODULUS - 1).as_elements()
    );
    assert_eq!(
        felts(&[
            14820465777932678936,
            6390556312986648213,
            3161788774377071826,
            16025926628376397301,
            88011105880559577,
        ]),
        Tip5_320::merge_with_int(seed, MODULUS).as_elements()
    );
    assert_eq!(
        felts(&[
            10839833706255281280,
            1418307159385850925,
            8454311394968773379,
            4102226408216051346,
            16003413427616783457,
        ]),
        Tip5_320::merge_with_int(seed, u64::MAX).as_elements()
    );
}

#[test]
fn tip5_merge_is_hash_elements() {
    let a = digest_of([1, 2, 3, 4, 5]);
    let b = digest_of([11, 12, 13, 14, 15]);
    assert_eq!(
        Tip5_320::merge(&[a, b]),
        Tip5_320::hash_elements(&felts(&[1, 2, 3, 4, 5, 11, 12, 13, 14, 15]))
    );
}

#[test]
fn tip5_merge_with_int_is_hash_elements() {
    let seed = digest_of([1, 2, 3, 4, 5]);
    assert_eq!(Tip5_320::merge_with_int(seed, 42), Tip5_320::hash_elements(&felts(&[1, 2, 3, 4, 5, 42])));
    assert_eq!(
        Tip5_320::merge_with_int(seed, MODULUS),
        Tip5_320::hash_elements(&felts(&[1, 2, 3, 4, 5, 0, 1]))
    );
}

#[test]
fn tip5_layers_exact() {
    let mut state = state_of(&[0, 1, 12345, MODULUS - 1, 3, MODULUS - 1, 0, 1]);
    Tip5_320::apply_sbox(&mut state);
    assert_eq!(state[2].value, 51097);
    assert_eq!(state[3].value, 18446743992105172986);
    assert_eq!(state[4].value, 2187);

    let mut state = state_of(&[0, 0, 0, 1]);
    Tip5_320::apply_mds(&mut state);
    for i in 0..16 {
        assert_eq!(state[i].value, Tip5_320::MDS[i][3]);
    }

    let mut state = [Felt::zero(); STATE_WIDTH];
    Tip5_320::add_constants(&mut state, &ARK[0]);
    for i in 0..16 {
        assert_eq!(state[i].value, ARK[0][i]);
    }
}
