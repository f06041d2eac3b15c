use tip_hash::field::{Felt, MODULUS};
use tip_hash::tip::layers::LOOKUP_LANES;
use tip_hash::tip::tip4::{ElementDigest, ARK, DIGEST_SIZE, NUM_ROUNDS, RATE_WIDTH, STATE_WIDTH};
use tip_hash::tip::Tip4_256;

fn felts(values: &[u64]) -> Vec<Felt> {
    values.iter().map(|&v| Felt::new(v)).collect()
}

fn state_of(values: &[u64]) -> [Felt; STATE_WIDTH] {
    let mut state = [Felt::zero(); STATE_WIDTH];
    for (s, &v) in state.iter_mut().zip(values) {
        *s = Felt::new(v);
    }
    state
}

fn digest_of(values: [u64; DIGEST_SIZE]) -> ElementDigest {
    let mut elements = [Felt::zero(); DIGEST_SIZE];
    for (e, &v) in elements.iter_mut().zip(values.iter()) {
        *e = Felt::new(v);
    }
    ElementDigest::new(elements)
}

#[test]
fn apply_permutation() {
    let mut state: [Felt; STATE_WIDTH] = [
        Felt::new(0),
        Felt::new(1),
        Felt::new(2),
        Felt::new(3),
        Felt::new(4),
        Felt::new(5),
        Felt::new(6),
        Felt::new(7),
        Felt::new(8),
        Felt::new(9),
        Felt::new(10),
        Felt::new(11),
        Felt::new(12),
        Felt::new(13),
        Felt::new(14),
        Felt::new(15),
    ];

    Tip4_256::apply_permutation(&mut state);

    let expected = vec![
        Felt::new(7296980799497271299),
        Felt::new(6932375651683702735),
        Felt::new(3822213789028045974),
        Felt::new(505530293833729654),
        Felt::new(17605892691164638210),
        Felt::new(1470910630400469657),
        Felt::new(4639730692758713667),
        Felt::new(14190377574028754122),
        Felt::new(17996505783824879381),
        Felt::new(961936667785551774),
        Felt::new(12287826717832661200),
        Felt::new(11356005505906191738),
        Felt::new(10120826246370087028),
        Felt::new(1060843996108630575),
        Felt::new(6359159595152998556),
        Felt::new(15525397670994864633),
    ];

    assert_eq!(expected, state);
}

#[test]
fn hash() {
    let state: [Felt; STATE_WIDTH] = [
        Felt::new(0),
        Felt::new(1),
        Felt::new(2),
        Felt::new(3),
        Felt::new(4),
        Felt::new(5),
        Felt::new(6),
        Felt::new(7),
        Felt::new(8),
        Felt::new(9),
        Felt::new(10),
        Felt::new(11),
        Felt::new(12),
        Felt::new(13),
        Felt::new(14),
        Felt::new(15),
    ];

    let result = Tip4_256::hash_elements(&state);

    let expected = vec![
        Felt::new(2049960550193020876),
        Felt::new(17337156043624831090),
        Felt::new(16635828423870957893),
        Felt::new(12786227377510387913),
    ];

    assert_eq!(expected, result.as_elements());
}

#[test]
fn tip4_parameters() {
    assert_eq!(Tip4_256::STATE_WIDTH, 16);
    assert_eq!(Tip4_256::RATE_RANGE, 0..12);
    assert_eq!(Tip4_256::CAPACITY_RANGE, 12..16);
    assert_eq!(Tip4_256::DIGEST_RANGE, 0..4);
    assert_eq!(Tip4_256::NUM_ROUNDS, 5);
    assert_eq!(Tip4_256::COLLISION_RESISTANCE, 128);
    assert_eq!(RATE_WIDTH + Tip4_256::CAPACITY_RANGE.len(), STATE_WIDTH);
    assert!(DIGEST_SIZE <= RATE_WIDTH);
    assert_eq!(NUM_ROUNDS, 5);
    assert_eq!(LOOKUP_LANES, 4);
    assert_eq!(Tip4_256::ARK, ARK);
    assert_eq!(ARK[0][0], 2773304578597675691);
    assert_eq!(ARK[4][15], 11784104199241925722);
    assert!(ARK.iter().flatten().all(|&c| c < MODULUS));
}

#[test]
fn tip4_mds_is_circulant() {
    let first_row = Tip4_256::MDS[0];
    assert_eq!(first_row[0], 18446742626305572865);
    assert_eq!(first_row[15], 4542937756286289441);
    for i in 0..16 {
        for j in 0..16 {
            assert_eq!(Tip4_256::MDS[i][j], first_row[(16 + j - i) % 16]);
        }
    }
}

#[test]
fn tip4_lookup_is_a_permutation_of_bytes() {
    let mut seen = [false; 256];
    for &b in Tip4_256::LOOKUP.iter() {
        assert!(!seen[b as usize]);
        seen[b as usize] = true;
    }
    assert_eq!(Tip4_256::LOOKUP[0], 0);
    assert_eq!(Tip4_256::LOOKUP[1], 7);
    assert_eq!(Tip4_256::LOOKUP[255], 255);
}

#[test]
fn tip4_apply_round_exact() {
    let mut state = state_of(&[0, 1, 2, 3, 4, 5, 6, 7, 8, 9, 10, 11, 12, 13, 14, 15]);
    Tip4_256::apply_round(&mut state, 0);
    let expected = felts(&[
        6057825699277481747,
        4996928164115846870,
        15659154260751766321,
        14197028176958744902,
        17079716316944798687,
        16614981819987469385,
        7006075354357391418,
        3248621631873381864,
        1257025587329345743,
        12316787456207997298,
        266190278098013386,
        4961378406342232106,
        13850611044743530195,
        1264178035564431804,
        1007779625044383676,
        4930242622645694527,
    ]);
    assert_eq!(expected, state);

    let mut state = state_of(&[0, 1, 2, 3, 4, 5, 6, 7, 8, 9, 10, 11, 12, 13, 14, 15]);
    Tip4_256::apply_round(&mut state, 3);
    assert_eq!(state[0], Felt::new(18003104148825750982));
    assert_eq!(state[15], Felt::new(5014244576627996377));
}

#[test]
fn tip4_permutation_is_five_rounds_in_order() {
    let mut by_rounds = state_of(&[9, 8, 7, 6, 5, 4, 3, 2, 1, 0, 11, 22, 33, 44, 55, 66]);
    let mut at_once = by_rounds;
    for round in 0..NUM_ROUNDS {
        Tip4_256::apply_round(&mut by_rounds, round);
    }
    Tip4_256::apply_permutation(&mut at_once);
    assert_eq!(by_rounds, at_once);
}

#[test]
fn tip4_permutation_is_deterministic_and_canonical() {
    let mut a = state_of(&[u64::MAX, 1, MODULUS, 3, MODULUS - 1, 5, 6, 7, 8, 9, 10, 11, 12, 13, 14, 15]);
    let mut b = a;
    Tip4_256::apply_permutation(&mut a);
    Tip4_256::apply_permutation(&mut b);
    assert_eq!(a, b);
    assert!(a.iter().all(|e| e.value < MODULUS));
}

#[test]
fn tip4_hash_empty_is_zero() {
    let zeros = vec![Felt::new(0); DIGEST_SIZE];
    assert_eq!(zeros, Tip4_256::hash(&[]).as_elements());
    assert_eq!(zeros, Tip4_256::hash_elements(&[]).as_elements());
}

#[test]
fn tip4_hash_seven_bytes_pads_at_offset_seven() {
    let bytes = [1u8, 2, 3, 4, 5, 6, 7];
    let element = u64::from_le_bytes([1, 2, 3, 4, 5, 6, 7, 1]);
    let expected = felts(&[
        791294585657440621,
        18086231183339523847,
        10214488680871707636,
        13811413640969120899,
    ]);
    assert_eq!(expected, Tip4_256::hash(&bytes).as_elements());
    assert_eq!(expected, Tip4_256::hash_elements(&[Felt::new(element)]).as_elements());
}

#[test]
fn tip4_hash_fourteen_bytes_is_one_permutation() {
    let bytes: Vec<u8> = (1..=14).collect();
    let first = u64::from_le_bytes([1, 2, 3, 4, 5, 6, 7, 0]);
    let second = u64::from_le_bytes([8, 9, 10, 11, 12, 13, 14, 1]);

    let mut state = [Felt::zero(); STATE_WIDTH];
    state[0] = Felt::new(first);
    state[1] = Felt::new(second);
    state[RATE_WIDTH] = Felt::new(2);
    Tip4_256::apply_permutation(&mut state);

    let digest = Tip4_256::hash(&bytes);
    assert_eq!(&state[..DIGEST_SIZE], digest.as_elements());
    assert_eq!(
        felts(&[
            5707411020139323815,
            9135135458058699157,
            17127827711288578345,
            9070583362666607133,
        ]),
        digest.as_elements()
    );
}

#[test]
fn tip4_hash_exact() {
    let bytes: Vec<u8> = (1..=100).collect();
    assert_eq!(
        felts(&[
            5598177129114744444,
            5740080691450337344,
            8712376282914454300,
            12300552653700219113,
        ]),
        Tip4_256::hash(&bytes).as_elements()
    );
    assert_eq!(
        felts(&[
            13387104126917556325,
            12807451798821092368,
            2443270967477302336,
            84832284291857079,
        ]),
        Tip4_256::hash(&[0]).as_elements()
    );
}

#[test]
fn tip4_hash_is_hash_elements_on_chunks() {
    for len in 1..40usize {
        let bytes: Vec<u8> = (0..len).map(|i| (i * 37 + 11) as u8).collect();
        let mut elements = Vec::new();
        let chunks: Vec<&[u8]> = bytes.chunks(7).collect();
        for (k, chunk) in chunks.iter().enumerate() {
            let mut buf = [0u8; 8];
            buf[..chunk.len()].copy_from_slice(chunk);
            if k == chunks.len() - 1 {
                buf[chunk.len()] = 1;
            }
            elements.push(Felt::new(u64::from_le_bytes(buf)));
        }
        assert_eq!(Tip4_256::hash(&bytes), Tip4_256::hash_elements(&elements));
    }
}

#[test]
fn tip4_trailing_zero_byte_changes_hash() {
    for len in 0..30usize {
        let bytes: Vec<u8> = (0..len).map(|i| (i * 5) as u8).collect();
        let mut longer = bytes.clone();
        longer.push(0);
        assert_ne!(Tip4_256::hash(&bytes), Tip4_256::hash(&longer));
    }
}

#[test]
fn tip4_hash_elements_exact_over_several_blocks() {
    let elements: Vec<Felt> = (100..130).map(Felt::new).collect();
    assert_eq!(
        felts(&[
            17569379311047941439,
            18051420038898950834,
            2388464330248194966,
            7552360462729242654,
        ]),
        Tip4_256::hash_elements(&elements).as_elements()
    );
}

#[test]
fn tip4_hash_elements_reads_elements_not_representations() {
    let canonical = [Felt::new(5), Felt::new(0), Felt::new(77)];
    let unreduced = [Felt { value: 5 + MODULUS }, Felt { value: MODULUS }, Felt::new(77)];
    assert_eq!(Tip4_256::hash_elements(&canonical), Tip4_256::hash_elements(&unreduced));
}

#[test]
fn tip4_trailing_zero_element_changes_hash() {
    let elements = felts(&[1, 2, 3]);
    let longer = felts(&[1, 2, 3, 0]);
    assert_ne!(Tip4_256::hash_elements(&elements), Tip4_256::hash_elements(&longer));
    assert_ne!(Tip4_256::hash_elements(&[]), Tip4_256::hash_elements(&[Felt::new(0)]));
}

#[test]
fn tip4_merge_exact() {
    let a = digest_of([1, 2, 3, 4]);
    let b = digest_of([11, 12, 13, 14]);
    let mut state = state_of(&[1, 2, 3, 4, 11, 12, 13, 14]);
    state[RATE_WIDTH] = Felt::new(12);
    Tip4_256::apply_permutation(&mut state);

    let digest = Tip4_256::merge(&[a, b]);
    assert_eq!(&state[..DIGEST_SIZE], digest.as_elements());
    assert_eq!(
        felts(&[
            7380945146682740071,
            17489043798660034114,
            6708851194995318841,
            8167188195767635564,
        ]),
        digest.as_elements()
    );
    assert_ne!(digest, Tip4_256::merge(&[b, a]));
}

#[test]
fn tip4_merge_with_int_exact() {
    let seed = digest_of([1, 2, 3, 4]);
    assert_eq!(
        felts(&[
            11098612585944531783,
            16779633771222376309,
            6658317704409253441,
            4406935188954406256,
        ]),
        Tip4_256::merge_with_int(seed, 42).as_elements()
    );
    assert_eq!(
        felts(&[
            10148775992246798978,
            13665455718278086518,
            1383152197167601749,
            6989949799556525886,
        ]),
        Tip4_256::merge_with_int(seed, MODULUS - 1).as_elements()
    );
    assert_eq!(
        felts(&[
            17788221666009658801,
            5588084363080906029,
            13733854618716322334,
            14250799524070503024,
        ]),
        Tip4_256::merge_with_int(seed, MODULUS).as_elements()
    );
    assert_eq!(
        felts(&[
            5977755480615733185,
            9099936222965341696,
            13496178006740791052,
            4799864816875482247,
        ]),
        Tip4_256::merge_with_int(seed, u64::MAX).as_elements()
    );
}

#[test]
fn tip4_merge_with_large_int_uses_two_lanes() {
    let seed = digest_of([1, 2, 3, 4]);
    let value = MODULUS + 9;
    let mut state = state_of(&[1, 2, 3, 4, 9, 1]);
    state[RATE_WIDTH] = Felt::new(6);
    Tip4_256::apply_permutation(&mut state);
    assert_eq!(&state[..DIGEST_SIZE], Tip4_256::merge_with_int(seed, value).as_elements());
}

#[test]
fn tip4_jive_summation_exact() {
    let initial = state_of(&[1, 2, 3, 4, 5, 6, 7, 8, 9, 10, 11, 12, 13, 14, 15, 16]);
    let mut state = initial;
    Tip4_256::apply_permutation(&mut state);
    let expected = felts(&[
        7598856651887602660,
        18135689041277986410,
        760678699026116833,
        13029164188980756210,
    ]);
    assert_eq!(expected, Tip4_256::apply_jive4_summation(&initial, &state).as_elements());

    let digests = [
        digest_of([1, 2, 3, 4]),
        digest_of([5, 6, 7, 8]),
        digest_of([9, 10, 11, 12]),
        digest_of([13, 14, 15, 16]),
    ];
    assert_eq!(expected, Tip4_256::merge_4_digests(&digests).as_elements());
}

#[test]
fn tip4_jive_summation_adds_stripes() {
    let before = state_of(&[1, 2, 3, 4, 10, 20, 30, 40, 100, 200, 300, 400, 1000, 2000, 3000, 4000]);
    let mut after = [Felt::zero(); STATE_WIDTH];
    after[0] = Felt::new(MODULUS - 1);
    after[5] = Felt::new(7);
    let digest = Tip4_256::apply_jive4_summation(&before, &after);
    assert_eq!(felts(&[1110, 2229, 3333, 4444]), digest.as_elements());
}

#[test]
fn tip4_merge_with_int_is_hash_elements() {
    let seed = digest_of([1, 2, 3, 4]);
    assert_eq!(Tip4_256::merge_with_int(seed, 42), Tip4_256::hash_elements(&felts(&[1, 2, 3, 4, 42])));
    let large = MODULUS + 9;
    assert_eq!(
        Tip4_256::merge_with_int(seed, large),
        Tip4_256::hash_elements(&felts(&[1, 2, 3, 4, 9, 1]))
    );
}

#[test]
fn tip4_merge_tags_the_whole_rate() {
    let a = digest_of([1, 2, 3, 4]);
    let b = digest_of([11, 12, 13, 14]);
    assert_ne!(
        Tip4_256::merge(&[a, b]),
        Tip4_256::hash_elements(&felts(&[1, 2, 3, 4, 11, 12, 13, 14]))
    );
}

#[test]
fn tip4_layers_exact() {
    let mut state = state_of(&[0, 1, 12345, MODULUS - 1, 3, MODULUS - 1, 0, 1]);
    Tip4_256::apply_sbox(&mut state);
    assert_eq!(state[0].value, 0);
    assert_eq!(state[1].value, 1);
    assert_eq!(state[2].value, 51097);
    assert_eq!(state[3].value, 18446743992105172986);
    assert_eq!(state[4].value, 2187);
    assert_eq!(state[5].value, MODULUS - 1);
    assert_eq!(state[6].value, 0);
    assert_eq!(state[7].value, 1);

    let mut state = state_of(&[1, 0, 0, 0, 0, 0, 0, 0, 0, 0, 0, 0, 0, 0, 0, 0]);
    Tip4_256::apply_mds(&mut state);
    for i in 0..16 {
        assert_eq!(state[i].value, Tip4_256::MDS[i][0]);
    }

    let mut state = state_of(&[MODULUS - 1; 16]);
    Tip4_256::add_constants(&mut state, &ARK[2]);
    for i in 0..16 {
        assert_eq!(state[i].value, ARK[2][i] - 1);
    }
}
