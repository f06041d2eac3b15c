use tip_hash::coefficients::{
    AuxTraceRandElements, ConstraintCompositionCoefficients, DeepCompositionCoefficients,
};
use tip_hash::field::Felt;

#[test]
fn aux_rand_elements_start_empty() {
    let elements: AuxTraceRandElements<Felt> = AuxTraceRandElements::new();
    assert!(elements.0.is_empty());
    let by_default: AuxTraceRandElements<Felt> = AuxTraceRandElements::default();
    assert!(by_default.0.is_empty());
}

#[test]
fn aux_rand_elements_keep_segments_in_order() {
    let mut elements = AuxTraceRandElements::new();
    elements.add_segment_elements(vec![Felt::new(1), Felt::new(2)]);
    elements.add_segment_elements(vec![]);
    elements.add_segment_elements(vec![Felt::new(3)]);
    assert_eq!(elements.get_segment_elements(0), &[Felt::new(1), Felt::new(2)]);
    assert!(elements.get_segment_elements(1).is_empty());
    assert_eq!(elements.get_segment_elements(2), &[Felt::new(3)]);

    let copy = elements.clone();
    assert_eq!(copy.get_segment_elements(2), elements.get_segment_elements(2));
}

#[test]
fn composition_coefficients_are_plain_records() {
    let constraint = ConstraintCompositionCoefficients {
        transition: vec![(1u64, 2u64), (3, 4)],
        boundary: vec![(5, 6)],
    };
    let copy = constraint.clone();
    assert_eq!(copy.transition, vec![(1, 2), (3, 4)]);
    assert_eq!(copy.boundary, vec![(5, 6)]);

    let deep = DeepCompositionCoefficients {
        trace: vec![(Felt::new(1), Felt::new(2))],
        constraints: vec![Felt::new(3), Felt::new(4)],
        degree: (Felt::new(5), Felt::new(6)),
    };
    let copy = deep.clone();
    assert_eq!(copy.trace, deep.trace);
    assert_eq!(copy.constraints, vec![Felt::new(3), Felt::new(4)]);
    assert_eq!(copy.degree, (Felt::new(5), Felt::new(6)));
}
