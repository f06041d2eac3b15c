//! Containers for the random coefficients that a proof system draws while it composes
//! constraints. They carry values and compute nothing.

use vstd::prelude::*;

verus! {

/// Random elements used in the construction of auxiliary trace segments: one list of
/// elements per segment, in the order in which the segments were added.
#[derive(Debug, Clone)]
pub struct AuxTraceRandElements<E>(pub Vec<Vec<E>>);

impl<E> View for AuxTraceRandElements<E> {
    type V = Seq<Seq<E>>;

    open spec fn view(&self) -> Seq<Seq<E>> {
        Seq::new(self.0.len() as nat, |i: int| self.0[i]@)
    }
}

impl<E> AuxTraceRandElements<E> {
    /// An empty set of random elements.
    pub fn new() -> (r: Self)
        ensures
            r@ == Seq::<Seq<E>>::empty(),
    {
        let r = AuxTraceRandElements(Vec::new());
        assert(r@ =~= Seq::<Seq<E>>::empty());
        r
    }

    /// The random elements of the auxiliary segment with the given index.
    pub fn get_segment_elements(&self, aux_segment_idx: usize) -> (r: &[E])
        requires
            aux_segment_idx < self@.len(),
        ensures
            r@ == self@[aux_segment_idx as int],
    {
        self.0[aux_segment_idx].as_slice()
    }

    /// Adds the random elements of a new auxiliary segment after those already held.
    pub fn add_segment_elements(&mut self, rand_elements: Vec<E>)
        ensures
            final(self)@ == old(self)@.push(rand_elements@),
    {
        self.0.push(rand_elements);
        assert(self@ =~= old(self)@.push(rand_elements@));
    }
}

impl<E> Default for AuxTraceRandElements<E> {
    fn default() -> (r: Self)
        ensures
            r@ == Seq::<Seq<E>>::empty(),
    {
        Self::new()
    }
}

/// Coefficients for the random linear combination of constraints: a pair for each
/// transition constraint and a pair for each boundary constraint.
#[derive(Debug, Clone)]
pub struct ConstraintCompositionCoefficients<E> {
    pub transition: Vec<(E, E)>,
    pub boundary: Vec<(E, E)>,
}

/// Coefficients for the DEEP composition polynomial.
#[derive(Debug)]
pub struct DeepCompositionCoefficients<E> {
    /// A pair of coefficients for each trace polynomial.
    pub trace: Vec<(E, E)>,
    /// A coefficient for each constraint column polynomial.
    pub constraints: Vec<E>,
    /// The pair of coefficients for degree adjustment.
    pub degree: (E, E),
}

impl<E: Clone> Clone for DeepCompositionCoefficients<E> {
    fn clone(&self) -> Self {
        DeepCompositionCoefficients {
            trace: self.trace.clone(),
            constraints: self.constraints.clone(),
            degree: (self.degree.0.clone(), self.degree.1.clone()),
        }
    }
}

} // verus!
