//! An accumulator for weighted sums of curve-group elements.
//!
//! `AccumG1` holds one running group element and adds `base * factor` terms
//! into it one at a time: the multi-scalar-multiplication kernel of a
//! pairing-based signature verifier. Its contracts speak of
//! [`weighted_sum`], the mathematical fold of the pushed terms over the
//! generator-multiple view of the group.

use vstd::prelude::*;
use bls12_381::G1Projective;
use bls12_381::Scalar;
use crate::group::group_order;
use crate::group::g1_add;
use crate::group::g1_identity;
use crate::group::g1_mul_scalar;
use crate::group::point_nat;
use crate::group::scalar_nat;

verus! {

/// The contribution of one `(base, factor)` pair to a weighted sum: the
/// product of the base's generator multiple and the factor's value, modulo
/// the group order.
pub open spec fn pair_term(base: G1Projective, factor: Scalar) -> nat {
    (point_nat(base) * scalar_nat(factor)) % group_order()
}

/// The generator multiple reached by starting from `init` and adding the
/// term of each pair of `pairs` in order, modulo the group order.
pub open spec fn weighted_sum(init: nat, pairs: Seq<(G1Projective, Scalar)>) -> nat
    decreases pairs.len(),
{
    if pairs.len() == 0 {
        init
    } else {
        (weighted_sum(init, pairs.drop_last()) + pair_term(pairs.last().0, pairs.last().1))
            % group_order()
    }
}

/// An incremental weighted-sum accumulator over the curve's first group.
///
/// The accumulated value is kept in the group's internal projective
/// representation, so each pushed term costs one scalar multiplication and
/// one group addition, with no per-term normalization.
#[derive(Clone, Debug)]
pub struct AccumG1 {
    accum: G1Projective,
}

impl AccumG1 {
    /// The generator multiple of the value accumulated so far.
    pub closed spec fn value(&self) -> nat {
        point_nat(self.accum)
    }

    /// An accumulator holding the group identity.
    pub fn zero() -> (r: Self)
        ensures
            r.value() == 0,
    {
        Self { accum: g1_identity() }
    }

    /// An accumulator seeded with an arbitrary starting group value.
    pub fn new_with(accum: G1Projective) -> (r: Self)
        ensures
            r.value() == point_nat(accum),
    {
        Self { accum }
    }

    /// Adds `base * factor` to the running sum in place.
    pub fn push(&mut self, base: G1Projective, factor: Scalar)
        ensures
            final(self).value() == (old(self).value() + pair_term(base, factor)) % group_order(),
    {
        let term = g1_mul_scalar(&base, &factor);
        self.accum = g1_add(&self.accum, &term);
    }

    /// Pushes every `(base, factor)` pair of `pairs`, in sequence order.
    pub fn append(&mut self, pairs: &[(G1Projective, Scalar)])
        ensures
            final(self).value() == weighted_sum(old(self).value(), pairs@),
    {
        let ghost start: nat = self.value();
        let n: usize = pairs.len();
        let mut i: usize = 0;
        while i < n
            invariant
                i <= n,
                n == pairs@.len(),
                self.value() == weighted_sum(start, pairs@.take(i as int)),
            decreases n - i,
        {
            let pair = vstd::slice::slice_index_get(pairs, i);
            proof {
                assert(pairs@.take(i + 1).drop_last() =~= pairs@.take(i as int));
                assert(pairs@.take(i + 1).last() == pairs@[i as int]);
            }
            self.push(pair.0, pair.1);
            i = i + 1;
        }
        proof {
            assert(pairs@.take(n as int) =~= pairs@);
        }
    }

    /// The current accumulated value; the accumulator is not changed.
    pub fn sum(&self) -> (r: G1Projective)
        ensures
            point_nat(r) == self.value(),
    {
        self.accum
    }

    /// What `sum` would return after one more `push(base, factor)`, without
    /// mutating the accumulator.
    pub fn sum_with(&self, base: G1Projective, factor: Scalar) -> (r: G1Projective)
        ensures
            point_nat(r) == (self.value() + pair_term(base, factor)) % group_order(),
    {
        let term = g1_mul_scalar(&base, &factor);
        g1_add(&self.accum, &term)
    }

    /// Builds a fresh accumulator, appends all of `pairs`, and returns the
    /// final sum in one call.
    pub fn calc(pairs: &[(G1Projective, Scalar)]) -> (r: G1Projective)
        ensures
            point_nat(r) == weighted_sum(0, pairs@),
    {
        let mut acc = Self::zero();
        acc.append(pairs);
        acc.sum()
    }

    /// A fresh accumulator holding one `(base, factor)` term.
    pub fn from_pair(base: G1Projective, factor: Scalar) -> (r: Self)
        ensures
            r.value() == pair_term(base, factor),
    {
        let mut acc = Self::zero();
        acc.push(base, factor);
        proof {
            crate::laws::lemma_pair_term_bound(base, factor);
            vstd::arithmetic::div_mod::lemma_small_mod(
                pair_term(base, factor),
                group_order(),
            );
        }
        acc
    }

    /// A fresh accumulator holding the weighted sum of an ordered sequence
    /// of `(base, factor)` pairs.
    pub fn from_pairs(pairs: &[(G1Projective, Scalar)]) -> (r: Self)
        ensures
            r.value() == weighted_sum(0, pairs@),
    {
        let mut acc = Self::zero();
        acc.append(pairs);
        acc
    }
}

impl From<G1Projective> for AccumG1 {
    /// The same seeding as [`AccumG1::new_with`], as a conversion.
    fn from(accum: G1Projective) -> (r: Self) {
        AccumG1 { accum }
    }
}

impl vstd::std_specs::convert::FromSpecImpl<G1Projective> for AccumG1 {
    closed spec fn obeys_from_spec() -> bool {
        true
    }

    closed spec fn from_spec(accum: G1Projective) -> Self {
        AccumG1 { accum }
    }
}

/// What the conversion from a group value yields: an accumulator seeded
/// with exactly that value.
pub proof fn lemma_accum_from_point(accum: G1Projective)
    ensures
        <AccumG1 as vstd::std_specs::convert::FromSpec<G1Projective>>::obeys_from_spec(),
        <AccumG1 as vstd::std_specs::convert::FromSpec<G1Projective>>::from_spec(accum).value()
            == point_nat(accum),
{
}

} // verus!
