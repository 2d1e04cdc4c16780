//! Secure generation of a non-zero field scalar.
//!
//! A signing or proof protocol needs a single-use random scalar whose value
//! is never zero: a zero nonce would degenerate the protocol's blinding.
//! [`random_nonce`] draws uniformly from the full field by rejection
//! sampling, redrawing in the (measure-zero in practice) case that the draw
//! was the additive identity.

use vstd::prelude::*;
use bls12_381::Scalar;
use ff::Field;
use rand::CryptoRng;
use rand::Rng;
use rand::RngCore;
use rand::rngs::OsRng;
use crate::group::group_order;
use crate::group::scalar_nat;

verus! {

#[verifier::external_type_specification]
#[verifier::external_body]
pub struct ExOsRng(OsRng);

/// Relies on `rand::rngs::OsRng`: the operating system's secure randomness
/// source, the process-wide default for nonce generation.
#[verifier::external_body]
pub fn default_rng() -> OsRng {
    OsRng
}

/// Relies on `ff::Field::random` for `Scalar`: a field element drawn
/// uniformly from the full field. Nothing is promised of which element came
/// back beyond its being a field element, whose canonical value lies below
/// the field's order.
#[verifier::external_body]
fn scalar_random<R: CryptoRng + RngCore>(rng: &mut R) -> (r: Scalar)
    ensures
        scalar_nat(r) < group_order(),
{
    Scalar::random(rng)
}

/// Relies on `Scalar::one`: the multiplicative identity of the field,
/// which is not the additive identity.
#[verifier::external_body]
fn scalar_one() -> (r: Scalar)
    ensures
        scalar_nat(r) == 1,
{
    Scalar::one()
}

/// Relies on `ff::Field::is_zero` for `Scalar`: true exactly when the
/// element is the additive identity of the field.
#[verifier::external_body]
fn scalar_is_zero(s: &Scalar) -> (r: bool)
    ensures
        r == (scalar_nat(*s) == 0),
{
    s.is_zero().into()
}

/// How many redraws rejection sampling allows itself. A uniform draw from
/// a field of 255-bit prime order is the additive identity with
/// probability below `2^-254`, so even one redraw is all but unreachable;
/// the bound only makes termination provable.
pub const NONCE_DRAW_LIMIT: usize = 128;

/// Draws field elements from `rng` until one is not the additive identity,
/// and returns it. Should every draw within [`NONCE_DRAW_LIMIT`] come back
/// zero — which a secure source never does in practice — the
/// multiplicative identity stands in, so the result is non-zero in every
/// case.
pub fn random_nonce<R: CryptoRng + Rng>(mut rng: R) -> (r: Scalar)
    ensures
        scalar_nat(r) != 0,
{
    let mut r = scalar_random(&mut rng);
    let mut redraws: usize = 0;
    while redraws < NONCE_DRAW_LIMIT && scalar_is_zero(&r)
        invariant
            redraws <= NONCE_DRAW_LIMIT,
        decreases NONCE_DRAW_LIMIT - redraws,
    {
        r = scalar_random(&mut rng);
        redraws = redraws + 1;
    }
    if scalar_is_zero(&r) {
        scalar_one()
    } else {
        r
    }
}

/// An opaque wrapper around one scalar-field element, used as a
/// single-use randomizer in a signature or proof protocol.
///
/// The generating constructors [`Nonce::new`] and [`Nonce::new_with_rng`]
/// guarantee the value is never the additive identity; the raw conversion
/// `Nonce::from` deliberately bypasses that guarantee for
/// deserialization paths, and its callers carry the invariant themselves.
#[derive(Clone, Copy, Debug, PartialEq, Eq)]
pub struct Nonce(pub(crate) Scalar);

impl Nonce {
    /// The canonical integer of the wrapped scalar.
    pub closed spec fn spec_value(&self) -> nat {
        scalar_nat(self.0)
    }

    /// A non-zero nonce drawn from the process-wide default secure source.
    pub fn new() -> (r: Self)
        ensures
            r.spec_value() != 0,
    {
        Self(random_nonce(default_rng()))
    }

    /// A non-zero nonce drawn from a caller-supplied secure source.
    pub fn new_with_rng(rng: impl CryptoRng + Rng) -> (r: Self)
        ensures
            r.spec_value() != 0,
    {
        Self(random_nonce(rng))
    }

    /// Hands out the wrapped scalar, consuming the nonce.
    pub fn into_scalar(self) -> (r: Scalar)
        ensures
            scalar_nat(r) == self.spec_value(),
    {
        self.0
    }
}

impl From<Scalar> for Nonce {
    /// Wraps a raw scalar without checking the non-zero invariant: an
    /// explicit escape hatch for deserialization paths.
    fn from(s: Scalar) -> (r: Self) {
        Self(s)
    }
}

impl vstd::std_specs::convert::FromSpecImpl<Scalar> for Nonce {
    closed spec fn obeys_from_spec() -> bool {
        true
    }

    closed spec fn from_spec(s: Scalar) -> Self {
        Nonce(s)
    }
}

/// What the raw conversion yields: `Nonce::from(s)` wraps `s` unchanged,
/// so the nonce's value is the value of `s` — zero included.
pub proof fn lemma_nonce_from_scalar(s: Scalar)
    ensures
        <Nonce as vstd::std_specs::convert::FromSpec<Scalar>>::obeys_from_spec(),
        <Nonce as vstd::std_specs::convert::FromSpec<Scalar>>::from_spec(s).spec_value()
            == scalar_nat(s),
{
}

} // verus!
