//! Bindings to the pairing-curve arithmetic library.
//!
//! The scalar field and the curve group are supplied by the `bls12_381`
//! crate; this module declares those types and gives each operation the
//! library relies on a contract over two mathematical views:
//! [`scalar_nat`], the canonical integer a field element stands for, and
//! [`point_nat`], the multiple of the group's generator that a point is.
//! `G1` is a cyclic group of prime order [`group_order`], so every element
//! of it is a unique such multiple, and the group operations act on those
//! multiples by addition and multiplication modulo the order.

use vstd::prelude::*;
use bls12_381::G1Projective;
use bls12_381::Scalar;

verus! {

/// The canonical integer in `[0, group_order())` that a scalar-field
/// element represents.
pub uninterp spec fn scalar_nat(s: Scalar) -> nat;

/// The multiple of the fixed generator that a group element is: the unique
/// `k` in `[0, group_order())` with `p == k * generator`. The `bls12_381`
/// crate keeps every `G1Projective` value it hands out inside the
/// prime-order group `G1`, where this is well defined.
pub uninterp spec fn point_nat(p: G1Projective) -> nat;

/// The order of the scalar field and of the group `G1`: the prime modulus
/// that the `bls12_381` crate documents for its `Scalar` type.
pub open spec fn group_order() -> nat {
    0x73eda753299d7d483339d80809a1d80553bda402fffe5bfeffffffff00000001nat
}

#[verifier::external_type_specification]
#[verifier::external_body]
pub struct ExScalar(Scalar);

#[verifier::external_type_specification]
#[verifier::external_body]
pub struct ExG1Projective(G1Projective);

/// Relies on the derived `Clone` for `G1Projective`, a `Copy` type: the
/// clone is the same value.
pub assume_specification[ <G1Projective as Clone>::clone ](p: &G1Projective) -> (r: G1Projective)
    ensures
        r == *p,
;

/// Relies on the derived `Clone` for `Scalar`, a `Copy` type: the clone is
/// the same value.
pub assume_specification[ <Scalar as Clone>::clone ](s: &Scalar) -> (r: Scalar)
    ensures
        r == *s,
;

/// Relies on `G1Projective::identity`: the additive identity of the group,
/// the zero multiple of the generator.
#[verifier::external_body]
pub(crate) fn g1_identity() -> (r: G1Projective)
    ensures
        point_nat(r) == 0,
{
    G1Projective::identity()
}

/// Relies on `Add<&G1Projective> for &G1Projective`: group addition adds
/// the generator multiples of the two points, modulo the group order.
#[verifier::external_body]
pub(crate) fn g1_add(a: &G1Projective, b: &G1Projective) -> (r: G1Projective)
    ensures
        point_nat(r) == (point_nat(*a) + point_nat(*b)) % group_order(),
{
    a + b
}

/// Relies on `Mul<&Scalar> for &G1Projective`: scalar multiplication
/// multiplies the point's generator multiple by the scalar's value, modulo
/// the group order.
#[verifier::external_body]
pub(crate) fn g1_mul_scalar(base: &G1Projective, factor: &Scalar) -> (r: G1Projective)
    ensures
        point_nat(r) == (point_nat(*base) * scalar_nat(*factor)) % group_order(),
{
    base * factor
}

} // verus!
