//! The algebraic laws of the weighted-sum accumulator.
//!
//! Each proof function here states, over the [`weighted_sum`] model that
//! the accumulator's contracts speak of, a property a protocol built on
//! the accumulator leans on: order independence, equivalence of
//! incremental and one-shot accumulation, and the behaviour of seeded and
//! empty accumulators.

use vstd::prelude::*;
use vstd::arithmetic::div_mod::lemma_add_mod_noop;
use vstd::arithmetic::div_mod::lemma_mod_bound;
use vstd::arithmetic::div_mod::lemma_small_mod;
use vstd::seq_lib::commutative_foldl;
use vstd::seq_lib::lemma_fold_left_permutation;
use bls12_381::G1Projective;
use bls12_381::Scalar;
use crate::accum::pair_term;
use crate::accum::weighted_sum;
use crate::group::group_order;

verus! {

/// The term of every pair lies below the group order.
pub proof fn lemma_pair_term_bound(base: G1Projective, factor: Scalar)
    ensures
        pair_term(base, factor) < group_order(),
{
    lemma_mod_bound(
        (crate::group::point_nat(base) * crate::group::scalar_nat(factor)) as int,
        group_order() as int,
    );
}

/// A weighted sum with no terms is its initial value: seeding an
/// accumulator and reading it back yields the seed, and an empty
/// accumulator reads back as the identity.
pub proof fn lemma_weighted_sum_empty(init: nat)
    ensures
        weighted_sum(init, Seq::empty()) == init,
{
}

/// A weighted sum with at least one term lies below the group order.
pub proof fn lemma_weighted_sum_bound(init: nat, pairs: Seq<(G1Projective, Scalar)>)
    requires
        pairs.len() > 0,
    ensures
        weighted_sum(init, pairs) < group_order(),
{
    lemma_mod_bound(
        (weighted_sum(init, pairs.drop_last()) + pair_term(pairs.last().0, pairs.last().1)) as int,
        group_order() as int,
    );
}

/// Accumulating a concatenation is accumulating the first part and then
/// the second: appending pair by pair, in any grouping, reaches the same
/// sum as appending everything at once.
pub proof fn lemma_weighted_sum_concat(
    init: nat,
    p1: Seq<(G1Projective, Scalar)>,
    p2: Seq<(G1Projective, Scalar)>,
)
    ensures
        weighted_sum(init, p1 + p2) == weighted_sum(weighted_sum(init, p1), p2),
    decreases p2.len(),
{
    if p2.len() == 0 {
        assert(p1 + p2 =~= p1);
    } else {
        lemma_weighted_sum_concat(init, p1, p2.drop_last());
        assert((p1 + p2).drop_last() =~= p1 + p2.drop_last());
        assert((p1 + p2).last() == p2.last());
    }
}

/// Shifting the initial value shifts the sum by the same amount, modulo
/// the group order.
proof fn lemma_weighted_sum_shift(init: nat, pairs: Seq<(G1Projective, Scalar)>)
    requires
        pairs.len() > 0,
    ensures
        weighted_sum(init, pairs) == (init + weighted_sum(0, pairs)) % group_order(),
    decreases pairs.len(),
{
    let m = group_order() as int;
    let t = pair_term(pairs.last().0, pairs.last().1) as int;
    lemma_pair_term_bound(pairs.last().0, pairs.last().1);
    lemma_small_mod(t as nat, m as nat);
    if pairs.len() == 1 {
        assert(pairs.drop_last().len() == 0);
        assert(weighted_sum(0, pairs) == t % m) by {
            reveal_with_fuel(weighted_sum, 2);
        }
        assert(weighted_sum(init, pairs) == (init + t) % m) by {
            reveal_with_fuel(weighted_sum, 2);
        }
    } else {
        let dl = pairs.drop_last();
        lemma_weighted_sum_shift(init, dl);
        lemma_weighted_sum_shift(0, dl);
        let rest = weighted_sum(0, dl) as int;
        assert(weighted_sum(init, pairs) == ((init + rest) % m + t) % m);
        assert(((init + rest) % m + t) % m == (init + rest + t) % m) by {
            lemma_add_mod_noop(init + rest, t, m);
        }
        assert(weighted_sum(0, pairs) == (rest + t) % m);
        assert((init + (rest + t) % m) % m == (init + rest + t) % m) by {
            lemma_mod_bound(rest + t, m);
            lemma_small_mod(((rest + t) % m) as nat, m as nat);
            lemma_add_mod_noop(init as int, (rest + t) % m, m);
            lemma_add_mod_noop(init as int, rest + t, m);
        }
    }
}

/// Splitting a sequence of pairs anywhere, accumulating the two parts
/// separately from the identity, and adding the two results in the group
/// yields the same value as accumulating the whole sequence directly.
pub proof fn lemma_weighted_sum_split(
    p1: Seq<(G1Projective, Scalar)>,
    p2: Seq<(G1Projective, Scalar)>,
)
    ensures
        weighted_sum(0, p1 + p2) == (weighted_sum(0, p1) + weighted_sum(0, p2)) % group_order(),
{
    let m = group_order() as int;
    let s1 = weighted_sum(0, p1);
    let s2 = weighted_sum(0, p2);
    lemma_weighted_sum_concat(0, p1, p2);
    if p2.len() == 0 {
        if p1.len() == 0 {
            lemma_small_mod(0, m as nat);
        } else {
            lemma_weighted_sum_bound(0, p1);
            lemma_small_mod(s1, m as nat);
        }
    } else {
        lemma_weighted_sum_shift(s1, p2);
    }
}

/// The spec-level step the accumulator takes for one pair.
spec fn accum_step() -> spec_fn(nat, (G1Projective, Scalar)) -> nat {
    |acc: nat, p: (G1Projective, Scalar)| (acc + pair_term(p.0, p.1)) % group_order()
}

/// A weighted sum is the left fold of the accumulator step.
proof fn lemma_weighted_sum_is_fold(init: nat, pairs: Seq<(G1Projective, Scalar)>)
    ensures
        weighted_sum(init, pairs) == pairs.fold_left(init, accum_step()),
    decreases pairs.len(),
{
    if pairs.len() > 0 {
        lemma_weighted_sum_is_fold(init, pairs.drop_last());
    }
}

/// The accumulator step commutes: two terms may be folded in either
/// order, because addition modulo the group order is commutative and
/// associative.
proof fn lemma_accum_step_commutes()
    ensures
        commutative_foldl(accum_step()),
{
    let f = accum_step();
    let m = group_order() as int;
    assert forall|x: (G1Projective, Scalar), y: (G1Projective, Scalar), v: nat| #[trigger] f(
        f(v, x),
        y,
    ) == f(f(v, y), x) by {
        let tx = pair_term(x.0, x.1) as int;
        let ty = pair_term(y.0, y.1) as int;
        lemma_mod_bound(tx, m);
        lemma_mod_bound(ty, m);
        lemma_small_mod(tx as nat, m as nat);
        lemma_small_mod(ty as nat, m as nat);
        lemma_add_mod_noop(v + tx, ty, m);
        lemma_mod_bound(v + tx, m);
        lemma_small_mod(((v + tx) % m) as nat, m as nat);
        lemma_add_mod_noop(v + ty, tx, m);
        lemma_mod_bound(v + ty, m);
        lemma_small_mod(((v + ty) % m) as nat, m as nat);
    }
}

/// Order independence: two sequences holding the same pairs, however
/// ordered, accumulate to the same weighted sum from any initial value.
pub proof fn lemma_weighted_sum_permutation(
    init: nat,
    p1: Seq<(G1Projective, Scalar)>,
    p2: Seq<(G1Projective, Scalar)>,
)
    requires
        p1.to_multiset() == p2.to_multiset(),
    ensures
        weighted_sum(init, p1) == weighted_sum(init, p2),
{
    lemma_weighted_sum_is_fold(init, p1);
    lemma_weighted_sum_is_fold(init, p2);
    lemma_accum_step_commutes();
    lemma_fold_left_permutation(p1, p2, accum_step(), init);
}

} // verus!
