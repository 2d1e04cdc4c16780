//! Low-level primitives for a pairing-based signature scheme: secure
//! generation of a non-zero field scalar, and an accumulator that computes
//! a weighted sum of curve-group elements.

mod accum;
mod group;
mod laws;
mod nonce;

pub use accum::lemma_accum_from_point;
pub use accum::AccumG1;
pub use accum::pair_term;
pub use accum::weighted_sum;
pub use group::group_order;
pub use group::point_nat;
pub use group::scalar_nat;
pub use laws::lemma_pair_term_bound;
pub use laws::lemma_weighted_sum_bound;
pub use laws::lemma_weighted_sum_concat;
pub use laws::lemma_weighted_sum_empty;
pub use laws::lemma_weighted_sum_permutation;
pub use laws::lemma_weighted_sum_split;
pub use nonce::default_rng;
pub use nonce::lemma_nonce_from_scalar;
pub use nonce::random_nonce;
pub use nonce::Nonce;
pub use nonce::NONCE_DRAW_LIMIT;
