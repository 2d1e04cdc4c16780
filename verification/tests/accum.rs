use bbs_core::AccumG1;
use bls12_381::G1Projective;
use bls12_381::Scalar;

fn sample_pairs() -> Vec<(G1Projective, Scalar)> {
    let g = G1Projective::generator();
    vec![
        (g, Scalar::from(2u64)),
        (g + g, Scalar::from(7u64)),
        (g + g + g, Scalar::from(11u64)),
        (g, Scalar::from(0u64)),
        (g + g, Scalar::from(1u64)),
    ]
}

#[test]
fn zero_sums_to_identity() {
    assert_eq!(AccumG1::zero().sum(), G1Projective::identity());
}

#[test]
fn seed_sums_to_seed() {
    let g = G1Projective::generator();
    let v = g * Scalar::from(42u64);
    assert_eq!(AccumG1::new_with(v).sum(), v);
}

#[test]
fn concrete_two_pair_sum() {
    let g = G1Projective::generator();
    let h = g + g + g + g + g + g + g;
    let a = Scalar::from(3u64);
    let b = Scalar::from(5u64);
    let expected = (g * a) + (h * b);
    assert_eq!(AccumG1::calc(&[(g, a), (h, b)]), expected);

    let mut reversed = AccumG1::zero();
    reversed.push(h, b);
    reversed.push(g, a);
    assert_eq!(reversed.sum(), expected);
}

#[test]
fn calc_matches_independent_sums() {
    let pairs = sample_pairs();
    let mut expected = G1Projective::identity();
    for (base, factor) in pairs.iter() {
        expected += base * factor;
    }
    assert_eq!(AccumG1::calc(&pairs), expected);
}

#[test]
fn calc_is_order_independent() {
    let pairs = sample_pairs();
    let mut shuffled = pairs.clone();
    shuffled.reverse();
    shuffled.swap(0, 2);
    assert_eq!(AccumG1::calc(&pairs), AccumG1::calc(&shuffled));
}

#[test]
fn append_matches_calc() {
    let pairs = sample_pairs();
    let mut acc = AccumG1::zero();
    acc.append(&pairs);
    assert_eq!(acc.sum(), AccumG1::calc(&pairs));
}

#[test]
fn split_accumulation_matches_direct() {
    let pairs = sample_pairs();
    let (front, back) = pairs.split_at(2);
    let mut acc1 = AccumG1::zero();
    acc1.append(front);
    let mut acc2 = AccumG1::zero();
    acc2.append(back);
    assert_eq!(acc1.sum() + acc2.sum(), AccumG1::calc(&pairs));
}

#[test]
fn sum_with_previews_push_without_mutating() {
    let g = G1Projective::generator();
    let base = g * Scalar::from(9u64);
    let factor = Scalar::from(13u64);
    let mut acc = AccumG1::zero();
    acc.append(&sample_pairs());
    let before = acc.sum();

    let preview = acc.sum_with(base, factor);

    let mut pushed = acc.clone();
    pushed.push(base, factor);
    assert_eq!(preview, pushed.sum());
    assert_eq!(acc.sum(), before);
}

#[test]
fn push_adds_term() {
    let g = G1Projective::generator();
    let mut acc = AccumG1::zero();
    acc.push(g, Scalar::from(2u64));
    assert_eq!(acc.sum(), g + g);
    assert_ne!(acc.sum(), g);
}

#[test]
fn empty_pairs_leave_identity() {
    let empty: Vec<(G1Projective, Scalar)> = Vec::new();
    assert_eq!(AccumG1::calc(&empty), G1Projective::identity());
    let mut acc = AccumG1::zero();
    acc.append(&empty);
    assert_eq!(acc.sum(), G1Projective::identity());
}

#[test]
fn conversions_match_their_constructions() {
    let g = G1Projective::generator();
    let v = g * Scalar::from(21u64);
    assert_eq!(AccumG1::from(v).sum(), v);

    let base = g + g;
    let factor = Scalar::from(6u64);
    assert_eq!(AccumG1::from_pair(base, factor).sum(), base * factor);

    let pairs = sample_pairs();
    assert_eq!(AccumG1::from_pairs(&pairs).sum(), AccumG1::calc(&pairs));
}
