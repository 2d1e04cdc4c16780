use bbs_core::random_nonce;
use bbs_core::Nonce;
use bls12_381::Scalar;
use ff::Field;
use rand::rngs::StdRng;
use rand::SeedableRng;

#[test]
fn random_nonce_is_never_zero() {
    let mut rng = StdRng::seed_from_u64(0x5eed);
    for _ in 0..10_000 {
        let s = random_nonce(&mut rng);
        assert!(!bool::from(s.is_zero()));
    }
}

#[test]
fn nonce_constructors_are_non_zero() {
    let n = Nonce::new();
    assert!(!bool::from(n.into_scalar().is_zero()));

    let rng = StdRng::seed_from_u64(7);
    let n = Nonce::new_with_rng(rng);
    assert!(!bool::from(n.into_scalar().is_zero()));
}

#[test]
fn fixed_seed_yields_identical_nonce() {
    let a = Nonce::new_with_rng(StdRng::seed_from_u64(1234));
    let b = Nonce::new_with_rng(StdRng::seed_from_u64(1234));
    assert_eq!(a, b);

    let c = Nonce::new_with_rng(StdRng::seed_from_u64(1235));
    assert_ne!(a, c);
}

#[test]
fn repeated_draws_differ() {
    let mut rng = StdRng::seed_from_u64(99);
    let first = random_nonce(&mut rng);
    let second = random_nonce(&mut rng);
    assert_ne!(first, second);
}

#[test]
fn raw_conversion_wraps_the_given_scalar() {
    let s = Scalar::from(17u64);
    let n = Nonce::from(s);
    assert_eq!(n.into_scalar(), s);

    let zero = Nonce::from(Scalar::ZERO);
    assert!(bool::from(zero.into_scalar().is_zero()));
}
