use dh_exchange::{BigNat, DHP};

fn params(g: u32, p: u32) -> DHP {
    DHP::new(BigNat::from_u32(g), BigNat::from_u32(p))
}

#[test]
fn secret_key_matches_direct_power() {
    // 627^(347*781) mod 941, with 347*781 = 271007
    let dhp = params(627, 941);
    let a = BigNat::from_u32(347);
    let b = BigNat::from_u32(781);
    let direct = BigNat::from_u32(627).pow_mod(&BigNat::from_u32(271007), &BigNat::from_u32(941));
    assert_eq!(dhp.secret_key(&a, &b), direct);
    assert_eq!(direct, BigNat::from_u32(470));
}

#[test]
fn honest_exchange_verifies_for_several_exponents() {
    let dhp = params(5, 23);
    for a in 0u32..12 {
        for b in 0u32..12 {
            let a = BigNat::from_u32(a);
            let b = BigNat::from_u32(b);
            let (r1, r2) = dhp.compute_pair(&a, &b);
            let sk = dhp.secret_key(&a, &b);
            assert!(dhp.verify(&a, &b, &r1, &r2, &sk));
        }
    }
}

#[test]
fn compute_pair_values() {
    // 5^6 = 15625 = 679*23 + 8; 5^15 mod 23 = 19
    let dhp = params(5, 23);
    let (r1, r2) = dhp.compute_pair(&BigNat::from_u32(6), &BigNat::from_u32(15));
    assert_eq!(r1, BigNat::from_u32(8));
    assert_eq!(r2, BigNat::from_u32(19));
}

#[test]
fn forged_secret_rejected() {
    let dhp = params(2, 10);
    let a = BigNat::from_u32(3);
    let b = BigNat::from_u32(5);
    let (r1, r2) = dhp.compute_pair(&a, &b);
    assert!(!dhp.verify(&a, &b, &r1, &r2, &BigNat::from_u32(4)));
}

#[test]
fn tampered_value_with_same_power_passes() {
    // 18 differs from 8, yet 18^5 mod 10 == 8: the check is only one of consistency
    let dhp = params(2, 10);
    let a = BigNat::from_u32(3);
    let b = BigNat::from_u32(5);
    let (_, r2) = dhp.compute_pair(&a, &b);
    let sk = dhp.secret_key(&a, &b);
    assert!(dhp.verify(&a, &b, &BigNat::from_u32(18), &r2, &sk));
}

#[test]
fn secret_commutes() {
    let dhp = params(627, 941);
    let a = BigNat::from_u32(347);
    let b = BigNat::from_u32(781);
    assert_eq!(dhp.secret_key(&a, &b), dhp.secret_key(&b, &a));
}

#[test]
fn random_number_in_range() {
    let bound = BigNat::from_u32(7);
    for _ in 0..200 {
        let r = DHP::generate_random_number_below(&bound);
        let mut found = false;
        for k in 0u32..7 {
            if r == BigNat::from_u32(k) {
                found = true;
            }
        }
        assert!(found);
    }
}

#[test]
fn random_number_below_one_is_zero() {
    let r = DHP::generate_random_number_below(&BigNat::from_u32(1));
    assert_eq!(r, BigNat::zero());
}

#[test]
fn zero_modulus_gives_zero() {
    let dhp = params(2, 0);
    let a = BigNat::from_u32(3);
    let b = BigNat::from_u32(5);
    let (r1, r2) = dhp.compute_pair(&a, &b);
    assert_eq!(r1, BigNat::zero());
    assert_eq!(r2, BigNat::zero());
    assert_eq!(dhp.secret_key(&a, &b), BigNat::zero());
}

#[test]
fn unit_modulus_gives_zero() {
    let dhp = params(2, 1);
    let zero_exp = BigNat::zero();
    let (r1, _) = dhp.compute_pair(&zero_exp, &BigNat::from_u32(4));
    assert_eq!(r1, BigNat::zero());
}

#[test]
fn zero_exponent_gives_one() {
    let dhp = params(2, 10);
    let (r1, _) = dhp.compute_pair(&BigNat::zero(), &BigNat::from_u32(1));
    assert_eq!(r1, BigNat::from_u32(1));
}

#[test]
fn multiplication_is_exact() {
    let m = u32::MAX;
    let prod = DHP::multiplication(&BigNat::from_u32(m), &BigNat::from_u32(m));
    assert_eq!(prod, BigNat::from_u64(18446744065119617025));
    assert_eq!(
        DHP::multiplication(&BigNat::from_u32(347), &BigNat::from_u32(781)),
        BigNat::from_u32(271007)
    );
}

#[test]
fn equality_by_value() {
    assert_eq!(BigNat::from_u64(5), BigNat::from_u32(5));
    assert_eq!(BigNat::from_u32(0), BigNat::zero());
    assert_ne!(BigNat::from_u64(1 << 32), BigNat::from_u32(0));
    assert_eq!(BigNat::from_u64(1 << 32).clone(), BigNat::from_u64(4294967296));
}

#[test]
fn getters_return_parameters() {
    let dhp = params(627, 941);
    assert_eq!(*dhp.generator(), BigNat::from_u32(627));
    assert_eq!(*dhp.modulus(), BigNat::from_u32(941));
}
