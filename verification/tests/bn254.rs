use bn254::fp::Fp;
use bn254::fp2::Fp2;
use bn254::fp6::Fp6;
use bn254::fp12::Fp12;
use bn254::g1::G1;
use bn254::g2::G2;
use bn254::pairing;
use num_bigint::BigUint;
use rand::Rng;

fn fp(n: u32) -> Fp {
    Fp::new(BigUint::from(n))
}

fn fp_dec(s: &str) -> Fp {
    Fp::new(BigUint::parse_bytes(s.as_bytes(), 10).unwrap())
}

/// The standard generator of the first group.
fn g1_generator() -> G1 {
    G1 { x: fp(1), y: fp(2), z: Fp::one() }
}

/// The standard generator of the second group.
fn g2_generator() -> G2 {
    G2 {
        x: Fp2::new(
            fp_dec("10857046999023057135944570762232829481370756359578518086990519993285655852781"),
            fp_dec("11559732032986387107991004021392285783925812861821192530917403151452391805634"),
        ),
        y: Fp2::new(
            fp_dec("8495653923123431417604973247489272438418190587263600148770280649306958101930"),
            fp_dec("4082367875863433681332203403145435568316851327593401208105741076214120093531"),
        ),
        z: Fp2::one(),
    }
}

// ------------------------------------------------------------------
// Quadratic extension.
// ------------------------------------------------------------------

#[test]
fn fp2_test_basic_ops() {
    let a = Fp2::new(fp(3), fp(5));
    let b = Fp2::new(fp(7), fp(11));

    let sum = a.add(&b);
    assert_eq!(sum.c0, fp(10));
    assert_eq!(sum.c1, fp(16));

    let diff = b.sub(&a);
    assert_eq!(diff.c0, fp(4));
    assert_eq!(diff.c1, fp(6));
}

#[test]
fn test_multiplication() {
    let a = Fp2::new(fp(3), fp(5));
    let b = Fp2::new(fp(7), fp(11));

    // (3 + 5u)(7 + 11u) = 21 + 68u + 55u^2 = -34 + 68u since u^2 = -1.
    let prod = a.mul(&b);
    let expected_c0 = fp(3).mul(&fp(7)).sub(&fp(5).mul(&fp(11)));
    let expected_c1 = fp(3).mul(&fp(11)).add(&fp(5).mul(&fp(7)));
    assert_eq!(prod.c0, expected_c0);
    assert_eq!(prod.c1, expected_c1);
}

#[test]
fn fp2_test_inverse() {
    let mut rng = rand::thread_rng();
    for _ in 0..10 {
        let a_val: u64 = rng.gen_range(1..1000);
        let b_val: u64 = rng.gen_range(1..1000);
        let a = Fp2::new(Fp::new(BigUint::from(a_val)), Fp::new(BigUint::from(b_val)));
        let inv = a.inv().unwrap();
        let prod = a.mul(&inv);
        assert_eq!(prod.c0, Fp::one());
        assert_eq!(prod.c1, Fp::zero());
    }
}

#[test]
fn test_conjugate() {
    let a = Fp2::new(fp(3), fp(5));
    let conj = a.conjugate();
    assert_eq!(conj.c0, fp(3));
    assert_eq!(conj.c1, fp(5).neg());
}

#[test]
fn test_field_laws() {
    let a = Fp2::new(fp(3), fp(5));
    let b = Fp2::new(fp(7), fp(11));
    let c = Fp2::new(fp(13), fp(17));

    // Associativity of addition.
    let assoc1 = a.add(&b).add(&c);
    let assoc2 = a.add(&b.add(&c));
    assert_eq!(assoc1, assoc2);

    // Commutativity of addition.
    let comm1 = a.add(&b);
    let comm2 = b.add(&a);
    assert_eq!(comm1, comm2);

    // Associativity of multiplication.
    let assoc_mul1 = a.mul(&b).mul(&c);
    let assoc_mul2 = a.mul(&b.mul(&c));
    assert_eq!(assoc_mul1, assoc_mul2);

    // Commutativity of multiplication.
    let comm_mul1 = a.mul(&b);
    let comm_mul2 = b.mul(&a);
    assert_eq!(comm_mul1, comm_mul2);

    // Distributivity.
    let dist1 = a.mul(&b.add(&c));
    let dist2 = a.mul(&b).add(&a.mul(&c));
    assert_eq!(dist1, dist2);
}

// ------------------------------------------------------------------
// Cubic extension.
// ------------------------------------------------------------------

#[test]
fn fp6_test_basic_ops() {
    let a = Fp6::new(
        Fp2::new(fp(1), fp(2)),
        Fp2::new(fp(3), fp(4)),
        Fp2::new(fp(5), fp(6)),
    );
    let b = Fp6::new(
        Fp2::new(fp(7), fp(8)),
        Fp2::new(fp(9), fp(10)),
        Fp2::new(fp(11), fp(12)),
    );

    let sum = a.add(&b);
    assert_eq!(sum.c0, Fp2::new(fp(8), fp(10)));
}

#[test]
fn fp6_test_inverse() {
    let a = Fp6::new(
        Fp2::new(fp(1), fp(2)),
        Fp2::new(fp(3), fp(4)),
        Fp2::new(fp(5), fp(6)),
    );
    let inv = a.inv().unwrap();
    let prod = a.mul(&inv);
    assert_eq!(prod.c0, Fp2::one());
    assert_eq!(prod.c1, Fp2::zero());
    assert_eq!(prod.c2, Fp2::zero());
}

// ------------------------------------------------------------------
// Degree-12 extension.
// ------------------------------------------------------------------

fn sample_fp12() -> Fp12 {
    Fp12::new(
        Fp6::new(
            Fp2::new(fp(1), fp(2)),
            Fp2::new(fp(3), fp(4)),
            Fp2::new(fp(5), fp(6)),
        ),
        Fp6::new(
            Fp2::new(fp(7), fp(8)),
            Fp2::new(fp(9), fp(10)),
            Fp2::new(fp(11), fp(12)),
        ),
    )
}

#[test]
fn fp12_test_basic_ops() {
    let a = sample_fp12();
    let b = Fp12::one();
    let _sum = a.add(&b);
    let prod = a.mul(&b);
    assert_eq!(prod, a);
}

#[test]
fn fp12_test_inverse() {
    let a = sample_fp12();
    let inv = a.inv().unwrap();
    let prod = a.mul(&inv);
    assert_eq!(prod, Fp12::one());
}

#[test]
fn test_frobenius_moves_elements() {
    // A correct Frobenius map changes a generic element for every power
    // not divisible by twelve, and the twelfth power is the identity map.
    let a = sample_fp12();
    assert_ne!(a.frobenius_map(1), a);
    assert_ne!(a.frobenius_map(2), a);
    assert_eq!(a.frobenius_map(0), a);
    assert_eq!(a.frobenius_map(12), a);
}

#[test]
fn test_pow_small_exponents() {
    let a = sample_fp12();
    assert_eq!(a.pow(&BigUint::from(0u32)), Fp12::one());
    assert_eq!(a.pow(&BigUint::from(1u32)), a);
    assert_eq!(a.pow(&BigUint::from(3u32)), a.mul(&a).mul(&a));
}

// ------------------------------------------------------------------
// Inversion of zero is an error at every layer.
// ------------------------------------------------------------------

#[test]
fn test_zero_inverse_is_error() {
    assert!(Fp::zero().inv().is_none());
    assert!(Fp2::zero().inv().is_none());
    assert!(Fp6::zero().inv().is_none());
    assert!(Fp12::zero().inv().is_none());
    assert!(pairing::final_exponentiation(&Fp12::zero()).is_none());
}

// ------------------------------------------------------------------
// First group.
// ------------------------------------------------------------------

#[test]
fn test_g1_curve_equation() {
    let p = g1_generator();
    assert!(p.is_on_curve());

    let inf = G1::infinity();
    assert!(inf.is_on_curve());
}

#[test]
fn test_g1_group_laws() {
    let p = G1 { x: fp(3), y: fp(6), z: Fp::one() };

    // Identity: P + O = P.
    let sum = p.add(&G1::infinity());
    assert_eq!(sum.to_affine(), p.to_affine());

    // Commutativity: P + Q = Q + P.
    let q = G1 { x: fp(5), y: fp(1), z: Fp::one() };
    let sum1 = p.add(&q);
    let sum2 = q.add(&p);
    assert_eq!(sum1.to_affine(), sum2.to_affine());

    // Doubling: 2P = P + P.
    let double = p.double();
    let add = p.add(&p);
    assert_eq!(double.to_affine(), add.to_affine());
}

#[test]
fn test_g1_scalar_multiplication() {
    let p = g1_generator();

    let res = p.mul_u128(0);
    assert!(res.is_infinity());

    let res = p.mul_u128(1);
    assert_eq!(res.to_affine(), p.to_affine());

    let res2 = p.mul_u128(2);
    let manual2 = p.add(&p);
    assert_eq!(res2.to_affine(), manual2.to_affine());

    let res3 = p.mul_u128(3);
    let manual = p.add(&p).add(&p);
    assert_eq!(res3.to_affine(), manual.to_affine());
}

#[test]
fn test_g1_projective_round_trip() {
    // (lam^2 x, lam^3 y, lam z) normalizes to the same affine point.
    let p = g1_generator();
    let lam = fp(5);
    let scaled = G1 {
        x: p.x.mul(&lam).mul(&lam),
        y: p.y.mul(&lam).mul(&lam).mul(&lam),
        z: p.z.mul(&lam),
    };
    assert_eq!(scaled.to_affine(), p.to_affine());
    assert!(scaled.is_on_curve());
}

// ------------------------------------------------------------------
// Second group.
// ------------------------------------------------------------------

#[test]
fn test_infinity() {
    let inf = G2::infinity();
    assert!(inf.is_infinity());
}

#[test]
fn test_double_vs_add() {
    let x = Fp2::new(fp(1), fp(2));
    let y = Fp2::new(fp(3), fp(4));
    let p = G2 { x, y, z: Fp2::one() };

    let doubled = p.double();
    let added = p.add(&p);
    assert_eq!(doubled.to_affine(), added.to_affine());
}

#[test]
fn test_addition_commutative() {
    let p1 = G2 {
        x: Fp2::new(fp(1), fp(2)),
        y: Fp2::new(fp(3), fp(4)),
        z: Fp2::one(),
    };
    let p2 = G2 {
        x: Fp2::new(fp(5), fp(6)),
        y: Fp2::new(fp(7), fp(8)),
        z: Fp2::one(),
    };

    let sum1 = p1.add(&p2);
    let sum2 = p2.add(&p1);
    assert_eq!(sum1.to_affine(), sum2.to_affine());
}

#[test]
fn test_scalar_mul() {
    let p = G2 {
        x: Fp2::new(fp(1), fp(2)),
        y: Fp2::new(fp(3), fp(4)),
        z: Fp2::one(),
    };

    let res0 = p.mul_scalar(&BigUint::from(0u32));
    assert!(res0.is_infinity());

    let res1 = p.mul_scalar(&BigUint::from(1u32));
    assert_eq!(res1.to_affine(), p.to_affine());

    let res2 = p.mul_scalar(&BigUint::from(2u32));
    assert_eq!(res2.to_affine(), p.add(&p).to_affine());

    let res3 = p.mul_scalar(&BigUint::from(3u32));
    assert_eq!(res3.to_affine(), p.add(&p).add(&p).to_affine());
}

#[test]
fn test_g2_basic_operations() {
    let p = G2 {
        x: Fp2::new(fp(1), fp(2)),
        y: Fp2::new(fp(3), fp(4)),
        z: Fp2::one(),
    };

    let inf = G2::infinity();
    assert!(inf.is_infinity());

    let sum = p.add(&inf);
    assert_eq!(sum.to_affine(), p.to_affine());

    let double = p.double();
    let add = p.add(&p);
    assert_eq!(double.to_affine(), add.to_affine());
}

#[test]
fn test_g2_scalar_multiplication() {
    let p = G2 {
        x: Fp2::new(fp(1), fp(2)),
        y: Fp2::new(fp(3), fp(4)),
        z: Fp2::one(),
    };

    let res = p.mul_scalar(&BigUint::from(0u32));
    assert!(res.is_infinity());

    let res = p.mul_scalar(&BigUint::from(1u32));
    assert_eq!(res.to_affine(), p.to_affine());

    let res2 = p.mul_scalar(&BigUint::from(2u32));
    assert_eq!(res2.to_affine(), p.add(&p).to_affine());
}

#[test]
fn test_g2_generator_on_curve() {
    // The published generator of the twist satisfies y^2 = x^3 + 3/(9+i).
    assert!(g2_generator().is_on_curve());
    assert!(G2::infinity().is_on_curve());
}

#[test]
fn test_g2_projective_round_trip() {
    let q = g2_generator();
    let lam = Fp2::new(fp(7), fp(0));
    let lam2 = lam.mul(&lam);
    let lam3 = lam2.mul(&lam);
    let scaled = G2 {
        x: q.x.mul(&lam2),
        y: q.y.mul(&lam3),
        z: q.z.mul(&lam),
    };
    assert_eq!(scaled.to_affine(), q.to_affine());
    assert!(scaled.is_on_curve());
}

// ------------------------------------------------------------------
// Degree-12 extension through the public surface.
// ------------------------------------------------------------------

#[test]
fn test_fp12_operations() {
    let a = sample_fp12();

    let one = Fp12::one();
    let prod = a.mul(&one);
    assert_eq!(prod, a);

    let inv = a.inv().unwrap();
    let prod = a.mul(&inv);
    assert_eq!(prod, Fp12::one());
}

// ------------------------------------------------------------------
// Base field.
// ------------------------------------------------------------------

#[test]
fn test_fp_field_laws() {
    let a = fp(17);
    let b = fp(23);
    let c = fp(31);

    // Associativity: (a + b) + c = a + (b + c).
    let left = a.add(&b).add(&c);
    let right = a.add(&b.add(&c));
    assert_eq!(left, right);

    // Commutativity: a + b = b + a.
    assert_eq!(a.add(&b), b.add(&a));

    // Distributivity: a * (b + c) = a * b + a * c.
    let left = a.mul(&b.add(&c));
    let right = a.mul(&b).add(&a.mul(&c));
    assert_eq!(left, right);
}

#[test]
fn test_fp_concrete_values() {
    // 17 + 23 = 40, (17 + 23) + 31 = 71, 17 * (23 + 31) = 918.
    assert_eq!(fp(17).add(&fp(23)), fp(40));
    assert_eq!(fp(17).add(&fp(23)).add(&fp(31)), fp(71));
    assert_eq!(fp(17).mul(&fp(23).add(&fp(31))), fp(918));
    assert_eq!(fp(17).mul(&fp(23)).add(&fp(17).mul(&fp(31))), fp(918));
}

#[test]
fn test_fp_inverse_round_trip() {
    let a = fp(82);
    let inv = a.inv().unwrap();
    assert_eq!(a.mul(&inv), Fp::one());
}

#[test]
fn test_fp2_field_laws() {
    let a = Fp2::new(fp(3), fp(5));
    let b = Fp2::new(fp(7), fp(11));
    let c = Fp2::new(fp(13), fp(17));

    let assoc1 = a.add(&b).add(&c);
    let assoc2 = a.add(&b.add(&c));
    assert_eq!(assoc1, assoc2);

    assert_eq!(a.add(&b), b.add(&a));
    assert_eq!(a.mul(&b), b.mul(&a));

    let dist1 = a.mul(&b.add(&c));
    let dist2 = a.mul(&b).add(&a.mul(&c));
    assert_eq!(dist1, dist2);
}

// ------------------------------------------------------------------
// Pairing.
// ------------------------------------------------------------------

#[test]
fn test_pairing_identity() {
    // e(O, Q) = 1.
    let inf_g1 = G1::infinity();
    let q = G2 {
        x: Fp2::new(fp(1), fp(2)),
        y: Fp2::new(fp(3), fp(4)),
        z: Fp2::one(),
    };
    let result = pairing::pairing(&inf_g1, &q);
    assert_eq!(result.unwrap(), Fp12::one());
}

#[test]
fn test_pairing_non_degenerate() {
    let p = g1_generator();
    let q = G2 {
        x: Fp2::new(fp(1), fp(2)),
        y: Fp2::new(fp(3), fp(4)),
        z: Fp2::one(),
    };

    let result = pairing::pairing(&p, &q);
    assert!(result == Some(Fp12::one()) || result != Some(Fp12::one()));
}

#[test]
fn test_pairing_with_infinity() {
    let inf_g1 = G1::infinity();
    let q = G2 {
        x: Fp2::new(fp(1), fp(2)),
        y: Fp2::new(fp(3), fp(4)),
        z: Fp2::one(),
    };

    // e(O, Q) = 1.
    let result = pairing::pairing(&inf_g1, &q);
    assert_eq!(result.unwrap(), Fp12::one());

    // e(P, O) = 1.
    let p = g1_generator();
    let inf_g2 = G2::infinity();
    let result = pairing::pairing(&p, &inf_g2);
    assert_eq!(result.unwrap(), Fp12::one());
}

#[test]
fn test_pairing_generators_non_trivial() {
    // On the true generators the pairing is not the identity, and the
    // Miller loop with a stubbed line function could not produce this.
    let e = pairing::pairing(&g1_generator(), &g2_generator()).unwrap();
    assert_ne!(e, Fp12::one());
}

#[test]
fn test_pairing_doubling_generators() {
    // e(2P, Q) = e(P, Q)^2 on the true generators.
    let p = g1_generator();
    let q = g2_generator();
    let two_p = p.mul_u128(2);
    let e_2p_q = pairing::pairing(&two_p, &q).unwrap();
    let e_p_q = pairing::pairing(&p, &q).unwrap();
    assert_eq!(e_2p_q, e_p_q.mul(&e_p_q));
}

#[test]
fn test_bilinearity_generators() {
    // The end-to-end acceptance check: e(2P, 3Q) = e(P, Q)^6.
    let p = g1_generator();
    let q = g2_generator();
    assert!(pairing::check_bilinearity(&p, &q, 2, 3));
}
