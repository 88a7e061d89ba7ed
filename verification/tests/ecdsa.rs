use p256::ecdsa::signature::Signer;
use p256::ecdsa::{SigningKey, VerifyingKey};
use sha2::Digest;
use stwo_p256::constants::{P256_B, P256_GX, P256_GY, P256_MODULUS, P256_ORDER};
use stwo_p256::curve::{mod_inverse, point_add, point_double, scalar_mul};
use stwo_p256::ecdsa::{
    add_optional_points, cmp_u256, ecdsa_verify, ecdsa_verify_witness, is_additive_inverse,
    is_field_element, is_point_on_curve, is_scalar_nonzero_and_below_order,
};
use stwo_p256::field_ops::{add_mod, mul_mod, mul_mod_witness, sub_mod};
use stwo_p256::types::{AffinePoint, EcdsaVerifyInput, Signature, U256};

fn scalar(value: u64) -> U256 {
    U256::from_le_u64s(&[value, 0, 0, 0])
}

fn generator_point() -> AffinePoint {
    AffinePoint { x: U256::from_le_u64s(&P256_GX), y: U256::from_le_u64s(&P256_GY) }
}

fn order() -> U256 {
    U256::from_le_u64s(&P256_ORDER)
}

fn modulus() -> U256 {
    U256::from_le_u64s(&P256_MODULUS)
}

/// A valid statement under the generator as public key, with the given scalars.
fn valid_input(u1: u64, u2: u64) -> EcdsaVerifyInput {
    let n = order();
    let public_key = generator_point();
    let r_point = scalar_mul(&scalar(u1 + u2), &public_key).expect("nonzero R");
    let r = add_mod(&r_point.x, &U256::zero(), &n);
    let u2_inv = mod_inverse(&scalar(u2), &n);
    let s = mul_mod_witness(&r, &u2_inv, &n).result.to_u256();
    let message_hash = mul_mod_witness(&scalar(u1), &s, &n).result.to_u256();
    EcdsaVerifyInput { message_hash, signature: Signature { r, s }, public_key }
}

#[test]
fn test_ecdsa_verify_with_p256_crate() {
    let signing_key = SigningKey::random(&mut rand::rngs::OsRng);
    let verifying_key = VerifyingKey::from(&signing_key);

    let message = b"test message for ECDSA P-256 verification";
    let signature: p256::ecdsa::Signature = signing_key.sign(message);

    let sig_bytes = signature.to_bytes();
    let mut r_bytes = [0u8; 32];
    let mut s_bytes = [0u8; 32];
    r_bytes.copy_from_slice(&sig_bytes[..32]);
    s_bytes.copy_from_slice(&sig_bytes[32..]);

    let pk_point = verifying_key.to_encoded_point(false);
    let mut pk_x = [0u8; 32];
    let mut pk_y = [0u8; 32];
    pk_x.copy_from_slice(pk_point.x().unwrap());
    pk_y.copy_from_slice(pk_point.y().unwrap());

    let hash = sha2::Sha256::digest(message);
    let mut hash_bytes = [0u8; 32];
    hash_bytes.copy_from_slice(&hash);

    let input = EcdsaVerifyInput {
        message_hash: U256(hash_bytes),
        signature: Signature { r: U256(r_bytes), s: U256(s_bytes) },
        public_key: AffinePoint { x: U256(pk_x), y: U256(pk_y) },
    };

    assert!(ecdsa_verify(&input), "ECDSA verification must succeed for a valid signature");

    // Another message under the same signature is rejected.
    let mut other = input;
    other.message_hash = scalar(42);
    assert!(!ecdsa_verify(&other));
}

#[test]
fn ecdsa_verify_rejects_zero_r_without_panicking() {
    let input = EcdsaVerifyInput {
        message_hash: scalar(42),
        signature: Signature { r: U256::zero(), s: scalar(11) },
        public_key: generator_point(),
    };

    assert!(!ecdsa_verify(&input));
}

#[test]
fn ecdsa_verify_rejects_zero_s_without_panicking() {
    let input = EcdsaVerifyInput {
        message_hash: scalar(42),
        signature: Signature { r: scalar(77), s: U256::zero() },
        public_key: generator_point(),
    };

    assert!(!ecdsa_verify(&input));
}

#[test]
fn ecdsa_verify_rejects_public_key_off_curve() {
    let mut public_key = generator_point();
    public_key.y = scalar(1);
    let input = EcdsaVerifyInput {
        message_hash: scalar(42),
        signature: Signature { r: scalar(77), s: scalar(11) },
        public_key,
    };

    assert!(!ecdsa_verify(&input));
}

#[test]
fn small_scalars_give_valid_statements() {
    assert!(ecdsa_verify(&valid_input(7, 11)));
    assert!(ecdsa_verify(&valid_input(0, 11)));
    assert!(ecdsa_verify(&valid_input(99, 99)));
}

#[test]
fn scalars_outside_the_order_are_rejected() {
    let mut input = valid_input(7, 11);
    input.signature.r = order();
    assert!(!ecdsa_verify(&input));

    let mut input = valid_input(7, 11);
    input.signature.s = order();
    assert!(!ecdsa_verify(&input));
}

#[test]
fn message_hash_is_taken_modulo_the_order() {
    // 3 is below 2^256 - n, so 3 + n still fits in 256 bits.
    let n = order();
    let mut input = valid_input(7, 11);
    let s = input.signature.s;
    let s_inv = mod_inverse(&s, &n);
    // A statement for the message scalar 3.
    input.message_hash = scalar(3);
    let small = ecdsa_verify_witness(&input);
    let words = P256_ORDER;
    input.message_hash = U256::from_le_u64s(&[words[0] + 3, words[1], words[2], words[3]]);
    let large = ecdsa_verify_witness(&input);
    assert_eq!(small.u1.0, large.u1.0);
    assert_eq!(small.u1.0, mul_mod(&scalar(3), &s_inv, &n).0);
    assert_eq!(small.valid, large.valid);
}

#[test]
fn witness_records_every_intermediate_value() {
    let input = valid_input(7, 11);
    let witness = ecdsa_verify_witness(&input);
    assert!(witness.valid);
    assert_eq!(witness.u1.0, scalar(7).0);
    assert_eq!(witness.u2.0, scalar(11).0);
    let g = generator_point();
    assert_eq!(witness.r1.unwrap().x.0, scalar_mul(&scalar(7), &g).unwrap().x.0);
    assert_eq!(witness.r2.unwrap().x.0, scalar_mul(&scalar(11), &g).unwrap().x.0);
    assert_eq!(witness.r_point.unwrap().x.0, scalar_mul(&scalar(18), &g).unwrap().x.0);

    // The zero branch: no point for u1 = 0.
    let witness = ecdsa_verify_witness(&valid_input(0, 11));
    assert!(witness.valid);
    assert!(witness.r1.is_none());
    assert!(witness.r2.is_some());

    // s = 0 has no inverse.
    let mut input = valid_input(7, 11);
    input.signature.s = U256::zero();
    let witness = ecdsa_verify_witness(&input);
    assert!(!witness.valid);
    assert_eq!(witness.s_inv.0, U256::zero().0);
}

#[test]
fn generator_lies_on_the_curve() {
    assert!(is_point_on_curve(&generator_point()));
    let mut off = generator_point();
    off.y = scalar(1);
    assert!(!is_point_on_curve(&off));
    let mut big = generator_point();
    big.x = modulus();
    assert!(!is_point_on_curve(&big));
    // b is the value of the curve at zero: no point has x = 0 and y = 0.
    assert!(!is_point_on_curve(&AffinePoint { x: U256::zero(), y: U256::zero() }));
    assert!(is_field_element(&U256::from_le_u64s(&P256_B)));
}

#[test]
fn doubling_matches_adding_and_known_value() {
    let g = generator_point();
    let two = point_double(&g).output;
    // 2G, a known multiple of the generator.
    let x = U256([
        0x7C, 0xF2, 0x7B, 0x18, 0x8D, 0x03, 0x4F, 0x7E, 0x8A, 0x52, 0x38, 0x03, 0x04, 0xB5, 0x1A,
        0xC3, 0xC0, 0x89, 0x69, 0xE2, 0x77, 0xF2, 0x1B, 0x35, 0xA6, 0x0B, 0x48, 0xFC, 0x47, 0x66,
        0x99, 0x78,
    ]);
    assert_eq!(two.x.0, x.0);
    assert_eq!(scalar_mul(&scalar(2), &g).unwrap().x.0, x.0);
    let three = point_add(&two, &g).output;
    assert_eq!(scalar_mul(&scalar(3), &g).unwrap().x.0, three.x.0);
    assert_eq!(scalar_mul(&scalar(3), &g).unwrap().y.0, three.y.0);
}

#[test]
fn multiples_wrap_at_the_order() {
    let g = generator_point();
    assert!(scalar_mul(&U256::zero(), &g).is_none());
    assert!(scalar_mul(&order(), &g).is_none());
    let last = scalar_mul(&sub_mod(&U256::zero(), &scalar(1), &order()), &g).unwrap();
    assert_eq!(last.x.0, g.x.0);
    assert_eq!(last.y.0, sub_mod(&U256::zero(), &g.y, &modulus()).0);
}

#[test]
fn optional_points_add_as_a_group() {
    let g = generator_point();
    let minus = AffinePoint { x: g.x, y: sub_mod(&modulus(), &g.y, &modulus()) };
    assert!(add_optional_points(None, None).is_none());
    assert_eq!(add_optional_points(Some(g), None).unwrap().x.0, g.x.0);
    assert_eq!(add_optional_points(None, Some(g)).unwrap().y.0, g.y.0);
    assert!(is_additive_inverse(&g, &minus));
    assert!(add_optional_points(Some(g), Some(minus)).is_none());
    assert_eq!(
        add_optional_points(Some(g), Some(g)).unwrap().x.0,
        point_double(&g).output.x.0
    );
}

#[test]
fn inverses_multiply_to_one() {
    let n = order();
    for value in [1u64, 2, 3, 11, 65537] {
        let inverse = mod_inverse(&scalar(value), &n);
        assert_eq!(mul_mod(&scalar(value), &inverse, &n).0, scalar(1).0);
    }
    assert_eq!(mod_inverse(&U256::zero(), &n).0, U256::zero().0);
    // 6 shares a factor with 9.
    assert_eq!(mod_inverse(&scalar(6), &scalar(9)).0, U256::zero().0);
}

#[test]
fn modular_operations_reduce() {
    let p = modulus();
    assert_eq!(add_mod(&p, &scalar(5), &p).0, scalar(5).0);
    assert_eq!(sub_mod(&scalar(5), &scalar(7), &p).0, sub_mod(&p, &scalar(2), &p).0);
    assert_eq!(mul_mod(&scalar(6), &scalar(7), &scalar(40)).0, scalar(2).0);
}

#[test]
fn integers_order_by_value() {
    assert_eq!(cmp_u256(&scalar(1), &scalar(2)), std::cmp::Ordering::Less);
    assert_eq!(cmp_u256(&order(), &modulus()), std::cmp::Ordering::Less);
    assert_eq!(cmp_u256(&modulus(), &modulus()), std::cmp::Ordering::Equal);
    assert_eq!(cmp_u256(&modulus(), &order()), std::cmp::Ordering::Greater);
    assert!(!is_scalar_nonzero_and_below_order(&U256::zero()));
    assert!(!is_scalar_nonzero_and_below_order(&order()));
    assert!(is_scalar_nonzero_and_below_order(&scalar(1)));
}

#[test]
fn ecdsa_verify_rejects_r_that_wraps_around() {
    // With u1 + u2 = 1 the sum is the generator. Its x-coordinate is below n, so
    // the only r for it is that coordinate, and not Gx - n modulo 2^256.
    let n = order();
    let u2 = scalar(11);
    let u1 = sub_mod(&scalar(1), &u2, &n);
    let signed = |r: U256| {
        let s = mul_mod(&r, &mod_inverse(&u2, &n), &n);
        let message_hash = mul_mod(&u1, &s, &n);
        EcdsaVerifyInput { message_hash, signature: Signature { r, s }, public_key: generator_point() }
    };
    assert!(ecdsa_verify(&signed(generator_point().x)));
    let mut wrapped = [0u64; 4];
    let mut borrow = 0i128;
    for i in 0..4 {
        let difference = P256_GX[i] as i128 - P256_ORDER[i] as i128 + borrow;
        wrapped[i] = difference as u64;
        borrow = difference >> 64;
    }
    assert_eq!(borrow, -1);
    let wrapped = U256::from_le_u64s(&wrapped);
    assert!(is_scalar_nonzero_and_below_order(&wrapped));
    assert!(!ecdsa_verify(&signed(wrapped)));
}

#[test]
fn sums_commute_and_stay_on_the_curve() {
    let g = generator_point();
    let points: Vec<AffinePoint> =
        (1..6).map(|k| scalar_mul(&scalar(k), &g).expect("finite multiple")).collect();
    for a in &points {
        for b in &points {
            let sum = add_optional_points(Some(*a), Some(*b)).expect("finite sum");
            let swapped = add_optional_points(Some(*b), Some(*a)).expect("finite sum");
            assert!(sum.x == swapped.x && sum.y == swapped.y);
            assert!(is_point_on_curve(&sum));
        }
    }
}

#[test]
fn honest_scalars_recombine_to_the_nonce() {
    let n = order();
    let (z, d, k) = (scalar(987_654_321), scalar(1_234_567), scalar(424_242));
    let g = generator_point();
    let r = add_mod(&scalar_mul(&k, &g).unwrap().x, &U256::zero(), &n);
    let total = add_mod(&z, &mul_mod(&r, &d, &n), &n);
    let s = mul_mod(&mod_inverse(&k, &n), &total, &n);
    let w = mod_inverse(&s, &n);
    let (u1, u2) = (mul_mod(&z, &w, &n), mul_mod(&r, &w, &n));
    assert!(add_mod(&u1, &mul_mod(&u2, &d, &n), &n) == k);
    let public_key = scalar_mul(&d, &g).unwrap();
    let signed = |s: U256| EcdsaVerifyInput {
        message_hash: z,
        signature: Signature { r, s },
        public_key,
    };
    assert!(ecdsa_verify(&signed(s)));

    // The opposite s gives the opposite scalars, and signs as well.
    let opposite = sub_mod(&U256::zero(), &s, &n);
    let w = mod_inverse(&opposite, &n);
    assert!(mul_mod(&z, &w, &n) == sub_mod(&U256::zero(), &u1, &n));
    assert!(mul_mod(&r, &w, &n) == sub_mod(&U256::zero(), &u2, &n));
    assert!(ecdsa_verify(&signed(opposite)));
}

#[test]
fn residues_modulo_the_curve_primes_have_inverses() {
    for m in [modulus(), order()] {
        for a in [scalar(2), scalar(65_537), sub_mod(&U256::zero(), &scalar(1), &m)] {
            assert!(mul_mod(&a, &mod_inverse(&a, &m), &m) == scalar(1));
        }
    }
}

#[test]
fn no_point_is_its_own_reflection() {
    for x in [0u64, 1, 2, 3, 41, u64::MAX] {
        assert!(!is_point_on_curve(&AffinePoint { x: scalar(x), y: U256::zero() }));
    }
}

#[test]
fn sums_associate() {
    let g = generator_point();
    let multiple = |k: u64| scalar_mul(&scalar(k), &g);
    let negated = |k: u64| {
        multiple(k).map(|p| AffinePoint { x: p.x, y: sub_mod(&U256::zero(), &p.y, &modulus()) })
    };
    let points = [
        None,
        multiple(1),
        multiple(2),
        multiple(3),
        multiple(7),
        negated(1),
        negated(2),
        negated(3),
        negated(5),
    ];
    for a in points {
        for b in points {
            for c in points {
                let left = add_optional_points(add_optional_points(a, b), c);
                let right = add_optional_points(a, add_optional_points(b, c));
                assert_eq!(left.is_some(), right.is_some());
                if let (Some(l), Some(r)) = (left, right) {
                    assert!(l.x == r.x && l.y == r.y);
                }
            }
        }
    }
}

#[test]
fn multiples_add_up_and_vanish_at_the_order_only() {
    let n = order();
    let q = scalar_mul(&scalar(1_234_567), &generator_point()).unwrap();
    let (i, j) = (mod_inverse(&scalar(3), &n), mod_inverse(&scalar(5), &n));
    let sum = add_optional_points(scalar_mul(&i, &q), scalar_mul(&j, &q)).unwrap();
    let direct = scalar_mul(&add_mod(&i, &j, &n), &q).unwrap();
    assert!(sum.x == direct.x && sum.y == direct.y);
    assert!(scalar_mul(&n, &q).is_none());
    assert!(scalar_mul(&U256::zero(), &q).is_none());
    let last = scalar_mul(&sub_mod(&U256::zero(), &scalar(1), &n), &q).unwrap();
    assert!(last.x == q.x && last.y == sub_mod(&U256::zero(), &q.y, &modulus()));
}
