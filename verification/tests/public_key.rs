use stwo_p256::constants::{P256_GX, P256_GY, P256_MODULUS};
use stwo_p256::fields::M31;
use stwo_p256::fp_solinas::{FpSolinasError, FpSolinasMulTrace};
use stwo_p256::limbs::P256M31BigInt;
use stwo_p256::public_inputs::PublicEcdsaInputClaim;
use stwo_p256::public_key_check::{
    is_less_than_modulus, require_field_element, PublicKeyOnCurveClaim, PublicKeyOnCurveError,
};
use stwo_p256::types::{AffinePoint, EcdsaVerifyInput, Signature, U256};

fn scalar(value: u64) -> U256 {
    U256::from_le_u64s(&[value, 0, 0, 0])
}

fn public_claim() -> PublicEcdsaInputClaim {
    PublicEcdsaInputClaim::from_inputs(&[EcdsaVerifyInput {
        message_hash: scalar(42),
        signature: Signature { r: scalar(77), s: scalar(1) },
        public_key: AffinePoint {
            x: U256::from_le_u64s(&P256_GX),
            y: U256::from_le_u64s(&P256_GY),
        },
    }])
}

#[test]
fn public_key_on_curve_claim_accepts_generator() {
    let claim =
        PublicKeyOnCurveClaim::from_public_inputs(&public_claim()).expect("valid public key");

    claim.verify().expect("claim verifies");
    assert_eq!(claim.rows.len(), 1);
}

#[test]
fn public_key_on_curve_claim_rejects_mutated_y() {
    let mut public = public_claim();
    public.instances[0].pub_y = P256M31BigInt::from_u256(&scalar(1));

    let err = PublicKeyOnCurveClaim::from_public_inputs(&public)
        .expect_err("off-curve public key must fail");

    assert!(matches!(err, PublicKeyOnCurveError::PointOffCurve { .. }));
}

#[test]
fn public_key_on_curve_claim_detects_mutated_trace_input() {
    let mut claim =
        PublicKeyOnCurveClaim::from_public_inputs(&public_claim()).expect("valid public key");
    claim.rows[0].x_squared.rhs = P256M31BigInt::from_u256(&scalar(2));

    let err = claim.verify().expect_err("mutated trace input must fail");

    assert!(matches!(
        err,
        PublicKeyOnCurveError::FpSolinas(FpSolinasError::RawProductMismatch)
            | PublicKeyOnCurveError::TraceInputMismatch { .. }
    ));
}

#[test]
fn public_key_on_curve_claim_detects_mutated_rhs() {
    let mut claim =
        PublicKeyOnCurveClaim::from_public_inputs(&public_claim()).expect("valid public key");
    claim.rows[0].rhs = P256M31BigInt::zero();

    let err = claim.verify().expect_err("mutated rhs must fail");

    assert!(matches!(err, PublicKeyOnCurveError::RhsMismatch { .. }));
}

#[test]
fn coordinates_at_or_above_the_modulus_are_rejected() {
    let p = U256::from_le_u64s(&P256_MODULUS);
    let below = U256::from_le_u64s(&[
        P256_MODULUS[0] - 1,
        P256_MODULUS[1],
        P256_MODULUS[2],
        P256_MODULUS[3],
    ]);
    assert!(!is_less_than_modulus(&P256M31BigInt::from_u256(&p)));
    assert!(is_less_than_modulus(&P256M31BigInt::from_u256(&below)));
    assert!(is_less_than_modulus(&P256M31BigInt::zero()));
    assert!(require_field_element("x", &P256M31BigInt::from_u256(&p)).is_err());
    assert!(require_field_element("x", &P256M31BigInt::from_u256(&below)).is_ok());

    let mut public = public_claim();
    public.instances[0].pub_x = P256M31BigInt::from_u256(&p);
    assert!(PublicKeyOnCurveClaim::from_public_inputs(&public).is_err());
}

#[test]
fn statements_keep_their_order_and_values() {
    let input = EcdsaVerifyInput {
        message_hash: scalar(5),
        signature: Signature { r: scalar(6), s: scalar(7) },
        public_key: AffinePoint { x: scalar(8), y: scalar(9) },
    };
    let claim = PublicEcdsaInputClaim::from_inputs(&[input, input, input]);
    assert_eq!(claim.instances.len(), 3);
    for i in 0..3 {
        assert_eq!(claim.instances[i].sig_id, M31(i as u32));
        assert_eq!(claim.instances[i].z.to_u256().0, scalar(5).0);
        assert_eq!(claim.instances[i].pub_y.to_u256().0, scalar(9).0);
    }
    assert!(claim.instances[0] != claim.instances[1]);
    let again = PublicEcdsaInputClaim::from_inputs(&[input]);
    assert!(claim.instances[0] == again.instances[0]);
}

#[test]
fn words_tell_statements_apart() {
    let a = public_claim();
    let mut b = public_claim();
    assert_eq!(a.words(), b.words());
    assert_eq!(a.words().len(), 101);
    assert_eq!(a.words()[0], 0);
    assert_eq!(a.words()[1], 42);
    assert_eq!(a.words()[21], 77);
    b.instances[0].r.limbs_mut()[3] = M31(1);
    assert_ne!(a.words(), b.words());
}

#[test]
fn non_canonical_fields_are_named() {
    let mut public = public_claim();
    assert_eq!(public.instances[0].non_canonical_public_key_field(), None);
    public.instances[0].pub_y = P256M31BigInt::from_u256(&U256::from_le_u64s(&P256_MODULUS));
    assert_eq!(public.instances[0].non_canonical_public_key_field(), Some("pub_y"));
    public.instances[0].pub_x.limbs_mut()[0] = M31(1 << 13);
    assert_eq!(public.instances[0].non_canonical_public_key_field(), Some("pub_x"));
}

#[test]
fn limbs_round_trip() {
    for value in [
        scalar(0),
        scalar(1),
        scalar(8191),
        scalar(8192),
        U256::from_le_u64s(&P256_MODULUS),
        U256([0xFF; 32]),
    ] {
        let limbs = P256M31BigInt::from_u256(&value);
        assert_eq!(limbs.to_u256().0, value.0);
        assert!(P256M31BigInt::from_limbs(*limbs.limbs()) == limbs);
    }
    assert_eq!(P256M31BigInt::from_u256(&scalar(8192)).limbs()[1], M31(1));
    assert_eq!(P256M31BigInt::from_u256(&U256([0xFF; 32])).limbs()[19], M31(511));
}

#[test]
fn product_traces_verify_and_detect_mutation() {
    let trace = FpSolinasMulTrace::new(&scalar(3), &scalar(5)).expect("trace builds");
    assert_eq!(trace.result.to_u256().0, scalar(15).0);
    trace.verify().expect("built trace verifies");

    let mut forged = trace;
    forged.raw_product[0] = 16;
    assert_eq!(forged.verify(), Err(FpSolinasError::RawProductMismatch));
    let mut forged = trace;
    forged.result = P256M31BigInt::from_u256(&scalar(16));
    assert_eq!(forged.verify(), Err(FpSolinasError::ReductionMismatch));

    // Products are reduced modulo the field modulus.
    let p_minus_one = U256::from_le_u64s(&[
        P256_MODULUS[0] - 1,
        P256_MODULUS[1],
        P256_MODULUS[2],
        P256_MODULUS[3],
    ]);
    let square = FpSolinasMulTrace::new(&p_minus_one, &p_minus_one).expect("trace builds");
    assert_eq!(square.result.to_u256().0, scalar(1).0);
}
