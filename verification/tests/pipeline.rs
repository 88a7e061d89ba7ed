use stwo_p256::constants::{P256_GX, P256_GY, P256_MODULUS, P256_ORDER};
use stwo_p256::curve::{mod_inverse, point_add, scalar_mul};
use stwo_p256::ecdsa::ecdsa_verify;
use stwo_p256::field_ops::{add_mod, mul_mod_witness, sub_mod};
use stwo_p256::fields::{SecureField, M31};
use stwo_p256::limbs::P256M31BigInt;
use stwo_p256::pipeline::balances::{
    prepared_point_range7_consumer_claimed_sum, DraftSums, P256ProofInteractionClaim,
    P256ProofRelations, RelationBalanceClaim,
};
use stwo_p256::pipeline::draft::{
    component_checks, next_request, require_valid_inputs, Artifact, BuildRequest, ComponentCheck,
    HintOutcome, P256ProofClaim, P256ProofDraft, StageOutcome, BUILD_STAGES, COMPONENT_CHECKS,
    REBUILD_STAGES,
};
use stwo_p256::pipeline::error::{
    FakeGlvScalarHintError, FinalAddError, FinalEcdsaCheckError, P256ProofError,
    ProjectiveEcError, PublicKeyCurveSliceError, ScalarSetupClaimError,
};
use stwo_p256::pipeline::final_add::{
    final_add_claim_from_final_check, merged_scalar_mod_mul_rows, negate_prepared,
    public_key_on_curve_slice_claim, public_key_slice_from_check, signed_prepared,
    FakeGlvScalarRow, FinalCheckRow, PreparedAffinePoint, ScalarSetupRow,
    FAKE_GLV_SCALAR_MUL_ID_BASE,
};
use stwo_p256::pipeline::interaction_claim::{
    ComponentInteractionClaim, P256CurrentAirInteractionClaim, P256CurrentAirRelationAudit,
    ProviderConsumerClaim,
};
use stwo_p256::pipeline::ledger::{
    CertScalarInputSums, FakeGlvScalarSums, FinalAddSums, FinalCheckSums, PinnedTableSums,
    RelationLedger, ScalarSetupSums,
};
use stwo_p256::pipeline::public_providers::public_ecdsa_provider_claimed_sum;
use stwo_p256::pipeline::relations::LookupRelation;
use stwo_p256::pipeline::slots::{
    p256_proof_component_slots, pending_slots, P256ProofComponentStatus,
};
use stwo_p256::public_inputs::PublicEcdsaInputClaim;
use stwo_p256::public_key_check::{PublicKeyOnCurveClaim, PublicKeyOnCurveError};
use stwo_p256::range_checks::interaction::RangeCheckInteractionClaim;
use stwo_p256::types::{field_modulus, AffinePoint, EcdsaVerifyInput, Signature, U256};

fn zero() -> SecureField {
    SecureField::zero()
}

fn felt(value: u32) -> SecureField {
    SecureField::from_base(M31(value))
}

fn scalar(value: u64) -> U256 {
    U256::from_le_u64s(&[value, 0, 0, 0])
}

fn generator_point() -> AffinePoint {
    AffinePoint { x: U256::from_le_u64s(&P256_GX), y: U256::from_le_u64s(&P256_GY) }
}

fn valid_real_input_with_small_u_scalars(u1: u64, u2: u64) -> EcdsaVerifyInput {
    assert_ne!(u2, 0);
    let n = U256::from_le_u64s(&P256_ORDER);
    let public_key = generator_point();
    let r_point = scalar_mul(&scalar(u1 + u2), &public_key).expect("nonzero R");
    let r = add_mod(&r_point.x, &U256::zero(), &n);
    let u2_inv = mod_inverse(&scalar(u2), &n);
    let s = mul_mod_witness(&r, &u2_inv, &n).result.to_u256();
    let message_hash = mul_mod_witness(&scalar(u1), &s, &n).result.to_u256();
    EcdsaVerifyInput { message_hash, signature: Signature { r, s }, public_key }
}

fn artifact(id: u64, rows: u32) -> Artifact {
    Artifact { id, rows, active_rows: rows }
}

/// Outcomes of all build stages: stage `i` gives trace `i` with `i + 1` rows.
fn good_stages() -> Vec<StageOutcome> {
    (0..BUILD_STAGES).map(|i| Ok(artifact(i as u64, i as u32 + 1))).collect()
}

fn good_setup() -> Vec<StageOutcome> {
    vec![Ok(artifact(100, 1)), Ok(artifact(101, 2))]
}

fn good_hints() -> Vec<HintOutcome> {
    vec![Ok(artifact(200, 1)), Ok(artifact(201, 1))]
}

fn draft(u1: u64, u2: u64) -> P256ProofDraft {
    P256ProofDraft::from_inputs_with_trivial_fake_glv_hints(
        vec![valid_real_input_with_small_u_scalars(u1, u2)],
        good_setup(),
        &good_hints(),
        good_stages(),
    )
    .expect("current pipeline builds")
}

/// Sums of stages that balance.
fn balanced_sums() -> DraftSums {
    let claim = draft(7, 11).claim;
    let relation = P256ProofRelations::dummy().public_inputs;
    let provided = public_ecdsa_provider_claimed_sum(&claim.public_inputs.instances, &relation)
        .expect("no pole is met");
    DraftSums {
        public_consumer: provided.negated(),
        selector_provider: felt(6),
        selector_consumer: felt(6).negated(),
        prepared_provider: felt(7),
        prepared_consumer: felt(7).negated(),
        range7_use_counts: vec![M31(1), M31(65), M31(127), M31(65)],
    }
}

fn pending_and_implemented() -> (Vec<&'static str>, Vec<&'static str>) {
    let slots = p256_proof_component_slots();
    let pending = slots
        .iter()
        .filter(|slot| slot.status == P256ProofComponentStatus::Pending)
        .map(|slot| slot.name)
        .collect::<Vec<_>>();
    let implemented = slots
        .iter()
        .filter(|slot| slot.status == P256ProofComponentStatus::Implemented)
        .map(|slot| slot.name)
        .collect::<Vec<_>>();
    (pending, implemented)
}

fn check_reported_slots() {
    let (pending, implemented) = pending_and_implemented();
    assert!(implemented.contains(&"PublicEcdsaInput"));
    assert!(implemented.contains(&"PublicKeyOnCurve"));
    assert!(implemented.contains(&"SolinasReductionTraceRows"));
    assert!(!pending.contains(&"PublicKeyOnCurve"));
    assert!(!pending.contains(&"SolinasReductionTraceRows"));
    assert!(implemented.contains(&"ScalarSetup"));
    assert!(implemented.contains(&"CertScalarInput"));
    assert!(implemented.contains(&"FakeGlvSelector"));
    assert!(implemented.contains(&"PreparedPointUseCounts"));
    assert!(implemented.contains(&"PreparedTablePoints"));
    assert!(!pending.contains(&"PreparedTablePoints"));
    assert!(implemented.contains(&"PreparedTableEcTrace"));
    assert!(implemented.contains(&"PreparedTableEcRows"));
    assert!(implemented.contains(&"FakeGlvChainTrace"));
    assert!(implemented.contains(&"FakeGlvPrimitiveEcTrace"));
    assert!(implemented.contains(&"FakeGlvEcChainRows"));
    assert!(implemented.contains(&"ProjectiveRcbEcTrace"));
    assert!(implemented.contains(&"ProjectiveRcbAirRows"));
    assert!(implemented.contains(&"FinalEcdsaCheck"));
    assert!(!pending.contains(&"FinalEcdsaCheck"));
    assert!(implemented.contains(&"StarkProveVerify"));
    assert!(!pending.contains(&"PreparedTableEcRows"));
    assert!(!pending.contains(&"FakeGlvScalarHint"));
    assert!(!pending.contains(&"FakeGlvEcChainRows"));
}

#[test]
fn proof_current_p256_proof_pipeline_reports_pending_full_proof_slots() {
    check_reported_slots();
}

#[test]
fn tests_current_p256_proof_pipeline_reports_pending_full_proof_slots() {
    check_reported_slots();
}

#[test]
fn tests_full_p256_signature_proof_has_no_pending_component_slots() {
    let (pending, _) = pending_and_implemented();
    assert!(
        pending.is_empty(),
        "full P-256 signature proof still has pending slots: {pending:?}"
    );
    assert!(pending_slots(&p256_proof_component_slots()).is_empty());
}

#[test]
fn proof_relation_audit_lists_all_imbalances_and_dead_links() {
    check_audit();
}

#[test]
fn tests_relation_audit_lists_all_imbalances_and_dead_links() {
    check_audit();
}

fn check_audit() {
    let nonzero = felt(1);
    let audit = P256CurrentAirRelationAudit {
        balances: vec![
            ("Alpha", zero()),
            ("Beta", nonzero),
            ("Gamma", zero()),
            ("Delta", nonzero),
        ],
        liveness: vec![("LiveOk", nonzero), ("DeadLink", zero())],
    };
    assert_eq!(audit.imbalanced(), vec!["Beta", "Delta"]);
    assert_eq!(audit.first_imbalance(), Some("Beta"));
    assert!(!audit.is_balanced());
    assert_eq!(audit.dead_links(), vec!["DeadLink"]);
    assert_eq!(audit.relation_names(), vec!["Alpha", "Beta", "Gamma", "Delta"]);

    let healthy = P256CurrentAirRelationAudit {
        balances: vec![("A", zero())],
        liveness: vec![("L", nonzero)],
    };
    assert!(healthy.is_balanced());
    assert!(healthy.imbalanced().is_empty());
    assert!(healthy.dead_links().is_empty());
}

fn check_invalid_real_signature() {
    let mut input = valid_real_input_with_small_u_scalars(7, 11);
    input.message_hash = scalar(123);

    assert!(!ecdsa_verify(&input));
    let err = P256ProofDraft::from_verified_inputs_with_trivial_fake_glv_hints(
        vec![input],
        good_setup(),
        &good_hints(),
        good_stages(),
    )
    .expect_err("invalid native signature must not enter current AIR pipeline");

    assert_eq!(err, P256ProofError::InvalidNativeEcdsaInput { index: 0 });
}

#[test]
fn proof_current_p256_proof_pipeline_rejects_invalid_real_signature_input() {
    check_invalid_real_signature();
}

#[test]
fn tests_current_p256_proof_pipeline_rejects_invalid_real_signature_input() {
    check_invalid_real_signature();
}

fn check_public_key_off_curve() {
    let mut input = valid_real_input_with_small_u_scalars(7, 11);
    input.public_key.y = scalar(1);

    let err = P256ProofDraft::from_inputs_with_trivial_fake_glv_hints(
        vec![input],
        good_setup(),
        &good_hints(),
        good_stages(),
    )
    .expect_err("off-curve public key must fail");

    assert!(matches!(
        err,
        P256ProofError::PublicKeyOnCurve(PublicKeyOnCurveError::PointOffCurve { .. })
    ));
}

#[test]
fn proof_current_p256_proof_pipeline_rejects_public_key_off_curve() {
    check_public_key_off_curve();
}

#[test]
fn tests_current_p256_proof_pipeline_rejects_public_key_off_curve() {
    check_public_key_off_curve();
}

fn check_draft_imbalance(mutate: fn(&mut P256ProofInteractionClaim), relation: &'static str) {
    let proof = draft(7, 11);
    let mut interaction_claim = proof.interaction_claim(&balanced_sums()).expect("no pole is met");
    interaction_claim.verify_balanced().expect("honest sums balance");
    mutate(&mut interaction_claim);
    let err = interaction_claim.verify_balanced().expect_err("mutated consumer sum must fail");
    assert_eq!(err, P256ProofError::RelationImbalance { relation });
}

#[test]
fn proof_current_p256_proof_pipeline_detects_public_relation_imbalance() {
    check_draft_imbalance(
        |claim| claim.public_inputs.consumer_claimed_sum = SecureField::zero(),
        "PublicEcdsaInstance",
    );
}

#[test]
fn tests_current_p256_proof_pipeline_detects_public_relation_imbalance() {
    check_draft_imbalance(
        |claim| claim.public_inputs.consumer_claimed_sum = SecureField::zero(),
        "PublicEcdsaInstance",
    );
}

#[test]
fn proof_current_p256_proof_pipeline_detects_selector_lookup_imbalance() {
    check_draft_imbalance(
        |claim| claim.selector_lookups.consumer_claimed_sum = SecureField::zero(),
        "SelectorLookups",
    );
}

#[test]
fn tests_current_p256_proof_pipeline_detects_selector_lookup_imbalance() {
    check_draft_imbalance(
        |claim| claim.selector_lookups.consumer_claimed_sum = SecureField::zero(),
        "SelectorLookups",
    );
}

#[test]
fn proof_current_p256_proof_pipeline_detects_prepared_point_imbalance() {
    check_draft_imbalance(
        |claim| claim.prepared_points.consumer_claimed_sum = SecureField::zero(),
        "PreparedPoint",
    );
}

#[test]
fn tests_current_p256_proof_pipeline_detects_prepared_point_imbalance() {
    check_draft_imbalance(
        |claim| claim.prepared_points.consumer_claimed_sum = SecureField::zero(),
        "PreparedPoint",
    );
}

#[test]
fn draft_detects_range7_imbalance() {
    check_draft_imbalance(
        |claim| claim.range7.consumer_claimed_sum = SecureField::zero(),
        "Range7",
    );
}

#[test]
fn slots_are_listed_and_pending_ones_named() {
    let mut slots = p256_proof_component_slots();
    assert_eq!(slots.len(), 18);
    assert!(slots[0].note.contains("now carries verifier-supplied public ECDSA tuples"));
    assert!(slots[16].note.starts_with("r_x is now bound IN-AIR to x(u1"));
    slots[2].status = P256ProofComponentStatus::Pending;
    assert_eq!(pending_slots(&slots), vec![slots[2].name]);
}

#[test]
fn range7_sides_cancel() {
    let relations = P256ProofRelations::dummy();
    let sums = balanced_sums();
    let public = draft(7, 11).claim.public_inputs;
    let claim = P256ProofInteractionClaim::from_claim(&public, &sums, &relations).unwrap();
    assert_eq!(claim.range7.total(), zero());
    let consumer =
        prepared_point_range7_consumer_claimed_sum(&sums.range7_use_counts, &relations.range7);
    assert_eq!(claim.range7.consumer_claimed_sum, consumer);
    assert_ne!(consumer, zero());
    // The statements provide the public inputs.
    let provided =
        public_ecdsa_provider_claimed_sum(&public.instances, &relations.public_inputs).unwrap();
    assert_eq!(
        claim.public_inputs,
        RelationBalanceClaim::new(provided, sums.public_consumer)
    );
    assert_eq!(claim.public_inputs.total(), zero());
    let other = draft(5, 11).claim.public_inputs;
    let claim = P256ProofInteractionClaim::from_claim(&other, &sums, &relations).unwrap();
    assert_eq!(
        claim.verify_balanced(),
        Err(P256ProofError::RelationImbalance { relation: "PublicEcdsaInstance" })
    );
}

#[test]
fn stages_are_requested_in_order() {
    let mut built: Vec<Artifact> = Vec::new();
    assert_eq!(next_request(&built), Some(BuildRequest::ScalarSetup));
    for i in 0..BUILD_STAGES {
        assert!(next_request(&built).is_some());
        built.push(artifact(i as u64, 10 * (i as u32 + 1)));
    }
    assert_eq!(next_request(&built), None);
    // The final addition starts past the ladder's rows, the key check past both.
    assert_eq!(
        next_request(&built[..12].to_vec()),
        Some(BuildRequest::FinalAdd {
            final_check: built[11],
            fake_glv_scalars: built[2],
            hinted_source_offset: 110,
        })
    );
    assert_eq!(
        next_request(&built[..15].to_vec()),
        Some(BuildRequest::PublicKeySlice { hinted_source_offset: 240 })
    );
    assert_eq!(
        next_request(&built[..16].to_vec()),
        Some(BuildRequest::ExtendHintedMul {
            hinted_mul_trace: built[14],
            mul_trace: built[15],
            hinted_source_offset: 240,
        })
    );
}

#[test]
fn claims_hold_the_traces_of_their_stages() {
    let claim = draft(7, 11).claim;
    assert_eq!(claim.scalar_setup.id, 0);
    assert_eq!(claim.prepared_table.id, 5);
    assert_eq!(claim.final_check.id, 11);
    assert_eq!(claim.final_add.mul_trace.id, 12);
    assert_eq!(claim.final_add.hinted_source_offset, 11);
    assert_eq!(claim.hinted_mul_trace.id, 16);
    assert_eq!(claim.prepared_trace.id, 18);
    assert_eq!(claim.public_key_check.rows.len(), 1);
    assert_eq!(claim.public_inputs.instances.len(), 1);
}

fn build_error(stage: usize, error: P256ProofError) -> P256ProofError {
    let mut stages = good_stages();
    stages[stage] = Err(error);
    P256ProofClaim::from_inputs_with_hints(
        &[valid_real_input_with_small_u_scalars(7, 11)],
        stages,
    )
    .expect_err("a failed stage fails the build")
}

#[test]
fn the_first_failing_stage_decides() {
    let setup = P256ProofError::from(ScalarSetupClaimError::Check { code: 3 });
    let ec = P256ProofError::from(ProjectiveEcError::Check { code: 4 });
    assert_eq!(build_error(0, setup.clone()), setup);
    assert_eq!(build_error(9, ec.clone()), ec);
    assert_eq!(build_error(18, ec.clone()), ec);
    let mut stages = good_stages();
    stages[4] = Err(setup.clone());
    stages[9] = Err(ec);
    assert_eq!(
        P256ProofClaim::from_inputs_with_hints(
            &[valid_real_input_with_small_u_scalars(7, 11)],
            stages,
        )
        .expect_err("a failed stage fails the build"),
        setup
    );
}

#[test]
fn invalid_final_signature_linkage_is_reported() {
    let mismatch = P256ProofError::FinalEcdsaCheck(FinalEcdsaCheckError::SignatureRMismatch);
    assert_eq!(build_error(11, mismatch.clone()), mismatch);
}

#[test]
fn missing_rows_fail_the_build() {
    // No row of the final check.
    let mut stages = good_stages();
    stages[11] = Ok(artifact(11, 0));
    assert_eq!(
        P256ProofClaim::from_inputs_with_hints(
            &[valid_real_input_with_small_u_scalars(7, 11)],
            stages,
        )
        .expect_err("no final row"),
        P256ProofError::FinalAdd(FinalAddError::MulTraceShape)
    );
    // No public key.
    assert_eq!(
        P256ProofClaim::from_inputs_with_hints(&[], good_stages()).expect_err("no key row"),
        P256ProofError::PublicKeyCurveSlice(PublicKeyCurveSliceError::UnsupportedRowCount {
            actual: 0
        })
    );
}

#[test]
fn hints_come_before_the_build() {
    let inputs = [valid_real_input_with_small_u_scalars(7, 11)];
    let mut off_curve = inputs;
    off_curve[0].public_key.y = scalar(1);
    let setup_error = P256ProofError::from(ScalarSetupClaimError::Check { code: 9 });
    // The setup's error comes before that of the public key.
    assert_eq!(
        P256ProofClaim::from_inputs_with_arbitrary_fake_glv_hints(
            &off_curve,
            vec![Err(setup_error.clone()), Ok(artifact(1, 1))],
            &good_hints(),
            good_stages(),
        )
        .expect_err("setup fails"),
        setup_error
    );
    let hints: Vec<HintOutcome> = vec![
        Ok(artifact(200, 1)),
        Err(FakeGlvScalarHintError::ScalarDoesNotFitTrivialHint),
    ];
    assert_eq!(
        P256ProofClaim::from_inputs_with_trivial_fake_glv_hints(
            &off_curve,
            good_setup(),
            &hints,
            good_stages(),
        )
        .expect_err("hint fails"),
        P256ProofError::FakeGlvScalar(FakeGlvScalarHintError::ScalarDoesNotFitTrivialHint)
    );
    assert!(P256ProofClaim::from_inputs_with_arbitrary_fake_glv_hints(
        &inputs,
        good_setup(),
        &good_hints(),
        good_stages(),
    )
    .is_ok());
}

#[test]
fn rebuilding_replaces_what_depends_on_the_hint_point() {
    let base = draft(7, 11).claim;
    let stages: Vec<StageOutcome> =
        (0..REBUILD_STAGES).map(|i| Ok(artifact(500 + i as u64, 7))).collect();
    assert_eq!(
        base.next_rebuild_request(&vec![artifact(1, 2); 8]),
        Some(BuildRequest::PublicKeySlice { hinted_source_offset: 2 + 13 })
    );
    let kept = base.final_check;
    let rebuilt = P256ProofClaim::from_inputs_with_wrong_r_for_cert(base, stages)
        .expect("rebuild succeeds");
    assert_eq!(rebuilt.prepared_table.id, 500);
    assert_eq!(rebuilt.projective_rcb_air_trace.id, 505);
    assert_eq!(rebuilt.hinted_mul_trace.id, 509);
    assert_eq!(rebuilt.prepared_trace.id, 510);
    assert_eq!(rebuilt.final_check, kept);
    assert_eq!(rebuilt.scalar_setup.id, 0);
}

#[test]
fn checked_drafts_are_the_unchecked_ones() {
    let inputs = vec![valid_real_input_with_small_u_scalars(7, 11)];
    let checked = P256ProofDraft::from_verified_inputs_with_trivial_fake_glv_hints(
        inputs,
        good_setup(),
        &good_hints(),
        good_stages(),
    )
    .unwrap();
    let unchecked = draft(7, 11);
    assert_eq!(checked.relations, unchecked.relations);
    assert_eq!(checked.relations, P256ProofRelations::dummy());
    assert!(checked.claim.public_inputs.instances == unchecked.claim.public_inputs.instances);
    assert_eq!(checked.claim.prepared_trace, unchecked.claim.prepared_trace);
    assert_eq!(checked.claim.final_add.mul_trace, unchecked.claim.final_add.mul_trace);
}

#[test]
fn invalid_inputs_are_found_by_position() {
    let good = valid_real_input_with_small_u_scalars(7, 11);
    let mut bad = good;
    bad.message_hash = scalar(123);
    assert_eq!(require_valid_inputs(&vec![good, good]), Ok(()));
    assert_eq!(
        require_valid_inputs(&vec![good, bad, bad]),
        Err(P256ProofError::InvalidNativeEcdsaInput { index: 1 })
    );
}

#[test]
fn checks_audits_and_balances_come_in_order() {
    let proof = draft(7, 11);
    let passed = || vec![Ok(()); COMPONENT_CHECKS];
    assert_eq!(component_checks().len(), COMPONENT_CHECKS);
    assert_eq!(component_checks()[0], ComponentCheck::ScalarSetup);
    assert_eq!(component_checks()[17], ComponentCheck::PreparedPointTrace);
    let sums = balanced_sums();
    assert_eq!(proof.verify_current_e2e(passed(), Ok(true), true, &sums), Some(Ok(())));

    let failure = P256ProofError::from(ProjectiveEcError::Check { code: 1 });
    let mut checks = passed();
    checks[12] = Err(failure.clone());
    assert_eq!(
        proof.verify_current_e2e(checks, Ok(false), false, &sums),
        Some(Err(failure.clone()))
    );
    assert_eq!(
        proof.verify_current_e2e(passed(), Err(failure.clone()), false, &sums),
        Some(Err(failure))
    );
    assert_eq!(
        proof.verify_current_e2e(passed(), Ok(false), false, &sums),
        Some(Err(P256ProofError::RelationImbalance { relation: "SelectorLookupAudit" }))
    );
    assert_eq!(
        proof.verify_current_e2e(passed(), Ok(true), false, &sums),
        Some(Err(P256ProofError::RelationImbalance { relation: "PreparedPointAudit" }))
    );
    let mut sums = balanced_sums();
    sums.selector_consumer = zero();
    assert_eq!(
        proof.verify_current_e2e(passed(), Ok(true), true, &sums),
        Some(Err(P256ProofError::RelationImbalance { relation: "SelectorLookups" }))
    );

    let mut forged = draft(7, 11);
    forged.claim.public_key_check.rows[0].rhs = P256M31BigInt::zero();
    assert!(matches!(
        forged.claim.verify_current_components(passed()),
        Err(P256ProofError::PublicKeyOnCurve(PublicKeyOnCurveError::RhsMismatch { .. }))
    ));
}

#[test]
fn hint_points_take_the_sign_of_their_certificate() {
    let g = generator_point();
    let two = scalar_mul(&scalar(2), &g).unwrap();
    let row = FinalCheckRow {
        sig_id: M31(4),
        h1: PreparedAffinePoint::from_affine(&g),
        h2: PreparedAffinePoint::from_affine(&two),
    };
    let certificate = |sig: u32, cert: u32, active: u32, sign: u32| FakeGlvScalarRow {
        sig_id: M31(sig),
        cert_id: M31(cert),
        cert_active: M31(active),
        scalar: P256M31BigInt::from_u256(&scalar(9)),
        s2_abs: scalar(1),
        s2_sign_bit: M31(sign),
    };
    let rows = vec![
        certificate(3, 0, 1, 1),
        certificate(4, 0, 1, 0),
        certificate(4, 1, 1, 1),
        certificate(4, 1, 1, 0),
    ];
    let inputs = final_add_claim_from_final_check(&vec![row], &rows, 77).unwrap();
    assert_eq!(inputs.sig_id, M31(4));
    assert_eq!((inputs.b1, inputs.b2), (M31(0), M31(1)));
    assert_eq!(inputs.r1.y.0, g.y.0);
    assert_eq!(inputs.r2.x.0, two.x.0);
    assert_eq!(inputs.r2.y.0, sub_mod(&field_modulus(), &two.y, &field_modulus()).0);
    assert_eq!(inputs.hinted_source_offset, 77);
    assert!(!inputs.r1_inf && !inputs.r2_inf);

    // An inactive certificate counts as negative.
    let inactive = vec![certificate(4, 0, 0, 0)];
    let inputs = final_add_claim_from_final_check(&vec![row], &inactive, 0).unwrap();
    assert_eq!((inputs.b1, inputs.b2), (M31(1), M31(1)));

    // The sum of the reflections is the reflection of the sum.
    let (a, _) = signed_prepared(&row.h1, M31(1));
    let (b, _) = signed_prepared(&row.h2, M31(1));
    assert_eq!(point_add(&a, &b).output.x.0, point_add(&g, &two).output.x.0);

    assert_eq!(
        final_add_claim_from_final_check(&Vec::new(), &rows, 0).err(),
        Some(P256ProofError::FinalAdd(FinalAddError::MulTraceShape))
    );
}

#[test]
fn infinity_stays_infinity() {
    let (point, infinite) = negate_prepared(&PreparedAffinePoint::infinity());
    assert!(infinite);
    assert_eq!(point.x.0, U256::zero().0);
    let (point, infinite) = signed_prepared(&PreparedAffinePoint::infinity(), M31(0));
    assert!(infinite);
    assert_eq!(point.y.0, U256::zero().0);
    assert!(PreparedAffinePoint::infinity().to_option().is_none());
}

#[test]
fn negating_twice_gives_the_point_back() {
    let g = PreparedAffinePoint::from_affine(&generator_point());
    let (once, _) = negate_prepared(&g);
    assert_ne!(once.y.0, generator_point().y.0);
    let (twice, _) = negate_prepared(&PreparedAffinePoint::from_affine(&once));
    assert_eq!(twice.y.0, generator_point().y.0);
}

#[test]
fn key_slices_take_the_first_row() {
    let public =
        PublicEcdsaInputClaim::from_inputs(&[valid_real_input_with_small_u_scalars(7, 11)]);
    let check = PublicKeyOnCurveClaim::from_public_inputs(&public).unwrap();
    let slice = public_key_slice_from_check(&check, 9).unwrap();
    assert_eq!(slice.hinted_source_offset, 9);
    assert!(slice.row.rhs == check.rows[0].rhs);
    let claim = draft(7, 11).claim;
    let slice = public_key_on_curve_slice_claim(&claim).unwrap();
    assert_eq!(slice.hinted_source_offset, 11 + 13);
    let empty = PublicKeyOnCurveClaim { rows: Vec::new() };
    assert_eq!(
        public_key_slice_from_check(&empty, 9).err(),
        Some(P256ProofError::PublicKeyCurveSlice(
            PublicKeyCurveSliceError::UnsupportedRowCount { actual: 0 }
        ))
    );
}

#[test]
fn product_ids_are_distinct() {
    let setup = vec![
        ScalarSetupRow { s: scalar(1), u1: scalar(2), u2: scalar(3) },
        ScalarSetupRow { s: scalar(4), u1: scalar(5), u2: scalar(6) },
    ];
    let certificate = |sig: u32, cert: u32, active: u32| FakeGlvScalarRow {
        sig_id: M31(sig),
        cert_id: M31(cert),
        cert_active: M31(active),
        scalar: P256M31BigInt::from_u256(&scalar(9)),
        s2_abs: scalar(8),
        s2_sign_bit: M31(0),
    };
    let certificates =
        vec![certificate(0, 0, 0), certificate(0, 1, 1), certificate(1, 0, 1), certificate(1, 1, 1)];
    let merged = merged_scalar_mod_mul_rows(&setup, &certificates);
    let ids: Vec<u32> = merged.iter().map(|m| m.mul_id).collect();
    let base = FAKE_GLV_SCALAR_MUL_ID_BASE;
    assert_eq!(ids, vec![0, 1, 2, 3, base + 1, base + 2, base + 3]);
    assert_eq!(merged[3].rhs.0, scalar(6).0);
    assert_eq!(merged[4].lhs.0, scalar(9).0);
    assert_eq!(merged[4].rhs.0, scalar(8).0);
}

fn ledger() -> RelationLedger {
    let z = zero();
    let pair = ProviderConsumerClaim::zero();
    let one = ComponentInteractionClaim::zero();
    RelationLedger {
        public_inputs: pair,
        scalar_setup: ScalarSetupSums {
            output_provider_claimed_sum: z,
            scalar_limb_consumer_claimed_sum: z,
            range13_consumer_claimed_sum: z,
            range13_provider_claimed_sum: z,
            range9_consumer_claimed_sum: z,
            range9_provider_claimed_sum: z,
            signed_carry_consumer_claimed_sum: z,
            signed_carry_provider_claimed_sum: z,
            point_provider_claimed_sum: z,
        },
        cert_scalar_inputs: CertScalarInputSums {
            scalar_setup_consumer_claimed_sum: z,
            cert_provider_claimed_sum: z,
            cert_base_provider_claimed_sum: z,
        },
        fake_glv_scalar_air: FakeGlvScalarSums {
            cert_consumer_claimed_sum: z,
            scalar_provider_claimed_sum: z,
            scalar_mod_mul_provider_claimed_sum: z,
        },
        fake_glv_selector_air: one,
        scalar_setup_mod_muls: Vec::new(),
        fake_glv_scalar_mod_muls: Vec::new(),
        prepared_table_pinned: PinnedTableSums {
            total_claimed_sum: z,
            prepared_table_provider_claimed_sum: z,
            cert_base_consumer_claimed_sum: z,
            canonical_claimed_sum: z,
            final_check_hint_claimed_sum: z,
        },
        prepared_table_projective_source: pair,
        fake_glv_projective_source: pair,
        fake_glv_chain_expansion: P256CurrentAirInteractionClaim::zero().fake_glv_chain_expansion,
        fake_glv_chain_continuity: one,
        fake_glv_direct_prepared_operand: pair,
        fake_glv_signed_selector_operand: pair,
        fake_glv_lsb_correction_operand: pair,
        fake_glv_prepared_point_source: pair,
        prepared_point_range7_consumer: one,
        prepared_point_range7: RangeCheckInteractionClaim { claimed_sum: z },
        ecdsa_result_provider: one,
        final_check: FinalCheckSums {
            range13_consumer_claimed_sum: z,
            range9_consumer_claimed_sum: z,
            signed_carry_consumer_claimed_sum: z,
            result_consumer_claimed_sum: z,
            final_add_output_consumer_claimed_sum: z,
        },
        public_key_on_curve: one,
        projective_rcb_air: one,
        final_add: FinalAddSums {
            hint_consumer_claimed_sum: z,
            internal_claimed_sum: z,
            output_provider_claimed_sum: z,
        },
    }
}

#[test]
fn ledger_names_the_unbalanced_relation() {
    let mut book = ledger();
    assert_eq!(book.verify_balanced(), Ok(()));
    let audit = book.relation_audit();
    assert!(audit.is_balanced());
    assert_eq!(audit.relation_names().len(), 28);
    for required in
        ["EcdsaResult", "PublicKeyPoint", "FinalCheckHint", "FinalAddOutput", "CertBase"]
    {
        assert!(audit.relation_names().contains(&required));
    }
    // Nothing is linked in an empty ledger.
    assert_eq!(
        audit.dead_links(),
        vec!["EcdsaResult", "PublicKeyPoint", "CertBase", "FinalCheckHint", "FinalAddOutput"]
    );

    book.final_check.result_consumer_claimed_sum = felt(3);
    assert_eq!(
        book.verify_balanced(),
        Err(P256ProofError::RelationImbalance { relation: "EcdsaResult" })
    );
    book.ecdsa_result_provider.claimed_sum = felt(3).negated();
    assert_eq!(book.verify_balanced(), Ok(()));
    assert_eq!(book.relation_audit().dead_links().len(), 4);

    // The pinned total has to match its breakdown.
    book.prepared_table_pinned.total_claimed_sum = felt(2);
    book.prepared_table_projective_source.provider.claimed_sum = felt(2);
    assert_eq!(
        book.verify_balanced(),
        Err(P256ProofError::RelationImbalance { relation: "PreparedTablePinnedBreakdown" })
    );
    book.prepared_table_pinned.final_check_hint_claimed_sum = felt(2);
    book.final_add.hint_consumer_claimed_sum = felt(2).negated();
    assert_eq!(book.verify_balanced(), Ok(()));
}

#[test]
fn current_p256_monolithic_verifier_rejects_unbalanced_ecdsa_result_sum() {
    let mut book = ledger();
    book.ecdsa_result_provider.claimed_sum = SecureField::one();
    assert_eq!(
        book.verify_balanced(),
        Err(P256ProofError::RelationImbalance { relation: "EcdsaResult" })
    );
}

#[test]
fn current_p256_monolithic_verifier_rejects_unbalanced_range7_consumer_sum() {
    let mut book = ledger();
    book.prepared_point_range7_consumer.claimed_sum = SecureField::one();
    assert_eq!(
        book.verify_balanced(),
        Err(P256ProofError::RelationImbalance { relation: "Range7" })
    );
}

#[test]
fn current_p256_monolithic_verifier_rejects_unbalanced_scalar_consumer_sum() {
    let mut book = ledger();
    book.fake_glv_selector_air.claimed_sum = SecureField::one();
    assert_eq!(
        book.verify_balanced(),
        Err(P256ProofError::RelationImbalance { relation: "FakeGlvScalar" })
    );
}

#[test]
fn proof_current_p256_monolithic_verifier_rejects_unbalanced_public_key_point_sum() {
    let mut book = ledger();
    book.scalar_setup.point_provider_claimed_sum = SecureField::one();
    assert_eq!(
        book.verify_balanced(),
        Err(P256ProofError::RelationImbalance { relation: "PublicKeyPoint" })
    );
}

#[test]
fn proof_monolithic_rejects_mutated_public_r() {
    let relation = LookupRelation::dummy();
    let mut instances = draft(7, 11).claim.public_inputs.instances;
    let mut book = ledger();
    book.public_inputs.provider.claimed_sum =
        public_ecdsa_provider_claimed_sum(&instances, &relation).unwrap();
    book.public_inputs.consumer.claimed_sum = book.public_inputs.provider.claimed_sum.negated();
    assert_eq!(book.verify_balanced(), Ok(()));

    let mut limbs = *instances[0].r.limbs();
    limbs[0] = limbs[0].plus(M31(1));
    instances[0].r = P256M31BigInt::from_limbs(limbs);
    book.public_inputs.provider.claimed_sum =
        public_ecdsa_provider_claimed_sum(&instances, &relation).unwrap();
    assert!(matches!(
        book.verify_balanced(),
        Err(P256ProofError::RelationImbalance { relation: "EcdsaResult" | "PublicEcdsaInstance" })
    ));
}

#[test]
fn moduli_agree() {
    assert_eq!(field_modulus().0, U256::from_le_u64s(&P256_MODULUS).0);
}
