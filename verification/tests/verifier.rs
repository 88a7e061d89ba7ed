use stwo_p256::constants::{P256_GX, P256_GY, P256_ORDER};
use stwo_p256::curve::{mod_inverse, scalar_mul};
use stwo_p256::field_ops::{add_mod, mul_mod_witness};
use stwo_p256::fields::{SecureField, M31};
use stwo_p256::limbs::P256M31BigInt;
use stwo_p256::pipeline::air::{
    prove_current_air, ModuleState, P256ColumnTask, P256Prover, P256Verifier, StarkCommitments,
};
use stwo_p256::pipeline::claim::{ComponentClaim, ComponentClaims, P256CurrentAirProofClaim};
use stwo_p256::pipeline::columns::{
    append_unique_preprocessed_columns, append_unique_preprocessed_ids,
    select_preprocessed_columns,
};
use stwo_p256::pipeline::components::{
    bounds_agree, ComponentShape, P256CurrentAirComponents, ScalarModMulComponents,
};
use stwo_p256::pipeline::config::{
    p256_stark_monolithic_profile_config, p256_stark_slice_low_ram_config, twiddle_log_size,
    FriConfig, PcsConfig,
};
use stwo_p256::pipeline::draft::{
    Artifact, HintOutcome, P256ProofDraft, StageOutcome, BUILD_STAGES,
};
use stwo_p256::pipeline::error::{P256ProofError, ProjectiveEcError};
use stwo_p256::pipeline::interaction_claim::P256CurrentAirInteractionClaim;
use stwo_p256::pipeline::public_providers::{
    ecdsa_result_provider_claimed_sum, public_ecdsa_provider_claimed_sum,
    scalar_z_provider_claimed_sum, statements_reduced, PublicProviders,
};
use stwo_p256::pipeline::relations::{
    p256_gamma_max_padded_values, remaining_gamma_max_padded_values, LookupRelation,
    P256CurrentAirRelations,
};
use stwo_p256::pipeline::traces::{
    gen_current_air_base_trace, gen_current_air_interaction_trace, serve_tables, ColumnsOutcome,
    InteractionSums, TableUses, BASE_PARTS, INTERACTION_PARTS, PREPROCESSED_PARTS,
};
use stwo_p256::pipeline::verify::{
    check_config, check_statement, open_relations, replay_interaction, replay_relations, root_text,
    verify_current_air, verify_current_air_monolithic, verify_current_air_with_preprocessed_root,
    P256CurrentAirProof,
};
use stwo_p256::pipeline::wiring::wire_components;
use stwo_p256::range_checks::trace::{ColumnDomain, ColumnEval, SignedCarryRangeClaim};
use stwo_p256::range_checks::{batched_inverse_sum, encode_signed_carry, PreProcessedColumnId};
use stwo_p256::transcript::Transcript;
use stwo_p256::types::{field_modulus, AffinePoint, EcdsaVerifyInput, Signature, U256};

fn zero() -> SecureField {
    SecureField::zero()
}

fn felt(value: u32) -> SecureField {
    SecureField::from_base(M31(value))
}

fn scalar(value: u64) -> U256 {
    U256::from_le_u64s(&[value, 0, 0, 0])
}

fn add_u256(a: &U256, b: &U256) -> U256 {
    let a = a.to_le_u64s();
    let b = b.to_le_u64s();
    let mut out = [0u64; 4];
    let mut carry = 0u128;
    for i in 0..4 {
        let sum = a[i] as u128 + b[i] as u128 + carry;
        out[i] = sum as u64;
        carry = sum >> 64;
    }
    U256::from_le_u64s(&out)
}

fn bump_limb0(value: &P256M31BigInt) -> P256M31BigInt {
    let mut limbs = *value.limbs();
    limbs[0] = limbs[0].plus(M31(1));
    P256M31BigInt::from_limbs(limbs)
}

fn valid_real_input_with_small_u_scalars(u1: u64, u2: u64) -> EcdsaVerifyInput {
    let n = U256::from_le_u64s(&P256_ORDER);
    let public_key =
        AffinePoint { x: U256::from_le_u64s(&P256_GX), y: U256::from_le_u64s(&P256_GY) };
    let r_point = scalar_mul(&scalar(u1 + u2), &public_key).expect("nonzero R");
    let r = add_mod(&r_point.x, &U256::zero(), &n);
    let u2_inv = mod_inverse(&scalar(u2), &n);
    let s = mul_mod_witness(&r, &u2_inv, &n).result.to_u256();
    let message_hash = mul_mod_witness(&scalar(u1), &s, &n).result.to_u256();
    EcdsaVerifyInput { message_hash, signature: Signature { r, s }, public_key }
}

fn id(name: &str) -> PreProcessedColumnId {
    PreProcessedColumnId { id: name.to_string() }
}

fn ids(names: &[&str]) -> Vec<PreProcessedColumnId> {
    names.iter().map(|name| id(name)).collect()
}

fn component(word: u64, columns: &[&str]) -> ComponentClaim {
    ComponentClaim { words: vec![word], preprocessed_ids: ids(columns) }
}

fn component_claims() -> ComponentClaims {
    ComponentClaims {
        scalar_setup: component(1, &["a", "b"]),
        cert_scalar_inputs: component(2, &["never"]),
        fake_glv_scalar_air: component(3, &[]),
        fake_glv_selector_air: component(4, &[]),
        scalar_mod_muls: component(5, &["b", "c"]),
        prepared_table_projective_source: component(6, &["d"]),
        fake_glv_projective_source: component(7, &["d"]),
        fake_glv_chain_expansion: component(8, &[]),
        fake_glv_chain_continuity: component(9, &[]),
        fake_glv_chain_schedule: component(10, &["e"]),
        fake_glv_direct_prepared_operand: component(11, &[]),
        fake_glv_signed_selector_operand: component(12, &[]),
        fake_glv_lsb_correction_operand: component(13, &[]),
        fake_glv_prepared_point_source: component(14, &[]),
        final_check: component(15, &[]),
        public_key_on_curve: component(16, &["a"]),
        hinted_mul: component(17, &["f"]),
        final_add: component(18, &["p256_range7_value", "g"]),
    }
}

fn draft(u1: u64, u2: u64) -> P256ProofDraft {
    let stages: Vec<StageOutcome> = (0..BUILD_STAGES)
        .map(|i| Ok(Artifact { id: i as u64, rows: 5, active_rows: 3 }))
        .collect();
    let hints: Vec<HintOutcome> = Vec::new();
    P256ProofDraft::from_inputs_with_arbitrary_fake_glv_hints(
        vec![valid_real_input_with_small_u_scalars(u1, u2)],
        vec![Ok(Artifact { id: 0, rows: 1, active_rows: 1 }); 2],
        &hints,
        stages,
    )
    .expect("current pipeline builds")
}

fn proof_claim(draft: &P256ProofDraft) -> P256CurrentAirProofClaim {
    P256CurrentAirProofClaim::from_claim(&draft.claim, component_claims())
}

fn commitments() -> StarkCommitments {
    StarkCommitments {
        preprocessed_root: [1u8; 32],
        trace_root: [2u8; 32],
        interaction_root: [3u8; 32],
    }
}

/// A proof of the draft's statement whose components take back exactly what the
/// verifier provides on the relations of its transcript.
fn honest_proof(draft: &P256ProofDraft) -> P256CurrentAirProof {
    let mut proof = P256CurrentAirProof {
        claim: proof_claim(draft),
        interaction_claim: P256CurrentAirInteractionClaim::zero(),
        config: p256_stark_monolithic_profile_config(20),
        preprocessed_root: [1u8; 32],
        trace_root: [2u8; 32],
        interaction_root: [3u8; 32],
    };
    let (_, relations) = replay_relations(&proof, 64);
    let providers =
        PublicProviders::from_instances(&proof.claim.public_inputs.instances, &relations)
            .expect("no denominator is zero");
    proof.interaction_claim.scalar_setup.claimed_sum = providers.public_inputs.negated();
    proof.interaction_claim.final_check.claimed_sum = providers.ecdsa_result.negated();
    proof
}

fn verify_self_bound(proof: &P256CurrentAirProof) -> Result<(), P256ProofError> {
    let expected = proof.claim.public_inputs.instances.clone();
    verify_current_air_monolithic(proof, &expected, 20, 64, Ok(())).expect("no pole is met")
}

#[test]
fn honest_proofs_pass_every_gate() {
    let proof = honest_proof(&draft(7, 11));
    verify_self_bound(&proof).expect("honest proof verifies");
    let expected = proof.claim.public_inputs.instances.clone();
    assert_eq!(
        verify_current_air_monolithic(
            &proof,
            &expected,
            20,
            64,
            Err("low degree test".to_string()),
        ),
        Some(Err(P256ProofError::ProofLayer("low degree test".to_string())))
    );
}

#[test]
fn zero_sums_prove_no_statement() {
    // A claim of zeros does not balance what the statements provide.
    let mut proof = honest_proof(&draft(7, 11));
    proof.interaction_claim = P256CurrentAirInteractionClaim::zero();
    assert_eq!(
        verify_self_bound(&proof),
        Err(P256ProofError::RelationImbalance { relation: "LookupSum" })
    );
    let expected = proof.claim.public_inputs.instances.clone();
    assert_eq!(
        verify_current_air(&proof, &expected, 20, 64, "unbalanced".to_string(), Ok(())),
        Some(Err(P256ProofError::ProofLayer("unbalanced".to_string())))
    );
    // Without statements there is nothing to balance.
    proof.claim.public_inputs.instances.clear();
    assert_eq!(verify_current_air_monolithic(&proof, &[], 20, 64, Ok(())), Some(Ok(())));
}

#[test]
fn tests_monolithic_rejects_mutated_public_r() {
    let mut draft = draft(7, 11);
    let honest = honest_proof(&draft);
    verify_self_bound(&honest).expect("honest draft balances");
    let r = bump_limb0(&draft.claim.public_inputs.instances[0].r);
    draft.claim.public_inputs.instances[0].r = r;
    let mut mutated = honest;
    mutated.claim = proof_claim(&draft);
    let err = verify_self_bound(&mutated).expect_err("mutated public r must reject");
    assert!(
        matches!(err, P256ProofError::RelationImbalance { relation: "LookupSum" }),
        "expected LookupSum imbalance, got {err:?}"
    );
}

#[test]
fn current_p256_monolithic_verifier_rejects_unbound_public_key() {
    let mut monolithic = honest_proof(&draft(7, 11));
    let pub_x = &mut monolithic.claim.public_inputs.instances[0].pub_x;
    pub_x.limbs_mut()[0] = M31::from_u32_unchecked(pub_x.limbs()[0].0 ^ 1);

    let err = verify_self_bound(&monolithic)
        .expect_err("presented public key unbound from the committed trace must reject");
    assert!(
        matches!(err, P256ProofError::RelationImbalance { .. }),
        "expected a public-input binding imbalance, got {err:?}"
    );
}

#[test]
fn current_p256_monolithic_verifier_rejects_mismatched_expected_instances() {
    let monolithic = honest_proof(&draft(7, 11));

    let mut wrong_expected = monolithic.claim.public_inputs.instances.clone();
    let r = &mut wrong_expected[0].r;
    r.limbs_mut()[0] = M31::from_u32_unchecked(r.limbs()[0].0 ^ 1);
    let err = verify_current_air_monolithic(&monolithic, &wrong_expected, 20, 64, Ok(()))
        .expect("no pole is met")
        .expect_err("proof of a different statement than the caller expected must reject");
    assert!(
        matches!(err, P256ProofError::PublicInstanceMismatch),
        "expected PublicInstanceMismatch, got {err:?}"
    );
    assert_eq!(
        check_statement(&monolithic.claim.public_inputs.instances, &[]),
        Err(P256ProofError::PublicInstanceMismatch)
    );

    let correct_expected = monolithic.claim.public_inputs.instances.clone();
    verify_current_air_monolithic(&monolithic, &correct_expected, 20, 64, Ok(()))
        .expect("no pole is met")
        .expect("proof of exactly the caller's expected statement must verify");
}

#[test]
fn current_p256_monolithic_verifier_rejects_weakened_pcs_config() {
    let mut monolithic = honest_proof(&draft(7, 11));
    monolithic.config.pow_bits = 0;
    monolithic.config.fri_config.n_queries = 1;

    let err = verify_self_bound(&monolithic)
        .expect_err("weakened prover-supplied PCS config must reject");
    assert!(
        matches!(err, P256ProofError::ProofLayer(ref message) if message.contains("pinned")),
        "expected pinned-config rejection, got {err:?}"
    );
}

#[test]
fn current_p256_monolithic_verifier_rejects_non_canonical_public_key() {
    let monolithic = honest_proof(&draft(7, 11));

    // pub_x := p (>= p, the non-canonical representative of 0).
    let mut forged = monolithic.clone();
    forged.claim.public_inputs.instances[0].pub_x = P256M31BigInt::from_u256(&field_modulus());
    let err = verify_self_bound(&forged).expect_err("pub_x = p must reject");
    assert_eq!(err, P256ProofError::NonCanonicalPublicKey { index: 0, field: "pub_x" });

    // pub_y := p + 41 (a non-canonical representative of 41; p + 41 < 2^256).
    let mut forged = monolithic.clone();
    forged.claim.public_inputs.instances[0].pub_y = P256M31BigInt::from_u256(&add_u256(
        &field_modulus(),
        &U256::from_le_u64s(&[41, 0, 0, 0]),
    ));
    let err = verify_self_bound(&forged).expect_err("pub_y = p + 41 must reject");
    assert_eq!(err, P256ProofError::NonCanonicalPublicKey { index: 0, field: "pub_y" });

    // A limb above the 13-bit base.
    let mut forged = monolithic;
    forged.claim.public_inputs.instances[0].pub_x.limbs_mut()[0] = M31::from_u32_unchecked(1 << 13);
    let err = verify_self_bound(&forged).expect_err("out-of-range pub_x limb must reject");
    assert_eq!(err, P256ProofError::NonCanonicalPublicKey { index: 0, field: "pub_x" });
}

fn check_unbalanced_component_sum() {
    let mut monolithic = honest_proof(&draft(7, 11));
    monolithic.interaction_claim.scalar_setup.claimed_sum =
        monolithic.interaction_claim.scalar_setup.claimed_sum.plus(SecureField::one());

    let err = verify_self_bound(&monolithic)
        .expect_err("aggregate lookup balance must reject a mutated component sum");

    assert!(matches!(err, P256ProofError::RelationImbalance { relation: "LookupSum" }));
}

#[test]
fn tests_current_p256_monolithic_verifier_rejects_unbalanced_public_key_point_sum() {
    check_unbalanced_component_sum();
}

#[test]
fn tests_current_p256_monolithic_verifier_rejects_mutated_public_r() {
    let mut monolithic = honest_proof(&draft(7, 11));
    monolithic.claim.public_inputs.instances[0].r = P256M31BigInt::zero();

    let err = verify_self_bound(&monolithic).expect_err("mutated verifier public r must reject");
    assert!(
        matches!(err, P256ProofError::RelationImbalance { .. }),
        "expected a public-input binding imbalance, got {err:?}"
    );
}

#[test]
fn tests_current_p256_monolithic_proof_rejects_mutated_public_input_binding() {
    let mut proof = draft(7, 11);
    let honest = honest_proof(&proof);
    proof.claim.public_inputs.instances[0].r = P256M31BigInt::zero();
    let mut mutated = honest;
    mutated.claim = proof_claim(&proof);

    let err = proof
        .prove_current_air_monolithic(
            component_claims(),
            mutated.interaction_claim,
            20,
            64,
            &commitments(),
            Ok(()),
        )
        .expect("no pole is met")
        .expect_err("public tuple mismatch must reject before proving");

    assert_eq!(err, P256ProofError::RelationImbalance { relation: "LookupSum" });
}

#[test]
fn current_p256_monolithic_verifier_rejects_unbalanced_prepared_point_source_sum() {
    let mut monolithic = honest_proof(&draft(7, 11));
    let source = &mut monolithic.interaction_claim.fake_glv_prepared_point_source;
    source.provider.claimed_sum = source.provider.claimed_sum.plus(SecureField::one());

    let err = verify_self_bound(&monolithic)
        .expect_err("LookupSum must reject mutated prepared-point source sum");

    assert!(matches!(err, P256ProofError::RelationImbalance { relation: "LookupSum" }));
}

#[test]
fn current_p256_monolithic_verifier_rejects_mutated_selector_claimed_sum() {
    let mut monolithic = honest_proof(&draft(7, 11));
    let selector = &mut monolithic.interaction_claim.fake_glv_selector_air;
    selector.claimed_sum = selector.claimed_sum.plus(SecureField::one());

    let err = verify_self_bound(&monolithic)
        .expect_err("aggregate lookup sum must reject mutated component sum");

    assert!(matches!(err, P256ProofError::RelationImbalance { relation: "LookupSum" }));
}

/// One over the denominator of a hint point on the relation that forwards it.
fn hint_term(
    relation: &LookupRelation,
    sig_id: M31,
    x: &P256M31BigInt,
    y: &P256M31BigInt,
) -> SecureField {
    let mut tuple = vec![sig_id];
    tuple.extend_from_slice(x.limbs());
    tuple.extend_from_slice(y.limbs());
    batched_inverse_sum(&vec![relation.combine(&tuple)])
}

#[test]
fn tests_monolithic_rejects_mutated_consumed_hint() {
    let mut proof = honest_proof(&draft(7, 11));
    let (_, relations) = replay_relations(&proof, 64);
    let g = AffinePoint { x: U256::from_le_u64s(&P256_GX), y: U256::from_le_u64s(&P256_GY) };
    let h1 = scalar_mul(&scalar(7), &g).unwrap();
    let x = P256M31BigInt::from_u256(&h1.x);
    let y = P256M31BigInt::from_u256(&h1.y);
    // The prepared table forwards the hint point, the final addition consumes it.
    let forwarded = hint_term(&relations.final_check_hint, M31(0), &x, &y);
    proof.interaction_claim.prepared_table_projective_source.provider.claimed_sum =
        forwarded.negated();
    proof.interaction_claim.final_add.claimed_sum = forwarded;
    verify_self_bound(&proof).expect("honest draft balances");

    proof.interaction_claim.final_add.claimed_sum =
        hint_term(&relations.final_add.hint, M31(0), &bump_limb0(&x), &y);
    let err = verify_self_bound(&proof).expect_err("mutated R_1 must reject");
    assert!(
        matches!(err, P256ProofError::RelationImbalance { relation: "LookupSum" }),
        "expected LookupSum imbalance, got {err:?}"
    );
}

#[test]
fn roots_are_pinned_before_anything_else() {
    let proof = honest_proof(&draft(7, 11));
    let expected = proof.claim.public_inputs.instances.clone();
    let unbalanced = || "unbalanced".to_string();
    assert_eq!(
        verify_current_air_with_preprocessed_root(
            &proof,
            &expected,
            Some([1u8; 32]),
            20,
            64,
            unbalanced(),
            Ok(()),
        ),
        Some(Ok(()))
    );
    let mut other = [1u8; 32];
    other[31] = 0;
    assert_eq!(
        verify_current_air_with_preprocessed_root(
            &proof,
            &expected,
            Some(other),
            20,
            64,
            unbalanced(),
            Err("later".to_string()),
        ),
        Some(Err(P256ProofError::PreprocessedRootMismatch {
            got: "01".repeat(32),
            expected: format!("{}00", "01".repeat(31)),
        }))
    );
    assert_eq!(verify_current_air(&proof, &expected, 20, 64, unbalanced(), Ok(())), Some(Ok(())));
    assert_eq!(
        verify_current_air(&proof, &expected, 20, 64, unbalanced(), Err("no".to_string())),
        Some(Err(P256ProofError::ProofLayer("no".to_string())))
    );
}

#[test]
fn roots_read_as_the_debug_form_of_a_hash() {
    let mut root = [0u8; 32];
    for (i, byte) in root.iter_mut().enumerate() {
        *byte = (37 * i + 9) as u8;
    }
    let hash = stwo::core::vcs::blake2_hash::Blake2sHash(root);
    assert_eq!(root_text(&root), format!("{hash:?}"));
    assert_eq!(&root_text(&root)[..8], "092e5378");
}

#[test]
fn config_has_its_pinned_values() {
    let config = p256_stark_monolithic_profile_config(17);
    assert_eq!(
        config,
        PcsConfig {
            pow_bits: 20,
            fri_config: FriConfig {
                log_blowup_factor: 2,
                log_last_layer_degree_bound: 5,
                n_queries: 38,
                fold_step: 1,
            },
            lifting_log_size: None,
        }
    );
    assert_eq!(check_config(&config, 17), Ok(()));
    assert_eq!(twiddle_log_size(&config, 17), 19);
    let low = p256_stark_slice_low_ram_config(3);
    assert_eq!(low.lifting_log_size, Some(10));
    assert_eq!(low.fri_config.n_queries, 64);
    assert_eq!(p256_stark_slice_low_ram_config(9).lifting_log_size, Some(13));
    assert_eq!(twiddle_log_size(&low, 3), 10);
    // The message reads like the debug form of the parameters.
    let expected = format!(
        "proof PCS config {:?} does not match the pinned verifier config {:?}",
        low, config
    );
    assert_eq!(check_config(&low, 17), Err(P256ProofError::ProofLayer(expected)));
}

#[test]
fn relations_share_instances() {
    let mut channel = Transcript::new();
    let r = P256CurrentAirRelations::draw(&mut channel, 100);
    assert_eq!(r.final_add.mul_result, r.projective_rcb_air.mul_result);
    assert_eq!(r.public_key_on_curve.mul_result, r.projective_rcb_air.mul_result);
    assert_eq!(r.final_add.hint, r.final_check_hint);
    assert_eq!(r.final_add.sign, r.final_add_sign);
    assert_eq!(r.scalar_setup.public_key_point, r.public_key_on_curve.point);
    assert_eq!(r.public_key_on_curve.gamma_challenge, r.final_add.gamma_challenge);
    assert_ne!(r.public_inputs, r.ecdsa_result);
    assert_ne!(r.ec_op_header.z, r.hinted_signed_formula.z);
    assert_eq!(channel.blocks, 38);
    let d = P256CurrentAirRelations::dummy(9);
    assert_eq!(d.public_inputs, LookupRelation::dummy());
    assert_eq!(d.hinted_challenge.z, felt(2));
    assert_eq!(d.final_add.gamma_challenge.max_values, 9);
    assert_eq!(p256_gamma_max_padded_values(3, 8), 8);
    assert_eq!(remaining_gamma_max_padded_values(9, 8), 9);
}

#[test]
fn combination_matches_the_lookup_elements() {
    let relation = LookupRelation::dummy();
    let values = vec![M31(123), M31(456), M31(789)];
    let theirs = stwo_constraint_framework::logup::LookupElements::<3>::dummy();
    let cells: Vec<stwo::core::fields::m31::M31> = values
        .iter()
        .map(|v| stwo::core::fields::m31::M31::from_u32_unchecked(v.0))
        .collect();
    let expected: stwo::core::fields::qm31::QM31 = theirs.combine(&cells);
    let ours = relation.combine(&values);
    assert_eq!(
        [ours.c0.0, ours.c1.0, ours.c2.0, ours.c3.0],
        expected.to_m31_array().map(|m| m.0)
    );
}

#[test]
fn providers_follow_the_statements() {
    let claim = draft(7, 11).claim;
    let relation = LookupRelation::dummy();
    let mut instances = claim.public_inputs.instances.clone();
    assert!(statements_reduced(&instances));
    let full = public_ecdsa_provider_claimed_sum(&instances, &relation).unwrap();
    let result = ecdsa_result_provider_claimed_sum(&instances, &relation).unwrap();
    let z = scalar_z_provider_claimed_sum(&instances, &relation).unwrap();
    let mut tuple = vec![instances[0].sig_id];
    tuple.extend_from_slice(instances[0].r.limbs());
    assert_eq!(result, batched_inverse_sum(&vec![relation.combine(&tuple)]).negated());
    instances[0].pub_y = bump_limb0(&instances[0].pub_y);
    assert_ne!(public_ecdsa_provider_claimed_sum(&instances, &relation).unwrap(), full);
    assert_eq!(ecdsa_result_provider_claimed_sum(&instances, &relation).unwrap(), result);
    assert_eq!(scalar_z_provider_claimed_sum(&instances, &relation).unwrap(), z);
    instances[0].z = bump_limb0(&instances[0].z);
    assert_ne!(scalar_z_provider_claimed_sum(&instances, &relation).unwrap(), z);
    instances[0].z.limbs_mut()[0] = M31(2_147_483_647);
    assert!(!statements_reduced(&instances));
}

#[test]
fn replayed_transcripts_follow_the_commitments() {
    let proof = honest_proof(&draft(7, 11));
    let (mut channel, relations) = replay_relations(&proof, 64);
    let (again, same) = replay_relations(&proof, 64);
    assert_eq!(channel.digest, again.digest);
    assert_eq!(relations, same);
    let mut other = proof.clone();
    other.trace_root = [9u8; 32];
    let (_, different) = replay_relations(&other, 64);
    assert_ne!(relations.public_inputs, different.public_inputs);
    replay_interaction(&proof, &mut channel);
    assert_ne!(channel.digest, again.digest);
    assert_eq!(channel.blocks, 0);
}

#[test]
fn columns_are_kept_once() {
    let mut list = ids(&["a", "b"]);
    append_unique_preprocessed_ids(&mut list, &ids(&["b", "c", "a", "c", "d"]));
    assert_eq!(list, ids(&["a", "b", "c", "d"]));
    append_unique_preprocessed_ids(&mut list, &ids(&["d", "c"]));
    assert_eq!(list, ids(&["a", "b", "c", "d"]));

    let mut names = ids(&["a"]);
    let mut columns = vec![column(1)];
    append_unique_preprocessed_columns(
        &mut names,
        &mut columns,
        &ids(&["a", "b", "b"]),
        &vec![column(2), column(3), column(4)],
    );
    assert_eq!(names, ids(&["a", "b"]));
    // A name without a column, and a column without a name, are passed over.
    let mut short = names.clone();
    let mut kept = columns.clone();
    append_unique_preprocessed_columns(&mut short, &mut kept, &ids(&["c", "d"]), &vec![column(5)]);
    append_unique_preprocessed_columns(&mut short, &mut kept, &ids(&[]), &vec![column(6)]);
    assert_eq!(short, ids(&["a", "b", "c"]));
    assert_eq!(kept.len(), 3);
    assert_eq!(columns[0].values[0], M31(1));
    assert_eq!(columns[1].values[0], M31(3));
    let selected = select_preprocessed_columns(&names, &columns, &ids(&["b", "a", "b"]));
    let cells: Vec<u32> = selected.iter().map(|c| c.values[0].0).collect();
    assert_eq!(cells, vec![3, 1, 3]);
}

#[test]
fn claims_list_their_columns_and_offsets() {
    let claim = proof_claim(&draft(7, 11));
    let list = claim.preprocessed_column_ids();
    let names: Vec<&str> = list.iter().map(|c| c.id.as_str()).collect();
    assert_eq!(names, vec!["a", "b", "c", "d", "e", "p256_range7_value", "f", "g"]);
    assert_eq!(claim.fake_glv_projective_source.source_offset, 3);
    assert_eq!(claim.fake_glv_chain_expansion.source_offset, 3);
    assert_eq!(claim.prepared_point_range7.log_size, 7);

    let mut a = Transcript::new();
    let mut b = Transcript::new();
    claim.mix_into(&mut a);
    let mut other = proof_claim(&draft(7, 11));
    other.final_add.words[0] = 19;
    other.mix_into(&mut b);
    assert_ne!(a.digest, b.digest);
    // The words are absorbed one after the other.
    let mut words = claim.public_inputs.words();
    words.extend([1, 2, 3, 4, 5, 6, 7, 3, 8, 3, 9, 10, 11, 12, 13, 14, 7, 15, 16, 17, 18]);
    let mut c = Transcript::new();
    c.mix_words(&words);
    assert_eq!(a.digest, c.digest);
}

fn shape(indices: &[usize], sizes: &[u32], trace: &[u32], interaction: &[u32]) -> ComponentShape {
    ComponentShape {
        preprocessed_column_indices: indices.to_vec(),
        preprocessed: sizes.to_vec(),
        trace: trace.to_vec(),
        interaction: interaction.to_vec(),
        max_constraint_log_degree_bound: *trace.first().unwrap_or(&0) + 1,
    }
}

fn empty() -> ComponentShape {
    shape(&[], &[], &[], &[])
}

fn components() -> P256CurrentAirComponents<ComponentShape> {
    P256CurrentAirComponents {
        scalar_setup: vec![shape(&[0, 1], &[5, 6], &[5], &[5, 5])],
        cert_scalar_inputs: vec![shape(&[], &[], &[4], &[])],
        fake_glv_scalar_air: Vec::new(),
        fake_glv_selector_air: Vec::new(),
        scalar_mod_muls: ScalarModMulComponents {
            canonical: shape(&[1, 2], &[6, 7], &[13], &[13]),
            ab_chunks: empty(),
            qn_chunks: empty(),
            accumulators: empty(),
            reduction_digits: empty(),
            range13: empty(),
            signed_carry: empty(),
        },
        prepared_table_projective_source: Vec::new(),
        fake_glv_projective_source: Vec::new(),
        fake_glv_chain_expansion: Vec::new(),
        fake_glv_chain_continuity: empty(),
        fake_glv_chain_schedule: empty(),
        fake_glv_direct_prepared_operand: Vec::new(),
        fake_glv_signed_selector_operand: Vec::new(),
        fake_glv_lsb_correction_operand: Vec::new(),
        fake_glv_prepared_point_source: Vec::new(),
        prepared_point_range7: shape(&[3, 4, 5, 6, 7], &[7, 1, 1, 1, 1], &[7], &[7]),
        final_check: Vec::new(),
        public_key_on_curve: Vec::new(),
        hinted_mul: vec![shape(&[0], &[5], &[3], &[])],
        final_add: Vec::new(),
    }
}

#[test]
fn sizes_merge_over_components() {
    let all = components();
    let list = all.components();
    assert_eq!(list.len(), 2 + 7 + 2 + 1 + 1);
    let layout = all.trace_log_degree_bounds(8);
    assert_eq!(layout.preprocessed, vec![5, 6, 7, 7, 1, 1, 1, 1]);
    assert_eq!(layout.trace, vec![5, 4, 13, 7, 3]);
    assert_eq!(layout.interaction, vec![5, 5, 13, 7]);
    assert_eq!(all.max_constraint_log_degree_bound(), 14);
    let provers = all.component_provers();
    assert_eq!(provers.len(), list.len());
    for (prover, component) in provers.iter().zip(list.iter()) {
        assert!(std::ptr::eq(*prover, *component));
    }
    assert!(bounds_agree(&list, 8));
    // A column without a reader, and one that is out of range.
    assert!(!bounds_agree(&list, 9));
    assert!(!bounds_agree(&list, 7));
    // Two readers that disagree.
    let mut conflict = components();
    conflict.hinted_mul = vec![shape(&[0], &[6], &[3], &[])];
    assert!(!bounds_agree(&conflict.components(), 8));
}

#[test]
fn wired_sums_are_the_balance() {
    let mut interaction = P256CurrentAirInteractionClaim::zero();
    interaction.scalar_setup.claimed_sum = felt(1);
    interaction.scalar_mod_muls.range13.claimed_sum = felt(2);
    interaction.fake_glv_projective_source.consumer.claimed_sum = felt(3);
    interaction.hinted_mul.signed_formula = felt(4);
    interaction.final_add.claimed_sum = felt(5);
    interaction.prepared_table_pinned.claimed_sum = felt(77);
    let relations = P256CurrentAirRelations::dummy(4);
    let claim = proof_claim(&draft(7, 11));
    let plan = wire_components(&claim, &interaction, &relations);
    assert_eq!(plan.len(), 19);
    let mut total = zero();
    for part in &plan {
        for sum in &part.claimed_sums {
            total = total.plus(*sum);
        }
    }
    assert_eq!(total, felt(15));
    // Without statements the parts make up the balance; statements provide theirs.
    let none = Vec::new();
    assert_eq!(interaction.lookup_sum(&none, &relations), Some(felt(15)));
    let stated = &claim.public_inputs.instances;
    let providers = PublicProviders::from_instances(stated, &relations).unwrap();
    assert_eq!(
        interaction.lookup_sum(stated, &relations),
        Some(felt(15).plus(providers.public_inputs).plus(providers.ecdsa_result))
    );
    assert_eq!(plan[0].part, "scalar_setup");
    assert_eq!(plan[0].claim_words, vec![1]);
    // The ladder's rows are numbered past the three active rows of the table.
    assert_eq!(plan[6].claim_words, vec![7, 3]);
    assert_eq!(plan[14].claim_words, vec![7]);
    assert_eq!(plan[9].part, "fake_glv_chain_schedule");
    assert_eq!(plan[9].claimed_sums, vec![zero()]);
    assert_eq!(plan[18].relations.len(), 7);
    assert_eq!(plan[17].hinted_challenge, Some(relations.hinted_challenge));
    assert_eq!(plan[18].gamma_challenge, Some(relations.final_add.gamma_challenge));
    assert_eq!(plan[16].gamma_challenge, plan[18].gamma_challenge);
    assert!(plan[15].gamma_challenge.is_none() && plan[18].hinted_challenge.is_none());
    assert_eq!(
        interaction.verify_balanced(&none, &relations),
        Some(Err(P256ProofError::RelationImbalance { relation: "LookupSum" }))
    );
    let mut balanced = interaction;
    balanced.final_check.claimed_sum = felt(15).negated();
    assert_eq!(balanced.verify_balanced(&none, &relations), Some(Ok(())));
    assert_eq!(
        interaction.relation_balances(&none, &relations),
        Some(vec![("LookupSum", felt(15))])
    );
    let audit = interaction.relation_audit(&none, &relations).unwrap();
    assert_eq!(audit.relation_names(), vec!["LookupSum"]);
    assert_eq!(audit.imbalanced(), vec!["LookupSum"]);
    assert_eq!(audit.liveness.len(), 20);
    assert!(!audit.dead_links().contains(&"HintedMul"));
    assert!(audit.dead_links().contains(&"FinalCheck"));
    assert!(!audit.dead_links().contains(&"PreparedTablePinned"));
}

#[test]
fn sizing_claims_are_zero() {
    let claim = proof_claim(&draft(7, 11));
    let sizing = P256CurrentAirInteractionClaim::zero_for_claim(&claim);
    assert_eq!(sizing, P256CurrentAirInteractionClaim::zero());
    let relations = P256CurrentAirRelations::dummy(4);
    assert_eq!(sizing.lookup_sum(&Vec::new(), &relations), Some(zero()));
}

#[test]
fn claimed_sums_enter_the_transcript_but_for_the_pinned_breakdown() {
    let base = P256CurrentAirInteractionClaim::zero();
    let digest = |claim: &P256CurrentAirInteractionClaim| {
        let mut channel = Transcript::new();
        claim.mix_into(&mut channel);
        channel.digest
    };
    let start = digest(&base);
    let mut changed = base;
    changed.fake_glv_chain_expansion.primitive_claimed_sum = felt(1);
    assert_ne!(digest(&changed), start);
    let mut changed = base;
    changed.hinted_mul.gamma_signed = felt(1);
    assert_ne!(digest(&changed), start);
    let mut changed = base;
    changed.prepared_table_pinned.claimed_sum = felt(1);
    assert_eq!(digest(&changed), start);
}

fn column(v: u32) -> ColumnEval {
    ColumnEval { domain: ColumnDomain { log_size: 1 }, values: vec![M31(v), M31(v)] }
}

fn table_uses() -> TableUses {
    TableUses {
        use_counts: vec![M31(0), M31(65), M31(0), M31(3)],
        range13: vec![M31(8191), M31(1)],
        signed_h: vec![-1, 1],
        signed_h_table: SignedCarryRangeClaim::new(2, 1, "h"),
        signed_formula: vec![2, 0, -2],
        signed_formula_table: SignedCarryRangeClaim::new(3, 2, "formula"),
    }
}

fn base_parts() -> Vec<ColumnsOutcome> {
    (0..BASE_PARTS).map(|i| Ok(vec![column(i as u32)])).collect()
}

#[test]
fn base_columns_are_committed_in_order() {
    let base = gen_current_air_base_trace(base_parts(), table_uses()).unwrap();
    assert_eq!(base.columns.len(), 32);
    let sizes: Vec<u32> = base.columns.iter().map(|c| c.domain.log_size).collect();
    assert_eq!(sizes[22], 7);
    assert_eq!(&sizes[28..31], &[13, 2, 3]);
    let cells: Vec<u32> = base.columns.iter().map(|c| c.values[0].0).collect();
    assert_eq!(&cells[..5], &[0, 3, 4, 5, 6]);
    assert_eq!(&cells[20..22], &[22, 23]);
    assert_eq!(&cells[23..28], &[1, 2, 24, 25, 26]);
    assert_eq!(cells[31], 27);
    // Unused prepared points do not count.
    let total: u32 = base.prepared_point_range7_multiplicity.values.iter().map(|v| v.0).sum();
    assert_eq!(total, 2);

    let failure = P256ProofError::from(ProjectiveEcError::Check { code: 2 });
    let mut parts = base_parts();
    parts[9] = Err(failure.clone());
    assert_eq!(gen_current_air_base_trace(parts, table_uses()).err(), Some(failure));
}

fn interaction_sums() -> InteractionSums {
    InteractionSums {
        scalar_setup: felt(1),
        cert_scalar_inputs: felt(2),
        fake_glv_scalar_air: felt(3),
        fake_glv_selector_air: felt(4),
        scalar_mod_mul: felt(5),
        scalar_mod_mul_range13: felt(6),
        scalar_mod_mul_signed_carry: felt(7),
        prepared_table_pinned: felt(8),
        final_check_hint: felt(9),
        prepared_consumer_ec_row: felt(10),
        prepared_consumer_mul_result: felt(20),
        prepared_consumer_header_yield: felt(30),
        fake_glv_provider: felt(11),
        fake_glv_consumer_ec_row: felt(100),
        fake_glv_consumer_mul_result: felt(200),
        fake_glv_consumer_header_yield: felt(300),
        expansion_provider: felt(12),
        expansion_consumer: felt(13),
        continuity: felt(14),
        direct_provider: felt(15),
        direct_consumer: felt(16),
        signed_provider: felt(17),
        signed_consumer: felt(18),
        lsb_provider: felt(19),
        lsb_consumer: felt(21),
        prepared_point_provider: felt(22),
        prepared_point_range7_consumer: felt(23),
        prepared_point_consumer: felt(24),
        final_check: felt(25),
        public_key_on_curve: felt(26),
        hinted_mul: felt(27),
        hinted_gamma_range13: felt(28),
        hinted_gamma_signed: felt(29),
        final_add: felt(31),
    }
}

#[test]
fn interaction_claims_are_assembled() {
    let base = gen_current_air_base_trace(base_parts(), table_uses()).unwrap();
    let mut channel = Transcript::new();
    let relations = P256CurrentAirRelations::draw(&mut channel, 8);
    let parts: Vec<ColumnsOutcome> =
        (0..INTERACTION_PARTS).map(|i| Ok(vec![column(i as u32); 2])).collect();
    let (columns, claim) =
        gen_current_air_interaction_trace(&base, &relations, parts, &interaction_sums()).unwrap();
    // Two columns per part, and four for each of the four tables.
    assert_eq!(columns.len(), 2 * 26 + 4 * 4);
    let sizes: Vec<u32> = columns.iter().map(|c| c.domain.log_size).collect();
    assert_eq!(&sizes[38..46], &[1, 1, 7, 7, 7, 7, 1, 1]);
    assert_eq!(&sizes[52..68], &[1, 1, 13, 13, 13, 13, 2, 2, 2, 2, 3, 3, 3, 3, 1, 1]);
    assert_eq!(columns[44].values[0], M31(20));
    assert_eq!(columns[67].values[0], M31(25));
    assert_eq!(claim.prepared_table_projective_source.consumer.claimed_sum, felt(60));
    assert_eq!(claim.fake_glv_projective_source.consumer.claimed_sum, felt(600));
    assert_eq!(claim.fake_glv_prepared_point_source.provider.claimed_sum, felt(45));
    assert_eq!(claim.prepared_table_pinned.final_check_hint.claimed_sum, felt(9));
    assert_eq!(claim.hinted_mul.gamma_signed, felt(29));

    // Each table claims the opposite of what its users take.
    let (table_columns, tables) = serve_tables(&base, &relations);
    assert_eq!(table_columns.range7[2].values, columns[42].values);
    assert_eq!(table_columns.signed_formula[0].values, columns[62].values);
    assert_eq!(claim.prepared_point_range7.claimed_sum, tables.range7);
    let used: Vec<SecureField> =
        [65u32, 3].iter().map(|v| relations.range7.combine(M31(*v))).collect();
    assert_eq!(tables.range7.plus(batched_inverse_sum(&used)), zero());
    let carries: Vec<SecureField> = [2i64, 0, -2]
        .iter()
        .map(|c| relations.hinted_signed_formula.combine(encode_signed_carry(*c)))
        .collect();
    assert_eq!(tables.signed_formula.plus(batched_inverse_sum(&carries)), zero());
}

fn preprocessed_parts() -> Vec<ColumnsOutcome> {
    let counts = [2usize, 2, 1, 1, 0, 0, 1, 0, 0, 0, 0, 1, 1, 2];
    assert_eq!(counts.len(), PREPROCESSED_PARTS);
    counts
        .iter()
        .enumerate()
        .map(|(i, n)| Ok((0..*n).map(|k| column(10 * i as u32 + k as u32)).collect()))
        .collect()
}

fn task() -> P256ColumnTask {
    P256ColumnTask::new(
        proof_claim(&draft(7, 11)),
        components(),
        preprocessed_parts(),
        base_parts(),
        table_uses(),
    )
}

#[test]
fn provers_hand_out_their_columns() {
    let mut prover = P256Prover::new(task()).unwrap();
    assert_eq!(prover.max_constraint_log_degree_bound(), 14);
    assert!(prover.store_polynomial_coefficients());
    assert_eq!(prover.pcs_config(), p256_stark_monolithic_profile_config(14));
    assert_eq!(prover.proof_claim().fake_glv_chain_expansion.source_offset, 3);
    let layout = prover.state.layout(&components());
    assert_eq!(layout.preprocessed.len(), 8);

    assert_eq!(prover.max_log_size(), 14);
    let mut whole = prover.clone();
    let all: Vec<u32> = whole.write_preprocessed().iter().map(|c| c.values[0].0).collect();
    assert_eq!(all.len(), 8);
    assert_eq!(&all[..5], &[0, 1, 11, 20, 60]);
    assert_eq!(&all[6..], &[120, 131]);
    assert!(whole.preprocessed.is_none());

    // "b" is the second column of the first part, "a" the first.
    let written = prover.write_selected_preprocessed(&ids(&["b", "a", "c", "g"]));
    let cells: Vec<u32> = written.iter().map(|c| c.values[0].0).collect();
    assert_eq!(cells, vec![1, 0, 11, 131]);
    assert!(prover.preprocessed.is_none());
    let trace = prover.write_trace();
    assert_eq!(trace.len(), 32);
    assert_eq!(prover.base.as_ref().unwrap().columns.len(), 0);

    let roots = commitments();
    let mut channel = prover.open_transcript(&roots.preprocessed_root, &roots.trace_root, 8);
    let interaction = P256CurrentAirInteractionClaim::zero();
    assert_eq!(prover.write_interaction((vec![column(1)], interaction)).len(), 1);
    assert_eq!(*prover.interaction_claim(), interaction);
    let claimed = prover.claimed_sums().unwrap();
    prover.close_transcript(&mut channel, &roots.interaction_root);
    let drawn = *prover.state.relations();

    // The verifier replays the prover's transcript and balance.
    let proof = prove_current_air(prover, Ok(commitments())).unwrap();
    let (mut replayed, relations) = replay_relations(&proof, 8);
    assert_eq!(relations, drawn);
    replay_interaction(&proof, &mut replayed);
    assert_eq!(replayed.digest, channel.digest);
    let mut verifier = P256Verifier::new(proof.claim.clone(), proof.interaction_claim);
    let mut draw = Transcript::new();
    verifier.state.draw_relations(&mut draw, 8);
    verifier.state.relations = Some(relations);
    assert_eq!(verifier.claimed_sums(), Some(claimed.clone()));
    assert_eq!(
        proof.interaction_claim.lookup_sum(&proof.claim.public_inputs.instances, &relations),
        Some(claimed[0])
    );
    assert_eq!(proof.preprocessed_root, [1u8; 32]);
    assert_eq!(proof.config, p256_stark_monolithic_profile_config(14));
}

#[test]
fn failed_parts_fail_the_prover() {
    let failure = P256ProofError::from(ProjectiveEcError::Check { code: 5 });
    let mut bad = task();
    bad.preprocessed_parts[6] = Err(failure.clone());
    assert_eq!(P256Prover::new(bad).err(), Some(failure.clone()));
    let mut bad = task();
    bad.base_parts[0] = Err(failure.clone());
    assert_eq!(P256Prover::new(bad).err(), Some(failure));
}

#[test]
fn stark_errors_surface() {
    let mut prover = P256Prover::new(task()).unwrap();
    prover.write_interaction((Vec::new(), P256CurrentAirInteractionClaim::zero()));
    assert_eq!(
        prove_current_air(prover, Err("constraints".to_string())).err(),
        Some(P256ProofError::ProofLayer("constraints".to_string()))
    );
}

#[test]
fn monolithic_proofs_balance_before_they_are_packed() {
    let draft = draft(7, 11);
    let honest = honest_proof(&draft);
    let roots = commitments();
    let (_, relations) =
        open_relations(&honest.claim, &roots.preprocessed_root, &roots.trace_root, 64);
    assert_eq!(relations, replay_relations(&honest, 64).1);
    let (sealed, channel) = draft
        .seal_monolithic(component_claims(), honest.interaction_claim, 20, 64, &roots)
        .expect("no pole is met")
        .unwrap();
    // The proof system goes on from the transcript that the verifier replays.
    let (mut replayed, _) = replay_relations(&sealed, 64);
    replay_interaction(&sealed, &mut replayed);
    assert_eq!(channel.digest, replayed.digest);
    let prove = |claim: P256CurrentAirInteractionClaim, stark: Result<(), String>| {
        draft
            .prove_current_air_monolithic(component_claims(), claim, 20, 64, &roots, stark)
            .expect("no pole is met")
    };
    let proof = prove(honest.interaction_claim, Ok(())).unwrap();
    verify_self_bound(&proof).expect("packed proof verifies");
    assert_eq!(
        prove(honest.interaction_claim, Err("constraints".to_string())).err(),
        Some(P256ProofError::ProofLayer("constraints".to_string()))
    );
    let mut unbalanced = honest.interaction_claim;
    unbalanced.final_add.claimed_sum = felt(1);
    assert_eq!(
        prove(unbalanced, Err("constraints".to_string())).err(),
        Some(P256ProofError::RelationImbalance { relation: "LookupSum" })
    );
}

#[test]
fn both_sides_draw_and_claim_alike() {
    let proof = honest_proof(&draft(7, 11));
    let mut plain = P256Verifier::new(proof.claim.clone(), proof.interaction_claim);
    let mut bound =
        P256Verifier::new(proof.claim.clone(), proof.interaction_claim).with_z_binding();
    let mut a = Transcript::new();
    let mut b = Transcript::new();
    plain.state.draw_relations(&mut a, 8);
    bound.state.draw_relations(&mut b, 8);
    // Binding leaves the module's own relations as they are.
    assert_eq!(plain.state.relations, bound.state.relations);
    assert!(plain.state.scalar_z.is_none());
    assert!(bound.state.scalar_z.is_some());
    assert_eq!(b.blocks, a.blocks + 1);
    assert_eq!(*plain.state.relations(), *bound.state.relations());
    assert_eq!(plain.state.build_components(&proof.interaction_claim).len(), 19);

    // Each side balances its own statements; a bound one adds the message scalar.
    let relations = *plain.state.relations();
    let stated = &proof.claim.public_inputs.instances;
    let balance = proof.interaction_claim.lookup_sum(stated, &relations).unwrap();
    assert_ne!(balance, zero());
    assert_eq!(plain.claimed_sums(), Some(vec![balance]));
    let scalar_z = bound.state.scalar_z.unwrap();
    let provided = scalar_z_provider_claimed_sum(stated, &scalar_z).unwrap();
    assert_eq!(bound.claimed_sums(), Some(vec![balance.plus(provided)]));
    plain.mix_claimed_sums(&mut a);
    bound.mix_claimed_sums(&mut b);
    assert_eq!(a.digest, b.digest);
    assert_eq!(plain.expected_pcs_config(&components()), proof.config);

    let renamed = ids(&["x"]);
    let spaced = bound.with_preprocessed_namespace("left".to_string(), renamed.clone());
    assert_eq!(spaced.state.preprocessed_column_ids(), renamed);
    assert_eq!(spaced.state.hinted_mul_preprocessed_namespace.as_deref(), Some("left"));
    assert_eq!(ModuleState::new(proof.claim).preprocessed_column_ids().len(), 8);
}
