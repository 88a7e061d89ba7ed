//! What the verifier's gates let through, and what ties the prover to them.
use crate::fields::{sf_sum, sf_zero};
use crate::pipeline::air::{packs, proved, ModuleState, StarkCommitments};
use crate::pipeline::claim::{flattened, P256CurrentAirProofClaim};
use crate::pipeline::config::{config_text, mismatch_text, profile_config, PcsConfig};
use crate::pipeline::draft::audit_failure;
use crate::pipeline::error::P256ProofError;
use crate::pipeline::interaction_claim::{absorb_messages, P256CurrentAirInteractionClaim};
use crate::pipeline::public_providers::{
    misses_poles, providable, provided, scalar_z_tuples, stated_balance,
};
use crate::pipeline::relations::{drawn_at, lemma_relations_at, P256CurrentAirRelations};
use crate::pipeline::verify::{
    final_digest, first_non_canonical, gate, hex_digit, hex_text, law_statement_gate, orchestrated,
    own_balance, own_providable, relations_digest, stark_result, statement_failure,
    P256CurrentAirProof,
};
use crate::public_inputs::{
    canonical_field_element, instance_words, law_words_determine_the_statement, same_instances,
    statement_words, PublicEcdsaInstance,
};
use crate::transcript::{absorb_words, blake2s_mix_root, lemma_absorb_concat};
use vstd::prelude::*;

verus! {

/// Law: the orchestrated verifier accepts exactly where the proof states what is
/// expected, every public key has reduced digits and is below the modulus, the
/// parameters and the commitment are the pinned ones, no statement meets a pole, the
/// claimed sums balance, and the proof system accepts.
pub proof fn law_acceptance_needs_every_gate(
    r: Option<Result<(), P256ProofError>>,
    proof: P256CurrentAirProof,
    expected: Seq<PublicEcdsaInstance>,
    root: Option<[u8; 32]>,
    gamma_max_values: usize,
    unbalanced: String,
    stark: Result<(), String>,
)
    requires
        orchestrated(r, proof, expected, root, gamma_max_values, unbalanced, stark),
    ensures
        r == Some(Ok::<(), P256ProofError>(())) <==> {
            let stated = proof.claim.public_inputs.instances@;
            &&& same_instances(stated, expected)
            &&& forall|i: int|
                0 <= i < stated.len() ==> canonical_field_element((#[trigger] stated[i]).pub_x)
                    && canonical_field_element(stated[i].pub_y)
            &&& proof.config == profile_config()
            &&& root matches Some(pinned) ==> pinned@ == proof.preprocessed_root@
            &&& own_providable(proof, gamma_max_values)
            &&& own_balance(proof, gamma_max_values) == sf_zero()
            &&& stark is Ok
        },
{
    let stated = proof.claim.public_inputs.instances@;
    law_statement_gate(stated, expected);
    law_canonical_keys(stated);
}

/// Law: a public key has no field to report exactly where both coordinates are
/// canonical, and the first coordinate is reported first.
pub proof fn law_reported_coordinate(p: PublicEcdsaInstance)
    ensures
        p.spec_non_canonical_field() is None <==> canonical_field_element(p.pub_x)
            && canonical_field_element(p.pub_y),
        !canonical_field_element(p.pub_x) ==> p.spec_non_canonical_field() == Some("pub_x"),
        canonical_field_element(p.pub_x) && !canonical_field_element(p.pub_y)
            ==> p.spec_non_canonical_field() == Some("pub_y"),
{
}

/// Law: a statement is reported exactly where some key is not canonical; it is the
/// first such, under its own coordinate.
pub proof fn law_canonical_keys(stated: Seq<PublicEcdsaInstance>)
    ensures
        first_non_canonical(stated) is None <==> forall|i: int|
            0 <= i < stated.len() ==> canonical_field_element((#[trigger] stated[i]).pub_x)
                && canonical_field_element(stated[i].pub_y),
        first_non_canonical(stated) matches Some(found) ==> {
            &&& 0 <= found.0 < stated.len()
            &&& stated[found.0].spec_non_canonical_field() == Some(found.1)
            &&& forall|i: int|
                0 <= i < found.0 ==> (#[trigger] stated[i]).spec_non_canonical_field() is None
        },
    decreases stated.len(),
{
    if stated.len() > 0 {
        let front = stated.drop_last();
        law_canonical_keys(front);
        assert forall|i: int| 0 <= i < front.len() implies #[trigger] stated[i] == front[i] by {}
        assert(stated[stated.len() - 1] == stated.last());
        law_reported_coordinate(stated.last());
        if first_non_canonical(front) is None {
            assert forall|i: int| 0 <= i < front.len() implies (
            #[trigger] stated[i]).spec_non_canonical_field() is None by {
                assert(canonical_field_element(front[i].pub_x));
                law_reported_coordinate(front[i]);
            }
        }
    }
}

/// Law: statements are the same exactly where they absorb the same words.
pub proof fn law_same_statements_absorb_the_same(
    a: Seq<PublicEcdsaInstance>,
    b: Seq<PublicEcdsaInstance>,
)
    ensures
        same_instances(a, b) <==> statement_words(a) == statement_words(b),
    decreases a.len(),
{
    if statement_words(a) == statement_words(b) {
        law_words_determine_the_statement(a, b);
    }
    if same_instances(a, b) && a.len() > 0 {
        let (ra, rb) = (a.drop_last(), b.drop_last());
        assert forall|i: int| 0 <= i < ra.len() implies (#[trigger] ra[i]).spec_same(&rb[i]) by {
            assert(a[i].spec_same(&b[i]));
        }
        law_same_statements_absorb_the_same(ra, rb);
        assert(a[a.len() - 1].spec_same(&b[a.len() - 1]));
        assert(instance_words(a.last()) =~= instance_words(b.last()));
    }
}

/// Law: the transcript of a proof absorbs, in this order: the commitment to the fixed
/// columns, the statements, the component claims, the commitment to the trace; then,
/// once the relations are drawn, the claimed sums and the commitment to the
/// interaction.
pub proof fn law_transcript_of_a_proof(proof: P256CurrentAirProof)
    ensures
        ({
            let start = blake2s_mix_root(
                Seq::new(32, |i: int| 0u8),
                proof.preprocessed_root@,
            );
            let stated = absorb_words(
                start,
                statement_words(proof.claim.public_inputs.instances@),
            );
            let shaped = absorb_words(stated, flattened(proof.claim.component_words()));
            let drawn = blake2s_mix_root(shaped, proof.trace_root@);
            let claimed = absorb_messages(drawn, proof.interaction_claim.transcript_messages());
            &&& relations_digest(proof) == drawn
            &&& final_digest(proof) == blake2s_mix_root(claimed, proof.interaction_root@)
        }),
{
    let start = blake2s_mix_root(Seq::new(32, |i: int| 0u8), proof.preprocessed_root@);
    lemma_absorb_concat(
        start,
        statement_words(proof.claim.public_inputs.instances@),
        flattened(proof.claim.component_words()),
    );
}

/// Law: a proof is balanced for its own statements on the relations drawn from its own
/// transcript, right after the commitment to the trace.
pub proof fn law_own_balance_is_for_the_own_transcript(
    proof: P256CurrentAirProof,
    relations: P256CurrentAirRelations,
    gamma_max_values: usize,
)
    requires
        drawn_at(relations, relations_digest(proof), 0, gamma_max_values),
    ensures
        own_balance(proof, gamma_max_values) == stated_balance(
            proof.interaction_claim,
            proof.claim.public_inputs.instances@,
            relations,
        ),
        own_providable(proof, gamma_max_values) == providable(
            proof.claim.public_inputs.instances@,
            relations,
        ),
{
    lemma_relations_at(relations, relations_digest(proof), 0, gamma_max_values);
}

/// Law: the prover hands out a proof exactly where the verifier would find it
/// balanced and the proof system succeeds; the error of an imbalance comes before
/// that of the proof system.
pub proof fn law_prover_and_verifier_agree(
    r: Option<Result<P256CurrentAirProof, P256ProofError>>,
    proof: P256CurrentAirProof,
    claim: P256CurrentAirProofClaim,
    interaction_claim: P256CurrentAirInteractionClaim,
    gamma_max_values: usize,
    commitments: StarkCommitments,
    stark: Result<(), String>,
)
    requires
        packs(proof, claim, interaction_claim, commitments),
        proved(r, claim, interaction_claim, gamma_max_values, commitments, stark),
    ensures
        r is None <==> !own_providable(proof, gamma_max_values),
        r matches Some(Ok(made)) ==> packs(made, claim, interaction_claim, commitments),
        (r matches Some(Ok(_))) <==> own_providable(proof, gamma_max_values) && own_balance(
            proof,
            gamma_max_values,
        ) == sf_zero() && stark is Ok,
        own_providable(proof, gamma_max_values) && own_balance(proof, gamma_max_values)
            != sf_zero() ==> r == Some(
            Err::<P256CurrentAirProof, P256ProofError>(
                P256ProofError::RelationImbalance { relation: "LookupSum" },
            ),
        ),
{
}

/// Law: a packed proof determines what was packed, with the pinned parameters: no two
/// of its commitments are exchanged.
pub proof fn law_packed_proof_holds_what_was_packed(
    proof: P256CurrentAirProof,
    claim: P256CurrentAirProofClaim,
    interaction_claim: P256CurrentAirInteractionClaim,
    commitments: StarkCommitments,
)
    requires
        packs(proof, claim, interaction_claim, commitments),
    ensures
        proof == (P256CurrentAirProof {
            claim,
            interaction_claim,
            config: profile_config(),
            preprocessed_root: commitments.preprocessed_root,
            trace_root: commitments.trace_root,
            interaction_root: commitments.interaction_root,
        }),
{
}

/// Law: binding the message scalar adds to a module's balance what its statements
/// provide of the scalar, and nothing else; a statement must then miss that pole too.
pub proof fn law_binding_adds_the_scalar(
    state: ModuleState,
    interaction_claim: P256CurrentAirInteractionClaim,
)
    ensures
        ({
            let bound = ModuleState { bind_z: true, ..state };
            let free = ModuleState { bind_z: false, ..state };
            let stated = state.proof_claim.public_inputs.instances@;
            &&& free.module_balance(interaction_claim) == stated_balance(
                interaction_claim,
                stated,
                state.relations->0,
            )
            &&& bound.module_balance(interaction_claim) == sf_sum(
                free.module_balance(interaction_claim),
                provided(state.scalar_z->0, scalar_z_tuples(stated)),
            )
            &&& bound.meets_no_pole() <==> free.meets_no_pole() && misses_poles(
                state.scalar_z->0,
                scalar_z_tuples(stated),
            )
        }),
{
}

/// Law: the proof system's answer is passed on: success as success, and a message as
/// it stands.
pub proof fn law_answer_is_passed_on(stark: Result<(), String>)
    ensures
        stark is Ok <==> stark_result(stark) == Ok::<(), P256ProofError>(()),
        stark matches Err(message) ==> stark_result(stark) == Err::<(), P256ProofError>(
            P256ProofError::ProofLayer(message),
        ),
{
}

/// Law: the audits pass exactly where the selector audit could be made and both
/// balance; a failure to make it comes first, then the selectors, then the points.
pub proof fn law_audits(selector: Result<bool, P256ProofError>, prepared: bool)
    ensures
        audit_failure(selector, prepared) is None <==> (selector matches Ok(b) && b) && prepared,
        selector matches Err(e) ==> audit_failure(selector, prepared) == Some(e),
        (selector matches Ok(b) && !b) ==> audit_failure(selector, prepared) == Some(
            P256ProofError::RelationImbalance { relation: "SelectorLookupAudit" },
        ),
        (selector matches Ok(b) && b) && !prepared ==> audit_failure(selector, prepared) == Some(
            P256ProofError::RelationImbalance { relation: "PreparedPointAudit" },
        ),
{
}

/// Law: the message for other parameters names those of the proof first, and then the
/// pinned ones.
pub proof fn law_mismatch_names_both(got: PcsConfig, pinned: PcsConfig)
    ensures
        ({
            let text = mismatch_text(got, pinned);
            let n = config_text(got).len() as int;
            &&& text.subrange(17, 17 + n) == config_text(got)
            &&& text.skip(17 + n + 43) == config_text(pinned)
        }),
{
    reveal_strlit("proof PCS config ");
    reveal_strlit(" does not match the pinned verifier config ");
    let text = mismatch_text(got, pinned);
    let n = config_text(got).len() as int;
    assert(text.subrange(17, 17 + n) =~= config_text(got));
    assert(text.skip(17 + n + 43) =~= config_text(pinned));
}

/// The value of a hexadecimal digit.
pub open spec fn digit_value(c: char) -> int {
    if '0' <= c <= '9' {
        c as int - '0' as int
    } else {
        c as int - 'a' as int + 10
    }
}

/// Law: the text of a commitment can be read back: two digits a byte, the high one
/// first.
pub proof fn law_root_text_can_be_read(bytes: Seq<u8>)
    ensures
        hex_text(bytes).len() == 2 * bytes.len(),
        forall|i: int|
            0 <= i < bytes.len() ==> #[trigger] bytes[i] == 16 * digit_value(
                hex_text(bytes)[2 * i],
            ) + digit_value(hex_text(bytes)[2 * i + 1]),
    decreases bytes.len(),
{
    if bytes.len() > 0 {
        let front = bytes.drop_last();
        law_root_text_can_be_read(front);
        let b = bytes.last() as int;
        lemma_digit(b / 16);
        lemma_digit(b % 16);
        assert forall|i: int| 0 <= i < bytes.len() implies #[trigger] bytes[i] == 16 * digit_value(
            hex_text(bytes)[2 * i],
        ) + digit_value(hex_text(bytes)[2 * i + 1]) by {
            if i < front.len() {
                assert(front[i] == bytes[i]);
                assert(hex_text(bytes)[2 * i] == hex_text(front)[2 * i]);
                assert(hex_text(bytes)[2 * i + 1] == hex_text(front)[2 * i + 1]);
            }
        }
    }
}

proof fn lemma_digit(d: int)
    requires
        0 <= d < 16,
    ensures
        digit_value(hex_digit(d)) == d,
{
    let all = seq!['0', '1', '2', '3', '4', '5', '6', '7', '8', '9', 'a', 'b', 'c', 'd', 'e', 'f'];
    assert(all[d] == hex_digit(d));
}

/// Law: a gate answers with the failure where there is one, and with success otherwise.
pub proof fn law_gate(r: Result<(), P256ProofError>, failure: Option<P256ProofError>)
    requires
        gate(r, failure),
    ensures
        r is Ok <==> failure is None,
        failure matches Some(e) ==> r == Err::<(), P256ProofError>(e),
{
}

/// Law: where the statement and the parameters pass and the commitment is another than the
/// pinned one, the error gives both as text, that of the proof first; nothing else is
/// asked.
pub proof fn law_root_mismatch_gives_both(
    r: Option<Result<(), P256ProofError>>,
    proof: P256CurrentAirProof,
    expected: Seq<PublicEcdsaInstance>,
    root: [u8; 32],
    gamma_max_values: usize,
    unbalanced: String,
    stark: Result<(), String>,
)
    requires
        orchestrated(r, proof, expected, Some(root), gamma_max_values, unbalanced, stark),
        statement_failure(proof.claim.public_inputs.instances@, expected) is None,
        proof.config == profile_config(),
        proof.preprocessed_root@ != root@,
    ensures
        r matches Some(Err(P256ProofError::PreprocessedRootMismatch { got, expected: pinned }))
            && got@ == hex_text(proof.preprocessed_root@) && pinned@ == hex_text(root@),
{
}

/// Law: an imbalance is told in the orchestrator's words, and only where everything before
/// it passed.
pub proof fn law_orchestrated_imbalance(
    r: Option<Result<(), P256ProofError>>,
    proof: P256CurrentAirProof,
    expected: Seq<PublicEcdsaInstance>,
    gamma_max_values: usize,
    unbalanced: String,
    stark: Result<(), String>,
)
    requires
        orchestrated(r, proof, expected, None, gamma_max_values, unbalanced, stark),
    ensures
        statement_failure(proof.claim.public_inputs.instances@, expected) matches Some(e) ==> r
            == Some(Err::<(), P256ProofError>(e)),
        statement_failure(proof.claim.public_inputs.instances@, expected) is None && proof.config
            == profile_config() && own_providable(proof, gamma_max_values) && own_balance(
            proof,
            gamma_max_values,
        ) != sf_zero() ==> r == Some(
            Err::<(), P256ProofError>(P256ProofError::ProofLayer(unbalanced)),
        ),
        statement_failure(proof.claim.public_inputs.instances@, expected) is None && proof.config
            != profile_config() ==> (r matches Some(Err(P256ProofError::ProofLayer(message)))
            && message@ == mismatch_text(proof.config, profile_config())),
{
}

/// Law: statements other than the expected ones are reported before any key is looked at.
pub proof fn law_statement_mismatch_comes_first(
    stated: Seq<PublicEcdsaInstance>,
    expected: Seq<PublicEcdsaInstance>,
)
    ensures
        statement_words(stated) != statement_words(expected) ==> statement_failure(stated, expected)
            == Some(P256ProofError::PublicInstanceMismatch),
        statement_words(stated) == statement_words(expected) ==> match first_non_canonical(
            stated,
        ) {
            None => statement_failure(stated, expected) is None,
            Some(found) => statement_failure(stated, expected) == Some(
                P256ProofError::NonCanonicalPublicKey { index: found.0 as usize, field: found.1 },
            ),
        },
{
    law_same_statements_absorb_the_same(stated, expected);
}

/// Law: the conjectured security of parameters is the proof of work, and the blowup once per
/// query; the pinned ones have twenty bits of work, thirty-eight queries of two bits, and
/// the domain is not fixed.
pub proof fn law_security(config: PcsConfig)
    ensures
        config.security_bits() == config.pow_bits + config.fri_config.n_queries
            * config.fri_config.log_blowup_factor,
        profile_config().security_bits() == 96,
        profile_config().pow_bits == 20,
        profile_config().fri_config.n_queries == 38,
        profile_config().fri_config.log_blowup_factor == 2,
        profile_config().fri_config.log_last_layer_degree_bound == 5,
        profile_config().fri_config.fold_step == 1,
        profile_config().lifting_log_size is None,
{
    let (a, b) = (
        config.fri_config.n_queries as int,
        config.fri_config.log_blowup_factor as int,
    );
    assert(a * b == b * a) by (nonlinear_arith);
}

} // verus!
