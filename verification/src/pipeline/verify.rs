//! The gates of the proof verifier: the statement, the parameters, the
//! commitment to fixed columns, the balance, and the proof system's own answer.
use crate::fields::{sf_zero, SecureField};
use crate::pipeline::claim::P256CurrentAirProofClaim;
use crate::pipeline::config::{
    mismatch_message, mismatch_text, p256_stark_monolithic_profile_config, profile_config,
    PcsConfig,
};
use crate::pipeline::error::P256ProofError;
use crate::pipeline::interaction_claim::{absorb_messages, P256CurrentAirInteractionClaim};
use crate::pipeline::public_providers::{providable, reduced_statements, stated_balance};
use crate::pipeline::relations::{
    drawn_at, lemma_relations_at, relations_at, P256CurrentAirRelations, RELATION_BLOCKS,
};
use crate::public_inputs::{same_instances, PublicEcdsaInstance};
use crate::transcript::{absorb_words, blake2s_mix_root, Transcript};
use vstd::prelude::*;

verus! {

/// A proof, as far as the gates read it: its two claims, the parameters that it
/// was made with, and its three commitments.
#[derive(Clone, Debug)]
pub struct P256CurrentAirProof {
    pub claim: P256CurrentAirProofClaim,
    pub interaction_claim: P256CurrentAirInteractionClaim,
    pub config: PcsConfig,
    pub preprocessed_root: [u8; 32],
    pub trace_root: [u8; 32],
    pub interaction_root: [u8; 32],
}

/// The first statement whose public key is not canonical, and the coordinate.
pub open spec fn first_non_canonical(instances: Seq<PublicEcdsaInstance>) -> Option<
    (int, &'static str),
>
    decreases instances.len(),
{
    if instances.len() == 0 {
        None
    } else if let Some(found) = first_non_canonical(instances.drop_last()) {
        Some(found)
    } else {
        match instances.last().spec_non_canonical_field() {
            Some(field) => Some((instances.len() - 1, field)),
            None => None,
        }
    }
}

/// What is found in a prefix is what is found in the whole.
proof fn lemma_non_canonical_stays(instances: Seq<PublicEcdsaInstance>, n: int)
    requires
        0 <= n <= instances.len(),
        first_non_canonical(instances.take(n)) is Some,
    ensures
        first_non_canonical(instances) == first_non_canonical(instances.take(n)),
    decreases instances.len() - n,
{
    if n == instances.len() {
        assert(instances.take(n) =~= instances);
    } else {
        assert(instances.take(n + 1).drop_last() =~= instances.take(n));
        lemma_non_canonical_stays(instances, n + 1);
    }
}

/// Whether two lists make the same statements.
pub fn instances_match(a: &Vec<PublicEcdsaInstance>, b: &[PublicEcdsaInstance]) -> (r: bool)
    ensures
        r == same_instances(a@, b@),
{
    if a.len() != b.len() {
        return false;
    }
    let mut i: usize = 0;
    while i < a.len()
        invariant
            i <= a@.len(),
            a@.len() == b@.len(),
            forall|k: int| 0 <= k < i ==> (#[trigger] a@[k]).spec_same(&b@[k]),
        decreases a@.len() - i,
    {
        if a[i] != b[i] {
            assert(!a@[i as int].spec_same(&b@[i as int]));
            return false;
        }
        i = i + 1;
    }
    true
}

/// What the statement gates reject: other statements than those expected, and
/// public keys with a coordinate that is not canonical.
pub open spec fn statement_failure(
    stated: Seq<PublicEcdsaInstance>,
    expected: Seq<PublicEcdsaInstance>,
) -> Option<P256ProofError> {
    if !same_instances(stated, expected) {
        Some(P256ProofError::PublicInstanceMismatch)
    } else {
        match first_non_canonical(stated) {
            Some(found) => Some(
                P256ProofError::NonCanonicalPublicKey { index: found.0 as usize, field: found.1 },
            ),
            None => None,
        }
    }
}

/// The outcome of a gate.
pub open spec fn gate(r: Result<(), P256ProofError>, failure: Option<P256ProofError>) -> bool {
    match failure {
        Some(e) => r == Err::<(), P256ProofError>(e),
        None => r == Ok::<(), P256ProofError>(()),
    }
}

/// The proof states what the caller expects, about canonical public keys.
pub fn check_statement(
    stated: &Vec<PublicEcdsaInstance>,
    expected: &[PublicEcdsaInstance],
) -> (r: Result<(), P256ProofError>)
    ensures
        gate(r, statement_failure(stated@, expected@)),
{
    if !instances_match(stated, expected) {
        return Err(P256ProofError::PublicInstanceMismatch);
    }
    let mut i: usize = 0;
    proof {
        assert(stated@.take(0) =~= Seq::<PublicEcdsaInstance>::empty());
    }
    while i < stated.len()
        invariant
            i <= stated@.len(),
            same_instances(stated@, expected@),
            first_non_canonical(stated@.take(i as int)) is None,
        decreases stated@.len() - i,
    {
        proof {
            assert(stated@.take(i + 1).drop_last() =~= stated@.take(i as int));
            assert(stated@.take(i + 1).last() == stated@[i as int]);
        }
        match stated[i].non_canonical_public_key_field() {
            Some(field) => {
                proof {
                    lemma_non_canonical_stays(stated@, i + 1);
                }
                return Err(P256ProofError::NonCanonicalPublicKey { index: i, field });
            },
            None => {},
        }
        i = i + 1;
    }
    proof {
        assert(stated@.take(i as int) =~= stated@);
    }
    Ok(())
}

/// A proof-system error with the given text.
pub open spec fn is_proof_layer(r: Result<(), P256ProofError>, text: Seq<char>) -> bool {
    r matches Err(P256ProofError::ProofLayer(message)) && message@ == text
}

/// The proof was made with the pinned parameters.
pub fn check_config(got: &PcsConfig, max_constraint_log_degree_bound: u32) -> (r: Result<
    (),
    P256ProofError,
>)
    ensures
        *got == profile_config() ==> r == Ok::<(), P256ProofError>(()),
        *got != profile_config() ==> is_proof_layer(r, mismatch_text(*got, profile_config())),
{
    let pinned = p256_stark_monolithic_profile_config(max_constraint_log_degree_bound);
    if *got == pinned {
        Ok(())
    } else {
        Err(P256ProofError::ProofLayer(mismatch_message(got, &pinned)))
    }
}

/// The transcript up to the draw of the relations: the commitment to the fixed
/// columns, the claim, the commitment to the trace.
pub open spec fn trace_digest(
    preprocessed_root: Seq<u8>,
    claim: P256CurrentAirProofClaim,
    trace_root: Seq<u8>,
) -> Seq<u8> {
    let start = blake2s_mix_root(Seq::new(32, |i: int| 0u8), preprocessed_root);
    blake2s_mix_root(absorb_words(start, claim.transcript_words()), trace_root)
}

/// The transcript of a proof up to the draw of its relations.
pub open spec fn relations_digest(proof: P256CurrentAirProof) -> Seq<u8> {
    trace_digest(proof.preprocessed_root@, proof.claim, proof.trace_root@)
}

/// The transcript after the interaction claim and its commitment.
pub open spec fn final_digest(proof: P256CurrentAirProof) -> Seq<u8> {
    blake2s_mix_root(
        absorb_messages(
            relations_digest(proof),
            proof.interaction_claim.transcript_messages(),
        ),
        proof.interaction_root@,
    )
}

/// Draws the relations of a claim whose fixed columns and trace are committed.
/// Prover and verifier draw them here.
pub fn open_relations(
    claim: &P256CurrentAirProofClaim,
    preprocessed_root: &[u8; 32],
    trace_root: &[u8; 32],
    gamma_max_values: usize,
) -> (r: (Transcript, P256CurrentAirRelations))
    ensures
        r.0.digest@ == trace_digest(preprocessed_root@, *claim, trace_root@),
        r.0.blocks == RELATION_BLOCKS,
        r.1 == relations_at(r.0.digest@, 0, gamma_max_values),
        drawn_at(r.1, r.0.digest@, 0, gamma_max_values),
        r.1.public_inputs.wf(),
        r.1.ecdsa_result.wf(),
{
    let mut channel = Transcript::new();
    channel.mix_root(preprocessed_root);
    claim.mix_into(&mut channel);
    channel.mix_root(trace_root);
    let relations = P256CurrentAirRelations::draw(&mut channel, gamma_max_values);
    proof {
        lemma_relations_at(relations, channel.digest@, 0, gamma_max_values);
    }
    (channel, relations)
}

/// Replays the transcript of a proof up to the draw of its relations.
pub fn replay_relations(proof: &P256CurrentAirProof, gamma_max_values: usize) -> (r: (
    Transcript,
    P256CurrentAirRelations,
))
    ensures
        r.0.digest@ == relations_digest(*proof),
        r.0.blocks == RELATION_BLOCKS,
        r.1 == relations_at(relations_digest(*proof), 0, gamma_max_values),
        drawn_at(r.1, relations_digest(*proof), 0, gamma_max_values),
        r.1.public_inputs.wf(),
        r.1.ecdsa_result.wf(),
{
    open_relations(&proof.claim, &proof.preprocessed_root, &proof.trace_root, gamma_max_values)
}

/// Replays the rest of the transcript: the interaction claim and its
/// commitment.
pub fn replay_interaction(proof: &P256CurrentAirProof, channel: &mut Transcript)
    requires
        old(channel).digest@ == relations_digest(*proof),
    ensures
        final(channel).digest@ == final_digest(*proof),
        final(channel).blocks == 0,
{
    proof.interaction_claim.mix_into(channel);
    channel.mix_root(&proof.interaction_root);
}

/// The balance of a proof: that of its own statements, on the relations of its
/// own transcript.
pub open spec fn own_balance(proof: P256CurrentAirProof, gamma_max_values: usize) -> SecureField {
    stated_balance(
        proof.interaction_claim,
        proof.claim.public_inputs.instances@,
        relations_at(relations_digest(proof), 0, gamma_max_values),
    )
}

/// The proof's statements meet no pole of the relations of its transcript.
pub open spec fn own_providable(proof: P256CurrentAirProof, gamma_max_values: usize) -> bool {
    providable(
        proof.claim.public_inputs.instances@,
        relations_at(relations_digest(proof), 0, gamma_max_values),
    )
}

/// What the proof system answered.
pub open spec fn stark_result(stark: Result<(), String>) -> Result<(), P256ProofError> {
    match stark {
        Ok(_) => Ok::<(), P256ProofError>(()),
        Err(message) => Err::<(), P256ProofError>(P256ProofError::ProofLayer(message)),
    }
}

/// Verifies a proof of the expected statements. The gates come in this order:
/// the statement, the parameters, the balance, and the answer of the proof
/// system. The balance ties the proof to the statements that it makes: they
/// provide the public terms, on the relations drawn from the proof's transcript.
/// There is no answer where the balance is reached and a statement meets a pole.
pub fn verify_current_air_monolithic(
    proof: &P256CurrentAirProof,
    expected_instances: &[PublicEcdsaInstance],
    max_constraint_log_degree_bound: u32,
    gamma_max_values: usize,
    stark: Result<(), String>,
) -> (r: Option<Result<(), P256ProofError>>)
    requires
        proof.interaction_claim.wf(),
        reduced_statements(proof.claim.public_inputs.instances@),
    ensures
        match statement_failure(proof.claim.public_inputs.instances@, expected_instances@) {
            Some(e) => r == Some(Err::<(), P256ProofError>(e)),
            None => if proof.config != profile_config() {
                r is Some && is_proof_layer(r->0, mismatch_text(proof.config, profile_config()))
            } else if !own_providable(*proof, gamma_max_values) {
                r is None
            } else if own_balance(*proof, gamma_max_values) != sf_zero() {
                r == Some(
                    Err::<(), P256ProofError>(
                        P256ProofError::RelationImbalance { relation: "LookupSum" },
                    ),
                )
            } else {
                r == Some(stark_result(stark))
            },
        },
{
    match check_statement(&proof.claim.public_inputs.instances, expected_instances) {
        Ok(()) => {},
        Err(e) => {
            return Some(Err(e));
        },
    }
    match check_config(&proof.config, max_constraint_log_degree_bound) {
        Ok(()) => {},
        Err(e) => {
            return Some(Err(e));
        },
    }
    let (_channel, relations) = replay_relations(proof, gamma_max_values);
    match proof.interaction_claim.lookup_sum(&proof.claim.public_inputs.instances, &relations) {
        None => None,
        Some(balance) => {
            if balance != SecureField::zero() {
                return Some(Err(P256ProofError::RelationImbalance { relation: "LookupSum" }));
            }
            match stark {
                Ok(()) => Some(Ok(())),
                Err(message) => Some(Err(P256ProofError::ProofLayer(message))),
            }
        },
    }
}

/// Whether two commitments are equal.
fn roots_match(a: &[u8; 32], b: &[u8; 32]) -> (r: bool)
    ensures
        r == (a@ == b@),
{
    let mut i: usize = 0;
    while i < 32
        invariant
            i <= 32,
            forall|k: int| 0 <= k < i ==> #[trigger] a@[k] == b@[k],
        decreases 32 - i,
    {
        if a[i] != b[i] {
            assert(a@[i as int] != b@[i as int]);
            return false;
        }
        i = i + 1;
    }
    assert(a@ =~= b@);
    true
}

/// A hexadecimal digit.
pub open spec fn hex_digit(d: int) -> char {
    seq!['0', '1', '2', '3', '4', '5', '6', '7', '8', '9', 'a', 'b', 'c', 'd', 'e', 'f'][d]
}

/// Bytes in hexadecimal notation, two digits each, the high one first.
pub open spec fn hex_text(bytes: Seq<u8>) -> Seq<char>
    decreases bytes.len(),
{
    if bytes.len() == 0 {
        Seq::empty()
    } else {
        hex_text(bytes.drop_last()).push(hex_digit(bytes.last() as int / 16)).push(
            hex_digit(bytes.last() as int % 16),
        )
    }
}

/// Appends one hexadecimal digit.
fn append_hex_digit(out: &mut String, d: u8)
    requires
        d < 16,
    ensures
        final(out)@ == old(out)@.push(hex_digit(d as int)),
{
    proof {
        reveal_strlit("0");
        reveal_strlit("1");
        reveal_strlit("2");
        reveal_strlit("3");
        reveal_strlit("4");
        reveal_strlit("5");
        reveal_strlit("6");
        reveal_strlit("7");
        reveal_strlit("8");
        reveal_strlit("9");
        reveal_strlit("a");
        reveal_strlit("b");
        reveal_strlit("c");
        reveal_strlit("d");
        reveal_strlit("e");
        reveal_strlit("f");
    }
    let ghost before = out@;
    if d == 0 {
        out.append("0");
    } else if d == 1 {
        out.append("1");
    } else if d == 2 {
        out.append("2");
    } else if d == 3 {
        out.append("3");
    } else if d == 4 {
        out.append("4");
    } else if d == 5 {
        out.append("5");
    } else if d == 6 {
        out.append("6");
    } else if d == 7 {
        out.append("7");
    } else if d == 8 {
        out.append("8");
    } else if d == 9 {
        out.append("9");
    } else if d == 10 {
        out.append("a");
    } else if d == 11 {
        out.append("b");
    } else if d == 12 {
        out.append("c");
    } else if d == 13 {
        out.append("d");
    } else if d == 14 {
        out.append("e");
    } else {
        out.append("f");
    }
    assert(out@ =~= before.push(hex_digit(d as int)));
}

/// The text of a commitment.
pub fn root_text(root: &[u8; 32]) -> (r: String)
    ensures
        r@ == hex_text(root@),
{
    let mut text: String = "".to_owned();
    proof {
        reveal_strlit("");
        assert(root@.take(0) =~= Seq::<u8>::empty());
        assert(text@ =~= Seq::<char>::empty());
    }
    let mut i: usize = 0;
    while i < 32
        invariant
            i <= 32,
            text@ == hex_text(root@.take(i as int)),
        decreases 32 - i,
    {
        proof {
            assert(root@.take(i + 1).drop_last() =~= root@.take(i as int));
            assert(root@.take(i + 1).last() == root@[i as int]);
        }
        append_hex_digit(&mut text, root[i] / 16);
        append_hex_digit(&mut text, root[i] % 16);
        i = i + 1;
    }
    proof {
        assert(root@.take(32) =~= root@);
    }
    text
}

/// A mismatch of commitments, told by their texts.
pub open spec fn is_root_mismatch(
    r: Option<Result<(), P256ProofError>>,
    got: Seq<u8>,
    expected: Seq<u8>,
) -> bool {
    r matches Some(Err(P256ProofError::PreprocessedRootMismatch { got: g, expected: e })) && g@
        == hex_text(got) && e@ == hex_text(expected)
}

/// The commitment gate: a pinned commitment differs from the proof's.
pub open spec fn root_failure(got: [u8; 32], expected: Option<[u8; 32]>) -> bool {
    match expected {
        Some(root) => got@ != root@,
        None => false,
    }
}

/// Verifies a proof through the shared orchestrator, with the commitment to the
/// fixed columns pinned where one is given. The commitment is compared before
/// anything is absorbed; then the orchestrator asks for a balance of zero, and
/// says `unbalanced` where it is another; then the proof system answers. There
/// is no answer where the balance is reached and a statement meets a pole.
pub fn verify_current_air_with_preprocessed_root(
    proof: &P256CurrentAirProof,
    expected_instances: &[PublicEcdsaInstance],
    expected_preprocessed_root: Option<[u8; 32]>,
    max_constraint_log_degree_bound: u32,
    gamma_max_values: usize,
    unbalanced: String,
    stark: Result<(), String>,
) -> (r: Option<Result<(), P256ProofError>>)
    requires
        proof.interaction_claim.wf(),
        reduced_statements(proof.claim.public_inputs.instances@),
    ensures
        orchestrated(
            r,
            *proof,
            expected_instances@,
            expected_preprocessed_root,
            gamma_max_values,
            unbalanced,
            stark,
        ),
{
    match check_statement(&proof.claim.public_inputs.instances, expected_instances) {
        Ok(()) => {},
        Err(e) => {
            return Some(Err(e));
        },
    }
    match check_config(&proof.config, max_constraint_log_degree_bound) {
        Ok(()) => {},
        Err(e) => {
            return Some(Err(e));
        },
    }
    match expected_preprocessed_root {
        Some(root) => {
            if !roots_match(&proof.preprocessed_root, &root) {
                return Some(
                    Err(
                        P256ProofError::PreprocessedRootMismatch {
                            got: root_text(&proof.preprocessed_root),
                            expected: root_text(&root),
                        },
                    ),
                );
            }
        },
        None => {},
    }
    let (_channel, relations) = replay_relations(proof, gamma_max_values);
    match proof.interaction_claim.lookup_sum(&proof.claim.public_inputs.instances, &relations) {
        None => None,
        Some(balance) => {
            if balance != SecureField::zero() {
                return Some(Err(P256ProofError::ProofLayer(unbalanced)));
            }
            match stark {
                Ok(()) => Some(Ok(())),
                Err(message) => Some(Err(P256ProofError::ProofLayer(message))),
            }
        },
    }
}

/// What the orchestrated verifier answers.
pub open spec fn orchestrated(
    r: Option<Result<(), P256ProofError>>,
    proof: P256CurrentAirProof,
    expected_instances: Seq<PublicEcdsaInstance>,
    expected_preprocessed_root: Option<[u8; 32]>,
    gamma_max_values: usize,
    unbalanced: String,
    stark: Result<(), String>,
) -> bool {
    match statement_failure(proof.claim.public_inputs.instances@, expected_instances) {
        Some(e) => r == Some(Err::<(), P256ProofError>(e)),
        None => if proof.config != profile_config() {
            r is Some && is_proof_layer(r->0, mismatch_text(proof.config, profile_config()))
        } else if root_failure(proof.preprocessed_root, expected_preprocessed_root) {
            is_root_mismatch(r, proof.preprocessed_root@, expected_preprocessed_root->0@)
        } else if !own_providable(proof, gamma_max_values) {
            r is None
        } else if own_balance(proof, gamma_max_values) != sf_zero() {
            r == Some(Err::<(), P256ProofError>(P256ProofError::ProofLayer(unbalanced)))
        } else {
            r == Some(stark_result(stark))
        },
    }
}

/// Verifies a proof through the shared orchestrator, without a pinned
/// commitment.
pub fn verify_current_air(
    proof: &P256CurrentAirProof,
    expected_instances: &[PublicEcdsaInstance],
    max_constraint_log_degree_bound: u32,
    gamma_max_values: usize,
    unbalanced: String,
    stark: Result<(), String>,
) -> (r: Option<Result<(), P256ProofError>>)
    requires
        proof.interaction_claim.wf(),
        reduced_statements(proof.claim.public_inputs.instances@),
    ensures
        orchestrated(
            r,
            *proof,
            expected_instances@,
            None,
            gamma_max_values,
            unbalanced,
            stark,
        ),
{
    verify_current_air_with_preprocessed_root(
        proof,
        expected_instances,
        None,
        max_constraint_log_degree_bound,
        gamma_max_values,
        unbalanced,
        stark,
    )
}

/// Law: statements pass the gates exactly where they are the expected ones and
/// every public key has canonical coordinates.
pub proof fn law_statement_gate(
    stated: Seq<PublicEcdsaInstance>,
    expected: Seq<PublicEcdsaInstance>,
)
    ensures
        statement_failure(stated, expected) is None <==> same_instances(stated, expected)
            && forall|i: int|
            0 <= i < stated.len() ==> (#[trigger] stated[i]).spec_non_canonical_field() is None,
{
    lemma_all_canonical(stated);
}

/// Nothing is found exactly where every public key is canonical.
proof fn lemma_all_canonical(instances: Seq<PublicEcdsaInstance>)
    ensures
        first_non_canonical(instances) is None <==> forall|i: int|
            0 <= i < instances.len() ==> (
            #[trigger] instances[i]).spec_non_canonical_field() is None,
    decreases instances.len(),
{
    if instances.len() > 0 {
        let rest = instances.drop_last();
        lemma_all_canonical(rest);
        if first_non_canonical(instances) is None {
            assert forall|i: int| 0 <= i < instances.len() implies (
            #[trigger] instances[i]).spec_non_canonical_field() is None by {
                if i < rest.len() {
                    assert(rest[i] == instances[i]);
                }
            }
        } else {
            assert forall|i: int| 0 <= i < rest.len() implies rest[i] == instances[i] by {}
            if forall|i: int|
                0 <= i < instances.len() ==> (
                #[trigger] instances[i]).spec_non_canonical_field() is None {
                assert(instances[instances.len() - 1].spec_non_canonical_field() is None);
                assert forall|i: int| 0 <= i < rest.len() implies (
                #[trigger] rest[i]).spec_non_canonical_field() is None by {
                    assert(instances[i].spec_non_canonical_field() is None);
                }
            }
        }
    }
}

/// Law: a proof passes the statement gate for one list of statements only, so
/// acceptance tells the caller which statements were proved.
pub proof fn law_a_proof_states_one_list(
    proof: P256CurrentAirProof,
    expected: Seq<PublicEcdsaInstance>,
    other: Seq<PublicEcdsaInstance>,
)
    requires
        statement_failure(proof.claim.public_inputs.instances@, expected) is None,
        statement_failure(proof.claim.public_inputs.instances@, other) is None,
    ensures
        same_instances(expected, other),
{
    let stated = proof.claim.public_inputs.instances@;
    assert forall|i: int| 0 <= i < expected.len() implies (#[trigger] expected[i]).spec_same(
        &other[i],
    ) by {
        assert(stated[i].spec_same(&expected[i]));
        assert(stated[i].spec_same(&other[i]));
    }
}

} // verus!
