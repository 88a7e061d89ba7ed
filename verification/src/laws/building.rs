//! How a claim is built from the outcomes of its stages.
use crate::ecdsa::valid_public_key;
use crate::pipeline::draft::{
    artifacts, bounded, build_failure, encodes_all, first_error, first_hint_error, hint_failure,
    key_error, no_final_row, no_key_row, rebuild_failure, request_after, spec_component_checks,
    Artifact, BuildRequest, ComponentCheck, HintOutcome, P256ProofClaim, P256ProofDraft,
    StageOutcome,
};
use crate::pipeline::error::P256ProofError;
use crate::public_inputs::PublicEcdsaInstance;
use crate::public_key_check::{
    built_from, first_build_error, first_limb_error, first_row_error, law_claim_iff_keys_on_curve,
};
use crate::types::EcdsaVerifyInput;
use vstd::prelude::*;

verus! {

/// Law: each trace of a built claim is the outcome of the stage whose request asked
/// for it, and what a request is built from are the traces that the claim holds
/// under those names. The products of the final addition are numbered past those of
/// the ladder, those of the public-key check past both, and both extend the hinted
/// products in turn.
pub proof fn law_traces_are_the_outcomes_of_their_stages(
    claim: P256ProofClaim,
    built: Seq<Artifact>,
)
    requires
        claim.assembles(built),
        bounded(built),
        built.len() == 19,
    ensures
        request_after(built.take(0)) == Some(BuildRequest::ScalarSetup),
        claim.scalar_setup == built[0],
        request_after(built.take(1)) == Some(
            BuildRequest::CertInputs { scalar_setup: claim.scalar_setup },
        ),
        claim.cert_inputs == built[1],
        request_after(built.take(2)) == Some(
            BuildRequest::FakeGlvScalars { cert_inputs: claim.cert_inputs },
        ),
        claim.fake_glv_scalars == built[2],
        request_after(built.take(3)) == Some(
            BuildRequest::FakeGlvSelectors { fake_glv_scalars: claim.fake_glv_scalars },
        ),
        claim.fake_glv_selectors == built[3],
        request_after(built.take(4)) == Some(
            BuildRequest::SelectorRequests { fake_glv_selectors: claim.fake_glv_selectors },
        ),
        claim.selector_requests == built[4],
        request_after(built.take(5)) == Some(
            BuildRequest::PreparedTable {
                cert_inputs: claim.cert_inputs,
                fake_glv_scalars: claim.fake_glv_scalars,
                fake_glv_selectors: claim.fake_glv_selectors,
            },
        ),
        claim.prepared_table == built[5],
        request_after(built.take(6)) == Some(
            BuildRequest::PreparedTableEcTrace {
                cert_inputs: claim.cert_inputs,
                fake_glv_scalars: claim.fake_glv_scalars,
                fake_glv_selectors: claim.fake_glv_selectors,
                prepared_table: claim.prepared_table,
            },
        ),
        claim.prepared_table_ec_trace == built[6],
        request_after(built.take(7)) == Some(
            BuildRequest::FakeGlvChain {
                cert_inputs: claim.cert_inputs,
                fake_glv_scalars: claim.fake_glv_scalars,
                fake_glv_selectors: claim.fake_glv_selectors,
                prepared_table: claim.prepared_table,
            },
        ),
        claim.fake_glv_chain == built[7],
        request_after(built.take(8)) == Some(
            BuildRequest::FakeGlvEcTrace { fake_glv_chain: claim.fake_glv_chain },
        ),
        claim.fake_glv_ec_trace == built[8],
        request_after(built.take(9)) == Some(
            BuildRequest::ProjectiveEcTrace {
                prepared_table_ec_trace: claim.prepared_table_ec_trace,
                fake_glv_ec_trace: claim.fake_glv_ec_trace,
            },
        ),
        claim.projective_ec_trace == built[9],
        request_after(built.take(10)) == Some(
            BuildRequest::ProjectiveRcbAirTrace { projective_ec_trace: claim.projective_ec_trace },
        ),
        claim.projective_rcb_air_trace == built[10],
        request_after(built.take(11)) == Some(
            BuildRequest::FinalCheck {
                cert_inputs: claim.cert_inputs,
                fake_glv_scalars: claim.fake_glv_scalars,
                fake_glv_chain: claim.fake_glv_chain,
            },
        ),
        claim.final_check == built[11],
        request_after(built.take(12)) == Some(
            BuildRequest::FinalAdd {
                final_check: claim.final_check,
                fake_glv_scalars: claim.fake_glv_scalars,
                hinted_source_offset: claim.projective_rcb_air_trace.rows,
            },
        ),
        claim.final_add.mul_trace == built[12],
        claim.final_add.hinted_source_offset == claim.projective_rcb_air_trace.rows,
        request_after(built.take(13)) == Some(
            BuildRequest::HintedMulTrace {
                projective_rcb_air_trace: claim.projective_rcb_air_trace,
            },
        ),
        request_after(built.take(14)) == Some(
            BuildRequest::ExtendHintedMul {
                hinted_mul_trace: built[13],
                mul_trace: claim.final_add.mul_trace,
                hinted_source_offset: claim.final_add.hinted_source_offset,
            },
        ),
        request_after(built.take(15)) matches Some(
            BuildRequest::PublicKeySlice { hinted_source_offset },
        ) && hinted_source_offset == claim.final_add.hinted_source_offset
            + claim.final_add.mul_trace.rows,
        request_after(built.take(16)) matches Some(
            BuildRequest::ExtendHintedMul { hinted_mul_trace, mul_trace, hinted_source_offset },
        ) && hinted_mul_trace == built[14] && mul_trace == built[15] && hinted_source_offset
            == claim.final_add.hinted_source_offset + claim.final_add.mul_trace.rows,
        claim.hinted_mul_trace == built[16],
        request_after(built.take(17)) == Some(
            BuildRequest::PreparedUseCounts { fake_glv_selectors: claim.fake_glv_selectors },
        ),
        claim.prepared_use_counts == built[17],
        request_after(built.take(18)) == Some(
            BuildRequest::PreparedTrace {
                prepared_table: claim.prepared_table,
                prepared_use_counts: claim.prepared_use_counts,
            },
        ),
        claim.prepared_trace == built[18],
        request_after(built) is None,
{
    assert(built[10].rows <= crate::pipeline::draft::MAX_TRACE_ROWS);
    assert(built[12].rows <= crate::pipeline::draft::MAX_TRACE_ROWS);
}

/// Law: a rebuilt claim holds the outcomes of its own requests, which are built from
/// each other and from those traces of the base claim that do not depend on the hint
/// point; the statements, the checks and the final addition stay.
pub proof fn law_rebuilt_traces_are_the_outcomes_of_their_stages(
    claim: P256ProofClaim,
    base: P256ProofClaim,
    built: Seq<Artifact>,
)
    requires
        claim.rebuilds(base, built),
        bounded(built),
        base.final_add.mul_trace.rows <= crate::pipeline::draft::MAX_TRACE_ROWS,
        built.len() == 11,
    ensures
        claim.public_inputs == base.public_inputs,
        claim.public_key_check == base.public_key_check,
        claim.scalar_setup == base.scalar_setup,
        claim.cert_inputs == base.cert_inputs,
        claim.fake_glv_scalars == base.fake_glv_scalars,
        claim.fake_glv_selectors == base.fake_glv_selectors,
        claim.selector_requests == base.selector_requests,
        claim.final_check == base.final_check,
        claim.final_add == base.final_add,
        claim.prepared_use_counts == base.prepared_use_counts,
        base.rebuild_request_after(built.take(0)) == Some(
            BuildRequest::PreparedTable {
                cert_inputs: claim.cert_inputs,
                fake_glv_scalars: claim.fake_glv_scalars,
                fake_glv_selectors: claim.fake_glv_selectors,
            },
        ),
        claim.prepared_table == built[0],
        base.rebuild_request_after(built.take(1)) == Some(
            BuildRequest::PreparedTableEcTrace {
                cert_inputs: claim.cert_inputs,
                fake_glv_scalars: claim.fake_glv_scalars,
                fake_glv_selectors: claim.fake_glv_selectors,
                prepared_table: claim.prepared_table,
            },
        ),
        claim.prepared_table_ec_trace == built[1],
        base.rebuild_request_after(built.take(2)) == Some(
            BuildRequest::FakeGlvChain {
                cert_inputs: claim.cert_inputs,
                fake_glv_scalars: claim.fake_glv_scalars,
                fake_glv_selectors: claim.fake_glv_selectors,
                prepared_table: claim.prepared_table,
            },
        ),
        claim.fake_glv_chain == built[2],
        base.rebuild_request_after(built.take(3)) == Some(
            BuildRequest::FakeGlvEcTrace { fake_glv_chain: claim.fake_glv_chain },
        ),
        claim.fake_glv_ec_trace == built[3],
        base.rebuild_request_after(built.take(4)) == Some(
            BuildRequest::ProjectiveEcTrace {
                prepared_table_ec_trace: claim.prepared_table_ec_trace,
                fake_glv_ec_trace: claim.fake_glv_ec_trace,
            },
        ),
        claim.projective_ec_trace == built[4],
        base.rebuild_request_after(built.take(5)) == Some(
            BuildRequest::ProjectiveRcbAirTrace { projective_ec_trace: claim.projective_ec_trace },
        ),
        claim.projective_rcb_air_trace == built[5],
        base.rebuild_request_after(built.take(6)) == Some(
            BuildRequest::HintedMulTrace {
                projective_rcb_air_trace: claim.projective_rcb_air_trace,
            },
        ),
        base.rebuild_request_after(built.take(7)) == Some(
            BuildRequest::ExtendHintedMul {
                hinted_mul_trace: built[6],
                mul_trace: claim.final_add.mul_trace,
                hinted_source_offset: claim.final_add.hinted_source_offset,
            },
        ),
        base.rebuild_request_after(built.take(8)) matches Some(
            BuildRequest::PublicKeySlice { hinted_source_offset },
        ) && hinted_source_offset == claim.projective_rcb_air_trace.rows
            + claim.final_add.mul_trace.rows,
        base.rebuild_request_after(built.take(9)) matches Some(
            BuildRequest::ExtendHintedMul { hinted_mul_trace, mul_trace, hinted_source_offset },
        ) && hinted_mul_trace == built[7] && mul_trace == built[8] && hinted_source_offset
            == claim.projective_rcb_air_trace.rows + claim.final_add.mul_trace.rows,
        claim.hinted_mul_trace == built[9],
        base.rebuild_request_after(built.take(10)) == Some(
            BuildRequest::PreparedTrace {
                prepared_table: claim.prepared_table,
                prepared_use_counts: claim.prepared_use_counts,
            },
        ),
        claim.prepared_trace == built[10],
        base.rebuild_request_after(built) is None,
{
    assert(built[5].rows <= crate::pipeline::draft::MAX_TRACE_ROWS);
}

/// Law: no error is reported exactly where every outcome is a success; a reported
/// error is that of an outcome that no failure precedes.
pub proof fn law_first_error<T>(outcomes: Seq<Result<T, P256ProofError>>)
    ensures
        first_error(outcomes) is None <==> forall|i: int|
            0 <= i < outcomes.len() ==> (#[trigger] outcomes[i]) is Ok,
        first_error(outcomes) matches Some(e) ==> exists|k: int|
            0 <= k < outcomes.len() && #[trigger] outcomes[k] == Err::<T, P256ProofError>(e)
                && forall|i: int| 0 <= i < k ==> (#[trigger] outcomes[i]) is Ok,
        first_error(outcomes) is None ==> artifacts(outcomes).len() == outcomes.len() && forall|
            i: int,
        |
            0 <= i < outcomes.len() ==> outcomes[i] == Ok::<T, P256ProofError>(
                #[trigger] artifacts(outcomes)[i],
            ),
    decreases outcomes.len(),
{
    if outcomes.len() > 0 {
        let front = outcomes.drop_last();
        law_first_error(front);
        assert forall|i: int| 0 <= i < front.len() implies #[trigger] outcomes[i] == front[i] by {}
        let n = outcomes.len() - 1;
        assert(outcomes[n] == outcomes.last());
        if let Some(e) = first_error(front) {
            let k = choose|k: int|
                0 <= k < front.len() && #[trigger] front[k] == Err::<T, P256ProofError>(e)
                    && forall|i: int| 0 <= i < k ==> (#[trigger] front[i]) is Ok;
            assert(outcomes[k] == Err::<T, P256ProofError>(e));
            assert forall|i: int| 0 <= i < k implies (#[trigger] outcomes[i]) is Ok by {
                assert(front[i] is Ok);
            }
        } else {
            assert forall|i: int| 0 <= i < n implies (#[trigger] outcomes[i]) is Ok by {
                assert(front[i] is Ok);
            }
        }
    }
}

/// Law: a failed decomposition is reported exactly where there is one, and it is the
/// first.
pub proof fn law_first_hint_error(hints: Seq<HintOutcome>)
    ensures
        first_hint_error(hints) is None <==> forall|i: int|
            0 <= i < hints.len() ==> (#[trigger] hints[i]) is Ok,
        first_hint_error(hints) matches Some(e) ==> exists|k: int|
            0 <= k < hints.len() && #[trigger] hints[k] == (HintOutcome::Err(e)) && forall|i: int|
                0 <= i < k ==> (#[trigger] hints[i]) is Ok,
    decreases hints.len(),
{
    if hints.len() > 0 {
        let front = hints.drop_last();
        law_first_hint_error(front);
        assert forall|i: int| 0 <= i < front.len() implies #[trigger] hints[i] == front[i] by {}
        let n = hints.len() - 1;
        assert(hints[n] == hints.last());
        if let Some(e) = first_hint_error(front) {
            let k = choose|k: int|
                0 <= k < front.len() && #[trigger] front[k] == (HintOutcome::Err(e)) && forall|
                    i: int,
                |
                    0 <= i < k ==> (#[trigger] front[i]) is Ok;
            assert(hints[k] == (HintOutcome::Err(e)));
            assert forall|i: int| 0 <= i < k implies (#[trigger] hints[i]) is Ok by {
                assert(front[i] is Ok);
            }
        } else {
            assert forall|i: int| 0 <= i < n implies (#[trigger] hints[i]) is Ok by {
                assert(front[i] is Ok);
            }
        }
    }
}

/// Law: a build succeeds exactly where every stage does, the final check has a row
/// and there is a public key. It fails with the error of the first stage that fails;
/// a missing row of the final check is found right before the final addition, and a
/// missing key right before the public-key slice.
pub proof fn law_build_failure(stages: Seq<StageOutcome>, key_rows: nat, k: int)
    requires
        stages.len() == 19,
        0 <= k <= 19,
        forall|i: int| 0 <= i < k ==> (#[trigger] stages[i]) is Ok,
        k < 19 ==> stages[k] is Err,
    ensures
        k < 12 ==> build_failure(stages, key_rows) == Some(stages[k]->Err_0),
        k >= 12 && stages[11]->Ok_0.rows == 0 ==> build_failure(stages, key_rows) == Some(
            no_final_row(),
        ),
        12 <= k < 15 && stages[11]->Ok_0.rows > 0 ==> build_failure(stages, key_rows) == Some(
            stages[k]->Err_0,
        ),
        k >= 15 && stages[11]->Ok_0.rows > 0 && key_rows == 0 ==> build_failure(stages, key_rows)
            == Some(no_key_row()),
        15 <= k < 19 && stages[11]->Ok_0.rows > 0 && key_rows > 0 ==> build_failure(
            stages,
            key_rows,
        ) == Some(stages[k]->Err_0),
        k == 19 && stages[11]->Ok_0.rows > 0 && key_rows > 0 ==> build_failure(
            stages,
            key_rows,
        ) is None,
{
    lemma_error_of_run(stages, 0, 12, k);
    lemma_error_of_run(stages, 12, 15, k);
    lemma_error_of_run(stages, 15, 19, k);
}

/// Law: a rebuild succeeds exactly where every stage does and there is a public key;
/// a missing key is found right before the public-key slice.
pub proof fn law_rebuild_failure(stages: Seq<StageOutcome>, key_rows: nat, k: int)
    requires
        stages.len() == 11,
        0 <= k <= 11,
        forall|i: int| 0 <= i < k ==> (#[trigger] stages[i]) is Ok,
        k < 11 ==> stages[k] is Err,
    ensures
        k < 8 ==> rebuild_failure(stages, key_rows) == Some(stages[k]->Err_0),
        k >= 8 && key_rows == 0 ==> rebuild_failure(stages, key_rows) == Some(no_key_row()),
        8 <= k < 11 && key_rows > 0 ==> rebuild_failure(stages, key_rows) == Some(
            stages[k]->Err_0,
        ),
        k == 11 && key_rows > 0 ==> rebuild_failure(stages, key_rows) is None,
{
    lemma_error_of_run(stages, 0, 8, k);
    lemma_error_of_run(stages, 8, 11, k);
}

/// The first error of a run of stages, where the first failure of all is known.
proof fn lemma_error_of_run(stages: Seq<StageOutcome>, from: int, to: int, k: int)
    requires
        0 <= from <= to <= stages.len(),
        0 <= k <= stages.len(),
        forall|i: int| 0 <= i < k ==> (#[trigger] stages[i]) is Ok,
        k < stages.len() ==> stages[k] is Err,
    ensures
        k >= to ==> first_error(stages.subrange(from, to)) is None,
        from <= k < to ==> first_error(stages.subrange(from, to)) == Some(stages[k]->Err_0),
{
    let run = stages.subrange(from, to);
    law_first_error(run);
    assert forall|i: int| 0 <= i < run.len() implies #[trigger] run[i] == stages[from + i] by {}
    if from <= k < to {
        assert(run[k - from] is Err);
        let e = first_error(run)->0;
        let j = choose|j: int|
            0 <= j < run.len() && #[trigger] run[j] == Err::<Artifact, P256ProofError>(e)
                && forall|i: int| 0 <= i < j ==> (#[trigger] run[i]) is Ok;
        if j > k - from {
            assert(run[k - from] is Ok);
        }
        if j < k - from {
            assert(stages[from + j] is Ok);
        }
    }
}

/// Law: hints fail with the setup's own error first, and then with the first failed
/// decomposition; they are there exactly where all of these succeed.
pub proof fn law_hint_failure(setup: Seq<StageOutcome>, hints: Seq<HintOutcome>)
    ensures
        hint_failure(setup, hints) is None <==> (forall|i: int|
            0 <= i < setup.len() ==> (#[trigger] setup[i]) is Ok) && (forall|i: int|
            0 <= i < hints.len() ==> (#[trigger] hints[i]) is Ok),
        first_error(setup) matches Some(e) ==> hint_failure(setup, hints) == Some(e),
        first_error(setup) is None ==> match first_hint_error(hints) {
            Some(e) => hint_failure(setup, hints) == Some(P256ProofError::FakeGlvScalar(e)),
            None => hint_failure(setup, hints) is None,
        },
{
    law_first_error(setup);
    law_first_hint_error(hints);
}

/// Law: every check of a claim has one place: the traces in the order in which they
/// are built, each before what compares it with others.
pub proof fn law_every_check_has_one_place(check: ComponentCheck)
    ensures
        spec_component_checks().len() == 18,
        spec_component_checks()[match check {
            ComponentCheck::ScalarSetup => 0,
            ComponentCheck::CertInputs => 1,
            ComponentCheck::FakeGlvScalars => 2,
            ComponentCheck::FakeGlvSelectors => 3,
            ComponentCheck::SelectorRequests => 4,
            ComponentCheck::PreparedTable => 5,
            ComponentCheck::PreparedTableEcTrace => 6,
            ComponentCheck::PreparedTableEcTraceAgainstTable => 7,
            ComponentCheck::FakeGlvChain => 8,
            ComponentCheck::FakeGlvChainAgainstClaims => 9,
            ComponentCheck::FakeGlvEcTraceAgainstChain => 10,
            ComponentCheck::ProjectiveEcTrace => 11,
            ComponentCheck::ProjectiveEcTraceAgainstNativeTraces => 12,
            ComponentCheck::ProjectiveRcbAirTraceAgainstProjectiveTrace => 13,
            ComponentCheck::HintedMulTrace => 14,
            ComponentCheck::FinalCheck => 15,
            ComponentCheck::PreparedUseCounts => 16,
            ComponentCheck::PreparedPointTrace => 17int,
        }] == check,
        forall|i: int, j: int|
            0 <= i < j < 18 ==> #[trigger] spec_component_checks()[i]
                != #[trigger] spec_component_checks()[j],
{
}

/// Law: a claim that was built states its inputs, in order: statement number `i` encodes
/// input `i`, and its public key is a point of the curve, whose check is row `i`. Every
/// stage has succeeded, and the claim holds their outcomes.
pub proof fn law_built_claim_states_its_inputs(
    claim: P256ProofClaim,
    public: Seq<PublicEcdsaInstance>,
    inputs: Seq<EcdsaVerifyInput>,
    stages: Seq<StageOutcome>,
    i: int,
)
    requires
        encodes_all(public, inputs),
        P256ProofClaim::build_result(Ok(claim), public, stages),
        stages.len() == 19,
        0 <= i < inputs.len(),
    ensures
        claim.public_inputs.instances@.len() == inputs.len(),
        claim.public_inputs.instances@[i].sig_id.0 == i,
        claim.public_inputs.instances@[i].encodes(inputs[i]),
        valid_public_key(inputs[i].public_key.spec_xy()),
        claim.public_key_check.rows@.len() == inputs.len(),
        claim.public_key_check.rows@[i].sig_id.0 == i,
        claim.public_key_check.rows@[i].x.spec_value() == inputs[i].public_key.x.spec_value(),
        claim.public_key_check.rows@[i].y.spec_value() == inputs[i].public_key.y.spec_value(),
        forall|k: int| 0 <= k < 19 ==> (#[trigger] stages[k]) is Ok,
        claim.final_check.rows > 0,
        claim.scalar_setup == stages[0]->Ok_0,
        claim.prepared_trace == stages[18]->Ok_0,
{
    assert forall|k: int| 0 <= k < public.len() implies (#[trigger] public[k]).pub_x.canonical()
        && public[k].pub_y.canonical() by {
        assert(public[k].encodes(inputs[k]));
    }
    law_claim_iff_keys_on_curve(public);
    assert(public[i].encodes(inputs[i]));
    assert(built_from(claim.public_key_check.rows@[i], public[i]));
    if exists|k: int| 0 <= k < 19 && (#[trigger] stages[k]) is Err {
        let k = choose|k: int| 0 <= k < 19 && (#[trigger] stages[k]) is Err;
        law_first_error(stages);
        let e = first_error(stages)->0;
        let j = choose|j: int|
            0 <= j < stages.len() && #[trigger] stages[j] == Err::<Artifact, P256ProofError>(e)
                && forall|m: int| 0 <= m < j ==> (#[trigger] stages[m]) is Ok;
        law_build_failure(stages, public.len(), j);
    } else {
        assert forall|k: int| 0 <= k < 19 implies (#[trigger] stages[k]) is Ok by {
            assert(!(stages[k] is Err));
        }
        law_build_failure(stages, public.len(), 19);
        law_first_error(stages);
        assert(artifacts(stages)[11] == stages[11]->Ok_0);
    }
}

/// Law: the public keys of a claim are checked first, and then the other checks in order;
/// the claim passes exactly where none fails.
pub proof fn law_component_failure(claim: P256ProofClaim, checks: Seq<Result<(), P256ProofError>>)
    ensures
        claim.component_failure(checks) is None <==> first_row_error(
            claim.public_key_check.rows@,
        ) is None && forall|i: int| 0 <= i < checks.len() ==> (#[trigger] checks[i]) is Ok,
        first_row_error(claim.public_key_check.rows@) matches Some(e)
            ==> claim.component_failure(checks) == Some(P256ProofError::PublicKeyOnCurve(e)),
        first_row_error(claim.public_key_check.rows@) is None ==> claim.component_failure(checks)
            == first_error(checks),
{
    law_first_error(checks);
}

/// Law: of the statements of a claim, one for which no row can be built is reported before
/// one whose limbs are not digits.
pub proof fn law_key_error(public: Seq<PublicEcdsaInstance>)
    ensures
        first_build_error(public) matches Some(e) ==> key_error(public) == Some(e),
        first_build_error(public) is None ==> key_error(public) == first_limb_error(public),
{
}

/// Law: a draft holds the inputs that it was made for and the claim that was built for them,
/// and nothing else can fail it than the setup, the hints and the build, in this order.
pub proof fn law_draft_of_inputs(
    r: Result<P256ProofDraft, P256ProofError>,
    inputs: Vec<EcdsaVerifyInput>,
    setup: Seq<StageOutcome>,
    hints: Seq<HintOutcome>,
    stages: Seq<StageOutcome>,
)
    requires
        P256ProofDraft::hinted_result(r, inputs, setup, hints, stages),
        stages.len() == 19,
    ensures
        first_error(setup) matches Some(e) ==> r == Err::<P256ProofDraft, P256ProofError>(e),
        first_error(setup) is None && first_hint_error(hints) is Some ==> r == Err::<
            P256ProofDraft,
            P256ProofError,
        >(P256ProofError::FakeGlvScalar(first_hint_error(hints)->0)),
        r matches Ok(draft) ==> {
            &&& draft.inputs@ == inputs@
            &&& draft.relations.is_dummy()
            &&& draft.claim.public_inputs.instances@.len() == inputs@.len()
            &&& draft.claim.assembles(artifacts(stages))
            &&& forall|i: int|
                0 <= i < inputs@.len() ==> {
                    &&& (#[trigger] draft.claim.public_inputs.instances@[i]).encodes(inputs@[i])
                    &&& draft.claim.public_inputs.instances@[i].sig_id.0 == i
                    &&& valid_public_key(inputs@[i].public_key.spec_xy())
                }
        },
{
    if hint_failure(setup, hints) is None && r is Ok {
        let (p, c) = choose|
            public: Seq<PublicEcdsaInstance>,
            claim: Result<P256ProofClaim, P256ProofError>,
        |
            encodes_all(public, inputs@) && #[trigger] P256ProofClaim::build_result(
                claim,
                public,
                stages,
            ) && P256ProofDraft::draft_result(r, inputs, claim);
        let draft = r->Ok_0;
        assert(c == Ok::<P256ProofClaim, P256ProofError>(draft.claim));
        assert forall|i: int| 0 <= i < inputs@.len() implies {
            &&& (#[trigger] draft.claim.public_inputs.instances@[i]).encodes(inputs@[i])
            &&& draft.claim.public_inputs.instances@[i].sig_id.0 == i
            &&& valid_public_key(inputs@[i].public_key.spec_xy())
        } by {
            law_built_claim_states_its_inputs(draft.claim, p, inputs@, stages, i);
        }
    }
}

} // verus!
