//! Drafts of a proof: the stages that build its claim, the order of its checks,
//! and the first failure among them.
use crate::ecdsa::ecdsa_verify;
use crate::fields::{sf_zero, SecureField, M31, M31_P};
use crate::limbs::lemma_limbs_injective;
use crate::pipeline::balances::{
    range7_avoids_pole, DraftSums, P256ProofInteractionClaim, P256ProofRelations,
};
use crate::pipeline::error::{
    FakeGlvScalarHintError, FinalAddError, P256ProofError, PublicKeyCurveSliceError,
};
use crate::pipeline::public_providers::{
    misses_poles, reduced_statement, reduced_statements, statement_tuple, statement_tuples,
};
use crate::public_inputs::{PublicEcdsaInputClaim, PublicEcdsaInstance};
use crate::public_key_check::{
    built_rows, first_build_error, first_limb_error, first_row_error, PublicKeyOnCurveClaim,
    PublicKeyOnCurveError,
};
use crate::range_checks::RangeCheckRelation;
use crate::types::EcdsaVerifyInput;
use vstd::prelude::*;

verus! {

/// A trace that a stage has built: a handle on it and its number of rows.
#[derive(Clone, Copy, Debug, PartialEq, Eq, Structural)]
pub struct Artifact {
    pub id: u64,
    pub rows: u32,
    pub active_rows: u32,
}

/// Bound on the rows of one trace.
pub const MAX_TRACE_ROWS: u32 = 0x4000_0000;

/// The next trace to build, with what it is built from.
#[derive(Clone, Copy, Debug, PartialEq, Eq, Structural)]
pub enum BuildRequest {
    ScalarSetup,
    CertInputs { scalar_setup: Artifact },
    FakeGlvScalars { cert_inputs: Artifact },
    FakeGlvSelectors { fake_glv_scalars: Artifact },
    SelectorRequests { fake_glv_selectors: Artifact },
    PreparedTable {
        cert_inputs: Artifact,
        fake_glv_scalars: Artifact,
        fake_glv_selectors: Artifact,
    },
    PreparedTableEcTrace {
        cert_inputs: Artifact,
        fake_glv_scalars: Artifact,
        fake_glv_selectors: Artifact,
        prepared_table: Artifact,
    },
    FakeGlvChain {
        cert_inputs: Artifact,
        fake_glv_scalars: Artifact,
        fake_glv_selectors: Artifact,
        prepared_table: Artifact,
    },
    FakeGlvEcTrace { fake_glv_chain: Artifact },
    ProjectiveEcTrace { prepared_table_ec_trace: Artifact, fake_glv_ec_trace: Artifact },
    ProjectiveRcbAirTrace { projective_ec_trace: Artifact },
    FinalCheck { cert_inputs: Artifact, fake_glv_scalars: Artifact, fake_glv_chain: Artifact },
    FinalAdd { final_check: Artifact, fake_glv_scalars: Artifact, hinted_source_offset: u32 },
    HintedMulTrace { projective_rcb_air_trace: Artifact },
    ExtendHintedMul { hinted_mul_trace: Artifact, mul_trace: Artifact, hinted_source_offset: u32 },
    PublicKeySlice { hinted_source_offset: u32 },
    PreparedUseCounts { fake_glv_selectors: Artifact },
    PreparedTrace { prepared_table: Artifact, prepared_use_counts: Artifact },
}

/// Number of stages that build a claim.
pub const BUILD_STAGES: usize = 19;

/// Number of stages that rebuild a claim around another hint point.
pub const REBUILD_STAGES: usize = 11;

/// The outcome of a stage.
pub type StageOutcome = Result<Artifact, P256ProofError>;

/// Rows stay in the range in which offsets are computed.
pub open spec fn bounded(built: Seq<Artifact>) -> bool {
    forall|i: int| 0 <= i < built.len() ==> (#[trigger] built[i]).rows <= MAX_TRACE_ROWS
}

/// The request that follows the traces built so far.
pub open spec fn request_after(built: Seq<Artifact>) -> Option<BuildRequest> {
    let n = built.len();
    if n == 0 {
        Some(BuildRequest::ScalarSetup)
    } else if n == 1 {
        Some(BuildRequest::CertInputs { scalar_setup: built[0] })
    } else if n == 2 {
        Some(BuildRequest::FakeGlvScalars { cert_inputs: built[1] })
    } else if n == 3 {
        Some(BuildRequest::FakeGlvSelectors { fake_glv_scalars: built[2] })
    } else if n == 4 {
        Some(BuildRequest::SelectorRequests { fake_glv_selectors: built[3] })
    } else if n == 5 {
        Some(
            BuildRequest::PreparedTable {
                cert_inputs: built[1],
                fake_glv_scalars: built[2],
                fake_glv_selectors: built[3],
            },
        )
    } else if n == 6 {
        Some(
            BuildRequest::PreparedTableEcTrace {
                cert_inputs: built[1],
                fake_glv_scalars: built[2],
                fake_glv_selectors: built[3],
                prepared_table: built[5],
            },
        )
    } else if n == 7 {
        Some(
            BuildRequest::FakeGlvChain {
                cert_inputs: built[1],
                fake_glv_scalars: built[2],
                fake_glv_selectors: built[3],
                prepared_table: built[5],
            },
        )
    } else if n == 8 {
        Some(BuildRequest::FakeGlvEcTrace { fake_glv_chain: built[7] })
    } else if n == 9 {
        Some(
            BuildRequest::ProjectiveEcTrace {
                prepared_table_ec_trace: built[6],
                fake_glv_ec_trace: built[8],
            },
        )
    } else if n == 10 {
        Some(BuildRequest::ProjectiveRcbAirTrace { projective_ec_trace: built[9] })
    } else if n == 11 {
        Some(
            BuildRequest::FinalCheck {
                cert_inputs: built[1],
                fake_glv_scalars: built[2],
                fake_glv_chain: built[7],
            },
        )
    } else if n == 12 {
        Some(
            BuildRequest::FinalAdd {
                final_check: built[11],
                fake_glv_scalars: built[2],
                hinted_source_offset: built[10].rows,
            },
        )
    } else if n == 13 {
        Some(BuildRequest::HintedMulTrace { projective_rcb_air_trace: built[10] })
    } else if n == 14 {
        Some(
            BuildRequest::ExtendHintedMul {
                hinted_mul_trace: built[13],
                mul_trace: built[12],
                hinted_source_offset: built[10].rows,
            },
        )
    } else if n == 15 {
        Some(
            BuildRequest::PublicKeySlice {
                hinted_source_offset: (built[10].rows + built[12].rows) as u32,
            },
        )
    } else if n == 16 {
        Some(
            BuildRequest::ExtendHintedMul {
                hinted_mul_trace: built[14],
                mul_trace: built[15],
                hinted_source_offset: (built[10].rows + built[12].rows) as u32,
            },
        )
    } else if n == 17 {
        Some(BuildRequest::PreparedUseCounts { fake_glv_selectors: built[3] })
    } else if n == 18 {
        Some(BuildRequest::PreparedTrace { prepared_table: built[5], prepared_use_counts: built[17] })
    } else {
        None
    }
}

/// The next trace to build; nothing where all are built. The products of the
/// final addition take the source indices just past those of the ladder, and
/// the products of the public-key check those just past them.
pub fn next_request(built: &Vec<Artifact>) -> (r: Option<BuildRequest>)
    requires
        bounded(built@),
    ensures
        r == request_after(built@),
{
    let n: usize = built.len();
    if n == 0 {
        Some(BuildRequest::ScalarSetup)
    } else if n == 1 {
        Some(BuildRequest::CertInputs { scalar_setup: built[0] })
    } else if n == 2 {
        Some(BuildRequest::FakeGlvScalars { cert_inputs: built[1] })
    } else if n == 3 {
        Some(BuildRequest::FakeGlvSelectors { fake_glv_scalars: built[2] })
    } else if n == 4 {
        Some(BuildRequest::SelectorRequests { fake_glv_selectors: built[3] })
    } else if n == 5 {
        Some(
            BuildRequest::PreparedTable {
                cert_inputs: built[1],
                fake_glv_scalars: built[2],
                fake_glv_selectors: built[3],
            },
        )
    } else if n == 6 {
        Some(
            BuildRequest::PreparedTableEcTrace {
                cert_inputs: built[1],
                fake_glv_scalars: built[2],
                fake_glv_selectors: built[3],
                prepared_table: built[5],
            },
        )
    } else if n == 7 {
        Some(
            BuildRequest::FakeGlvChain {
                cert_inputs: built[1],
                fake_glv_scalars: built[2],
                fake_glv_selectors: built[3],
                prepared_table: built[5],
            },
        )
    } else if n == 8 {
        Some(BuildRequest::FakeGlvEcTrace { fake_glv_chain: built[7] })
    } else if n == 9 {
        Some(
            BuildRequest::ProjectiveEcTrace {
                prepared_table_ec_trace: built[6],
                fake_glv_ec_trace: built[8],
            },
        )
    } else if n == 10 {
        Some(BuildRequest::ProjectiveRcbAirTrace { projective_ec_trace: built[9] })
    } else if n == 11 {
        Some(
            BuildRequest::FinalCheck {
                cert_inputs: built[1],
                fake_glv_scalars: built[2],
                fake_glv_chain: built[7],
            },
        )
    } else if n == 12 {
        Some(
            BuildRequest::FinalAdd {
                final_check: built[11],
                fake_glv_scalars: built[2],
                hinted_source_offset: built[10].rows,
            },
        )
    } else if n == 13 {
        Some(BuildRequest::HintedMulTrace { projective_rcb_air_trace: built[10] })
    } else if n == 14 {
        Some(
            BuildRequest::ExtendHintedMul {
                hinted_mul_trace: built[13],
                mul_trace: built[12],
                hinted_source_offset: built[10].rows,
            },
        )
    } else if n == 15 {
        Some(
            BuildRequest::PublicKeySlice {
                hinted_source_offset: built[10].rows + built[12].rows,
            },
        )
    } else if n == 16 {
        Some(
            BuildRequest::ExtendHintedMul {
                hinted_mul_trace: built[14],
                mul_trace: built[15],
                hinted_source_offset: built[10].rows + built[12].rows,
            },
        )
    } else if n == 17 {
        Some(BuildRequest::PreparedUseCounts { fake_glv_selectors: built[3] })
    } else if n == 18 {
        Some(BuildRequest::PreparedTrace { prepared_table: built[5], prepared_use_counts: built[17] })
    } else {
        None
    }
}

/// The first error among outcomes.
pub open spec fn first_error<T>(outcomes: Seq<Result<T, P256ProofError>>) -> Option<P256ProofError>
    decreases outcomes.len(),
{
    if outcomes.len() == 0 {
        None
    } else if let Some(e) = first_error(outcomes.drop_last()) {
        Some(e)
    } else {
        match outcomes.last() {
            Ok(_) => None,
            Err(e) => Some(e),
        }
    }
}

/// The values of outcomes without an error.
pub open spec fn artifacts<T>(outcomes: Seq<Result<T, P256ProofError>>) -> Seq<T> {
    outcomes.map_values(|o: Result<T, P256ProofError>| o->Ok_0)
}

/// The first error of a prefix is that of the whole.
proof fn lemma_first_error_stays<T>(outcomes: Seq<Result<T, P256ProofError>>, n: int)
    requires
        0 <= n <= outcomes.len(),
        first_error(outcomes.take(n)) is Some,
    ensures
        first_error(outcomes) == first_error(outcomes.take(n)),
    decreases outcomes.len() - n,
{
    if n == outcomes.len() {
        assert(outcomes.take(n) =~= outcomes);
    } else {
        assert(outcomes.take(n + 1).drop_last() =~= outcomes.take(n));
        lemma_first_error_stays(outcomes, n + 1);
    }
}

/// Takes the next `n` outcomes; stops at the first error.
pub(crate) fn take_stages<T>(outcomes: &mut Vec<Result<T, P256ProofError>>, n: usize) -> (r: Result<
    Vec<T>,
    P256ProofError,
>)
    requires
        old(outcomes)@.len() >= n,
    ensures
        match first_error(old(outcomes)@.take(n as int)) {
            Some(e) => r == Err::<Vec<T>, P256ProofError>(e),
            None => r matches Ok(built) && built@ == artifacts(old(outcomes)@.take(n as int))
                && final(outcomes)@ == old(outcomes)@.skip(n as int),
        },
{
    let ghost all = outcomes@;
    let ghost wanted = all.take(n as int);
    let mut built: Vec<T> = Vec::new();
    proof {
        assert(wanted.take(0) =~= Seq::<Result<T, P256ProofError>>::empty());
        assert(all.skip(0) =~= all);
    }
    while built.len() < n
        invariant
            built@.len() <= n <= all.len(),
            all == old(outcomes)@,
            wanted == all.take(n as int),
            outcomes@ == all.skip(built@.len() as int),
            first_error(wanted.take(built@.len() as int)) is None,
            built@ == artifacts(wanted.take(built@.len() as int)),
        decreases n - built@.len(),
    {
        let ghost k = built@.len() as int;
        let ghost so_far = built@;
        proof {
            assert(wanted.take(k + 1).drop_last() =~= wanted.take(k));
            assert(wanted.take(k + 1).last() == all[k]);
            assert(all.skip(k)[0] == all[k]);
            assert(all.skip(k).remove(0) =~= all.skip(k + 1));
        }
        match outcomes.remove(0) {
            Ok(artifact) => {
                built.push(artifact);
                proof {
                    assert(built@ =~= artifacts(wanted.take(k + 1)));
                }
            },
            Err(e) => {
                proof {
                    lemma_first_error_stays(wanted, k + 1);
                }
                return Err(e);
            },
        }
    }
    proof {
        assert(wanted.take(n as int) =~= wanted);
    }
    Ok(built)
}

/// A proof's claim, before it is arranged for commitment.
#[derive(Clone, Debug)]
pub struct P256ProofClaim {
    pub public_inputs: PublicEcdsaInputClaim,
    pub public_key_check: PublicKeyOnCurveClaim,
    pub scalar_setup: Artifact,
    pub cert_inputs: Artifact,
    pub fake_glv_scalars: Artifact,
    pub fake_glv_selectors: Artifact,
    pub selector_requests: Artifact,
    pub prepared_table: Artifact,
    pub prepared_table_ec_trace: Artifact,
    pub fake_glv_chain: Artifact,
    pub fake_glv_ec_trace: Artifact,
    pub projective_ec_trace: Artifact,
    pub projective_rcb_air_trace: Artifact,
    pub hinted_mul_trace: Artifact,
    pub final_check: Artifact,
    /// The addition `S = R_1 + R_2` that binds `r`.
    pub final_add: FinalAddClaim,
    pub prepared_use_counts: Artifact,
    pub prepared_trace: Artifact,
}

/// The final addition, and where its products stand among the hinted ones.
#[derive(Clone, Copy, Debug, PartialEq, Eq, Structural)]
pub struct FinalAddClaim {
    pub mul_trace: Artifact,
    pub hinted_source_offset: u32,
}

/// The error of the public-key check, if any.
pub open spec fn key_error(instances: Seq<PublicEcdsaInstance>) -> Option<PublicKeyOnCurveError> {
    match first_build_error(instances) {
        Some(e) => Some(e),
        None => first_limb_error(instances),
    }
}

/// The final addition needs a row of the final check.
pub open spec fn no_final_row() -> P256ProofError {
    P256ProofError::FinalAdd(FinalAddError::MulTraceShape)
}

/// The public-key slice needs a row of the public-key check.
pub open spec fn no_key_row() -> P256ProofError {
    P256ProofError::PublicKeyCurveSlice(PublicKeyCurveSliceError::UnsupportedRowCount { actual: 0 })
}

/// The first failure of a build: a stage's own error, or a missing row that
/// the next stage needs.
pub open spec fn build_failure(stages: Seq<StageOutcome>, key_rows: nat) -> Option<P256ProofError> {
    if let Some(e) = first_error(stages.subrange(0, 12)) {
        Some(e)
    } else if artifacts(stages)[11].rows == 0 {
        Some(no_final_row())
    } else if let Some(e) = first_error(stages.subrange(12, 15)) {
        Some(e)
    } else if key_rows == 0 {
        Some(no_key_row())
    } else {
        first_error(stages.subrange(15, 19))
    }
}

/// The first failure of a rebuild around another hint point.
pub open spec fn rebuild_failure(stages: Seq<StageOutcome>, key_rows: nat) -> Option<
    P256ProofError,
> {
    if let Some(e) = first_error(stages.subrange(0, 8)) {
        Some(e)
    } else if key_rows == 0 {
        Some(no_key_row())
    } else {
        first_error(stages.subrange(8, 11))
    }
}

/// Every statement of the list encodes the input at its place.
pub open spec fn encodes_all(
    instances: Seq<PublicEcdsaInstance>,
    inputs: Seq<EcdsaVerifyInput>,
) -> bool {
    &&& instances.len() == inputs.len()
    &&& forall|i: int|
        0 <= i < inputs.len() ==> (#[trigger] instances[i]).sig_id.0 == i && instances[i].encodes(
            inputs[i],
        )
}

impl P256ProofClaim {
    /// The claim holds the traces of the stages.
    pub open spec fn assembles(&self, built: Seq<Artifact>) -> bool {
        &&& self.scalar_setup == built[0]
        &&& self.cert_inputs == built[1]
        &&& self.fake_glv_scalars == built[2]
        &&& self.fake_glv_selectors == built[3]
        &&& self.selector_requests == built[4]
        &&& self.prepared_table == built[5]
        &&& self.prepared_table_ec_trace == built[6]
        &&& self.fake_glv_chain == built[7]
        &&& self.fake_glv_ec_trace == built[8]
        &&& self.projective_ec_trace == built[9]
        &&& self.projective_rcb_air_trace == built[10]
        &&& self.final_check == built[11]
        &&& self.final_add.mul_trace == built[12]
        &&& self.final_add.hinted_source_offset == built[10].rows
        &&& self.hinted_mul_trace == built[16]
        &&& self.prepared_use_counts == built[17]
        &&& self.prepared_trace == built[18]
    }

    /// What a build gives for the given statements and stage outcomes.
    pub open spec fn build_result(
        r: Result<P256ProofClaim, P256ProofError>,
        public: Seq<PublicEcdsaInstance>,
        stages: Seq<StageOutcome>,
    ) -> bool {
        match key_error(public) {
            Some(e) => r == Err::<P256ProofClaim, P256ProofError>(
                P256ProofError::PublicKeyOnCurve(e),
            ),
            None => match build_failure(stages, public.len()) {
                Some(e) => r == Err::<P256ProofClaim, P256ProofError>(e),
                None => r matches Ok(claim) && claim.public_inputs.instances@ == public
                    && built_rows(claim.public_key_check.rows@, public) && claim.assembles(
                    artifacts(stages),
                ),
            },
        }
    }

    /// Builds the claim for the inputs from the outcomes of the stages, in the
    /// order of the requests. Outcomes after the first failure do not count.
    pub fn from_inputs_with_hints(inputs: &[EcdsaVerifyInput], stages: Vec<StageOutcome>) -> (r:
        Result<P256ProofClaim, P256ProofError>)
        requires
            inputs@.len() <= M31_P,
            stages@.len() == BUILD_STAGES,
        ensures
            exists|public: Seq<PublicEcdsaInstance>|
                encodes_all(public, inputs@) && #[trigger] P256ProofClaim::build_result(
                    r,
                    public,
                    stages@,
                ),
    {
        let public_inputs = PublicEcdsaInputClaim::from_inputs(inputs);
        let ghost public = public_inputs.instances@;
        let ghost all = stages@;
        assert(encodes_all(public, inputs@));
        let public_key_check = match PublicKeyOnCurveClaim::from_public_inputs(&public_inputs) {
            Ok(check) => check,
            Err(e) => {
                let r = Err(P256ProofError::from(e));
                assert(P256ProofClaim::build_result(r, public, all));
                return r;
            },
        };
        let r = P256ProofClaim::assemble(public_inputs, public_key_check, stages);
        assert(P256ProofClaim::build_result(r, public, all));
        r
    }

    /// Runs through the outcomes of the stages.
    fn assemble(
        public_inputs: PublicEcdsaInputClaim,
        public_key_check: PublicKeyOnCurveClaim,
        stages: Vec<StageOutcome>,
    ) -> (r: Result<P256ProofClaim, P256ProofError>)
        requires
            stages@.len() == BUILD_STAGES,
        ensures
            match build_failure(stages@, public_key_check.rows@.len()) {
                Some(e) => r == Err::<P256ProofClaim, P256ProofError>(e),
                None => r matches Ok(claim) && claim.public_inputs == public_inputs
                    && claim.public_key_check == public_key_check && claim.assembles(
                    artifacts(stages@),
                ),
            },
    {
        let ghost all = stages@;
        let mut rest: Vec<StageOutcome> = stages;
        proof {
            assert(all.take(12) =~= all.subrange(0, 12));
            assert(all.skip(12).take(3) =~= all.subrange(12, 15));
            assert(all.skip(12).skip(3).take(4) =~= all.subrange(15, 19));
        }
        let first: Vec<Artifact> = match take_stages(&mut rest, 12) {
            Ok(built) => built,
            Err(e) => {
                return Err(e);
            },
        };
        if first[11].rows == 0 {
            return Err(P256ProofError::FinalAdd(FinalAddError::MulTraceShape));
        }
        let second: Vec<Artifact> = match take_stages(&mut rest, 3) {
            Ok(built) => built,
            Err(e) => {
                return Err(e);
            },
        };
        if public_key_check.rows.len() == 0 {
            return Err(
                P256ProofError::PublicKeyCurveSlice(
                    PublicKeyCurveSliceError::UnsupportedRowCount { actual: 0 },
                ),
            );
        }
        let third: Vec<Artifact> = match take_stages(&mut rest, 4) {
            Ok(built) => built,
            Err(e) => {
                return Err(e);
            },
        };
        Ok(
            P256ProofClaim {
                public_inputs,
                public_key_check,
                scalar_setup: first[0],
                cert_inputs: first[1],
                fake_glv_scalars: first[2],
                fake_glv_selectors: first[3],
                selector_requests: first[4],
                prepared_table: first[5],
                prepared_table_ec_trace: first[6],
                fake_glv_chain: first[7],
                fake_glv_ec_trace: first[8],
                projective_ec_trace: first[9],
                projective_rcb_air_trace: first[10],
                hinted_mul_trace: third[1],
                final_check: first[11],
                final_add: FinalAddClaim {
                    mul_trace: second[0],
                    hinted_source_offset: first[10].rows,
                },
                prepared_use_counts: third[2],
                prepared_trace: third[3],
            },
        )
    }

    /// The request that follows the traces rebuilt so far around another hint
    /// point: everything that depends on the point is built again, the rest is
    /// taken from the base claim.
    pub open spec fn rebuild_request_after(&self, built: Seq<Artifact>) -> Option<BuildRequest> {
        let n = built.len();
        if n == 0 {
            Some(
                BuildRequest::PreparedTable {
                    cert_inputs: self.cert_inputs,
                    fake_glv_scalars: self.fake_glv_scalars,
                    fake_glv_selectors: self.fake_glv_selectors,
                },
            )
        } else if n == 1 {
            Some(
                BuildRequest::PreparedTableEcTrace {
                    cert_inputs: self.cert_inputs,
                    fake_glv_scalars: self.fake_glv_scalars,
                    fake_glv_selectors: self.fake_glv_selectors,
                    prepared_table: built[0],
                },
            )
        } else if n == 2 {
            Some(
                BuildRequest::FakeGlvChain {
                    cert_inputs: self.cert_inputs,
                    fake_glv_scalars: self.fake_glv_scalars,
                    fake_glv_selectors: self.fake_glv_selectors,
                    prepared_table: built[0],
                },
            )
        } else if n == 3 {
            Some(BuildRequest::FakeGlvEcTrace { fake_glv_chain: built[2] })
        } else if n == 4 {
            Some(
                BuildRequest::ProjectiveEcTrace {
                    prepared_table_ec_trace: built[1],
                    fake_glv_ec_trace: built[3],
                },
            )
        } else if n == 5 {
            Some(BuildRequest::ProjectiveRcbAirTrace { projective_ec_trace: built[4] })
        } else if n == 6 {
            Some(BuildRequest::HintedMulTrace { projective_rcb_air_trace: built[5] })
        } else if n == 7 {
            Some(
                BuildRequest::ExtendHintedMul {
                    hinted_mul_trace: built[6],
                    mul_trace: self.final_add.mul_trace,
                    hinted_source_offset: self.final_add.hinted_source_offset,
                },
            )
        } else if n == 8 {
            Some(
                BuildRequest::PublicKeySlice {
                    hinted_source_offset: (built[5].rows + self.final_add.mul_trace.rows) as u32,
                },
            )
        } else if n == 9 {
            Some(
                BuildRequest::ExtendHintedMul {
                    hinted_mul_trace: built[7],
                    mul_trace: built[8],
                    hinted_source_offset: (built[5].rows + self.final_add.mul_trace.rows) as u32,
                },
            )
        } else if n == 10 {
            Some(
                BuildRequest::PreparedTrace {
                    prepared_table: built[0],
                    prepared_use_counts: self.prepared_use_counts,
                },
            )
        } else {
            None
        }
    }

    /// The next trace to rebuild around another hint point.
    pub fn next_rebuild_request(&self, built: &Vec<Artifact>) -> (r: Option<BuildRequest>)
        requires
            bounded(built@),
            self.final_add.mul_trace.rows <= MAX_TRACE_ROWS,
        ensures
            r == self.rebuild_request_after(built@),
    {
        let n: usize = built.len();
        if n == 0 {
            Some(
                BuildRequest::PreparedTable {
                    cert_inputs: self.cert_inputs,
                    fake_glv_scalars: self.fake_glv_scalars,
                    fake_glv_selectors: self.fake_glv_selectors,
                },
            )
        } else if n == 1 {
            Some(
                BuildRequest::PreparedTableEcTrace {
                    cert_inputs: self.cert_inputs,
                    fake_glv_scalars: self.fake_glv_scalars,
                    fake_glv_selectors: self.fake_glv_selectors,
                    prepared_table: built[0],
                },
            )
        } else if n == 2 {
            Some(
                BuildRequest::FakeGlvChain {
                    cert_inputs: self.cert_inputs,
                    fake_glv_scalars: self.fake_glv_scalars,
                    fake_glv_selectors: self.fake_glv_selectors,
                    prepared_table: built[0],
                },
            )
        } else if n == 3 {
            Some(BuildRequest::FakeGlvEcTrace { fake_glv_chain: built[2] })
        } else if n == 4 {
            Some(
                BuildRequest::ProjectiveEcTrace {
                    prepared_table_ec_trace: built[1],
                    fake_glv_ec_trace: built[3],
                },
            )
        } else if n == 5 {
            Some(BuildRequest::ProjectiveRcbAirTrace { projective_ec_trace: built[4] })
        } else if n == 6 {
            Some(BuildRequest::HintedMulTrace { projective_rcb_air_trace: built[5] })
        } else if n == 7 {
            Some(
                BuildRequest::ExtendHintedMul {
                    hinted_mul_trace: built[6],
                    mul_trace: self.final_add.mul_trace,
                    hinted_source_offset: self.final_add.hinted_source_offset,
                },
            )
        } else if n == 8 {
            Some(
                BuildRequest::PublicKeySlice {
                    hinted_source_offset: built[5].rows + self.final_add.mul_trace.rows,
                },
            )
        } else if n == 9 {
            Some(
                BuildRequest::ExtendHintedMul {
                    hinted_mul_trace: built[7],
                    mul_trace: built[8],
                    hinted_source_offset: built[5].rows + self.final_add.mul_trace.rows,
                },
            )
        } else if n == 10 {
            Some(
                BuildRequest::PreparedTrace {
                    prepared_table: built[0],
                    prepared_use_counts: self.prepared_use_counts,
                },
            )
        } else {
            None
        }
    }

    /// The claim is the base claim, with the traces that depend on the hint
    /// point replaced by the rebuilt ones.
    pub open spec fn rebuilds(&self, base: P256ProofClaim, built: Seq<Artifact>) -> bool {
        *self == (P256ProofClaim {
            prepared_table: built[0],
            prepared_table_ec_trace: built[1],
            fake_glv_chain: built[2],
            fake_glv_ec_trace: built[3],
            projective_ec_trace: built[4],
            projective_rcb_air_trace: built[5],
            hinted_mul_trace: built[9],
            prepared_trace: built[10],
            ..base
        })
    }

    /// Rebuilds the claim around another hint point for one certificate. The
    /// final check stays that of the base claim.
    pub fn from_inputs_with_wrong_r_for_cert(base: P256ProofClaim, stages: Vec<StageOutcome>) -> (r:
        Result<P256ProofClaim, P256ProofError>)
        requires
            stages@.len() == REBUILD_STAGES,
        ensures
            match rebuild_failure(stages@, base.public_key_check.rows@.len()) {
                Some(e) => r == Err::<P256ProofClaim, P256ProofError>(e),
                None => r matches Ok(claim) && claim.rebuilds(base, artifacts(stages@)),
            },
    {
        let ghost all = stages@;
        let mut rest: Vec<StageOutcome> = stages;
        proof {
            assert(all.take(8) =~= all.subrange(0, 8));
            assert(all.skip(8).take(3) =~= all.subrange(8, 11));
        }
        let first: Vec<Artifact> = match take_stages(&mut rest, 8) {
            Ok(built) => built,
            Err(e) => {
                return Err(e);
            },
        };
        if base.public_key_check.rows.len() == 0 {
            return Err(
                P256ProofError::PublicKeyCurveSlice(
                    PublicKeyCurveSliceError::UnsupportedRowCount { actual: 0 },
                ),
            );
        }
        let second: Vec<Artifact> = match take_stages(&mut rest, 3) {
            Ok(built) => built,
            Err(e) => {
                return Err(e);
            },
        };
        Ok(
            P256ProofClaim {
                prepared_table: first[0],
                prepared_table_ec_trace: first[1],
                fake_glv_chain: first[2],
                fake_glv_ec_trace: first[3],
                projective_ec_trace: first[4],
                projective_rcb_air_trace: first[5],
                hinted_mul_trace: second[1],
                prepared_trace: second[2],
                ..base
            },
        )
    }

    /// Builds with the trivial decomposition of each certificate's scalar. The
    /// first two outcomes are those of the scalar setup and of the certificate
    /// inputs, which the hints come from.
    pub fn from_inputs_with_trivial_fake_glv_hints(
        inputs: &[EcdsaVerifyInput],
        setup: Vec<StageOutcome>,
        hints: &Vec<HintOutcome>,
        stages: Vec<StageOutcome>,
    ) -> (r: Result<P256ProofClaim, P256ProofError>)
        requires
            inputs@.len() <= M31_P,
            setup@.len() == 2,
            stages@.len() == BUILD_STAGES,
        ensures
            match hint_failure(setup@, hints@) {
                Some(e) => r == Err::<P256ProofClaim, P256ProofError>(e),
                None => exists|public: Seq<PublicEcdsaInstance>|
                    encodes_all(public, inputs@) && #[trigger] P256ProofClaim::build_result(
                        r,
                        public,
                        stages@,
                    ),
            },
    {
        match require_hints(setup, hints) {
            Ok(()) => P256ProofClaim::from_inputs_with_hints(inputs, stages),
            Err(e) => Err(e),
        }
    }

    /// Builds with the decomposition of each certificate's scalar, for any
    /// scalar below the group order.
    pub fn from_inputs_with_arbitrary_fake_glv_hints(
        inputs: &[EcdsaVerifyInput],
        setup: Vec<StageOutcome>,
        hints: &Vec<HintOutcome>,
        stages: Vec<StageOutcome>,
    ) -> (r: Result<P256ProofClaim, P256ProofError>)
        requires
            inputs@.len() <= M31_P,
            setup@.len() == 2,
            stages@.len() == BUILD_STAGES,
        ensures
            match hint_failure(setup@, hints@) {
                Some(e) => r == Err::<P256ProofClaim, P256ProofError>(e),
                None => exists|public: Seq<PublicEcdsaInstance>|
                    encodes_all(public, inputs@) && #[trigger] P256ProofClaim::build_result(
                        r,
                        public,
                        stages@,
                    ),
            },
    {
        match require_hints(setup, hints) {
            Ok(()) => P256ProofClaim::from_inputs_with_hints(inputs, stages),
            Err(e) => Err(e),
        }
    }

    /// Checks the public keys, and then takes the outcomes of the other checks
    /// in the order of `component_checks`. The error is the first one.
    pub fn verify_current_components(&self, checks: Vec<Result<(), P256ProofError>>) -> (r: Result<
        (),
        P256ProofError,
    >)
        requires
            checks@.len() == COMPONENT_CHECKS,
        ensures
            match self.component_failure(checks@) {
                Some(e) => r == Err::<(), P256ProofError>(e),
                None => r == Ok::<(), P256ProofError>(()),
            },
    {
        match self.public_key_check.verify() {
            Ok(()) => {},
            Err(e) => {
                return Err(P256ProofError::from(e));
            },
        }
        let mut rest: Vec<Result<(), P256ProofError>> = checks;
        proof {
            assert(checks@.take(COMPONENT_CHECKS as int) =~= checks@);
        }
        match take_stages(&mut rest, COMPONENT_CHECKS) {
            Ok(_) => Ok(()),
            Err(e) => Err(e),
        }
    }

    /// The first check of the claim that fails.
    pub open spec fn component_failure(&self, checks: Seq<Result<(), P256ProofError>>) -> Option<
        P256ProofError,
    > {
        match first_row_error(self.public_key_check.rows@) {
            Some(e) => Some(P256ProofError::PublicKeyOnCurve(e)),
            None => first_error(checks),
        }
    }
}

/// The outcome of decomposing one scalar.
pub type HintOutcome = Result<Artifact, FakeGlvScalarHintError>;

/// The first decomposition that fails.
pub open spec fn first_hint_error(hints: Seq<HintOutcome>) -> Option<FakeGlvScalarHintError>
    decreases hints.len(),
{
    if hints.len() == 0 {
        None
    } else if let Some(e) = first_hint_error(hints.drop_last()) {
        Some(e)
    } else {
        match hints.last() {
            Ok(_) => None,
            Err(e) => Some(e),
        }
    }
}

/// What fails before the hints are there.
pub open spec fn hint_failure(setup: Seq<StageOutcome>, hints: Seq<HintOutcome>) -> Option<
    P256ProofError,
> {
    if let Some(e) = first_error(setup) {
        Some(e)
    } else {
        match first_hint_error(hints) {
            Some(e) => Some(P256ProofError::FakeGlvScalar(e)),
            None => None,
        }
    }
}

/// The first error of a prefix is that of the whole.
proof fn lemma_hint_error_stays(hints: Seq<HintOutcome>, n: int)
    requires
        0 <= n <= hints.len(),
        first_hint_error(hints.take(n)) is Some,
    ensures
        first_hint_error(hints) == first_hint_error(hints.take(n)),
    decreases hints.len() - n,
{
    if n == hints.len() {
        assert(hints.take(n) =~= hints);
    } else {
        assert(hints.take(n + 1).drop_last() =~= hints.take(n));
        lemma_hint_error_stays(hints, n + 1);
    }
}

/// Succeeds where the setup and every decomposition did.
fn require_hints(setup: Vec<StageOutcome>, hints: &Vec<HintOutcome>) -> (r: Result<
    (),
    P256ProofError,
>)
    requires
        setup@.len() == 2,
    ensures
        match hint_failure(setup@, hints@) {
            Some(e) => r == Err::<(), P256ProofError>(e),
            None => r == Ok::<(), P256ProofError>(()),
        },
{
    let mut rest: Vec<StageOutcome> = setup;
    proof {
        assert(setup@.take(2) =~= setup@);
    }
    match take_stages(&mut rest, 2) {
        Ok(_) => {},
        Err(e) => {
            return Err(e);
        },
    }
    let mut i: usize = 0;
    proof {
        assert(hints@.take(0) =~= Seq::<HintOutcome>::empty());
    }
    while i < hints.len()
        invariant
            i <= hints@.len(),
            first_error(setup@) is None,
            first_hint_error(hints@.take(i as int)) is None,
        decreases hints@.len() - i,
    {
        proof {
            assert(hints@.take(i + 1).drop_last() =~= hints@.take(i as int));
            assert(hints@.take(i + 1).last() == hints@[i as int]);
        }
        match hints[i] {
            Ok(_) => {},
            Err(e) => {
                proof {
                    lemma_hint_error_stays(hints@, i + 1);
                }
                return Err(P256ProofError::from(e));
            },
        }
        i = i + 1;
    }
    proof {
        assert(hints@.take(i as int) =~= hints@);
    }
    Ok(())
}

/// A check of a claim, after that of its public keys.
#[derive(Clone, Copy, Debug, PartialEq, Eq, Structural)]
pub enum ComponentCheck {
    ScalarSetup,
    CertInputs,
    FakeGlvScalars,
    FakeGlvSelectors,
    SelectorRequests,
    PreparedTable,
    PreparedTableEcTrace,
    PreparedTableEcTraceAgainstTable,
    FakeGlvChain,
    FakeGlvChainAgainstClaims,
    FakeGlvEcTraceAgainstChain,
    ProjectiveEcTrace,
    ProjectiveEcTraceAgainstNativeTraces,
    ProjectiveRcbAirTraceAgainstProjectiveTrace,
    HintedMulTrace,
    FinalCheck,
    PreparedUseCounts,
    PreparedPointTrace,
}

/// Number of checks after that of the public keys.
pub const COMPONENT_CHECKS: usize = 18;

/// The checks after that of the public keys, in order.
pub open spec fn spec_component_checks() -> Seq<ComponentCheck> {
    seq![
        ComponentCheck::ScalarSetup,
        ComponentCheck::CertInputs,
        ComponentCheck::FakeGlvScalars,
        ComponentCheck::FakeGlvSelectors,
        ComponentCheck::SelectorRequests,
        ComponentCheck::PreparedTable,
        ComponentCheck::PreparedTableEcTrace,
        ComponentCheck::PreparedTableEcTraceAgainstTable,
        ComponentCheck::FakeGlvChain,
        ComponentCheck::FakeGlvChainAgainstClaims,
        ComponentCheck::FakeGlvEcTraceAgainstChain,
        ComponentCheck::ProjectiveEcTrace,
        ComponentCheck::ProjectiveEcTraceAgainstNativeTraces,
        ComponentCheck::ProjectiveRcbAirTraceAgainstProjectiveTrace,
        ComponentCheck::HintedMulTrace,
        ComponentCheck::FinalCheck,
        ComponentCheck::PreparedUseCounts,
        ComponentCheck::PreparedPointTrace,
    ]
}

/// The checks after that of the public keys, in order.
pub fn component_checks() -> (r: Vec<ComponentCheck>)
    ensures
        r@ == spec_component_checks(),
        r@.len() == COMPONENT_CHECKS,
{
    let mut checks: Vec<ComponentCheck> = Vec::new();
    checks.push(ComponentCheck::ScalarSetup);
    checks.push(ComponentCheck::CertInputs);
    checks.push(ComponentCheck::FakeGlvScalars);
    checks.push(ComponentCheck::FakeGlvSelectors);
    checks.push(ComponentCheck::SelectorRequests);
    checks.push(ComponentCheck::PreparedTable);
    checks.push(ComponentCheck::PreparedTableEcTrace);
    checks.push(ComponentCheck::PreparedTableEcTraceAgainstTable);
    checks.push(ComponentCheck::FakeGlvChain);
    checks.push(ComponentCheck::FakeGlvChainAgainstClaims);
    checks.push(ComponentCheck::FakeGlvEcTraceAgainstChain);
    checks.push(ComponentCheck::ProjectiveEcTrace);
    checks.push(ComponentCheck::ProjectiveEcTraceAgainstNativeTraces);
    checks.push(ComponentCheck::ProjectiveRcbAirTraceAgainstProjectiveTrace);
    checks.push(ComponentCheck::HintedMulTrace);
    checks.push(ComponentCheck::FinalCheck);
    checks.push(ComponentCheck::PreparedUseCounts);
    checks.push(ComponentCheck::PreparedPointTrace);
    checks
}

/// Inputs, the claim built for them, and the relations that it is balanced
/// against.
#[derive(Clone, Debug)]
pub struct P256ProofDraft {
    pub inputs: Vec<EcdsaVerifyInput>,
    pub claim: P256ProofClaim,
    pub relations: P256ProofRelations,
}

/// The index of the first input that is not a valid signature.
pub open spec fn first_invalid(inputs: Seq<EcdsaVerifyInput>) -> Option<int>
    decreases inputs.len(),
{
    if inputs.len() == 0 {
        None
    } else if let Some(index) = first_invalid(inputs.drop_last()) {
        Some(index)
    } else if !inputs.last().spec_valid() {
        Some(inputs.len() - 1)
    } else {
        None
    }
}

/// The first invalid index of a prefix is that of the whole.
proof fn lemma_first_invalid_stays(inputs: Seq<EcdsaVerifyInput>, n: int)
    requires
        0 <= n <= inputs.len(),
        first_invalid(inputs.take(n)) is Some,
    ensures
        first_invalid(inputs) == first_invalid(inputs.take(n)),
    decreases inputs.len() - n,
{
    if n == inputs.len() {
        assert(inputs.take(n) =~= inputs);
    } else {
        assert(inputs.take(n + 1).drop_last() =~= inputs.take(n));
        lemma_first_invalid_stays(inputs, n + 1);
    }
}

/// Law: no index is reported exactly where every input is a valid signature; a
/// reported index is that of an invalid input, and all inputs before it are
/// valid.
pub proof fn law_first_invalid(inputs: Seq<EcdsaVerifyInput>)
    ensures
        first_invalid(inputs) is None <==> forall|i: int|
            0 <= i < inputs.len() ==> (#[trigger] inputs[i]).spec_valid(),
        first_invalid(inputs) matches Some(index) ==> {
            &&& 0 <= index < inputs.len()
            &&& !inputs[index].spec_valid()
            &&& forall|i: int| 0 <= i < index ==> (#[trigger] inputs[i]).spec_valid()
        },
    decreases inputs.len(),
{
    if inputs.len() > 0 {
        let front = inputs.drop_last();
        law_first_invalid(front);
        assert forall|i: int| 0 <= i < front.len() implies #[trigger] inputs[i] == front[i] by {}
        assert(inputs[inputs.len() - 1] == inputs.last());
    }
}

/// Succeeds where every input is a valid signature; the error gives the index
/// of the first that is not.
pub fn require_valid_inputs(inputs: &Vec<EcdsaVerifyInput>) -> (r: Result<(), P256ProofError>)
    ensures
        match first_invalid(inputs@) {
            None => r == Ok::<(), P256ProofError>(()),
            Some(index) => 0 <= index < inputs@.len() && r == Err::<(), P256ProofError>(
                P256ProofError::InvalidNativeEcdsaInput { index: index as usize },
            ),
        },
{
    let mut i: usize = 0;
    proof {
        assert(inputs@.take(0) =~= Seq::<EcdsaVerifyInput>::empty());
    }
    while i < inputs.len()
        invariant
            i <= inputs@.len(),
            first_invalid(inputs@.take(i as int)) is None,
        decreases inputs@.len() - i,
    {
        proof {
            assert(inputs@.take(i + 1).drop_last() =~= inputs@.take(i as int));
            assert(inputs@.take(i + 1).last() == inputs@[i as int]);
        }
        if !ecdsa_verify(&inputs[i]) {
            proof {
                lemma_first_invalid_stays(inputs@, i + 1);
            }
            return Err(P256ProofError::InvalidNativeEcdsaInput { index: i });
        }
        i = i + 1;
    }
    proof {
        assert(inputs@.take(i as int) =~= inputs@);
    }
    Ok(())
}

/// The audit of a draft that fails.
pub open spec fn audit_failure(
    selector_balanced: Result<bool, P256ProofError>,
    prepared_balanced: bool,
) -> Option<P256ProofError> {
    match selector_balanced {
        Err(e) => Some(e),
        Ok(false) => Some(P256ProofError::RelationImbalance { relation: "SelectorLookupAudit" }),
        Ok(true) => if !prepared_balanced {
            Some(P256ProofError::RelationImbalance { relation: "PreparedPointAudit" })
        } else {
            None
        },
    }
}

impl P256ProofDraft {
    /// The statements and the relations are reduced, and the seven-bit relation
    /// can be evaluated at every seven-bit value.
    pub open spec fn wf(&self) -> bool {
        &&& reduced_statements(self.claim.public_inputs.instances@)
        &&& self.relations.public_inputs.wf()
        &&& self.relations.range7.wf()
        &&& range7_avoids_pole(self.relations.range7)
    }

    /// A draft of the given claim, with the relations used for sizing.
    pub fn from_claim(inputs: Vec<EcdsaVerifyInput>, claim: P256ProofClaim) -> (r: P256ProofDraft)
        ensures
            r.inputs == inputs,
            r.claim == claim,
            r.relations.is_dummy(),
            reduced_statements(claim.public_inputs.instances@) ==> r.wf(),
    {
        let relations = P256ProofRelations::dummy();
        proof {
            lemma_dummy_avoids_pole(relations.range7);
        }
        P256ProofDraft { inputs, claim, relations }
    }

    /// What a draft gives for the outcome of its claim.
    pub open spec fn draft_result(
        r: Result<P256ProofDraft, P256ProofError>,
        inputs: Vec<EcdsaVerifyInput>,
        claim: Result<P256ProofClaim, P256ProofError>,
    ) -> bool {
        match claim {
            Err(e) => r == Err::<P256ProofDraft, P256ProofError>(e),
            Ok(c) => r matches Ok(draft) && draft.inputs == inputs && draft.claim == c
                && draft.relations.is_dummy() && draft.wf(),
        }
    }

    /// What a draft gives for the outcomes of the stages.
    pub open spec fn staged_result(
        r: Result<P256ProofDraft, P256ProofError>,
        inputs: Vec<EcdsaVerifyInput>,
        stages: Seq<StageOutcome>,
    ) -> bool {
        exists|public: Seq<PublicEcdsaInstance>, claim: Result<P256ProofClaim, P256ProofError>|
            encodes_all(public, inputs@) && #[trigger] P256ProofClaim::build_result(
                claim,
                public,
                stages,
            ) && P256ProofDraft::draft_result(r, inputs, claim)
    }

    /// What a draft gives for the outcomes of the setup, of the hints and of the
    /// stages.
    pub open spec fn hinted_result(
        r: Result<P256ProofDraft, P256ProofError>,
        inputs: Vec<EcdsaVerifyInput>,
        setup: Seq<StageOutcome>,
        hints: Seq<HintOutcome>,
        stages: Seq<StageOutcome>,
    ) -> bool {
        match hint_failure(setup, hints) {
            Some(e) => r == Err::<P256ProofDraft, P256ProofError>(e),
            None => P256ProofDraft::staged_result(r, inputs, stages),
        }
    }

    /// A draft of the claim built from the outcomes of the stages.
    pub fn from_inputs_with_hints(inputs: Vec<EcdsaVerifyInput>, stages: Vec<StageOutcome>) -> (r:
        Result<P256ProofDraft, P256ProofError>)
        requires
            inputs@.len() <= M31_P,
            stages@.len() == BUILD_STAGES,
        ensures
            P256ProofDraft::staged_result(r, inputs, stages@),
    {
        let claim = P256ProofClaim::from_inputs_with_hints(inputs.as_slice(), stages);
        proof {
            lemma_built_statements_reduced(claim, inputs@, stages@);
        }
        match claim {
            Ok(claim) => Ok(P256ProofDraft::from_claim(inputs, claim)),
            Err(e) => Err(e),
        }
    }

    /// A draft built with trivial hints.
    pub fn from_inputs_with_trivial_fake_glv_hints(
        inputs: Vec<EcdsaVerifyInput>,
        setup: Vec<StageOutcome>,
        hints: &Vec<HintOutcome>,
        stages: Vec<StageOutcome>,
    ) -> (r: Result<P256ProofDraft, P256ProofError>)
        requires
            inputs@.len() <= M31_P,
            setup@.len() == 2,
            stages@.len() == BUILD_STAGES,
        ensures
            P256ProofDraft::hinted_result(r, inputs, setup@, hints@, stages@),
    {
        let claim = P256ProofClaim::from_inputs_with_trivial_fake_glv_hints(
            inputs.as_slice(),
            setup,
            hints,
            stages,
        );
        proof {
            if hint_failure(setup@, hints@) is None {
                lemma_built_statements_reduced(claim, inputs@, stages@);
            }
        }
        match claim {
            Ok(claim) => Ok(P256ProofDraft::from_claim(inputs, claim)),
            Err(e) => Err(e),
        }
    }

    /// A draft built with hints for any scalar below the group order.
    pub fn from_inputs_with_arbitrary_fake_glv_hints(
        inputs: Vec<EcdsaVerifyInput>,
        setup: Vec<StageOutcome>,
        hints: &Vec<HintOutcome>,
        stages: Vec<StageOutcome>,
    ) -> (r: Result<P256ProofDraft, P256ProofError>)
        requires
            inputs@.len() <= M31_P,
            setup@.len() == 2,
            stages@.len() == BUILD_STAGES,
        ensures
            P256ProofDraft::hinted_result(r, inputs, setup@, hints@, stages@),
    {
        let claim = P256ProofClaim::from_inputs_with_arbitrary_fake_glv_hints(
            inputs.as_slice(),
            setup,
            hints,
            stages,
        );
        proof {
            if hint_failure(setup@, hints@) is None {
                lemma_built_statements_reduced(claim, inputs@, stages@);
            }
        }
        match claim {
            Ok(claim) => Ok(P256ProofDraft::from_claim(inputs, claim)),
            Err(e) => Err(e),
        }
    }

    /// A draft with trivial hints, for inputs that are all valid signatures.
    pub fn from_verified_inputs_with_trivial_fake_glv_hints(
        inputs: Vec<EcdsaVerifyInput>,
        setup: Vec<StageOutcome>,
        hints: &Vec<HintOutcome>,
        stages: Vec<StageOutcome>,
    ) -> (r: Result<P256ProofDraft, P256ProofError>)
        requires
            inputs@.len() <= M31_P,
            setup@.len() == 2,
            stages@.len() == BUILD_STAGES,
        ensures
            match first_invalid(inputs@) {
                Some(index) => r == Err::<P256ProofDraft, P256ProofError>(
                    P256ProofError::InvalidNativeEcdsaInput { index: index as usize },
                ),
                None => P256ProofDraft::hinted_result(r, inputs, setup@, hints@, stages@),
            },
    {
        match require_valid_inputs(&inputs) {
            Ok(()) => P256ProofDraft::from_inputs_with_trivial_fake_glv_hints(
                inputs,
                setup,
                hints,
                stages,
            ),
            Err(e) => Err(e),
        }
    }

    /// No statement meets the pole of the draft's public relation.
    pub open spec fn meets_no_pole(&self) -> bool {
        misses_poles(
            self.relations.public_inputs,
            statement_tuples(self.claim.public_inputs.instances@),
        )
    }

    /// The balances of the draft, from its statements and the sums of its
    /// stages. There are none where a statement meets a pole.
    pub fn interaction_claim(&self, sums: &DraftSums) -> (r: Option<P256ProofInteractionClaim>)
        requires
            self.wf(),
            sums.wf(),
        ensures
            r is Some <==> self.meets_no_pole(),
            r matches Some(claim) ==> claim.balances(
                self.claim.public_inputs.instances@,
                sums,
                self.relations,
            ),
    {
        P256ProofInteractionClaim::from_claim(&self.claim.public_inputs, sums, &self.relations)
    }

    /// The outcomes of the two audits: the selector lookups balance, and every
    /// prepared point is used as often as it is provided.
    pub fn verify_audits(
        &self,
        selector_balanced: Result<bool, P256ProofError>,
        prepared_balanced: bool,
    ) -> (r: Result<(), P256ProofError>)
        ensures
            match audit_failure(selector_balanced, prepared_balanced) {
                Some(e) => r == Err::<(), P256ProofError>(e),
                None => r == Ok::<(), P256ProofError>(()),
            },
    {
        match selector_balanced {
            Err(e) => Err(e),
            Ok(balanced) => {
                if !balanced {
                    Err(P256ProofError::RelationImbalance { relation: "SelectorLookupAudit" })
                } else if !prepared_balanced {
                    Err(P256ProofError::RelationImbalance { relation: "PreparedPointAudit" })
                } else {
                    Ok(())
                }
            },
        }
    }

    /// Checks the components, the audits and the balances, in this order. There
    /// is no answer where the balances are reached and a statement meets a pole.
    pub fn verify_current_e2e(
        &self,
        checks: Vec<Result<(), P256ProofError>>,
        selector_balanced: Result<bool, P256ProofError>,
        prepared_balanced: bool,
        sums: &DraftSums,
    ) -> (r: Option<Result<(), P256ProofError>>)
        requires
            self.wf(),
            sums.wf(),
            checks@.len() == COMPONENT_CHECKS,
        ensures
            match self.claim.component_failure(checks@) {
                Some(e) => r == Some(Err::<(), P256ProofError>(e)),
                None => match audit_failure(selector_balanced, prepared_balanced) {
                    Some(e) => r == Some(Err::<(), P256ProofError>(e)),
                    None => if !self.meets_no_pole() {
                        r is None
                    } else {
                        exists|balances: P256ProofInteractionClaim|
                            #[trigger] balances.balances(
                                self.claim.public_inputs.instances@,
                                sums,
                                self.relations,
                            ) && r == Some(
                                match balances.spec_first_imbalance() {
                                    Some(relation) => Err::<(), P256ProofError>(
                                        P256ProofError::RelationImbalance { relation },
                                    ),
                                    None => Ok::<(), P256ProofError>(()),
                                },
                            )
                    },
                },
            },
    {
        match self.claim.verify_current_components(checks) {
            Err(e) => Some(Err(e)),
            Ok(()) => match self.verify_audits(selector_balanced, prepared_balanced) {
                Err(e) => Some(Err(e)),
                Ok(()) => match self.interaction_claim(sums) {
                    None => None,
                    Some(balances) => {
                        let r = balances.verify_balanced();
                        assert(balances.balances(
                            self.claim.public_inputs.instances@,
                            sums,
                            self.relations,
                        ));
                        Some(r)
                    },
                },
            },
        }
    }
}

/// The statements of a built claim have reduced limbs.
proof fn lemma_built_statements_reduced(
    r: Result<P256ProofClaim, P256ProofError>,
    inputs: Seq<EcdsaVerifyInput>,
    stages: Seq<StageOutcome>,
)
    requires
        inputs.len() <= M31_P,
        exists|public: Seq<PublicEcdsaInstance>|
            encodes_all(public, inputs) && #[trigger] P256ProofClaim::build_result(
                r,
                public,
                stages,
            ),
    ensures
        r matches Ok(claim) ==> reduced_statements(claim.public_inputs.instances@),
{
    let public = choose|public: Seq<PublicEcdsaInstance>|
        encodes_all(public, inputs) && #[trigger] P256ProofClaim::build_result(r, public, stages);
    lemma_encoded_statements_reduced(public, inputs);
}

/// Statements that encode inputs have reduced limbs.
pub proof fn lemma_encoded_statements_reduced(
    instances: Seq<PublicEcdsaInstance>,
    inputs: Seq<EcdsaVerifyInput>,
)
    requires
        encodes_all(instances, inputs),
        inputs.len() <= M31_P,
    ensures
        reduced_statements(instances),
{
    assert forall|i: int| 0 <= i < instances.len() implies reduced_statement(
        #[trigger] instances[i],
    ) by {
        let p = instances[i];
        let tuple = statement_tuple(p);
        assert forall|k: int| 0 <= k < tuple.len() implies (#[trigger] tuple[k]).wf() by {
            if k == 0 {
            } else if k <= 20 {
                assert(tuple[k] == p.z.limbs@[k - 1]);
            } else if k <= 40 {
                assert(tuple[k] == p.r.limbs@[k - 21]);
            } else if k <= 60 {
                assert(tuple[k] == p.s.limbs@[k - 41]);
            } else if k <= 80 {
                assert(tuple[k] == p.pub_x.limbs@[k - 61]);
            } else {
                assert(tuple[k] == p.pub_y.limbs@[k - 81]);
            }
        }
    }
}

/// The pole of the relation used for sizing is no base element.
proof fn lemma_dummy_avoids_pole(relation: RangeCheckRelation)
    requires
        relation.z == (SecureField { c0: M31(1), c1: M31(2), c2: M31(3), c3: M31(4) }),
    ensures
        range7_avoids_pole(relation),
{
    assert forall|v: int| 0 <= v < 128 implies #[trigger] relation.spec_combine(M31(v as u32))
        != sf_zero() by {
        let d = relation.spec_combine(M31(v as u32));
        reveal(crate::fields::sf_of);
        assert(d.c1.0 == M31_P - 2);
    }
}

/// Law: requests are made one by one until every stage has been asked for.
pub proof fn law_every_stage_is_requested(built: Seq<Artifact>)
    ensures
        request_after(built) is Some <==> built.len() < BUILD_STAGES,
{
}

/// Law: the products of the ladder, of the final addition and of the public-key
/// check take disjoint ranges of source indices, without a gap.
pub proof fn law_hinted_sources_are_disjoint(built: Seq<Artifact>)
    requires
        built.len() >= 17,
        bounded(built),
    ensures
        request_after(built.take(14)) == Some(
            BuildRequest::ExtendHintedMul {
                hinted_mul_trace: built[13],
                mul_trace: built[12],
                hinted_source_offset: built[10].rows,
            },
        ),
        request_after(built.take(16)) matches Some(
            BuildRequest::ExtendHintedMul { mul_trace, hinted_source_offset, .. },
        ) && mul_trace == built[15] && hinted_source_offset == built[10].rows + built[12].rows,
{
}

/// The input at a place has one encoding.
proof fn lemma_one_encoding(
    a: PublicEcdsaInstance,
    b: PublicEcdsaInstance,
    input: EcdsaVerifyInput,
)
    requires
        a.encodes(input),
        b.encodes(input),
        a.sig_id == b.sig_id,
    ensures
        a == b,
{
    lemma_limbs_injective(a.z.limbs@, b.z.limbs@);
    lemma_limbs_injective(a.r.limbs@, b.r.limbs@);
    lemma_limbs_injective(a.s.limbs@, b.s.limbs@);
    lemma_limbs_injective(a.pub_x.limbs@, b.pub_x.limbs@);
    lemma_limbs_injective(a.pub_y.limbs@, b.pub_y.limbs@);
    assert(a.z.limbs =~= b.z.limbs);
    assert(a.r.limbs =~= b.r.limbs);
    assert(a.s.limbs =~= b.s.limbs);
    assert(a.pub_x.limbs =~= b.pub_x.limbs);
    assert(a.pub_y.limbs =~= b.pub_y.limbs);
}

/// Law: the inputs and the outcomes of the stages determine a draft. Two builds
/// from the same outcomes fail alike, or give the same statements, traces and
/// relations; so the draft of checked inputs is the draft of the same inputs
/// unchecked.
pub proof fn law_outcomes_determine_the_draft(
    a: Result<P256ProofDraft, P256ProofError>,
    b: Result<P256ProofDraft, P256ProofError>,
    inputs: Vec<EcdsaVerifyInput>,
    setup: Seq<StageOutcome>,
    hints: Seq<HintOutcome>,
    stages: Seq<StageOutcome>,
)
    requires
        P256ProofDraft::hinted_result(a, inputs, setup, hints, stages),
        P256ProofDraft::hinted_result(b, inputs, setup, hints, stages),
    ensures
        match (a, b) {
            (Ok(x), Ok(y)) => {
                &&& x.inputs == y.inputs
                &&& x.relations == y.relations
                &&& x.claim.public_inputs.instances@ == y.claim.public_inputs.instances@
                &&& x.claim.assembles(artifacts(stages))
                &&& y.claim.assembles(artifacts(stages))
            },
            (Err(e), Err(f)) => e == f,
            _ => false,
        },
{
    if hint_failure(setup, hints) is None {
        let (p, c) = choose|
            public: Seq<PublicEcdsaInstance>,
            claim: Result<P256ProofClaim, P256ProofError>,
        |
            encodes_all(public, inputs@) && #[trigger] P256ProofClaim::build_result(
                claim,
                public,
                stages,
            ) && P256ProofDraft::draft_result(a, inputs, claim);
        let (q, d) = choose|
            public: Seq<PublicEcdsaInstance>,
            claim: Result<P256ProofClaim, P256ProofError>,
        |
            encodes_all(public, inputs@) && #[trigger] P256ProofClaim::build_result(
                claim,
                public,
                stages,
            ) && P256ProofDraft::draft_result(b, inputs, claim);
        assert forall|i: int| 0 <= i < p.len() implies p[i] == q[i] by {
            lemma_one_encoding(p[i], q[i], inputs@[i]);
        }
        assert(p =~= q);
        if let (Ok(x), Ok(y)) = (a, b) {
            assert(x.relations.range7 == y.relations.range7);
            assert(x.relations.projective_rcb == y.relations.projective_rcb);
        }
    }
}

} // verus!
