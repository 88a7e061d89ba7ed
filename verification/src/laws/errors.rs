//! Errors of the stages keep their kind.
use crate::fp_solinas::FpSolinasError;
use crate::pipeline::error::{
    CertScalarInputError, FakeGlvChainError, FakeGlvScalarHintError, FakeGlvSelectorError,
    FinalAddError, FinalEcdsaCheckError, HintedMulWitnessError, P256ProofError, PreparedPointError,
    PreparedTableError, ProjectiveEcError, ProjectiveRcbAirError, PublicKeyCurveSliceError,
    ScalarModMulTraceError, ScalarSetupClaimError, SelectorLookupError,
};
use crate::public_key_check::PublicKeyOnCurveError;
use vstd::prelude::*;
use vstd::std_specs::convert::FromSpec;

verus! {

/// Law: the error of a stage becomes a proof error of that stage, and can be read back from
/// it.
pub proof fn law_errors_keep_their_stage(
    scalar_setup: ScalarSetupClaimError,
    cert_scalar_input: CertScalarInputError,
    fake_glv_chain: FakeGlvChainError,
    fake_glv_scalar: FakeGlvScalarHintError,
    fake_glv_selector: FakeGlvSelectorError,
    final_ecdsa_check: FinalEcdsaCheckError,
    final_add: FinalAddError,
    selector_lookup: SelectorLookupError,
    prepared_point: PreparedPointError,
    prepared_table: PreparedTableError,
    projective_ec: ProjectiveEcError,
    projective_rcb_air: ProjectiveRcbAirError,
    hinted_mul: HintedMulWitnessError,
    public_key_curve_slice: PublicKeyCurveSliceError,
    scalar_mod_mul_trace: ScalarModMulTraceError,
    public_key_on_curve: PublicKeyOnCurveError,
    fp_solinas: FpSolinasError,
)
    ensures
        <P256ProofError as FromSpec<ScalarSetupClaimError>>::from_spec(
            scalar_setup,
        ) == P256ProofError::ScalarSetup(scalar_setup),
        <P256ProofError as FromSpec<CertScalarInputError>>::from_spec(
            cert_scalar_input,
        ) == P256ProofError::CertScalarInput(cert_scalar_input),
        <P256ProofError as FromSpec<FakeGlvChainError>>::from_spec(
            fake_glv_chain,
        ) == P256ProofError::FakeGlvChain(fake_glv_chain),
        <P256ProofError as FromSpec<FakeGlvScalarHintError>>::from_spec(
            fake_glv_scalar,
        ) == P256ProofError::FakeGlvScalar(fake_glv_scalar),
        <P256ProofError as FromSpec<FakeGlvSelectorError>>::from_spec(
            fake_glv_selector,
        ) == P256ProofError::FakeGlvSelector(fake_glv_selector),
        <P256ProofError as FromSpec<FinalEcdsaCheckError>>::from_spec(
            final_ecdsa_check,
        ) == P256ProofError::FinalEcdsaCheck(final_ecdsa_check),
        <P256ProofError as FromSpec<FinalAddError>>::from_spec(final_add) == P256ProofError::FinalAdd(final_add),
        <P256ProofError as FromSpec<SelectorLookupError>>::from_spec(
            selector_lookup,
        ) == P256ProofError::SelectorLookup(selector_lookup),
        <P256ProofError as FromSpec<PreparedPointError>>::from_spec(
            prepared_point,
        ) == P256ProofError::PreparedPoint(prepared_point),
        <P256ProofError as FromSpec<PreparedTableError>>::from_spec(
            prepared_table,
        ) == P256ProofError::PreparedTable(prepared_table),
        <P256ProofError as FromSpec<ProjectiveEcError>>::from_spec(
            projective_ec,
        ) == P256ProofError::ProjectiveEc(projective_ec),
        <P256ProofError as FromSpec<ProjectiveRcbAirError>>::from_spec(
            projective_rcb_air,
        ) == P256ProofError::ProjectiveRcbAir(projective_rcb_air),
        <P256ProofError as FromSpec<HintedMulWitnessError>>::from_spec(hinted_mul) == P256ProofError::HintedMul(hinted_mul),
        <P256ProofError as FromSpec<PublicKeyCurveSliceError>>::from_spec(
            public_key_curve_slice,
        ) == P256ProofError::PublicKeyCurveSlice(public_key_curve_slice),
        <P256ProofError as FromSpec<ScalarModMulTraceError>>::from_spec(
            scalar_mod_mul_trace,
        ) == P256ProofError::ScalarModMulTrace(scalar_mod_mul_trace),
        <P256ProofError as FromSpec<PublicKeyOnCurveError>>::from_spec(
            public_key_on_curve,
        ) == P256ProofError::PublicKeyOnCurve(public_key_on_curve),
        <PublicKeyOnCurveError as FromSpec<FpSolinasError>>::from_spec(fp_solinas) == PublicKeyOnCurveError::FpSolinas(fp_solinas),
{
}

} // verus!
