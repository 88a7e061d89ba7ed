//! Errors of the proving pipeline.
use crate::public_key_check::PublicKeyOnCurveError;
use vstd::prelude::*;

verus! {

/// A failed check of the scalar setup.
#[derive(Clone, Copy, Debug, PartialEq, Eq, Structural)]
pub enum ScalarSetupClaimError {
    /// Another check, by its number within the stage.
    Check { code: u32 },
}

/// A failed check of the certificate scalar inputs.
#[derive(Clone, Copy, Debug, PartialEq, Eq, Structural)]
pub enum CertScalarInputError {
    /// Another check, by its number within the stage.
    Check { code: u32 },
}

/// A failed check of the fake-GLV chain.
#[derive(Clone, Copy, Debug, PartialEq, Eq, Structural)]
pub enum FakeGlvChainError {
    /// Another check, by its number within the stage.
    Check { code: u32 },
}

/// A failed check of the fake-GLV scalar hints.
#[derive(Clone, Copy, Debug, PartialEq, Eq, Structural)]
pub enum FakeGlvScalarHintError {
    /// The scalar is too wide for the trivial hint.
    ScalarDoesNotFitTrivialHint,
    /// Another check, by its number within the stage.
    Check { code: u32 },
}

/// A failed check of the fake-GLV selectors.
#[derive(Clone, Copy, Debug, PartialEq, Eq, Structural)]
pub enum FakeGlvSelectorError {
    /// Another check, by its number within the stage.
    Check { code: u32 },
}

/// A failed check of the final ECDSA check.
#[derive(Clone, Copy, Debug, PartialEq, Eq, Structural)]
pub enum FinalEcdsaCheckError {
    /// The x-coordinate of `R` does not match `r`.
    SignatureRMismatch,
    /// Another check, by its number within the stage.
    Check { code: u32 },
}

/// A failed check of the final point addition.
#[derive(Clone, Copy, Debug, PartialEq, Eq, Structural)]
pub enum FinalAddError {
    /// There is no final-check row to add up.
    MulTraceShape,
    /// Another check, by its number within the stage.
    Check { code: u32 },
}

/// A failed check of the selector lookups.
#[derive(Clone, Copy, Debug, PartialEq, Eq, Structural)]
pub enum SelectorLookupError {
    /// Another check, by its number within the stage.
    Check { code: u32 },
}

/// A failed check of the prepared points.
#[derive(Clone, Copy, Debug, PartialEq, Eq, Structural)]
pub enum PreparedPointError {
    /// Another check, by its number within the stage.
    Check { code: u32 },
}

/// A failed check of the prepared table.
#[derive(Clone, Copy, Debug, PartialEq, Eq, Structural)]
pub enum PreparedTableError {
    /// Another check, by its number within the stage.
    Check { code: u32 },
}

/// A failed check of the projective curve trace.
#[derive(Clone, Copy, Debug, PartialEq, Eq, Structural)]
pub enum ProjectiveEcError {
    /// Another check, by its number within the stage.
    Check { code: u32 },
}

/// A failed check of the projective multiplication trace.
#[derive(Clone, Copy, Debug, PartialEq, Eq, Structural)]
pub enum ProjectiveRcbAirError {
    /// Another check, by its number within the stage.
    Check { code: u32 },
}

/// A failed check of the hinted multiplications.
#[derive(Clone, Copy, Debug, PartialEq, Eq, Structural)]
pub enum HintedMulWitnessError {
    /// Another check, by its number within the stage.
    Check { code: u32 },
}

/// A failed check of the public-key curve slice.
#[derive(Clone, Copy, Debug, PartialEq, Eq, Structural)]
pub enum PublicKeyCurveSliceError {
    /// The slice covers exactly one public key.
    UnsupportedRowCount { actual: usize },
    /// Another check, by its number within the stage.
    Check { code: u32 },
}

/// A failed check of the scalar multiplications.
#[derive(Clone, Copy, Debug, PartialEq, Eq, Structural)]
pub enum ScalarModMulTraceError {
    /// Another check, by its number within the stage.
    Check { code: u32 },
}

/// Why a claim, a draft, or a proof is rejected.
#[derive(Clone, Debug, PartialEq, Eq)]
pub enum P256ProofError {
    ScalarSetup(ScalarSetupClaimError),
    CertScalarInput(CertScalarInputError),
    FakeGlvChain(FakeGlvChainError),
    FakeGlvScalar(FakeGlvScalarHintError),
    FakeGlvSelector(FakeGlvSelectorError),
    FinalEcdsaCheck(FinalEcdsaCheckError),
    FinalAdd(FinalAddError),
    SelectorLookup(SelectorLookupError),
    PreparedPoint(PreparedPointError),
    PreparedTable(PreparedTableError),
    ProjectiveEc(ProjectiveEcError),
    ProjectiveRcbAir(ProjectiveRcbAirError),
    HintedMul(HintedMulWitnessError),
    PublicKeyOnCurve(PublicKeyOnCurveError),
    PublicKeyCurveSlice(PublicKeyCurveSliceError),
    ScalarModMulTrace(ScalarModMulTraceError),
    /// The native verifier rejects the input at this position.
    InvalidNativeEcdsaInput { index: usize },
    /// A public-key coordinate is not a canonical field element.
    NonCanonicalPublicKey { index: usize, field: &'static str },
    /// A relation's claimed sum is not zero.
    RelationImbalance { relation: &'static str },
    /// The proof is about other statements than the caller asked for.
    PublicInstanceMismatch,
    /// The preprocessed commitment is not the expected one; both are given as
    /// text.
    PreprocessedRootMismatch { got: String, expected: String },
    /// The proof system rejected the proof.
    ProofLayer(String),
}

impl From<ScalarSetupClaimError> for P256ProofError {
    fn from(value: ScalarSetupClaimError) -> (r: Self) {
        P256ProofError::ScalarSetup(value)
    }
}

impl vstd::std_specs::convert::FromSpecImpl<ScalarSetupClaimError> for P256ProofError {
    open spec fn obeys_from_spec() -> bool {
        true
    }

    open spec fn from_spec(value: ScalarSetupClaimError) -> Self {
        P256ProofError::ScalarSetup(value)
    }
}

impl From<CertScalarInputError> for P256ProofError {
    fn from(value: CertScalarInputError) -> (r: Self) {
        P256ProofError::CertScalarInput(value)
    }
}

impl vstd::std_specs::convert::FromSpecImpl<CertScalarInputError> for P256ProofError {
    open spec fn obeys_from_spec() -> bool {
        true
    }

    open spec fn from_spec(value: CertScalarInputError) -> Self {
        P256ProofError::CertScalarInput(value)
    }
}

impl From<FakeGlvChainError> for P256ProofError {
    fn from(value: FakeGlvChainError) -> (r: Self) {
        P256ProofError::FakeGlvChain(value)
    }
}

impl vstd::std_specs::convert::FromSpecImpl<FakeGlvChainError> for P256ProofError {
    open spec fn obeys_from_spec() -> bool {
        true
    }

    open spec fn from_spec(value: FakeGlvChainError) -> Self {
        P256ProofError::FakeGlvChain(value)
    }
}

impl From<FakeGlvScalarHintError> for P256ProofError {
    fn from(value: FakeGlvScalarHintError) -> (r: Self) {
        P256ProofError::FakeGlvScalar(value)
    }
}

impl vstd::std_specs::convert::FromSpecImpl<FakeGlvScalarHintError> for P256ProofError {
    open spec fn obeys_from_spec() -> bool {
        true
    }

    open spec fn from_spec(value: FakeGlvScalarHintError) -> Self {
        P256ProofError::FakeGlvScalar(value)
    }
}

impl From<FakeGlvSelectorError> for P256ProofError {
    fn from(value: FakeGlvSelectorError) -> (r: Self) {
        P256ProofError::FakeGlvSelector(value)
    }
}

impl vstd::std_specs::convert::FromSpecImpl<FakeGlvSelectorError> for P256ProofError {
    open spec fn obeys_from_spec() -> bool {
        true
    }

    open spec fn from_spec(value: FakeGlvSelectorError) -> Self {
        P256ProofError::FakeGlvSelector(value)
    }
}

impl From<FinalEcdsaCheckError> for P256ProofError {
    fn from(value: FinalEcdsaCheckError) -> (r: Self) {
        P256ProofError::FinalEcdsaCheck(value)
    }
}

impl vstd::std_specs::convert::FromSpecImpl<FinalEcdsaCheckError> for P256ProofError {
    open spec fn obeys_from_spec() -> bool {
        true
    }

    open spec fn from_spec(value: FinalEcdsaCheckError) -> Self {
        P256ProofError::FinalEcdsaCheck(value)
    }
}

impl From<FinalAddError> for P256ProofError {
    fn from(value: FinalAddError) -> (r: Self) {
        P256ProofError::FinalAdd(value)
    }
}

impl vstd::std_specs::convert::FromSpecImpl<FinalAddError> for P256ProofError {
    open spec fn obeys_from_spec() -> bool {
        true
    }

    open spec fn from_spec(value: FinalAddError) -> Self {
        P256ProofError::FinalAdd(value)
    }
}

impl From<SelectorLookupError> for P256ProofError {
    fn from(value: SelectorLookupError) -> (r: Self) {
        P256ProofError::SelectorLookup(value)
    }
}

impl vstd::std_specs::convert::FromSpecImpl<SelectorLookupError> for P256ProofError {
    open spec fn obeys_from_spec() -> bool {
        true
    }

    open spec fn from_spec(value: SelectorLookupError) -> Self {
        P256ProofError::SelectorLookup(value)
    }
}

impl From<PreparedPointError> for P256ProofError {
    fn from(value: PreparedPointError) -> (r: Self) {
        P256ProofError::PreparedPoint(value)
    }
}

impl vstd::std_specs::convert::FromSpecImpl<PreparedPointError> for P256ProofError {
    open spec fn obeys_from_spec() -> bool {
        true
    }

    open spec fn from_spec(value: PreparedPointError) -> Self {
        P256ProofError::PreparedPoint(value)
    }
}

impl From<PreparedTableError> for P256ProofError {
    fn from(value: PreparedTableError) -> (r: Self) {
        P256ProofError::PreparedTable(value)
    }
}

impl vstd::std_specs::convert::FromSpecImpl<PreparedTableError> for P256ProofError {
    open spec fn obeys_from_spec() -> bool {
        true
    }

    open spec fn from_spec(value: PreparedTableError) -> Self {
        P256ProofError::PreparedTable(value)
    }
}

impl From<ProjectiveEcError> for P256ProofError {
    fn from(value: ProjectiveEcError) -> (r: Self) {
        P256ProofError::ProjectiveEc(value)
    }
}

impl vstd::std_specs::convert::FromSpecImpl<ProjectiveEcError> for P256ProofError {
    open spec fn obeys_from_spec() -> bool {
        true
    }

    open spec fn from_spec(value: ProjectiveEcError) -> Self {
        P256ProofError::ProjectiveEc(value)
    }
}

impl From<ProjectiveRcbAirError> for P256ProofError {
    fn from(value: ProjectiveRcbAirError) -> (r: Self) {
        P256ProofError::ProjectiveRcbAir(value)
    }
}

impl vstd::std_specs::convert::FromSpecImpl<ProjectiveRcbAirError> for P256ProofError {
    open spec fn obeys_from_spec() -> bool {
        true
    }

    open spec fn from_spec(value: ProjectiveRcbAirError) -> Self {
        P256ProofError::ProjectiveRcbAir(value)
    }
}

impl From<HintedMulWitnessError> for P256ProofError {
    fn from(value: HintedMulWitnessError) -> (r: Self) {
        P256ProofError::HintedMul(value)
    }
}

impl vstd::std_specs::convert::FromSpecImpl<HintedMulWitnessError> for P256ProofError {
    open spec fn obeys_from_spec() -> bool {
        true
    }

    open spec fn from_spec(value: HintedMulWitnessError) -> Self {
        P256ProofError::HintedMul(value)
    }
}

impl From<PublicKeyCurveSliceError> for P256ProofError {
    fn from(value: PublicKeyCurveSliceError) -> (r: Self) {
        P256ProofError::PublicKeyCurveSlice(value)
    }
}

impl vstd::std_specs::convert::FromSpecImpl<PublicKeyCurveSliceError> for P256ProofError {
    open spec fn obeys_from_spec() -> bool {
        true
    }

    open spec fn from_spec(value: PublicKeyCurveSliceError) -> Self {
        P256ProofError::PublicKeyCurveSlice(value)
    }
}

impl From<ScalarModMulTraceError> for P256ProofError {
    fn from(value: ScalarModMulTraceError) -> (r: Self) {
        P256ProofError::ScalarModMulTrace(value)
    }
}

impl vstd::std_specs::convert::FromSpecImpl<ScalarModMulTraceError> for P256ProofError {
    open spec fn obeys_from_spec() -> bool {
        true
    }

    open spec fn from_spec(value: ScalarModMulTraceError) -> Self {
        P256ProofError::ScalarModMulTrace(value)
    }
}

impl From<PublicKeyOnCurveError> for P256ProofError {
    fn from(value: PublicKeyOnCurveError) -> (r: Self) {
        P256ProofError::PublicKeyOnCurve(value)
    }
}

impl vstd::std_specs::convert::FromSpecImpl<PublicKeyOnCurveError> for P256ProofError {
    open spec fn obeys_from_spec() -> bool {
        true
    }

    open spec fn from_spec(value: PublicKeyOnCurveError) -> Self {
        P256ProofError::PublicKeyOnCurve(value)
    }
}

} // verus!
