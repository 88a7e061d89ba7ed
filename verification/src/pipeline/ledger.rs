//! The relation ledger: the balance of every relation by name, from the sums
//! that each component claims on each relation.
use crate::fields::{
    law_sum_commutes, law_sum_zero, sf_difference, sf_negation, sf_sum, sf_sum_of, sf_zero,
    SecureField,
};
use crate::pipeline::error::P256ProofError;
use crate::pipeline::interaction_claim::{
    all_zero, first_nonzero, sum_terms, verify_balances, ChainExpansionClaim,
    ComponentInteractionClaim, P256CurrentAirRelationAudit, ProviderConsumerClaim,
    ScalarModMulProofSliceInteractionClaim,
};
use crate::range_checks::interaction::RangeCheckInteractionClaim;
use vstd::prelude::*;

verus! {

/// Sums of the scalar setup component, per relation.
#[derive(Clone, Copy, Debug, PartialEq, Eq, Structural)]
pub struct ScalarSetupSums {
    pub output_provider_claimed_sum: SecureField,
    pub scalar_limb_consumer_claimed_sum: SecureField,
    pub range13_consumer_claimed_sum: SecureField,
    pub range13_provider_claimed_sum: SecureField,
    pub range9_consumer_claimed_sum: SecureField,
    pub range9_provider_claimed_sum: SecureField,
    pub signed_carry_consumer_claimed_sum: SecureField,
    pub signed_carry_provider_claimed_sum: SecureField,
    pub point_provider_claimed_sum: SecureField,
}

impl ScalarSetupSums {
    pub open spec fn wf(self) -> bool {
        &&& self.output_provider_claimed_sum.wf()
        &&& self.scalar_limb_consumer_claimed_sum.wf()
        &&& self.range13_consumer_claimed_sum.wf()
        &&& self.range13_provider_claimed_sum.wf()
        &&& self.range9_consumer_claimed_sum.wf()
        &&& self.range9_provider_claimed_sum.wf()
        &&& self.signed_carry_consumer_claimed_sum.wf()
        &&& self.signed_carry_provider_claimed_sum.wf()
        &&& self.point_provider_claimed_sum.wf()
    }
}

/// Sums of the certificate input component, per relation.
#[derive(Clone, Copy, Debug, PartialEq, Eq, Structural)]
pub struct CertScalarInputSums {
    pub scalar_setup_consumer_claimed_sum: SecureField,
    pub cert_provider_claimed_sum: SecureField,
    pub cert_base_provider_claimed_sum: SecureField,
}

impl CertScalarInputSums {
    pub open spec fn wf(self) -> bool {
        &&& self.scalar_setup_consumer_claimed_sum.wf()
        &&& self.cert_provider_claimed_sum.wf()
        &&& self.cert_base_provider_claimed_sum.wf()
    }
}

/// Sums of the fake-GLV scalar component, per relation.
#[derive(Clone, Copy, Debug, PartialEq, Eq, Structural)]
pub struct FakeGlvScalarSums {
    pub cert_consumer_claimed_sum: SecureField,
    pub scalar_provider_claimed_sum: SecureField,
    pub scalar_mod_mul_provider_claimed_sum: SecureField,
}

impl FakeGlvScalarSums {
    pub open spec fn wf(self) -> bool {
        &&& self.cert_consumer_claimed_sum.wf()
        &&& self.scalar_provider_claimed_sum.wf()
        &&& self.scalar_mod_mul_provider_claimed_sum.wf()
    }
}

/// Sums of the pinned table provider, per relation, and their declared total.
#[derive(Clone, Copy, Debug, PartialEq, Eq, Structural)]
pub struct PinnedTableSums {
    pub total_claimed_sum: SecureField,
    pub prepared_table_provider_claimed_sum: SecureField,
    pub cert_base_consumer_claimed_sum: SecureField,
    pub canonical_claimed_sum: SecureField,
    pub final_check_hint_claimed_sum: SecureField,
}

impl PinnedTableSums {
    pub open spec fn wf(self) -> bool {
        &&& self.total_claimed_sum.wf()
        &&& self.prepared_table_provider_claimed_sum.wf()
        &&& self.cert_base_consumer_claimed_sum.wf()
        &&& self.canonical_claimed_sum.wf()
        &&& self.final_check_hint_claimed_sum.wf()
    }
}

/// Sums of the final check component, per relation.
#[derive(Clone, Copy, Debug, PartialEq, Eq, Structural)]
pub struct FinalCheckSums {
    pub range13_consumer_claimed_sum: SecureField,
    pub range9_consumer_claimed_sum: SecureField,
    pub signed_carry_consumer_claimed_sum: SecureField,
    pub result_consumer_claimed_sum: SecureField,
    pub final_add_output_consumer_claimed_sum: SecureField,
}

impl FinalCheckSums {
    pub open spec fn wf(self) -> bool {
        &&& self.range13_consumer_claimed_sum.wf()
        &&& self.range9_consumer_claimed_sum.wf()
        &&& self.signed_carry_consumer_claimed_sum.wf()
        &&& self.result_consumer_claimed_sum.wf()
        &&& self.final_add_output_consumer_claimed_sum.wf()
    }
}

/// Sums of the final addition component, per relation.
#[derive(Clone, Copy, Debug, PartialEq, Eq, Structural)]
pub struct FinalAddSums {
    pub hint_consumer_claimed_sum: SecureField,
    pub internal_claimed_sum: SecureField,
    pub output_provider_claimed_sum: SecureField,
}

impl FinalAddSums {
    pub open spec fn wf(self) -> bool {
        &&& self.hint_consumer_claimed_sum.wf()
        &&& self.internal_claimed_sum.wf()
        &&& self.output_provider_claimed_sum.wf()
    }
}

/// Claimed sums of a proof, split by relation.
#[derive(Clone, Debug)]
pub struct RelationLedger {
    pub public_inputs: ProviderConsumerClaim,
    pub scalar_setup: ScalarSetupSums,
    pub cert_scalar_inputs: CertScalarInputSums,
    pub fake_glv_scalar_air: FakeGlvScalarSums,
    pub fake_glv_selector_air: ComponentInteractionClaim,
    pub scalar_setup_mod_muls: Vec<ScalarModMulProofSliceInteractionClaim>,
    pub fake_glv_scalar_mod_muls: Vec<ScalarModMulProofSliceInteractionClaim>,
    pub prepared_table_pinned: PinnedTableSums,
    pub prepared_table_projective_source: ProviderConsumerClaim,
    pub fake_glv_projective_source: ProviderConsumerClaim,
    pub fake_glv_chain_expansion: ChainExpansionClaim,
    pub fake_glv_chain_continuity: ComponentInteractionClaim,
    pub fake_glv_direct_prepared_operand: ProviderConsumerClaim,
    pub fake_glv_signed_selector_operand: ProviderConsumerClaim,
    pub fake_glv_lsb_correction_operand: ProviderConsumerClaim,
    pub fake_glv_prepared_point_source: ProviderConsumerClaim,
    pub prepared_point_range7_consumer: ComponentInteractionClaim,
    pub prepared_point_range7: RangeCheckInteractionClaim,
    pub ecdsa_result_provider: ComponentInteractionClaim,
    pub final_check: FinalCheckSums,
    pub public_key_on_curve: ComponentInteractionClaim,
    pub projective_rcb_air: ComponentInteractionClaim,
    pub final_add: FinalAddSums,
}

/// The totals of a list of slices.
pub open spec fn slice_totals(slices: Seq<ScalarModMulProofSliceInteractionClaim>) -> Seq<
    SecureField,
> {
    slices.map_values(|s: ScalarModMulProofSliceInteractionClaim| s.spec_total())
}

/// Sum of the totals of a list of slices.
pub fn sum_slices(slices: &Vec<ScalarModMulProofSliceInteractionClaim>) -> (r: SecureField)
    requires
        forall|i: int| 0 <= i < slices@.len() ==> (#[trigger] slices@[i]).wf(),
    ensures
        r == sf_sum_of(slice_totals(slices@)),
        r.wf(),
{
    let mut totals: Vec<SecureField> = Vec::new();
    let mut i: usize = 0;
    while i < slices.len()
        invariant
            i <= slices@.len(),
            totals@.len() == i,
            forall|k: int| 0 <= k < slices@.len() ==> (#[trigger] slices@[k]).wf(),
            forall|k: int|
                0 <= k < i ==> #[trigger] totals@[k] == slices@[k].spec_total() && totals@[k].wf(),
        decreases slices@.len() - i,
    {
        totals.push(slices[i].total());
        i = i + 1;
    }
    proof {
        assert(totals@ =~= slice_totals(slices@));
    }
    sum_terms(&totals)
}

impl RelationLedger {
    /// Every claimed sum is reduced.
    pub open spec fn wf(&self) -> bool {
        &&& self.public_inputs.wf()
        &&& self.scalar_setup.wf()
        &&& self.cert_scalar_inputs.wf()
        &&& self.fake_glv_scalar_air.wf()
        &&& self.fake_glv_selector_air.claimed_sum.wf()
        &&& forall|i: int|
            0 <= i < self.scalar_setup_mod_muls@.len() ==> (
            #[trigger] self.scalar_setup_mod_muls@[i]).wf()
        &&& forall|i: int|
            0 <= i < self.fake_glv_scalar_mod_muls@.len() ==> (
            #[trigger] self.fake_glv_scalar_mod_muls@[i]).wf()
        &&& self.prepared_table_pinned.wf()
        &&& self.prepared_table_projective_source.wf()
        &&& self.fake_glv_projective_source.wf()
        &&& self.fake_glv_chain_expansion.wf()
        &&& self.fake_glv_chain_continuity.claimed_sum.wf()
        &&& self.fake_glv_direct_prepared_operand.wf()
        &&& self.fake_glv_signed_selector_operand.wf()
        &&& self.fake_glv_lsb_correction_operand.wf()
        &&& self.fake_glv_prepared_point_source.wf()
        &&& self.prepared_point_range7_consumer.claimed_sum.wf()
        &&& self.prepared_point_range7.claimed_sum.wf()
        &&& self.ecdsa_result_provider.claimed_sum.wf()
        &&& self.final_check.wf()
        &&& self.public_key_on_curve.claimed_sum.wf()
        &&& self.projective_rcb_air.claimed_sum.wf()
        &&& self.final_add.wf()
    }

    /// Balances of the public inputs and of the scalar relations.
    pub open spec fn spec_scalar_balances(&self) -> Seq<(&'static str, SecureField)> {
        seq![
            ("PublicEcdsaInstance", self.public_inputs.spec_total()),
            (
                "ScalarSetupOutput",
                sf_sum(
                    self.scalar_setup.output_provider_claimed_sum,
                    self.cert_scalar_inputs.scalar_setup_consumer_claimed_sum,
                ),
            ),
            (
                "CertScalarInput",
                sf_sum(
                    self.cert_scalar_inputs.cert_provider_claimed_sum,
                    self.fake_glv_scalar_air.cert_consumer_claimed_sum,
                ),
            ),
            (
                "FakeGlvScalar",
                sf_sum(
                    self.fake_glv_scalar_air.scalar_provider_claimed_sum,
                    self.fake_glv_selector_air.claimed_sum,
                ),
            ),
            (
                "ScalarSetupRange13",
                sf_sum(
                    sf_sum(
                        self.scalar_setup.range13_consumer_claimed_sum,
                        self.scalar_setup.range13_provider_claimed_sum,
                    ),
                    self.final_check.range13_consumer_claimed_sum,
                ),
            ),
        ]
    }

    fn scalar_balances(&self) -> (r: Vec<(&'static str, SecureField)>)
        requires
            self.wf(),
        ensures
            r@ == self.spec_scalar_balances(),
    {
        let mut balances: Vec<(&'static str, SecureField)> = Vec::new();
        balances.push(("PublicEcdsaInstance", self.public_inputs.total()));
        balances.push(
            (
                "ScalarSetupOutput",
                self.scalar_setup.output_provider_claimed_sum.plus(
                    self.cert_scalar_inputs.scalar_setup_consumer_claimed_sum,
                ),
            ),
        );
        balances.push(
            (
                "CertScalarInput",
                self.cert_scalar_inputs.cert_provider_claimed_sum.plus(
                    self.fake_glv_scalar_air.cert_consumer_claimed_sum,
                ),
            ),
        );
        balances.push(
            (
                "FakeGlvScalar",
                self.fake_glv_scalar_air.scalar_provider_claimed_sum.plus(
                    self.fake_glv_selector_air.claimed_sum,
                ),
            ),
        );
        balances.push(
            (
                "ScalarSetupRange13",
                self.scalar_setup.range13_consumer_claimed_sum
                    .plus(self.scalar_setup.range13_provider_claimed_sum)
                    .plus(self.final_check.range13_consumer_claimed_sum),
            ),
        );
        balances
    }

    /// Balances of the lookups and products of the scalar setup.
    pub open spec fn spec_setup_balances(&self) -> Seq<(&'static str, SecureField)> {
        seq![
            (
                "ScalarSetupRange9",
                sf_sum(
                    sf_sum(
                        self.scalar_setup.range9_consumer_claimed_sum,
                        self.scalar_setup.range9_provider_claimed_sum,
                    ),
                    self.final_check.range9_consumer_claimed_sum,
                ),
            ),
            (
                "ScalarSetupSignedCarry",
                sf_sum(
                    sf_sum(
                        self.scalar_setup.signed_carry_consumer_claimed_sum,
                        self.scalar_setup.signed_carry_provider_claimed_sum,
                    ),
                    self.final_check.signed_carry_consumer_claimed_sum,
                ),
            ),
            (
                "ScalarSetupModMul",
                sf_sum(
                    sf_sum_of(slice_totals(self.scalar_setup_mod_muls@)),
                    self.scalar_setup.scalar_limb_consumer_claimed_sum,
                ),
            ),
            (
                "FakeGlvScalarModMul",
                sf_sum(
                    sf_sum_of(slice_totals(self.fake_glv_scalar_mod_muls@)),
                    self.fake_glv_scalar_air.scalar_mod_mul_provider_claimed_sum,
                ),
            ),
        ]
    }

    fn setup_balances(&self) -> (r: Vec<(&'static str, SecureField)>)
        requires
            self.wf(),
        ensures
            r@ == self.spec_setup_balances(),
    {
        let mut balances: Vec<(&'static str, SecureField)> = Vec::new();
        balances.push(
            (
                "ScalarSetupRange9",
                self.scalar_setup.range9_consumer_claimed_sum
                    .plus(self.scalar_setup.range9_provider_claimed_sum)
                    .plus(self.final_check.range9_consumer_claimed_sum),
            ),
        );
        balances.push(
            (
                "ScalarSetupSignedCarry",
                self.scalar_setup.signed_carry_consumer_claimed_sum
                    .plus(self.scalar_setup.signed_carry_provider_claimed_sum)
                    .plus(self.final_check.signed_carry_consumer_claimed_sum),
            ),
        );
        balances.push(
            (
                "ScalarSetupModMul",
                sum_slices(&self.scalar_setup_mod_muls).plus(
                    self.scalar_setup.scalar_limb_consumer_claimed_sum,
                ),
            ),
        );
        balances.push(
            (
                "FakeGlvScalarModMul",
                sum_slices(&self.fake_glv_scalar_mod_muls).plus(
                    self.fake_glv_scalar_air.scalar_mod_mul_provider_claimed_sum,
                ),
            ),
        );
        balances
    }

    /// Balances of the prepared table.
    pub open spec fn spec_table_balances(&self) -> Seq<(&'static str, SecureField)> {
        seq![
            (
                "PreparedTablePinnedConsistency",
                sf_difference(
                    self.prepared_table_pinned.total_claimed_sum,
                    self.prepared_table_projective_source.provider.claimed_sum,
                ),
            ),
            (
                "PreparedTablePinnedBreakdown",
                sf_difference(
                    sf_difference(
                        sf_difference(
                            sf_difference(
                                self.prepared_table_pinned.total_claimed_sum,
                                self.prepared_table_pinned.prepared_table_provider_claimed_sum,
                            ),
                            self.prepared_table_pinned.cert_base_consumer_claimed_sum,
                        ),
                        self.prepared_table_pinned.canonical_claimed_sum,
                    ),
                    self.prepared_table_pinned.final_check_hint_claimed_sum,
                ),
            ),
            (
                "PreparedTableProjectiveSource",
                sf_sum(
                    self.prepared_table_pinned.prepared_table_provider_claimed_sum,
                    self.prepared_table_projective_source.consumer.claimed_sum,
                ),
            ),
            (
                "CertBase",
                sf_sum(
                    self.prepared_table_pinned.cert_base_consumer_claimed_sum,
                    self.cert_scalar_inputs.cert_base_provider_claimed_sum,
                ),
            ),
            ("PreparedTableCanonical", self.prepared_table_pinned.canonical_claimed_sum),
        ]
    }

    fn table_balances(&self) -> (r: Vec<(&'static str, SecureField)>)
        requires
            self.wf(),
        ensures
            r@ == self.spec_table_balances(),
    {
        let mut balances: Vec<(&'static str, SecureField)> = Vec::new();
        balances.push(
            (
                "PreparedTablePinnedConsistency",
                self.prepared_table_pinned.total_claimed_sum.minus(
                    self.prepared_table_projective_source.provider.claimed_sum,
                ),
            ),
        );
        balances.push(
            (
                "PreparedTablePinnedBreakdown",
                self.prepared_table_pinned.total_claimed_sum
                    .minus(self.prepared_table_pinned.prepared_table_provider_claimed_sum)
                    .minus(self.prepared_table_pinned.cert_base_consumer_claimed_sum)
                    .minus(self.prepared_table_pinned.canonical_claimed_sum)
                    .minus(self.prepared_table_pinned.final_check_hint_claimed_sum),
            ),
        );
        balances.push(
            (
                "PreparedTableProjectiveSource",
                self.prepared_table_pinned.prepared_table_provider_claimed_sum.plus(
                    self.prepared_table_projective_source.consumer.claimed_sum,
                ),
            ),
        );
        balances.push(
            (
                "CertBase",
                self.prepared_table_pinned.cert_base_consumer_claimed_sum.plus(
                    self.cert_scalar_inputs.cert_base_provider_claimed_sum,
                ),
            ),
        );
        balances.push(("PreparedTableCanonical", self.prepared_table_pinned.canonical_claimed_sum));
        balances
    }

    /// Balances of the ladder and its operands.
    pub open spec fn spec_ladder_balances(&self) -> Seq<(&'static str, SecureField)> {
        seq![
            ("FakeGlvProjectiveSource", self.fake_glv_projective_source.spec_total()),
            ("FakeGlvChainExpansion", self.fake_glv_chain_expansion.spec_total()),
            ("FakeGlvChainContinuity", self.fake_glv_chain_continuity.claimed_sum),
            ("FakeGlvDirectPreparedOperand", self.fake_glv_direct_prepared_operand.spec_total()),
            ("FakeGlvSignedSelectorOperand", self.fake_glv_signed_selector_operand.spec_total()),
            ("FakeGlvLsbCorrectionOperand", self.fake_glv_lsb_correction_operand.spec_total()),
            ("FakeGlvPreparedPointSource", self.fake_glv_prepared_point_source.spec_total()),
        ]
    }

    fn ladder_balances(&self) -> (r: Vec<(&'static str, SecureField)>)
        requires
            self.wf(),
        ensures
            r@ == self.spec_ladder_balances(),
    {
        let mut balances: Vec<(&'static str, SecureField)> = Vec::new();
        balances.push(("FakeGlvProjectiveSource", self.fake_glv_projective_source.total()));
        balances.push(("FakeGlvChainExpansion", self.fake_glv_chain_expansion.total()));
        balances.push(("FakeGlvChainContinuity", self.fake_glv_chain_continuity.claimed_sum));
        balances.push(
            ("FakeGlvDirectPreparedOperand", self.fake_glv_direct_prepared_operand.total()),
        );
        balances.push(
            ("FakeGlvSignedSelectorOperand", self.fake_glv_signed_selector_operand.total()),
        );
        balances.push(
            ("FakeGlvLsbCorrectionOperand", self.fake_glv_lsb_correction_operand.total()),
        );
        balances.push(("FakeGlvPreparedPointSource", self.fake_glv_prepared_point_source.total()));
        balances
    }

    /// Balances of the range table, of the final addition and of the result.
    pub open spec fn spec_result_balances(&self) -> Seq<(&'static str, SecureField)> {
        seq![
            (
                "Range7",
                sf_sum(
                    self.prepared_point_range7.claimed_sum,
                    self.prepared_point_range7_consumer.claimed_sum,
                ),
            ),
            (
                "EcdsaResult",
                sf_sum(
                    self.ecdsa_result_provider.claimed_sum,
                    self.final_check.result_consumer_claimed_sum,
                ),
            ),
            (
                "PublicKeyPoint",
                sf_sum(
                    self.public_key_on_curve.claimed_sum,
                    self.scalar_setup.point_provider_claimed_sum,
                ),
            ),
            ("ProjectiveRcbAirProofSlice", self.projective_rcb_air.claimed_sum),
            (
                "FinalCheckHint",
                sf_sum(
                    self.prepared_table_pinned.final_check_hint_claimed_sum,
                    self.final_add.hint_consumer_claimed_sum,
                ),
            ),
            ("FinalAddInternal", self.final_add.internal_claimed_sum),
            (
                "FinalAddOutput",
                sf_sum(
                    self.final_add.output_provider_claimed_sum,
                    self.final_check.final_add_output_consumer_claimed_sum,
                ),
            ),
        ]
    }

    fn result_balances(&self) -> (r: Vec<(&'static str, SecureField)>)
        requires
            self.wf(),
        ensures
            r@ == self.spec_result_balances(),
    {
        let mut balances: Vec<(&'static str, SecureField)> = Vec::new();
        balances.push(
            (
                "Range7",
                self.prepared_point_range7.claimed_sum.plus(
                    self.prepared_point_range7_consumer.claimed_sum,
                ),
            ),
        );
        balances.push(
            (
                "EcdsaResult",
                self.ecdsa_result_provider.claimed_sum.plus(
                    self.final_check.result_consumer_claimed_sum,
                ),
            ),
        );
        balances.push(
            (
                "PublicKeyPoint",
                self.public_key_on_curve.claimed_sum.plus(
                    self.scalar_setup.point_provider_claimed_sum,
                ),
            ),
        );
        balances.push(("ProjectiveRcbAirProofSlice", self.projective_rcb_air.claimed_sum));
        balances.push(
            (
                "FinalCheckHint",
                self.prepared_table_pinned.final_check_hint_claimed_sum.plus(
                    self.final_add.hint_consumer_claimed_sum,
                ),
            ),
        );
        balances.push(("FinalAddInternal", self.final_add.internal_claimed_sum));
        balances.push(
            (
                "FinalAddOutput",
                self.final_add.output_provider_claimed_sum.plus(
                    self.final_check.final_add_output_consumer_claimed_sum,
                ),
            ),
        );
        balances
    }

    /// The balance of every relation, by name.
    pub open spec fn spec_balances(&self) -> Seq<(&'static str, SecureField)> {
        self.spec_scalar_balances() + self.spec_setup_balances() + self.spec_table_balances()
            + self.spec_ladder_balances() + self.spec_result_balances()
    }

    /// Every relation with its balance: what it provides plus what it consumes.
    ///
    /// The two `PreparedTablePinned` entries tie the total of the pinned
    /// provider to its declared sum and to its breakdown. `EcdsaResult`,
    /// `PublicKeyPoint`, `FinalCheckHint` and `FinalAddOutput` link the
    /// sub-graphs.
    pub fn relation_balances(&self) -> (r: Vec<(&'static str, SecureField)>)
        requires
            self.wf(),
        ensures
            r@ == self.spec_balances(),
    {
        let mut balances: Vec<(&'static str, SecureField)> = self.scalar_balances();
        let mut setup: Vec<(&'static str, SecureField)> = self.setup_balances();
        let mut table: Vec<(&'static str, SecureField)> = self.table_balances();
        let mut ladder: Vec<(&'static str, SecureField)> = self.ladder_balances();
        let mut result: Vec<(&'static str, SecureField)> = self.result_balances();
        balances.append(&mut setup);
        balances.append(&mut table);
        balances.append(&mut ladder);
        balances.append(&mut result);
        balances
    }

    /// Sums of the relations that link sub-graphs, one side each.
    pub open spec fn spec_liveness(&self) -> Seq<(&'static str, SecureField)> {
        seq![
            ("EcdsaResult", self.final_check.result_consumer_claimed_sum),
            ("PublicKeyPoint", self.scalar_setup.point_provider_claimed_sum),
            ("CertBase", self.cert_scalar_inputs.cert_base_provider_claimed_sum),
            ("FinalCheckHint", self.prepared_table_pinned.final_check_hint_claimed_sum),
            ("FinalAddOutput", self.final_add.output_provider_claimed_sum),
        ]
    }

    /// Sums that must not be zero in an active proof: a zero means that the
    /// link emitted nothing, which a balance cannot see.
    pub fn liveness_witnesses(&self) -> (r: Vec<(&'static str, SecureField)>)
        ensures
            r@ == self.spec_liveness(),
    {
        let mut witnesses: Vec<(&'static str, SecureField)> = Vec::new();
        witnesses.push(("EcdsaResult", self.final_check.result_consumer_claimed_sum));
        witnesses.push(("PublicKeyPoint", self.scalar_setup.point_provider_claimed_sum));
        witnesses.push(("CertBase", self.cert_scalar_inputs.cert_base_provider_claimed_sum));
        witnesses.push(("FinalCheckHint", self.prepared_table_pinned.final_check_hint_claimed_sum));
        witnesses.push(("FinalAddOutput", self.final_add.output_provider_claimed_sum));
        proof {
            assert(witnesses@ =~= self.spec_liveness());
        }
        witnesses
    }

    /// Balances and liveness witnesses together.
    pub fn relation_audit(&self) -> (r: P256CurrentAirRelationAudit)
        requires
            self.wf(),
        ensures
            r.balances@ == self.spec_balances(),
            r.liveness@ == self.spec_liveness(),
    {
        P256CurrentAirRelationAudit {
            balances: self.relation_balances(),
            liveness: self.liveness_witnesses(),
        }
    }

    /// Succeeds where every relation balances; the error names the first that
    /// does not.
    pub fn verify_balanced(&self) -> (r: Result<(), P256ProofError>)
        requires
            self.wf(),
        ensures
            match first_nonzero(self.spec_balances()) {
                None => r == Ok::<(), P256ProofError>(()),
                Some(relation) => r == Err::<(), P256ProofError>(
                    P256ProofError::RelationImbalance { relation },
                ),
            },
    {
        verify_balances(&self.relation_balances())
    }
}

/// Law: in a ledger that balances, the committed total of the pinned table
/// provider is its declared sum, equals its breakdown, and is matched by the
/// consumers of the table rows and of the hint and by the provider of the
/// certificate bases.
pub proof fn law_balanced_ledger_pins_the_table(ledger: RelationLedger)
    requires
        ledger.wf(),
        all_zero(ledger.spec_balances()),
    ensures
        ledger.prepared_table_pinned.total_claimed_sum
            == ledger.prepared_table_projective_source.provider.claimed_sum,
        ledger.prepared_table_pinned.canonical_claimed_sum == sf_zero(),
        ledger.prepared_table_pinned.prepared_table_provider_claimed_sum == sf_negation(
            ledger.prepared_table_projective_source.consumer.claimed_sum,
        ),
        ledger.prepared_table_pinned.cert_base_consumer_claimed_sum == sf_negation(
            ledger.cert_scalar_inputs.cert_base_provider_claimed_sum,
        ),
        ledger.prepared_table_pinned.final_check_hint_claimed_sum == sf_negation(
            ledger.final_add.hint_consumer_claimed_sum,
        ),
        ledger.ecdsa_result_provider.claimed_sum == sf_negation(
            ledger.final_check.result_consumer_claimed_sum,
        ),
        ledger.final_add.output_provider_claimed_sum == sf_negation(
            ledger.final_check.final_add_output_consumer_claimed_sum,
        ),
{
    let b = ledger.spec_balances();
    let scalar = ledger.spec_scalar_balances();
    let setup = ledger.spec_setup_balances();
    let table = ledger.spec_table_balances();
    let ladder = ledger.spec_ladder_balances();
    let result = ledger.spec_result_balances();
    assert(b[9] == table[0] && b[11] == table[2] && b[12] == table[3] && b[13] == table[4]);
    assert(b[22] == result[1] && b[25] == result[4] && b[27] == result[6]);
    let pinned = ledger.prepared_table_pinned;
    let source = ledger.prepared_table_projective_source;
    lemma_equal_by_difference(pinned.total_claimed_sum, source.provider.claimed_sum);
    lemma_opposite(pinned.prepared_table_provider_claimed_sum, source.consumer.claimed_sum);
    lemma_opposite(
        pinned.cert_base_consumer_claimed_sum,
        ledger.cert_scalar_inputs.cert_base_provider_claimed_sum,
    );
    lemma_opposite(
        pinned.final_check_hint_claimed_sum,
        ledger.final_add.hint_consumer_claimed_sum,
    );
    lemma_opposite(
        ledger.ecdsa_result_provider.claimed_sum,
        ledger.final_check.result_consumer_claimed_sum,
    );
    lemma_opposite(
        ledger.final_add.output_provider_claimed_sum,
        ledger.final_check.final_add_output_consumer_claimed_sum,
    );
}

/// Two elements with sum zero are opposite.
proof fn lemma_opposite(x: SecureField, y: SecureField)
    requires
        x.wf(),
        y.wf(),
    ensures
        sf_sum(x, y) == sf_zero() ==> x == sf_negation(y),
{
    law_sum_commutes(x, y);
    law_sum_zero(y, x);
}

/// Two elements with difference zero are equal.
proof fn lemma_equal_by_difference(x: SecureField, y: SecureField)
    requires
        x.wf(),
        y.wf(),
    ensures
        sf_difference(x, y) == sf_zero() ==> x == y,
{
    reveal(crate::fields::sf_of);
}

} // verus!
