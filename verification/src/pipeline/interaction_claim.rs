//! The interaction claim of a proof: claimed LogUp sums of its components, and
//! the audit that they cancel.
use crate::fields::{
    law_sum_identity, law_sum_of_update, lemma_results_reduced, lemma_sum_of_reduced, sf_sum,
    sf_sum_of, sf_zero, SecureField,
};
use crate::pipeline::claim::P256CurrentAirProofClaim;
use crate::pipeline::error::P256ProofError;
use crate::pipeline::public_providers::{
    providable, provided, reduced_statements, result_tuples, stated_balance, statement_tuples,
    PublicProviders,
};
use crate::pipeline::relations::P256CurrentAirRelations;
use crate::public_inputs::PublicEcdsaInstance;
use crate::range_checks::interaction::RangeCheckInteractionClaim;
use crate::transcript::{blake2s_mix_felts, coordinates, Transcript};
use vstd::prelude::*;

verus! {

/// The claimed sum of one component.
#[derive(Clone, Copy, Debug, PartialEq, Eq, Structural)]
pub struct ComponentInteractionClaim {
    pub claimed_sum: SecureField,
}

/// Claimed sums of the provider and of the consumer of a relation.
#[derive(Clone, Copy, Debug, PartialEq, Eq, Structural)]
pub struct ProviderConsumerClaim {
    pub provider: ComponentInteractionClaim,
    pub consumer: ComponentInteractionClaim,
}

/// Claimed sums of the chain-expansion pair.
#[derive(Clone, Copy, Debug, PartialEq, Eq, Structural)]
pub struct ChainExpansionClaim {
    pub expansion_claimed_sum: SecureField,
    pub primitive_claimed_sum: SecureField,
}

/// Claimed sums of the scalar multiplication slice.
#[derive(Clone, Copy, Debug, PartialEq, Eq, Structural)]
pub struct ScalarModMulProofSliceInteractionClaim {
    pub scalar_mod_mul: ComponentInteractionClaim,
    pub range13: RangeCheckInteractionClaim,
    pub signed_carry: RangeCheckInteractionClaim,
}

/// Breakdown of the pinned table provider.
#[derive(Clone, Copy, Debug, PartialEq, Eq, Structural)]
pub struct PinnedTableClaim {
    pub claimed_sum: SecureField,
    pub final_check_hint: ComponentInteractionClaim,
}

/// Claimed sums of the hinted multiplication slice.
#[derive(Clone, Copy, Debug, PartialEq, Eq, Structural)]
pub struct HintedMulProofInteractionClaim {
    pub claimed_sum: SecureField,
    pub gamma_range13: SecureField,
    pub gamma_signed: SecureField,
    pub range13: SecureField,
    pub signed_h: SecureField,
    pub signed_formula: SecureField,
}

/// Claimed LogUp sums of every component of the proof.
#[derive(Clone, Copy, Debug, PartialEq, Eq, Structural)]
pub struct P256CurrentAirInteractionClaim {
    pub scalar_setup: ComponentInteractionClaim,
    pub cert_scalar_inputs: ComponentInteractionClaim,
    pub fake_glv_scalar_air: ComponentInteractionClaim,
    pub fake_glv_selector_air: ComponentInteractionClaim,
    pub scalar_mod_muls: ScalarModMulProofSliceInteractionClaim,
    pub prepared_table_projective_source: ProviderConsumerClaim,
    /// Breakdown of the pinned table provider; diagnostic only.
    pub prepared_table_pinned: PinnedTableClaim,
    pub fake_glv_projective_source: ProviderConsumerClaim,
    pub fake_glv_chain_expansion: ChainExpansionClaim,
    pub fake_glv_chain_continuity: ComponentInteractionClaim,
    pub fake_glv_direct_prepared_operand: ProviderConsumerClaim,
    pub fake_glv_signed_selector_operand: ProviderConsumerClaim,
    pub fake_glv_lsb_correction_operand: ProviderConsumerClaim,
    pub fake_glv_prepared_point_source: ProviderConsumerClaim,
    pub prepared_point_range7: RangeCheckInteractionClaim,
    pub final_check: ComponentInteractionClaim,
    pub public_key_on_curve: ComponentInteractionClaim,
    pub hinted_mul: HintedMulProofInteractionClaim,
    pub final_add: ComponentInteractionClaim,
}

impl ComponentInteractionClaim {
    pub fn zero() -> (r: ComponentInteractionClaim)
        ensures
            r.claimed_sum == sf_zero(),
    {
        ComponentInteractionClaim { claimed_sum: SecureField::zero() }
    }
}

impl ProviderConsumerClaim {
    pub open spec fn wf(self) -> bool {
        self.provider.claimed_sum.wf() && self.consumer.claimed_sum.wf()
    }

    pub open spec fn spec_total(self) -> SecureField {
        sf_sum(self.provider.claimed_sum, self.consumer.claimed_sum)
    }

    pub fn zero() -> (r: ProviderConsumerClaim)
        ensures
            r.provider.claimed_sum == sf_zero(),
            r.consumer.claimed_sum == sf_zero(),
    {
        ProviderConsumerClaim {
            provider: ComponentInteractionClaim::zero(),
            consumer: ComponentInteractionClaim::zero(),
        }
    }

    pub fn total(&self) -> (r: SecureField)
        requires
            self.wf(),
        ensures
            r == self.spec_total(),
            r.wf(),
    {
        self.provider.claimed_sum.plus(self.consumer.claimed_sum)
    }
}

impl ChainExpansionClaim {
    pub open spec fn wf(self) -> bool {
        self.expansion_claimed_sum.wf() && self.primitive_claimed_sum.wf()
    }

    pub open spec fn spec_total(self) -> SecureField {
        sf_sum(self.expansion_claimed_sum, self.primitive_claimed_sum)
    }

    pub fn total(&self) -> (r: SecureField)
        requires
            self.wf(),
        ensures
            r == self.spec_total(),
            r.wf(),
    {
        self.expansion_claimed_sum.plus(self.primitive_claimed_sum)
    }
}

impl ScalarModMulProofSliceInteractionClaim {
    pub open spec fn wf(self) -> bool {
        self.scalar_mod_mul.claimed_sum.wf() && self.range13.claimed_sum.wf()
            && self.signed_carry.claimed_sum.wf()
    }

    pub open spec fn spec_total(self) -> SecureField {
        sf_sum(
            sf_sum(self.scalar_mod_mul.claimed_sum, self.range13.claimed_sum),
            self.signed_carry.claimed_sum,
        )
    }

    pub fn total(&self) -> (r: SecureField)
        requires
            self.wf(),
        ensures
            r == self.spec_total(),
            r.wf(),
    {
        self.scalar_mod_mul.claimed_sum.plus(self.range13.claimed_sum).plus(
            self.signed_carry.claimed_sum,
        )
    }
}

impl HintedMulProofInteractionClaim {
    pub open spec fn wf(self) -> bool {
        self.claimed_sum.wf() && self.gamma_range13.wf() && self.gamma_signed.wf()
            && self.range13.wf() && self.signed_h.wf() && self.signed_formula.wf()
    }

    pub open spec fn spec_total(self) -> SecureField {
        sf_sum_of(
            seq![
                self.claimed_sum,
                self.gamma_range13,
                self.gamma_signed,
                self.range13,
                self.signed_h,
                self.signed_formula,
            ],
        )
    }

    pub fn total(&self) -> (r: SecureField)
        requires
            self.wf(),
        ensures
            r == self.spec_total(),
            r.wf(),
    {
        let mut terms: Vec<SecureField> = Vec::new();
        terms.push(self.claimed_sum);
        terms.push(self.gamma_range13);
        terms.push(self.gamma_signed);
        terms.push(self.range13);
        terms.push(self.signed_h);
        terms.push(self.signed_formula);
        proof {
            assert(terms@ =~= seq![
                self.claimed_sum,
                self.gamma_range13,
                self.gamma_signed,
                self.range13,
                self.signed_h,
                self.signed_formula,
            ]);
        }
        sum_terms(&terms)
    }
}

/// Sum of a list of reduced elements.
pub fn sum_terms(terms: &Vec<SecureField>) -> (r: SecureField)
    requires
        forall|i: int| 0 <= i < terms@.len() ==> (#[trigger] terms@[i]).wf(),
    ensures
        r == sf_sum_of(terms@),
        r.wf(),
{
    let mut sum: SecureField = SecureField::zero();
    let mut i: usize = 0;
    proof {
        assert(terms@.take(0) =~= Seq::<SecureField>::empty());
    }
    while i < terms.len()
        invariant
            i <= terms@.len(),
            forall|k: int| 0 <= k < terms@.len() ==> (#[trigger] terms@[k]).wf(),
            sum.wf(),
            sum == sf_sum_of(terms@.take(i as int)),
        decreases terms@.len() - i,
    {
        proof {
            assert(terms@[i as int].wf());
            assert(terms@.take(i + 1).drop_last() =~= terms@.take(i as int));
            assert(terms@.take(i + 1).last() == terms@[i as int]);
        }
        sum = sum.plus(terms[i]);
        i = i + 1;
    }
    proof {
        assert(terms@.take(i as int) =~= terms@);
    }
    sum
}

/// The digest after each message, a list of elements, has been mixed in order.
pub open spec fn absorb_messages(digest: Seq<u8>, messages: Seq<Seq<SecureField>>) -> Seq<u8>
    decreases messages.len(),
{
    if messages.len() == 0 {
        digest
    } else {
        blake2s_mix_felts(
            absorb_messages(digest, messages.drop_last()),
            coordinates(messages.last()),
        )
    }
}

/// Names of the entries that satisfy a condition on zero, in order.
pub open spec fn names_where(
    entries: Seq<(&'static str, SecureField)>,
    zero: bool,
) -> Seq<&'static str>
    decreases entries.len(),
{
    if entries.len() == 0 {
        Seq::empty()
    } else {
        let front = names_where(entries.drop_last(), zero);
        if (entries.last().1 == sf_zero()) == zero {
            front.push(entries.last().0)
        } else {
            front
        }
    }
}

/// All sums are zero.
pub open spec fn all_zero(entries: Seq<(&'static str, SecureField)>) -> bool {
    forall|i: int| 0 <= i < entries.len() ==> (#[trigger] entries[i]).1 == sf_zero()
}

/// The first entry whose sum is not zero.
pub open spec fn first_nonzero(entries: Seq<(&'static str, SecureField)>) -> Option<&'static str>
    decreases entries.len(),
{
    if entries.len() == 0 {
        None
    } else if let Some(name) = first_nonzero(entries.drop_last()) {
        Some(name)
    } else if entries.last().1 != sf_zero() {
        Some(entries.last().0)
    } else {
        None
    }
}

impl P256CurrentAirInteractionClaim {
    /// Every claimed sum is reduced.
    pub open spec fn wf(self) -> bool {
        &&& self.scalar_setup.claimed_sum.wf()
        &&& self.cert_scalar_inputs.claimed_sum.wf()
        &&& self.fake_glv_scalar_air.claimed_sum.wf()
        &&& self.fake_glv_selector_air.claimed_sum.wf()
        &&& self.scalar_mod_muls.wf()
        &&& self.prepared_table_projective_source.wf()
        &&& self.prepared_table_pinned.claimed_sum.wf()
        &&& self.prepared_table_pinned.final_check_hint.claimed_sum.wf()
        &&& self.fake_glv_projective_source.wf()
        &&& self.fake_glv_chain_expansion.wf()
        &&& self.fake_glv_chain_continuity.claimed_sum.wf()
        &&& self.fake_glv_direct_prepared_operand.wf()
        &&& self.fake_glv_signed_selector_operand.wf()
        &&& self.fake_glv_lsb_correction_operand.wf()
        &&& self.fake_glv_prepared_point_source.wf()
        &&& self.prepared_point_range7.claimed_sum.wf()
        &&& self.final_check.claimed_sum.wf()
        &&& self.public_key_on_curve.claimed_sum.wf()
        &&& self.hinted_mul.wf()
        &&& self.final_add.claimed_sum.wf()
    }

    /// All claimed sums are zero; used for sizing.
    pub fn zero() -> (r: P256CurrentAirInteractionClaim)
        ensures
            r.wf(),
            r.is_zero(),
    {
        P256CurrentAirInteractionClaim {
            scalar_setup: ComponentInteractionClaim::zero(),
            cert_scalar_inputs: ComponentInteractionClaim::zero(),
            fake_glv_scalar_air: ComponentInteractionClaim::zero(),
            fake_glv_selector_air: ComponentInteractionClaim::zero(),
            scalar_mod_muls: ScalarModMulProofSliceInteractionClaim {
                scalar_mod_mul: ComponentInteractionClaim::zero(),
                range13: RangeCheckInteractionClaim { claimed_sum: SecureField::zero() },
                signed_carry: RangeCheckInteractionClaim { claimed_sum: SecureField::zero() },
            },
            prepared_table_projective_source: ProviderConsumerClaim::zero(),
            prepared_table_pinned: PinnedTableClaim {
                claimed_sum: SecureField::zero(),
                final_check_hint: ComponentInteractionClaim::zero(),
            },
            fake_glv_projective_source: ProviderConsumerClaim::zero(),
            fake_glv_chain_expansion: ChainExpansionClaim {
                expansion_claimed_sum: SecureField::zero(),
                primitive_claimed_sum: SecureField::zero(),
            },
            fake_glv_chain_continuity: ComponentInteractionClaim::zero(),
            fake_glv_direct_prepared_operand: ProviderConsumerClaim::zero(),
            fake_glv_signed_selector_operand: ProviderConsumerClaim::zero(),
            fake_glv_lsb_correction_operand: ProviderConsumerClaim::zero(),
            fake_glv_prepared_point_source: ProviderConsumerClaim::zero(),
            prepared_point_range7: RangeCheckInteractionClaim { claimed_sum: SecureField::zero() },
            final_check: ComponentInteractionClaim::zero(),
            public_key_on_curve: ComponentInteractionClaim::zero(),
            hinted_mul: HintedMulProofInteractionClaim {
                claimed_sum: SecureField::zero(),
                gamma_range13: SecureField::zero(),
                gamma_signed: SecureField::zero(),
                range13: SecureField::zero(),
                signed_h: SecureField::zero(),
                signed_formula: SecureField::zero(),
            },
            final_add: ComponentInteractionClaim::zero(),
        }
    }

    /// The sizing claim of a proof: it does not depend on the claim.
    pub fn zero_for_claim(_claim: &P256CurrentAirProofClaim) -> (r: P256CurrentAirInteractionClaim)
        ensures
            r.wf(),
            r.is_zero(),
    {
        P256CurrentAirInteractionClaim::zero()
    }

    /// Every claimed sum is zero.
    pub open spec fn is_zero(self) -> bool {
        &&& self.scalar_setup.claimed_sum == sf_zero()
        &&& self.cert_scalar_inputs.claimed_sum == sf_zero()
        &&& self.fake_glv_scalar_air.claimed_sum == sf_zero()
        &&& self.fake_glv_selector_air.claimed_sum == sf_zero()
        &&& self.scalar_mod_muls.scalar_mod_mul.claimed_sum == sf_zero()
        &&& self.scalar_mod_muls.range13.claimed_sum == sf_zero()
        &&& self.scalar_mod_muls.signed_carry.claimed_sum == sf_zero()
        &&& self.prepared_table_projective_source.provider.claimed_sum == sf_zero()
        &&& self.prepared_table_projective_source.consumer.claimed_sum == sf_zero()
        &&& self.prepared_table_pinned.claimed_sum == sf_zero()
        &&& self.prepared_table_pinned.final_check_hint.claimed_sum == sf_zero()
        &&& self.fake_glv_projective_source.provider.claimed_sum == sf_zero()
        &&& self.fake_glv_projective_source.consumer.claimed_sum == sf_zero()
        &&& self.fake_glv_chain_expansion.expansion_claimed_sum == sf_zero()
        &&& self.fake_glv_chain_expansion.primitive_claimed_sum == sf_zero()
        &&& self.fake_glv_chain_continuity.claimed_sum == sf_zero()
        &&& self.fake_glv_direct_prepared_operand.provider.claimed_sum == sf_zero()
        &&& self.fake_glv_direct_prepared_operand.consumer.claimed_sum == sf_zero()
        &&& self.fake_glv_signed_selector_operand.provider.claimed_sum == sf_zero()
        &&& self.fake_glv_signed_selector_operand.consumer.claimed_sum == sf_zero()
        &&& self.fake_glv_lsb_correction_operand.provider.claimed_sum == sf_zero()
        &&& self.fake_glv_lsb_correction_operand.consumer.claimed_sum == sf_zero()
        &&& self.fake_glv_prepared_point_source.provider.claimed_sum == sf_zero()
        &&& self.fake_glv_prepared_point_source.consumer.claimed_sum == sf_zero()
        &&& self.prepared_point_range7.claimed_sum == sf_zero()
        &&& self.final_check.claimed_sum == sf_zero()
        &&& self.public_key_on_curve.claimed_sum == sf_zero()
        &&& self.hinted_mul.claimed_sum == sf_zero()
        &&& self.hinted_mul.gamma_range13 == sf_zero()
        &&& self.hinted_mul.gamma_signed == sf_zero()
        &&& self.hinted_mul.range13 == sf_zero()
        &&& self.hinted_mul.signed_h == sf_zero()
        &&& self.hinted_mul.signed_formula == sf_zero()
        &&& self.final_add.claimed_sum == sf_zero()
    }

    /// The terms of the aggregate balance: what the verifier provides for the
    /// public statements, and what each component claims.
    pub open spec fn lookup_terms(
        self,
        public_provider: SecureField,
        result_provider: SecureField,
    ) -> Seq<SecureField> {
        seq![
            public_provider,
            result_provider,
            self.scalar_setup.claimed_sum,
            self.cert_scalar_inputs.claimed_sum,
            self.fake_glv_scalar_air.claimed_sum,
            self.fake_glv_selector_air.claimed_sum,
            self.scalar_mod_muls.spec_total(),
            self.prepared_table_projective_source.spec_total(),
            self.fake_glv_projective_source.spec_total(),
            self.fake_glv_chain_expansion.spec_total(),
            self.fake_glv_chain_continuity.claimed_sum,
            self.fake_glv_direct_prepared_operand.spec_total(),
            self.fake_glv_signed_selector_operand.spec_total(),
            self.fake_glv_lsb_correction_operand.spec_total(),
            self.fake_glv_prepared_point_source.spec_total(),
            self.prepared_point_range7.claimed_sum,
            self.final_check.claimed_sum,
            self.public_key_on_curve.claimed_sum,
            self.hinted_mul.spec_total(),
            self.final_add.claimed_sum,
        ]
    }

    /// The sum of the terms of the balance.
    fn sum_of_terms(&self, public_provider: SecureField, result_provider: SecureField) -> (r:
        SecureField)
        requires
            self.wf(),
            public_provider.wf(),
            result_provider.wf(),
        ensures
            r == sf_sum_of(self.lookup_terms(public_provider, result_provider)),
            r.wf(),
    {
        let mut terms: Vec<SecureField> = Vec::new();
        terms.push(public_provider);
        terms.push(result_provider);
        terms.push(self.scalar_setup.claimed_sum);
        terms.push(self.cert_scalar_inputs.claimed_sum);
        terms.push(self.fake_glv_scalar_air.claimed_sum);
        terms.push(self.fake_glv_selector_air.claimed_sum);
        terms.push(self.scalar_mod_muls.total());
        terms.push(self.prepared_table_projective_source.total());
        terms.push(self.fake_glv_projective_source.total());
        terms.push(self.fake_glv_chain_expansion.total());
        terms.push(self.fake_glv_chain_continuity.claimed_sum);
        terms.push(self.fake_glv_direct_prepared_operand.total());
        terms.push(self.fake_glv_signed_selector_operand.total());
        terms.push(self.fake_glv_lsb_correction_operand.total());
        terms.push(self.fake_glv_prepared_point_source.total());
        terms.push(self.prepared_point_range7.claimed_sum);
        terms.push(self.final_check.claimed_sum);
        terms.push(self.public_key_on_curve.claimed_sum);
        terms.push(self.hinted_mul.total());
        terms.push(self.final_add.claimed_sum);
        proof {
            assert(terms@ =~= self.lookup_terms(public_provider, result_provider));
        }
        sum_terms(&terms)
    }

    /// The aggregate LogUp balance: what the statements provide on the relations,
    /// and what each component claims. A sound proof has balance zero. There is
    /// none where a statement meets a pole.
    pub fn lookup_sum(
        &self,
        instances: &Vec<PublicEcdsaInstance>,
        relations: &P256CurrentAirRelations,
    ) -> (r: Option<SecureField>)
        requires
            self.wf(),
            relations.public_inputs.wf(),
            relations.ecdsa_result.wf(),
            reduced_statements(instances@),
        ensures
            r is Some <==> providable(instances@, *relations),
            r matches Some(sum) ==> sum == sf_sum_of(
                self.lookup_terms(
                    provided(relations.public_inputs, statement_tuples(instances@)),
                    provided(relations.ecdsa_result, result_tuples(instances@)),
                ),
            ) && sum == stated_balance(*self, instances@, *relations) && sum.wf(),
    {
        match PublicProviders::from_instances(instances, relations) {
            None => None,
            Some(providers) => Some(
                self.sum_of_terms(providers.public_inputs, providers.ecdsa_result),
            ),
        }
    }

    /// The balances that the verifier checks, by name.
    pub fn relation_balances(
        &self,
        instances: &Vec<PublicEcdsaInstance>,
        relations: &P256CurrentAirRelations,
    ) -> (r: Option<Vec<(&'static str, SecureField)>>)
        requires
            self.wf(),
            relations.public_inputs.wf(),
            relations.ecdsa_result.wf(),
            reduced_statements(instances@),
        ensures
            r is Some <==> providable(instances@, *relations),
            r matches Some(balances) ==> balances@ == seq![
                ("LookupSum", stated_balance(*self, instances@, *relations)),
            ],
    {
        match self.lookup_sum(instances, relations) {
            None => None,
            Some(sum) => {
                let mut balances: Vec<(&'static str, SecureField)> = Vec::new();
                balances.push(("LookupSum", sum));
                Some(balances)
            },
        }
    }

    /// Named sums that must not be zero in a proof with active certificates.
    pub open spec fn spec_liveness(self) -> Seq<(&'static str, SecureField)> {
        seq![
            ("ScalarSetup", self.scalar_setup.claimed_sum),
            ("CertScalarInputs", self.cert_scalar_inputs.claimed_sum),
            ("PreparedTablePinned", self.prepared_table_pinned.claimed_sum),
            (
                "PreparedTableFinalCheckHint",
                self.prepared_table_pinned.final_check_hint.claimed_sum,
            ),
            (
                "PreparedTableProjectiveSourceProvider",
                self.prepared_table_projective_source.provider.claimed_sum,
            ),
            (
                "PreparedTableProjectiveSourceConsumer",
                self.prepared_table_projective_source.consumer.claimed_sum,
            ),
            (
                "FakeGlvProjectiveSourceProvider",
                self.fake_glv_projective_source.provider.claimed_sum,
            ),
            (
                "FakeGlvProjectiveSourceConsumer",
                self.fake_glv_projective_source.consumer.claimed_sum,
            ),
            (
                "FakeGlvDirectPreparedOperandProvider",
                self.fake_glv_direct_prepared_operand.provider.claimed_sum,
            ),
            (
                "FakeGlvDirectPreparedOperandConsumer",
                self.fake_glv_direct_prepared_operand.consumer.claimed_sum,
            ),
            (
                "FakeGlvSignedSelectorOperandProvider",
                self.fake_glv_signed_selector_operand.provider.claimed_sum,
            ),
            (
                "FakeGlvSignedSelectorOperandConsumer",
                self.fake_glv_signed_selector_operand.consumer.claimed_sum,
            ),
            (
                "FakeGlvLsbCorrectionOperandProvider",
                self.fake_glv_lsb_correction_operand.provider.claimed_sum,
            ),
            (
                "FakeGlvLsbCorrectionOperandConsumer",
                self.fake_glv_lsb_correction_operand.consumer.claimed_sum,
            ),
            (
                "FakeGlvPreparedPointSourceProvider",
                self.fake_glv_prepared_point_source.provider.claimed_sum,
            ),
            (
                "FakeGlvPreparedPointSourceConsumer",
                self.fake_glv_prepared_point_source.consumer.claimed_sum,
            ),
            ("FinalCheck", self.final_check.claimed_sum),
            ("PublicKeyCurve", self.public_key_on_curve.claimed_sum),
            ("HintedMul", self.hinted_mul.spec_total()),
            ("FinalAdd", self.final_add.claimed_sum),
        ]
    }

    /// Sums that witness the links between sub-graphs. A zero means that a link
    /// emitted nothing, which a balance alone cannot see.
    pub fn liveness_witnesses(&self) -> (r: Vec<(&'static str, SecureField)>)
        requires
            self.wf(),
        ensures
            r@ == self.spec_liveness(),
    {
        let mut witnesses: Vec<(&'static str, SecureField)> = Vec::new();
        witnesses.push(("ScalarSetup", self.scalar_setup.claimed_sum));
        witnesses.push(("CertScalarInputs", self.cert_scalar_inputs.claimed_sum));
        witnesses.push(("PreparedTablePinned", self.prepared_table_pinned.claimed_sum));
        witnesses.push(
            (
                "PreparedTableFinalCheckHint",
                self.prepared_table_pinned.final_check_hint.claimed_sum,
            ),
        );
        witnesses.push(
            (
                "PreparedTableProjectiveSourceProvider",
                self.prepared_table_projective_source.provider.claimed_sum,
            ),
        );
        witnesses.push(
            (
                "PreparedTableProjectiveSourceConsumer",
                self.prepared_table_projective_source.consumer.claimed_sum,
            ),
        );
        witnesses.push(
            (
                "FakeGlvProjectiveSourceProvider",
                self.fake_glv_projective_source.provider.claimed_sum,
            ),
        );
        witnesses.push(
            (
                "FakeGlvProjectiveSourceConsumer",
                self.fake_glv_projective_source.consumer.claimed_sum,
            ),
        );
        witnesses.push(
            (
                "FakeGlvDirectPreparedOperandProvider",
                self.fake_glv_direct_prepared_operand.provider.claimed_sum,
            ),
        );
        witnesses.push(
            (
                "FakeGlvDirectPreparedOperandConsumer",
                self.fake_glv_direct_prepared_operand.consumer.claimed_sum,
            ),
        );
        witnesses.push(
            (
                "FakeGlvSignedSelectorOperandProvider",
                self.fake_glv_signed_selector_operand.provider.claimed_sum,
            ),
        );
        witnesses.push(
            (
                "FakeGlvSignedSelectorOperandConsumer",
                self.fake_glv_signed_selector_operand.consumer.claimed_sum,
            ),
        );
        witnesses.push(
            (
                "FakeGlvLsbCorrectionOperandProvider",
                self.fake_glv_lsb_correction_operand.provider.claimed_sum,
            ),
        );
        witnesses.push(
            (
                "FakeGlvLsbCorrectionOperandConsumer",
                self.fake_glv_lsb_correction_operand.consumer.claimed_sum,
            ),
        );
        witnesses.push(
            (
                "FakeGlvPreparedPointSourceProvider",
                self.fake_glv_prepared_point_source.provider.claimed_sum,
            ),
        );
        witnesses.push(
            (
                "FakeGlvPreparedPointSourceConsumer",
                self.fake_glv_prepared_point_source.consumer.claimed_sum,
            ),
        );
        witnesses.push(("FinalCheck", self.final_check.claimed_sum));
        witnesses.push(("PublicKeyCurve", self.public_key_on_curve.claimed_sum));
        witnesses.push(("HintedMul", self.hinted_mul.total()));
        witnesses.push(("FinalAdd", self.final_add.claimed_sum));
        proof {
            assert(witnesses@ =~= self.spec_liveness());
        }
        witnesses
    }

    /// Balances and liveness witnesses together.
    pub fn relation_audit(
        &self,
        instances: &Vec<PublicEcdsaInstance>,
        relations: &P256CurrentAirRelations,
    ) -> (r: Option<P256CurrentAirRelationAudit>)
        requires
            self.wf(),
            relations.public_inputs.wf(),
            relations.ecdsa_result.wf(),
            reduced_statements(instances@),
        ensures
            r is Some <==> providable(instances@, *relations),
            r matches Some(audit) ==> audit.balances@ == seq![
                ("LookupSum", stated_balance(*self, instances@, *relations)),
            ] && audit.liveness@ == self.spec_liveness(),
    {
        match self.relation_balances(instances, relations) {
            None => None,
            Some(balances) => Some(
                P256CurrentAirRelationAudit { balances, liveness: self.liveness_witnesses() },
            ),
        }
    }

    /// The aggregate balance is zero. There is no answer where a statement meets
    /// a pole.
    pub fn verify_balanced(
        &self,
        instances: &Vec<PublicEcdsaInstance>,
        relations: &P256CurrentAirRelations,
    ) -> (r: Option<Result<(), P256ProofError>>)
        requires
            self.wf(),
            relations.public_inputs.wf(),
            relations.ecdsa_result.wf(),
            reduced_statements(instances@),
        ensures
            r == (if !providable(instances@, *relations) {
                None::<Result<(), P256ProofError>>
            } else if stated_balance(*self, instances@, *relations) == sf_zero() {
                Some(Ok::<(), P256ProofError>(()))
            } else {
                Some(
                    Err::<(), P256ProofError>(
                        P256ProofError::RelationImbalance { relation: "LookupSum" },
                    ),
                )
            }),
    {
        match self.relation_balances(instances, relations) {
            None => None,
            Some(balances) => {
                proof {
                    reveal_with_fuel(first_nonzero, 3);
                    assert(balances@.drop_last() =~= Seq::<(&'static str, SecureField)>::empty());
                }
                Some(verify_balances(&balances))
            },
        }
    }

    /// The messages that the claim absorbs: one per component, and three for
    /// the scalar multiplication slice. The pinned breakdown is not absorbed.
    pub open spec fn transcript_messages(self) -> Seq<Seq<SecureField>> {
        seq![
            seq![self.scalar_setup.claimed_sum],
            seq![self.cert_scalar_inputs.claimed_sum],
            seq![self.fake_glv_scalar_air.claimed_sum],
            seq![self.fake_glv_selector_air.claimed_sum],
            seq![self.scalar_mod_muls.scalar_mod_mul.claimed_sum],
            seq![self.scalar_mod_muls.range13.claimed_sum],
            seq![self.scalar_mod_muls.signed_carry.claimed_sum],
            seq![
                self.prepared_table_projective_source.provider.claimed_sum,
                self.prepared_table_projective_source.consumer.claimed_sum,
            ],
            seq![
                self.fake_glv_projective_source.provider.claimed_sum,
                self.fake_glv_projective_source.consumer.claimed_sum,
            ],
            seq![
                self.fake_glv_chain_expansion.expansion_claimed_sum,
                self.fake_glv_chain_expansion.primitive_claimed_sum,
            ],
            seq![self.fake_glv_chain_continuity.claimed_sum],
            seq![
                self.fake_glv_direct_prepared_operand.provider.claimed_sum,
                self.fake_glv_direct_prepared_operand.consumer.claimed_sum,
            ],
            seq![
                self.fake_glv_signed_selector_operand.provider.claimed_sum,
                self.fake_glv_signed_selector_operand.consumer.claimed_sum,
            ],
            seq![
                self.fake_glv_lsb_correction_operand.provider.claimed_sum,
                self.fake_glv_lsb_correction_operand.consumer.claimed_sum,
            ],
            seq![
                self.fake_glv_prepared_point_source.provider.claimed_sum,
                self.fake_glv_prepared_point_source.consumer.claimed_sum,
            ],
            seq![self.prepared_point_range7.claimed_sum],
            seq![self.final_check.claimed_sum],
            seq![self.public_key_on_curve.claimed_sum],
            seq![
                self.hinted_mul.claimed_sum,
                self.hinted_mul.gamma_range13,
                self.hinted_mul.gamma_signed,
                self.hinted_mul.range13,
                self.hinted_mul.signed_h,
                self.hinted_mul.signed_formula,
            ],
            seq![self.final_add.claimed_sum],
        ]
    }

    /// Absorbs every claimed sum, in component order.
    pub fn mix_into(&self, channel: &mut Transcript)
        ensures
            final(channel).digest@ == absorb_messages(
                old(channel).digest@,
                self.transcript_messages(),
            ),
            final(channel).blocks == 0,
    {
        let ghost start = channel.digest@;
        let ghost all = self.transcript_messages();
        proof {
            assert(all.take(0) =~= Seq::<Seq<SecureField>>::empty());
        }
        mix_one(channel, self.scalar_setup.claimed_sum, Ghost(start), Ghost(all), Ghost(0));
        mix_one(channel, self.cert_scalar_inputs.claimed_sum, Ghost(start), Ghost(all), Ghost(1));
        mix_one(channel, self.fake_glv_scalar_air.claimed_sum, Ghost(start), Ghost(all), Ghost(2));
        mix_one(
            channel,
            self.fake_glv_selector_air.claimed_sum,
            Ghost(start),
            Ghost(all),
            Ghost(3),
        );
        mix_one(
            channel,
            self.scalar_mod_muls.scalar_mod_mul.claimed_sum,
            Ghost(start),
            Ghost(all),
            Ghost(4),
        );
        mix_one(
            channel,
            self.scalar_mod_muls.range13.claimed_sum,
            Ghost(start),
            Ghost(all),
            Ghost(5),
        );
        mix_one(
            channel,
            self.scalar_mod_muls.signed_carry.claimed_sum,
            Ghost(start),
            Ghost(all),
            Ghost(6),
        );
        mix_two(
            channel,
            self.prepared_table_projective_source.provider.claimed_sum,
            self.prepared_table_projective_source.consumer.claimed_sum,
            Ghost(start),
            Ghost(all),
            Ghost(7),
        );
        mix_two(
            channel,
            self.fake_glv_projective_source.provider.claimed_sum,
            self.fake_glv_projective_source.consumer.claimed_sum,
            Ghost(start),
            Ghost(all),
            Ghost(8),
        );
        mix_two(
            channel,
            self.fake_glv_chain_expansion.expansion_claimed_sum,
            self.fake_glv_chain_expansion.primitive_claimed_sum,
            Ghost(start),
            Ghost(all),
            Ghost(9),
        );
        mix_one(
            channel,
            self.fake_glv_chain_continuity.claimed_sum,
            Ghost(start),
            Ghost(all),
            Ghost(10),
        );
        mix_two(
            channel,
            self.fake_glv_direct_prepared_operand.provider.claimed_sum,
            self.fake_glv_direct_prepared_operand.consumer.claimed_sum,
            Ghost(start),
            Ghost(all),
            Ghost(11),
        );
        mix_two(
            channel,
            self.fake_glv_signed_selector_operand.provider.claimed_sum,
            self.fake_glv_signed_selector_operand.consumer.claimed_sum,
            Ghost(start),
            Ghost(all),
            Ghost(12),
        );
        mix_two(
            channel,
            self.fake_glv_lsb_correction_operand.provider.claimed_sum,
            self.fake_glv_lsb_correction_operand.consumer.claimed_sum,
            Ghost(start),
            Ghost(all),
            Ghost(13),
        );
        mix_two(
            channel,
            self.fake_glv_prepared_point_source.provider.claimed_sum,
            self.fake_glv_prepared_point_source.consumer.claimed_sum,
            Ghost(start),
            Ghost(all),
            Ghost(14),
        );
        mix_one(
            channel,
            self.prepared_point_range7.claimed_sum,
            Ghost(start),
            Ghost(all),
            Ghost(15),
        );
        mix_one(channel, self.final_check.claimed_sum, Ghost(start), Ghost(all), Ghost(16));
        mix_one(channel, self.public_key_on_curve.claimed_sum, Ghost(start), Ghost(all), Ghost(17));
        mix_six(channel, &self.hinted_mul, Ghost(start), Ghost(all), Ghost(18));
        mix_one(channel, self.final_add.claimed_sum, Ghost(start), Ghost(all), Ghost(19));
        proof {
            assert(all.take(20) =~= all);
        }
    }
}

/// Absorbs message number `n` of a list, which has one element.
fn mix_one(
    channel: &mut Transcript,
    felt: SecureField,
    Ghost(start): Ghost<Seq<u8>>,
    Ghost(all): Ghost<Seq<Seq<SecureField>>>,
    Ghost(n): Ghost<int>,
)
    requires
        0 <= n < all.len(),
        all[n] == seq![felt],
        old(channel).digest@ == absorb_messages(start, all.take(n)),
    ensures
        final(channel).digest@ == absorb_messages(start, all.take(n + 1)),
        final(channel).blocks == 0,
{
    proof {
        assert(all.take(n + 1).drop_last() =~= all.take(n));
    }
    channel.mix_felt(felt);
}

/// Absorbs message number `n` of a list, which has two elements.
fn mix_two(
    channel: &mut Transcript,
    first: SecureField,
    second: SecureField,
    Ghost(start): Ghost<Seq<u8>>,
    Ghost(all): Ghost<Seq<Seq<SecureField>>>,
    Ghost(n): Ghost<int>,
)
    requires
        0 <= n < all.len(),
        all[n] == seq![first, second],
        old(channel).digest@ == absorb_messages(start, all.take(n)),
    ensures
        final(channel).digest@ == absorb_messages(start, all.take(n + 1)),
        final(channel).blocks == 0,
{
    let mut felts: Vec<SecureField> = Vec::new();
    felts.push(first);
    felts.push(second);
    proof {
        assert(felts@ =~= all[n]);
        assert(all.take(n + 1).drop_last() =~= all.take(n));
    }
    channel.mix_felts(&felts);
}

/// Absorbs message number `n` of a list, the sums of the hinted slice.
fn mix_six(
    channel: &mut Transcript,
    claim: &HintedMulProofInteractionClaim,
    Ghost(start): Ghost<Seq<u8>>,
    Ghost(all): Ghost<Seq<Seq<SecureField>>>,
    Ghost(n): Ghost<int>,
)
    requires
        0 <= n < all.len(),
        all[n] == seq![
            claim.claimed_sum,
            claim.gamma_range13,
            claim.gamma_signed,
            claim.range13,
            claim.signed_h,
            claim.signed_formula,
        ],
        old(channel).digest@ == absorb_messages(start, all.take(n)),
    ensures
        final(channel).digest@ == absorb_messages(start, all.take(n + 1)),
        final(channel).blocks == 0,
{
    let mut felts: Vec<SecureField> = Vec::new();
    felts.push(claim.claimed_sum);
    felts.push(claim.gamma_range13);
    felts.push(claim.gamma_signed);
    felts.push(claim.range13);
    felts.push(claim.signed_h);
    felts.push(claim.signed_formula);
    proof {
        assert(felts@ =~= all[n]);
        assert(all.take(n + 1).drop_last() =~= all.take(n));
    }
    channel.mix_felts(&felts);
}

/// Succeeds where every sum is zero; the error names the first that is not.
pub fn verify_balances(balances: &Vec<(&'static str, SecureField)>) -> (r: Result<
    (),
    P256ProofError,
>)
    ensures
        match first_nonzero(balances@) {
            None => r == Ok::<(), P256ProofError>(()),
            Some(relation) => r == Err::<(), P256ProofError>(
                P256ProofError::RelationImbalance { relation },
            ),
        },
{
    match first_nonzero_entry(balances) {
        None => Ok(()),
        Some(relation) => Err(P256ProofError::RelationImbalance { relation }),
    }
}

/// The name of the first entry whose sum is not zero.
fn first_nonzero_entry(entries: &Vec<(&'static str, SecureField)>) -> (r: Option<&'static str>)
    ensures
        r == first_nonzero(entries@),
{
    let mut i: usize = 0;
    proof {
        assert(entries@.take(0) =~= Seq::<(&'static str, SecureField)>::empty());
    }
    while i < entries.len()
        invariant
            i <= entries@.len(),
            first_nonzero(entries@.take(i as int)) is None,
        decreases entries@.len() - i,
    {
        proof {
            assert(entries@.take(i + 1).drop_last() =~= entries@.take(i as int));
            assert(entries@.take(i + 1).last() == entries@[i as int]);
        }
        if entries[i].1 != SecureField::zero() {
            proof {
                lemma_first_nonzero_stays(entries@, i + 1);
            }
            return Some(entries[i].0);
        }
        i = i + 1;
    }
    proof {
        assert(entries@.take(i as int) =~= entries@);
    }
    None
}

/// The first nonzero entry of a prefix is that of the whole list.
proof fn lemma_first_nonzero_stays(entries: Seq<(&'static str, SecureField)>, n: int)
    requires
        0 <= n <= entries.len(),
        first_nonzero(entries.take(n)) is Some,
    ensures
        first_nonzero(entries) == first_nonzero(entries.take(n)),
    decreases entries.len() - n,
{
    if n == entries.len() {
        assert(entries.take(n) =~= entries);
    } else {
        assert(entries.take(n + 1).drop_last() =~= entries.take(n));
        lemma_first_nonzero_stays(entries, n + 1);
    }
}

/// Every balance of a proof, and the liveness witnesses of its links. A sound
/// and fully linked proof is balanced and has no dead links.
#[derive(Clone, Debug)]
pub struct P256CurrentAirRelationAudit {
    pub balances: Vec<(&'static str, SecureField)>,
    pub liveness: Vec<(&'static str, SecureField)>,
}

/// Names of the entries whose sum is zero, or of those whose sum is not.
fn collect_names(entries: &Vec<(&'static str, SecureField)>, zero: bool) -> (r: Vec<&'static str>)
    ensures
        r@ == names_where(entries@, zero),
{
    let mut names: Vec<&'static str> = Vec::new();
    let mut i: usize = 0;
    proof {
        assert(entries@.take(0) =~= Seq::<(&'static str, SecureField)>::empty());
    }
    while i < entries.len()
        invariant
            i <= entries@.len(),
            names@ == names_where(entries@.take(i as int), zero),
        decreases entries@.len() - i,
    {
        proof {
            assert(entries@.take(i + 1).drop_last() =~= entries@.take(i as int));
            assert(entries@.take(i + 1).last() == entries@[i as int]);
        }
        if (entries[i].1 == SecureField::zero()) == zero {
            names.push(entries[i].0);
        }
        i = i + 1;
    }
    proof {
        assert(entries@.take(i as int) =~= entries@);
    }
    names
}

impl P256CurrentAirRelationAudit {
    /// Names of all relations that do not balance, in order.
    pub fn imbalanced(&self) -> (r: Vec<&'static str>)
        ensures
            r@ == names_where(self.balances@, false),
    {
        collect_names(&self.balances, false)
    }

    /// The first relation that does not balance.
    pub fn first_imbalance(&self) -> (r: Option<&'static str>)
        ensures
            r == first_nonzero(self.balances@),
    {
        first_nonzero_entry(&self.balances)
    }

    pub fn is_balanced(&self) -> (r: bool)
        ensures
            r == all_zero(self.balances@),
    {
        let mut i: usize = 0;
        while i < self.balances.len()
            invariant
                i <= self.balances@.len(),
                forall|k: int| 0 <= k < i ==> (#[trigger] self.balances@[k]).1 == sf_zero(),
            decreases self.balances@.len() - i,
        {
            if self.balances[i].1 != SecureField::zero() {
                assert(self.balances@[i as int].1 != sf_zero());
                return false;
            }
            i = i + 1;
        }
        true
    }

    /// Names of all relations that the audit covers.
    pub fn relation_names(&self) -> (r: Vec<&'static str>)
        ensures
            r@ == self.balances@.map_values(|e: (&'static str, SecureField)| e.0),
    {
        let mut names: Vec<&'static str> = Vec::new();
        let mut i: usize = 0;
        while i < self.balances.len()
            invariant
                i <= self.balances@.len(),
                names@.len() == i,
                forall|k: int| 0 <= k < i ==> #[trigger] names@[k] == self.balances@[k].0,
            decreases self.balances@.len() - i,
        {
            names.push(self.balances[i].0);
            i = i + 1;
        }
        proof {
            assert(names@ =~= self.balances@.map_values(|e: (&'static str, SecureField)| e.0));
        }
        names
    }

    /// Names of the links that emitted nothing.
    pub fn dead_links(&self) -> (r: Vec<&'static str>)
        ensures
            r@ == names_where(self.liveness@, true),
    {
        collect_names(&self.liveness, true)
    }
}

/// Law: the three ways to ask for a balance agree. There is no imbalance to
/// list exactly where all sums are zero, and the first one listed is the first
/// imbalance.
pub proof fn law_audit_answers_agree(entries: Seq<(&'static str, SecureField)>)
    ensures
        all_zero(entries) <==> names_where(entries, false).len() == 0,
        all_zero(entries) <==> first_nonzero(entries) is None,
        !all_zero(entries) ==> first_nonzero(entries) == Some(names_where(entries, false)[0]),
    decreases entries.len(),
{
    if entries.len() > 0 {
        let front = entries.drop_last();
        law_audit_answers_agree(front);
        assert(all_zero(entries) <==> all_zero(front) && entries.last().1 == sf_zero()) by {
            if all_zero(front) && entries.last().1 == sf_zero() {
                assert forall|i: int| 0 <= i < entries.len() implies (#[trigger] entries[i]).1
                    == sf_zero() by {
                    if i < front.len() {
                        assert(front[i] == entries[i]);
                    }
                }
            }
            if all_zero(entries) {
                assert forall|i: int| 0 <= i < front.len() implies (#[trigger] front[i]).1
                    == sf_zero() by {
                    assert(front[i] == entries[i]);
                }
                assert(entries[entries.len() - 1].1 == sf_zero());
            }
        }
    }
}

/// Law: every relation of an audit is listed either as balanced or as
/// imbalanced, never as both.
pub proof fn law_audit_is_exhaustive(entries: Seq<(&'static str, SecureField)>)
    ensures
        names_where(entries, true).len() + names_where(entries, false).len() == entries.len(),
    decreases entries.len(),
{
    if entries.len() > 0 {
        law_audit_is_exhaustive(entries.drop_last());
    }
}

/// Law: changing one claimed term of a balanced proof unbalances it.
pub proof fn law_single_change_unbalances(terms: Seq<SecureField>, j: int, delta: SecureField)
    requires
        0 <= j < terms.len(),
        forall|i: int| 0 <= i < terms.len() ==> (#[trigger] terms[i]).wf(),
        delta.wf(),
        delta != sf_zero(),
        sf_sum_of(terms) == sf_zero(),
    ensures
        sf_sum_of(terms.update(j, sf_sum(terms[j], delta))) != sf_zero(),
{
    law_sum_of_update(terms, j, delta);
    law_sum_identity(delta);
}

/// The terms of the balance are reduced.
pub proof fn lemma_terms_reduced(
    claim: P256CurrentAirInteractionClaim,
    public_provider: SecureField,
    result_provider: SecureField,
)
    requires
        claim.wf(),
        public_provider.wf(),
        result_provider.wf(),
    ensures
        forall|i: int|
            0 <= i < claim.lookup_terms(public_provider, result_provider).len() ==> (
            #[trigger] claim.lookup_terms(public_provider, result_provider)[i]).wf(),
{
    assert forall|x: SecureField, y: SecureField| (#[trigger] sf_sum(x, y)).wf() by {
        lemma_results_reduced(x, y);
    }
    let h = claim.hinted_mul;
    lemma_sum_of_reduced(
        seq![
            h.claimed_sum,
            h.gamma_range13,
            h.gamma_signed,
            h.range13,
            h.signed_h,
            h.signed_formula,
        ],
    );
}

/// Law: an all-zero claim balances against providers that cancel.
pub proof fn law_zero_claim_balances(
    claim: P256CurrentAirInteractionClaim,
    public_provider: SecureField,
)
    requires
        claim.is_zero(),
        public_provider == sf_zero(),
    ensures
        sf_sum_of(claim.lookup_terms(public_provider, sf_zero())) == sf_zero(),
{
    let terms = claim.lookup_terms(public_provider, sf_zero());
    law_sum_identity(sf_zero());
    let six = seq![
        claim.hinted_mul.claimed_sum,
        claim.hinted_mul.gamma_range13,
        claim.hinted_mul.gamma_signed,
        claim.hinted_mul.range13,
        claim.hinted_mul.signed_h,
        claim.hinted_mul.signed_formula,
    ];
    crate::fields::law_sum_of_zeros(six);
    crate::fields::law_sum_of_zeros(terms);
}

} // verus!
