//! What each part of a proof is wired to: its claim, its challenges, its claimed
//! sums and its relation instances.
use crate::fields::{
    law_sum_identity, law_sum_of_concat, lemma_results_reduced, lemma_sum_of_reduced, sf_sum,
    sf_sum_of, sf_zero, SecureField,
};
use crate::pipeline::claim::{copy_words, P256CurrentAirProofClaim};
use crate::pipeline::interaction_claim::P256CurrentAirInteractionClaim;
use crate::pipeline::relations::{
    as_lookup, GammaChallenge, HintedMulChallenge, LookupRelation, P256CurrentAirRelations,
};
use crate::range_checks::RangeCheckRelation;
use vstd::prelude::*;

verus! {

/// The claim, the challenges, the claimed sums and the relation instances of one
/// part.
#[derive(Clone, Debug)]
pub struct ComponentWiring {
    pub part: &'static str,
    /// The part's claim; the row offset comes last where rows are numbered past
    /// those of another part.
    pub claim_words: Vec<u64>,
    /// The point at which the part checks its hinted products, if it has any.
    pub hinted_challenge: Option<HintedMulChallenge>,
    /// The challenge of the part's digests, if it has any.
    pub gamma_challenge: Option<GammaChallenge>,
    pub claimed_sums: Vec<SecureField>,
    pub relations: Vec<LookupRelation>,
}

/// The wiring of a part, as a value.
pub ghost struct Wiring {
    pub part: &'static str,
    pub claim_words: Seq<u64>,
    pub hinted_challenge: Option<HintedMulChallenge>,
    pub gamma_challenge: Option<GammaChallenge>,
    pub claimed_sums: Seq<SecureField>,
    pub relations: Seq<LookupRelation>,
}

impl ComponentWiring {
    pub open spec fn spec_wiring(&self) -> Wiring {
        Wiring {
            part: self.part,
            claim_words: self.claim_words@,
            hinted_challenge: self.hinted_challenge,
            gamma_challenge: self.gamma_challenge,
            claimed_sums: self.claimed_sums@,
            relations: self.relations@,
        }
    }
}

/// A range-check instance as a lookup instance.
fn to_lookup(relation: &RangeCheckRelation) -> (r: LookupRelation)
    ensures
        r == as_lookup(*relation),
{
    LookupRelation { z: relation.z, alpha: relation.alpha }
}

/// Wiring of `scalar_setup`.
pub open spec fn scalar_setup_wiring(
    claim: P256CurrentAirProofClaim,
    interaction: P256CurrentAirInteractionClaim,
    relations: P256CurrentAirRelations,
) -> Wiring {
    Wiring {
        part: "scalar_setup",
        claim_words: claim.scalar_setup.words@,
        hinted_challenge: None,
        gamma_challenge: None,
        claimed_sums: seq![interaction.scalar_setup.claimed_sum],
        relations: seq![
            relations.scalar_setup.public_inputs,
            relations.scalar_setup.output,
            relations.scalar_setup.scalar_mod_mul.scalar_limb,
            as_lookup(relations.scalar_setup.scalar_mod_mul.range13),
            as_lookup(relations.scalar_setup.scalar_mod_mul.signed_carry),
            as_lookup(relations.scalar_setup.range13),
            as_lookup(relations.scalar_setup.range9),
            as_lookup(relations.scalar_setup.signed_carry),
            relations.scalar_setup.public_key_point,
        ],
    }
}

fn wire_scalar_setup(
    claim: &P256CurrentAirProofClaim,
    interaction: &P256CurrentAirInteractionClaim,
    relations: &P256CurrentAirRelations,
) -> (r: ComponentWiring)
    ensures
        r.spec_wiring() == scalar_setup_wiring(*claim, *interaction, *relations),
{
    let claimed_sums: Vec<SecureField> = vec![interaction.scalar_setup.claimed_sum];
    let wired: Vec<LookupRelation> = vec![
        relations.scalar_setup.public_inputs,
        relations.scalar_setup.output,
        relations.scalar_setup.scalar_mod_mul.scalar_limb,
        to_lookup(&relations.scalar_setup.scalar_mod_mul.range13),
        to_lookup(&relations.scalar_setup.scalar_mod_mul.signed_carry),
        to_lookup(&relations.scalar_setup.range13),
        to_lookup(&relations.scalar_setup.range9),
        to_lookup(&relations.scalar_setup.signed_carry),
        relations.scalar_setup.public_key_point,
    ];
    let claim_words: Vec<u64> = copy_words(&claim.scalar_setup.words);
    proof {
        let w = scalar_setup_wiring(*claim, *interaction, *relations);
        assert(claim_words@ =~= w.claim_words);
        assert(claimed_sums@ =~= w.claimed_sums);
        assert(wired@ =~= w.relations);
    }
    ComponentWiring {
        part: "scalar_setup",
        claim_words,
        hinted_challenge: None,
        gamma_challenge: None,
        claimed_sums,
        relations: wired,
    }
}

/// Wiring of `cert_scalar_inputs`.
pub open spec fn cert_scalar_inputs_wiring(
    claim: P256CurrentAirProofClaim,
    interaction: P256CurrentAirInteractionClaim,
    relations: P256CurrentAirRelations,
) -> Wiring {
    Wiring {
        part: "cert_scalar_inputs",
        claim_words: claim.cert_scalar_inputs.words@,
        hinted_challenge: None,
        gamma_challenge: None,
        claimed_sums: seq![interaction.cert_scalar_inputs.claimed_sum],
        relations: seq![
            relations.scalar_setup_output,
            relations.cert_scalar_input,
            relations.cert_base,
        ],
    }
}

fn wire_cert_scalar_inputs(
    claim: &P256CurrentAirProofClaim,
    interaction: &P256CurrentAirInteractionClaim,
    relations: &P256CurrentAirRelations,
) -> (r: ComponentWiring)
    ensures
        r.spec_wiring() == cert_scalar_inputs_wiring(*claim, *interaction, *relations),
{
    let claimed_sums: Vec<SecureField> = vec![interaction.cert_scalar_inputs.claimed_sum];
    let wired: Vec<LookupRelation> = vec![
        relations.scalar_setup_output,
        relations.cert_scalar_input,
        relations.cert_base,
    ];
    let claim_words: Vec<u64> = copy_words(&claim.cert_scalar_inputs.words);
    proof {
        let w = cert_scalar_inputs_wiring(*claim, *interaction, *relations);
        assert(claim_words@ =~= w.claim_words);
        assert(claimed_sums@ =~= w.claimed_sums);
        assert(wired@ =~= w.relations);
    }
    ComponentWiring {
        part: "cert_scalar_inputs",
        claim_words,
        hinted_challenge: None,
        gamma_challenge: None,
        claimed_sums,
        relations: wired,
    }
}

/// Wiring of `fake_glv_scalar_air`.
pub open spec fn fake_glv_scalar_air_wiring(
    claim: P256CurrentAirProofClaim,
    interaction: P256CurrentAirInteractionClaim,
    relations: P256CurrentAirRelations,
) -> Wiring {
    Wiring {
        part: "fake_glv_scalar_air",
        claim_words: claim.fake_glv_scalar_air.words@,
        hinted_challenge: None,
        gamma_challenge: None,
        claimed_sums: seq![interaction.fake_glv_scalar_air.claimed_sum],
        relations: seq![
            relations.cert_scalar_input,
            relations.fake_glv_scalar,
            relations.scalar_mod_mul.scalar_limb,
            relations.final_add_sign,
        ],
    }
}

fn wire_fake_glv_scalar_air(
    claim: &P256CurrentAirProofClaim,
    interaction: &P256CurrentAirInteractionClaim,
    relations: &P256CurrentAirRelations,
) -> (r: ComponentWiring)
    ensures
        r.spec_wiring() == fake_glv_scalar_air_wiring(*claim, *interaction, *relations),
{
    let claimed_sums: Vec<SecureField> = vec![interaction.fake_glv_scalar_air.claimed_sum];
    let wired: Vec<LookupRelation> = vec![
        relations.cert_scalar_input,
        relations.fake_glv_scalar,
        relations.scalar_mod_mul.scalar_limb,
        relations.final_add_sign,
    ];
    let claim_words: Vec<u64> = copy_words(&claim.fake_glv_scalar_air.words);
    proof {
        let w = fake_glv_scalar_air_wiring(*claim, *interaction, *relations);
        assert(claim_words@ =~= w.claim_words);
        assert(claimed_sums@ =~= w.claimed_sums);
        assert(wired@ =~= w.relations);
    }
    ComponentWiring {
        part: "fake_glv_scalar_air",
        claim_words,
        hinted_challenge: None,
        gamma_challenge: None,
        claimed_sums,
        relations: wired,
    }
}

/// Wiring of `fake_glv_selector_air`.
pub open spec fn fake_glv_selector_air_wiring(
    claim: P256CurrentAirProofClaim,
    interaction: P256CurrentAirInteractionClaim,
    relations: P256CurrentAirRelations,
) -> Wiring {
    Wiring {
        part: "fake_glv_selector_air",
        claim_words: claim.fake_glv_selector_air.words@,
        hinted_challenge: None,
        gamma_challenge: None,
        claimed_sums: seq![interaction.fake_glv_selector_air.claimed_sum],
        relations: seq![relations.fake_glv_scalar],
    }
}

fn wire_fake_glv_selector_air(
    claim: &P256CurrentAirProofClaim,
    interaction: &P256CurrentAirInteractionClaim,
    relations: &P256CurrentAirRelations,
) -> (r: ComponentWiring)
    ensures
        r.spec_wiring() == fake_glv_selector_air_wiring(*claim, *interaction, *relations),
{
    let claimed_sums: Vec<SecureField> = vec![interaction.fake_glv_selector_air.claimed_sum];
    let wired: Vec<LookupRelation> = vec![relations.fake_glv_scalar];
    let claim_words: Vec<u64> = copy_words(&claim.fake_glv_selector_air.words);
    proof {
        let w = fake_glv_selector_air_wiring(*claim, *interaction, *relations);
        assert(claim_words@ =~= w.claim_words);
        assert(claimed_sums@ =~= w.claimed_sums);
        assert(wired@ =~= w.relations);
    }
    ComponentWiring {
        part: "fake_glv_selector_air",
        claim_words,
        hinted_challenge: None,
        gamma_challenge: None,
        claimed_sums,
        relations: wired,
    }
}

/// Wiring of `scalar_mod_muls`.
pub open spec fn scalar_mod_muls_wiring(
    claim: P256CurrentAirProofClaim,
    interaction: P256CurrentAirInteractionClaim,
    relations: P256CurrentAirRelations,
) -> Wiring {
    Wiring {
        part: "scalar_mod_muls",
        claim_words: claim.scalar_mod_muls.words@,
        hinted_challenge: None,
        gamma_challenge: None,
        claimed_sums: seq![
            interaction.scalar_mod_muls.scalar_mod_mul.claimed_sum,
            interaction.scalar_mod_muls.range13.claimed_sum,
            interaction.scalar_mod_muls.signed_carry.claimed_sum,
        ],
        relations: seq![
            relations.scalar_mod_mul.scalar_limb,
            as_lookup(relations.scalar_mod_mul.range13),
            as_lookup(relations.scalar_mod_mul.signed_carry),
        ],
    }
}

fn wire_scalar_mod_muls(
    claim: &P256CurrentAirProofClaim,
    interaction: &P256CurrentAirInteractionClaim,
    relations: &P256CurrentAirRelations,
) -> (r: ComponentWiring)
    ensures
        r.spec_wiring() == scalar_mod_muls_wiring(*claim, *interaction, *relations),
{
    let claimed_sums: Vec<SecureField> = vec![
        interaction.scalar_mod_muls.scalar_mod_mul.claimed_sum,
        interaction.scalar_mod_muls.range13.claimed_sum,
        interaction.scalar_mod_muls.signed_carry.claimed_sum,
    ];
    let wired: Vec<LookupRelation> = vec![
        relations.scalar_mod_mul.scalar_limb,
        to_lookup(&relations.scalar_mod_mul.range13),
        to_lookup(&relations.scalar_mod_mul.signed_carry),
    ];
    let claim_words: Vec<u64> = copy_words(&claim.scalar_mod_muls.words);
    proof {
        let w = scalar_mod_muls_wiring(*claim, *interaction, *relations);
        assert(claim_words@ =~= w.claim_words);
        assert(claimed_sums@ =~= w.claimed_sums);
        assert(wired@ =~= w.relations);
    }
    ComponentWiring {
        part: "scalar_mod_muls",
        claim_words,
        hinted_challenge: None,
        gamma_challenge: None,
        claimed_sums,
        relations: wired,
    }
}

/// Wiring of `prepared_table_projective_source`.
pub open spec fn prepared_table_projective_source_wiring(
    claim: P256CurrentAirProofClaim,
    interaction: P256CurrentAirInteractionClaim,
    relations: P256CurrentAirRelations,
) -> Wiring {
    Wiring {
        part: "prepared_table_projective_source",
        claim_words: claim.prepared_table_projective_source.words@,
        hinted_challenge: None,
        gamma_challenge: None,
        claimed_sums: seq![
            interaction.prepared_table_projective_source.provider.claimed_sum,
            interaction.prepared_table_projective_source.consumer.claimed_sum,
        ],
        relations: seq![
            relations.prepared_table,
            relations.cert_base,
            relations.prepared_table_canonical,
            relations.final_check_hint,
            as_lookup(relations.projective_rcb_air.range13),
            relations.projective_rcb_air.mul_result,
            relations.ec_op_header,
        ],
    }
}

fn wire_prepared_table_projective_source(
    claim: &P256CurrentAirProofClaim,
    interaction: &P256CurrentAirInteractionClaim,
    relations: &P256CurrentAirRelations,
) -> (r: ComponentWiring)
    ensures
        r.spec_wiring() == prepared_table_projective_source_wiring(*claim, *interaction, *relations),
{
    let claimed_sums: Vec<SecureField> = vec![
        interaction.prepared_table_projective_source.provider.claimed_sum,
        interaction.prepared_table_projective_source.consumer.claimed_sum,
    ];
    let wired: Vec<LookupRelation> = vec![
        relations.prepared_table,
        relations.cert_base,
        relations.prepared_table_canonical,
        relations.final_check_hint,
        to_lookup(&relations.projective_rcb_air.range13),
        relations.projective_rcb_air.mul_result,
        relations.ec_op_header,
    ];
    let claim_words: Vec<u64> = copy_words(&claim.prepared_table_projective_source.words);
    proof {
        let w = prepared_table_projective_source_wiring(*claim, *interaction, *relations);
        assert(claim_words@ =~= w.claim_words);
        assert(claimed_sums@ =~= w.claimed_sums);
        assert(wired@ =~= w.relations);
    }
    ComponentWiring {
        part: "prepared_table_projective_source",
        claim_words,
        hinted_challenge: None,
        gamma_challenge: None,
        claimed_sums,
        relations: wired,
    }
}

/// Wiring of `fake_glv_projective_source`.
pub open spec fn fake_glv_projective_source_wiring(
    claim: P256CurrentAirProofClaim,
    interaction: P256CurrentAirInteractionClaim,
    relations: P256CurrentAirRelations,
) -> Wiring {
    Wiring {
        part: "fake_glv_projective_source",
        claim_words: claim.fake_glv_projective_source.spec_words(),
        hinted_challenge: None,
        gamma_challenge: None,
        claimed_sums: seq![
            interaction.fake_glv_projective_source.provider.claimed_sum,
            interaction.fake_glv_projective_source.consumer.claimed_sum,
        ],
        relations: seq![
            relations.fake_glv_projective_source,
            as_lookup(relations.projective_rcb_air.range13),
            relations.projective_rcb_air.mul_result,
            relations.ec_op_header,
        ],
    }
}

fn wire_fake_glv_projective_source(
    claim: &P256CurrentAirProofClaim,
    interaction: &P256CurrentAirInteractionClaim,
    relations: &P256CurrentAirRelations,
) -> (r: ComponentWiring)
    ensures
        r.spec_wiring() == fake_glv_projective_source_wiring(*claim, *interaction, *relations),
{
    let claimed_sums: Vec<SecureField> = vec![
        interaction.fake_glv_projective_source.provider.claimed_sum,
        interaction.fake_glv_projective_source.consumer.claimed_sum,
    ];
    let wired: Vec<LookupRelation> = vec![
        relations.fake_glv_projective_source,
        to_lookup(&relations.projective_rcb_air.range13),
        relations.projective_rcb_air.mul_result,
        relations.ec_op_header,
    ];
    let claim_words: Vec<u64> = claim.fake_glv_projective_source.words();
    proof {
        let w = fake_glv_projective_source_wiring(*claim, *interaction, *relations);
        assert(claim_words@ =~= w.claim_words);
        assert(claimed_sums@ =~= w.claimed_sums);
        assert(wired@ =~= w.relations);
    }
    ComponentWiring {
        part: "fake_glv_projective_source",
        claim_words,
        hinted_challenge: None,
        gamma_challenge: None,
        claimed_sums,
        relations: wired,
    }
}

/// Wiring of `fake_glv_chain_expansion`.
pub open spec fn fake_glv_chain_expansion_wiring(
    claim: P256CurrentAirProofClaim,
    interaction: P256CurrentAirInteractionClaim,
    relations: P256CurrentAirRelations,
) -> Wiring {
    Wiring {
        part: "fake_glv_chain_expansion",
        claim_words: claim.fake_glv_chain_expansion.spec_words(),
        hinted_challenge: None,
        gamma_challenge: None,
        claimed_sums: seq![
            interaction.fake_glv_chain_expansion.expansion_claimed_sum,
            interaction.fake_glv_chain_expansion.primitive_claimed_sum,
        ],
        relations: seq![relations.fake_glv_chain_expansion],
    }
}

fn wire_fake_glv_chain_expansion(
    claim: &P256CurrentAirProofClaim,
    interaction: &P256CurrentAirInteractionClaim,
    relations: &P256CurrentAirRelations,
) -> (r: ComponentWiring)
    ensures
        r.spec_wiring() == fake_glv_chain_expansion_wiring(*claim, *interaction, *relations),
{
    let claimed_sums: Vec<SecureField> = vec![
        interaction.fake_glv_chain_expansion.expansion_claimed_sum,
        interaction.fake_glv_chain_expansion.primitive_claimed_sum,
    ];
    let wired: Vec<LookupRelation> = vec![relations.fake_glv_chain_expansion];
    let claim_words: Vec<u64> = claim.fake_glv_chain_expansion.words();
    proof {
        let w = fake_glv_chain_expansion_wiring(*claim, *interaction, *relations);
        assert(claim_words@ =~= w.claim_words);
        assert(claimed_sums@ =~= w.claimed_sums);
        assert(wired@ =~= w.relations);
    }
    ComponentWiring {
        part: "fake_glv_chain_expansion",
        claim_words,
        hinted_challenge: None,
        gamma_challenge: None,
        claimed_sums,
        relations: wired,
    }
}

/// Wiring of `fake_glv_chain_continuity`.
pub open spec fn fake_glv_chain_continuity_wiring(
    claim: P256CurrentAirProofClaim,
    interaction: P256CurrentAirInteractionClaim,
    relations: P256CurrentAirRelations,
) -> Wiring {
    Wiring {
        part: "fake_glv_chain_continuity",
        claim_words: claim.fake_glv_chain_continuity.words@,
        hinted_challenge: None,
        gamma_challenge: None,
        claimed_sums: seq![interaction.fake_glv_chain_continuity.claimed_sum],
        relations: seq![relations.fake_glv_chain_continuity],
    }
}

fn wire_fake_glv_chain_continuity(
    claim: &P256CurrentAirProofClaim,
    interaction: &P256CurrentAirInteractionClaim,
    relations: &P256CurrentAirRelations,
) -> (r: ComponentWiring)
    ensures
        r.spec_wiring() == fake_glv_chain_continuity_wiring(*claim, *interaction, *relations),
{
    let claimed_sums: Vec<SecureField> = vec![interaction.fake_glv_chain_continuity.claimed_sum];
    let wired: Vec<LookupRelation> = vec![relations.fake_glv_chain_continuity];
    let claim_words: Vec<u64> = copy_words(&claim.fake_glv_chain_continuity.words);
    proof {
        let w = fake_glv_chain_continuity_wiring(*claim, *interaction, *relations);
        assert(claim_words@ =~= w.claim_words);
        assert(claimed_sums@ =~= w.claimed_sums);
        assert(wired@ =~= w.relations);
    }
    ComponentWiring {
        part: "fake_glv_chain_continuity",
        claim_words,
        hinted_challenge: None,
        gamma_challenge: None,
        claimed_sums,
        relations: wired,
    }
}

/// Wiring of `fake_glv_chain_schedule`.
pub open spec fn fake_glv_chain_schedule_wiring(
    claim: P256CurrentAirProofClaim,
    interaction: P256CurrentAirInteractionClaim,
    relations: P256CurrentAirRelations,
) -> Wiring {
    Wiring {
        part: "fake_glv_chain_schedule",
        claim_words: claim.fake_glv_chain_schedule.words@,
        hinted_challenge: None,
        gamma_challenge: None,
        claimed_sums: seq![sf_zero()],
        relations: seq![],
    }
}

fn wire_fake_glv_chain_schedule(
    claim: &P256CurrentAirProofClaim,
    interaction: &P256CurrentAirInteractionClaim,
    relations: &P256CurrentAirRelations,
) -> (r: ComponentWiring)
    ensures
        r.spec_wiring() == fake_glv_chain_schedule_wiring(*claim, *interaction, *relations),
{
    let claimed_sums: Vec<SecureField> = vec![SecureField::zero()];
    let wired: Vec<LookupRelation> = Vec::new();
    let claim_words: Vec<u64> = copy_words(&claim.fake_glv_chain_schedule.words);
    proof {
        let w = fake_glv_chain_schedule_wiring(*claim, *interaction, *relations);
        assert(claim_words@ =~= w.claim_words);
        assert(claimed_sums@ =~= w.claimed_sums);
        assert(wired@ =~= w.relations);
    }
    ComponentWiring {
        part: "fake_glv_chain_schedule",
        claim_words,
        hinted_challenge: None,
        gamma_challenge: None,
        claimed_sums,
        relations: wired,
    }
}

/// Wiring of `fake_glv_direct_prepared_operand`.
pub open spec fn fake_glv_direct_prepared_operand_wiring(
    claim: P256CurrentAirProofClaim,
    interaction: P256CurrentAirInteractionClaim,
    relations: P256CurrentAirRelations,
) -> Wiring {
    Wiring {
        part: "fake_glv_direct_prepared_operand",
        claim_words: claim.fake_glv_direct_prepared_operand.words@,
        hinted_challenge: None,
        gamma_challenge: None,
        claimed_sums: seq![
            interaction.fake_glv_direct_prepared_operand.provider.claimed_sum,
            interaction.fake_glv_direct_prepared_operand.consumer.claimed_sum,
        ],
        relations: seq![relations.direct_prepared_operand],
    }
}

fn wire_fake_glv_direct_prepared_operand(
    claim: &P256CurrentAirProofClaim,
    interaction: &P256CurrentAirInteractionClaim,
    relations: &P256CurrentAirRelations,
) -> (r: ComponentWiring)
    ensures
        r.spec_wiring() == fake_glv_direct_prepared_operand_wiring(*claim, *interaction, *relations),
{
    let claimed_sums: Vec<SecureField> = vec![
        interaction.fake_glv_direct_prepared_operand.provider.claimed_sum,
        interaction.fake_glv_direct_prepared_operand.consumer.claimed_sum,
    ];
    let wired: Vec<LookupRelation> = vec![relations.direct_prepared_operand];
    let claim_words: Vec<u64> = copy_words(&claim.fake_glv_direct_prepared_operand.words);
    proof {
        let w = fake_glv_direct_prepared_operand_wiring(*claim, *interaction, *relations);
        assert(claim_words@ =~= w.claim_words);
        assert(claimed_sums@ =~= w.claimed_sums);
        assert(wired@ =~= w.relations);
    }
    ComponentWiring {
        part: "fake_glv_direct_prepared_operand",
        claim_words,
        hinted_challenge: None,
        gamma_challenge: None,
        claimed_sums,
        relations: wired,
    }
}

/// Wiring of `fake_glv_signed_selector_operand`.
pub open spec fn fake_glv_signed_selector_operand_wiring(
    claim: P256CurrentAirProofClaim,
    interaction: P256CurrentAirInteractionClaim,
    relations: P256CurrentAirRelations,
) -> Wiring {
    Wiring {
        part: "fake_glv_signed_selector_operand",
        claim_words: claim.fake_glv_signed_selector_operand.words@,
        hinted_challenge: None,
        gamma_challenge: None,
        claimed_sums: seq![
            interaction.fake_glv_signed_selector_operand.provider.claimed_sum,
            interaction.fake_glv_signed_selector_operand.consumer.claimed_sum,
        ],
        relations: seq![relations.signed_selector_operand],
    }
}

fn wire_fake_glv_signed_selector_operand(
    claim: &P256CurrentAirProofClaim,
    interaction: &P256CurrentAirInteractionClaim,
    relations: &P256CurrentAirRelations,
) -> (r: ComponentWiring)
    ensures
        r.spec_wiring() == fake_glv_signed_selector_operand_wiring(*claim, *interaction, *relations),
{
    let claimed_sums: Vec<SecureField> = vec![
        interaction.fake_glv_signed_selector_operand.provider.claimed_sum,
        interaction.fake_glv_signed_selector_operand.consumer.claimed_sum,
    ];
    let wired: Vec<LookupRelation> = vec![relations.signed_selector_operand];
    let claim_words: Vec<u64> = copy_words(&claim.fake_glv_signed_selector_operand.words);
    proof {
        let w = fake_glv_signed_selector_operand_wiring(*claim, *interaction, *relations);
        assert(claim_words@ =~= w.claim_words);
        assert(claimed_sums@ =~= w.claimed_sums);
        assert(wired@ =~= w.relations);
    }
    ComponentWiring {
        part: "fake_glv_signed_selector_operand",
        claim_words,
        hinted_challenge: None,
        gamma_challenge: None,
        claimed_sums,
        relations: wired,
    }
}

/// Wiring of `fake_glv_lsb_correction_operand`.
pub open spec fn fake_glv_lsb_correction_operand_wiring(
    claim: P256CurrentAirProofClaim,
    interaction: P256CurrentAirInteractionClaim,
    relations: P256CurrentAirRelations,
) -> Wiring {
    Wiring {
        part: "fake_glv_lsb_correction_operand",
        claim_words: claim.fake_glv_lsb_correction_operand.words@,
        hinted_challenge: None,
        gamma_challenge: None,
        claimed_sums: seq![
            interaction.fake_glv_lsb_correction_operand.provider.claimed_sum,
            interaction.fake_glv_lsb_correction_operand.consumer.claimed_sum,
        ],
        relations: seq![relations.lsb_correction_operand],
    }
}

fn wire_fake_glv_lsb_correction_operand(
    claim: &P256CurrentAirProofClaim,
    interaction: &P256CurrentAirInteractionClaim,
    relations: &P256CurrentAirRelations,
) -> (r: ComponentWiring)
    ensures
        r.spec_wiring() == fake_glv_lsb_correction_operand_wiring(*claim, *interaction, *relations),
{
    let claimed_sums: Vec<SecureField> = vec![
        interaction.fake_glv_lsb_correction_operand.provider.claimed_sum,
        interaction.fake_glv_lsb_correction_operand.consumer.claimed_sum,
    ];
    let wired: Vec<LookupRelation> = vec![relations.lsb_correction_operand];
    let claim_words: Vec<u64> = copy_words(&claim.fake_glv_lsb_correction_operand.words);
    proof {
        let w = fake_glv_lsb_correction_operand_wiring(*claim, *interaction, *relations);
        assert(claim_words@ =~= w.claim_words);
        assert(claimed_sums@ =~= w.claimed_sums);
        assert(wired@ =~= w.relations);
    }
    ComponentWiring {
        part: "fake_glv_lsb_correction_operand",
        claim_words,
        hinted_challenge: None,
        gamma_challenge: None,
        claimed_sums,
        relations: wired,
    }
}

/// Wiring of `fake_glv_prepared_point_source`.
pub open spec fn fake_glv_prepared_point_source_wiring(
    claim: P256CurrentAirProofClaim,
    interaction: P256CurrentAirInteractionClaim,
    relations: P256CurrentAirRelations,
) -> Wiring {
    Wiring {
        part: "fake_glv_prepared_point_source",
        claim_words: claim.fake_glv_prepared_point_source.words@,
        hinted_challenge: None,
        gamma_challenge: None,
        claimed_sums: seq![
            interaction.fake_glv_prepared_point_source.provider.claimed_sum,
            interaction.fake_glv_prepared_point_source.consumer.claimed_sum,
        ],
        relations: seq![relations.prepared_point_source, as_lookup(relations.range7)],
    }
}

fn wire_fake_glv_prepared_point_source(
    claim: &P256CurrentAirProofClaim,
    interaction: &P256CurrentAirInteractionClaim,
    relations: &P256CurrentAirRelations,
) -> (r: ComponentWiring)
    ensures
        r.spec_wiring() == fake_glv_prepared_point_source_wiring(*claim, *interaction, *relations),
{
    let claimed_sums: Vec<SecureField> = vec![
        interaction.fake_glv_prepared_point_source.provider.claimed_sum,
        interaction.fake_glv_prepared_point_source.consumer.claimed_sum,
    ];
    let wired: Vec<LookupRelation> = vec![
        relations.prepared_point_source,
        to_lookup(&relations.range7),
    ];
    let claim_words: Vec<u64> = copy_words(&claim.fake_glv_prepared_point_source.words);
    proof {
        let w = fake_glv_prepared_point_source_wiring(*claim, *interaction, *relations);
        assert(claim_words@ =~= w.claim_words);
        assert(claimed_sums@ =~= w.claimed_sums);
        assert(wired@ =~= w.relations);
    }
    ComponentWiring {
        part: "fake_glv_prepared_point_source",
        claim_words,
        hinted_challenge: None,
        gamma_challenge: None,
        claimed_sums,
        relations: wired,
    }
}

/// Wiring of `prepared_point_range7`.
pub open spec fn prepared_point_range7_wiring(
    claim: P256CurrentAirProofClaim,
    interaction: P256CurrentAirInteractionClaim,
    relations: P256CurrentAirRelations,
) -> Wiring {
    Wiring {
        part: "prepared_point_range7",
        claim_words: seq![claim.prepared_point_range7.log_size as u64],
        hinted_challenge: None,
        gamma_challenge: None,
        claimed_sums: seq![interaction.prepared_point_range7.claimed_sum],
        relations: seq![as_lookup(relations.range7)],
    }
}

fn wire_prepared_point_range7(
    claim: &P256CurrentAirProofClaim,
    interaction: &P256CurrentAirInteractionClaim,
    relations: &P256CurrentAirRelations,
) -> (r: ComponentWiring)
    ensures
        r.spec_wiring() == prepared_point_range7_wiring(*claim, *interaction, *relations),
{
    let claimed_sums: Vec<SecureField> = vec![interaction.prepared_point_range7.claimed_sum];
    let wired: Vec<LookupRelation> = vec![to_lookup(&relations.range7)];
    let claim_words: Vec<u64> = vec![claim.prepared_point_range7.log_size as u64];
    proof {
        let w = prepared_point_range7_wiring(*claim, *interaction, *relations);
        assert(claim_words@ =~= w.claim_words);
        assert(claimed_sums@ =~= w.claimed_sums);
        assert(wired@ =~= w.relations);
    }
    ComponentWiring {
        part: "prepared_point_range7",
        claim_words,
        hinted_challenge: None,
        gamma_challenge: None,
        claimed_sums,
        relations: wired,
    }
}

/// Wiring of `final_check`.
pub open spec fn final_check_wiring(
    claim: P256CurrentAirProofClaim,
    interaction: P256CurrentAirInteractionClaim,
    relations: P256CurrentAirRelations,
) -> Wiring {
    Wiring {
        part: "final_check",
        claim_words: claim.final_check.words@,
        hinted_challenge: None,
        gamma_challenge: None,
        claimed_sums: seq![interaction.final_check.claimed_sum],
        relations: seq![
            relations.ecdsa_result,
            as_lookup(relations.scalar_setup.range13),
            as_lookup(relations.scalar_setup.range9),
            as_lookup(relations.scalar_setup.signed_carry),
            relations.final_add.output,
        ],
    }
}

fn wire_final_check(
    claim: &P256CurrentAirProofClaim,
    interaction: &P256CurrentAirInteractionClaim,
    relations: &P256CurrentAirRelations,
) -> (r: ComponentWiring)
    ensures
        r.spec_wiring() == final_check_wiring(*claim, *interaction, *relations),
{
    let claimed_sums: Vec<SecureField> = vec![interaction.final_check.claimed_sum];
    let wired: Vec<LookupRelation> = vec![
        relations.ecdsa_result,
        to_lookup(&relations.scalar_setup.range13),
        to_lookup(&relations.scalar_setup.range9),
        to_lookup(&relations.scalar_setup.signed_carry),
        relations.final_add.output,
    ];
    let claim_words: Vec<u64> = copy_words(&claim.final_check.words);
    proof {
        let w = final_check_wiring(*claim, *interaction, *relations);
        assert(claim_words@ =~= w.claim_words);
        assert(claimed_sums@ =~= w.claimed_sums);
        assert(wired@ =~= w.relations);
    }
    ComponentWiring {
        part: "final_check",
        claim_words,
        hinted_challenge: None,
        gamma_challenge: None,
        claimed_sums,
        relations: wired,
    }
}

/// Wiring of `public_key_on_curve`.
pub open spec fn public_key_on_curve_wiring(
    claim: P256CurrentAirProofClaim,
    interaction: P256CurrentAirInteractionClaim,
    relations: P256CurrentAirRelations,
) -> Wiring {
    Wiring {
        part: "public_key_on_curve",
        claim_words: claim.public_key_on_curve.words@,
        hinted_challenge: None,
        gamma_challenge: Some(relations.public_key_on_curve.gamma_challenge),
        claimed_sums: seq![interaction.public_key_on_curve.claimed_sum],
        relations: seq![
            relations.public_key_on_curve.point,
            relations.public_key_on_curve.mul_result,
            as_lookup(relations.public_key_on_curve.range13),
            as_lookup(relations.public_key_on_curve.signed_carry),
            relations.public_key_on_curve.gamma_digest,
        ],
    }
}

fn wire_public_key_on_curve(
    claim: &P256CurrentAirProofClaim,
    interaction: &P256CurrentAirInteractionClaim,
    relations: &P256CurrentAirRelations,
) -> (r: ComponentWiring)
    ensures
        r.spec_wiring() == public_key_on_curve_wiring(*claim, *interaction, *relations),
{
    let claimed_sums: Vec<SecureField> = vec![interaction.public_key_on_curve.claimed_sum];
    let wired: Vec<LookupRelation> = vec![
        relations.public_key_on_curve.point,
        relations.public_key_on_curve.mul_result,
        to_lookup(&relations.public_key_on_curve.range13),
        to_lookup(&relations.public_key_on_curve.signed_carry),
        relations.public_key_on_curve.gamma_digest,
    ];
    let claim_words: Vec<u64> = copy_words(&claim.public_key_on_curve.words);
    proof {
        let w = public_key_on_curve_wiring(*claim, *interaction, *relations);
        assert(claim_words@ =~= w.claim_words);
        assert(claimed_sums@ =~= w.claimed_sums);
        assert(wired@ =~= w.relations);
    }
    ComponentWiring {
        part: "public_key_on_curve",
        claim_words,
        hinted_challenge: None,
        gamma_challenge: Some(relations.public_key_on_curve.gamma_challenge),
        claimed_sums,
        relations: wired,
    }
}

/// Wiring of `hinted_mul`.
pub open spec fn hinted_mul_wiring(
    claim: P256CurrentAirProofClaim,
    interaction: P256CurrentAirInteractionClaim,
    relations: P256CurrentAirRelations,
) -> Wiring {
    Wiring {
        part: "hinted_mul",
        claim_words: claim.hinted_mul.words@,
        hinted_challenge: Some(relations.hinted_challenge),
        gamma_challenge: None,
        claimed_sums: seq![
            interaction.hinted_mul.claimed_sum,
            interaction.hinted_mul.gamma_range13,
            interaction.hinted_mul.gamma_signed,
            interaction.hinted_mul.range13,
            interaction.hinted_mul.signed_h,
            interaction.hinted_mul.signed_formula,
        ],
        relations: seq![
            as_lookup(relations.projective_rcb_air.range13),
            as_lookup(relations.hinted_signed_h),
            relations.projective_rcb_air.mul_result,
            relations.ec_op_header,
            as_lookup(relations.hinted_signed_formula),
        ],
    }
}

fn wire_hinted_mul(
    claim: &P256CurrentAirProofClaim,
    interaction: &P256CurrentAirInteractionClaim,
    relations: &P256CurrentAirRelations,
) -> (r: ComponentWiring)
    ensures
        r.spec_wiring() == hinted_mul_wiring(*claim, *interaction, *relations),
{
    let claimed_sums: Vec<SecureField> = vec![
        interaction.hinted_mul.claimed_sum,
        interaction.hinted_mul.gamma_range13,
        interaction.hinted_mul.gamma_signed,
        interaction.hinted_mul.range13,
        interaction.hinted_mul.signed_h,
        interaction.hinted_mul.signed_formula,
    ];
    let wired: Vec<LookupRelation> = vec![
        to_lookup(&relations.projective_rcb_air.range13),
        to_lookup(&relations.hinted_signed_h),
        relations.projective_rcb_air.mul_result,
        relations.ec_op_header,
        to_lookup(&relations.hinted_signed_formula),
    ];
    let claim_words: Vec<u64> = copy_words(&claim.hinted_mul.words);
    proof {
        let w = hinted_mul_wiring(*claim, *interaction, *relations);
        assert(claim_words@ =~= w.claim_words);
        assert(claimed_sums@ =~= w.claimed_sums);
        assert(wired@ =~= w.relations);
    }
    ComponentWiring {
        part: "hinted_mul",
        claim_words,
        hinted_challenge: Some(relations.hinted_challenge),
        gamma_challenge: None,
        claimed_sums,
        relations: wired,
    }
}

/// Wiring of `final_add`.
pub open spec fn final_add_wiring(
    claim: P256CurrentAirProofClaim,
    interaction: P256CurrentAirInteractionClaim,
    relations: P256CurrentAirRelations,
) -> Wiring {
    Wiring {
        part: "final_add",
        claim_words: claim.final_add.words@,
        hinted_challenge: None,
        gamma_challenge: Some(relations.final_add.gamma_challenge),
        claimed_sums: seq![interaction.final_add.claimed_sum],
        relations: seq![
            relations.final_add.mul_result,
            as_lookup(relations.final_add.range13),
            as_lookup(relations.final_add.signed_carry),
            relations.final_add.hint,
            relations.final_add.output,
            relations.final_add.sign,
            relations.final_add.gamma_digest,
        ],
    }
}

fn wire_final_add(
    claim: &P256CurrentAirProofClaim,
    interaction: &P256CurrentAirInteractionClaim,
    relations: &P256CurrentAirRelations,
) -> (r: ComponentWiring)
    ensures
        r.spec_wiring() == final_add_wiring(*claim, *interaction, *relations),
{
    let claimed_sums: Vec<SecureField> = vec![interaction.final_add.claimed_sum];
    let wired: Vec<LookupRelation> = vec![
        relations.final_add.mul_result,
        to_lookup(&relations.final_add.range13),
        to_lookup(&relations.final_add.signed_carry),
        relations.final_add.hint,
        relations.final_add.output,
        relations.final_add.sign,
        relations.final_add.gamma_digest,
    ];
    let claim_words: Vec<u64> = copy_words(&claim.final_add.words);
    proof {
        let w = final_add_wiring(*claim, *interaction, *relations);
        assert(claim_words@ =~= w.claim_words);
        assert(claimed_sums@ =~= w.claimed_sums);
        assert(wired@ =~= w.relations);
    }
    ComponentWiring {
        part: "final_add",
        claim_words,
        hinted_challenge: None,
        gamma_challenge: Some(relations.final_add.gamma_challenge),
        claimed_sums,
        relations: wired,
    }
}

/// The wiring of every part, in the order of the components.
pub open spec fn wiring_plan(
    claim: P256CurrentAirProofClaim,
    interaction: P256CurrentAirInteractionClaim,
    relations: P256CurrentAirRelations,
) -> Seq<Wiring> {
    seq![
        scalar_setup_wiring(claim, interaction, relations),
        cert_scalar_inputs_wiring(claim, interaction, relations),
        fake_glv_scalar_air_wiring(claim, interaction, relations),
        fake_glv_selector_air_wiring(claim, interaction, relations),
        scalar_mod_muls_wiring(claim, interaction, relations),
        prepared_table_projective_source_wiring(claim, interaction, relations),
        fake_glv_projective_source_wiring(claim, interaction, relations),
        fake_glv_chain_expansion_wiring(claim, interaction, relations),
        fake_glv_chain_continuity_wiring(claim, interaction, relations),
        fake_glv_chain_schedule_wiring(claim, interaction, relations),
        fake_glv_direct_prepared_operand_wiring(claim, interaction, relations),
        fake_glv_signed_selector_operand_wiring(claim, interaction, relations),
        fake_glv_lsb_correction_operand_wiring(claim, interaction, relations),
        fake_glv_prepared_point_source_wiring(claim, interaction, relations),
        prepared_point_range7_wiring(claim, interaction, relations),
        final_check_wiring(claim, interaction, relations),
        public_key_on_curve_wiring(claim, interaction, relations),
        hinted_mul_wiring(claim, interaction, relations),
        final_add_wiring(claim, interaction, relations),
    ]
}

/// Wires every part of the proof.
pub fn wire_components(
    claim: &P256CurrentAirProofClaim,
    interaction: &P256CurrentAirInteractionClaim,
    relations: &P256CurrentAirRelations,
) -> (r: Vec<ComponentWiring>)
    ensures
        r@.map_values(|w: ComponentWiring| w.spec_wiring()) == wiring_plan(
            *claim,
            *interaction,
            *relations,
        ),
{
    let mut plan: Vec<ComponentWiring> = Vec::new();
    plan.push(wire_scalar_setup(claim, interaction, relations));
    plan.push(wire_cert_scalar_inputs(claim, interaction, relations));
    plan.push(wire_fake_glv_scalar_air(claim, interaction, relations));
    plan.push(wire_fake_glv_selector_air(claim, interaction, relations));
    plan.push(wire_scalar_mod_muls(claim, interaction, relations));
    plan.push(wire_prepared_table_projective_source(claim, interaction, relations));
    plan.push(wire_fake_glv_projective_source(claim, interaction, relations));
    plan.push(wire_fake_glv_chain_expansion(claim, interaction, relations));
    plan.push(wire_fake_glv_chain_continuity(claim, interaction, relations));
    plan.push(wire_fake_glv_chain_schedule(claim, interaction, relations));
    plan.push(wire_fake_glv_direct_prepared_operand(claim, interaction, relations));
    plan.push(wire_fake_glv_signed_selector_operand(claim, interaction, relations));
    plan.push(wire_fake_glv_lsb_correction_operand(claim, interaction, relations));
    plan.push(wire_fake_glv_prepared_point_source(claim, interaction, relations));
    plan.push(wire_prepared_point_range7(claim, interaction, relations));
    plan.push(wire_final_check(claim, interaction, relations));
    plan.push(wire_public_key_on_curve(claim, interaction, relations));
    plan.push(wire_hinted_mul(claim, interaction, relations));
    plan.push(wire_final_add(claim, interaction, relations));
    proof {
        assert(plan@.map_values(|w: ComponentWiring| w.spec_wiring()) =~= wiring_plan(
            *claim,
            *interaction,
            *relations,
        ));
    }
    plan
}

/// The sum over all claimed sums of a plan, part by part.
pub open spec fn plan_total(plan: Seq<Wiring>) -> SecureField
    decreases plan.len(),
{
    if plan.len() == 0 {
        sf_zero()
    } else {
        sf_sum(plan_total(plan.drop_last()), sf_sum_of(plan.last().claimed_sums))
    }
}

/// What the parts up to the chain claim in total, part by part.
spec fn first_totals(interaction: P256CurrentAirInteractionClaim) -> Seq<SecureField> {
    seq![
        interaction.scalar_setup.claimed_sum,
        interaction.cert_scalar_inputs.claimed_sum,
        interaction.fake_glv_scalar_air.claimed_sum,
        interaction.fake_glv_selector_air.claimed_sum,
        interaction.scalar_mod_muls.spec_total(),
        interaction.prepared_table_projective_source.spec_total(),
        interaction.fake_glv_projective_source.spec_total(),
        interaction.fake_glv_chain_expansion.spec_total(),
        interaction.fake_glv_chain_continuity.claimed_sum,
    ]
}

/// What the parts after the chain schedule claim in total, part by part.
spec fn last_totals(interaction: P256CurrentAirInteractionClaim) -> Seq<SecureField> {
    seq![
        interaction.fake_glv_direct_prepared_operand.spec_total(),
        interaction.fake_glv_signed_selector_operand.spec_total(),
        interaction.fake_glv_lsb_correction_operand.spec_total(),
        interaction.fake_glv_prepared_point_source.spec_total(),
        interaction.prepared_point_range7.claimed_sum,
        interaction.final_check.claimed_sum,
        interaction.public_key_on_curve.claimed_sum,
        interaction.hinted_mul.spec_total(),
        interaction.final_add.claimed_sum,
    ]
}

/// The totals of the parts of a plan.
spec fn part_totals(plan: Seq<Wiring>) -> Seq<SecureField> {
    plan.map_values(|w: Wiring| sf_sum_of(w.claimed_sums))
}

proof fn lemma_plan_total(plan: Seq<Wiring>)
    ensures
        plan_total(plan) == sf_sum_of(part_totals(plan)),
    decreases plan.len(),
{
    if plan.len() > 0 {
        lemma_plan_total(plan.drop_last());
        assert(part_totals(plan).drop_last() =~= part_totals(plan.drop_last()));
    }
}

proof fn lemma_sum_of_one(a: SecureField)
    requires
        a.wf(),
    ensures
        sf_sum_of(seq![a]) == a,
{
    law_sum_identity(a);
    assert(seq![a].drop_last() =~= Seq::<SecureField>::empty());
    reveal_with_fuel(sf_sum_of, 2);
}

proof fn lemma_sum_of_two(a: SecureField, b: SecureField)
    requires
        a.wf(),
        b.wf(),
    ensures
        sf_sum_of(seq![a, b]) == sf_sum(a, b),
{
    lemma_sum_of_one(a);
    assert(seq![a, b].drop_last() =~= seq![a]);
}

proof fn lemma_sum_of_three(a: SecureField, b: SecureField, c: SecureField)
    requires
        a.wf(),
        b.wf(),
        c.wf(),
    ensures
        sf_sum_of(seq![a, b, c]) == sf_sum(sf_sum(a, b), c),
{
    lemma_sum_of_two(a, b);
    assert(seq![a, b, c].drop_last() =~= seq![a, b]);
}

/// The parts up to the chain claim what the balance adds for them.
proof fn lemma_first_parts(
    claim: P256CurrentAirProofClaim,
    interaction: P256CurrentAirInteractionClaim,
    relations: P256CurrentAirRelations,
)
    requires
        interaction.wf(),
    ensures
        part_totals(wiring_plan(claim, interaction, relations).take(9)) == first_totals(interaction),
        forall|i: int| 0 <= i < 9 ==> (#[trigger] first_totals(interaction)[i]).wf(),
{
    lemma_sum_of_one(interaction.scalar_setup.claimed_sum);
    lemma_sum_of_one(interaction.cert_scalar_inputs.claimed_sum);
    lemma_sum_of_one(interaction.fake_glv_scalar_air.claimed_sum);
    lemma_sum_of_one(interaction.fake_glv_selector_air.claimed_sum);
    lemma_sum_of_three(
        interaction.scalar_mod_muls.scalar_mod_mul.claimed_sum,
        interaction.scalar_mod_muls.range13.claimed_sum,
        interaction.scalar_mod_muls.signed_carry.claimed_sum,
    );
    lemma_sum_of_two(
        interaction.prepared_table_projective_source.provider.claimed_sum,
        interaction.prepared_table_projective_source.consumer.claimed_sum,
    );
    lemma_sum_of_two(
        interaction.fake_glv_projective_source.provider.claimed_sum,
        interaction.fake_glv_projective_source.consumer.claimed_sum,
    );
    lemma_sum_of_two(
        interaction.fake_glv_chain_expansion.expansion_claimed_sum,
        interaction.fake_glv_chain_expansion.primitive_claimed_sum,
    );
    lemma_sum_of_one(interaction.fake_glv_chain_continuity.claimed_sum);
    lemma_totals_reduced(interaction);
    assert(part_totals(wiring_plan(claim, interaction, relations).take(9)) =~= first_totals(interaction));
}

/// The parts after the chain schedule claim what the balance adds for them.
proof fn lemma_last_parts(
    claim: P256CurrentAirProofClaim,
    interaction: P256CurrentAirInteractionClaim,
    relations: P256CurrentAirRelations,
)
    requires
        interaction.wf(),
    ensures
        part_totals(wiring_plan(claim, interaction, relations).skip(10)) == last_totals(interaction),
        forall|i: int| 0 <= i < 9 ==> (#[trigger] last_totals(interaction)[i]).wf(),
{
    lemma_sum_of_two(
        interaction.fake_glv_direct_prepared_operand.provider.claimed_sum,
        interaction.fake_glv_direct_prepared_operand.consumer.claimed_sum,
    );
    lemma_sum_of_two(
        interaction.fake_glv_signed_selector_operand.provider.claimed_sum,
        interaction.fake_glv_signed_selector_operand.consumer.claimed_sum,
    );
    lemma_sum_of_two(
        interaction.fake_glv_lsb_correction_operand.provider.claimed_sum,
        interaction.fake_glv_lsb_correction_operand.consumer.claimed_sum,
    );
    lemma_sum_of_two(
        interaction.fake_glv_prepared_point_source.provider.claimed_sum,
        interaction.fake_glv_prepared_point_source.consumer.claimed_sum,
    );
    lemma_sum_of_one(interaction.prepared_point_range7.claimed_sum);
    lemma_sum_of_one(interaction.final_check.claimed_sum);
    lemma_sum_of_one(interaction.public_key_on_curve.claimed_sum);
    lemma_sum_of_one(interaction.final_add.claimed_sum);
    lemma_totals_reduced(interaction);
    assert(part_totals(wiring_plan(claim, interaction, relations).skip(10)) =~= last_totals(interaction));
}

/// The totals of the parts are reduced.
proof fn lemma_totals_reduced(interaction: P256CurrentAirInteractionClaim)
    requires
        interaction.wf(),
    ensures
        forall|i: int| 0 <= i < 9 ==> (#[trigger] first_totals(interaction)[i]).wf(),
        forall|i: int| 0 <= i < 9 ==> (#[trigger] last_totals(interaction)[i]).wf(),
{
    assert forall|x: SecureField, y: SecureField| (#[trigger] sf_sum(x, y)).wf() by {
        lemma_results_reduced(x, y);
    }
    let h = interaction.hinted_mul;
    lemma_sum_of_reduced(
        seq![
            h.claimed_sum,
            h.gamma_range13,
            h.gamma_signed,
            h.range13,
            h.signed_h,
            h.signed_formula,
        ],
    );
}

/// Law: the sums that the parts are wired to are those that the aggregate
/// balance adds, so the parts together with the two public providers balance
/// exactly where the balance is zero.
pub proof fn law_wired_sums_are_the_balance(
    claim: P256CurrentAirProofClaim,
    interaction: P256CurrentAirInteractionClaim,
    relations: P256CurrentAirRelations,
    public_provider: SecureField,
    result_provider: SecureField,
)
    requires
        interaction.wf(),
        public_provider.wf(),
        result_provider.wf(),
    ensures
        sf_sum_of(interaction.lookup_terms(public_provider, result_provider)) == sf_sum(
            sf_sum(public_provider, result_provider),
            plan_total(wiring_plan(claim, interaction, relations)),
        ),
{
    let plan = wiring_plan(claim, interaction, relations);
    let first = first_totals(interaction);
    let last = last_totals(interaction);
    let providers = seq![public_provider, result_provider];
    lemma_first_parts(claim, interaction, relations);
    lemma_last_parts(claim, interaction, relations);
    lemma_plan_total(plan);
    law_sum_identity(sf_zero());
    lemma_sum_of_one(sf_zero());
    assert(plan[9].claimed_sums =~= seq![sf_zero()]);
    assert(part_totals(plan) =~= part_totals(plan.take(9)) + (seq![sf_zero()] + part_totals(
        plan.skip(10),
    )));
    law_sum_of_concat(seq![sf_zero()], last);
    lemma_sum_of_reduced(last);
    lemma_sum_of_reduced(first);
    law_sum_identity(sf_sum_of(last));
    law_sum_of_concat(first, seq![sf_zero()] + last);
    law_sum_of_concat(first, last);
    law_sum_of_concat(providers, first + last);
    lemma_sum_of_two(public_provider, result_provider);
    assert(interaction.lookup_terms(public_provider, result_provider) =~= providers + (first
        + last));
}

/// Law: parts that are linked by a relation are wired to the same instance: the
/// public key, the hint points, the sign bits, the products and the final
/// coordinate go from one part to the other.
pub proof fn law_linked_parts_share_instances(
    claim: P256CurrentAirProofClaim,
    interaction: P256CurrentAirInteractionClaim,
    relations: P256CurrentAirRelations,
)
    requires
        relations.shares_instances(),
    ensures
        scalar_setup_wiring(claim, interaction, relations).relations[8] == public_key_on_curve_wiring(
            claim,
            interaction,
            relations,
        ).relations[0],
        scalar_setup_wiring(claim, interaction, relations).relations[1] == cert_scalar_inputs_wiring(
            claim,
            interaction,
            relations,
        ).relations[0],
        prepared_table_projective_source_wiring(claim, interaction, relations).relations[3]
            == final_add_wiring(claim, interaction, relations).relations[3],
        fake_glv_scalar_air_wiring(claim, interaction, relations).relations[3] == final_add_wiring(
            claim,
            interaction,
            relations,
        ).relations[5],
        hinted_mul_wiring(claim, interaction, relations).relations[2] == final_add_wiring(
            claim,
            interaction,
            relations,
        ).relations[0],
        hinted_mul_wiring(claim, interaction, relations).relations[2] == public_key_on_curve_wiring(
            claim,
            interaction,
            relations,
        ).relations[1],
        hinted_mul_wiring(claim, interaction, relations).relations[3]
            == fake_glv_projective_source_wiring(claim, interaction, relations).relations[3],
        final_check_wiring(claim, interaction, relations).relations[4] == final_add_wiring(
            claim,
            interaction,
            relations,
        ).relations[4],
{
}

} // verus!
