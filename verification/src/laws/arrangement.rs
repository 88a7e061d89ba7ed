//! Where the parts of a proof stand: in its claim, in its transcript, among its
//! relations and in its wiring.
use crate::pipeline::claim::{flattened, ComponentClaims, P256CurrentAirProofClaim};
use crate::pipeline::air::{P256ColumnTask, P256PreparedColumns, P256Prover};
use crate::pipeline::columns::{all_cells, names, ColumnCells};
use crate::pipeline::components::{law_largest_bound, P256CurrentAirComponents};
use crate::pipeline::draft::{artifacts, P256ProofClaim};
use crate::pipeline::interaction_claim::P256CurrentAirInteractionClaim;
use crate::pipeline::relations::{as_lookup, drawn, drawn_at, P256CurrentAirRelations};
use crate::pipeline::traces::{
    base_groups, concatenated, interaction_groups, named_groups, part_cells, NamedColumns,
    TableColumns,
};
use crate::pipeline::wiring::wiring_plan;
use crate::public_inputs::statement_words;
use crate::range_checks::trace::ColumnEval;
use crate::range_checks::{range_value_name, RangeCheckRelation};
use crate::transcript::{blake2s_felt, felt_of};
use vstd::prelude::*;

verus! {

/// Law: an arranged claim absorbs the statements, and then the words of each
/// component in order; the parts that number their rows past those of the prepared
/// table absorb that number along, and the table of prepared points has seven bits.
pub proof fn law_arranged_claim_absorbs_every_component(
    arranged: P256CurrentAirProofClaim,
    claim: P256ProofClaim,
    components: ComponentClaims,
)
    requires
        arranged.arranges(claim, components),
    ensures
        arranged.transcript_words() == statement_words(claim.public_inputs.instances@) + flattened(
            arranged.component_words(),
        ),
        arranged.component_words() == seq![
            components.scalar_setup.words@,
            components.cert_scalar_inputs.words@,
            components.fake_glv_scalar_air.words@,
            components.fake_glv_selector_air.words@,
            components.scalar_mod_muls.words@,
            components.prepared_table_projective_source.words@,
            components.fake_glv_projective_source.words@.push(
                claim.prepared_table_ec_trace.active_rows as u64,
            ),
            components.fake_glv_chain_expansion.words@.push(
                claim.prepared_table_ec_trace.active_rows as u64,
            ),
            components.fake_glv_chain_continuity.words@,
            components.fake_glv_chain_schedule.words@,
            components.fake_glv_direct_prepared_operand.words@,
            components.fake_glv_signed_selector_operand.words@,
            components.fake_glv_lsb_correction_operand.words@,
            components.fake_glv_prepared_point_source.words@,
            seq![7u64],
            components.final_check.words@,
            components.public_key_on_curve.words@,
            components.hinted_mul.words@,
            components.final_add.words@,
        ],
{
}

/// Law: an arranged claim lists the preprocessed columns that its components read,
/// part by part; the seven-bit table stands before the public-key check.
pub proof fn law_arranged_claim_lists_every_column(
    arranged: P256CurrentAirProofClaim,
    claim: P256ProofClaim,
    components: ComponentClaims,
)
    requires
        arranged.arranges(claim, components),
    ensures
        arranged.column_groups() == seq![
            names(components.scalar_setup.preprocessed_ids@),
            names(components.scalar_mod_muls.preprocessed_ids@),
            names(components.prepared_table_projective_source.preprocessed_ids@),
            names(components.fake_glv_projective_source.preprocessed_ids@),
            names(components.fake_glv_chain_expansion.preprocessed_ids@),
            names(components.fake_glv_chain_continuity.preprocessed_ids@),
            names(components.fake_glv_chain_schedule.preprocessed_ids@),
            names(components.fake_glv_direct_prepared_operand.preprocessed_ids@),
            names(components.fake_glv_signed_selector_operand.preprocessed_ids@),
            names(components.fake_glv_lsb_correction_operand.preprocessed_ids@),
            names(components.fake_glv_prepared_point_source.preprocessed_ids@),
            seq![range_value_name(7)],
            names(components.public_key_on_curve.preprocessed_ids@),
            names(components.hinted_mul.preprocessed_ids@),
            names(components.final_add.preprocessed_ids@),
        ],
{
}

/// Law: every component claim goes under its own name: replacing one replaces that
/// part of the arranged claim.
pub proof fn law_each_component_claim_goes_under_its_name(
    arranged: P256CurrentAirProofClaim,
    claim: P256ProofClaim,
    components: ComponentClaims,
)
    requires
        arranged.arranges(claim, components),
    ensures
        arranged.scalar_setup == components.scalar_setup,
        arranged.cert_scalar_inputs == components.cert_scalar_inputs,
        arranged.fake_glv_scalar_air == components.fake_glv_scalar_air,
        arranged.fake_glv_selector_air == components.fake_glv_selector_air,
        arranged.scalar_mod_muls == components.scalar_mod_muls,
        arranged.prepared_table_projective_source == components.prepared_table_projective_source,
        arranged.fake_glv_projective_source.component == components.fake_glv_projective_source,
        arranged.fake_glv_projective_source.source_offset
            == claim.prepared_table_ec_trace.active_rows,
        arranged.fake_glv_chain_expansion.component == components.fake_glv_chain_expansion,
        arranged.fake_glv_chain_expansion.source_offset
            == claim.prepared_table_ec_trace.active_rows,
        arranged.fake_glv_chain_continuity == components.fake_glv_chain_continuity,
        arranged.fake_glv_chain_schedule == components.fake_glv_chain_schedule,
        arranged.fake_glv_direct_prepared_operand == components.fake_glv_direct_prepared_operand,
        arranged.fake_glv_signed_selector_operand == components.fake_glv_signed_selector_operand,
        arranged.fake_glv_lsb_correction_operand == components.fake_glv_lsb_correction_operand,
        arranged.fake_glv_prepared_point_source == components.fake_glv_prepared_point_source,
        arranged.prepared_point_range7.log_size == 7,
        arranged.final_check == components.final_check,
        arranged.public_key_on_curve == components.public_key_on_curve,
        arranged.hinted_mul == components.hinted_mul,
        arranged.final_add == components.final_add,
        arranged.public_inputs.instances@ == claim.public_inputs.instances@,
{
}

/// Law: each relation has a block of the transcript's stream of its own, in a fixed
/// order; relations that several parts share are the same instance in all of them.
pub proof fn law_each_relation_has_its_own_block(
    relations: P256CurrentAirRelations,
    digest: Seq<u8>,
    block: int,
    gamma_max_values: usize,
)
    requires
        drawn_at(relations, digest, block, gamma_max_values),
    ensures
        as_lookup(relations.projective_rcb_air.range13) == drawn(digest, block + 0),
        relations.projective_rcb_air.mul_result == drawn(digest, block + 1),
        relations.public_inputs == drawn(digest, block + 2),
        relations.scalar_setup_output == drawn(digest, block + 3),
        relations.cert_scalar_input == drawn(digest, block + 4),
        relations.fake_glv_scalar == drawn(digest, block + 5),
        relations.scalar_mod_mul.scalar_limb == drawn(digest, block + 6),
        as_lookup(relations.scalar_mod_mul.range13) == drawn(digest, block + 7),
        as_lookup(relations.scalar_mod_mul.signed_carry) == drawn(digest, block + 8),
        relations.public_key_on_curve.point == drawn(digest, block + 9),
        as_lookup(relations.scalar_setup.range13) == drawn(digest, block + 10),
        as_lookup(relations.scalar_setup.range9) == drawn(digest, block + 11),
        as_lookup(relations.scalar_setup.signed_carry) == drawn(digest, block + 12),
        relations.final_check_hint == drawn(digest, block + 13),
        relations.final_add_sign == drawn(digest, block + 14),
        relations.final_add.gamma_digest == drawn(digest, block + 15),
        relations.prepared_table == drawn(digest, block + 17),
        relations.cert_base == drawn(digest, block + 18),
        relations.prepared_table_canonical == drawn(digest, block + 19),
        relations.fake_glv_projective_source == drawn(digest, block + 20),
        relations.fake_glv_chain_expansion == drawn(digest, block + 21),
        relations.fake_glv_chain_continuity == drawn(digest, block + 22),
        relations.direct_prepared_operand == drawn(digest, block + 23),
        relations.signed_selector_operand == drawn(digest, block + 24),
        relations.lsb_correction_operand == drawn(digest, block + 25),
        relations.prepared_point_source == drawn(digest, block + 26),
        as_lookup(relations.range7) == drawn(digest, block + 27),
        relations.ecdsa_result == drawn(digest, block + 28),
        as_lookup(relations.public_key_on_curve.range13) == drawn(digest, block + 29),
        as_lookup(relations.public_key_on_curve.signed_carry) == drawn(digest, block + 30),
        as_lookup(relations.hinted_signed_h) == drawn(digest, block + 31),
        as_lookup(relations.final_add.range13) == drawn(digest, block + 33),
        as_lookup(relations.final_add.signed_carry) == drawn(digest, block + 34),
        relations.final_add.output == drawn(digest, block + 35),
        relations.ec_op_header == drawn(digest, block + 36),
        as_lookup(relations.hinted_signed_formula) == drawn(digest, block + 37),
        relations.final_add.gamma_challenge.gamma == drawn(digest, block + 16).z,
        relations.final_add.gamma_challenge.max_values == gamma_max_values,
        relations.hinted_challenge.z == drawn(digest, block + 32).z,
        relations.scalar_setup.public_inputs == relations.public_inputs,
        relations.scalar_setup.output == relations.scalar_setup_output,
        relations.scalar_setup.scalar_mod_mul == relations.scalar_mod_mul,
        relations.scalar_setup.public_key_point == relations.public_key_on_curve.point,
        relations.public_key_on_curve.mul_result == relations.projective_rcb_air.mul_result,
        relations.public_key_on_curve.gamma_digest == relations.final_add.gamma_digest,
        relations.public_key_on_curve.gamma_challenge == relations.final_add.gamma_challenge,
        relations.final_add.mul_result == relations.projective_rcb_air.mul_result,
        relations.final_add.hint == relations.final_check_hint,
        relations.final_add.sign == relations.final_add_sign,
{
    let first = relations.independent_instances();
    let later = relations.later_instances();
    let last = relations.last_instances();
    assert(first[0] == drawn(digest, block + 0));
    assert(first[1] == drawn(digest, block + 1));
    assert(first[2] == drawn(digest, block + 2));
    assert(first[3] == drawn(digest, block + 3));
    assert(first[4] == drawn(digest, block + 4));
    assert(first[5] == drawn(digest, block + 5));
    assert(first[6] == drawn(digest, block + 6));
    assert(first[7] == drawn(digest, block + 7));
    assert(first[8] == drawn(digest, block + 8));
    assert(first[9] == drawn(digest, block + 9));
    assert(first[10] == drawn(digest, block + 10));
    assert(first[11] == drawn(digest, block + 11));
    assert(first[12] == drawn(digest, block + 12));
    assert(first[13] == drawn(digest, block + 13));
    assert(first[14] == drawn(digest, block + 14));
    assert(first[15] == drawn(digest, block + 15));
    assert(later[0] == drawn(digest, block + 17));
    assert(later[1] == drawn(digest, block + 18));
    assert(later[2] == drawn(digest, block + 19));
    assert(later[3] == drawn(digest, block + 20));
    assert(later[4] == drawn(digest, block + 21));
    assert(later[5] == drawn(digest, block + 22));
    assert(later[6] == drawn(digest, block + 23));
    assert(later[7] == drawn(digest, block + 24));
    assert(later[8] == drawn(digest, block + 25));
    assert(later[9] == drawn(digest, block + 26));
    assert(later[10] == drawn(digest, block + 27));
    assert(later[11] == drawn(digest, block + 28));
    assert(later[12] == drawn(digest, block + 29));
    assert(later[13] == drawn(digest, block + 30));
    assert(later[14] == drawn(digest, block + 31));
    assert(last[0] == drawn(digest, block + 33));
    assert(last[1] == drawn(digest, block + 34));
    assert(last[2] == drawn(digest, block + 35));
    assert(last[3] == drawn(digest, block + 36));
    assert(last[4] == drawn(digest, block + 37));
}

/// Law: every part is wired to the words that the claim absorbs for it.
pub proof fn law_parts_are_wired_to_their_words(
    claim: P256CurrentAirProofClaim,
    interaction: P256CurrentAirInteractionClaim,
    relations: P256CurrentAirRelations,
)
    ensures
        wiring_plan(claim, interaction, relations).len() == 19,
        forall|k: int|
            0 <= k < 19 ==> (#[trigger] wiring_plan(claim, interaction, relations)[k]).claim_words
                == claim.component_words()[k],
        wiring_plan(claim, interaction, relations)[0].part == "scalar_setup",
        wiring_plan(claim, interaction, relations)[1].part == "cert_scalar_inputs",
        wiring_plan(claim, interaction, relations)[2].part == "fake_glv_scalar_air",
        wiring_plan(claim, interaction, relations)[3].part == "fake_glv_selector_air",
        wiring_plan(claim, interaction, relations)[4].part == "scalar_mod_muls",
        wiring_plan(claim, interaction, relations)[5].part == "prepared_table_projective_source",
        wiring_plan(claim, interaction, relations)[6].part == "fake_glv_projective_source",
        wiring_plan(claim, interaction, relations)[7].part == "fake_glv_chain_expansion",
        wiring_plan(claim, interaction, relations)[8].part == "fake_glv_chain_continuity",
        wiring_plan(claim, interaction, relations)[9].part == "fake_glv_chain_schedule",
        wiring_plan(claim, interaction, relations)[10].part == "fake_glv_direct_prepared_operand",
        wiring_plan(claim, interaction, relations)[11].part == "fake_glv_signed_selector_operand",
        wiring_plan(claim, interaction, relations)[12].part == "fake_glv_lsb_correction_operand",
        wiring_plan(claim, interaction, relations)[13].part == "fake_glv_prepared_point_source",
        wiring_plan(claim, interaction, relations)[14].part == "prepared_point_range7",
        wiring_plan(claim, interaction, relations)[15].part == "final_check",
        wiring_plan(claim, interaction, relations)[16].part == "public_key_on_curve",
        wiring_plan(claim, interaction, relations)[17].part == "hinted_mul",
        wiring_plan(claim, interaction, relations)[18].part == "final_add",
{
}

/// Law: every part is wired to the sums that the interaction claim absorbs for it:
/// the scalar multiplication slice to its three messages, the chain schedule to
/// nothing, every other part to its one message.
pub proof fn law_parts_are_wired_to_their_sums(
    claim: P256CurrentAirProofClaim,
    interaction: P256CurrentAirInteractionClaim,
    relations: P256CurrentAirRelations,
)
    ensures
        ({
            let plan = wiring_plan(claim, interaction, relations);
            let messages = interaction.transcript_messages();
            &&& forall|k: int| 0 <= k < 4 ==> (#[trigger] plan[k]).claimed_sums == messages[k]
            &&& plan[4].claimed_sums == messages[4] + messages[5] + messages[6]
            &&& forall|k: int| 5 <= k < 9 ==> (#[trigger] plan[k]).claimed_sums == messages[k + 2]
            &&& plan[9].claimed_sums == seq![crate::fields::sf_zero()]
            &&& forall|k: int|
                10 <= k < 19 ==> (#[trigger] plan[k]).claimed_sums == messages[k + 1]
        }),
{
    let plan = wiring_plan(claim, interaction, relations);
    let messages = interaction.transcript_messages();
    assert(plan[4].claimed_sums =~= messages[4] + messages[5] + messages[6]);
}

/// Law: every part is wired to the relations that it uses, by the blocks from which
/// they are drawn; the hinted products to the product challenge, and the final
/// addition and the public-key check to the one digest challenge.
pub proof fn law_parts_are_wired_to_their_blocks(
    claim: P256CurrentAirProofClaim,
    interaction: P256CurrentAirInteractionClaim,
    relations: P256CurrentAirRelations,
    digest: Seq<u8>,
    block: int,
    gamma_max_values: usize,
)
    requires
        drawn_at(relations, digest, block, gamma_max_values),
    ensures
        ({
            let plan = wiring_plan(claim, interaction, relations);
            let at = |b: int| drawn(digest, block + b);
            &&& plan[0].relations == seq![
                at(2),
                at(3),
                at(6),
                at(7),
                at(8),
                at(10),
                at(11),
                at(12),
                at(9),
            ]
            &&& plan[1].relations == seq![at(3), at(4), at(18)]
            &&& plan[2].relations == seq![at(4), at(5), at(6), at(14)]
            &&& plan[3].relations == seq![at(5)]
            &&& plan[4].relations == seq![at(6), at(7), at(8)]
            &&& plan[5].relations == seq![at(17), at(18), at(19), at(13), at(0), at(1), at(36)]
            &&& plan[6].relations == seq![at(20), at(0), at(1), at(36)]
            &&& plan[7].relations == seq![at(21)]
            &&& plan[8].relations == seq![at(22)]
            &&& plan[9].relations.len() == 0
            &&& plan[10].relations == seq![at(23)]
            &&& plan[11].relations == seq![at(24)]
            &&& plan[12].relations == seq![at(25)]
            &&& plan[13].relations == seq![at(26), at(27)]
            &&& plan[14].relations == seq![at(27)]
            &&& plan[15].relations == seq![at(28), at(10), at(11), at(12), at(35)]
            &&& plan[16].relations == seq![at(9), at(1), at(29), at(30), at(15)]
            &&& plan[17].relations == seq![at(0), at(31), at(1), at(36), at(37)]
            &&& plan[18].relations == seq![at(1), at(33), at(34), at(13), at(35), at(14), at(15)]
            &&& forall|k: int|
                0 <= k < 19 && k != 17 ==> (#[trigger] plan[k]).hinted_challenge is None
            &&& forall|k: int|
                0 <= k < 19 && k != 16 && k != 18 ==> (#[trigger] plan[k]).gamma_challenge is None
            &&& plan[17].hinted_challenge matches Some(c) && c.z == at(32).z
            &&& plan[16].gamma_challenge matches Some(c) && c.gamma == at(16).z && c.max_values
                == gamma_max_values
            &&& plan[18].gamma_challenge == plan[16].gamma_challenge
        }),
{
    law_each_relation_has_its_own_block(relations, digest, block, gamma_max_values);
    let plan = wiring_plan(claim, interaction, relations);
    let at = |b: int| drawn(digest, block + b);
    assert(
        plan[0].relations =~= seq![at(2), at(3), at(6), at(7), at(8), at(10), at(11), at(12), at(9)]
    );
    assert(plan[1].relations =~= seq![at(3), at(4), at(18)]);
    assert(plan[2].relations =~= seq![at(4), at(5), at(6), at(14)]);
    assert(plan[3].relations =~= seq![at(5)]);
    assert(plan[4].relations =~= seq![at(6), at(7), at(8)]);
    assert(plan[5].relations =~= seq![at(17), at(18), at(19), at(13), at(0), at(1), at(36)]);
    assert(plan[6].relations =~= seq![at(20), at(0), at(1), at(36)]);
    assert(plan[7].relations =~= seq![at(21)]);
    assert(plan[8].relations =~= seq![at(22)]);
    assert(plan[10].relations =~= seq![at(23)]);
    assert(plan[11].relations =~= seq![at(24)]);
    assert(plan[12].relations =~= seq![at(25)]);
    assert(plan[13].relations =~= seq![at(26), at(27)]);
    assert(plan[14].relations =~= seq![at(27)]);
    assert(plan[15].relations =~= seq![at(28), at(10), at(11), at(12), at(35)]);
    assert(plan[16].relations =~= seq![at(9), at(1), at(29), at(30), at(15)]);
    assert(plan[17].relations =~= seq![at(0), at(31), at(1), at(36), at(37)]);
    assert(plan[18].relations =~= seq![at(1), at(33), at(34), at(13), at(35), at(14), at(15)]);
}

/// Law: the base columns of the final check and of the public-key check, which are
/// generated second and third, are committed after the seven-bit table; every other
/// part is committed in the order in which it is generated, and the tables of the
/// hinted products follow the hinted products.
pub proof fn law_places_of_base_columns(parts: Seq<Seq<ColumnCells>>, tables: Seq<ColumnCells>)
    ensures
        base_groups(parts, tables).len() == 32,
        base_groups(parts, tables)[0] == parts[0],
        forall|k: int| 3 <= k < 24 ==> base_groups(parts, tables)[k - 2] == #[trigger] parts[k],
        base_groups(parts, tables)[22] == seq![tables[0]],
        base_groups(parts, tables)[23] == parts[1],
        base_groups(parts, tables)[24] == parts[2],
        forall|k: int| 24 <= k < 27 ==> base_groups(parts, tables)[k + 1] == #[trigger] parts[k],
        forall|k: int|
            1 <= k < 4 ==> base_groups(parts, tables)[k + 27] == seq![#[trigger] tables[k]],
        base_groups(parts, tables)[31] == parts[27],
{
}

/// Law: the interaction columns stand in the order of the parts; the seven-bit table
/// follows the twentieth part, and the other tables follow the twenty-fifth.
pub proof fn law_places_of_interaction_columns(
    parts: Seq<Seq<ColumnCells>>,
    tables: TableColumns,
)
    requires
        parts.len() == 26,
    ensures
        interaction_groups(parts, tables).len() == 30,
        forall|k: int|
            0 <= k < 20 ==> interaction_groups(parts, tables)[k] == #[trigger] parts[k],
        interaction_groups(parts, tables)[20] == all_cells(
            tables.range7@,
        ),
        forall|k: int|
            20 <= k < 25 ==> interaction_groups(parts, tables)[k + 1] == #[trigger] parts[k],
        interaction_groups(parts, tables)[26] == all_cells(
            tables.range13@,
        ),
        interaction_groups(parts, tables)[27] == all_cells(
            tables.signed_h@,
        ),
        interaction_groups(parts, tables)[28] == all_cells(
            tables.signed_formula@,
        ),
        interaction_groups(parts, tables)[29] == parts[25],
{
}

/// Law: the seven-bit table is the one group of preprocessed columns that no part
/// generates; the parts before and after it keep their order.
pub proof fn law_places_of_preprocessed_columns(
    groups: Seq<Seq<Seq<char>>>,
    parts: Seq<Seq<ColumnCells>>,
    range7: ColumnCells,
)
    requires
        groups.len() == 15,
        parts.len() == 14,
    ensures
        ({
            let named: Seq<NamedColumns> = named_groups(groups, parts, range7);
            &&& named.len() == 15
            &&& forall|k: int| 0 <= k < 15 ==> (#[trigger] named[k]).0 == groups[k]
            &&& forall|k: int| 0 <= k < 11 ==> named[k].1 == #[trigger] parts[k]
            &&& named[11].1 == seq![range7]
            &&& forall|k: int| 11 <= k < 14 ==> named[k + 1].1 == #[trigger] parts[k]
        }),
{
}

/// Law: the components are walked part by part, in the order of the wiring: all of
/// one part before any of the next.
pub proof fn law_components_follow_the_parts<C>(components: P256CurrentAirComponents<C>)
    ensures
        components.spec_components() == components.scalar_setup@
            + components.cert_scalar_inputs@
            + components.fake_glv_scalar_air@
            + components.fake_glv_selector_air@
            + seq![components.scalar_mod_muls.canonical]
            + seq![components.scalar_mod_muls.ab_chunks]
            + seq![components.scalar_mod_muls.qn_chunks]
            + seq![components.scalar_mod_muls.accumulators]
            + seq![components.scalar_mod_muls.reduction_digits]
            + seq![components.scalar_mod_muls.range13]
            + seq![components.scalar_mod_muls.signed_carry]
            + components.prepared_table_projective_source@
            + components.fake_glv_projective_source@
            + components.fake_glv_chain_expansion@
            + seq![components.fake_glv_chain_continuity]
            + seq![components.fake_glv_chain_schedule]
            + components.fake_glv_direct_prepared_operand@
            + components.fake_glv_signed_selector_operand@
            + components.fake_glv_lsb_correction_operand@
            + components.fake_glv_prepared_point_source@
            + seq![components.prepared_point_range7]
            + components.final_check@
            + components.public_key_on_curve@
            + components.hinted_mul@
            + components.final_add@,
{
    let m = components.scalar_mod_muls;
    let a = components.scalar_setup@ + components.cert_scalar_inputs@
        + components.fake_glv_scalar_air@ + components.fake_glv_selector_air@;
    let seven = seq![
        m.canonical,
        m.ab_chunks,
        m.qn_chunks,
        m.accumulators,
        m.reduction_digits,
        m.range13,
        m.signed_carry,
    ];
    let scalar = a + seq![m.canonical] + seq![m.ab_chunks] + seq![m.qn_chunks] + seq![m.accumulators] + seq![
        m.reduction_digits,
    ] + seq![m.range13] + seq![m.signed_carry];
    assert(scalar =~= a + seven);
    assert(scalar == components.spec_scalar_components());
    let (p1, p2, p3) = (
        components.prepared_table_projective_source@,
        components.fake_glv_projective_source@,
        components.fake_glv_chain_expansion@,
    );
    let (c4, c5) = (components.fake_glv_chain_continuity, components.fake_glv_chain_schedule);
    let rest = components.fake_glv_direct_prepared_operand@;
    let s1 = components.fake_glv_signed_selector_operand@;
    let s2 = components.fake_glv_lsb_correction_operand@;
    let s3 = components.fake_glv_prepared_point_source@;
    let s4 = seq![components.prepared_point_range7];
    let ladder = components.spec_ladder_components();
    assert(ladder == p1 + p2 + p3 + seq![c4, c5] + rest + s1 + s2 + s3 + s4);
    let head = scalar + p1 + p2 + p3;
    assert(scalar + ladder =~= head + seq![c4] + seq![c5] + rest + s1 + s2 + s3 + s4);
    let left = head + seq![c4] + seq![c5] + rest + s1 + s2 + s3 + s4;
    let (t1, t2, t3, t4) = (
        components.final_check@,
        components.public_key_on_curve@,
        components.hinted_mul@,
        components.final_add@,
    );
    assert(left + (t1 + t2 + t3 + t4) =~= left + t1 + t2 + t3 + t4);
}

/// Law: a relation takes two neighbouring elements of the stream, its pole before its
/// weight; a range-check instance keeps both when it is read as a lookup instance.
pub proof fn law_drawn_pair(digest: Seq<u8>, block: int, range: RangeCheckRelation)
    ensures
        drawn(digest, block).z == felt_of(blake2s_felt(digest, (2 * block) as nat)),
        drawn(digest, block).alpha == felt_of(blake2s_felt(digest, (2 * block + 1) as nat)),
        as_lookup(range).z == range.z,
        as_lookup(range).alpha == range.alpha,
{
}

/// Law: a prover starts from the prepared columns of its claim, with nothing drawn, bound
/// or claimed; the columns are those of the parts of its task.
pub proof fn law_prover_starts_from_its_task(
    prover: P256Prover,
    task: P256ColumnTask,
    prepared: P256PreparedColumns,
)
    requires
        task.prepares(prepared),
        prover.starts_from(prepared),
    ensures
        prover.state.proof_claim == task.proof_claim,
        prover.state.relations is None,
        prover.state.scalar_z is None,
        prover.interaction_claim is None,
        !prover.state.bind_z,
        forall|c: int|
            0 <= c < task.components.spec_components().len() ==> (
            #[trigger] task.components.spec_components()[c]).max_constraint_log_degree_bound
                <= prover.max_constraint_bound,
        prover.base matches Some(base) && base.uses == task.uses && base.parts@ == artifacts(
            task.base_parts@,
        ) && all_cells(base.columns@) == concatenated(
            base_groups(part_cells(artifacts(task.base_parts@)), base.table_cells()),
        ),
        prover.preprocessed is Some,
{
    law_largest_bound(task.components.spec_components());
}

/// Law: the cells of a part are the sizes and the values of its columns, in order.
pub proof fn law_part_cells(parts: Seq<Vec<ColumnEval>>, i: int, j: int)
    requires
        0 <= i < parts.len(),
        0 <= j < parts[i]@.len(),
    ensures
        part_cells(parts).len() == parts.len(),
        part_cells(parts)[i].len() == parts[i]@.len(),
        part_cells(parts)[i][j].0 == parts[i]@[j].domain.log_size,
        part_cells(parts)[i][j].1 == parts[i]@[j].values@,
{
}

} // verus!
