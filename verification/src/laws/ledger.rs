//! What the relation ledger says of each relation.
use crate::fields::{
    law_sum_of_zeros, lemma_results_reduced, lemma_sum_of_reduced, sf_difference, sf_sum, sf_sum_of,
    sf_zero, SecureField,
};
use crate::pipeline::balances::RelationBalanceClaim;
use crate::pipeline::interaction_claim::{
    P256CurrentAirInteractionClaim, ScalarModMulProofSliceInteractionClaim,
};
use crate::pipeline::ledger::{slice_totals, RelationLedger};
use vstd::prelude::*;

verus! {

/// A sum less one summand is the other.
proof fn lemma_take_back(x: SecureField, y: SecureField)
    requires
        x.wf(),
        y.wf(),
    ensures
        sf_difference(sf_sum(x, y), y) == x,
        sf_difference(sf_sum(y, x), y) == x,
{
    reveal(crate::fields::sf_of);
    lemma_residue_back(x.c0.0 as int, y.c0.0 as int);
    lemma_residue_back(x.c1.0 as int, y.c1.0 as int);
    lemma_residue_back(x.c2.0 as int, y.c2.0 as int);
    lemma_residue_back(x.c3.0 as int, y.c3.0 as int);
}

proof fn lemma_residue_back(x: int, y: int)
    requires
        0 <= x < 2_147_483_647,
        0 <= y < 2_147_483_647,
    ensures
        0 <= (x + y) % 2_147_483_647 < 2_147_483_647,
        ((x + y) % 2_147_483_647 - y) % 2_147_483_647 == x,
{
}

/// A sum of three less two of them is the third.
proof fn lemma_take_back_two(x: SecureField, y: SecureField, z: SecureField)
    requires
        x.wf(),
        y.wf(),
        z.wf(),
    ensures
        sf_difference(sf_difference(sf_sum(sf_sum(y, x), z), z), y) == x,
{
    lemma_results_reduced(y, x);
    lemma_take_back(sf_sum(y, x), z);
    lemma_take_back(x, y);
}

/// Law: each entry of the ledger is the balance of the relation that it names: less
/// what the consumers claim, it is what the provider claims.
pub proof fn law_ledger_entries_balance_their_relations(ledger: RelationLedger)
    requires
        ledger.wf(),
    ensures
        ledger.spec_balances().len() == 28,
        ledger.spec_balances()[0].0 == "PublicEcdsaInstance",
        sf_difference(
            ledger.spec_balances()[0].1,
            ledger.public_inputs.consumer.claimed_sum,
        ) == ledger.public_inputs.provider.claimed_sum,
        ledger.spec_balances()[1].0 == "ScalarSetupOutput",
        sf_difference(
            ledger.spec_balances()[1].1,
            ledger.cert_scalar_inputs.scalar_setup_consumer_claimed_sum,
        ) == ledger.scalar_setup.output_provider_claimed_sum,
        ledger.spec_balances()[2].0 == "CertScalarInput",
        sf_difference(
            ledger.spec_balances()[2].1,
            ledger.fake_glv_scalar_air.cert_consumer_claimed_sum,
        ) == ledger.cert_scalar_inputs.cert_provider_claimed_sum,
        ledger.spec_balances()[3].0 == "FakeGlvScalar",
        sf_difference(
            ledger.spec_balances()[3].1,
            ledger.fake_glv_selector_air.claimed_sum,
        ) == ledger.fake_glv_scalar_air.scalar_provider_claimed_sum,
        ledger.spec_balances()[4].0 == "ScalarSetupRange13",
        sf_difference(
            sf_difference(
                ledger.spec_balances()[4].1,
                ledger.final_check.range13_consumer_claimed_sum,
            ),
            ledger.scalar_setup.range13_consumer_claimed_sum,
        ) == ledger.scalar_setup.range13_provider_claimed_sum,
        ledger.spec_balances()[5].0 == "ScalarSetupRange9",
        sf_difference(
            sf_difference(
                ledger.spec_balances()[5].1,
                ledger.final_check.range9_consumer_claimed_sum,
            ),
            ledger.scalar_setup.range9_consumer_claimed_sum,
        ) == ledger.scalar_setup.range9_provider_claimed_sum,
        ledger.spec_balances()[6].0 == "ScalarSetupSignedCarry",
        sf_difference(
            sf_difference(
                ledger.spec_balances()[6].1,
                ledger.final_check.signed_carry_consumer_claimed_sum,
            ),
            ledger.scalar_setup.signed_carry_consumer_claimed_sum,
        ) == ledger.scalar_setup.signed_carry_provider_claimed_sum,
        ledger.spec_balances()[7].0 == "ScalarSetupModMul",
        sf_difference(
            ledger.spec_balances()[7].1,
            ledger.scalar_setup.scalar_limb_consumer_claimed_sum,
        ) == sf_sum_of(slice_totals(ledger.scalar_setup_mod_muls@)),
        ledger.spec_balances()[8].0 == "FakeGlvScalarModMul",
        sf_difference(
            ledger.spec_balances()[8].1,
            ledger.fake_glv_scalar_air.scalar_mod_mul_provider_claimed_sum,
        ) == sf_sum_of(slice_totals(ledger.fake_glv_scalar_mod_muls@)),
        ledger.spec_balances()[9].0 == "PreparedTablePinnedConsistency",
        ledger.spec_balances()[10].0 == "PreparedTablePinnedBreakdown",
        ledger.spec_balances()[11].0 == "PreparedTableProjectiveSource",
        sf_difference(
            ledger.spec_balances()[11].1,
            ledger.prepared_table_projective_source.consumer.claimed_sum,
        ) == ledger.prepared_table_pinned.prepared_table_provider_claimed_sum,
        ledger.spec_balances()[12].0 == "CertBase",
        sf_difference(
            ledger.spec_balances()[12].1,
            ledger.prepared_table_pinned.cert_base_consumer_claimed_sum,
        ) == ledger.cert_scalar_inputs.cert_base_provider_claimed_sum,
        ledger.spec_balances()[13].0 == "PreparedTableCanonical",
        ledger.spec_balances()[13].1 == ledger.prepared_table_pinned.canonical_claimed_sum,
        ledger.spec_balances()[14].0 == "FakeGlvProjectiveSource",
        sf_difference(
            ledger.spec_balances()[14].1,
            ledger.fake_glv_projective_source.consumer.claimed_sum,
        ) == ledger.fake_glv_projective_source.provider.claimed_sum,
        ledger.spec_balances()[15].0 == "FakeGlvChainExpansion",
        sf_difference(
            ledger.spec_balances()[15].1,
            ledger.fake_glv_chain_expansion.primitive_claimed_sum,
        ) == ledger.fake_glv_chain_expansion.expansion_claimed_sum,
        ledger.spec_balances()[16].0 == "FakeGlvChainContinuity",
        ledger.spec_balances()[16].1 == ledger.fake_glv_chain_continuity.claimed_sum,
        ledger.spec_balances()[17].0 == "FakeGlvDirectPreparedOperand",
        sf_difference(
            ledger.spec_balances()[17].1,
            ledger.fake_glv_direct_prepared_operand.consumer.claimed_sum,
        ) == ledger.fake_glv_direct_prepared_operand.provider.claimed_sum,
        ledger.spec_balances()[18].0 == "FakeGlvSignedSelectorOperand",
        sf_difference(
            ledger.spec_balances()[18].1,
            ledger.fake_glv_signed_selector_operand.consumer.claimed_sum,
        ) == ledger.fake_glv_signed_selector_operand.provider.claimed_sum,
        ledger.spec_balances()[19].0 == "FakeGlvLsbCorrectionOperand",
        sf_difference(
            ledger.spec_balances()[19].1,
            ledger.fake_glv_lsb_correction_operand.consumer.claimed_sum,
        ) == ledger.fake_glv_lsb_correction_operand.provider.claimed_sum,
        ledger.spec_balances()[20].0 == "FakeGlvPreparedPointSource",
        sf_difference(
            ledger.spec_balances()[20].1,
            ledger.fake_glv_prepared_point_source.consumer.claimed_sum,
        ) == ledger.fake_glv_prepared_point_source.provider.claimed_sum,
        ledger.spec_balances()[21].0 == "Range7",
        sf_difference(
            ledger.spec_balances()[21].1,
            ledger.prepared_point_range7_consumer.claimed_sum,
        ) == ledger.prepared_point_range7.claimed_sum,
        ledger.spec_balances()[22].0 == "EcdsaResult",
        sf_difference(
            ledger.spec_balances()[22].1,
            ledger.final_check.result_consumer_claimed_sum,
        ) == ledger.ecdsa_result_provider.claimed_sum,
        ledger.spec_balances()[23].0 == "PublicKeyPoint",
        sf_difference(
            ledger.spec_balances()[23].1,
            ledger.public_key_on_curve.claimed_sum,
        ) == ledger.scalar_setup.point_provider_claimed_sum,
        ledger.spec_balances()[24].0 == "ProjectiveRcbAirProofSlice",
        ledger.spec_balances()[24].1 == ledger.projective_rcb_air.claimed_sum,
        ledger.spec_balances()[25].0 == "FinalCheckHint",
        sf_difference(
            ledger.spec_balances()[25].1,
            ledger.final_add.hint_consumer_claimed_sum,
        ) == ledger.prepared_table_pinned.final_check_hint_claimed_sum,
        ledger.spec_balances()[26].0 == "FinalAddInternal",
        ledger.spec_balances()[26].1 == ledger.final_add.internal_claimed_sum,
        ledger.spec_balances()[27].0 == "FinalAddOutput",
        sf_difference(
            ledger.spec_balances()[27].1,
            ledger.final_check.final_add_output_consumer_claimed_sum,
        ) == ledger.final_add.output_provider_claimed_sum,
{
    let all = ledger.spec_balances();
    let scalar = ledger.spec_scalar_balances();
    let setup = ledger.spec_setup_balances();
    let table = ledger.spec_table_balances();
    let ladder = ledger.spec_ladder_balances();
    let result = ledger.spec_result_balances();
    assert(all[0] == scalar[0]);
    assert(all[1] == scalar[1]);
    assert(all[2] == scalar[2]);
    assert(all[3] == scalar[3]);
    assert(all[4] == scalar[4]);
    assert(all[5] == setup[0]);
    assert(all[6] == setup[1]);
    assert(all[7] == setup[2]);
    assert(all[8] == setup[3]);
    assert(all[9] == table[0]);
    assert(all[10] == table[1]);
    assert(all[11] == table[2]);
    assert(all[12] == table[3]);
    assert(all[13] == table[4]);
    assert(all[14] == ladder[0]);
    assert(all[15] == ladder[1]);
    assert(all[16] == ladder[2]);
    assert(all[17] == ladder[3]);
    assert(all[18] == ladder[4]);
    assert(all[19] == ladder[5]);
    assert(all[20] == ladder[6]);
    assert(all[21] == result[0]);
    assert(all[22] == result[1]);
    assert(all[23] == result[2]);
    assert(all[24] == result[3]);
    assert(all[25] == result[4]);
    assert(all[26] == result[5]);
    assert(all[27] == result[6]);
    lemma_sum_of_reduced(slice_totals(ledger.scalar_setup_mod_muls@));
    lemma_sum_of_reduced(slice_totals(ledger.fake_glv_scalar_mod_muls@));
    lemma_take_back(
        ledger.public_inputs.provider.claimed_sum,
        ledger.public_inputs.consumer.claimed_sum,
    );
    lemma_take_back(
        ledger.scalar_setup.output_provider_claimed_sum,
        ledger.cert_scalar_inputs.scalar_setup_consumer_claimed_sum,
    );
    lemma_take_back(
        ledger.cert_scalar_inputs.cert_provider_claimed_sum,
        ledger.fake_glv_scalar_air.cert_consumer_claimed_sum,
    );
    lemma_take_back(
        ledger.fake_glv_scalar_air.scalar_provider_claimed_sum,
        ledger.fake_glv_selector_air.claimed_sum,
    );
    lemma_take_back_two(
        ledger.scalar_setup.range13_provider_claimed_sum,
        ledger.scalar_setup.range13_consumer_claimed_sum,
        ledger.final_check.range13_consumer_claimed_sum,
    );
    lemma_take_back_two(
        ledger.scalar_setup.range9_provider_claimed_sum,
        ledger.scalar_setup.range9_consumer_claimed_sum,
        ledger.final_check.range9_consumer_claimed_sum,
    );
    lemma_take_back_two(
        ledger.scalar_setup.signed_carry_provider_claimed_sum,
        ledger.scalar_setup.signed_carry_consumer_claimed_sum,
        ledger.final_check.signed_carry_consumer_claimed_sum,
    );
    lemma_take_back(
        sf_sum_of(slice_totals(ledger.scalar_setup_mod_muls@)),
        ledger.scalar_setup.scalar_limb_consumer_claimed_sum,
    );
    lemma_take_back(
        sf_sum_of(slice_totals(ledger.fake_glv_scalar_mod_muls@)),
        ledger.fake_glv_scalar_air.scalar_mod_mul_provider_claimed_sum,
    );
    lemma_take_back(
        ledger.prepared_table_pinned.prepared_table_provider_claimed_sum,
        ledger.prepared_table_projective_source.consumer.claimed_sum,
    );
    lemma_take_back(
        ledger.cert_scalar_inputs.cert_base_provider_claimed_sum,
        ledger.prepared_table_pinned.cert_base_consumer_claimed_sum,
    );
    lemma_take_back(
        ledger.fake_glv_projective_source.provider.claimed_sum,
        ledger.fake_glv_projective_source.consumer.claimed_sum,
    );
    lemma_take_back(
        ledger.fake_glv_chain_expansion.expansion_claimed_sum,
        ledger.fake_glv_chain_expansion.primitive_claimed_sum,
    );
    lemma_take_back(
        ledger.fake_glv_direct_prepared_operand.provider.claimed_sum,
        ledger.fake_glv_direct_prepared_operand.consumer.claimed_sum,
    );
    lemma_take_back(
        ledger.fake_glv_signed_selector_operand.provider.claimed_sum,
        ledger.fake_glv_signed_selector_operand.consumer.claimed_sum,
    );
    lemma_take_back(
        ledger.fake_glv_lsb_correction_operand.provider.claimed_sum,
        ledger.fake_glv_lsb_correction_operand.consumer.claimed_sum,
    );
    lemma_take_back(
        ledger.fake_glv_prepared_point_source.provider.claimed_sum,
        ledger.fake_glv_prepared_point_source.consumer.claimed_sum,
    );
    lemma_take_back(
        ledger.prepared_point_range7.claimed_sum,
        ledger.prepared_point_range7_consumer.claimed_sum,
    );
    lemma_take_back(
        ledger.ecdsa_result_provider.claimed_sum,
        ledger.final_check.result_consumer_claimed_sum,
    );
    lemma_take_back(
        ledger.scalar_setup.point_provider_claimed_sum,
        ledger.public_key_on_curve.claimed_sum,
    );
    lemma_take_back(
        ledger.prepared_table_pinned.final_check_hint_claimed_sum,
        ledger.final_add.hint_consumer_claimed_sum,
    );
    lemma_take_back(
        ledger.final_add.output_provider_claimed_sum,
        ledger.final_check.final_add_output_consumer_claimed_sum,
    );
}

/// Law: the pinned provider of the table is accounted for twice: its total less what
/// it declares is its first entry, and its total is its second entry together with
/// its four parts.
pub proof fn law_ledger_accounts_for_the_pinned_table(ledger: RelationLedger)
    requires
        ledger.wf(),
    ensures
        ({
            let pinned = ledger.prepared_table_pinned;
            let declared = ledger.prepared_table_projective_source.provider.claimed_sum;
            &&& sf_sum(ledger.spec_balances()[9].1, declared) == pinned.total_claimed_sum
            &&& sf_sum(
                sf_sum(
                    sf_sum(
                        sf_sum(
                            ledger.spec_balances()[10].1,
                            pinned.final_check_hint_claimed_sum,
                        ),
                        pinned.canonical_claimed_sum,
                    ),
                    pinned.cert_base_consumer_claimed_sum,
                ),
                pinned.prepared_table_provider_claimed_sum,
            ) == pinned.total_claimed_sum
        }),
{
    let all = ledger.spec_balances();
    let table = ledger.spec_table_balances();
    assert(all[9] == table[0] && all[10] == table[1]);
    let pinned = ledger.prepared_table_pinned;
    let t = pinned.total_claimed_sum;
    lemma_add_back(t, ledger.prepared_table_projective_source.provider.claimed_sum);
    let a = pinned.prepared_table_provider_claimed_sum;
    let b = pinned.cert_base_consumer_claimed_sum;
    let c = pinned.canonical_claimed_sum;
    let d = pinned.final_check_hint_claimed_sum;
    let ta = sf_difference(t, a);
    lemma_results_reduced(t, a);
    let tb = sf_difference(ta, b);
    lemma_results_reduced(ta, b);
    let tc = sf_difference(tb, c);
    lemma_results_reduced(tb, c);
    lemma_add_back(t, a);
    lemma_add_back(ta, b);
    lemma_add_back(tb, c);
    lemma_add_back(tc, d);
}

/// What is taken away can be added back.
proof fn lemma_add_back(x: SecureField, y: SecureField)
    requires
        x.wf(),
        y.wf(),
    ensures
        sf_sum(sf_difference(x, y), y) == x,
{
    reveal(crate::fields::sf_of);
    lemma_difference_back(x.c0.0 as int, y.c0.0 as int);
    lemma_difference_back(x.c1.0 as int, y.c1.0 as int);
    lemma_difference_back(x.c2.0 as int, y.c2.0 as int);
    lemma_difference_back(x.c3.0 as int, y.c3.0 as int);
}

proof fn lemma_difference_back(x: int, y: int)
    requires
        0 <= x < 2_147_483_647,
        0 <= y < 2_147_483_647,
    ensures
        0 <= (x - y) % 2_147_483_647 < 2_147_483_647,
        ((x - y) % 2_147_483_647 + y) % 2_147_483_647 == x,
{
}

/// Law: a slice of scalar products adds its three sums, and slices add up.
pub proof fn law_slices_add_up(
    a: Seq<ScalarModMulProofSliceInteractionClaim>,
    slice: ScalarModMulProofSliceInteractionClaim,
)
    requires
        slice.wf(),
    ensures
        sf_difference(
            sf_difference(
                sf_difference(
                    sf_sum_of(slice_totals(a.push(slice))),
                    sf_sum_of(slice_totals(a)),
                ),
                slice.signed_carry.claimed_sum,
            ),
            slice.range13.claimed_sum,
        ) == slice.scalar_mod_mul.claimed_sum,
        sf_sum_of(slice_totals(Seq::empty())) == sf_zero(),
{
    let before = sf_sum_of(slice_totals(a));
    assert(slice_totals(a.push(slice)).drop_last() =~= slice_totals(a));
    assert(slice_totals(a.push(slice)).last() == slice.spec_total());
    lemma_sum_of_reduced(slice_totals(a));
    let (x, y, z) = (
        slice.scalar_mod_mul.claimed_sum,
        slice.range13.claimed_sum,
        slice.signed_carry.claimed_sum,
    );
    lemma_results_reduced(x, y);
    lemma_results_reduced(sf_sum(x, y), z);
    lemma_take_back(slice.spec_total(), before);
    lemma_take_back(sf_sum(x, y), z);
    lemma_take_back(x, y);
}

/// Law: the links of the ledger are witnessed by the side that reads or provides
/// them.
pub proof fn law_ledger_witnesses(ledger: RelationLedger)
    ensures
        ledger.spec_liveness().len() == 5,
        ledger.spec_liveness()[0] == (
            "EcdsaResult",
            ledger.final_check.result_consumer_claimed_sum,
        ),
        ledger.spec_liveness()[1] == (
            "PublicKeyPoint",
            ledger.scalar_setup.point_provider_claimed_sum,
        ),
        ledger.spec_liveness()[2] == (
            "CertBase",
            ledger.cert_scalar_inputs.cert_base_provider_claimed_sum,
        ),
        ledger.spec_liveness()[3] == (
            "FinalCheckHint",
            ledger.prepared_table_pinned.final_check_hint_claimed_sum,
        ),
        ledger.spec_liveness()[4] == (
            "FinalAddOutput",
            ledger.final_add.output_provider_claimed_sum,
        ),
{
}

/// Law: every link of a proof is witnessed by the sum that its name says; the hinted
/// products by the sum of their six.
pub proof fn law_interaction_witnesses(claim: P256CurrentAirInteractionClaim)
    ensures
        claim.spec_liveness().len() == 20,
        claim.spec_liveness()[0] == ("ScalarSetup", claim.scalar_setup.claimed_sum),
        claim.spec_liveness()[1] == ("CertScalarInputs", claim.cert_scalar_inputs.claimed_sum),
        claim.spec_liveness()[2] == (
            "PreparedTablePinned",
            claim.prepared_table_pinned.claimed_sum,
        ),
        claim.spec_liveness()[3] == (
            "PreparedTableFinalCheckHint",
            claim.prepared_table_pinned.final_check_hint.claimed_sum,
        ),
        claim.spec_liveness()[4] == (
            "PreparedTableProjectiveSourceProvider",
            claim.prepared_table_projective_source.provider.claimed_sum,
        ),
        claim.spec_liveness()[5] == (
            "PreparedTableProjectiveSourceConsumer",
            claim.prepared_table_projective_source.consumer.claimed_sum,
        ),
        claim.spec_liveness()[6] == (
            "FakeGlvProjectiveSourceProvider",
            claim.fake_glv_projective_source.provider.claimed_sum,
        ),
        claim.spec_liveness()[7] == (
            "FakeGlvProjectiveSourceConsumer",
            claim.fake_glv_projective_source.consumer.claimed_sum,
        ),
        claim.spec_liveness()[8] == (
            "FakeGlvDirectPreparedOperandProvider",
            claim.fake_glv_direct_prepared_operand.provider.claimed_sum,
        ),
        claim.spec_liveness()[9] == (
            "FakeGlvDirectPreparedOperandConsumer",
            claim.fake_glv_direct_prepared_operand.consumer.claimed_sum,
        ),
        claim.spec_liveness()[10] == (
            "FakeGlvSignedSelectorOperandProvider",
            claim.fake_glv_signed_selector_operand.provider.claimed_sum,
        ),
        claim.spec_liveness()[11] == (
            "FakeGlvSignedSelectorOperandConsumer",
            claim.fake_glv_signed_selector_operand.consumer.claimed_sum,
        ),
        claim.spec_liveness()[12] == (
            "FakeGlvLsbCorrectionOperandProvider",
            claim.fake_glv_lsb_correction_operand.provider.claimed_sum,
        ),
        claim.spec_liveness()[13] == (
            "FakeGlvLsbCorrectionOperandConsumer",
            claim.fake_glv_lsb_correction_operand.consumer.claimed_sum,
        ),
        claim.spec_liveness()[14] == (
            "FakeGlvPreparedPointSourceProvider",
            claim.fake_glv_prepared_point_source.provider.claimed_sum,
        ),
        claim.spec_liveness()[15] == (
            "FakeGlvPreparedPointSourceConsumer",
            claim.fake_glv_prepared_point_source.consumer.claimed_sum,
        ),
        claim.spec_liveness()[16] == ("FinalCheck", claim.final_check.claimed_sum),
        claim.spec_liveness()[17] == ("PublicKeyCurve", claim.public_key_on_curve.claimed_sum),
        claim.spec_liveness()[18] == (
            "HintedMul",
            sf_sum_of(
                seq![
                    claim.hinted_mul.claimed_sum,
                    claim.hinted_mul.gamma_range13,
                    claim.hinted_mul.gamma_signed,
                    claim.hinted_mul.range13,
                    claim.hinted_mul.signed_h,
                    claim.hinted_mul.signed_formula,
                ],
            ),
        ),
        claim.spec_liveness()[19] == ("FinalAdd", claim.final_add.claimed_sum),
{
}

/// Law: the sizing claim claims nothing: every link is dead, and every absorbed element is
/// zero.
pub proof fn law_zero_claim_is_dead(claim: P256CurrentAirInteractionClaim)
    requires
        claim.is_zero(),
    ensures
        forall|i: int| 0 <= i < 20 ==> (#[trigger] claim.spec_liveness()[i]).1 == sf_zero(),
        forall|i: int, k: int|
            0 <= i < 20 && 0 <= k < claim.transcript_messages()[i].len()
                ==> #[trigger] claim.transcript_messages()[i][k] == sf_zero(),
{
    let h = claim.hinted_mul;
    law_sum_of_zeros(
        seq![
            h.claimed_sum,
            h.gamma_range13,
            h.gamma_signed,
            h.range13,
            h.signed_h,
            h.signed_formula,
        ],
    );
}

/// Law: the total of a relation, less what its consumers claim, is what its provider claims.
pub proof fn law_relation_total(claim: RelationBalanceClaim)
    requires
        claim.wf(),
    ensures
        sf_difference(claim.spec_total(), claim.consumer_claimed_sum)
            == claim.provider_claimed_sum,
{
    lemma_take_back(claim.provider_claimed_sum, claim.consumer_claimed_sum);
}

} // verus!
