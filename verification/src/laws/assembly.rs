//! How the interaction claim of a proof is made up of the sums of its parts.
use crate::fields::{
    law_sum_associates, law_sum_commutes, law_sum_identity, law_sum_of_concat,
    lemma_results_reduced, sf_sum, sf_sum_of, SecureField,
};
use crate::pipeline::interaction_claim::{
    ChainExpansionClaim, ComponentInteractionClaim, HintedMulProofInteractionClaim,
    P256CurrentAirInteractionClaim, PinnedTableClaim, ProviderConsumerClaim,
    ScalarModMulProofSliceInteractionClaim,
};
use crate::pipeline::public_providers::{
    lemma_provided_reduced, provided, result_tuples, stated_balance, statement_tuples,
};
use crate::pipeline::relations::P256CurrentAirRelations;
use crate::pipeline::traces::{assembles, InteractionSums, TableSums};
use crate::public_inputs::PublicEcdsaInstance;
use crate::range_checks::interaction::RangeCheckInteractionClaim;
use vstd::prelude::*;

verus! {

/// Law: every sum of a part, or of a table, goes to the component of its name:
/// replacing one sum replaces the claim of that component, and no other. The
/// pinned table is claimed by the provider of prepared rows and in its breakdown.
pub proof fn law_each_sum_goes_to_its_component(
    a: P256CurrentAirInteractionClaim,
    b: P256CurrentAirInteractionClaim,
    sums: InteractionSums,
    tables: TableSums,
    v: SecureField,
)
    requires
        assembles(a, sums, tables),
    ensures
        assembles(b, (InteractionSums { scalar_setup: v, ..sums }), tables)
            ==> b == (P256CurrentAirInteractionClaim {
                scalar_setup: ComponentInteractionClaim { claimed_sum: v },
                ..a
            }),
        assembles(b, (InteractionSums { cert_scalar_inputs: v, ..sums }), tables)
            ==> b == (P256CurrentAirInteractionClaim {
                cert_scalar_inputs: ComponentInteractionClaim { claimed_sum: v },
                ..a
            }),
        assembles(b, (InteractionSums { fake_glv_scalar_air: v, ..sums }), tables)
            ==> b == (P256CurrentAirInteractionClaim {
                fake_glv_scalar_air: ComponentInteractionClaim { claimed_sum: v },
                ..a
            }),
        assembles(b, (InteractionSums { fake_glv_selector_air: v, ..sums }), tables)
            ==> b == (P256CurrentAirInteractionClaim {
                fake_glv_selector_air: ComponentInteractionClaim { claimed_sum: v },
                ..a
            }),
        assembles(b, (InteractionSums { scalar_mod_mul: v, ..sums }), tables)
            ==> b == (P256CurrentAirInteractionClaim {
                scalar_mod_muls: ScalarModMulProofSliceInteractionClaim {
                    scalar_mod_mul: ComponentInteractionClaim { claimed_sum: v },
                    ..a.scalar_mod_muls
                },
                ..a
            }),
        assembles(b, (InteractionSums { scalar_mod_mul_range13: v, ..sums }), tables)
            ==> b == (P256CurrentAirInteractionClaim {
                scalar_mod_muls: ScalarModMulProofSliceInteractionClaim {
                    range13: RangeCheckInteractionClaim { claimed_sum: v },
                    ..a.scalar_mod_muls
                },
                ..a
            }),
        assembles(b, (InteractionSums { scalar_mod_mul_signed_carry: v, ..sums }), tables)
            ==> b == (P256CurrentAirInteractionClaim {
                scalar_mod_muls: ScalarModMulProofSliceInteractionClaim {
                    signed_carry: RangeCheckInteractionClaim { claimed_sum: v },
                    ..a.scalar_mod_muls
                },
                ..a
            }),
        assembles(b, (InteractionSums { prepared_table_pinned: v, ..sums }), tables)
            ==> b == (P256CurrentAirInteractionClaim {
                prepared_table_projective_source: ProviderConsumerClaim {
                    provider: ComponentInteractionClaim { claimed_sum: v },
                    ..a.prepared_table_projective_source
                },
                prepared_table_pinned: PinnedTableClaim {
                    claimed_sum: v,
                    ..a.prepared_table_pinned
                },
                ..a
            }),
        assembles(b, (InteractionSums { final_check_hint: v, ..sums }), tables)
            ==> b == (P256CurrentAirInteractionClaim {
                prepared_table_pinned: PinnedTableClaim {
                    final_check_hint: ComponentInteractionClaim { claimed_sum: v },
                    ..a.prepared_table_pinned
                },
                ..a
            }),
        assembles(b, (InteractionSums { fake_glv_provider: v, ..sums }), tables)
            ==> b == (P256CurrentAirInteractionClaim {
                fake_glv_projective_source: ProviderConsumerClaim {
                    provider: ComponentInteractionClaim { claimed_sum: v },
                    ..a.fake_glv_projective_source
                },
                ..a
            }),
        assembles(b, (InteractionSums { expansion_provider: v, ..sums }), tables)
            ==> b == (P256CurrentAirInteractionClaim {
                fake_glv_chain_expansion: ChainExpansionClaim {
                    expansion_claimed_sum: v,
                    ..a.fake_glv_chain_expansion
                },
                ..a
            }),
        assembles(b, (InteractionSums { expansion_consumer: v, ..sums }), tables)
            ==> b == (P256CurrentAirInteractionClaim {
                fake_glv_chain_expansion: ChainExpansionClaim {
                    primitive_claimed_sum: v,
                    ..a.fake_glv_chain_expansion
                },
                ..a
            }),
        assembles(b, (InteractionSums { continuity: v, ..sums }), tables)
            ==> b == (P256CurrentAirInteractionClaim {
                fake_glv_chain_continuity: ComponentInteractionClaim { claimed_sum: v },
                ..a
            }),
        assembles(b, (InteractionSums { direct_provider: v, ..sums }), tables)
            ==> b == (P256CurrentAirInteractionClaim {
                fake_glv_direct_prepared_operand: ProviderConsumerClaim {
                    provider: ComponentInteractionClaim { claimed_sum: v },
                    ..a.fake_glv_direct_prepared_operand
                },
                ..a
            }),
        assembles(b, (InteractionSums { direct_consumer: v, ..sums }), tables)
            ==> b == (P256CurrentAirInteractionClaim {
                fake_glv_direct_prepared_operand: ProviderConsumerClaim {
                    consumer: ComponentInteractionClaim { claimed_sum: v },
                    ..a.fake_glv_direct_prepared_operand
                },
                ..a
            }),
        assembles(b, (InteractionSums { signed_provider: v, ..sums }), tables)
            ==> b == (P256CurrentAirInteractionClaim {
                fake_glv_signed_selector_operand: ProviderConsumerClaim {
                    provider: ComponentInteractionClaim { claimed_sum: v },
                    ..a.fake_glv_signed_selector_operand
                },
                ..a
            }),
        assembles(b, (InteractionSums { signed_consumer: v, ..sums }), tables)
            ==> b == (P256CurrentAirInteractionClaim {
                fake_glv_signed_selector_operand: ProviderConsumerClaim {
                    consumer: ComponentInteractionClaim { claimed_sum: v },
                    ..a.fake_glv_signed_selector_operand
                },
                ..a
            }),
        assembles(b, (InteractionSums { lsb_provider: v, ..sums }), tables)
            ==> b == (P256CurrentAirInteractionClaim {
                fake_glv_lsb_correction_operand: ProviderConsumerClaim {
                    provider: ComponentInteractionClaim { claimed_sum: v },
                    ..a.fake_glv_lsb_correction_operand
                },
                ..a
            }),
        assembles(b, (InteractionSums { lsb_consumer: v, ..sums }), tables)
            ==> b == (P256CurrentAirInteractionClaim {
                fake_glv_lsb_correction_operand: ProviderConsumerClaim {
                    consumer: ComponentInteractionClaim { claimed_sum: v },
                    ..a.fake_glv_lsb_correction_operand
                },
                ..a
            }),
        assembles(b, (InteractionSums { prepared_point_consumer: v, ..sums }), tables)
            ==> b == (P256CurrentAirInteractionClaim {
                fake_glv_prepared_point_source: ProviderConsumerClaim {
                    consumer: ComponentInteractionClaim { claimed_sum: v },
                    ..a.fake_glv_prepared_point_source
                },
                ..a
            }),
        assembles(b, (InteractionSums { final_check: v, ..sums }), tables)
            ==> b == (P256CurrentAirInteractionClaim {
                final_check: ComponentInteractionClaim { claimed_sum: v },
                ..a
            }),
        assembles(b, (InteractionSums { public_key_on_curve: v, ..sums }), tables)
            ==> b == (P256CurrentAirInteractionClaim {
                public_key_on_curve: ComponentInteractionClaim { claimed_sum: v },
                ..a
            }),
        assembles(b, (InteractionSums { hinted_mul: v, ..sums }), tables)
            ==> b == (P256CurrentAirInteractionClaim {
                hinted_mul: HintedMulProofInteractionClaim { claimed_sum: v, ..a.hinted_mul },
                ..a
            }),
        assembles(b, (InteractionSums { hinted_gamma_range13: v, ..sums }), tables)
            ==> b == (P256CurrentAirInteractionClaim {
                hinted_mul: HintedMulProofInteractionClaim { gamma_range13: v, ..a.hinted_mul },
                ..a
            }),
        assembles(b, (InteractionSums { hinted_gamma_signed: v, ..sums }), tables)
            ==> b == (P256CurrentAirInteractionClaim {
                hinted_mul: HintedMulProofInteractionClaim { gamma_signed: v, ..a.hinted_mul },
                ..a
            }),
        assembles(b, sums, (TableSums { range13: v, ..tables }))
            ==> b == (P256CurrentAirInteractionClaim {
                hinted_mul: HintedMulProofInteractionClaim { range13: v, ..a.hinted_mul },
                ..a
            }),
        assembles(b, sums, (TableSums { signed_h: v, ..tables }))
            ==> b == (P256CurrentAirInteractionClaim {
                hinted_mul: HintedMulProofInteractionClaim { signed_h: v, ..a.hinted_mul },
                ..a
            }),
        assembles(b, sums, (TableSums { signed_formula: v, ..tables }))
            ==> b == (P256CurrentAirInteractionClaim {
                hinted_mul: HintedMulProofInteractionClaim { signed_formula: v, ..a.hinted_mul },
                ..a
            }),
        assembles(b, sums, (TableSums { range7: v, ..tables }))
            ==> b == (P256CurrentAirInteractionClaim {
                prepared_point_range7: RangeCheckInteractionClaim { claimed_sum: v },
                ..a
            }),
        assembles(b, (InteractionSums { final_add: v, ..sums }), tables)
            ==> b == (P256CurrentAirInteractionClaim {
                final_add: ComponentInteractionClaim { claimed_sum: v },
                ..a
            }),
{
}

/// Law: a consumer of rows claims its row, product and header terms together, and
/// the provider of prepared points claims its table uses along: adding to one of
/// these sums adds the same to that claim, and changes no other.
pub proof fn law_joined_sums_go_to_one_component(
    a: P256CurrentAirInteractionClaim,
    b: P256CurrentAirInteractionClaim,
    sums: InteractionSums,
    tables: TableSums,
    d: SecureField,
)
    requires
        sums.wf(),
        d.wf(),
        assembles(a, sums, tables),
    ensures
        assembles(
            b,
            (InteractionSums {
                prepared_consumer_ec_row: sf_sum(sums.prepared_consumer_ec_row, d),
                ..sums
            }),
            tables,
        )
            ==> b == (P256CurrentAirInteractionClaim {
                prepared_table_projective_source: ProviderConsumerClaim {
                    consumer: ComponentInteractionClaim {
                        claimed_sum: sf_sum(
                            a.prepared_table_projective_source.consumer.claimed_sum,
                            d,
                        ),
                    },
                    ..a.prepared_table_projective_source
                },
                ..a
            }),
        assembles(
            b,
            (InteractionSums {
                prepared_consumer_mul_result: sf_sum(sums.prepared_consumer_mul_result, d),
                ..sums
            }),
            tables,
        )
            ==> b == (P256CurrentAirInteractionClaim {
                prepared_table_projective_source: ProviderConsumerClaim {
                    consumer: ComponentInteractionClaim {
                        claimed_sum: sf_sum(
                            a.prepared_table_projective_source.consumer.claimed_sum,
                            d,
                        ),
                    },
                    ..a.prepared_table_projective_source
                },
                ..a
            }),
        assembles(
            b,
            (InteractionSums {
                prepared_consumer_header_yield: sf_sum(sums.prepared_consumer_header_yield, d),
                ..sums
            }),
            tables,
        )
            ==> b == (P256CurrentAirInteractionClaim {
                prepared_table_projective_source: ProviderConsumerClaim {
                    consumer: ComponentInteractionClaim {
                        claimed_sum: sf_sum(
                            a.prepared_table_projective_source.consumer.claimed_sum,
                            d,
                        ),
                    },
                    ..a.prepared_table_projective_source
                },
                ..a
            }),
        assembles(
            b,
            (InteractionSums {
                fake_glv_consumer_ec_row: sf_sum(sums.fake_glv_consumer_ec_row, d),
                ..sums
            }),
            tables,
        )
            ==> b == (P256CurrentAirInteractionClaim {
                fake_glv_projective_source: ProviderConsumerClaim {
                    consumer: ComponentInteractionClaim {
                        claimed_sum: sf_sum(a.fake_glv_projective_source.consumer.claimed_sum, d),
                    },
                    ..a.fake_glv_projective_source
                },
                ..a
            }),
        assembles(
            b,
            (InteractionSums {
                fake_glv_consumer_mul_result: sf_sum(sums.fake_glv_consumer_mul_result, d),
                ..sums
            }),
            tables,
        )
            ==> b == (P256CurrentAirInteractionClaim {
                fake_glv_projective_source: ProviderConsumerClaim {
                    consumer: ComponentInteractionClaim {
                        claimed_sum: sf_sum(a.fake_glv_projective_source.consumer.claimed_sum, d),
                    },
                    ..a.fake_glv_projective_source
                },
                ..a
            }),
        assembles(
            b,
            (InteractionSums {
                fake_glv_consumer_header_yield: sf_sum(sums.fake_glv_consumer_header_yield, d),
                ..sums
            }),
            tables,
        )
            ==> b == (P256CurrentAirInteractionClaim {
                fake_glv_projective_source: ProviderConsumerClaim {
                    consumer: ComponentInteractionClaim {
                        claimed_sum: sf_sum(a.fake_glv_projective_source.consumer.claimed_sum, d),
                    },
                    ..a.fake_glv_projective_source
                },
                ..a
            }),
        assembles(
            b,
            (InteractionSums {
                prepared_point_provider: sf_sum(sums.prepared_point_provider, d),
                ..sums
            }),
            tables,
        )
            ==> b == (P256CurrentAirInteractionClaim {
                fake_glv_prepared_point_source: ProviderConsumerClaim {
                    provider: ComponentInteractionClaim {
                        claimed_sum: sf_sum(
                            a.fake_glv_prepared_point_source.provider.claimed_sum,
                            d,
                        ),
                    },
                    ..a.fake_glv_prepared_point_source
                },
                ..a
            }),
        assembles(
            b,
            (InteractionSums {
                prepared_point_range7_consumer: sf_sum(sums.prepared_point_range7_consumer, d),
                ..sums
            }),
            tables,
        )
            ==> b == (P256CurrentAirInteractionClaim {
                fake_glv_prepared_point_source: ProviderConsumerClaim {
                    provider: ComponentInteractionClaim {
                        claimed_sum: sf_sum(
                            a.fake_glv_prepared_point_source.provider.claimed_sum,
                            d,
                        ),
                    },
                    ..a.fake_glv_prepared_point_source
                },
                ..a
            }),
{
    lemma_shift_any(
        sums.prepared_consumer_ec_row,
        sums.prepared_consumer_mul_result,
        sums.prepared_consumer_header_yield,
        d,
    );
    lemma_shift_any(
        sums.fake_glv_consumer_ec_row,
        sums.fake_glv_consumer_mul_result,
        sums.fake_glv_consumer_header_yield,
        d,
    );
    lemma_shift_both(sums.prepared_point_provider, sums.prepared_point_range7_consumer, d);
}

/// Shifting either of two summands shifts their sum.
proof fn lemma_shift_both(x: SecureField, y: SecureField, d: SecureField)
    requires
        x.wf(),
        y.wf(),
        d.wf(),
    ensures
        sf_sum(sf_sum(x, d), y) == sf_sum(sf_sum(x, y), d),
        sf_sum(x, sf_sum(y, d)) == sf_sum(sf_sum(x, y), d),
{
    law_sum_associates(x, y, d);
    law_sum_associates(x, d, y);
    law_sum_commutes(d, y);
}

/// Shifting any of three summands shifts their sum.
proof fn lemma_shift_any(x: SecureField, y: SecureField, z: SecureField, d: SecureField)
    requires
        x.wf(),
        y.wf(),
        z.wf(),
        d.wf(),
    ensures
        sf_sum(sf_sum(sf_sum(x, d), y), z) == sf_sum(sf_sum(sf_sum(x, y), z), d),
        sf_sum(sf_sum(x, sf_sum(y, d)), z) == sf_sum(sf_sum(sf_sum(x, y), z), d),
        sf_sum(sf_sum(x, y), sf_sum(z, d)) == sf_sum(sf_sum(sf_sum(x, y), z), d),
{
    lemma_results_reduced(x, y);
    lemma_shift_both(x, y, d);
    lemma_shift_both(sf_sum(x, y), z, d);
}

/// A list of one, two or three summands, and one of four whose last three belong
/// together.
proof fn lemma_short_sums(w: SecureField, x: SecureField, y: SecureField, z: SecureField)
    requires
        w.wf(),
        x.wf(),
        y.wf(),
        z.wf(),
    ensures
        sf_sum_of(seq![w]) == w,
        sf_sum_of(seq![w, x]) == sf_sum(w, x),
        sf_sum_of(seq![w, x, y]) == sf_sum(sf_sum(w, x), y),
        sf_sum_of(seq![w, x, y, z]) == sf_sum(w, sf_sum(sf_sum(x, y), z)),
{
    law_sum_identity(w);
    reveal_with_fuel(sf_sum_of, 2);
    assert(seq![w].drop_last() =~= Seq::<SecureField>::empty());
    assert(sf_sum_of(seq![w]) == w);
    assert(seq![w, x].drop_last() =~= seq![w]);
    assert(sf_sum_of(seq![w, x]) == sf_sum(w, x));
    assert(seq![w, x, y].drop_last() =~= seq![w, x]);
    assert(sf_sum_of(seq![w, x, y]) == sf_sum(sf_sum(w, x), y));
    assert(seq![w, x, y, z].drop_last() =~= seq![w, x, y]);
    lemma_results_reduced(w, x);
    lemma_results_reduced(x, y);
    law_sum_associates(w, x, y);
    law_sum_associates(w, sf_sum(x, y), z);
}

/// One more term, made up of a group of summands.
proof fn lemma_next_group(
    terms: Seq<SecureField>,
    n: int,
    flat: Seq<SecureField>,
    group: Seq<SecureField>,
)
    requires
        0 <= n < terms.len(),
        sf_sum_of(terms.take(n)) == sf_sum_of(flat),
        sf_sum_of(group) == terms[n],
        forall|i: int| 0 <= i < group.len() ==> (#[trigger] group[i]).wf(),
    ensures
        sf_sum_of(terms.take(n + 1)) == sf_sum_of(flat + group),
{
    assert(terms.take(n + 1).drop_last() =~= terms.take(n));
    law_sum_of_concat(flat, group);
}

/// Law: the assembled claim accounts for every sum once. Its balance is what the
/// statements provide, and the sums of all parts and tables, each taken once; the
/// hint of the final check is a part of the pinned table. So parts whose sums
/// cancel, together with what is provided, give a claim that balances.
pub proof fn law_assembled_claim_accounts_for_every_sum(
    claim: P256CurrentAirInteractionClaim,
    sums: InteractionSums,
    tables: TableSums,
    instances: Seq<PublicEcdsaInstance>,
    relations: P256CurrentAirRelations,
)
    requires
        sums.wf(),
        tables.wf(),
        assembles(claim, sums, tables),
    ensures
        stated_balance(claim, instances, relations) == sf_sum_of(
            seq![
                provided(relations.public_inputs, statement_tuples(instances)),
                provided(relations.ecdsa_result, result_tuples(instances)),
                sums.scalar_setup,
                sums.cert_scalar_inputs,
                sums.fake_glv_scalar_air,
                sums.fake_glv_selector_air,
                sums.scalar_mod_mul,
                sums.scalar_mod_mul_range13,
                sums.scalar_mod_mul_signed_carry,
                sums.prepared_table_pinned,
                sums.prepared_consumer_ec_row,
                sums.prepared_consumer_mul_result,
                sums.prepared_consumer_header_yield,
                sums.fake_glv_provider,
                sums.fake_glv_consumer_ec_row,
                sums.fake_glv_consumer_mul_result,
                sums.fake_glv_consumer_header_yield,
                sums.expansion_provider,
                sums.expansion_consumer,
                sums.continuity,
                sums.direct_provider,
                sums.direct_consumer,
                sums.signed_provider,
                sums.signed_consumer,
                sums.lsb_provider,
                sums.lsb_consumer,
                sums.prepared_point_provider,
                sums.prepared_point_range7_consumer,
                sums.prepared_point_consumer,
                tables.range7,
                sums.final_check,
                sums.public_key_on_curve,
                sums.hinted_mul,
                sums.hinted_gamma_range13,
                sums.hinted_gamma_signed,
                tables.range13,
                tables.signed_h,
                tables.signed_formula,
                sums.final_add,
            ],
        ),
{
    let p = provided(relations.public_inputs, statement_tuples(instances));
    let q = provided(relations.ecdsa_result, result_tuples(instances));
    lemma_provided_reduced(relations.public_inputs, statement_tuples(instances));
    lemma_provided_reduced(relations.ecdsa_result, result_tuples(instances));
    let terms = claim.lookup_terms(p, q);
    let flat = seq![p, q];
    assert(terms.take(2) =~= flat);
    lemma_short_sums(sums.scalar_setup, sums.scalar_setup, sums.scalar_setup, sums.scalar_setup);
    let group = seq![sums.scalar_setup];
    assert(sf_sum_of(group) == terms[2]);
    lemma_next_group(terms, 2, flat, group);
    let flat = flat + group;
    lemma_short_sums(
        sums.cert_scalar_inputs,
        sums.cert_scalar_inputs,
        sums.cert_scalar_inputs,
        sums.cert_scalar_inputs,
    );
    let group = seq![sums.cert_scalar_inputs];
    assert(sf_sum_of(group) == terms[3]);
    lemma_next_group(terms, 3, flat, group);
    let flat = flat + group;
    lemma_short_sums(
        sums.fake_glv_scalar_air,
        sums.fake_glv_scalar_air,
        sums.fake_glv_scalar_air,
        sums.fake_glv_scalar_air,
    );
    let group = seq![sums.fake_glv_scalar_air];
    assert(sf_sum_of(group) == terms[4]);
    lemma_next_group(terms, 4, flat, group);
    let flat = flat + group;
    lemma_short_sums(
        sums.fake_glv_selector_air,
        sums.fake_glv_selector_air,
        sums.fake_glv_selector_air,
        sums.fake_glv_selector_air,
    );
    let group = seq![sums.fake_glv_selector_air];
    assert(sf_sum_of(group) == terms[5]);
    lemma_next_group(terms, 5, flat, group);
    let flat = flat + group;
    lemma_short_sums(
        sums.scalar_mod_mul,
        sums.scalar_mod_mul_range13,
        sums.scalar_mod_mul_signed_carry,
        sums.scalar_mod_mul_signed_carry,
    );
    let group = seq![
        sums.scalar_mod_mul,
        sums.scalar_mod_mul_range13,
        sums.scalar_mod_mul_signed_carry,
    ];
    assert(sf_sum_of(group) == terms[6]);
    lemma_next_group(terms, 6, flat, group);
    let flat = flat + group;
    lemma_short_sums(
        sums.prepared_table_pinned,
        sums.prepared_consumer_ec_row,
        sums.prepared_consumer_mul_result,
        sums.prepared_consumer_header_yield,
    );
    let group = seq![
        sums.prepared_table_pinned,
        sums.prepared_consumer_ec_row,
        sums.prepared_consumer_mul_result,
        sums.prepared_consumer_header_yield,
    ];
    assert(sf_sum_of(group) == terms[7]);
    lemma_next_group(terms, 7, flat, group);
    let flat = flat + group;
    lemma_short_sums(
        sums.fake_glv_provider,
        sums.fake_glv_consumer_ec_row,
        sums.fake_glv_consumer_mul_result,
        sums.fake_glv_consumer_header_yield,
    );
    let group = seq![
        sums.fake_glv_provider,
        sums.fake_glv_consumer_ec_row,
        sums.fake_glv_consumer_mul_result,
        sums.fake_glv_consumer_header_yield,
    ];
    assert(sf_sum_of(group) == terms[8]);
    lemma_next_group(terms, 8, flat, group);
    let flat = flat + group;
    lemma_short_sums(
        sums.expansion_provider,
        sums.expansion_consumer,
        sums.expansion_consumer,
        sums.expansion_consumer,
    );
    let group = seq![sums.expansion_provider, sums.expansion_consumer];
    assert(sf_sum_of(group) == terms[9]);
    lemma_next_group(terms, 9, flat, group);
    let flat = flat + group;
    lemma_short_sums(sums.continuity, sums.continuity, sums.continuity, sums.continuity);
    let group = seq![sums.continuity];
    assert(sf_sum_of(group) == terms[10]);
    lemma_next_group(terms, 10, flat, group);
    let flat = flat + group;
    lemma_short_sums(
        sums.direct_provider,
        sums.direct_consumer,
        sums.direct_consumer,
        sums.direct_consumer,
    );
    let group = seq![sums.direct_provider, sums.direct_consumer];
    assert(sf_sum_of(group) == terms[11]);
    lemma_next_group(terms, 11, flat, group);
    let flat = flat + group;
    lemma_short_sums(
        sums.signed_provider,
        sums.signed_consumer,
        sums.signed_consumer,
        sums.signed_consumer,
    );
    let group = seq![sums.signed_provider, sums.signed_consumer];
    assert(sf_sum_of(group) == terms[12]);
    lemma_next_group(terms, 12, flat, group);
    let flat = flat + group;
    lemma_short_sums(sums.lsb_provider, sums.lsb_consumer, sums.lsb_consumer, sums.lsb_consumer);
    let group = seq![sums.lsb_provider, sums.lsb_consumer];
    assert(sf_sum_of(group) == terms[13]);
    lemma_next_group(terms, 13, flat, group);
    let flat = flat + group;
    lemma_short_sums(
        sums.prepared_point_provider,
        sums.prepared_point_range7_consumer,
        sums.prepared_point_consumer,
        sums.prepared_point_consumer,
    );
    let group = seq![
        sums.prepared_point_provider,
        sums.prepared_point_range7_consumer,
        sums.prepared_point_consumer,
    ];
    assert(sf_sum_of(group) == terms[14]);
    lemma_next_group(terms, 14, flat, group);
    let flat = flat + group;
    lemma_short_sums(tables.range7, tables.range7, tables.range7, tables.range7);
    let group = seq![tables.range7];
    assert(sf_sum_of(group) == terms[15]);
    lemma_next_group(terms, 15, flat, group);
    let flat = flat + group;
    lemma_short_sums(sums.final_check, sums.final_check, sums.final_check, sums.final_check);
    let group = seq![sums.final_check];
    assert(sf_sum_of(group) == terms[16]);
    lemma_next_group(terms, 16, flat, group);
    let flat = flat + group;
    lemma_short_sums(
        sums.public_key_on_curve,
        sums.public_key_on_curve,
        sums.public_key_on_curve,
        sums.public_key_on_curve,
    );
    let group = seq![sums.public_key_on_curve];
    assert(sf_sum_of(group) == terms[17]);
    lemma_next_group(terms, 17, flat, group);
    let flat = flat + group;
    let group = seq![
        sums.hinted_mul,
        sums.hinted_gamma_range13,
        sums.hinted_gamma_signed,
        tables.range13,
        tables.signed_h,
        tables.signed_formula,
    ];
    assert(sf_sum_of(group) == terms[18]);
    lemma_next_group(terms, 18, flat, group);
    let flat = flat + group;
    lemma_short_sums(sums.final_add, sums.final_add, sums.final_add, sums.final_add);
    let group = seq![sums.final_add];
    assert(sf_sum_of(group) == terms[19]);
    lemma_next_group(terms, 19, flat, group);
    let flat = flat + group;
    assert(terms.take(20) =~= terms);
    assert(
        flat =~= seq![
            p,
            q,
            sums.scalar_setup,
            sums.cert_scalar_inputs,
            sums.fake_glv_scalar_air,
            sums.fake_glv_selector_air,
            sums.scalar_mod_mul,
            sums.scalar_mod_mul_range13,
            sums.scalar_mod_mul_signed_carry,
            sums.prepared_table_pinned,
            sums.prepared_consumer_ec_row,
            sums.prepared_consumer_mul_result,
            sums.prepared_consumer_header_yield,
            sums.fake_glv_provider,
            sums.fake_glv_consumer_ec_row,
            sums.fake_glv_consumer_mul_result,
            sums.fake_glv_consumer_header_yield,
            sums.expansion_provider,
            sums.expansion_consumer,
            sums.continuity,
            sums.direct_provider,
            sums.direct_consumer,
            sums.signed_provider,
            sums.signed_consumer,
            sums.lsb_provider,
            sums.lsb_consumer,
            sums.prepared_point_provider,
            sums.prepared_point_range7_consumer,
            sums.prepared_point_consumer,
            tables.range7,
            sums.final_check,
            sums.public_key_on_curve,
            sums.hinted_mul,
            sums.hinted_gamma_range13,
            sums.hinted_gamma_signed,
            tables.range13,
            tables.signed_h,
            tables.signed_formula,
            sums.final_add,
        ]
    );
}

} // verus!
