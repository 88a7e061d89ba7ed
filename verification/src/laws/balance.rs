//! How the balance of a proof depends on the sums that its components claim.
use crate::fields::{
    law_sum_associates, law_sum_commutes, law_sum_identity, law_sum_of_update, law_sum_of_zeros,
    lemma_results_reduced, lemma_sum_of_reduced, sf_sum, sf_sum_of, sf_zero, SecureField,
};
use crate::pipeline::interaction_claim::{
    lemma_terms_reduced, ChainExpansionClaim, ComponentInteractionClaim,
    HintedMulProofInteractionClaim, P256CurrentAirInteractionClaim, PinnedTableClaim,
    ProviderConsumerClaim, ScalarModMulProofSliceInteractionClaim,
};
use crate::pipeline::public_providers::{
    lemma_provided_reduced, provided, result_tuples, stated_balance, statement_tuples,
};
use crate::pipeline::relations::P256CurrentAirRelations;
use crate::public_inputs::PublicEcdsaInstance;
use crate::range_checks::interaction::RangeCheckInteractionClaim;
use vstd::prelude::*;

verus! {

/// Shifting either summand shifts the sum.
proof fn lemma_shift_either(x: SecureField, y: SecureField, d: SecureField)
    requires
        x.wf(),
        y.wf(),
        d.wf(),
    ensures
        sf_sum(sf_sum(x, d), y) == sf_sum(sf_sum(x, y), d),
        sf_sum(x, sf_sum(y, d)) == sf_sum(sf_sum(x, y), d),
{
    law_sum_associates(x, y, d);
    law_sum_associates(x, d, y);
    law_sum_commutes(d, y);
}

/// A claim with one term shifted has its balance shifted.
proof fn lemma_shifted_term(
    c: P256CurrentAirInteractionClaim,
    b: P256CurrentAirInteractionClaim,
    instances: Seq<PublicEcdsaInstance>,
    relations: P256CurrentAirRelations,
    j: int,
    d: SecureField,
)
    requires
        c.wf(),
        d.wf(),
        0 <= j < 20,
        ({
            let p = provided(relations.public_inputs, statement_tuples(instances));
            let q = provided(relations.ecdsa_result, result_tuples(instances));
            forall|i: int|
                0 <= i < 20 ==> #[trigger] b.lookup_terms(p, q)[i] == if i == j {
                    sf_sum(c.lookup_terms(p, q)[i], d)
                } else {
                    c.lookup_terms(p, q)[i]
                }
        }),
    ensures
        stated_balance(b, instances, relations) == sf_sum(
            stated_balance(c, instances, relations),
            d,
        ),
{
    let p = provided(relations.public_inputs, statement_tuples(instances));
    let q = provided(relations.ecdsa_result, result_tuples(instances));
    lemma_provided_reduced(relations.public_inputs, statement_tuples(instances));
    lemma_provided_reduced(relations.ecdsa_result, result_tuples(instances));
    let terms = c.lookup_terms(p, q);
    lemma_terms_reduced(c, p, q);
    law_sum_of_update(terms, j, d);
    assert(b.lookup_terms(p, q) =~= terms.update(j, sf_sum(terms[j], d)));
}

/// Law: the balance depends on every sum of the scalar parts: adding to one of
/// them, each of the three sums of the scalar multiplication slice among them, adds
/// the same to the balance.
pub proof fn law_balance_moves_with_the_scalar_sums(
    c: P256CurrentAirInteractionClaim,
    instances: Seq<PublicEcdsaInstance>,
    relations: P256CurrentAirRelations,
    d: SecureField,
)
    requires
        c.wf(),
        d.wf(),
    ensures
        stated_balance(
            (P256CurrentAirInteractionClaim {
                scalar_setup: ComponentInteractionClaim {
                    claimed_sum: sf_sum(c.scalar_setup.claimed_sum, d),
                },
                ..c
            }),
            instances,
            relations,
        ) == sf_sum(stated_balance(c, instances, relations), d),
        stated_balance(
            (P256CurrentAirInteractionClaim {
                cert_scalar_inputs: ComponentInteractionClaim {
                    claimed_sum: sf_sum(c.cert_scalar_inputs.claimed_sum, d),
                },
                ..c
            }),
            instances,
            relations,
        ) == sf_sum(stated_balance(c, instances, relations), d),
        stated_balance(
            (P256CurrentAirInteractionClaim {
                fake_glv_scalar_air: ComponentInteractionClaim {
                    claimed_sum: sf_sum(c.fake_glv_scalar_air.claimed_sum, d),
                },
                ..c
            }),
            instances,
            relations,
        ) == sf_sum(stated_balance(c, instances, relations), d),
        stated_balance(
            (P256CurrentAirInteractionClaim {
                fake_glv_selector_air: ComponentInteractionClaim {
                    claimed_sum: sf_sum(c.fake_glv_selector_air.claimed_sum, d),
                },
                ..c
            }),
            instances,
            relations,
        ) == sf_sum(stated_balance(c, instances, relations), d),
        stated_balance(
            (P256CurrentAirInteractionClaim {
                scalar_mod_muls: ScalarModMulProofSliceInteractionClaim {
                    scalar_mod_mul: ComponentInteractionClaim {
                        claimed_sum: sf_sum(c.scalar_mod_muls.scalar_mod_mul.claimed_sum, d),
                    },
                    ..c.scalar_mod_muls
                },
                ..c
            }),
            instances,
            relations,
        ) == sf_sum(stated_balance(c, instances, relations), d),
        stated_balance(
            (P256CurrentAirInteractionClaim {
                scalar_mod_muls: ScalarModMulProofSliceInteractionClaim {
                    range13: RangeCheckInteractionClaim {
                        claimed_sum: sf_sum(c.scalar_mod_muls.range13.claimed_sum, d),
                    },
                    ..c.scalar_mod_muls
                },
                ..c
            }),
            instances,
            relations,
        ) == sf_sum(stated_balance(c, instances, relations), d),
        stated_balance(
            (P256CurrentAirInteractionClaim {
                scalar_mod_muls: ScalarModMulProofSliceInteractionClaim {
                    signed_carry: RangeCheckInteractionClaim {
                        claimed_sum: sf_sum(c.scalar_mod_muls.signed_carry.claimed_sum, d),
                    },
                    ..c.scalar_mod_muls
                },
                ..c
            }),
            instances,
            relations,
        ) == sf_sum(stated_balance(c, instances, relations), d),
{
    let b = P256CurrentAirInteractionClaim {
        scalar_setup: ComponentInteractionClaim {
            claimed_sum: sf_sum(c.scalar_setup.claimed_sum, d),
        },
        ..c
    };
    lemma_shifted_term(c, b, instances, relations, 2, d);
    let b = P256CurrentAirInteractionClaim {
        cert_scalar_inputs: ComponentInteractionClaim {
            claimed_sum: sf_sum(c.cert_scalar_inputs.claimed_sum, d),
        },
        ..c
    };
    lemma_shifted_term(c, b, instances, relations, 3, d);
    let b = P256CurrentAirInteractionClaim {
        fake_glv_scalar_air: ComponentInteractionClaim {
            claimed_sum: sf_sum(c.fake_glv_scalar_air.claimed_sum, d),
        },
        ..c
    };
    lemma_shifted_term(c, b, instances, relations, 4, d);
    let b = P256CurrentAirInteractionClaim {
        fake_glv_selector_air: ComponentInteractionClaim {
            claimed_sum: sf_sum(c.fake_glv_selector_air.claimed_sum, d),
        },
        ..c
    };
    lemma_shifted_term(c, b, instances, relations, 5, d);
    let b = P256CurrentAirInteractionClaim {
        scalar_mod_muls: ScalarModMulProofSliceInteractionClaim {
            scalar_mod_mul: ComponentInteractionClaim {
                claimed_sum: sf_sum(c.scalar_mod_muls.scalar_mod_mul.claimed_sum, d),
            },
            ..c.scalar_mod_muls
        },
        ..c
    };
    lemma_shift_either(
        c.scalar_mod_muls.scalar_mod_mul.claimed_sum,
        c.scalar_mod_muls.range13.claimed_sum,
        d,
    );
    lemma_results_reduced(
        c.scalar_mod_muls.scalar_mod_mul.claimed_sum,
        c.scalar_mod_muls.range13.claimed_sum,
    );
    lemma_shift_either(
        sf_sum(c.scalar_mod_muls.scalar_mod_mul.claimed_sum, c.scalar_mod_muls.range13.claimed_sum),
        c.scalar_mod_muls.signed_carry.claimed_sum,
        d,
    );
    lemma_shifted_term(c, b, instances, relations, 6, d);
    let b = P256CurrentAirInteractionClaim {
        scalar_mod_muls: ScalarModMulProofSliceInteractionClaim {
            range13: RangeCheckInteractionClaim {
                claimed_sum: sf_sum(c.scalar_mod_muls.range13.claimed_sum, d),
            },
            ..c.scalar_mod_muls
        },
        ..c
    };
    lemma_shift_either(
        c.scalar_mod_muls.scalar_mod_mul.claimed_sum,
        c.scalar_mod_muls.range13.claimed_sum,
        d,
    );
    lemma_results_reduced(
        c.scalar_mod_muls.scalar_mod_mul.claimed_sum,
        c.scalar_mod_muls.range13.claimed_sum,
    );
    lemma_shift_either(
        sf_sum(c.scalar_mod_muls.scalar_mod_mul.claimed_sum, c.scalar_mod_muls.range13.claimed_sum),
        c.scalar_mod_muls.signed_carry.claimed_sum,
        d,
    );
    lemma_shifted_term(c, b, instances, relations, 6, d);
    let b = P256CurrentAirInteractionClaim {
        scalar_mod_muls: ScalarModMulProofSliceInteractionClaim {
            signed_carry: RangeCheckInteractionClaim {
                claimed_sum: sf_sum(c.scalar_mod_muls.signed_carry.claimed_sum, d),
            },
            ..c.scalar_mod_muls
        },
        ..c
    };
    lemma_shift_either(
        c.scalar_mod_muls.scalar_mod_mul.claimed_sum,
        c.scalar_mod_muls.range13.claimed_sum,
        d,
    );
    lemma_results_reduced(
        c.scalar_mod_muls.scalar_mod_mul.claimed_sum,
        c.scalar_mod_muls.range13.claimed_sum,
    );
    lemma_shift_either(
        sf_sum(c.scalar_mod_muls.scalar_mod_mul.claimed_sum, c.scalar_mod_muls.range13.claimed_sum),
        c.scalar_mod_muls.signed_carry.claimed_sum,
        d,
    );
    lemma_shifted_term(c, b, instances, relations, 6, d);
}

/// Law: the balance depends on every sum of the table and of the ladder: adding to
/// either side of a pair, or to one of the others, adds the same to the balance.
pub proof fn law_balance_moves_with_the_ladder_sums(
    c: P256CurrentAirInteractionClaim,
    instances: Seq<PublicEcdsaInstance>,
    relations: P256CurrentAirRelations,
    d: SecureField,
)
    requires
        c.wf(),
        d.wf(),
    ensures
        stated_balance(
            (P256CurrentAirInteractionClaim {
                prepared_table_projective_source: ProviderConsumerClaim {
                    provider: ComponentInteractionClaim {
                        claimed_sum: sf_sum(
                            c.prepared_table_projective_source.provider.claimed_sum,
                            d,
                        ),
                    },
                    ..c.prepared_table_projective_source
                },
                ..c
            }),
            instances,
            relations,
        ) == sf_sum(stated_balance(c, instances, relations), d),
        stated_balance(
            (P256CurrentAirInteractionClaim {
                prepared_table_projective_source: ProviderConsumerClaim {
                    consumer: ComponentInteractionClaim {
                        claimed_sum: sf_sum(
                            c.prepared_table_projective_source.consumer.claimed_sum,
                            d,
                        ),
                    },
                    ..c.prepared_table_projective_source
                },
                ..c
            }),
            instances,
            relations,
        ) == sf_sum(stated_balance(c, instances, relations), d),
        stated_balance(
            (P256CurrentAirInteractionClaim {
                fake_glv_projective_source: ProviderConsumerClaim {
                    provider: ComponentInteractionClaim {
                        claimed_sum: sf_sum(c.fake_glv_projective_source.provider.claimed_sum, d),
                    },
                    ..c.fake_glv_projective_source
                },
                ..c
            }),
            instances,
            relations,
        ) == sf_sum(stated_balance(c, instances, relations), d),
        stated_balance(
            (P256CurrentAirInteractionClaim {
                fake_glv_projective_source: ProviderConsumerClaim {
                    consumer: ComponentInteractionClaim {
                        claimed_sum: sf_sum(c.fake_glv_projective_source.consumer.claimed_sum, d),
                    },
                    ..c.fake_glv_projective_source
                },
                ..c
            }),
            instances,
            relations,
        ) == sf_sum(stated_balance(c, instances, relations), d),
        stated_balance(
            (P256CurrentAirInteractionClaim {
                fake_glv_chain_expansion: ChainExpansionClaim {
                    expansion_claimed_sum: sf_sum(
                        c.fake_glv_chain_expansion.expansion_claimed_sum,
                        d,
                    ),
                    ..c.fake_glv_chain_expansion
                },
                ..c
            }),
            instances,
            relations,
        ) == sf_sum(stated_balance(c, instances, relations), d),
        stated_balance(
            (P256CurrentAirInteractionClaim {
                fake_glv_chain_expansion: ChainExpansionClaim {
                    primitive_claimed_sum: sf_sum(
                        c.fake_glv_chain_expansion.primitive_claimed_sum,
                        d,
                    ),
                    ..c.fake_glv_chain_expansion
                },
                ..c
            }),
            instances,
            relations,
        ) == sf_sum(stated_balance(c, instances, relations), d),
        stated_balance(
            (P256CurrentAirInteractionClaim {
                fake_glv_chain_continuity: ComponentInteractionClaim {
                    claimed_sum: sf_sum(c.fake_glv_chain_continuity.claimed_sum, d),
                },
                ..c
            }),
            instances,
            relations,
        ) == sf_sum(stated_balance(c, instances, relations), d),
        stated_balance(
            (P256CurrentAirInteractionClaim {
                fake_glv_direct_prepared_operand: ProviderConsumerClaim {
                    provider: ComponentInteractionClaim {
                        claimed_sum: sf_sum(
                            c.fake_glv_direct_prepared_operand.provider.claimed_sum,
                            d,
                        ),
                    },
                    ..c.fake_glv_direct_prepared_operand
                },
                ..c
            }),
            instances,
            relations,
        ) == sf_sum(stated_balance(c, instances, relations), d),
        stated_balance(
            (P256CurrentAirInteractionClaim {
                fake_glv_direct_prepared_operand: ProviderConsumerClaim {
                    consumer: ComponentInteractionClaim {
                        claimed_sum: sf_sum(
                            c.fake_glv_direct_prepared_operand.consumer.claimed_sum,
                            d,
                        ),
                    },
                    ..c.fake_glv_direct_prepared_operand
                },
                ..c
            }),
            instances,
            relations,
        ) == sf_sum(stated_balance(c, instances, relations), d),
        stated_balance(
            (P256CurrentAirInteractionClaim {
                fake_glv_signed_selector_operand: ProviderConsumerClaim {
                    provider: ComponentInteractionClaim {
                        claimed_sum: sf_sum(
                            c.fake_glv_signed_selector_operand.provider.claimed_sum,
                            d,
                        ),
                    },
                    ..c.fake_glv_signed_selector_operand
                },
                ..c
            }),
            instances,
            relations,
        ) == sf_sum(stated_balance(c, instances, relations), d),
        stated_balance(
            (P256CurrentAirInteractionClaim {
                fake_glv_signed_selector_operand: ProviderConsumerClaim {
                    consumer: ComponentInteractionClaim {
                        claimed_sum: sf_sum(
                            c.fake_glv_signed_selector_operand.consumer.claimed_sum,
                            d,
                        ),
                    },
                    ..c.fake_glv_signed_selector_operand
                },
                ..c
            }),
            instances,
            relations,
        ) == sf_sum(stated_balance(c, instances, relations), d),
        stated_balance(
            (P256CurrentAirInteractionClaim {
                fake_glv_lsb_correction_operand: ProviderConsumerClaim {
                    provider: ComponentInteractionClaim {
                        claimed_sum: sf_sum(
                            c.fake_glv_lsb_correction_operand.provider.claimed_sum,
                            d,
                        ),
                    },
                    ..c.fake_glv_lsb_correction_operand
                },
                ..c
            }),
            instances,
            relations,
        ) == sf_sum(stated_balance(c, instances, relations), d),
        stated_balance(
            (P256CurrentAirInteractionClaim {
                fake_glv_lsb_correction_operand: ProviderConsumerClaim {
                    consumer: ComponentInteractionClaim {
                        claimed_sum: sf_sum(
                            c.fake_glv_lsb_correction_operand.consumer.claimed_sum,
                            d,
                        ),
                    },
                    ..c.fake_glv_lsb_correction_operand
                },
                ..c
            }),
            instances,
            relations,
        ) == sf_sum(stated_balance(c, instances, relations), d),
        stated_balance(
            (P256CurrentAirInteractionClaim {
                fake_glv_prepared_point_source: ProviderConsumerClaim {
                    provider: ComponentInteractionClaim {
                        claimed_sum: sf_sum(
                            c.fake_glv_prepared_point_source.provider.claimed_sum,
                            d,
                        ),
                    },
                    ..c.fake_glv_prepared_point_source
                },
                ..c
            }),
            instances,
            relations,
        ) == sf_sum(stated_balance(c, instances, relations), d),
        stated_balance(
            (P256CurrentAirInteractionClaim {
                fake_glv_prepared_point_source: ProviderConsumerClaim {
                    consumer: ComponentInteractionClaim {
                        claimed_sum: sf_sum(
                            c.fake_glv_prepared_point_source.consumer.claimed_sum,
                            d,
                        ),
                    },
                    ..c.fake_glv_prepared_point_source
                },
                ..c
            }),
            instances,
            relations,
        ) == sf_sum(stated_balance(c, instances, relations), d),
        stated_balance(
            (P256CurrentAirInteractionClaim {
                prepared_point_range7: RangeCheckInteractionClaim {
                    claimed_sum: sf_sum(c.prepared_point_range7.claimed_sum, d),
                },
                ..c
            }),
            instances,
            relations,
        ) == sf_sum(stated_balance(c, instances, relations), d),
{
    let b = P256CurrentAirInteractionClaim {
        prepared_table_projective_source: ProviderConsumerClaim {
            provider: ComponentInteractionClaim {
                claimed_sum: sf_sum(c.prepared_table_projective_source.provider.claimed_sum, d),
            },
            ..c.prepared_table_projective_source
        },
        ..c
    };
    lemma_shift_either(
        c.prepared_table_projective_source.provider.claimed_sum,
        c.prepared_table_projective_source.consumer.claimed_sum,
        d,
    );
    lemma_shifted_term(c, b, instances, relations, 7, d);
    let b = P256CurrentAirInteractionClaim {
        prepared_table_projective_source: ProviderConsumerClaim {
            consumer: ComponentInteractionClaim {
                claimed_sum: sf_sum(c.prepared_table_projective_source.consumer.claimed_sum, d),
            },
            ..c.prepared_table_projective_source
        },
        ..c
    };
    lemma_shift_either(
        c.prepared_table_projective_source.provider.claimed_sum,
        c.prepared_table_projective_source.consumer.claimed_sum,
        d,
    );
    lemma_shifted_term(c, b, instances, relations, 7, d);
    let b = P256CurrentAirInteractionClaim {
        fake_glv_projective_source: ProviderConsumerClaim {
            provider: ComponentInteractionClaim {
                claimed_sum: sf_sum(c.fake_glv_projective_source.provider.claimed_sum, d),
            },
            ..c.fake_glv_projective_source
        },
        ..c
    };
    lemma_shift_either(
        c.fake_glv_projective_source.provider.claimed_sum,
        c.fake_glv_projective_source.consumer.claimed_sum,
        d,
    );
    lemma_shifted_term(c, b, instances, relations, 8, d);
    let b = P256CurrentAirInteractionClaim {
        fake_glv_projective_source: ProviderConsumerClaim {
            consumer: ComponentInteractionClaim {
                claimed_sum: sf_sum(c.fake_glv_projective_source.consumer.claimed_sum, d),
            },
            ..c.fake_glv_projective_source
        },
        ..c
    };
    lemma_shift_either(
        c.fake_glv_projective_source.provider.claimed_sum,
        c.fake_glv_projective_source.consumer.claimed_sum,
        d,
    );
    lemma_shifted_term(c, b, instances, relations, 8, d);
    let b = P256CurrentAirInteractionClaim {
        fake_glv_chain_expansion: ChainExpansionClaim {
            expansion_claimed_sum: sf_sum(c.fake_glv_chain_expansion.expansion_claimed_sum, d),
            ..c.fake_glv_chain_expansion
        },
        ..c
    };
    lemma_shift_either(
        c.fake_glv_chain_expansion.expansion_claimed_sum,
        c.fake_glv_chain_expansion.primitive_claimed_sum,
        d,
    );
    lemma_shifted_term(c, b, instances, relations, 9, d);
    let b = P256CurrentAirInteractionClaim {
        fake_glv_chain_expansion: ChainExpansionClaim {
            primitive_claimed_sum: sf_sum(c.fake_glv_chain_expansion.primitive_claimed_sum, d),
            ..c.fake_glv_chain_expansion
        },
        ..c
    };
    lemma_shift_either(
        c.fake_glv_chain_expansion.expansion_claimed_sum,
        c.fake_glv_chain_expansion.primitive_claimed_sum,
        d,
    );
    lemma_shifted_term(c, b, instances, relations, 9, d);
    let b = P256CurrentAirInteractionClaim {
        fake_glv_chain_continuity: ComponentInteractionClaim {
            claimed_sum: sf_sum(c.fake_glv_chain_continuity.claimed_sum, d),
        },
        ..c
    };
    lemma_shifted_term(c, b, instances, relations, 10, d);
    let b = P256CurrentAirInteractionClaim {
        fake_glv_direct_prepared_operand: ProviderConsumerClaim {
            provider: ComponentInteractionClaim {
                claimed_sum: sf_sum(c.fake_glv_direct_prepared_operand.provider.claimed_sum, d),
            },
            ..c.fake_glv_direct_prepared_operand
        },
        ..c
    };
    lemma_shift_either(
        c.fake_glv_direct_prepared_operand.provider.claimed_sum,
        c.fake_glv_direct_prepared_operand.consumer.claimed_sum,
        d,
    );
    lemma_shifted_term(c, b, instances, relations, 11, d);
    let b = P256CurrentAirInteractionClaim {
        fake_glv_direct_prepared_operand: ProviderConsumerClaim {
            consumer: ComponentInteractionClaim {
                claimed_sum: sf_sum(c.fake_glv_direct_prepared_operand.consumer.claimed_sum, d),
            },
            ..c.fake_glv_direct_prepared_operand
        },
        ..c
    };
    lemma_shift_either(
        c.fake_glv_direct_prepared_operand.provider.claimed_sum,
        c.fake_glv_direct_prepared_operand.consumer.claimed_sum,
        d,
    );
    lemma_shifted_term(c, b, instances, relations, 11, d);
    let b = P256CurrentAirInteractionClaim {
        fake_glv_signed_selector_operand: ProviderConsumerClaim {
            provider: ComponentInteractionClaim {
                claimed_sum: sf_sum(c.fake_glv_signed_selector_operand.provider.claimed_sum, d),
            },
            ..c.fake_glv_signed_selector_operand
        },
        ..c
    };
    lemma_shift_either(
        c.fake_glv_signed_selector_operand.provider.claimed_sum,
        c.fake_glv_signed_selector_operand.consumer.claimed_sum,
        d,
    );
    lemma_shifted_term(c, b, instances, relations, 12, d);
    let b = P256CurrentAirInteractionClaim {
        fake_glv_signed_selector_operand: ProviderConsumerClaim {
            consumer: ComponentInteractionClaim {
                claimed_sum: sf_sum(c.fake_glv_signed_selector_operand.consumer.claimed_sum, d),
            },
            ..c.fake_glv_signed_selector_operand
        },
        ..c
    };
    lemma_shift_either(
        c.fake_glv_signed_selector_operand.provider.claimed_sum,
        c.fake_glv_signed_selector_operand.consumer.claimed_sum,
        d,
    );
    lemma_shifted_term(c, b, instances, relations, 12, d);
    let b = P256CurrentAirInteractionClaim {
        fake_glv_lsb_correction_operand: ProviderConsumerClaim {
            provider: ComponentInteractionClaim {
                claimed_sum: sf_sum(c.fake_glv_lsb_correction_operand.provider.claimed_sum, d),
            },
            ..c.fake_glv_lsb_correction_operand
        },
        ..c
    };
    lemma_shift_either(
        c.fake_glv_lsb_correction_operand.provider.claimed_sum,
        c.fake_glv_lsb_correction_operand.consumer.claimed_sum,
        d,
    );
    lemma_shifted_term(c, b, instances, relations, 13, d);
    let b = P256CurrentAirInteractionClaim {
        fake_glv_lsb_correction_operand: ProviderConsumerClaim {
            consumer: ComponentInteractionClaim {
                claimed_sum: sf_sum(c.fake_glv_lsb_correction_operand.consumer.claimed_sum, d),
            },
            ..c.fake_glv_lsb_correction_operand
        },
        ..c
    };
    lemma_shift_either(
        c.fake_glv_lsb_correction_operand.provider.claimed_sum,
        c.fake_glv_lsb_correction_operand.consumer.claimed_sum,
        d,
    );
    lemma_shifted_term(c, b, instances, relations, 13, d);
    let b = P256CurrentAirInteractionClaim {
        fake_glv_prepared_point_source: ProviderConsumerClaim {
            provider: ComponentInteractionClaim {
                claimed_sum: sf_sum(c.fake_glv_prepared_point_source.provider.claimed_sum, d),
            },
            ..c.fake_glv_prepared_point_source
        },
        ..c
    };
    lemma_shift_either(
        c.fake_glv_prepared_point_source.provider.claimed_sum,
        c.fake_glv_prepared_point_source.consumer.claimed_sum,
        d,
    );
    lemma_shifted_term(c, b, instances, relations, 14, d);
    let b = P256CurrentAirInteractionClaim {
        fake_glv_prepared_point_source: ProviderConsumerClaim {
            consumer: ComponentInteractionClaim {
                claimed_sum: sf_sum(c.fake_glv_prepared_point_source.consumer.claimed_sum, d),
            },
            ..c.fake_glv_prepared_point_source
        },
        ..c
    };
    lemma_shift_either(
        c.fake_glv_prepared_point_source.provider.claimed_sum,
        c.fake_glv_prepared_point_source.consumer.claimed_sum,
        d,
    );
    lemma_shifted_term(c, b, instances, relations, 14, d);
    let b = P256CurrentAirInteractionClaim {
        prepared_point_range7: RangeCheckInteractionClaim {
            claimed_sum: sf_sum(c.prepared_point_range7.claimed_sum, d),
        },
        ..c
    };
    lemma_shifted_term(c, b, instances, relations, 15, d);
}

/// Law: the balance depends on every sum of the result: adding to one of them, each
/// of the six sums of the hinted slice among them, adds the same to the balance.
pub proof fn law_balance_moves_with_the_result_sums(
    c: P256CurrentAirInteractionClaim,
    instances: Seq<PublicEcdsaInstance>,
    relations: P256CurrentAirRelations,
    d: SecureField,
)
    requires
        c.wf(),
        d.wf(),
    ensures
        stated_balance(
            (P256CurrentAirInteractionClaim {
                final_check: ComponentInteractionClaim {
                    claimed_sum: sf_sum(c.final_check.claimed_sum, d),
                },
                ..c
            }),
            instances,
            relations,
        ) == sf_sum(stated_balance(c, instances, relations), d),
        stated_balance(
            (P256CurrentAirInteractionClaim {
                public_key_on_curve: ComponentInteractionClaim {
                    claimed_sum: sf_sum(c.public_key_on_curve.claimed_sum, d),
                },
                ..c
            }),
            instances,
            relations,
        ) == sf_sum(stated_balance(c, instances, relations), d),
        stated_balance(
            (P256CurrentAirInteractionClaim {
                hinted_mul: HintedMulProofInteractionClaim {
                    claimed_sum: sf_sum(c.hinted_mul.claimed_sum, d),
                    ..c.hinted_mul
                },
                ..c
            }),
            instances,
            relations,
        ) == sf_sum(stated_balance(c, instances, relations), d),
        stated_balance(
            (P256CurrentAirInteractionClaim {
                hinted_mul: HintedMulProofInteractionClaim {
                    gamma_range13: sf_sum(c.hinted_mul.gamma_range13, d),
                    ..c.hinted_mul
                },
                ..c
            }),
            instances,
            relations,
        ) == sf_sum(stated_balance(c, instances, relations), d),
        stated_balance(
            (P256CurrentAirInteractionClaim {
                hinted_mul: HintedMulProofInteractionClaim {
                    gamma_signed: sf_sum(c.hinted_mul.gamma_signed, d),
                    ..c.hinted_mul
                },
                ..c
            }),
            instances,
            relations,
        ) == sf_sum(stated_balance(c, instances, relations), d),
        stated_balance(
            (P256CurrentAirInteractionClaim {
                hinted_mul: HintedMulProofInteractionClaim {
                    range13: sf_sum(c.hinted_mul.range13, d),
                    ..c.hinted_mul
                },
                ..c
            }),
            instances,
            relations,
        ) == sf_sum(stated_balance(c, instances, relations), d),
        stated_balance(
            (P256CurrentAirInteractionClaim {
                hinted_mul: HintedMulProofInteractionClaim {
                    signed_h: sf_sum(c.hinted_mul.signed_h, d),
                    ..c.hinted_mul
                },
                ..c
            }),
            instances,
            relations,
        ) == sf_sum(stated_balance(c, instances, relations), d),
        stated_balance(
            (P256CurrentAirInteractionClaim {
                hinted_mul: HintedMulProofInteractionClaim {
                    signed_formula: sf_sum(c.hinted_mul.signed_formula, d),
                    ..c.hinted_mul
                },
                ..c
            }),
            instances,
            relations,
        ) == sf_sum(stated_balance(c, instances, relations), d),
        stated_balance(
            (P256CurrentAirInteractionClaim {
                final_add: ComponentInteractionClaim {
                    claimed_sum: sf_sum(c.final_add.claimed_sum, d),
                },
                ..c
            }),
            instances,
            relations,
        ) == sf_sum(stated_balance(c, instances, relations), d),
{
    let b = P256CurrentAirInteractionClaim {
        final_check: ComponentInteractionClaim {
            claimed_sum: sf_sum(c.final_check.claimed_sum, d),
        },
        ..c
    };
    lemma_shifted_term(c, b, instances, relations, 16, d);
    let b = P256CurrentAirInteractionClaim {
        public_key_on_curve: ComponentInteractionClaim {
            claimed_sum: sf_sum(c.public_key_on_curve.claimed_sum, d),
        },
        ..c
    };
    lemma_shifted_term(c, b, instances, relations, 17, d);
    let b = P256CurrentAirInteractionClaim {
        hinted_mul: HintedMulProofInteractionClaim {
            claimed_sum: sf_sum(c.hinted_mul.claimed_sum, d),
            ..c.hinted_mul
        },
        ..c
    };
    let six = seq![
        c.hinted_mul.claimed_sum,
        c.hinted_mul.gamma_range13,
        c.hinted_mul.gamma_signed,
        c.hinted_mul.range13,
        c.hinted_mul.signed_h,
        c.hinted_mul.signed_formula,
    ];
    law_sum_of_update(six, 0, d);
    assert(
        six.update(0, sf_sum(six[0], d)) =~= seq![
            b.hinted_mul.claimed_sum,
            b.hinted_mul.gamma_range13,
            b.hinted_mul.gamma_signed,
            b.hinted_mul.range13,
            b.hinted_mul.signed_h,
            b.hinted_mul.signed_formula,
        ]
    );
    lemma_shifted_term(c, b, instances, relations, 18, d);
    let b = P256CurrentAirInteractionClaim {
        hinted_mul: HintedMulProofInteractionClaim {
            gamma_range13: sf_sum(c.hinted_mul.gamma_range13, d),
            ..c.hinted_mul
        },
        ..c
    };
    let six = seq![
        c.hinted_mul.claimed_sum,
        c.hinted_mul.gamma_range13,
        c.hinted_mul.gamma_signed,
        c.hinted_mul.range13,
        c.hinted_mul.signed_h,
        c.hinted_mul.signed_formula,
    ];
    law_sum_of_update(six, 1, d);
    assert(
        six.update(1, sf_sum(six[1], d)) =~= seq![
            b.hinted_mul.claimed_sum,
            b.hinted_mul.gamma_range13,
            b.hinted_mul.gamma_signed,
            b.hinted_mul.range13,
            b.hinted_mul.signed_h,
            b.hinted_mul.signed_formula,
        ]
    );
    lemma_shifted_term(c, b, instances, relations, 18, d);
    let b = P256CurrentAirInteractionClaim {
        hinted_mul: HintedMulProofInteractionClaim {
            gamma_signed: sf_sum(c.hinted_mul.gamma_signed, d),
            ..c.hinted_mul
        },
        ..c
    };
    let six = seq![
        c.hinted_mul.claimed_sum,
        c.hinted_mul.gamma_range13,
        c.hinted_mul.gamma_signed,
        c.hinted_mul.range13,
        c.hinted_mul.signed_h,
        c.hinted_mul.signed_formula,
    ];
    law_sum_of_update(six, 2, d);
    assert(
        six.update(2, sf_sum(six[2], d)) =~= seq![
            b.hinted_mul.claimed_sum,
            b.hinted_mul.gamma_range13,
            b.hinted_mul.gamma_signed,
            b.hinted_mul.range13,
            b.hinted_mul.signed_h,
            b.hinted_mul.signed_formula,
        ]
    );
    lemma_shifted_term(c, b, instances, relations, 18, d);
    let b = P256CurrentAirInteractionClaim {
        hinted_mul: HintedMulProofInteractionClaim {
            range13: sf_sum(c.hinted_mul.range13, d),
            ..c.hinted_mul
        },
        ..c
    };
    let six = seq![
        c.hinted_mul.claimed_sum,
        c.hinted_mul.gamma_range13,
        c.hinted_mul.gamma_signed,
        c.hinted_mul.range13,
        c.hinted_mul.signed_h,
        c.hinted_mul.signed_formula,
    ];
    law_sum_of_update(six, 3, d);
    assert(
        six.update(3, sf_sum(six[3], d)) =~= seq![
            b.hinted_mul.claimed_sum,
            b.hinted_mul.gamma_range13,
            b.hinted_mul.gamma_signed,
            b.hinted_mul.range13,
            b.hinted_mul.signed_h,
            b.hinted_mul.signed_formula,
        ]
    );
    lemma_shifted_term(c, b, instances, relations, 18, d);
    let b = P256CurrentAirInteractionClaim {
        hinted_mul: HintedMulProofInteractionClaim {
            signed_h: sf_sum(c.hinted_mul.signed_h, d),
            ..c.hinted_mul
        },
        ..c
    };
    let six = seq![
        c.hinted_mul.claimed_sum,
        c.hinted_mul.gamma_range13,
        c.hinted_mul.gamma_signed,
        c.hinted_mul.range13,
        c.hinted_mul.signed_h,
        c.hinted_mul.signed_formula,
    ];
    law_sum_of_update(six, 4, d);
    assert(
        six.update(4, sf_sum(six[4], d)) =~= seq![
            b.hinted_mul.claimed_sum,
            b.hinted_mul.gamma_range13,
            b.hinted_mul.gamma_signed,
            b.hinted_mul.range13,
            b.hinted_mul.signed_h,
            b.hinted_mul.signed_formula,
        ]
    );
    lemma_shifted_term(c, b, instances, relations, 18, d);
    let b = P256CurrentAirInteractionClaim {
        hinted_mul: HintedMulProofInteractionClaim {
            signed_formula: sf_sum(c.hinted_mul.signed_formula, d),
            ..c.hinted_mul
        },
        ..c
    };
    let six = seq![
        c.hinted_mul.claimed_sum,
        c.hinted_mul.gamma_range13,
        c.hinted_mul.gamma_signed,
        c.hinted_mul.range13,
        c.hinted_mul.signed_h,
        c.hinted_mul.signed_formula,
    ];
    law_sum_of_update(six, 5, d);
    assert(
        six.update(5, sf_sum(six[5], d)) =~= seq![
            b.hinted_mul.claimed_sum,
            b.hinted_mul.gamma_range13,
            b.hinted_mul.gamma_signed,
            b.hinted_mul.range13,
            b.hinted_mul.signed_h,
            b.hinted_mul.signed_formula,
        ]
    );
    lemma_shifted_term(c, b, instances, relations, 18, d);
    let b = P256CurrentAirInteractionClaim {
        final_add: ComponentInteractionClaim { claimed_sum: sf_sum(c.final_add.claimed_sum, d) },
        ..c
    };
    lemma_shifted_term(c, b, instances, relations, 19, d);
}

/// Law: the breakdown of the pinned table has no effect on the balance.
pub proof fn law_pinned_breakdown_does_not_balance(
    c: P256CurrentAirInteractionClaim,
    instances: Seq<PublicEcdsaInstance>,
    relations: P256CurrentAirRelations,
    pinned: PinnedTableClaim,
)
    ensures
        stated_balance(
            (P256CurrentAirInteractionClaim { prepared_table_pinned: pinned, ..c }),
            instances,
            relations,
        ) == stated_balance(c, instances, relations),
{
    let b = P256CurrentAirInteractionClaim { prepared_table_pinned: pinned, ..c };
    let p = provided(relations.public_inputs, statement_tuples(instances));
    let q = provided(relations.ecdsa_result, result_tuples(instances));
    assert(b.lookup_terms(p, q) =~= c.lookup_terms(p, q));
}

/// Law: components that claim nothing leave the balance to what the statements
/// provide: their own sum and that of their results.
pub proof fn law_idle_components_leave_the_providers(
    c: P256CurrentAirInteractionClaim,
    instances: Seq<PublicEcdsaInstance>,
    relations: P256CurrentAirRelations,
)
    requires
        c.is_zero(),
    ensures
        stated_balance(c, instances, relations) == sf_sum(
            provided(relations.public_inputs, statement_tuples(instances)),
            provided(relations.ecdsa_result, result_tuples(instances)),
        ),
{
    let h = c.hinted_mul;
    law_sum_identity(sf_zero());
    law_sum_of_zeros(
        seq![
            h.claimed_sum,
            h.gamma_range13,
            h.gamma_signed,
            h.range13,
            h.signed_h,
            h.signed_formula,
        ],
    );
    let p = provided(relations.public_inputs, statement_tuples(instances));
    let q = provided(relations.ecdsa_result, result_tuples(instances));
    lemma_provided_reduced(relations.public_inputs, statement_tuples(instances));
    lemma_provided_reduced(relations.ecdsa_result, result_tuples(instances));
    let terms = c.lookup_terms(p, q);
    let two = seq![p, q];
    assert(terms =~= two + terms.skip(2));
    law_sum_of_zeros(terms.skip(2));
    crate::fields::law_sum_of_concat(two, terms.skip(2));
    lemma_sum_of_reduced(two);
    law_sum_identity(sf_sum_of(two));
    law_sum_identity(p);
    reveal_with_fuel(sf_sum_of, 3);
    assert(two.drop_last() =~= seq![p]);
    assert(seq![p].drop_last() =~= Seq::<SecureField>::empty());
}

/// Law: every sum of the scalar parts is absorbed, at a place of its own: replacing it
/// replaces one element of one message and leaves all others.
pub proof fn law_every_scalar_sum_is_absorbed(c: P256CurrentAirInteractionClaim, v: SecureField)
    ensures
        (P256CurrentAirInteractionClaim {
            scalar_setup: ComponentInteractionClaim { claimed_sum: v },
            ..c
        }).transcript_messages()
            == c.transcript_messages().update(0, c.transcript_messages()[0].update(0, v)),
        (P256CurrentAirInteractionClaim {
            cert_scalar_inputs: ComponentInteractionClaim { claimed_sum: v },
            ..c
        }).transcript_messages()
            == c.transcript_messages().update(1, c.transcript_messages()[1].update(0, v)),
        (P256CurrentAirInteractionClaim {
            fake_glv_scalar_air: ComponentInteractionClaim { claimed_sum: v },
            ..c
        }).transcript_messages()
            == c.transcript_messages().update(2, c.transcript_messages()[2].update(0, v)),
        (P256CurrentAirInteractionClaim {
            fake_glv_selector_air: ComponentInteractionClaim { claimed_sum: v },
            ..c
        }).transcript_messages()
            == c.transcript_messages().update(3, c.transcript_messages()[3].update(0, v)),
        (P256CurrentAirInteractionClaim {
            scalar_mod_muls: ScalarModMulProofSliceInteractionClaim {
                scalar_mod_mul: ComponentInteractionClaim { claimed_sum: v },
                ..c.scalar_mod_muls
            },
            ..c
        }).transcript_messages()
            == c.transcript_messages().update(4, c.transcript_messages()[4].update(0, v)),
        (P256CurrentAirInteractionClaim {
            scalar_mod_muls: ScalarModMulProofSliceInteractionClaim {
                range13: RangeCheckInteractionClaim { claimed_sum: v },
                ..c.scalar_mod_muls
            },
            ..c
        }).transcript_messages()
            == c.transcript_messages().update(5, c.transcript_messages()[5].update(0, v)),
        (P256CurrentAirInteractionClaim {
            scalar_mod_muls: ScalarModMulProofSliceInteractionClaim {
                signed_carry: RangeCheckInteractionClaim { claimed_sum: v },
                ..c.scalar_mod_muls
            },
            ..c
        }).transcript_messages()
            == c.transcript_messages().update(6, c.transcript_messages()[6].update(0, v)),
{
    let all = c.transcript_messages();
    let b = P256CurrentAirInteractionClaim {
        scalar_setup: ComponentInteractionClaim { claimed_sum: v },
        ..c
    };
    assert(b.transcript_messages()[0] =~= all[0].update(0, v));
    assert(b.transcript_messages() =~= all.update(0, all[0].update(0, v)));
    let b = P256CurrentAirInteractionClaim {
        cert_scalar_inputs: ComponentInteractionClaim { claimed_sum: v },
        ..c
    };
    assert(b.transcript_messages()[1] =~= all[1].update(0, v));
    assert(b.transcript_messages() =~= all.update(1, all[1].update(0, v)));
    let b = P256CurrentAirInteractionClaim {
        fake_glv_scalar_air: ComponentInteractionClaim { claimed_sum: v },
        ..c
    };
    assert(b.transcript_messages()[2] =~= all[2].update(0, v));
    assert(b.transcript_messages() =~= all.update(2, all[2].update(0, v)));
    let b = P256CurrentAirInteractionClaim {
        fake_glv_selector_air: ComponentInteractionClaim { claimed_sum: v },
        ..c
    };
    assert(b.transcript_messages()[3] =~= all[3].update(0, v));
    assert(b.transcript_messages() =~= all.update(3, all[3].update(0, v)));
    let b = P256CurrentAirInteractionClaim {
        scalar_mod_muls: ScalarModMulProofSliceInteractionClaim {
            scalar_mod_mul: ComponentInteractionClaim { claimed_sum: v },
            ..c.scalar_mod_muls
        },
        ..c
    };
    assert(b.transcript_messages()[4] =~= all[4].update(0, v));
    assert(b.transcript_messages() =~= all.update(4, all[4].update(0, v)));
    let b = P256CurrentAirInteractionClaim {
        scalar_mod_muls: ScalarModMulProofSliceInteractionClaim {
            range13: RangeCheckInteractionClaim { claimed_sum: v },
            ..c.scalar_mod_muls
        },
        ..c
    };
    assert(b.transcript_messages()[5] =~= all[5].update(0, v));
    assert(b.transcript_messages() =~= all.update(5, all[5].update(0, v)));
    let b = P256CurrentAirInteractionClaim {
        scalar_mod_muls: ScalarModMulProofSliceInteractionClaim {
            signed_carry: RangeCheckInteractionClaim { claimed_sum: v },
            ..c.scalar_mod_muls
        },
        ..c
    };
    assert(b.transcript_messages()[6] =~= all[6].update(0, v));
    assert(b.transcript_messages() =~= all.update(6, all[6].update(0, v)));
}

/// Law: every sum of the table and of the ladder is absorbed, at a place of its own.
pub proof fn law_every_ladder_sum_is_absorbed(c: P256CurrentAirInteractionClaim, v: SecureField)
    ensures
        (P256CurrentAirInteractionClaim {
            prepared_table_projective_source: ProviderConsumerClaim {
                provider: ComponentInteractionClaim { claimed_sum: v },
                ..c.prepared_table_projective_source
            },
            ..c
        }).transcript_messages()
            == c.transcript_messages().update(7, c.transcript_messages()[7].update(0, v)),
        (P256CurrentAirInteractionClaim {
            prepared_table_projective_source: ProviderConsumerClaim {
                consumer: ComponentInteractionClaim { claimed_sum: v },
                ..c.prepared_table_projective_source
            },
            ..c
        }).transcript_messages()
            == c.transcript_messages().update(7, c.transcript_messages()[7].update(1, v)),
        (P256CurrentAirInteractionClaim {
            fake_glv_projective_source: ProviderConsumerClaim {
                provider: ComponentInteractionClaim { claimed_sum: v },
                ..c.fake_glv_projective_source
            },
            ..c
        }).transcript_messages()
            == c.transcript_messages().update(8, c.transcript_messages()[8].update(0, v)),
        (P256CurrentAirInteractionClaim {
            fake_glv_projective_source: ProviderConsumerClaim {
                consumer: ComponentInteractionClaim { claimed_sum: v },
                ..c.fake_glv_projective_source
            },
            ..c
        }).transcript_messages()
            == c.transcript_messages().update(8, c.transcript_messages()[8].update(1, v)),
        (P256CurrentAirInteractionClaim {
            fake_glv_chain_expansion: ChainExpansionClaim {
                expansion_claimed_sum: v,
                ..c.fake_glv_chain_expansion
            },
            ..c
        }).transcript_messages()
            == c.transcript_messages().update(9, c.transcript_messages()[9].update(0, v)),
        (P256CurrentAirInteractionClaim {
            fake_glv_chain_expansion: ChainExpansionClaim {
                primitive_claimed_sum: v,
                ..c.fake_glv_chain_expansion
            },
            ..c
        }).transcript_messages()
            == c.transcript_messages().update(9, c.transcript_messages()[9].update(1, v)),
        (P256CurrentAirInteractionClaim {
            fake_glv_chain_continuity: ComponentInteractionClaim { claimed_sum: v },
            ..c
        }).transcript_messages()
            == c.transcript_messages().update(10, c.transcript_messages()[10].update(0, v)),
        (P256CurrentAirInteractionClaim {
            fake_glv_direct_prepared_operand: ProviderConsumerClaim {
                provider: ComponentInteractionClaim { claimed_sum: v },
                ..c.fake_glv_direct_prepared_operand
            },
            ..c
        }).transcript_messages()
            == c.transcript_messages().update(11, c.transcript_messages()[11].update(0, v)),
        (P256CurrentAirInteractionClaim {
            fake_glv_direct_prepared_operand: ProviderConsumerClaim {
                consumer: ComponentInteractionClaim { claimed_sum: v },
                ..c.fake_glv_direct_prepared_operand
            },
            ..c
        }).transcript_messages()
            == c.transcript_messages().update(11, c.transcript_messages()[11].update(1, v)),
        (P256CurrentAirInteractionClaim {
            fake_glv_signed_selector_operand: ProviderConsumerClaim {
                provider: ComponentInteractionClaim { claimed_sum: v },
                ..c.fake_glv_signed_selector_operand
            },
            ..c
        }).transcript_messages()
            == c.transcript_messages().update(12, c.transcript_messages()[12].update(0, v)),
        (P256CurrentAirInteractionClaim {
            fake_glv_signed_selector_operand: ProviderConsumerClaim {
                consumer: ComponentInteractionClaim { claimed_sum: v },
                ..c.fake_glv_signed_selector_operand
            },
            ..c
        }).transcript_messages()
            == c.transcript_messages().update(12, c.transcript_messages()[12].update(1, v)),
        (P256CurrentAirInteractionClaim {
            fake_glv_lsb_correction_operand: ProviderConsumerClaim {
                provider: ComponentInteractionClaim { claimed_sum: v },
                ..c.fake_glv_lsb_correction_operand
            },
            ..c
        }).transcript_messages()
            == c.transcript_messages().update(13, c.transcript_messages()[13].update(0, v)),
        (P256CurrentAirInteractionClaim {
            fake_glv_lsb_correction_operand: ProviderConsumerClaim {
                consumer: ComponentInteractionClaim { claimed_sum: v },
                ..c.fake_glv_lsb_correction_operand
            },
            ..c
        }).transcript_messages()
            == c.transcript_messages().update(13, c.transcript_messages()[13].update(1, v)),
        (P256CurrentAirInteractionClaim {
            fake_glv_prepared_point_source: ProviderConsumerClaim {
                provider: ComponentInteractionClaim { claimed_sum: v },
                ..c.fake_glv_prepared_point_source
            },
            ..c
        }).transcript_messages()
            == c.transcript_messages().update(14, c.transcript_messages()[14].update(0, v)),
        (P256CurrentAirInteractionClaim {
            fake_glv_prepared_point_source: ProviderConsumerClaim {
                consumer: ComponentInteractionClaim { claimed_sum: v },
                ..c.fake_glv_prepared_point_source
            },
            ..c
        }).transcript_messages()
            == c.transcript_messages().update(14, c.transcript_messages()[14].update(1, v)),
        (P256CurrentAirInteractionClaim {
            prepared_point_range7: RangeCheckInteractionClaim { claimed_sum: v },
            ..c
        }).transcript_messages()
            == c.transcript_messages().update(15, c.transcript_messages()[15].update(0, v)),
{
    let all = c.transcript_messages();
    let b = P256CurrentAirInteractionClaim {
        prepared_table_projective_source: ProviderConsumerClaim {
            provider: ComponentInteractionClaim { claimed_sum: v },
            ..c.prepared_table_projective_source
        },
        ..c
    };
    assert(b.transcript_messages()[7] =~= all[7].update(0, v));
    assert(b.transcript_messages() =~= all.update(7, all[7].update(0, v)));
    let b = P256CurrentAirInteractionClaim {
        prepared_table_projective_source: ProviderConsumerClaim {
            consumer: ComponentInteractionClaim { claimed_sum: v },
            ..c.prepared_table_projective_source
        },
        ..c
    };
    assert(b.transcript_messages()[7] =~= all[7].update(1, v));
    assert(b.transcript_messages() =~= all.update(7, all[7].update(1, v)));
    let b = P256CurrentAirInteractionClaim {
        fake_glv_projective_source: ProviderConsumerClaim {
            provider: ComponentInteractionClaim { claimed_sum: v },
            ..c.fake_glv_projective_source
        },
        ..c
    };
    assert(b.transcript_messages()[8] =~= all[8].update(0, v));
    assert(b.transcript_messages() =~= all.update(8, all[8].update(0, v)));
    let b = P256CurrentAirInteractionClaim {
        fake_glv_projective_source: ProviderConsumerClaim {
            consumer: ComponentInteractionClaim { claimed_sum: v },
            ..c.fake_glv_projective_source
        },
        ..c
    };
    assert(b.transcript_messages()[8] =~= all[8].update(1, v));
    assert(b.transcript_messages() =~= all.update(8, all[8].update(1, v)));
    let b = P256CurrentAirInteractionClaim {
        fake_glv_chain_expansion: ChainExpansionClaim {
            expansion_claimed_sum: v,
            ..c.fake_glv_chain_expansion
        },
        ..c
    };
    assert(b.transcript_messages()[9] =~= all[9].update(0, v));
    assert(b.transcript_messages() =~= all.update(9, all[9].update(0, v)));
    let b = P256CurrentAirInteractionClaim {
        fake_glv_chain_expansion: ChainExpansionClaim {
            primitive_claimed_sum: v,
            ..c.fake_glv_chain_expansion
        },
        ..c
    };
    assert(b.transcript_messages()[9] =~= all[9].update(1, v));
    assert(b.transcript_messages() =~= all.update(9, all[9].update(1, v)));
    let b = P256CurrentAirInteractionClaim {
        fake_glv_chain_continuity: ComponentInteractionClaim { claimed_sum: v },
        ..c
    };
    assert(b.transcript_messages()[10] =~= all[10].update(0, v));
    assert(b.transcript_messages() =~= all.update(10, all[10].update(0, v)));
    let b = P256CurrentAirInteractionClaim {
        fake_glv_direct_prepared_operand: ProviderConsumerClaim {
            provider: ComponentInteractionClaim { claimed_sum: v },
            ..c.fake_glv_direct_prepared_operand
        },
        ..c
    };
    assert(b.transcript_messages()[11] =~= all[11].update(0, v));
    assert(b.transcript_messages() =~= all.update(11, all[11].update(0, v)));
    let b = P256CurrentAirInteractionClaim {
        fake_glv_direct_prepared_operand: ProviderConsumerClaim {
            consumer: ComponentInteractionClaim { claimed_sum: v },
            ..c.fake_glv_direct_prepared_operand
        },
        ..c
    };
    assert(b.transcript_messages()[11] =~= all[11].update(1, v));
    assert(b.transcript_messages() =~= all.update(11, all[11].update(1, v)));
    let b = P256CurrentAirInteractionClaim {
        fake_glv_signed_selector_operand: ProviderConsumerClaim {
            provider: ComponentInteractionClaim { claimed_sum: v },
            ..c.fake_glv_signed_selector_operand
        },
        ..c
    };
    assert(b.transcript_messages()[12] =~= all[12].update(0, v));
    assert(b.transcript_messages() =~= all.update(12, all[12].update(0, v)));
    let b = P256CurrentAirInteractionClaim {
        fake_glv_signed_selector_operand: ProviderConsumerClaim {
            consumer: ComponentInteractionClaim { claimed_sum: v },
            ..c.fake_glv_signed_selector_operand
        },
        ..c
    };
    assert(b.transcript_messages()[12] =~= all[12].update(1, v));
    assert(b.transcript_messages() =~= all.update(12, all[12].update(1, v)));
    let b = P256CurrentAirInteractionClaim {
        fake_glv_lsb_correction_operand: ProviderConsumerClaim {
            provider: ComponentInteractionClaim { claimed_sum: v },
            ..c.fake_glv_lsb_correction_operand
        },
        ..c
    };
    assert(b.transcript_messages()[13] =~= all[13].update(0, v));
    assert(b.transcript_messages() =~= all.update(13, all[13].update(0, v)));
    let b = P256CurrentAirInteractionClaim {
        fake_glv_lsb_correction_operand: ProviderConsumerClaim {
            consumer: ComponentInteractionClaim { claimed_sum: v },
            ..c.fake_glv_lsb_correction_operand
        },
        ..c
    };
    assert(b.transcript_messages()[13] =~= all[13].update(1, v));
    assert(b.transcript_messages() =~= all.update(13, all[13].update(1, v)));
    let b = P256CurrentAirInteractionClaim {
        fake_glv_prepared_point_source: ProviderConsumerClaim {
            provider: ComponentInteractionClaim { claimed_sum: v },
            ..c.fake_glv_prepared_point_source
        },
        ..c
    };
    assert(b.transcript_messages()[14] =~= all[14].update(0, v));
    assert(b.transcript_messages() =~= all.update(14, all[14].update(0, v)));
    let b = P256CurrentAirInteractionClaim {
        fake_glv_prepared_point_source: ProviderConsumerClaim {
            consumer: ComponentInteractionClaim { claimed_sum: v },
            ..c.fake_glv_prepared_point_source
        },
        ..c
    };
    assert(b.transcript_messages()[14] =~= all[14].update(1, v));
    assert(b.transcript_messages() =~= all.update(14, all[14].update(1, v)));
    let b = P256CurrentAirInteractionClaim {
        prepared_point_range7: RangeCheckInteractionClaim { claimed_sum: v },
        ..c
    };
    assert(b.transcript_messages()[15] =~= all[15].update(0, v));
    assert(b.transcript_messages() =~= all.update(15, all[15].update(0, v)));
}

/// Law: every sum of the result is absorbed, at a place of its own.
pub proof fn law_every_result_sum_is_absorbed(c: P256CurrentAirInteractionClaim, v: SecureField)
    ensures
        (P256CurrentAirInteractionClaim {
            final_check: ComponentInteractionClaim { claimed_sum: v },
            ..c
        }).transcript_messages()
            == c.transcript_messages().update(16, c.transcript_messages()[16].update(0, v)),
        (P256CurrentAirInteractionClaim {
            public_key_on_curve: ComponentInteractionClaim { claimed_sum: v },
            ..c
        }).transcript_messages()
            == c.transcript_messages().update(17, c.transcript_messages()[17].update(0, v)),
        (P256CurrentAirInteractionClaim {
            hinted_mul: HintedMulProofInteractionClaim { claimed_sum: v, ..c.hinted_mul },
            ..c
        }).transcript_messages()
            == c.transcript_messages().update(18, c.transcript_messages()[18].update(0, v)),
        (P256CurrentAirInteractionClaim {
            hinted_mul: HintedMulProofInteractionClaim { gamma_range13: v, ..c.hinted_mul },
            ..c
        }).transcript_messages()
            == c.transcript_messages().update(18, c.transcript_messages()[18].update(1, v)),
        (P256CurrentAirInteractionClaim {
            hinted_mul: HintedMulProofInteractionClaim { gamma_signed: v, ..c.hinted_mul },
            ..c
        }).transcript_messages()
            == c.transcript_messages().update(18, c.transcript_messages()[18].update(2, v)),
        (P256CurrentAirInteractionClaim {
            hinted_mul: HintedMulProofInteractionClaim { range13: v, ..c.hinted_mul },
            ..c
        }).transcript_messages()
            == c.transcript_messages().update(18, c.transcript_messages()[18].update(3, v)),
        (P256CurrentAirInteractionClaim {
            hinted_mul: HintedMulProofInteractionClaim { signed_h: v, ..c.hinted_mul },
            ..c
        }).transcript_messages()
            == c.transcript_messages().update(18, c.transcript_messages()[18].update(4, v)),
        (P256CurrentAirInteractionClaim {
            hinted_mul: HintedMulProofInteractionClaim { signed_formula: v, ..c.hinted_mul },
            ..c
        }).transcript_messages()
            == c.transcript_messages().update(18, c.transcript_messages()[18].update(5, v)),
        (P256CurrentAirInteractionClaim {
            final_add: ComponentInteractionClaim { claimed_sum: v },
            ..c
        }).transcript_messages()
            == c.transcript_messages().update(19, c.transcript_messages()[19].update(0, v)),
{
    let all = c.transcript_messages();
    let b = P256CurrentAirInteractionClaim {
        final_check: ComponentInteractionClaim { claimed_sum: v },
        ..c
    };
    assert(b.transcript_messages()[16] =~= all[16].update(0, v));
    assert(b.transcript_messages() =~= all.update(16, all[16].update(0, v)));
    let b = P256CurrentAirInteractionClaim {
        public_key_on_curve: ComponentInteractionClaim { claimed_sum: v },
        ..c
    };
    assert(b.transcript_messages()[17] =~= all[17].update(0, v));
    assert(b.transcript_messages() =~= all.update(17, all[17].update(0, v)));
    let b = P256CurrentAirInteractionClaim {
        hinted_mul: HintedMulProofInteractionClaim { claimed_sum: v, ..c.hinted_mul },
        ..c
    };
    assert(b.transcript_messages()[18] =~= all[18].update(0, v));
    assert(b.transcript_messages() =~= all.update(18, all[18].update(0, v)));
    let b = P256CurrentAirInteractionClaim {
        hinted_mul: HintedMulProofInteractionClaim { gamma_range13: v, ..c.hinted_mul },
        ..c
    };
    assert(b.transcript_messages()[18] =~= all[18].update(1, v));
    assert(b.transcript_messages() =~= all.update(18, all[18].update(1, v)));
    let b = P256CurrentAirInteractionClaim {
        hinted_mul: HintedMulProofInteractionClaim { gamma_signed: v, ..c.hinted_mul },
        ..c
    };
    assert(b.transcript_messages()[18] =~= all[18].update(2, v));
    assert(b.transcript_messages() =~= all.update(18, all[18].update(2, v)));
    let b = P256CurrentAirInteractionClaim {
        hinted_mul: HintedMulProofInteractionClaim { range13: v, ..c.hinted_mul },
        ..c
    };
    assert(b.transcript_messages()[18] =~= all[18].update(3, v));
    assert(b.transcript_messages() =~= all.update(18, all[18].update(3, v)));
    let b = P256CurrentAirInteractionClaim {
        hinted_mul: HintedMulProofInteractionClaim { signed_h: v, ..c.hinted_mul },
        ..c
    };
    assert(b.transcript_messages()[18] =~= all[18].update(4, v));
    assert(b.transcript_messages() =~= all.update(18, all[18].update(4, v)));
    let b = P256CurrentAirInteractionClaim {
        hinted_mul: HintedMulProofInteractionClaim { signed_formula: v, ..c.hinted_mul },
        ..c
    };
    assert(b.transcript_messages()[18] =~= all[18].update(5, v));
    assert(b.transcript_messages() =~= all.update(18, all[18].update(5, v)));
    let b = P256CurrentAirInteractionClaim {
        final_add: ComponentInteractionClaim { claimed_sum: v },
        ..c
    };
    assert(b.transcript_messages()[19] =~= all[19].update(0, v));
    assert(b.transcript_messages() =~= all.update(19, all[19].update(0, v)));
}

/// Law: the claimed sums are absorbed in the order of the components, each pair and the
/// hinted slice in one message; the breakdown of the pinned table is not absorbed.
pub proof fn law_places_of_claimed_sums(c: P256CurrentAirInteractionClaim, pinned: PinnedTableClaim)
    ensures
        c.transcript_messages().len() == 20,
        (P256CurrentAirInteractionClaim {
            prepared_table_pinned: pinned,
            ..c
        }).transcript_messages() == c.transcript_messages(),
        c.transcript_messages()[0][0] == c.scalar_setup.claimed_sum,
        c.transcript_messages()[1][0] == c.cert_scalar_inputs.claimed_sum,
        c.transcript_messages()[2][0] == c.fake_glv_scalar_air.claimed_sum,
        c.transcript_messages()[3][0] == c.fake_glv_selector_air.claimed_sum,
        c.transcript_messages()[4][0] == c.scalar_mod_muls.scalar_mod_mul.claimed_sum,
        c.transcript_messages()[5][0] == c.scalar_mod_muls.range13.claimed_sum,
        c.transcript_messages()[6][0] == c.scalar_mod_muls.signed_carry.claimed_sum,
        c.transcript_messages()[7][0] == c.prepared_table_projective_source.provider.claimed_sum,
        c.transcript_messages()[7][1] == c.prepared_table_projective_source.consumer.claimed_sum,
        c.transcript_messages()[8][0] == c.fake_glv_projective_source.provider.claimed_sum,
        c.transcript_messages()[8][1] == c.fake_glv_projective_source.consumer.claimed_sum,
        c.transcript_messages()[9][0] == c.fake_glv_chain_expansion.expansion_claimed_sum,
        c.transcript_messages()[9][1] == c.fake_glv_chain_expansion.primitive_claimed_sum,
        c.transcript_messages()[10][0] == c.fake_glv_chain_continuity.claimed_sum,
        c.transcript_messages()[11][0] == c.fake_glv_direct_prepared_operand.provider.claimed_sum,
        c.transcript_messages()[11][1] == c.fake_glv_direct_prepared_operand.consumer.claimed_sum,
        c.transcript_messages()[12][0] == c.fake_glv_signed_selector_operand.provider.claimed_sum,
        c.transcript_messages()[12][1] == c.fake_glv_signed_selector_operand.consumer.claimed_sum,
        c.transcript_messages()[13][0] == c.fake_glv_lsb_correction_operand.provider.claimed_sum,
        c.transcript_messages()[13][1] == c.fake_glv_lsb_correction_operand.consumer.claimed_sum,
        c.transcript_messages()[14][0] == c.fake_glv_prepared_point_source.provider.claimed_sum,
        c.transcript_messages()[14][1] == c.fake_glv_prepared_point_source.consumer.claimed_sum,
        c.transcript_messages()[15][0] == c.prepared_point_range7.claimed_sum,
        c.transcript_messages()[16][0] == c.final_check.claimed_sum,
        c.transcript_messages()[17][0] == c.public_key_on_curve.claimed_sum,
        c.transcript_messages()[18][0] == c.hinted_mul.claimed_sum,
        c.transcript_messages()[18][1] == c.hinted_mul.gamma_range13,
        c.transcript_messages()[18][2] == c.hinted_mul.gamma_signed,
        c.transcript_messages()[18][3] == c.hinted_mul.range13,
        c.transcript_messages()[18][4] == c.hinted_mul.signed_h,
        c.transcript_messages()[18][5] == c.hinted_mul.signed_formula,
        c.transcript_messages()[19][0] == c.final_add.claimed_sum,
        c.transcript_messages()[0].len() == 1,
        c.transcript_messages()[1].len() == 1,
        c.transcript_messages()[2].len() == 1,
        c.transcript_messages()[3].len() == 1,
        c.transcript_messages()[4].len() == 1,
        c.transcript_messages()[5].len() == 1,
        c.transcript_messages()[6].len() == 1,
        c.transcript_messages()[7].len() == 2,
        c.transcript_messages()[8].len() == 2,
        c.transcript_messages()[9].len() == 2,
        c.transcript_messages()[10].len() == 1,
        c.transcript_messages()[11].len() == 2,
        c.transcript_messages()[12].len() == 2,
        c.transcript_messages()[13].len() == 2,
        c.transcript_messages()[14].len() == 2,
        c.transcript_messages()[15].len() == 1,
        c.transcript_messages()[16].len() == 1,
        c.transcript_messages()[17].len() == 1,
        c.transcript_messages()[18].len() == 6,
        c.transcript_messages()[19].len() == 1,
{
    let b = P256CurrentAirInteractionClaim { prepared_table_pinned: pinned, ..c };
    assert(b.transcript_messages() =~= c.transcript_messages());
}

} // verus!
