//! What the lookup tables hold, and how they answer their uses.
use crate::fields::{
    law_sum_associates, law_sum_commutes, law_sum_identity, law_sum_zero, lemma_results_reduced,
    lemma_sum_of_reduced, sf_difference, sf_is_inverse, sf_inverse, sf_negation, sf_of_base, sf_one,
    sf_product, sf_sum, sf_sum_of, sf_zero, SecureField, M31,
};
use crate::pipeline::balances::{DraftSums, P256ProofInteractionClaim, P256ProofRelations};
use crate::pipeline::columns::cells;
use crate::pipeline::public_providers::{provided, statement_tuples};
use crate::pipeline::relations::{larger, P256CurrentAirRelations};
use crate::pipeline::traces::{nonzero_counts, P256CurrentAirBaseTrace, TableSums, TableUses};
use crate::public_inputs::PublicEcdsaInstance;
use crate::range_checks::component::{boolean_constraint, padding_constraint};
use crate::range_checks::interaction::{
    blind_numerator, carry_consumer_terms, consumer_terms, cumsum_shift, is_interaction,
    law_running_sums_close, fraction_values, provider_numerator, running_sums, shifted_terms,
    LogupFraction,
};
use crate::range_checks::trace::{
    blind_multiplicities, blind_selectors, carry_actives, carry_count, carry_multiplicities,
    carry_values, range_multiplicities, range_values, stored_row, use_count, ColumnEval,
    SignedCarryRangeClaim,
};
use crate::range_checks::{decoded_carry, encoded_carry, law_carry_round_trips, RangeCheckRelation};
use vstd::arithmetic::power2::pow2;
use vstd::prelude::*;

verus! {

/// Law: a use adds one over its denominator, the value less `z`; a provider takes its
/// multiplicity back.
pub proof fn law_uses_and_providers(
    uses: Seq<M31>,
    carries: Seq<i64>,
    relation: RangeCheckRelation,
    m: M31,
    i: int,
)
    requires
        m.wf(),
        relation.wf(),
    ensures
        consumer_terms(uses, relation).len() == uses.len(),
        0 <= i < uses.len() && uses[i].wf() ==> sf_sum(
            relation.spec_combine(uses[i]),
            relation.z,
        ) == sf_of_base(uses[i]),
        0 <= i < uses.len() && sf_is_inverse(
            relation.spec_combine(uses[i]),
            sf_inverse(relation.spec_combine(uses[i])),
        ) ==> sf_product(relation.spec_combine(uses[i]), consumer_terms(uses, relation)[i])
            == sf_one(),
        carry_consumer_terms(carries, relation).len() == carries.len(),
        0 <= i < carries.len() ==> carry_consumer_terms(carries, relation)[i] == consumer_terms(
            seq![encoded_carry(carries[i] as int)],
            relation,
        )[0],
        sf_sum(provider_numerator(m), sf_of_base(m)) == sf_zero(),
{
    if 0 <= i < uses.len() && uses[i].wf() {
        lemma_add_back(sf_of_base(uses[i]), relation.z);
    }
    law_sum_identity(sf_of_base(m));
    law_sum_commutes(sf_of_base(m), provider_numerator(m));
}

/// What is taken away can be added back.
proof fn lemma_add_back(x: SecureField, y: SecureField)
    requires
        x.wf(),
        y.wf(),
    ensures
        sf_sum(sf_difference(x, y), y) == x,
{
    reveal(crate::fields::sf_of);
    lemma_difference_back(x.c0.0 as int, y.c0.0 as int);
    lemma_difference_back(x.c1.0 as int, y.c1.0 as int);
    lemma_difference_back(x.c2.0 as int, y.c2.0 as int);
    lemma_difference_back(x.c3.0 as int, y.c3.0 as int);
}

proof fn lemma_difference_back(x: int, y: int)
    requires
        0 <= x < 2_147_483_647,
        0 <= y < 2_147_483_647,
    ensures
        0 <= (x - y) % 2_147_483_647 < 2_147_483_647,
        ((x - y) % 2_147_483_647 + y) % 2_147_483_647 == x,
{
}

/// Law: a range table holds every value of its width at its own place, next to the
/// number of its uses.
pub proof fn law_range_table(k: nat, uses: Seq<M31>, v: int)
    requires
        k <= 30,
        0 <= v < pow2(k),
    ensures
        range_values(k).len() == pow2(k),
        range_multiplicities(k, uses).len() == pow2(k),
        range_values(k)[v].0 == v,
        range_multiplicities(k, uses)[v].0 == use_count(uses, v) % 2_147_483_647,
{
    vstd::arithmetic::power2::lemma2_to64();
    if k < 31 {
        vstd::arithmetic::power2::lemma_pow2_strictly_increases(k, 31);
    }
    crate::fields::lemma_m31_of(use_count(uses, v) as int);
}

/// Law: a use raises the count of its own value by one, and no other.
pub proof fn law_a_use_is_counted_once(uses: Seq<M31>, carries: Seq<i64>, u: M31, c: i64, v: int)
    ensures
        use_count(Seq::empty(), v) == 0,
        use_count(uses.push(u), v) == use_count(uses, v) + (if u.0 == v {
            1int
        } else {
            0
        }),
        carry_count(Seq::empty(), v) == 0,
        carry_count(carries.push(c), v) == carry_count(carries, v) + (if c == v {
            1int
        } else {
            0
        }),
{
    assert(uses.push(u).drop_last() =~= uses);
    assert(carries.push(c).drop_last() =~= carries);
}

/// Law: a signed-carry table holds every carry of its bound, the smallest first, next
/// to the number of its uses, and marks it active; padding is neither active nor used.
pub proof fn law_signed_carry_table(table: SignedCarryRangeClaim, uses: Seq<i64>, c: int, row: int)
    requires
        table.wf(),
        -table.bound <= c <= table.bound,
        0 <= row < pow2(table.log_size as nat),
    ensures
        ({
            let k = table.log_size as nat;
            let b = table.bound as int;
            &&& carry_values(k, b).len() == pow2(k)
            &&& carry_actives(k, b).len() == pow2(k)
            &&& carry_multiplicities(k, b, uses).len() == pow2(k)
            &&& decoded_carry(carry_values(k, b)[c + b]) == c
            &&& carry_actives(k, b)[c + b] == M31(1)
            &&& carry_multiplicities(k, b, uses)[c + b].0 == carry_count(uses, c) % 2_147_483_647
            &&& row > 2 * b ==> carry_values(k, b)[row] == M31(0) && carry_actives(k, b)[row]
                == M31(0) && carry_multiplicities(k, b, uses)[row] == M31(0)
        }),
{
    law_carry_round_trips(c);
    crate::fields::lemma_m31_of(carry_count(uses, c) as int);
}

/// Law: a blinded table is the plain one with a second half of reserved keys, which
/// the selector marks; a marked row provides nothing and an unmarked one its
/// multiplicity.
pub proof fn law_blind_table(k: nat, uses: Seq<M31>, blind: Seq<M31>, m: M31, row: int)
    requires
        k <= 29,
        blind.len() == pow2(k),
        m.wf(),
        0 <= row < pow2(k),
    ensures
        pow2(k + 1) == 2 * pow2(k),
        blind_selectors(k).len() == 2 * pow2(k),
        blind_multiplicities(k, uses, blind).len() == 2 * pow2(k),
        blind_selectors(k)[row] == M31(0),
        blind_selectors(k)[pow2(k) + row] == M31(1),
        blind_multiplicities(k, uses, blind)[row] == range_multiplicities(k, uses)[row],
        blind_multiplicities(k, uses, blind)[pow2(k) + row] == blind[row],
        blind_numerator(M31(0), m) == provider_numerator(m),
        blind_numerator(M31(1), m) == sf_zero(),
{
    vstd::arithmetic::power2::lemma_pow2_unfold(k + 1);
    reveal(crate::fields::sf_of);
    vstd::arithmetic::div_mod::lemma_small_mod(0, 2_147_483_647);
    vstd::arithmetic::div_mod::lemma_small_mod(1, 2_147_483_647);
    assert(sf_difference(sf_one(), sf_of_base(M31(0))) == sf_one());
    assert(sf_difference(sf_one(), sf_of_base(M31(1))) == sf_zero());
    crate::fields::law_product_identity(sf_of_base(m));
    crate::fields::law_product_zero(sf_of_base(m));
}

/// The element whose coordinates four columns store for a position of the table.
pub open spec fn stored_element(columns: Seq<ColumnEval>, k: nat, i: int) -> SecureField {
    let row = stored_row(i as nat, k) as int;
    SecureField {
        c0: columns[0].values@[row],
        c1: columns[1].values@[row],
        c2: columns[2].values@[row],
        c3: columns[3].values@[row],
    }
}

/// Law: interaction columns satisfy the constraint of a running sum: in every row, the
/// element and the common shift make up the element of the row before and the row's
/// fraction; and where the claimed sum is that of the fractions, the last row closes
/// at zero.
pub proof fn law_interaction_rows(
    columns: Seq<ColumnEval>,
    k: nat,
    fractions: Seq<LogupFraction>,
    sum: SecureField,
    i: int,
)
    requires
        1 <= k <= 31,
        fractions.len() == pow2(k),
        is_interaction(columns, k, fractions, sum),
        0 <= i < pow2(k),
        sum.wf(),
    ensures
        columns.len() == 4,
        sf_sum(stored_element(columns, k, i), cumsum_shift(sum, k)) == sf_sum(
            if i == 0 {
                sf_zero()
            } else {
                stored_element(columns, k, i - 1)
            },
            fractions[i].spec_value(),
        ),
        sum == sf_sum_of(fraction_values(fractions)) ==> stored_element(columns, k, pow2(k) - 1)
            == sf_zero(),
{
    vstd::arithmetic::power2::lemma_pow2_pos(k);
    let terms = shifted_terms(fractions, sum, k);
    let sums = running_sums(terms);
    lemma_stored_sum(columns, k, sums, i);
    lemma_stored_sum(columns, k, sums, pow2(k) - 1);
    let shift = cumsum_shift(sum, k);
    let f = fractions[i].spec_value();
    lemma_results_reduced(fractions[i].numerator, sf_inverse(fractions[i].denominator));
    lemma_results_reduced(sum, sf_of_base(M31(pow2((31 - k) as nat) as u32)));
    lemma_results_reduced(f, shift);
    let before = terms.take(i);
    assert(terms.take(i + 1).drop_last() =~= before);
    assert(terms.take(i + 1).last() == sf_difference(f, shift));
    lemma_sum_of_reduced(before);
    // (before + (f - shift)) + shift = before + f.
    law_sum_associates(sf_sum_of(before), sf_difference(f, shift), shift);
    lemma_add_back(f, shift);
    if i == 0 {
        assert(before =~= Seq::<SecureField>::empty());
    } else {
        lemma_stored_sum(columns, k, sums, i - 1);
        assert(terms.take(i - 1 + 1) =~= before);
    }
    if sum == sf_sum_of(fraction_values(fractions)) {
        law_running_sums_close(fractions, k);
    }
}

/// The element that is stored for a position.
proof fn lemma_stored_sum(columns: Seq<ColumnEval>, k: nat, sums: Seq<SecureField>, i: int)
    requires
        crate::range_checks::interaction::stores_coordinates(columns, k, sums),
        0 <= i < sums.len(),
    ensures
        stored_element(columns, k, i) == sums[i],
{
    assert(sums.map_values(|e: SecureField| e.c0)[i] == sums[i].c0);
    assert(sums.map_values(|e: SecureField| e.c1)[i] == sums[i].c1);
    assert(sums.map_values(|e: SecureField| e.c2)[i] == sums[i].c2);
    assert(sums.map_values(|e: SecureField| e.c3)[i] == sums[i].c3);
}

/// Law: the constraints of a signed-carry row are what their names say: a selector
/// that is zero or one satisfies the first, and a row with selector one satisfies the
/// second whatever it provides.
pub proof fn law_row_constraints(m: M31)
    requires
        m.wf(),
    ensures
        boolean_constraint(M31(0)) == sf_zero(),
        boolean_constraint(M31(1)) == sf_zero(),
        padding_constraint(M31(1), m) == sf_zero(),
        padding_constraint(M31(0), m) == sf_of_base(m),
{
    crate::range_checks::component::law_boolean_constraint_admits_bits_only(M31(0));
    crate::range_checks::component::law_boolean_constraint_admits_bits_only(M31(1));
    reveal(crate::fields::sf_of);
    vstd::arithmetic::div_mod::lemma_small_mod(0, 2_147_483_647);
    vstd::arithmetic::div_mod::lemma_small_mod(1, 2_147_483_647);
    assert(sf_difference(sf_one(), sf_of_base(M31(0))) == sf_one());
    assert(sf_difference(sf_one(), sf_of_base(M31(1))) == sf_zero());
    crate::fields::law_product_identity(sf_of_base(m));
    crate::fields::law_product_zero(sf_of_base(m));
}

/// Law: dropping the counts that are zero changes the count of zero only, and keeps
/// the order.
pub proof fn law_nonzero_counts(a: Seq<M31>, b: Seq<M31>, v: int)
    ensures
        nonzero_counts(a + b) == nonzero_counts(a) + nonzero_counts(b),
        use_count(nonzero_counts(a), v) == (if v == 0 {
            0
        } else {
            use_count(a, v)
        }),
        a.len() == 1 ==> nonzero_counts(a) == (if a[0].0 == 0 {
            Seq::<M31>::empty()
        } else {
            a
        }),
    decreases a.len() + b.len(),
{
    if b.len() == 0 {
        assert(a + b =~= a);
        assert(nonzero_counts(a) + nonzero_counts(b) =~= nonzero_counts(a));
    } else {
        assert((a + b).drop_last() =~= a + b.drop_last());
        law_nonzero_counts(a, b.drop_last(), v);
        assert(nonzero_counts(a + b) =~= nonzero_counts(a) + nonzero_counts(b));
    }
    if a.len() > 0 {
        let front = a.drop_last();
        law_nonzero_counts(front, Seq::empty(), v);
        let kept = nonzero_counts(front);
        assert(kept.push(a.last()).drop_last() =~= kept);
    }
    if a.len() == 1 {
        reveal_with_fuel(nonzero_counts, 2);
        assert(nonzero_counts(a) =~= (if a[0].0 == 0 {
            Seq::<M31>::empty()
        } else {
            a
        }));
    }
}

/// Law: every table and its uses cancel, each on the relation of its own: the
/// seven-bit table with the counts that are not zero, the thirteen-bit table with the
/// limbs, and each table of carries with its carries.
pub proof fn law_tables_cancel_their_uses(
    tables: TableSums,
    uses: TableUses,
    relations: P256CurrentAirRelations,
)
    requires
        tables.serve(uses, relations),
    ensures
        sf_sum(
            sf_sum_of(consumer_terms(nonzero_counts(uses.use_counts@), relations.range7)),
            tables.range7,
        ) == sf_zero(),
        sf_sum(
            sf_sum_of(consumer_terms(uses.range13@, relations.projective_rcb_air.range13)),
            tables.range13,
        ) == sf_zero(),
        sf_sum(
            sf_sum_of(carry_consumer_terms(uses.signed_h@, relations.hinted_signed_h)),
            tables.signed_h,
        ) == sf_zero(),
        sf_sum(
            sf_sum_of(carry_consumer_terms(uses.signed_formula@, relations.hinted_signed_formula)),
            tables.signed_formula,
        ) == sf_zero(),
{
    let a = consumer_terms(nonzero_counts(uses.use_counts@), relations.range7);
    let b = consumer_terms(uses.range13@, relations.projective_rcb_air.range13);
    let c = carry_consumer_terms(uses.signed_h@, relations.hinted_signed_h);
    let d = carry_consumer_terms(uses.signed_formula@, relations.hinted_signed_formula);
    lemma_sum_of_reduced(a);
    lemma_sum_of_reduced(b);
    lemma_sum_of_reduced(c);
    lemma_sum_of_reduced(d);
    law_sum_identity(sf_sum_of(a));
    law_sum_identity(sf_sum_of(b));
    law_sum_identity(sf_sum_of(c));
    law_sum_identity(sf_sum_of(d));
}

/// Law: the multiplicity columns of a base trace count, position by position, the uses
/// of their tables.
pub proof fn law_base_trace_counts_its_uses(base: P256CurrentAirBaseTrace, v: int)
    requires
        base.counts_uses(),
        0 <= v,
    ensures
        v < 128
            ==> base.prepared_point_range7_multiplicity.values@[stored_row(v as nat, 7) as int].0
            == use_count(nonzero_counts(base.uses.use_counts@), v) % 2_147_483_647,
        v < 8192 ==> base.hinted_range13_multiplicity.values@[stored_row(v as nat, 13) as int].0
            == use_count(base.uses.range13@, v) % 2_147_483_647,
        v <= 2 * base.uses.signed_h_table.bound ==> base.hinted_signed_h_multiplicity.values@[
        stored_row(v as nat, base.uses.signed_h_table.log_size as nat) as int].0 == carry_count(
            base.uses.signed_h@,
            v - base.uses.signed_h_table.bound,
        ) % 2_147_483_647,
        v <= 2 * base.uses.signed_formula_table.bound
            ==> base.hinted_signed_formula_multiplicity.values@[stored_row(
            v as nat,
            base.uses.signed_formula_table.log_size as nat,
        ) as int].0 == carry_count(
            base.uses.signed_formula@,
            v - base.uses.signed_formula_table.bound,
        ) % 2_147_483_647,
        base.table_cells() == seq![
            cells(base.prepared_point_range7_multiplicity),
            cells(base.hinted_range13_multiplicity),
            cells(base.hinted_signed_h_multiplicity),
            cells(base.hinted_signed_formula_multiplicity),
        ],
{
    vstd::arithmetic::power2::lemma2_to64();
    let h = base.uses.signed_h_table;
    let f = base.uses.signed_formula_table;
    let kept = nonzero_counts(base.uses.use_counts@);
    let a = range_multiplicities(7, kept);
    let b = range_multiplicities(13, base.uses.range13@);
    let c = carry_multiplicities(h.log_size as nat, h.bound as int, base.uses.signed_h@);
    let d = carry_multiplicities(f.log_size as nat, f.bound as int, base.uses.signed_formula@);
    crate::fields::lemma_m31_of(use_count(kept, v) as int);
    crate::fields::lemma_m31_of(use_count(base.uses.range13@, v) as int);
    crate::fields::lemma_m31_of(carry_count(base.uses.signed_h@, v - h.bound) as int);
    crate::fields::lemma_m31_of(carry_count(base.uses.signed_formula@, v - f.bound) as int);
    if v < 128 {
        assert(base.prepared_point_range7_multiplicity.values@[stored_row(v as nat, 7) as int]
            == a[v]);
    }
    if v < 8192 {
        assert(base.hinted_range13_multiplicity.values@[stored_row(v as nat, 13) as int] == b[v]);
    }
    if v <= 2 * h.bound {
        assert(base.hinted_signed_h_multiplicity.values@[stored_row(
            v as nat,
            h.log_size as nat,
        ) as int] == c[v]);
    }
    if v <= 2 * f.bound {
        assert(base.hinted_signed_formula_multiplicity.values@[stored_row(
            v as nat,
            f.log_size as nat,
        ) as int] == d[v]);
    }
}

/// Law: a draft balances exactly where each of the consumers of the statements, of the
/// selectors and of the prepared points takes back what was provided; the first that
/// does not is named, in this order. The seven-bit table always balances.
pub proof fn law_draft_balances(
    claim: P256ProofInteractionClaim,
    instances: Seq<PublicEcdsaInstance>,
    sums: DraftSums,
    relations: P256ProofRelations,
)
    requires
        claim.balances(instances, &sums, relations),
    ensures
        ({
            let stated = sums.public_consumer == sf_negation(
                provided(relations.public_inputs, statement_tuples(instances)),
            );
            let selected = sums.selector_consumer == sf_negation(sums.selector_provider);
            let prepared = sums.prepared_consumer == sf_negation(sums.prepared_provider);
            &&& !stated ==> claim.spec_first_imbalance() == Some("PublicEcdsaInstance")
            &&& stated && !selected ==> claim.spec_first_imbalance() == Some("SelectorLookups")
            &&& stated && selected && !prepared ==> claim.spec_first_imbalance() == Some(
                "PreparedPoint",
            )
            &&& stated && selected && prepared ==> claim.spec_first_imbalance() is None
            &&& claim.range7.consumer_claimed_sum == sf_sum_of(
                consumer_terms(sums.range7_use_counts@, relations.range7),
            )
            &&& sf_sum(claim.range7.consumer_claimed_sum, claim.range7.provider_claimed_sum)
                == sf_zero()
        }),
{
    law_sum_zero(
        claim.public_inputs.provider_claimed_sum,
        claim.public_inputs.consumer_claimed_sum,
    );
    law_sum_zero(
        claim.selector_lookups.provider_claimed_sum,
        claim.selector_lookups.consumer_claimed_sum,
    );
    law_sum_zero(
        claim.prepared_points.provider_claimed_sum,
        claim.prepared_points.consumer_claimed_sum,
    );
    law_sum_zero(claim.range7.consumer_claimed_sum, claim.range7.provider_claimed_sum);
}

/// Law: one table of powers serves both of its users: it is as large as the larger, and
/// no larger.
pub proof fn law_larger(a: usize, b: usize)
    ensures
        larger(a, b) >= a,
        larger(a, b) >= b,
        larger(a, b) == a || larger(a, b) == b,
{
}

} // verus!
