//! How a public statement is encoded, absorbed and provided.
use crate::ecdsa::ecdsa_valid;
use crate::fields::{
    law_product_associates, law_product_commutes, law_product_distributes, law_product_identity,
    law_product_negation, law_product_zero, law_negation_of_sum, law_sum_associates,
    law_sum_identity, law_sum_of_concat, lemma_results_reduced, lemma_sum_of_reduced, sf_difference,
    sf_inverse, sf_negation, sf_of_base, sf_one, sf_product, sf_sum, sf_sum_of, sf_zero,
    SecureField, M31,
};
use crate::pipeline::public_providers::{
    alpha_power, denominators, invertible, providable, provided, reduced_statement, result_tuple,
    result_tuples, scalar_z_tuple, scalar_z_tuples, statement_tuple, statement_tuples, weighted_sum,
};
use crate::pipeline::relations::{LookupRelation, P256CurrentAirRelations};
use crate::public_inputs::{instance_words, statement_words, PublicEcdsaInstance};
use crate::types::EcdsaVerifyInput;
use vstd::prelude::*;

verus! {

/// Law: the numbers of a statement are those of the input that it encodes: the
/// input is a valid signature exactly where the numbers of the statement are one.
pub proof fn law_statement_is_as_valid_as_its_input(
    statement: PublicEcdsaInstance,
    input: EcdsaVerifyInput,
)
    requires
        statement.encodes(input),
    ensures
        input.spec_valid() == ecdsa_valid(
            statement.z.spec_value(),
            statement.r.spec_value(),
            statement.s.spec_value(),
            (statement.pub_x.spec_value(), statement.pub_y.spec_value()),
        ),
        input.message_hash.spec_value() == statement.z.spec_value(),
        input.signature.r.spec_value() == statement.r.spec_value(),
        input.signature.s.spec_value() == statement.s.spec_value(),
        input.public_key.x.spec_value() == statement.pub_x.spec_value(),
        input.public_key.y.spec_value() == statement.pub_y.spec_value(),
{
}

/// Law: a statement provides its index and the limbs of `z`, `r`, `s` and the two
/// coordinates of the key, in this order; it absorbs the same numbers as words.
pub proof fn law_places_of_a_statement(a: PublicEcdsaInstance)
    ensures
        statement_tuple(a).len() == 101,
        statement_tuple(a)[0] == a.sig_id,
        forall|i: int| 0 <= i < 20 ==> statement_tuple(a)[1 + i] == #[trigger] a.z.limbs@[i],
        forall|i: int| 0 <= i < 20 ==> statement_tuple(a)[21 + i] == #[trigger] a.r.limbs@[i],
        forall|i: int| 0 <= i < 20 ==> statement_tuple(a)[41 + i] == #[trigger] a.s.limbs@[i],
        forall|i: int| 0 <= i < 20 ==> statement_tuple(a)[61 + i] == #[trigger] a.pub_x.limbs@[i],
        forall|i: int| 0 <= i < 20 ==> statement_tuple(a)[81 + i] == #[trigger] a.pub_y.limbs@[i],
        instance_words(a).len() == 101,
        forall|k: int| 0 <= k < 101 ==> #[trigger] instance_words(a)[k] == statement_tuple(a)[k].0,
{
}

/// Law: the provided tuple determines the statement.
pub proof fn law_tuple_determines_the_statement(a: PublicEcdsaInstance, b: PublicEcdsaInstance)
    requires
        statement_tuple(a) == statement_tuple(b),
    ensures
        a.sig_id == b.sig_id,
        a.z.limbs@ == b.z.limbs@,
        a.r.limbs@ == b.r.limbs@,
        a.s.limbs@ == b.s.limbs@,
        a.pub_x.limbs@ == b.pub_x.limbs@,
        a.pub_y.limbs@ == b.pub_y.limbs@,
{
    law_places_of_a_statement(a);
    law_places_of_a_statement(b);
    let t = statement_tuple(a);
    assert forall|i: int| 0 <= i < 20 implies a.z.limbs@[i] == b.z.limbs@[i] by {
        assert(t[1 + i] == a.z.limbs@[i]);
    }
    assert forall|i: int| 0 <= i < 20 implies a.r.limbs@[i] == b.r.limbs@[i] by {
        assert(t[21 + i] == a.r.limbs@[i]);
    }
    assert forall|i: int| 0 <= i < 20 implies a.s.limbs@[i] == b.s.limbs@[i] by {
        assert(t[41 + i] == a.s.limbs@[i]);
    }
    assert forall|i: int| 0 <= i < 20 implies a.pub_x.limbs@[i] == b.pub_x.limbs@[i] by {
        assert(t[61 + i] == a.pub_x.limbs@[i]);
    }
    assert forall|i: int| 0 <= i < 20 implies a.pub_y.limbs@[i] == b.pub_y.limbs@[i] by {
        assert(t[81 + i] == a.pub_y.limbs@[i]);
    }
    assert(a.z.limbs@ =~= b.z.limbs@);
    assert(a.r.limbs@ =~= b.r.limbs@);
    assert(a.s.limbs@ =~= b.s.limbs@);
    assert(a.pub_x.limbs@ =~= b.pub_x.limbs@);
    assert(a.pub_y.limbs@ =~= b.pub_y.limbs@);
}

/// Law: the result of a statement is its index with the limbs of `r`, and its
/// message scalar is its index with the limbs of `z`: both are cut out of the
/// tuple that the statement provides, and determine that part of it.
pub proof fn law_places_of_result_and_scalar(a: PublicEcdsaInstance, b: PublicEcdsaInstance)
    ensures
        result_tuple(a) == statement_tuple(a).take(1) + statement_tuple(a).subrange(21, 41),
        scalar_z_tuple(a) == statement_tuple(a).take(21),
        result_tuple(a) == result_tuple(b) <==> a.sig_id == b.sig_id && a.r.limbs@ == b.r.limbs@,
        scalar_z_tuple(a) == scalar_z_tuple(b) <==> a.sig_id == b.sig_id && a.z.limbs@
            == b.z.limbs@,
{
    assert(result_tuple(a) =~= statement_tuple(a).take(1) + statement_tuple(a).subrange(21, 41));
    assert(scalar_z_tuple(a) =~= statement_tuple(a).take(21));
    assert(result_tuple(a)[0] == a.sig_id && result_tuple(b)[0] == b.sig_id);
    assert(scalar_z_tuple(a)[0] == a.sig_id && scalar_z_tuple(b)[0] == b.sig_id);
    assert(result_tuple(a).skip(1) =~= a.r.limbs@);
    assert(result_tuple(b).skip(1) =~= b.r.limbs@);
    assert(scalar_z_tuple(a).skip(1) =~= a.z.limbs@);
    assert(scalar_z_tuple(b).skip(1) =~= b.z.limbs@);
}

/// Law: a list of statements absorbs the words of its statements one after the
/// other, wherever the list is cut.
pub proof fn law_statements_are_absorbed_in_order(
    a: Seq<PublicEcdsaInstance>,
    b: Seq<PublicEcdsaInstance>,
)
    ensures
        statement_words(a + b) == statement_words(a) + statement_words(b),
        a.len() == 1 ==> statement_words(a) == instance_words(a[0]),
    decreases b.len(),
{
    if b.len() == 0 {
        assert(a + b =~= a);
        assert(statement_words(a) + statement_words(b) =~= statement_words(a));
    } else {
        law_statements_are_absorbed_in_order(a, b.drop_last());
        assert((a + b).drop_last() =~= a + b.drop_last());
        assert(statement_words(a + b) =~= statement_words(a) + statement_words(b));
    }
    if a.len() == 1 {
        reveal_with_fuel(statement_words, 2);
        assert(statement_words(a) =~= instance_words(a[0]));
    }
}

/// Powers of `alpha` are reduced.
proof fn lemma_power_reduced(alpha: SecureField, n: nat)
    ensures
        alpha_power(alpha, n).wf(),
{
    if n > 0 {
        lemma_results_reduced(alpha_power(alpha, (n - 1) as nat), alpha);
    }
}

/// Weighted sums are reduced.
proof fn lemma_weighted_reduced(alpha: SecureField, values: Seq<M31>)
    ensures
        weighted_sum(alpha, values).wf(),
{
    if values.len() > 0 {
        let n = (values.len() - 1) as nat;
        lemma_results_reduced(
            weighted_sum(alpha, values.drop_last()),
            sf_product(alpha_power(alpha, n), sf_of_base(values.last())),
        );
    }
}

/// One more value in front of a weighted sum.
proof fn lemma_weighted_front(alpha: SecureField, v: M31, rest: Seq<M31>)
    requires
        alpha.wf(),
        v.wf(),
    ensures
        weighted_sum(alpha, seq![v] + rest) == sf_sum(
            sf_of_base(v),
            sf_product(alpha, weighted_sum(alpha, rest)),
        ),
    decreases rest.len(),
{
    let all = seq![v] + rest;
    let base = sf_of_base(v);
    if rest.len() == 0 {
        assert(all.drop_last() =~= Seq::<M31>::empty());
        assert(all.last() == v);
        reveal_with_fuel(weighted_sum, 2);
        reveal_with_fuel(alpha_power, 2);
        law_product_identity(base);
        law_sum_identity(base);
        law_product_zero(alpha);
    } else {
        let front = rest.drop_last();
        assert(all.drop_last() =~= seq![v] + front);
        assert(all.last() == rest.last());
        lemma_weighted_front(alpha, v, front);
        let n = (rest.len() - 1) as nat;
        let w = weighted_sum(alpha, front);
        let last = sf_of_base(rest.last());
        let power = alpha_power(alpha, n);
        let t = sf_product(power, last);
        // alpha^(n + 1) last = alpha (alpha^n last).
        assert(alpha_power(alpha, (all.len() - 1) as nat) == sf_product(power, alpha));
        law_product_commutes(power, alpha);
        law_product_associates(alpha, power, last);
        law_product_distributes(alpha, w, t);
        lemma_results_reduced(alpha, w);
        lemma_results_reduced(alpha, t);
        law_sum_associates(base, sf_product(alpha, w), sf_product(alpha, t));
    }
}

/// Law: the denominator of a tuple is its value at `alpha`, less `z`: the empty
/// tuple gives `-z`, and a value in front adds itself and moves the rest up by one
/// power of `alpha`.
pub proof fn law_denominator_of_a_tuple(relation: LookupRelation, v: M31, rest: Seq<M31>)
    requires
        relation.wf(),
        v.wf(),
    ensures
        relation.spec_combine(Seq::empty()) == sf_negation(relation.z),
        sf_sum(relation.spec_combine(seq![v] + rest), relation.z) == sf_sum(
            sf_of_base(v),
            sf_product(relation.alpha, sf_sum(relation.spec_combine(rest), relation.z)),
        ),
{
    let (z, alpha) = (relation.z, relation.alpha);
    lemma_difference_from_zero(z);
    lemma_weighted_reduced(alpha, rest);
    lemma_weighted_reduced(alpha, seq![v] + rest);
    lemma_difference_plus(weighted_sum(alpha, rest), z);
    lemma_difference_plus(weighted_sum(alpha, seq![v] + rest), z);
    lemma_weighted_front(alpha, v, rest);
}

/// What is taken from zero is negated.
proof fn lemma_difference_from_zero(z: SecureField)
    requires
        z.wf(),
    ensures
        sf_difference(sf_zero(), z) == sf_negation(z),
{
    reveal(crate::fields::sf_of);
}

/// What is taken away can be added back.
proof fn lemma_difference_plus(x: SecureField, z: SecureField)
    requires
        x.wf(),
        z.wf(),
    ensures
        sf_sum(sf_difference(x, z), z) == x,
{
    reveal(crate::fields::sf_of);
    lemma_difference_back(x.c0.0 as int, z.c0.0 as int);
    lemma_difference_back(x.c1.0 as int, z.c1.0 as int);
    lemma_difference_back(x.c2.0 as int, z.c2.0 as int);
    lemma_difference_back(x.c3.0 as int, z.c3.0 as int);
}

proof fn lemma_difference_back(x: int, z: int)
    requires
        0 <= x < 2_147_483_647,
        0 <= z < 2_147_483_647,
    ensures
        0 <= (x - z) % 2_147_483_647 < 2_147_483_647,
        ((x - z) % 2_147_483_647 + z) % 2_147_483_647 == x,
{
}

/// Law: what is provided for a list is the sum of what is provided for its parts,
/// nothing for an empty list; and for one tuple it is minus one over the
/// denominator.
pub proof fn law_provided_terms(
    relation: LookupRelation,
    a: Seq<Seq<M31>>,
    b: Seq<Seq<M31>>,
    tuple: Seq<M31>,
)
    ensures
        provided(relation, Seq::empty()) == sf_zero(),
        (forall|i: int| 0 <= i < b.len() ==> invertible(relation, #[trigger] b[i])) ==> provided(
            relation,
            a + b,
        ) == sf_sum(provided(relation, a), provided(relation, b)),
        invertible(relation, tuple) ==> sf_product(
            provided(relation, seq![tuple]),
            relation.spec_combine(tuple),
        ) == sf_negation(sf_one()),
{
    let inv = |d: SecureField| sf_inverse(d);
    let none = Seq::<Seq<M31>>::empty();
    assert(denominators(relation, none).map_values(inv) =~= Seq::<SecureField>::empty());
    law_product_zero(sf_zero());
    let (ia, ib) = (
        denominators(relation, a).map_values(inv),
        denominators(relation, b).map_values(inv),
    );
    if forall|i: int| 0 <= i < b.len() ==> invertible(relation, #[trigger] b[i]) {
        assert(denominators(relation, a + b).map_values(inv) =~= ia + ib);
        assert forall|i: int| 0 <= i < ib.len() implies (#[trigger] ib[i]).wf() by {
            assert(invertible(relation, b[i]));
        }
        law_sum_of_concat(ia, ib);
        lemma_sum_of_reduced(ia);
        lemma_sum_of_reduced(ib);
        law_negation_of_sum(sf_sum_of(ia), sf_sum_of(ib));
    }
    if invertible(relation, tuple) {
        let d = relation.spec_combine(tuple);
        let i = sf_inverse(d);
        let one = denominators(relation, seq![tuple]).map_values(inv);
        assert(one =~= seq![i]);
        assert(seq![i].drop_last() =~= Seq::<SecureField>::empty());
        reveal_with_fuel(sf_sum_of, 2);
        law_sum_identity(i);
        lemma_results_reduced(weighted_sum(relation.alpha, tuple), relation.z);
        law_product_negation(i, d);
        law_product_commutes(i, d);
    }
}

/// Law: a statement is reduced exactly where its index and every limb of its five numbers
/// are field elements.
pub proof fn law_reduced_statement(a: PublicEcdsaInstance)
    ensures
        reduced_statement(a) <==> a.sig_id.wf() && forall|i: int|
            0 <= i < 20 ==> (#[trigger] a.z.limbs@[i]).wf() && a.r.limbs@[i].wf()
                && a.s.limbs@[i].wf() && a.pub_x.limbs@[i].wf() && a.pub_y.limbs@[i].wf(),
{
    let t = statement_tuple(a);
    law_places_of_a_statement(a);
    if reduced_statement(a) {
        assert(t[0].wf());
        assert forall|i: int| 0 <= i < 20 implies (#[trigger] a.z.limbs@[i]).wf()
            && a.r.limbs@[i].wf() && a.s.limbs@[i].wf() && a.pub_x.limbs@[i].wf()
            && a.pub_y.limbs@[i].wf() by {
            assert(t[1 + i].wf() && t[21 + i].wf() && t[41 + i].wf() && t[61 + i].wf()
                && t[81 + i].wf());
        }
    }
    if a.sig_id.wf() && forall|i: int|
        0 <= i < 20 ==> (#[trigger] a.z.limbs@[i]).wf() && a.r.limbs@[i].wf()
            && a.s.limbs@[i].wf() && a.pub_x.limbs@[i].wf() && a.pub_y.limbs@[i].wf() {
        assert forall|k: int| 0 <= k < t.len() implies (#[trigger] t[k]).wf() by {
            if k > 0 {
                let i = (k - 1) % 20;
                assert(a.z.limbs@[i].wf());
                assert(k == 1 + i || k == 21 + i || k == 41 + i || k == 61 + i || k == 81 + i);
            }
        }
    }
}

/// Law: statements can be provided exactly where no denominator is zero, neither that of a
/// statement nor that of its result.
pub proof fn law_providable(
    instances: Seq<PublicEcdsaInstance>,
    relations: P256CurrentAirRelations,
)
    ensures
        providable(instances, relations) <==> forall|i: int|
            0 <= i < instances.len() ==> relations.public_inputs.spec_combine(
                statement_tuple(#[trigger] instances[i]),
            ) != sf_zero() && relations.ecdsa_result.spec_combine(result_tuple(instances[i]))
                != sf_zero(),
{
    let (a, b) = (statement_tuples(instances), result_tuples(instances));
    assert forall|i: int| 0 <= i < instances.len() implies a[i] == statement_tuple(
        #[trigger] instances[i],
    ) && b[i] == result_tuple(instances[i]) by {}
    if providable(instances, relations) {
        assert forall|i: int|
            0 <= i < instances.len() implies relations.public_inputs.spec_combine(
            statement_tuple(#[trigger] instances[i]),
        ) != sf_zero() && relations.ecdsa_result.spec_combine(result_tuple(instances[i]))
            != sf_zero() by {
            assert(relations.public_inputs.spec_combine(a[i]) != sf_zero());
            assert(relations.ecdsa_result.spec_combine(b[i]) != sf_zero());
        }
    }
    if forall|i: int|
        0 <= i < instances.len() ==> relations.public_inputs.spec_combine(
            statement_tuple(#[trigger] instances[i]),
        ) != sf_zero() && relations.ecdsa_result.spec_combine(result_tuple(instances[i]))
            != sf_zero() {
        assert forall|i: int| 0 <= i < a.len() implies relations.public_inputs.spec_combine(
            #[trigger] a[i],
        ) != sf_zero() by {
            assert(a[i] == statement_tuple(instances[i]));
        }
        assert forall|i: int| 0 <= i < b.len() implies relations.ecdsa_result.spec_combine(
            #[trigger] b[i],
        ) != sf_zero() by {
            assert(b[i] == result_tuple(instances[i]));
        }
    }
}

/// Law: the lists of tuples follow the statements one by one.
pub proof fn law_lists_of_tuples(instances: Seq<PublicEcdsaInstance>, i: int)
    requires
        0 <= i < instances.len(),
    ensures
        statement_tuples(instances).len() == instances.len(),
        result_tuples(instances).len() == instances.len(),
        scalar_z_tuples(instances).len() == instances.len(),
        statement_tuples(instances)[i] == statement_tuple(instances[i]),
        result_tuples(instances)[i] == result_tuple(instances[i]),
        scalar_z_tuples(instances)[i] == scalar_z_tuple(instances[i]),
{
}

} // verus!
