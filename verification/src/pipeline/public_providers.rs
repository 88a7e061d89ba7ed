//! What the verifier provides for the public statements: the terms that tie a
//! proof to the statements it is checked against.
use crate::fields::{
    law_product_commutes, law_sum_associates, law_sum_commutes, law_sum_identity,
    law_sum_of_concat, lemma_inverse_unique, lemma_results_reduced, lemma_sum_of_reduced,
    sf_difference, sf_inverse, sf_is_inverse, sf_negation, sf_of_base, sf_one, sf_product, sf_sum,
    sf_sum_of, sf_zero, SecureField, M31, M31_P,
};
use crate::limbs::P256M31BigInt;
use crate::pipeline::interaction_claim::P256CurrentAirInteractionClaim;
use crate::pipeline::relations::{LookupRelation, P256CurrentAirRelations};
use crate::public_inputs::PublicEcdsaInstance;
use crate::range_checks::batched_inverse_sum;
use vstd::prelude::*;

verus! {

/// `alpha^n`.
pub open spec fn alpha_power(alpha: SecureField, n: nat) -> SecureField
    decreases n,
{
    if n == 0 {
        sf_one()
    } else {
        sf_product(alpha_power(alpha, (n - 1) as nat), alpha)
    }
}

/// `values[0] + alpha values[1] + alpha^2 values[2] + ...`.
pub open spec fn weighted_sum(alpha: SecureField, values: Seq<M31>) -> SecureField
    decreases values.len(),
{
    if values.len() == 0 {
        sf_zero()
    } else {
        sf_sum(
            weighted_sum(alpha, values.drop_last()),
            sf_product(
                alpha_power(alpha, (values.len() - 1) as nat),
                sf_of_base(values.last()),
            ),
        )
    }
}

impl LookupRelation {
    /// The denominator of a tuple: its weighted sum less `z`.
    pub open spec fn spec_combine(self, values: Seq<M31>) -> SecureField {
        sf_difference(weighted_sum(self.alpha, values), self.z)
    }

    /// The denominator of a tuple.
    pub fn combine(&self, values: &Vec<M31>) -> (r: SecureField)
        requires
            self.wf(),
            forall|i: int| 0 <= i < values@.len() ==> (#[trigger] values@[i]).wf(),
        ensures
            r == self.spec_combine(values@),
            r.wf(),
    {
        let mut sum: SecureField = SecureField::zero();
        let mut power: SecureField = SecureField::one();
        let mut i: usize = 0;
        proof {
            assert(values@.take(0) =~= Seq::<M31>::empty());
        }
        while i < values.len()
            invariant
                i <= values@.len(),
                self.wf(),
                forall|k: int| 0 <= k < values@.len() ==> (#[trigger] values@[k]).wf(),
                sum.wf(),
                power.wf(),
                sum == weighted_sum(self.alpha, values@.take(i as int)),
                power == alpha_power(self.alpha, i as nat),
            decreases values@.len() - i,
        {
            proof {
                assert(values@[i as int].wf());
                assert(values@.take(i + 1).drop_last() =~= values@.take(i as int));
                assert(values@.take(i + 1).last() == values@[i as int]);
            }
            sum = sum.plus(power.times(SecureField::from_base(values[i])));
            power = power.times(self.alpha);
            i = i + 1;
        }
        proof {
            assert(values@.take(i as int) =~= values@);
        }
        sum.minus(self.z)
    }
}

/// A statement as a tuple: its index and the limbs of its five numbers.
pub open spec fn statement_tuple(instance: PublicEcdsaInstance) -> Seq<M31> {
    seq![instance.sig_id] + instance.z.limbs@ + instance.r.limbs@ + instance.s.limbs@
        + instance.pub_x.limbs@ + instance.pub_y.limbs@
}

/// The result of a statement as a tuple: its index and the limbs of `r`.
pub open spec fn result_tuple(instance: PublicEcdsaInstance) -> Seq<M31> {
    seq![instance.sig_id] + instance.r.limbs@
}

/// The message scalar of a statement as a tuple: its index and the limbs of `z`.
pub open spec fn scalar_z_tuple(instance: PublicEcdsaInstance) -> Seq<M31> {
    seq![instance.sig_id] + instance.z.limbs@
}

/// All limbs of a statement are reduced.
pub open spec fn reduced_statement(instance: PublicEcdsaInstance) -> bool {
    forall|i: int|
        0 <= i < statement_tuple(instance).len() ==> (#[trigger] statement_tuple(instance)[i]).wf()
}

/// All limbs of all statements are reduced.
pub open spec fn reduced_statements(instances: Seq<PublicEcdsaInstance>) -> bool {
    forall|i: int| 0 <= i < instances.len() ==> reduced_statement(#[trigger] instances[i])
}

/// The denominators of a list of tuples.
pub open spec fn denominators(relation: LookupRelation, tuples: Seq<Seq<M31>>) -> Seq<
    SecureField,
> {
    tuples.map_values(|t: Seq<M31>| relation.spec_combine(t))
}

/// No tuple meets the pole of the relation.
pub open spec fn misses_poles(relation: LookupRelation, tuples: Seq<Seq<M31>>) -> bool {
    forall|i: int|
        0 <= i < tuples.len() ==> relation.spec_combine(#[trigger] tuples[i]) != sf_zero()
}

/// What the provider of a list of tuples claims: minus one over each
/// denominator.
pub open spec fn provided(relation: LookupRelation, tuples: Seq<Seq<M31>>) -> SecureField {
    sf_negation(
        sf_sum_of(denominators(relation, tuples).map_values(|d: SecureField| sf_inverse(d))),
    )
}

pub open spec fn statement_tuples(instances: Seq<PublicEcdsaInstance>) -> Seq<Seq<M31>> {
    instances.map_values(|p: PublicEcdsaInstance| statement_tuple(p))
}

pub open spec fn result_tuples(instances: Seq<PublicEcdsaInstance>) -> Seq<Seq<M31>> {
    instances.map_values(|p: PublicEcdsaInstance| result_tuple(p))
}

pub open spec fn scalar_z_tuples(instances: Seq<PublicEcdsaInstance>) -> Seq<Seq<M31>> {
    instances.map_values(|p: PublicEcdsaInstance| scalar_z_tuple(p))
}

fn push_cells(tuple: &mut Vec<M31>, value: &P256M31BigInt)
    ensures
        final(tuple)@ == old(tuple)@ + value.limbs@,
{
    let ghost start = tuple@;
    let mut i: usize = 0;
    while i < 20
        invariant
            i <= 20,
            tuple@ == start + value.limbs@.take(i as int),
        decreases 20 - i,
    {
        tuple.push(value.limbs[i]);
        proof {
            assert(value.limbs@.take(i + 1) =~= value.limbs@.take(i as int).push(
                value.limbs@[i as int],
            ));
        }
        i = i + 1;
    }
    proof {
        assert(value.limbs@.take(20) =~= value.limbs@);
    }
}

/// What the provider of tuples with the given denominators claims, unless one of
/// them is zero.
fn provide(all: &Vec<SecureField>, Ghost(relation): Ghost<LookupRelation>, Ghost(tuples): Ghost<
    Seq<Seq<M31>>,
>) -> (r: Option<SecureField>)
    requires
        all@ == denominators(relation, tuples),
        forall|i: int| 0 <= i < all@.len() ==> (#[trigger] all@[i]).wf(),
    ensures
        r is Some <==> misses_poles(relation, tuples),
        r matches Some(sum) ==> sum == provided(relation, tuples) && sum.wf(),
{
    let mut i: usize = 0;
    while i < all.len()
        invariant
            i <= all@.len(),
            all@ == denominators(relation, tuples),
            forall|k: int| 0 <= k < i ==> #[trigger] all@[k] != sf_zero(),
        decreases all@.len() - i,
    {
        if all[i] == SecureField::zero() {
            proof {
                assert(all@[i as int] == relation.spec_combine(tuples[i as int]));
            }
            return None;
        }
        i = i + 1;
    }
    proof {
        assert forall|k: int| 0 <= k < tuples.len() implies relation.spec_combine(
            #[trigger] tuples[k],
        ) != sf_zero() by {
            assert(all@[k] == relation.spec_combine(tuples[k]));
        }
    }
    Some(batched_inverse_sum(all).negated())
}

/// What is provided for the statements, unless a denominator is zero.
pub fn public_ecdsa_provider_claimed_sum(
    instances: &Vec<PublicEcdsaInstance>,
    relation: &LookupRelation,
) -> (r: Option<SecureField>)
    requires
        relation.wf(),
        reduced_statements(instances@),
    ensures
        r is Some <==> misses_poles(*relation, statement_tuples(instances@)),
        r matches Some(sum) ==> sum == provided(*relation, statement_tuples(instances@))
            && sum.wf(),
{
    let ghost tuples = statement_tuples(instances@);
    let mut all: Vec<SecureField> = Vec::new();
    let mut i: usize = 0;
    while i < instances.len()
        invariant
            i <= instances@.len(),
            relation.wf(),
            reduced_statements(instances@),
            tuples == statement_tuples(instances@),
            all@ == denominators(*relation, tuples).take(i as int),
            forall|k: int| 0 <= k < all@.len() ==> (#[trigger] all@[k]).wf(),
        decreases instances@.len() - i,
    {
        let p = &instances[i];
        let mut tuple: Vec<M31> = Vec::new();
        tuple.push(p.sig_id);
        push_cells(&mut tuple, &p.z);
        push_cells(&mut tuple, &p.r);
        push_cells(&mut tuple, &p.s);
        push_cells(&mut tuple, &p.pub_x);
        push_cells(&mut tuple, &p.pub_y);
        proof {
            assert(reduced_statement(instances@[i as int]));
            assert(tuple@ =~= statement_tuple(instances@[i as int]));
        }
        all.push(relation.combine(&tuple));
        proof {
            assert(denominators(*relation, tuples).take(i + 1) =~= denominators(
                *relation,
                tuples,
            ).take(i as int).push(relation.spec_combine(tuples[i as int])));
        }
        i = i + 1;
    }
    proof {
        assert(denominators(*relation, tuples).take(i as int) =~= denominators(*relation, tuples));
    }
    provide(&all, Ghost(*relation), Ghost(tuples))
}

/// What is provided for the results of the statements, unless a denominator is
/// zero.
pub fn ecdsa_result_provider_claimed_sum(
    instances: &Vec<PublicEcdsaInstance>,
    relation: &LookupRelation,
) -> (r: Option<SecureField>)
    requires
        relation.wf(),
        reduced_statements(instances@),
    ensures
        r is Some <==> misses_poles(*relation, result_tuples(instances@)),
        r matches Some(sum) ==> sum == provided(*relation, result_tuples(instances@)) && sum.wf(),
{
    let ghost tuples = result_tuples(instances@);
    let mut all: Vec<SecureField> = Vec::new();
    let mut i: usize = 0;
    while i < instances.len()
        invariant
            i <= instances@.len(),
            relation.wf(),
            reduced_statements(instances@),
            tuples == result_tuples(instances@),
            all@ == denominators(*relation, tuples).take(i as int),
            forall|k: int| 0 <= k < all@.len() ==> (#[trigger] all@[k]).wf(),
        decreases instances@.len() - i,
    {
        let p = &instances[i];
        let mut tuple: Vec<M31> = Vec::new();
        tuple.push(p.sig_id);
        push_cells(&mut tuple, &p.r);
        proof {
            let instance = instances@[i as int];
            assert(reduced_statement(instance));
            assert(tuple@ =~= result_tuple(instance));
            lemma_parts_reduced(instance);
        }
        all.push(relation.combine(&tuple));
        proof {
            assert(denominators(*relation, tuples).take(i + 1) =~= denominators(
                *relation,
                tuples,
            ).take(i as int).push(relation.spec_combine(tuples[i as int])));
        }
        i = i + 1;
    }
    proof {
        assert(denominators(*relation, tuples).take(i as int) =~= denominators(*relation, tuples));
    }
    provide(&all, Ghost(*relation), Ghost(tuples))
}

/// What is provided for the message scalars, unless a denominator is zero.
pub fn scalar_z_provider_claimed_sum(
    instances: &Vec<PublicEcdsaInstance>,
    relation: &LookupRelation,
) -> (r: Option<SecureField>)
    requires
        relation.wf(),
        reduced_statements(instances@),
    ensures
        r is Some <==> misses_poles(*relation, scalar_z_tuples(instances@)),
        r matches Some(sum) ==> sum == provided(*relation, scalar_z_tuples(instances@))
            && sum.wf(),
{
    let ghost tuples = scalar_z_tuples(instances@);
    let mut all: Vec<SecureField> = Vec::new();
    let mut i: usize = 0;
    while i < instances.len()
        invariant
            i <= instances@.len(),
            relation.wf(),
            reduced_statements(instances@),
            tuples == scalar_z_tuples(instances@),
            all@ == denominators(*relation, tuples).take(i as int),
            forall|k: int| 0 <= k < all@.len() ==> (#[trigger] all@[k]).wf(),
        decreases instances@.len() - i,
    {
        let p = &instances[i];
        let mut tuple: Vec<M31> = Vec::new();
        tuple.push(p.sig_id);
        push_cells(&mut tuple, &p.z);
        proof {
            let instance = instances@[i as int];
            assert(reduced_statement(instance));
            assert(tuple@ =~= scalar_z_tuple(instance));
            lemma_parts_reduced(instance);
        }
        all.push(relation.combine(&tuple));
        proof {
            assert(denominators(*relation, tuples).take(i + 1) =~= denominators(
                *relation,
                tuples,
            ).take(i as int).push(relation.spec_combine(tuples[i as int])));
        }
        i = i + 1;
    }
    proof {
        assert(denominators(*relation, tuples).take(i as int) =~= denominators(*relation, tuples));
    }
    provide(&all, Ghost(*relation), Ghost(tuples))
}

/// The parts of a reduced statement are reduced.
proof fn lemma_parts_reduced(instance: PublicEcdsaInstance)
    requires
        reduced_statement(instance),
    ensures
        forall|i: int|
            0 <= i < result_tuple(instance).len() ==> (#[trigger] result_tuple(instance)[i]).wf(),
        forall|i: int|
            0 <= i < scalar_z_tuple(instance).len() ==> (
            #[trigger] scalar_z_tuple(instance)[i]).wf(),
{
    let all = statement_tuple(instance);
    assert forall|i: int| 0 <= i < result_tuple(instance).len() implies (
    #[trigger] result_tuple(instance)[i]).wf() by {
        if i == 0 {
            assert(all[0].wf());
        } else {
            assert(all[i + 20] == instance.r.limbs@[i - 1]);
            assert(all[i + 20].wf());
        }
    }
    assert forall|i: int| 0 <= i < scalar_z_tuple(instance).len() implies (
    #[trigger] scalar_z_tuple(instance)[i]).wf() by {
        assert(all[i] == scalar_z_tuple(instance)[i]);
    }
}

/// What is provided for the public statements on the relations of a proof.
#[derive(Clone, Copy, Debug, PartialEq, Eq, Structural)]
pub struct PublicProviders {
    pub public_inputs: SecureField,
    pub ecdsa_result: SecureField,
}

/// What the given statements provide on the given relations.
pub open spec fn providers_of(
    instances: Seq<PublicEcdsaInstance>,
    relations: P256CurrentAirRelations,
) -> PublicProviders {
    PublicProviders {
        public_inputs: provided(relations.public_inputs, statement_tuples(instances)),
        ecdsa_result: provided(relations.ecdsa_result, result_tuples(instances)),
    }
}

/// No statement meets a pole of the relations that provide it.
pub open spec fn providable(
    instances: Seq<PublicEcdsaInstance>,
    relations: P256CurrentAirRelations,
) -> bool {
    &&& misses_poles(relations.public_inputs, statement_tuples(instances))
    &&& misses_poles(relations.ecdsa_result, result_tuples(instances))
}

/// The balance of an interaction claim together with what is provided.
pub open spec fn proof_balance(
    interaction_claim: P256CurrentAirInteractionClaim,
    providers: PublicProviders,
) -> SecureField {
    sf_sum_of(interaction_claim.lookup_terms(providers.public_inputs, providers.ecdsa_result))
}

/// The balance of an interaction claim for the given statements: they provide
/// the public terms themselves.
pub open spec fn stated_balance(
    interaction_claim: P256CurrentAirInteractionClaim,
    instances: Seq<PublicEcdsaInstance>,
    relations: P256CurrentAirRelations,
) -> SecureField {
    proof_balance(interaction_claim, providers_of(instances, relations))
}

impl PublicProviders {
    pub open spec fn wf(self) -> bool {
        self.public_inputs.wf() && self.ecdsa_result.wf()
    }

    /// What the verifier provides for the statements that it checks, unless a
    /// denominator is zero.
    pub fn from_instances(
        instances: &Vec<PublicEcdsaInstance>,
        relations: &P256CurrentAirRelations,
    ) -> (r: Option<PublicProviders>)
        requires
            relations.public_inputs.wf(),
            relations.ecdsa_result.wf(),
            reduced_statements(instances@),
        ensures
            r is Some <==> providable(instances@, *relations),
            r matches Some(providers) ==> providers == providers_of(instances@, *relations)
                && providers.wf(),
    {
        match public_ecdsa_provider_claimed_sum(instances, &relations.public_inputs) {
            None => None,
            Some(public_inputs) => {
                match ecdsa_result_provider_claimed_sum(instances, &relations.ecdsa_result) {
                    None => None,
                    Some(ecdsa_result) => Some(PublicProviders { public_inputs, ecdsa_result }),
                }
            },
        }
    }
}

/// Whether every limb of the statements is reduced.
pub fn statements_reduced(instances: &Vec<PublicEcdsaInstance>) -> (r: bool)
    ensures
        r == reduced_statements(instances@),
{
    let mut i: usize = 0;
    while i < instances.len()
        invariant
            i <= instances@.len(),
            forall|k: int| 0 <= k < i ==> reduced_statement(#[trigger] instances@[k]),
        decreases instances@.len() - i,
    {
        let p = &instances[i];
        let mut tuple: Vec<M31> = Vec::new();
        tuple.push(p.sig_id);
        push_cells(&mut tuple, &p.z);
        push_cells(&mut tuple, &p.r);
        push_cells(&mut tuple, &p.s);
        push_cells(&mut tuple, &p.pub_x);
        push_cells(&mut tuple, &p.pub_y);
        let ghost all = statement_tuple(instances@[i as int]);
        proof {
            assert(tuple@ =~= all);
        }
        let mut k: usize = 0;
        while k < tuple.len()
            invariant
                k <= tuple@.len(),
                i < instances@.len(),
                tuple@ == statement_tuple(instances@[i as int]),
                forall|m: int| 0 <= m < k ==> (#[trigger] tuple@[m]).wf(),
            decreases tuple@.len() - k,
        {
            if tuple[k].0 >= M31_P {
                proof {
                    assert(!statement_tuple(instances@[i as int])[k as int].wf());
                    assert(!reduced_statement(instances@[i as int]));
                }
                return false;
            }
            k = k + 1;
        }
        assert(reduced_statement(instances@[i as int]));
        i = i + 1;
    }
    true
}

/// Law: for one interaction claim the balance fixes what the verifier provides:
/// two lists of statements can both balance only if they provide the same.
pub proof fn law_balance_fixes_the_providers(
    claim: P256CurrentAirInteractionClaim,
    a: PublicProviders,
    b: PublicProviders,
)
    requires
        claim.wf(),
        a.wf(),
        b.wf(),
        proof_balance(claim, a) == sf_zero(),
        proof_balance(claim, b) == sf_zero(),
    ensures
        sf_sum(a.public_inputs, a.ecdsa_result) == sf_sum(b.public_inputs, b.ecdsa_result),
{
    lemma_balance_splits(claim, a);
    lemma_balance_splits(claim, b);
    let rest = component_total(claim);
    lemma_rest_reduced(claim);
    let x = sf_sum(a.public_inputs, a.ecdsa_result);
    let y = sf_sum(b.public_inputs, b.ecdsa_result);
    lemma_results_reduced(a.public_inputs, a.ecdsa_result);
    lemma_results_reduced(b.public_inputs, b.ecdsa_result);
    law_sum_commutes(x, rest);
    law_sum_commutes(y, rest);
    crate::fields::law_sum_zero(rest, x);
    crate::fields::law_sum_zero(rest, y);
}

/// What the components claim in total.
spec fn component_total(claim: P256CurrentAirInteractionClaim) -> SecureField {
    sf_sum_of(claim.lookup_terms(sf_zero(), sf_zero()).skip(2))
}

/// The components' total is reduced.
proof fn lemma_rest_reduced(claim: P256CurrentAirInteractionClaim)
    ensures
        component_total(claim).wf(),
{
    lemma_sum_of_reduced(claim.lookup_terms(sf_zero(), sf_zero()).skip(2));
}

/// The balance is what the verifier provides plus what the components claim.
proof fn lemma_balance_splits(claim: P256CurrentAirInteractionClaim, providers: PublicProviders)
    requires
        claim.wf(),
        providers.wf(),
    ensures
        proof_balance(claim, providers) == sf_sum(
            sf_sum(providers.public_inputs, providers.ecdsa_result),
            component_total(claim),
        ),
{
    let terms = claim.lookup_terms(providers.public_inputs, providers.ecdsa_result);
    let rest = claim.lookup_terms(sf_zero(), sf_zero()).skip(2);
    let two = seq![providers.public_inputs, providers.ecdsa_result];
    assert(terms =~= two + rest);
    crate::pipeline::interaction_claim::lemma_terms_reduced(
        claim,
        providers.public_inputs,
        providers.ecdsa_result,
    );
    assert forall|i: int| 0 <= i < rest.len() implies (#[trigger] rest[i]).wf() by {
        assert(rest[i] == terms[i + 2]);
    }
    law_sum_of_concat(two, rest);
    assert(sf_sum_of(two) == sf_sum(providers.public_inputs, providers.ecdsa_result)) by {
        reveal_with_fuel(sf_sum_of, 3);
        law_sum_identity(providers.public_inputs);
        assert(two.drop_last() =~= seq![providers.public_inputs]);
        assert(two.drop_last().drop_last() =~= Seq::<SecureField>::empty());
    }
}

/// Law: a proof that balances for one statement does not balance for another
/// with the same index and the same `r`, unless the two tuples have the same
/// denominator. Presenting another public key or another message is caught by
/// the balance.
pub proof fn law_other_statements_unbalance(
    claim: P256CurrentAirInteractionClaim,
    relations: P256CurrentAirRelations,
    a: PublicEcdsaInstance,
    b: PublicEcdsaInstance,
)
    requires
        claim.wf(),
        result_tuple(a) == result_tuple(b),
        invertible(relations.public_inputs, statement_tuple(a)),
        invertible(relations.public_inputs, statement_tuple(b)),
        relations.public_inputs.spec_combine(statement_tuple(a))
            != relations.public_inputs.spec_combine(statement_tuple(b)),
        stated_balance(claim, seq![a], relations) == sf_zero(),
    ensures
        stated_balance(claim, seq![b], relations) != sf_zero(),
{
    let pa = providers_of(seq![a], relations);
    let pb = providers_of(seq![b], relations);
    lemma_provided_reduced(relations.public_inputs, statement_tuples(seq![a]));
    lemma_provided_reduced(relations.public_inputs, statement_tuples(seq![b]));
    lemma_provided_reduced(relations.ecdsa_result, result_tuples(seq![a]));
    lemma_provided_reduced(relations.ecdsa_result, result_tuples(seq![b]));
    if stated_balance(claim, seq![b], relations) == sf_zero() {
        law_balance_fixes_the_providers(claim, pa, pb);
        assert(result_tuples(seq![a]) =~= result_tuples(seq![b]));
        lemma_cancel_right(pa.public_inputs, pb.public_inputs, pa.ecdsa_result);
        lemma_single_provider(relations.public_inputs, a);
        lemma_single_provider(relations.public_inputs, b);
        let ca = relations.public_inputs.spec_combine(statement_tuple(a));
        let cb = relations.public_inputs.spec_combine(statement_tuple(b));
        let (ia, ib) = (sf_inverse(ca), sf_inverse(cb));
        lemma_negation_injective(ia, ib);
        lemma_results_reduced(
            weighted_sum(relations.public_inputs.alpha, statement_tuple(a)),
            relations.public_inputs.z,
        );
        lemma_results_reduced(
            weighted_sum(relations.public_inputs.alpha, statement_tuple(b)),
            relations.public_inputs.z,
        );
        law_product_commutes(ca, ia);
        law_product_commutes(cb, ib);
        lemma_inverse_unique(ia, ca);
        lemma_inverse_unique(ia, cb);
    }
}

/// What is provided is reduced.
pub proof fn lemma_provided_reduced(relation: LookupRelation, tuples: Seq<Seq<M31>>)
    ensures
        provided(relation, tuples).wf(),
{
    let sum = sf_sum_of(
        denominators(relation, tuples).map_values(|d: SecureField| sf_inverse(d)),
    );
    lemma_results_reduced(sum, sum);
}

/// The denominator of a tuple has an inverse.
pub open spec fn invertible(relation: LookupRelation, tuple: Seq<M31>) -> bool {
    sf_is_inverse(
        relation.spec_combine(tuple),
        sf_inverse(relation.spec_combine(tuple)),
    )
}

/// The provider of one statement claims minus one over its denominator.
proof fn lemma_single_provider(relation: LookupRelation, a: PublicEcdsaInstance)
    requires
        invertible(relation, statement_tuple(a)),
    ensures
        provided(relation, statement_tuples(seq![a])) == sf_negation(
            sf_inverse(relation.spec_combine(statement_tuple(a))),
        ),
{
    let inverses = denominators(relation, statement_tuples(seq![a])).map_values(
        |d: SecureField| sf_inverse(d),
    );
    let i = sf_inverse(relation.spec_combine(statement_tuple(a)));
    assert(inverses =~= seq![i]);
    assert(seq![i].drop_last() =~= Seq::<SecureField>::empty());
    reveal_with_fuel(sf_sum_of, 2);
    law_sum_identity(i);
}

/// A common summand can be cancelled.
proof fn lemma_cancel_right(x: SecureField, y: SecureField, z: SecureField)
    requires
        x.wf(),
        y.wf(),
        z.wf(),
        sf_sum(x, z) == sf_sum(y, z),
    ensures
        x == y,
{
    let n = sf_negation(z);
    lemma_results_reduced(z, z);
    law_sum_associates(x, z, n);
    law_sum_associates(y, z, n);
    law_sum_identity(z);
    law_sum_identity(x);
    law_sum_identity(y);
}

/// Elements with the same negation are the same.
proof fn lemma_negation_injective(x: SecureField, y: SecureField)
    requires
        x.wf(),
        y.wf(),
        sf_negation(x) == sf_negation(y),
    ensures
        x == y,
{
    let n = sf_negation(x);
    lemma_results_reduced(x, y);
    law_sum_identity(x);
    law_sum_identity(y);
    lemma_cancel_right(x, y, n);
}

} // verus!
