//! Provider and consumer sums of the draft's relations.
use crate::fields::{
    law_sum_zero, lemma_m31_of, sf_inverse, sf_negation, sf_sum, sf_sum_of, sf_zero, SecureField,
    M31,
};
use crate::pipeline::error::P256ProofError;
use crate::pipeline::public_providers::{
    misses_poles, provided, public_ecdsa_provider_claimed_sum, reduced_statements,
    statement_tuples,
};
use crate::pipeline::relations::{
    as_lookup, LookupRelation, ProjectiveRcbMulComponentRelations,
};
use crate::public_inputs::{PublicEcdsaInputClaim, PublicEcdsaInstance};
use crate::range_checks::interaction::{
    consumer_terms, law_provider_balances_uses, RangeCheckInteractionClaim,
};
use crate::range_checks::trace::{
    lemma_stored_cells, range_multiplicities, range_values, use_count, ColumnEval, RangeCheckClaim,
};
use crate::range_checks::{batched_inverse_sum, RangeCheckRelation, RANGE7_BITS};
use vstd::arithmetic::power2::lemma2_to64;
use vstd::prelude::*;

verus! {

/// The relation instances that a draft is balanced against.
#[derive(Clone, Copy, Debug, PartialEq, Eq, Structural)]
pub struct P256ProofRelations {
    pub public_inputs: LookupRelation,
    pub selector_lookups: LookupRelation,
    pub prepared_points: LookupRelation,
    pub range7: RangeCheckRelation,
    pub projective_rcb: ProjectiveRcbMulComponentRelations,
}

impl P256ProofRelations {
    /// Every instance is the fixed one.
    pub open spec fn is_dummy(self) -> bool {
        &&& self.public_inputs.is_dummy()
        &&& self.selector_lookups.is_dummy()
        &&& self.prepared_points.is_dummy()
        &&& as_lookup(self.range7).is_dummy()
        &&& as_lookup(self.projective_rcb.range13).is_dummy()
        &&& self.projective_rcb.mul_result.is_dummy()
    }

    /// The fixed instances used for sizing and for drafts.
    pub fn dummy() -> (r: P256ProofRelations)
        ensures
            r.is_dummy(),
    {
        P256ProofRelations {
            public_inputs: LookupRelation::dummy(),
            selector_lookups: LookupRelation::dummy(),
            prepared_points: LookupRelation::dummy(),
            range7: RangeCheckRelation::dummy(),
            projective_rcb: ProjectiveRcbMulComponentRelations::dummy(),
        }
    }
}

/// What the two sides of a relation claim.
#[derive(Clone, Copy, Debug, PartialEq, Eq, Structural)]
pub struct RelationBalanceClaim {
    pub provider_claimed_sum: SecureField,
    pub consumer_claimed_sum: SecureField,
}

impl RelationBalanceClaim {
    pub open spec fn wf(self) -> bool {
        self.provider_claimed_sum.wf() && self.consumer_claimed_sum.wf()
    }

    pub open spec fn spec_total(self) -> SecureField {
        sf_sum(self.provider_claimed_sum, self.consumer_claimed_sum)
    }

    pub fn new(provider_claimed_sum: SecureField, consumer_claimed_sum: SecureField) -> (r:
        RelationBalanceClaim)
        ensures
            r.provider_claimed_sum == provider_claimed_sum,
            r.consumer_claimed_sum == consumer_claimed_sum,
    {
        RelationBalanceClaim { provider_claimed_sum, consumer_claimed_sum }
    }

    pub fn total(self) -> (r: SecureField)
        requires
            self.wf(),
        ensures
            r == self.spec_total(),
            r.wf(),
    {
        self.provider_claimed_sum.plus(self.consumer_claimed_sum)
    }

    /// The relation balances: the total is zero.
    pub fn verify(self, relation: &'static str) -> (r: Result<(), P256ProofError>)
        requires
            self.wf(),
        ensures
            r == (if self.spec_total() == sf_zero() {
                Ok::<(), P256ProofError>(())
            } else {
                Err::<(), P256ProofError>(P256ProofError::RelationImbalance { relation })
            }),
    {
        if self.total() == SecureField::zero() {
            Ok(())
        } else {
            Err(P256ProofError::RelationImbalance { relation })
        }
    }
}

/// Law: a relation balances exactly where the consumers take back what the
/// providers gave.
pub proof fn law_balanced_iff_opposite(claim: RelationBalanceClaim)
    requires
        claim.wf(),
    ensures
        claim.spec_total() == sf_zero() <==> claim.consumer_claimed_sum == sf_negation(
            claim.provider_claimed_sum,
        ),
{
    law_sum_zero(claim.provider_claimed_sum, claim.consumer_claimed_sum);
}

/// What the stages of a draft report: claimed sums, and the use counts that
/// the seven-bit range table serves.
#[derive(Clone, Debug)]
pub struct DraftSums {
    pub public_consumer: SecureField,
    pub selector_provider: SecureField,
    pub selector_consumer: SecureField,
    pub prepared_provider: SecureField,
    pub prepared_consumer: SecureField,
    pub range7_use_counts: Vec<M31>,
}

impl DraftSums {
    /// Sums are reduced and use counts have seven bits.
    pub open spec fn wf(&self) -> bool {
        &&& self.public_consumer.wf()
        &&& self.selector_provider.wf() && self.selector_consumer.wf()
        &&& self.prepared_provider.wf() && self.prepared_consumer.wf()
        &&& forall|i: int|
            0 <= i < self.range7_use_counts@.len() ==> (#[trigger] self.range7_use_counts@[i]).0
                < 128
    }
}

/// The balance of each relation of a draft.
#[derive(Clone, Copy, Debug, PartialEq, Eq, Structural)]
pub struct P256ProofInteractionClaim {
    pub public_inputs: RelationBalanceClaim,
    pub selector_lookups: RelationBalanceClaim,
    pub prepared_points: RelationBalanceClaim,
    pub range7: RelationBalanceClaim,
}

/// No seven-bit value meets the pole of the relation.
pub open spec fn range7_avoids_pole(relation: RangeCheckRelation) -> bool {
    forall|v: int|
        0 <= v < 128 ==> #[trigger] relation.spec_combine(M31(v as u32)) != sf_zero()
}

/// Consumer side of the seven-bit table: one fraction per use count.
pub fn prepared_point_range7_consumer_claimed_sum(
    use_counts: &Vec<M31>,
    relation: &RangeCheckRelation,
) -> (r: SecureField)
    requires
        relation.wf(),
        range7_avoids_pole(*relation),
        forall|i: int| 0 <= i < use_counts@.len() ==> (#[trigger] use_counts@[i]).0 < 128,
    ensures
        r == sf_sum_of(consumer_terms(use_counts@, *relation)),
        r.wf(),
{
    let mut denominators: Vec<SecureField> = Vec::new();
    let mut i: usize = 0;
    while i < use_counts.len()
        invariant
            i <= use_counts@.len(),
            relation.wf(),
            range7_avoids_pole(*relation),
            forall|k: int| 0 <= k < use_counts@.len() ==> (#[trigger] use_counts@[k]).0 < 128,
            denominators@.len() == i,
            forall|k: int|
                0 <= k < i ==> #[trigger] denominators@[k] == relation.spec_combine(use_counts@[k])
                    && denominators@[k].wf() && denominators@[k] != sf_zero(),
        decreases use_counts@.len() - i,
    {
        proof {
            let u = use_counts@[i as int];
            assert(u == M31(u.0 as int as u32));
            assert(relation.spec_combine(M31(u.0 as int as u32)) != sf_zero());
        }
        denominators.push(relation.combine(use_counts[i]));
        i = i + 1;
    }
    let r: SecureField = batched_inverse_sum(&denominators);
    proof {
        assert(denominators@.map_values(|d: SecureField| sf_inverse(d)) =~= consumer_terms(
            use_counts@,
            *relation,
        ));
    }
    r
}

impl P256ProofInteractionClaim {
    pub open spec fn wf(self) -> bool {
        self.public_inputs.wf() && self.selector_lookups.wf() && self.prepared_points.wf()
            && self.range7.wf()
    }

    /// The claim holds what the statements provide, the given sums, and the two
    /// sides of the seven-bit table for the given use counts.
    pub open spec fn balances(
        self,
        instances: Seq<PublicEcdsaInstance>,
        sums: &DraftSums,
        relations: P256ProofRelations,
    ) -> bool {
        &&& self.wf()
        &&& self.public_inputs.provider_claimed_sum == provided(
            relations.public_inputs,
            statement_tuples(instances),
        )
        &&& self.public_inputs.consumer_claimed_sum == sums.public_consumer
        &&& self.selector_lookups.provider_claimed_sum == sums.selector_provider
        &&& self.selector_lookups.consumer_claimed_sum == sums.selector_consumer
        &&& self.prepared_points.provider_claimed_sum == sums.prepared_provider
        &&& self.prepared_points.consumer_claimed_sum == sums.prepared_consumer
        &&& self.range7.consumer_claimed_sum == sf_sum_of(
            consumer_terms(sums.range7_use_counts@, relations.range7),
        )
        &&& self.range7.provider_claimed_sum == sf_negation(self.range7.consumer_claimed_sum)
        &&& self.range7.spec_total() == sf_zero()
    }

    /// The balances of a draft. Its statements provide the public inputs. The
    /// seven-bit table is provided here, from the use counts that consume it, so
    /// its own balance is always zero. There are none where a statement meets a
    /// pole.
    pub fn from_claim(
        public_inputs: &PublicEcdsaInputClaim,
        sums: &DraftSums,
        relations: &P256ProofRelations,
    ) -> (r: Option<P256ProofInteractionClaim>)
        requires
            sums.wf(),
            relations.public_inputs.wf(),
            reduced_statements(public_inputs.instances@),
            relations.range7.wf(),
            range7_avoids_pole(relations.range7),
        ensures
            r is Some <==> misses_poles(
                relations.public_inputs,
                statement_tuples(public_inputs.instances@),
            ),
            r matches Some(claim) ==> claim.balances(public_inputs.instances@, sums, *relations),
    {
        let public_provider: SecureField = match public_ecdsa_provider_claimed_sum(
            &public_inputs.instances,
            &relations.public_inputs,
        ) {
            Some(sum) => sum,
            None => {
                return None;
            },
        };
        proof {
            lemma2_to64();
        }
        let range7: RangeCheckClaim = RangeCheckClaim::new(RANGE7_BITS);
        let values: ColumnEval = range7.gen_preprocessed_column();
        let multiplicity: ColumnEval = range7.gen_multiplicity_trace(&sums.range7_use_counts);
        let ghost uses = sums.range7_use_counts@;
        proof {
            lemma_range7_columns(multiplicity, values, uses, relations.range7);
        }
        let (_columns, provider) = RangeCheckInteractionClaim::gen_interaction_trace(
            &multiplicity,
            &values,
            &relations.range7,
        );
        let consumer: SecureField = prepared_point_range7_consumer_claimed_sum(
            &sums.range7_use_counts,
            &relations.range7,
        );
        proof {
            law_provider_balances_uses(multiplicity, values, 7, uses, relations.range7);
            crate::fields::law_sum_commutes(provider.claimed_sum, consumer);
            law_sum_zero(consumer, provider.claimed_sum);
        }
        Some(
            P256ProofInteractionClaim {
                public_inputs: RelationBalanceClaim::new(public_provider, sums.public_consumer),
                selector_lookups: RelationBalanceClaim::new(
                    sums.selector_provider,
                    sums.selector_consumer,
                ),
                prepared_points: RelationBalanceClaim::new(
                    sums.prepared_provider,
                    sums.prepared_consumer,
                ),
                range7: RelationBalanceClaim::new(provider.claimed_sum, consumer),
            },
        )
    }

    /// The name of the first relation that does not balance.
    pub open spec fn spec_first_imbalance(self) -> Option<&'static str> {
        if self.public_inputs.spec_total() != sf_zero() {
            Some("PublicEcdsaInstance")
        } else if self.selector_lookups.spec_total() != sf_zero() {
            Some("SelectorLookups")
        } else if self.prepared_points.spec_total() != sf_zero() {
            Some("PreparedPoint")
        } else if self.range7.spec_total() != sf_zero() {
            Some("Range7")
        } else {
            None
        }
    }

    /// Every relation balances; the error names the first that does not.
    pub fn verify_balanced(&self) -> (r: Result<(), P256ProofError>)
        requires
            self.wf(),
        ensures
            match self.spec_first_imbalance() {
                None => r == Ok::<(), P256ProofError>(()),
                Some(relation) => r == Err::<(), P256ProofError>(
                    P256ProofError::RelationImbalance { relation },
                ),
            },
    {
        match self.public_inputs.verify("PublicEcdsaInstance") {
            Ok(()) => {},
            Err(e) => {
                return Err(e);
            },
        }
        match self.selector_lookups.verify("SelectorLookups") {
            Ok(()) => {},
            Err(e) => {
                return Err(e);
            },
        }
        match self.prepared_points.verify("PreparedPoint") {
            Ok(()) => {},
            Err(e) => {
                return Err(e);
            },
        }
        match self.range7.verify("Range7") {
            Ok(()) => {},
            Err(e) => {
                return Err(e);
            },
        }
        Ok(())
    }
}

/// The generated seven-bit columns are reduced and avoid the pole.
proof fn lemma_range7_columns(
    multiplicity: ColumnEval,
    values: ColumnEval,
    uses: Seq<M31>,
    relation: RangeCheckRelation,
)
    requires
        multiplicity.stores(7, range_multiplicities(7, uses)),
        values.stores(7, range_values(7)),
        range7_avoids_pole(relation),
    ensures
        crate::range_checks::interaction::reduced_cells(multiplicity.values@),
        crate::range_checks::interaction::reduced_cells(values.values@),
        crate::range_checks::interaction::avoids_pole(values.values@, relation),
{
    lemma2_to64();
    lemma_stored_cells(multiplicity, 7, range_multiplicities(7, uses));
    lemma_stored_cells(values, 7, range_values(7));
    assert forall|i: int| 0 <= i < multiplicity.values@.len() implies (
    #[trigger] multiplicity.values@[i]).wf() by {
        let p = crate::range_checks::trace::row_position(i as nat, 7) as int;
        lemma_m31_of(use_count(uses, p) as int);
    }
    assert forall|i: int| 0 <= i < values.values@.len() implies (
    #[trigger] values.values@[i]).wf() && relation.spec_combine(values.values@[i])
        != sf_zero() by {
        let p = crate::range_checks::trace::row_position(i as nat, 7) as int;
        assert(values.values@[i] == M31(p as u32));
        assert(relation.spec_combine(M31(p as u32)) != sf_zero());
    }
}

} // verus!
