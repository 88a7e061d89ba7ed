//! The claim of a proof: the public statements and the shape of every component.
use crate::pipeline::columns::{
    append_groups, append_unique_preprocessed_ids, distinct, law_groups_are_covered_once, names,
};
use crate::pipeline::components::{
    all_read, consistent, interaction_sizes, largest_bound, read_as, trace_sizes, ComponentShape,
    P256CurrentAirComponents, TreeLayout,
};
use crate::pipeline::draft::P256ProofClaim;
use crate::public_inputs::{statement_words, PublicEcdsaInputClaim};
use crate::range_checks::trace::RangeCheckClaim;
use crate::range_checks::{
    range_check_value_column_id, range_value_name, PreProcessedColumnId, RANGE7_BITS,
};
use crate::transcript::{absorb_words, lemma_absorb_concat, Transcript};
use vstd::prelude::*;

verus! {

/// The claim of one component: the words that describe its shape, and the
/// preprocessed columns that it reads.
#[derive(Clone, Debug)]
pub struct ComponentClaim {
    pub words: Vec<u64>,
    pub preprocessed_ids: Vec<PreProcessedColumnId>,
}

/// The claim of a component that consumes ladder rows: its row indices start at
/// an offset.
#[derive(Clone, Debug)]
pub struct SourcedComponentClaim {
    pub source_offset: u32,
    pub component: ComponentClaim,
}

impl SourcedComponentClaim {
    /// The words of the component, then the offset.
    pub open spec fn spec_words(&self) -> Seq<u64> {
        self.component.words@.push(self.source_offset as u64)
    }

    /// The words of the component, then the offset.
    pub fn words(&self) -> (r: Vec<u64>)
        ensures
            r@ == self.spec_words(),
    {
        let mut words: Vec<u64> = copy_words(&self.component.words);
        words.push(self.source_offset as u64);
        words
    }
}

/// A copy of a list of words.
pub fn copy_words(words: &Vec<u64>) -> (r: Vec<u64>)
    ensures
        r@ == words@,
{
    let mut copy: Vec<u64> = Vec::new();
    let mut i: usize = 0;
    while i < words.len()
        invariant
            i <= words@.len(),
            copy@ == words@.take(i as int),
        decreases words@.len() - i,
    {
        copy.push(words[i]);
        i = i + 1;
    }
    proof {
        assert(words@.take(i as int) =~= words@);
    }
    copy
}

/// The claims of the components, as their own builders give them.
#[derive(Clone, Debug)]
pub struct ComponentClaims {
    pub scalar_setup: ComponentClaim,
    pub cert_scalar_inputs: ComponentClaim,
    pub fake_glv_scalar_air: ComponentClaim,
    pub fake_glv_selector_air: ComponentClaim,
    pub scalar_mod_muls: ComponentClaim,
    pub prepared_table_projective_source: ComponentClaim,
    pub fake_glv_projective_source: ComponentClaim,
    pub fake_glv_chain_expansion: ComponentClaim,
    pub fake_glv_chain_continuity: ComponentClaim,
    pub fake_glv_chain_schedule: ComponentClaim,
    pub fake_glv_direct_prepared_operand: ComponentClaim,
    pub fake_glv_signed_selector_operand: ComponentClaim,
    pub fake_glv_lsb_correction_operand: ComponentClaim,
    pub fake_glv_prepared_point_source: ComponentClaim,
    pub final_check: ComponentClaim,
    pub public_key_on_curve: ComponentClaim,
    pub hinted_mul: ComponentClaim,
    pub final_add: ComponentClaim,
}

/// The claim of a proof.
#[derive(Clone, Debug)]
pub struct P256CurrentAirProofClaim {
    pub public_inputs: PublicEcdsaInputClaim,
    pub scalar_setup: ComponentClaim,
    pub cert_scalar_inputs: ComponentClaim,
    pub fake_glv_scalar_air: ComponentClaim,
    pub fake_glv_selector_air: ComponentClaim,
    pub scalar_mod_muls: ComponentClaim,
    pub prepared_table_projective_source: ComponentClaim,
    pub fake_glv_projective_source: SourcedComponentClaim,
    pub fake_glv_chain_expansion: SourcedComponentClaim,
    pub fake_glv_chain_continuity: ComponentClaim,
    pub fake_glv_chain_schedule: ComponentClaim,
    pub fake_glv_direct_prepared_operand: ComponentClaim,
    pub fake_glv_signed_selector_operand: ComponentClaim,
    pub fake_glv_lsb_correction_operand: ComponentClaim,
    pub fake_glv_prepared_point_source: ComponentClaim,
    pub prepared_point_range7: RangeCheckClaim,
    pub final_check: ComponentClaim,
    pub public_key_on_curve: ComponentClaim,
    pub hinted_mul: ComponentClaim,
    pub final_add: ComponentClaim,
}

impl P256CurrentAirProofClaim {
    /// The claim arranges the given component claims for the given claim.
    pub open spec fn arranges(&self, claim: P256ProofClaim, components: ComponentClaims) -> bool {
        &&& self.public_inputs.instances@ == claim.public_inputs.instances@
        &&& self.prepared_point_range7.log_size == RANGE7_BITS
        &&& self.scalar_setup == components.scalar_setup
        &&& self.cert_scalar_inputs == components.cert_scalar_inputs
        &&& self.fake_glv_scalar_air == components.fake_glv_scalar_air
        &&& self.fake_glv_selector_air == components.fake_glv_selector_air
        &&& self.scalar_mod_muls == components.scalar_mod_muls
        &&& self.prepared_table_projective_source == components.prepared_table_projective_source
        &&& self.fake_glv_projective_source.component == components.fake_glv_projective_source
        &&& self.fake_glv_projective_source.source_offset
            == claim.prepared_table_ec_trace.active_rows
        &&& self.fake_glv_chain_expansion.component == components.fake_glv_chain_expansion
        &&& self.fake_glv_chain_expansion.source_offset
            == claim.prepared_table_ec_trace.active_rows
        &&& self.fake_glv_chain_continuity == components.fake_glv_chain_continuity
        &&& self.fake_glv_chain_schedule == components.fake_glv_chain_schedule
        &&& self.fake_glv_direct_prepared_operand == components.fake_glv_direct_prepared_operand
        &&& self.fake_glv_signed_selector_operand == components.fake_glv_signed_selector_operand
        &&& self.fake_glv_lsb_correction_operand == components.fake_glv_lsb_correction_operand
        &&& self.fake_glv_prepared_point_source == components.fake_glv_prepared_point_source
        &&& self.final_check == components.final_check
        &&& self.public_key_on_curve == components.public_key_on_curve
        &&& self.hinted_mul == components.hinted_mul
        &&& self.final_add == components.final_add
    }

    /// Arranges the claims of the components. Ladder rows are numbered past the
    /// active rows of the prepared table, and prepared points are used through a
    /// seven-bit table.
    pub fn from_claim(claim: &P256ProofClaim, components: ComponentClaims) -> (r:
        P256CurrentAirProofClaim)
        ensures
            r.arranges(*claim, components),
    {
        let source_offset: u32 = claim.prepared_table_ec_trace.active_rows;
        P256CurrentAirProofClaim {
            public_inputs: claim.public_inputs.duplicate(),
            scalar_setup: components.scalar_setup,
            cert_scalar_inputs: components.cert_scalar_inputs,
            fake_glv_scalar_air: components.fake_glv_scalar_air,
            fake_glv_selector_air: components.fake_glv_selector_air,
            scalar_mod_muls: components.scalar_mod_muls,
            prepared_table_projective_source: components.prepared_table_projective_source,
            fake_glv_projective_source: SourcedComponentClaim {
                source_offset,
                component: components.fake_glv_projective_source,
            },
            fake_glv_chain_expansion: SourcedComponentClaim {
                source_offset,
                component: components.fake_glv_chain_expansion,
            },
            fake_glv_chain_continuity: components.fake_glv_chain_continuity,
            fake_glv_chain_schedule: components.fake_glv_chain_schedule,
            fake_glv_direct_prepared_operand: components.fake_glv_direct_prepared_operand,
            fake_glv_signed_selector_operand: components.fake_glv_signed_selector_operand,
            fake_glv_lsb_correction_operand: components.fake_glv_lsb_correction_operand,
            fake_glv_prepared_point_source: components.fake_glv_prepared_point_source,
            prepared_point_range7: RangeCheckClaim::new(RANGE7_BITS),
            final_check: components.final_check,
            public_key_on_curve: components.public_key_on_curve,
            hinted_mul: components.hinted_mul,
            final_add: components.final_add,
        }
    }

    /// The words of the component claims, in order.
    pub open spec fn component_words(&self) -> Seq<Seq<u64>> {
        seq![
            self.scalar_setup.words@,
            self.cert_scalar_inputs.words@,
            self.fake_glv_scalar_air.words@,
            self.fake_glv_selector_air.words@,
            self.scalar_mod_muls.words@,
            self.prepared_table_projective_source.words@,
            self.fake_glv_projective_source.spec_words(),
            self.fake_glv_chain_expansion.spec_words(),
            self.fake_glv_chain_continuity.words@,
            self.fake_glv_chain_schedule.words@,
            self.fake_glv_direct_prepared_operand.words@,
            self.fake_glv_signed_selector_operand.words@,
            self.fake_glv_lsb_correction_operand.words@,
            self.fake_glv_prepared_point_source.words@,
            seq![self.prepared_point_range7.log_size as u64],
            self.final_check.words@,
            self.public_key_on_curve.words@,
            self.hinted_mul.words@,
            self.final_add.words@,
        ]
    }

    /// Every word that the claim absorbs: the statements, then the components.
    pub open spec fn transcript_words(&self) -> Seq<u64> {
        statement_words(self.public_inputs.instances@) + flattened(self.component_words())
    }

    /// Absorbs the statements and the shape of every component, in order.
    pub fn mix_into(&self, channel: &mut Transcript)
        ensures
            final(channel).digest@ == absorb_words(old(channel).digest@, self.transcript_words()),
            final(channel).blocks == 0,
    {
        let ghost start = channel.digest@;
        let ghost public = statement_words(self.public_inputs.instances@);
        let ghost groups = self.component_words();
        self.public_inputs.mix_into(channel);
        let ghost base = channel.digest@;
        proof {
            assert(groups.take(0) =~= Seq::<Seq<u64>>::empty());
        }
        mix_group(channel, &self.scalar_setup.words, Ghost(base), Ghost(groups), Ghost(0));
        mix_group(channel, &self.cert_scalar_inputs.words, Ghost(base), Ghost(groups), Ghost(1));
        mix_group(channel, &self.fake_glv_scalar_air.words, Ghost(base), Ghost(groups), Ghost(2));
        mix_group(channel, &self.fake_glv_selector_air.words, Ghost(base), Ghost(groups), Ghost(3));
        mix_group(channel, &self.scalar_mod_muls.words, Ghost(base), Ghost(groups), Ghost(4));
        mix_group(
            channel,
            &self.prepared_table_projective_source.words,
            Ghost(base),
            Ghost(groups),
            Ghost(5),
        );
        mix_sourced(
            channel,
            &self.fake_glv_projective_source,
            Ghost(base),
            Ghost(groups),
            Ghost(6),
        );
        mix_sourced(channel, &self.fake_glv_chain_expansion, Ghost(base), Ghost(groups), Ghost(7));
        mix_group(
            channel,
            &self.fake_glv_chain_continuity.words,
            Ghost(base),
            Ghost(groups),
            Ghost(8),
        );
        mix_group(
            channel,
            &self.fake_glv_chain_schedule.words,
            Ghost(base),
            Ghost(groups),
            Ghost(9),
        );
        mix_group(
            channel,
            &self.fake_glv_direct_prepared_operand.words,
            Ghost(base),
            Ghost(groups),
            Ghost(10),
        );
        mix_group(
            channel,
            &self.fake_glv_signed_selector_operand.words,
            Ghost(base),
            Ghost(groups),
            Ghost(11),
        );
        mix_group(
            channel,
            &self.fake_glv_lsb_correction_operand.words,
            Ghost(base),
            Ghost(groups),
            Ghost(12),
        );
        mix_group(
            channel,
            &self.fake_glv_prepared_point_source.words,
            Ghost(base),
            Ghost(groups),
            Ghost(13),
        );
        mix_range(channel, &self.prepared_point_range7, Ghost(base), Ghost(groups), Ghost(14));
        mix_group(channel, &self.final_check.words, Ghost(base), Ghost(groups), Ghost(15));
        mix_group(channel, &self.public_key_on_curve.words, Ghost(base), Ghost(groups), Ghost(16));
        mix_group(channel, &self.hinted_mul.words, Ghost(base), Ghost(groups), Ghost(17));
        mix_group(channel, &self.final_add.words, Ghost(base), Ghost(groups), Ghost(18));
        proof {
            assert(groups.take(19) =~= groups);
            lemma_absorb_concat(start, public, flattened(groups));
        }
    }

    /// The names of the preprocessed columns that the parts read, part by part.
    pub open spec fn column_groups(&self) -> Seq<Seq<Seq<char>>> {
        seq![
            names(self.scalar_setup.preprocessed_ids@),
            names(self.scalar_mod_muls.preprocessed_ids@),
            names(self.prepared_table_projective_source.preprocessed_ids@),
            names(self.fake_glv_projective_source.component.preprocessed_ids@),
            names(self.fake_glv_chain_expansion.component.preprocessed_ids@),
            names(self.fake_glv_chain_continuity.preprocessed_ids@),
            names(self.fake_glv_chain_schedule.preprocessed_ids@),
            names(self.fake_glv_direct_prepared_operand.preprocessed_ids@),
            names(self.fake_glv_signed_selector_operand.preprocessed_ids@),
            names(self.fake_glv_lsb_correction_operand.preprocessed_ids@),
            names(self.fake_glv_prepared_point_source.preprocessed_ids@),
            seq![range_value_name(self.prepared_point_range7.log_size as nat)],
            names(self.public_key_on_curve.preprocessed_ids@),
            names(self.hinted_mul.preprocessed_ids@),
            names(self.final_add.preprocessed_ids@),
        ]
    }

    /// The preprocessed columns of the proof: those of each part in turn, each
    /// column once.
    pub fn preprocessed_column_ids(&self) -> (r: Vec<PreProcessedColumnId>)
        ensures
            names(r@) == append_groups(Seq::empty(), self.column_groups()),
            distinct(names(r@)),
    {
        let mut ids: Vec<PreProcessedColumnId> = Vec::new();
        let ghost groups = self.column_groups();
        proof {
            assert(names(ids@) =~= Seq::<Seq<char>>::empty());
            assert(groups.take(0) =~= Seq::<Seq<Seq<char>>>::empty());
        }
        let mut range7: Vec<PreProcessedColumnId> = Vec::new();
        range7.push(range_check_value_column_id(self.prepared_point_range7.log_size));
        proof {
            assert(names(range7@) =~= seq![
                range_value_name(self.prepared_point_range7.log_size as nat),
            ]);
        }
        append_group(&mut ids, &self.scalar_setup.preprocessed_ids, Ghost(groups), Ghost(0));
        append_group(&mut ids, &self.scalar_mod_muls.preprocessed_ids, Ghost(groups), Ghost(1));
        append_group(
            &mut ids,
            &self.prepared_table_projective_source.preprocessed_ids,
            Ghost(groups),
            Ghost(2),
        );
        append_group(
            &mut ids,
            &self.fake_glv_projective_source.component.preprocessed_ids,
            Ghost(groups),
            Ghost(3),
        );
        append_group(
            &mut ids,
            &self.fake_glv_chain_expansion.component.preprocessed_ids,
            Ghost(groups),
            Ghost(4),
        );
        append_group(
            &mut ids,
            &self.fake_glv_chain_continuity.preprocessed_ids,
            Ghost(groups),
            Ghost(5),
        );
        append_group(
            &mut ids,
            &self.fake_glv_chain_schedule.preprocessed_ids,
            Ghost(groups),
            Ghost(6),
        );
        append_group(
            &mut ids,
            &self.fake_glv_direct_prepared_operand.preprocessed_ids,
            Ghost(groups),
            Ghost(7),
        );
        append_group(
            &mut ids,
            &self.fake_glv_signed_selector_operand.preprocessed_ids,
            Ghost(groups),
            Ghost(8),
        );
        append_group(
            &mut ids,
            &self.fake_glv_lsb_correction_operand.preprocessed_ids,
            Ghost(groups),
            Ghost(9),
        );
        append_group(
            &mut ids,
            &self.fake_glv_prepared_point_source.preprocessed_ids,
            Ghost(groups),
            Ghost(10),
        );
        append_group(&mut ids, &range7, Ghost(groups), Ghost(11));
        append_group(
            &mut ids,
            &self.public_key_on_curve.preprocessed_ids,
            Ghost(groups),
            Ghost(12),
        );
        append_group(&mut ids, &self.hinted_mul.preprocessed_ids, Ghost(groups), Ghost(13));
        append_group(&mut ids, &self.final_add.preprocessed_ids, Ghost(groups), Ghost(14));
        proof {
            assert(groups.take(15) =~= groups);
            law_groups_are_covered_once(groups);
        }
        ids
    }

    /// Sizes of all columns of the proof, for components that agree on the
    /// columns they read and leave none unread.
    pub fn trace_log_degree_bounds(
        &self,
        ids: &Vec<PreProcessedColumnId>,
        components: &P256CurrentAirComponents<ComponentShape>,
    ) -> (r: TreeLayout)
        requires
            forall|c: int|
                0 <= c < components.spec_components().len() ==> (
                #[trigger] components.spec_components()[c]).wf(ids@.len() as int),
            consistent(components.spec_components()),
            all_read(components.spec_components(), ids@.len() as int),
        ensures
            r.preprocessed@.len() == ids@.len(),
            forall|column: int, log_size: u32|
                0 <= column < ids@.len() && #[trigger] read_as(
                    components.spec_components(),
                    column,
                    log_size,
                ) ==> r.preprocessed@[column] == log_size,
            r.trace@ == trace_sizes(components.spec_components()),
            r.interaction@ == interaction_sizes(components.spec_components()),
    {
        components.trace_log_degree_bounds(ids.len())
    }

    /// The largest constraint degree bound over the components.
    pub fn max_constraint_log_degree_bound(
        &self,
        components: &P256CurrentAirComponents<ComponentShape>,
    ) -> (r: u32)
        ensures
            r == largest_bound(components.spec_components()),
    {
        components.max_constraint_log_degree_bound()
    }
}

/// The lists one after the other.
pub open spec fn flattened(groups: Seq<Seq<u64>>) -> Seq<u64>
    decreases groups.len(),
{
    if groups.len() == 0 {
        Seq::empty()
    } else {
        flattened(groups.drop_last()) + groups.last()
    }
}

/// Absorbs group number `n` of a list of words.
fn mix_group(
    channel: &mut Transcript,
    words: &Vec<u64>,
    Ghost(start): Ghost<Seq<u8>>,
    Ghost(groups): Ghost<Seq<Seq<u64>>>,
    Ghost(n): Ghost<int>,
)
    requires
        0 <= n < groups.len(),
        groups[n] == words@,
        old(channel).digest@ == absorb_words(start, flattened(groups.take(n))),
    ensures
        final(channel).digest@ == absorb_words(start, flattened(groups.take(n + 1))),
        old(channel).blocks == 0 ==> final(channel).blocks == 0,
{
    proof {
        assert(groups.take(n + 1).drop_last() =~= groups.take(n));
        lemma_absorb_concat(start, flattened(groups.take(n)), words@);
    }
    channel.mix_words(words);
}

/// Absorbs group number `n`, the words of a component with an offset.
fn mix_sourced(
    channel: &mut Transcript,
    claim: &SourcedComponentClaim,
    Ghost(start): Ghost<Seq<u8>>,
    Ghost(groups): Ghost<Seq<Seq<u64>>>,
    Ghost(n): Ghost<int>,
)
    requires
        0 <= n < groups.len(),
        groups[n] == claim.spec_words(),
        old(channel).digest@ == absorb_words(start, flattened(groups.take(n))),
    ensures
        final(channel).digest@ == absorb_words(start, flattened(groups.take(n + 1))),
        old(channel).blocks == 0 ==> final(channel).blocks == 0,
{
    proof {
        assert(groups.take(n + 1).drop_last() =~= groups.take(n));
        lemma_absorb_concat(start, flattened(groups.take(n)), claim.spec_words());
        assert(claim.spec_words().drop_last() =~= claim.component.words@);
    }
    channel.mix_words(&claim.component.words);
    channel.mix_u64(claim.source_offset as u64);
}

/// Absorbs group number `n`, the size of a range table.
fn mix_range(
    channel: &mut Transcript,
    claim: &RangeCheckClaim,
    Ghost(start): Ghost<Seq<u8>>,
    Ghost(groups): Ghost<Seq<Seq<u64>>>,
    Ghost(n): Ghost<int>,
)
    requires
        0 <= n < groups.len(),
        groups[n] == seq![claim.log_size as u64],
        old(channel).digest@ == absorb_words(start, flattened(groups.take(n))),
    ensures
        final(channel).digest@ == absorb_words(start, flattened(groups.take(n + 1))),
        final(channel).blocks == 0,
{
    proof {
        assert(groups.take(n + 1).drop_last() =~= groups.take(n));
        lemma_absorb_concat(start, flattened(groups.take(n)), seq![claim.log_size as u64]);
    }
    claim.mix_into(channel);
}

/// Appends group number `n` of a list of names.
fn append_group(
    ids: &mut Vec<PreProcessedColumnId>,
    group: &Vec<PreProcessedColumnId>,
    Ghost(groups): Ghost<Seq<Seq<Seq<char>>>>,
    Ghost(n): Ghost<int>,
)
    requires
        0 <= n < groups.len(),
        groups[n] == names(group@),
        names(old(ids)@) == append_groups(Seq::empty(), groups.take(n)),
    ensures
        names(final(ids)@) == append_groups(Seq::empty(), groups.take(n + 1)),
{
    proof {
        assert(groups.take(n + 1).drop_last() =~= groups.take(n));
    }
    append_unique_preprocessed_ids(ids, group);
}

/// Law: every column that a part of the proof reads is among the preprocessed
/// columns of the proof, and none is there twice.
pub proof fn law_every_read_column_is_committed_once(claim: P256CurrentAirProofClaim)
    ensures
        distinct(append_groups(Seq::empty(), claim.column_groups())),
        forall|g: int, i: int|
            0 <= g < 15 && 0 <= i < claim.column_groups()[g].len() ==> append_groups(
                Seq::empty(),
                claim.column_groups(),
            ).contains(#[trigger] claim.column_groups()[g][i]),
{
    law_groups_are_covered_once(claim.column_groups());
}

} // verus!
