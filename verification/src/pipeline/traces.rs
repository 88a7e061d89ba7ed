//! The columns of a proof, tree by tree: in which order the parts contribute
//! them, and the lookup tables that serve them.
use crate::fields::{
    law_sum_commutes, law_sum_zero, lemma_m31_of, lemma_results_reduced, lemma_sum_of_reduced,
    sf_negation, sf_sum, sf_sum_of, sf_zero, SecureField, M31,
};
use crate::pipeline::claim::P256CurrentAirProofClaim;
use crate::pipeline::columns::{
    all_cells, append_groups, append_new_columns, append_unique,
    append_unique_preprocessed_columns, cells, first_position, names,
    select_preprocessed_columns, ColumnCells,
};
use crate::pipeline::components::{trace_sizes, ComponentShape, P256CurrentAirComponents};
use crate::pipeline::draft::{artifacts, first_error, take_stages};
use crate::pipeline::error::P256ProofError;
use crate::pipeline::interaction_claim::{
    ChainExpansionClaim, ComponentInteractionClaim, HintedMulProofInteractionClaim,
    P256CurrentAirInteractionClaim, PinnedTableClaim, ProviderConsumerClaim,
    ScalarModMulProofSliceInteractionClaim,
};
use crate::pipeline::relations::P256CurrentAirRelations;
use crate::range_checks::interaction::{
    avoids_pole, carry_consumer_terms, consumer_terms, coset_order, is_interaction,
    law_provider_balances_uses, law_signed_carry_provider_balances_uses, provider_fractions,
    reduced_cells, RangeCheckInteractionClaim,
};
use crate::range_checks::trace::{
    carry_multiplicities, carry_values, law_storage_order_is_a_permutation, lemma_stored_cells,
    range_multiplicities, range_values, row_position, stored_row, ColumnEval, RangeCheckClaim,
    SignedCarryRangeClaim,
};
use crate::range_checks::{
    range_check_value_column_id, PreProcessedColumnId, RangeCheckRelation, RANGE13_BITS,
    RANGE7_BITS,
};
use vstd::arithmetic::power2::{lemma2_to64, pow2};
use vstd::prelude::*;

verus! {

/// The outcome of generating the columns of one part.
pub type ColumnsOutcome = Result<Vec<ColumnEval>, P256ProofError>;

/// Named columns of one part.
pub type NamedColumns = (Seq<Seq<char>>, Seq<ColumnCells>);

/// The columns that stay when the parts are appended in turn, each name once.
pub open spec fn appended_columns(groups: Seq<NamedColumns>) -> Seq<ColumnCells>
    decreases groups.len(),
{
    if groups.len() == 0 {
        Seq::empty()
    } else {
        append_new_columns(
            appended_names(groups.drop_last()),
            appended_columns(groups.drop_last()),
            groups.last().0,
            groups.last().1,
        )
    }
}

/// The names of the columns that stay.
pub open spec fn appended_names(groups: Seq<NamedColumns>) -> Seq<Seq<char>>
    decreases groups.len(),
{
    if groups.len() == 0 {
        Seq::empty()
    } else {
        append_unique(appended_names(groups.drop_last()), groups.last().0)
    }
}

/// Number of parts that generate preprocessed columns, besides the seven-bit
/// table.
pub const PREPROCESSED_PARTS: usize = 14;

/// The place of the seven-bit table among the parts.
pub const RANGE7_PART: usize = 11;

/// What the columns of each part hold.
pub open spec fn part_cells(parts: Seq<Vec<ColumnEval>>) -> Seq<Seq<ColumnCells>> {
    parts.map_values(|part: Vec<ColumnEval>| all_cells(part@))
}

/// Every part names as many columns as it generates. The seven-bit table stands
/// between the parts before and after it.
pub open spec fn matching_parts(
    groups: Seq<Seq<Seq<char>>>,
    parts: Seq<Vec<ColumnEval>>,
) -> bool {
    &&& groups.len() == PREPROCESSED_PARTS + 1
    &&& parts.len() == PREPROCESSED_PARTS
    &&& forall|i: int|
        0 <= i < RANGE7_PART ==> (#[trigger] parts[i])@.len() == groups[i].len()
    &&& forall|i: int|
        RANGE7_PART <= i < PREPROCESSED_PARTS ==> (#[trigger] parts[i])@.len() == groups[i
            + 1].len()
}

/// The named columns of the parts, with the seven-bit table in its place.
pub open spec fn named_groups(
    groups: Seq<Seq<Seq<char>>>,
    parts: Seq<Seq<ColumnCells>>,
    range7: ColumnCells,
) -> Seq<NamedColumns> {
    Seq::new(
        groups.len(),
        |i: int|
            if i < RANGE7_PART {
                (groups[i], parts[i])
            } else if i == RANGE7_PART {
                (groups[i], seq![range7])
            } else {
                (groups[i], parts[i - 1])
            },
    )
}

/// The names that stay are those of the parts in turn.
pub proof fn lemma_appended_names(groups: Seq<NamedColumns>)
    ensures
        appended_names(groups) == append_groups(
            Seq::empty(),
            groups.map_values(|g: NamedColumns| g.0),
        ),
    decreases groups.len(),
{
    let only_names = groups.map_values(|g: NamedColumns| g.0);
    if groups.len() > 0 {
        lemma_appended_names(groups.drop_last());
        assert(only_names.drop_last() =~= groups.drop_last().map_values(|g: NamedColumns| g.0));
    }
}

/// Appends group number `n` of the named columns.
fn append_named(
    ids: &mut Vec<PreProcessedColumnId>,
    columns: &mut Vec<ColumnEval>,
    local_ids: &Vec<PreProcessedColumnId>,
    local_columns: &Vec<ColumnEval>,
    Ghost(groups): Ghost<Seq<NamedColumns>>,
    Ghost(n): Ghost<int>,
)
    requires
        0 <= n < groups.len(),
        groups[n] == (names(local_ids@), all_cells(local_columns@)),
        local_ids@.len() == local_columns@.len(),
        old(ids)@.len() == old(columns)@.len(),
        names(old(ids)@) == appended_names(groups.take(n)),
        all_cells(old(columns)@) == appended_columns(groups.take(n)),
    ensures
        final(ids)@.len() == final(columns)@.len(),
        names(final(ids)@) == appended_names(groups.take(n + 1)),
        all_cells(final(columns)@) == appended_columns(groups.take(n + 1)),
{
    proof {
        assert(groups.take(n + 1).drop_last() =~= groups.take(n));
        let all = local_ids@.len() as int;
        assert(names(local_ids@).take(all) =~= names(local_ids@));
        assert(all_cells(local_columns@).take(all) =~= all_cells(local_columns@));
    }
    append_unique_preprocessed_columns(ids, columns, local_ids, local_columns);
}

/// The preprocessed columns of a proof, in the order of the global list: each
/// as the first part that names it generates it. The error is that of the first
/// part whose generation failed.
pub fn gen_current_air_preprocessed_trace(
    claim: &P256CurrentAirProofClaim,
    parts: Vec<ColumnsOutcome>,
    global_ids: &Vec<PreProcessedColumnId>,
) -> (r: Result<Vec<ColumnEval>, P256ProofError>)
    requires
        parts@.len() == PREPROCESSED_PARTS,
        first_error(parts@) is None ==> matching_parts(claim.column_groups(), artifacts(parts@)),
        1 <= claim.prepared_point_range7.log_size,
        claim.prepared_point_range7.wf(),
        forall|i: int|
            0 <= i < global_ids@.len() ==> append_groups(
                Seq::empty(),
                claim.column_groups(),
            ).contains((#[trigger] global_ids@[i]).id@),
    ensures
        match first_error(parts@) {
            Some(e) => r == Err::<Vec<ColumnEval>, P256ProofError>(e),
            None => r matches Ok(columns) && exists|range7: ColumnEval|
                #[trigger] range7.stores(
                    claim.prepared_point_range7.log_size as nat,
                    range_values(claim.prepared_point_range7.log_size as nat),
                ) && {
                    let groups = named_groups(
                        claim.column_groups(),
                        part_cells(artifacts(parts@)),
                        cells(range7),
                    );
                    &&& columns@.len() == global_ids@.len()
                    &&& forall|i: int|
                        0 <= i < columns@.len() ==> cells(#[trigger] columns@[i])
                            == appended_columns(groups)[first_position(
                            append_groups(Seq::empty(), claim.column_groups()),
                            global_ids@[i].id@,
                        )]
                },
        },
{
    let ghost outcomes = parts@;
    let mut rest: Vec<ColumnsOutcome> = parts;
    proof {
        assert(outcomes.take(PREPROCESSED_PARTS as int) =~= outcomes);
    }
    let built: Vec<Vec<ColumnEval>> = match take_stages(&mut rest, PREPROCESSED_PARTS) {
        Ok(built) => built,
        Err(e) => {
            return Err(e);
        },
    };
    let range7: ColumnEval = claim.prepared_point_range7.gen_preprocessed_column();
    let mut range7_ids: Vec<PreProcessedColumnId> = Vec::new();
    range7_ids.push(range_check_value_column_id(claim.prepared_point_range7.log_size));
    let mut range7_columns: Vec<ColumnEval> = Vec::new();
    range7_columns.push(range7.duplicate());
    let ghost name_groups = claim.column_groups();
    let ghost groups = named_groups(name_groups, part_cells(built@), cells(range7));
    proof {
        assert(names(range7_ids@) =~= name_groups[11]);
        assert(all_cells(range7_columns@) =~= seq![cells(range7)]);
    }
    let mut ids: Vec<PreProcessedColumnId> = Vec::new();
    let mut columns: Vec<ColumnEval> = Vec::new();
    proof {
        assert(groups.take(0) =~= Seq::<NamedColumns>::empty());
        assert(names(ids@) =~= Seq::<Seq<char>>::empty());
        assert(all_cells(columns@) =~= Seq::<ColumnCells>::empty());
    }
    append_named(
        &mut ids,
        &mut columns,
        &claim.scalar_setup.preprocessed_ids,
        &built[0],
        Ghost(groups),
        Ghost(0),
    );
    append_named(
        &mut ids,
        &mut columns,
        &claim.scalar_mod_muls.preprocessed_ids,
        &built[1],
        Ghost(groups),
        Ghost(1),
    );
    append_named(
        &mut ids,
        &mut columns,
        &claim.prepared_table_projective_source.preprocessed_ids,
        &built[2],
        Ghost(groups),
        Ghost(2),
    );
    append_named(
        &mut ids,
        &mut columns,
        &claim.fake_glv_projective_source.component.preprocessed_ids,
        &built[3],
        Ghost(groups),
        Ghost(3),
    );
    append_named(
        &mut ids,
        &mut columns,
        &claim.fake_glv_chain_expansion.component.preprocessed_ids,
        &built[4],
        Ghost(groups),
        Ghost(4),
    );
    append_named(
        &mut ids,
        &mut columns,
        &claim.fake_glv_chain_continuity.preprocessed_ids,
        &built[5],
        Ghost(groups),
        Ghost(5),
    );
    append_named(
        &mut ids,
        &mut columns,
        &claim.fake_glv_chain_schedule.preprocessed_ids,
        &built[6],
        Ghost(groups),
        Ghost(6),
    );
    append_named(
        &mut ids,
        &mut columns,
        &claim.fake_glv_direct_prepared_operand.preprocessed_ids,
        &built[7],
        Ghost(groups),
        Ghost(7),
    );
    append_named(
        &mut ids,
        &mut columns,
        &claim.fake_glv_signed_selector_operand.preprocessed_ids,
        &built[8],
        Ghost(groups),
        Ghost(8),
    );
    append_named(
        &mut ids,
        &mut columns,
        &claim.fake_glv_lsb_correction_operand.preprocessed_ids,
        &built[9],
        Ghost(groups),
        Ghost(9),
    );
    append_named(
        &mut ids,
        &mut columns,
        &claim.fake_glv_prepared_point_source.preprocessed_ids,
        &built[10],
        Ghost(groups),
        Ghost(10),
    );
    append_named(
        &mut ids,
        &mut columns,
        &range7_ids,
        &range7_columns,
        Ghost(groups),
        Ghost(11),
    );
    append_named(
        &mut ids,
        &mut columns,
        &claim.public_key_on_curve.preprocessed_ids,
        &built[11],
        Ghost(groups),
        Ghost(12),
    );
    append_named(
        &mut ids,
        &mut columns,
        &claim.hinted_mul.preprocessed_ids,
        &built[12],
        Ghost(groups),
        Ghost(13),
    );
    append_named(
        &mut ids,
        &mut columns,
        &claim.final_add.preprocessed_ids,
        &built[13],
        Ghost(groups),
        Ghost(14),
    );
    proof {
        assert(groups.take(15) =~= groups);
        lemma_appended_names(groups);
        assert(groups.map_values(|g: NamedColumns| g.0) =~= name_groups);
        assert(names(ids@) == append_groups(Seq::empty(), name_groups));
    }
    let selected: Vec<ColumnEval> = select_preprocessed_columns(&ids, &columns, global_ids);
    proof {
        assert forall|i: int| 0 <= i < selected@.len() implies cells(#[trigger] selected@[i])
            == appended_columns(groups)[first_position(
            append_groups(Seq::empty(), name_groups),
            global_ids@[i].id@,
        )] by {
            let at = first_position(names(ids@), global_ids@[i].id@);
            crate::pipeline::columns::lemma_first_position(names(ids@), global_ids@[i].id@);
            assert(append_groups(Seq::empty(), name_groups).contains(global_ids@[i].id@));
            assert(all_cells(columns@)[at] == cells(columns@[at]));
        }
        assert(range7.stores(
            claim.prepared_point_range7.log_size as nat,
            range_values(claim.prepared_point_range7.log_size as nat),
        ));
    }
    Ok(selected)
}

/// What all groups of columns hold, one after the other.
pub open spec fn concatenated(groups: Seq<Seq<ColumnCells>>) -> Seq<ColumnCells>
    decreases groups.len(),
{
    if groups.len() == 0 {
        Seq::empty()
    } else {
        concatenated(groups.drop_last()) + groups.last()
    }
}

/// Appends copies of the columns of group number `n`.
fn extend_columns(
    out: &mut Vec<ColumnEval>,
    part: &Vec<ColumnEval>,
    Ghost(groups): Ghost<Seq<Seq<ColumnCells>>>,
    Ghost(n): Ghost<int>,
)
    requires
        0 <= n < groups.len(),
        groups[n] == all_cells(part@),
        all_cells(old(out)@) == concatenated(groups.take(n)),
    ensures
        all_cells(final(out)@) == concatenated(groups.take(n + 1)),
{
    let ghost start = all_cells(out@);
    let ghost more = all_cells(part@);
    let mut i: usize = 0;
    proof {
        assert(more.take(0) =~= Seq::<ColumnCells>::empty());
    }
    while i < part.len()
        invariant
            i <= part@.len(),
            more == all_cells(part@),
            all_cells(out@) == start + more.take(i as int),
        decreases part@.len() - i,
    {
        let ghost before = out@;
        out.push(part[i].duplicate());
        proof {
            assert(all_cells(out@) =~= all_cells(before).push(more[i as int]));
            assert(more.take(i + 1) =~= more.take(i as int).push(more[i as int]));
        }
        i = i + 1;
    }
    proof {
        assert(more.take(i as int) =~= more);
        assert(groups.take(n + 1).drop_last() =~= groups.take(n));
    }
}

/// Appends a copy of one column, which is group number `n`.
fn push_column(
    out: &mut Vec<ColumnEval>,
    column: &ColumnEval,
    Ghost(groups): Ghost<Seq<Seq<ColumnCells>>>,
    Ghost(n): Ghost<int>,
)
    requires
        0 <= n < groups.len(),
        groups[n] == seq![cells(*column)],
        all_cells(old(out)@) == concatenated(groups.take(n)),
    ensures
        all_cells(final(out)@) == concatenated(groups.take(n + 1)),
{
    let ghost before = out@;
    out.push(column.duplicate());
    proof {
        assert(all_cells(out@) =~= all_cells(before).push(cells(*column)));
        assert(groups.take(n + 1).drop_last() =~= groups.take(n));
    }
}

/// The use counts that are not zero, in order.
pub open spec fn nonzero_counts(counts: Seq<M31>) -> Seq<M31>
    decreases counts.len(),
{
    if counts.len() == 0 {
        Seq::empty()
    } else if counts.last().0 == 0 {
        nonzero_counts(counts.drop_last())
    } else {
        nonzero_counts(counts.drop_last()).push(counts.last())
    }
}

/// Keeps the use counts that are not zero.
pub fn keep_nonzero(counts: &Vec<M31>) -> (r: Vec<M31>)
    ensures
        r@ == nonzero_counts(counts@),
{
    let mut kept: Vec<M31> = Vec::new();
    let mut i: usize = 0;
    proof {
        assert(counts@.take(0) =~= Seq::<M31>::empty());
    }
    while i < counts.len()
        invariant
            i <= counts@.len(),
            kept@ == nonzero_counts(counts@.take(i as int)),
        decreases counts@.len() - i,
    {
        proof {
            assert(counts@.take(i + 1).drop_last() =~= counts@.take(i as int));
            assert(counts@.take(i + 1).last() == counts@[i as int]);
        }
        if counts[i].0 != 0 {
            kept.push(counts[i]);
        }
        i = i + 1;
    }
    proof {
        assert(counts@.take(i as int) =~= counts@);
    }
    kept
}

/// The values that the lookup tables of the base trace serve.
#[derive(Clone, Debug)]
pub struct TableUses {
    /// Use counts of the prepared points.
    pub use_counts: Vec<M31>,
    /// Limbs of the hinted products.
    pub range13: Vec<M31>,
    /// Quotient carries of the hinted products, and their table.
    pub signed_h: Vec<i64>,
    pub signed_h_table: SignedCarryRangeClaim,
    /// Formula carries of the hinted products, and their table.
    pub signed_formula: Vec<i64>,
    pub signed_formula_table: SignedCarryRangeClaim,
}

impl TableUses {
    /// Every value lies in its table.
    pub open spec fn wf(&self) -> bool {
        &&& forall|i: int|
            0 <= i < self.use_counts@.len() ==> (#[trigger] self.use_counts@[i]).0 < 128
        &&& forall|i: int| 0 <= i < self.range13@.len() ==> (#[trigger] self.range13@[i]).0 < 8192
        &&& self.signed_h_table.wf()
        &&& self.signed_formula_table.wf()
        &&& forall|i: int|
            0 <= i < self.signed_h@.len() ==> -self.signed_h_table.bound
                <= #[trigger] self.signed_h@[i] <= self.signed_h_table.bound
        &&& forall|i: int|
            0 <= i < self.signed_formula@.len() ==> -self.signed_formula_table.bound
                <= #[trigger] self.signed_formula@[i] <= self.signed_formula_table.bound
    }
}

/// Number of parts that generate base columns, besides the tables.
pub const BASE_PARTS: usize = 28;

/// The base trace: the committed columns, the parts that feed the interaction
/// trace, and the multiplicities of the lookup tables.
///
/// Parts are listed in the order in which they are generated: the final check
/// and the public-key check come right after the scalar setup, whose tables
/// serve them.
#[derive(Clone, Debug)]
pub struct P256CurrentAirBaseTrace {
    pub columns: Vec<ColumnEval>,
    pub parts: Vec<Vec<ColumnEval>>,
    pub uses: TableUses,
    pub prepared_point_range7_multiplicity: ColumnEval,
    pub hinted_range13_multiplicity: ColumnEval,
    pub hinted_signed_h_multiplicity: ColumnEval,
    pub hinted_signed_formula_multiplicity: ColumnEval,
}

/// The groups of base columns, in the order in which they are committed.
pub open spec fn base_groups(
    parts: Seq<Seq<ColumnCells>>,
    tables: Seq<ColumnCells>,
) -> Seq<Seq<ColumnCells>> {
    seq![
        parts[0],
        parts[3],
        parts[4],
        parts[5],
        parts[6],
        parts[7],
        parts[8],
        parts[9],
        parts[10],
        parts[11],
        parts[12],
        parts[13],
        parts[14],
        parts[15],
        parts[16],
        parts[17],
        parts[18],
        parts[19],
        parts[20],
        parts[21],
        parts[22],
        parts[23],
        seq![tables[0]],
        parts[1],
        parts[2],
        parts[24],
        parts[25],
        parts[26],
        seq![tables[1]],
        seq![tables[2]],
        seq![tables[3]],
        parts[27],
    ]
}

impl P256CurrentAirBaseTrace {
    /// The multiplicity columns count the uses of the tables.
    pub open spec fn counts_uses(&self) -> bool {
        let h = self.uses.signed_h_table;
        let f = self.uses.signed_formula_table;
        &&& self.uses.wf()
        &&& self.prepared_point_range7_multiplicity.stores(
            7,
            range_multiplicities(7, nonzero_counts(self.uses.use_counts@)),
        )
        &&& self.hinted_range13_multiplicity.stores(
            13,
            range_multiplicities(13, self.uses.range13@),
        )
        &&& self.hinted_signed_h_multiplicity.stores(
            h.log_size as nat,
            carry_multiplicities(h.log_size as nat, h.bound as int, self.uses.signed_h@),
        )
        &&& self.hinted_signed_formula_multiplicity.stores(
            f.log_size as nat,
            carry_multiplicities(f.log_size as nat, f.bound as int, self.uses.signed_formula@),
        )
    }

    /// What the four multiplicity columns hold.
    pub open spec fn table_cells(&self) -> Seq<ColumnCells> {
        seq![
            cells(self.prepared_point_range7_multiplicity),
            cells(self.hinted_range13_multiplicity),
            cells(self.hinted_signed_h_multiplicity),
            cells(self.hinted_signed_formula_multiplicity),
        ]
    }
}

/// Use counts that are kept lie in the seven-bit table.
proof fn lemma_kept_counts(counts: Seq<M31>)
    requires
        forall|i: int| 0 <= i < counts.len() ==> (#[trigger] counts[i]).0 < 128,
    ensures
        forall|i: int|
            0 <= i < nonzero_counts(counts).len() ==> (#[trigger] nonzero_counts(counts)[i]).0
                < 128,
    decreases counts.len(),
{
    if counts.len() > 0 {
        let front = counts.drop_last();
        assert forall|i: int| 0 <= i < front.len() implies (#[trigger] front[i]).0 < 128 by {
            assert(front[i] == counts[i]);
        }
        lemma_kept_counts(front);
        assert(counts[counts.len() - 1].0 < 128);
        let kept = nonzero_counts(front);
        assert forall|i: int| 0 <= i < nonzero_counts(counts).len() implies (
        #[trigger] nonzero_counts(counts)[i]).0 < 128 by {
            if i < kept.len() {
                assert(kept[i].0 < 128);
            }
        }
    }
}

/// The base trace of a proof, from the outcomes of its parts and the values that
/// the tables serve. The error is that of the first part that failed.
pub fn gen_current_air_base_trace(parts: Vec<ColumnsOutcome>, uses: TableUses) -> (r: Result<
    P256CurrentAirBaseTrace,
    P256ProofError,
>)
    requires
        parts@.len() == BASE_PARTS,
        uses.wf(),
    ensures
        match first_error(parts@) {
            Some(e) => r == Err::<P256CurrentAirBaseTrace, P256ProofError>(e),
            None => r matches Ok(base) && base.uses == uses && base.parts@ == artifacts(parts@)
                && base.counts_uses() && all_cells(base.columns@) == concatenated(
                base_groups(part_cells(artifacts(parts@)), base.table_cells()),
            ),
        },
{
    let ghost outcomes = parts@;
    let mut rest: Vec<ColumnsOutcome> = parts;
    proof {
        assert(outcomes.take(BASE_PARTS as int) =~= outcomes);
        lemma2_to64();
        lemma_kept_counts(uses.use_counts@);
    }
    let built: Vec<Vec<ColumnEval>> = match take_stages(&mut rest, BASE_PARTS) {
        Ok(built) => built,
        Err(e) => {
            return Err(e);
        },
    };
    let kept: Vec<M31> = keep_nonzero(&uses.use_counts);
    let range7: ColumnEval = RangeCheckClaim::new(RANGE7_BITS).gen_multiplicity_trace(&kept);
    let range13: ColumnEval = RangeCheckClaim::new(RANGE13_BITS).gen_multiplicity_trace(
        &uses.range13,
    );
    let signed_h: ColumnEval = uses.signed_h_table.gen_multiplicity_trace(&uses.signed_h);
    let signed_formula: ColumnEval = uses.signed_formula_table.gen_multiplicity_trace(
        &uses.signed_formula,
    );
    let columns: Vec<ColumnEval> = commit_base_columns(
        &built,
        &range7,
        &range13,
        &signed_h,
        &signed_formula,
    );
    Ok(
        P256CurrentAirBaseTrace {
            columns,
            parts: built,
            uses,
            prepared_point_range7_multiplicity: range7,
            hinted_range13_multiplicity: range13,
            hinted_signed_h_multiplicity: signed_h,
            hinted_signed_formula_multiplicity: signed_formula,
        },
    )
}

/// The base columns in the order in which they are committed.
fn commit_base_columns(
    built: &Vec<Vec<ColumnEval>>,
    range7: &ColumnEval,
    range13: &ColumnEval,
    signed_h: &ColumnEval,
    signed_formula: &ColumnEval,
) -> (r: Vec<ColumnEval>)
    requires
        built@.len() == BASE_PARTS,
    ensures
        all_cells(r@) == concatenated(
            base_groups(
                part_cells(built@),
                seq![cells(*range7), cells(*range13), cells(*signed_h), cells(*signed_formula)],
            ),
        ),
{
    let ghost groups = base_groups(
        part_cells(built@),
        seq![cells(*range7), cells(*range13), cells(*signed_h), cells(*signed_formula)],
    );
    let mut columns: Vec<ColumnEval> = Vec::new();
    proof {
        assert(groups.take(0) =~= Seq::<Seq<ColumnCells>>::empty());
        assert(all_cells(columns@) =~= Seq::<ColumnCells>::empty());
    }
    extend_columns(&mut columns, &built[0], Ghost(groups), Ghost(0));
    extend_columns(&mut columns, &built[3], Ghost(groups), Ghost(1));
    extend_columns(&mut columns, &built[4], Ghost(groups), Ghost(2));
    extend_columns(&mut columns, &built[5], Ghost(groups), Ghost(3));
    extend_columns(&mut columns, &built[6], Ghost(groups), Ghost(4));
    extend_columns(&mut columns, &built[7], Ghost(groups), Ghost(5));
    extend_columns(&mut columns, &built[8], Ghost(groups), Ghost(6));
    extend_columns(&mut columns, &built[9], Ghost(groups), Ghost(7));
    extend_columns(&mut columns, &built[10], Ghost(groups), Ghost(8));
    extend_columns(&mut columns, &built[11], Ghost(groups), Ghost(9));
    extend_columns(&mut columns, &built[12], Ghost(groups), Ghost(10));
    extend_columns(&mut columns, &built[13], Ghost(groups), Ghost(11));
    extend_columns(&mut columns, &built[14], Ghost(groups), Ghost(12));
    extend_columns(&mut columns, &built[15], Ghost(groups), Ghost(13));
    extend_columns(&mut columns, &built[16], Ghost(groups), Ghost(14));
    extend_columns(&mut columns, &built[17], Ghost(groups), Ghost(15));
    extend_columns(&mut columns, &built[18], Ghost(groups), Ghost(16));
    extend_columns(&mut columns, &built[19], Ghost(groups), Ghost(17));
    extend_columns(&mut columns, &built[20], Ghost(groups), Ghost(18));
    extend_columns(&mut columns, &built[21], Ghost(groups), Ghost(19));
    extend_columns(&mut columns, &built[22], Ghost(groups), Ghost(20));
    extend_columns(&mut columns, &built[23], Ghost(groups), Ghost(21));
    push_column(&mut columns, range7, Ghost(groups), Ghost(22));
    extend_columns(&mut columns, &built[1], Ghost(groups), Ghost(23));
    extend_columns(&mut columns, &built[2], Ghost(groups), Ghost(24));
    extend_columns(&mut columns, &built[24], Ghost(groups), Ghost(25));
    extend_columns(&mut columns, &built[25], Ghost(groups), Ghost(26));
    extend_columns(&mut columns, &built[26], Ghost(groups), Ghost(27));
    push_column(&mut columns, range13, Ghost(groups), Ghost(28));
    push_column(&mut columns, signed_h, Ghost(groups), Ghost(29));
    push_column(&mut columns, signed_formula, Ghost(groups), Ghost(30));
    extend_columns(&mut columns, &built[27], Ghost(groups), Ghost(31));
    proof {
        assert(groups.take(32) =~= groups);
    }
    columns
}

/// What the parts of the interaction trace claim, besides the lookup tables.
#[derive(Clone, Copy, Debug, PartialEq, Eq, Structural)]
pub struct InteractionSums {
    pub scalar_setup: SecureField,
    pub cert_scalar_inputs: SecureField,
    pub fake_glv_scalar_air: SecureField,
    pub fake_glv_selector_air: SecureField,
    pub scalar_mod_mul: SecureField,
    pub scalar_mod_mul_range13: SecureField,
    pub scalar_mod_mul_signed_carry: SecureField,
    pub prepared_table_pinned: SecureField,
    pub final_check_hint: SecureField,
    pub prepared_consumer_ec_row: SecureField,
    pub prepared_consumer_mul_result: SecureField,
    pub prepared_consumer_header_yield: SecureField,
    pub fake_glv_provider: SecureField,
    pub fake_glv_consumer_ec_row: SecureField,
    pub fake_glv_consumer_mul_result: SecureField,
    pub fake_glv_consumer_header_yield: SecureField,
    pub expansion_provider: SecureField,
    pub expansion_consumer: SecureField,
    pub continuity: SecureField,
    pub direct_provider: SecureField,
    pub direct_consumer: SecureField,
    pub signed_provider: SecureField,
    pub signed_consumer: SecureField,
    pub lsb_provider: SecureField,
    pub lsb_consumer: SecureField,
    pub prepared_point_provider: SecureField,
    pub prepared_point_range7_consumer: SecureField,
    pub prepared_point_consumer: SecureField,
    pub final_check: SecureField,
    pub public_key_on_curve: SecureField,
    pub hinted_mul: SecureField,
    pub hinted_gamma_range13: SecureField,
    pub hinted_gamma_signed: SecureField,
    pub final_add: SecureField,
}

impl InteractionSums {
    /// Every sum is reduced.
    pub open spec fn wf(self) -> bool {
        &&& self.scalar_setup.wf()
        &&& self.cert_scalar_inputs.wf()
        &&& self.fake_glv_scalar_air.wf()
        &&& self.fake_glv_selector_air.wf()
        &&& self.scalar_mod_mul.wf()
        &&& self.scalar_mod_mul_range13.wf()
        &&& self.scalar_mod_mul_signed_carry.wf()
        &&& self.prepared_table_pinned.wf()
        &&& self.final_check_hint.wf()
        &&& self.prepared_consumer_ec_row.wf()
        &&& self.prepared_consumer_mul_result.wf()
        &&& self.prepared_consumer_header_yield.wf()
        &&& self.fake_glv_provider.wf()
        &&& self.fake_glv_consumer_ec_row.wf()
        &&& self.fake_glv_consumer_mul_result.wf()
        &&& self.fake_glv_consumer_header_yield.wf()
        &&& self.expansion_provider.wf()
        &&& self.expansion_consumer.wf()
        &&& self.continuity.wf()
        &&& self.direct_provider.wf()
        &&& self.direct_consumer.wf()
        &&& self.signed_provider.wf()
        &&& self.signed_consumer.wf()
        &&& self.lsb_provider.wf()
        &&& self.lsb_consumer.wf()
        &&& self.prepared_point_provider.wf()
        &&& self.prepared_point_range7_consumer.wf()
        &&& self.prepared_point_consumer.wf()
        &&& self.final_check.wf()
        &&& self.public_key_on_curve.wf()
        &&& self.hinted_mul.wf()
        &&& self.hinted_gamma_range13.wf()
        &&& self.hinted_gamma_signed.wf()
        &&& self.final_add.wf()
    }
}

/// Number of parts that contribute interaction columns beside the four tables.
pub const INTERACTION_PARTS: usize = 26;

/// The interaction columns of the four tables.
#[derive(Clone, Debug)]
pub struct TableColumns {
    pub range7: Vec<ColumnEval>,
    pub range13: Vec<ColumnEval>,
    pub signed_h: Vec<ColumnEval>,
    pub signed_formula: Vec<ColumnEval>,
}

impl TableColumns {
    /// Each table's columns run over the fractions of its values, with the
    /// claimed sums given.
    pub open spec fn run(
        &self,
        uses: TableUses,
        relations: P256CurrentAirRelations,
        sums: TableSums,
    ) -> bool {
        let h = uses.signed_h_table;
        let f = uses.signed_formula_table;
        &&& is_interaction(
            self.range7@,
            7,
            provider_fractions(
                range_multiplicities(7, nonzero_counts(uses.use_counts@)),
                range_values(7),
                relations.range7,
            ),
            sums.range7,
        )
        &&& is_interaction(
            self.range13@,
            13,
            provider_fractions(
                range_multiplicities(13, uses.range13@),
                range_values(13),
                relations.projective_rcb_air.range13,
            ),
            sums.range13,
        )
        &&& is_interaction(
            self.signed_h@,
            h.log_size as nat,
            provider_fractions(
                carry_multiplicities(h.log_size as nat, h.bound as int, uses.signed_h@),
                carry_values(h.log_size as nat, h.bound as int),
                relations.hinted_signed_h,
            ),
            sums.signed_h,
        )
        &&& is_interaction(
            self.signed_formula@,
            f.log_size as nat,
            provider_fractions(
                carry_multiplicities(f.log_size as nat, f.bound as int, uses.signed_formula@),
                carry_values(f.log_size as nat, f.bound as int),
                relations.hinted_signed_formula,
            ),
            sums.signed_formula,
        )
    }
}

/// The groups of interaction columns in the order of the components: the
/// seven-bit table follows the prepared points, the other tables the hinted
/// products.
pub open spec fn interaction_groups(
    parts: Seq<Seq<ColumnCells>>,
    tables: TableColumns,
) -> Seq<Seq<ColumnCells>> {
    parts.take(20) + seq![all_cells(tables.range7@)] + parts.subrange(20, 25) + seq![
        all_cells(tables.range13@),
        all_cells(tables.signed_h@),
        all_cells(tables.signed_formula@),
    ] + parts.skip(25)
}

/// The claim that the sums of the parts and of the tables make up.
pub open spec fn assembles(
    claim: P256CurrentAirInteractionClaim,
    sums: InteractionSums,
    tables: TableSums,
) -> bool {
    &&& claim.scalar_setup.claimed_sum == sums.scalar_setup
    &&& claim.cert_scalar_inputs.claimed_sum == sums.cert_scalar_inputs
    &&& claim.fake_glv_scalar_air.claimed_sum == sums.fake_glv_scalar_air
    &&& claim.fake_glv_selector_air.claimed_sum == sums.fake_glv_selector_air
    &&& claim.scalar_mod_muls.scalar_mod_mul.claimed_sum == sums.scalar_mod_mul
    &&& claim.scalar_mod_muls.range13.claimed_sum == sums.scalar_mod_mul_range13
    &&& claim.scalar_mod_muls.signed_carry.claimed_sum == sums.scalar_mod_mul_signed_carry
    &&& claim.prepared_table_projective_source.provider.claimed_sum == sums.prepared_table_pinned
    &&& claim.prepared_table_projective_source.consumer.claimed_sum == sf_sum(
        sf_sum(sums.prepared_consumer_ec_row, sums.prepared_consumer_mul_result),
        sums.prepared_consumer_header_yield,
    )
    &&& claim.prepared_table_pinned.claimed_sum == sums.prepared_table_pinned
    &&& claim.prepared_table_pinned.final_check_hint.claimed_sum == sums.final_check_hint
    &&& claim.fake_glv_projective_source.provider.claimed_sum == sums.fake_glv_provider
    &&& claim.fake_glv_projective_source.consumer.claimed_sum == sf_sum(
        sf_sum(sums.fake_glv_consumer_ec_row, sums.fake_glv_consumer_mul_result),
        sums.fake_glv_consumer_header_yield,
    )
    &&& claim.fake_glv_chain_expansion.expansion_claimed_sum == sums.expansion_provider
    &&& claim.fake_glv_chain_expansion.primitive_claimed_sum == sums.expansion_consumer
    &&& claim.fake_glv_chain_continuity.claimed_sum == sums.continuity
    &&& claim.fake_glv_direct_prepared_operand.provider.claimed_sum == sums.direct_provider
    &&& claim.fake_glv_direct_prepared_operand.consumer.claimed_sum == sums.direct_consumer
    &&& claim.fake_glv_signed_selector_operand.provider.claimed_sum == sums.signed_provider
    &&& claim.fake_glv_signed_selector_operand.consumer.claimed_sum == sums.signed_consumer
    &&& claim.fake_glv_lsb_correction_operand.provider.claimed_sum == sums.lsb_provider
    &&& claim.fake_glv_lsb_correction_operand.consumer.claimed_sum == sums.lsb_consumer
    &&& claim.fake_glv_prepared_point_source.provider.claimed_sum == sf_sum(
        sums.prepared_point_provider,
        sums.prepared_point_range7_consumer,
    )
    &&& claim.fake_glv_prepared_point_source.consumer.claimed_sum == sums.prepared_point_consumer
    &&& claim.prepared_point_range7.claimed_sum == tables.range7
    &&& claim.final_check.claimed_sum == sums.final_check
    &&& claim.public_key_on_curve.claimed_sum == sums.public_key_on_curve
    &&& claim.hinted_mul.claimed_sum == sums.hinted_mul
    &&& claim.hinted_mul.gamma_range13 == sums.hinted_gamma_range13
    &&& claim.hinted_mul.gamma_signed == sums.hinted_gamma_signed
    &&& claim.hinted_mul.range13 == tables.range13
    &&& claim.hinted_mul.signed_h == tables.signed_h
    &&& claim.hinted_mul.signed_formula == tables.signed_formula
    &&& claim.final_add.claimed_sum == sums.final_add
}

/// What the lookup tables claim.
#[derive(Clone, Copy, Debug, PartialEq, Eq, Structural)]
pub struct TableSums {
    pub range7: SecureField,
    pub range13: SecureField,
    pub signed_h: SecureField,
    pub signed_formula: SecureField,
}

impl TableSums {
    pub open spec fn wf(self) -> bool {
        self.range7.wf() && self.range13.wf() && self.signed_h.wf() && self.signed_formula.wf()
    }

    /// Each table claims the opposite of what its users take.
    pub open spec fn serve(self, uses: TableUses, relations: P256CurrentAirRelations) -> bool {
        &&& self.range7 == sf_negation(
            sf_sum_of(consumer_terms(nonzero_counts(uses.use_counts@), relations.range7)),
        )
        &&& self.range13 == sf_negation(
            sf_sum_of(consumer_terms(uses.range13@, relations.projective_rcb_air.range13)),
        )
        &&& self.signed_h == sf_negation(
            sf_sum_of(carry_consumer_terms(uses.signed_h@, relations.hinted_signed_h)),
        )
        &&& self.signed_formula == sf_negation(
            sf_sum_of(carry_consumer_terms(uses.signed_formula@, relations.hinted_signed_formula)),
        )
    }
}

/// No value of a table meets the pole of the relation it is looked up in.
pub open spec fn tables_avoid_poles(uses: TableUses, relations: P256CurrentAirRelations) -> bool {
    let h = uses.signed_h_table;
    let f = uses.signed_formula_table;
    &&& relations.range7.wf() && avoids_pole(range_values(7), relations.range7)
    &&& relations.projective_rcb_air.range13.wf() && avoids_pole(
        range_values(13),
        relations.projective_rcb_air.range13,
    )
    &&& relations.hinted_signed_h.wf() && avoids_pole(
        carry_values(h.log_size as nat, h.bound as int),
        relations.hinted_signed_h,
    )
    &&& relations.hinted_signed_formula.wf() && avoids_pole(
        carry_values(f.log_size as nat, f.bound as int),
        relations.hinted_signed_formula,
    )
}

/// Stored cells are reduced and avoid the pole where the listed values do.
proof fn lemma_stored_facts(
    column: ColumnEval,
    k: nat,
    listed: Seq<M31>,
    relation: RangeCheckRelation,
)
    requires
        column.stores(k, listed),
    ensures
        reduced_cells(listed) ==> reduced_cells(column.values@),
        avoids_pole(listed, relation) ==> avoids_pole(column.values@, relation),
{
    lemma_stored_cells(column, k, listed);
    if reduced_cells(listed) {
        assert forall|i: int| 0 <= i < column.values@.len() implies (
        #[trigger] column.values@[i]).wf() by {
            let p = row_position(i as nat, k) as int;
            assert(column.values@[i] == listed[p]);
            assert(listed[p].wf());
        }
    }
    if avoids_pole(listed, relation) {
        assert forall|i: int| 0 <= i < column.values@.len() implies relation.spec_combine(
            #[trigger] column.values@[i],
        ) != sf_zero() by {
            let p = row_position(i as nat, k) as int;
            assert(column.values@[i] == listed[p]);
            assert(relation.spec_combine(listed[p]) != sf_zero());
        }
    }
}

/// The cells of the tables are reduced.
proof fn lemma_listed_reduced(k: nat, bound: int, uses: Seq<M31>, carries: Seq<i64>)
    requires
        k <= 30,
    ensures
        reduced_cells(range_values(k)),
        reduced_cells(range_multiplicities(k, uses)),
        reduced_cells(carry_values(k, bound)),
        reduced_cells(carry_multiplicities(k, bound, carries)),
{
    assert forall|v: int| (#[trigger] crate::fields::m31_of(v)).wf() by {
        lemma_m31_of(v);
    }
    lemma2_to64();
    if k < 31 {
        vstd::arithmetic::power2::lemma_pow2_strictly_increases(k, 31);
    }
}

/// The fractions of two stored columns in coset order are those of the listed
/// values.
proof fn lemma_stored_fractions(
    multiplicity: ColumnEval,
    value: ColumnEval,
    k: nat,
    multiplicities: Seq<M31>,
    values: Seq<M31>,
    relation: RangeCheckRelation,
)
    requires
        multiplicity.stores(k, multiplicities),
        value.stores(k, values),
    ensures
        coset_order(provider_fractions(multiplicity.values@, value.values@, relation), k)
            == provider_fractions(multiplicities, values, relation),
{
    law_storage_order_is_a_permutation(k);
    let stored = coset_order(
        provider_fractions(multiplicity.values@, value.values@, relation),
        k,
    );
    let listed = provider_fractions(multiplicities, values, relation);
    assert forall|i: int| 0 <= i < listed.len() implies stored[i] == listed[i] by {
        assert(stored_row(i as nat, k) < pow2(k));
        assert(multiplicity.values@[stored_row(i as nat, k) as int] == multiplicities[i]);
        assert(value.values@[stored_row(i as nat, k) as int] == values[i]);
    }
    assert(stored =~= listed);
}

/// The interaction columns of a range table and what it claims, given that it
/// counts its uses.
fn serve_range(
    log_size: u32,
    multiplicity: &ColumnEval,
    relation: &RangeCheckRelation,
    Ghost(uses): Ghost<Seq<M31>>,
) -> (r: (Vec<ColumnEval>, SecureField))
    requires
        1 <= log_size <= 30,
        forall|i: int| 0 <= i < uses.len() ==> (#[trigger] uses[i]).0 < pow2(log_size as nat),
        multiplicity.stores(log_size as nat, range_multiplicities(log_size as nat, uses)),
        relation.wf(),
        avoids_pole(range_values(log_size as nat), *relation),
    ensures
        r.1 == sf_negation(sf_sum_of(consumer_terms(uses, *relation))),
        r.1.wf(),
        is_interaction(
            r.0@,
            log_size as nat,
            provider_fractions(
                range_multiplicities(log_size as nat, uses),
                range_values(log_size as nat),
                *relation,
            ),
            r.1,
        ),
{
    let value: ColumnEval = RangeCheckClaim::new(log_size).gen_preprocessed_column();
    proof {
        let k = log_size as nat;
        lemma_listed_reduced(k, 0, uses, Seq::empty());
        lemma_stored_facts(value, k, range_values(k), *relation);
        lemma_stored_facts(*multiplicity, k, range_multiplicities(k, uses), *relation);
        lemma_stored_fractions(
            *multiplicity,
            value,
            k,
            range_multiplicities(k, uses),
            range_values(k),
            *relation,
        );
    }
    let (columns, claim) = RangeCheckInteractionClaim::gen_interaction_trace(
        multiplicity,
        &value,
        relation,
    );
    proof {
        law_provider_balances_uses(*multiplicity, value, log_size as nat, uses, *relation);
        let taken = sf_sum_of(consumer_terms(uses, *relation));
        lemma_sum_of_reduced(consumer_terms(uses, *relation));
        law_sum_commutes(claim.claimed_sum, taken);
        law_sum_zero(taken, claim.claimed_sum);
    }
    (columns, claim.claimed_sum)
}

/// The interaction columns of a signed-carry table and what it claims, given
/// that it counts its uses.
fn serve_carries(
    table: &SignedCarryRangeClaim,
    multiplicity: &ColumnEval,
    relation: &RangeCheckRelation,
    Ghost(uses): Ghost<Seq<i64>>,
) -> (r: (Vec<ColumnEval>, SecureField))
    requires
        table.wf(),
        forall|i: int|
            0 <= i < uses.len() ==> -table.bound <= #[trigger] uses[i] <= table.bound,
        multiplicity.stores(
            table.log_size as nat,
            carry_multiplicities(table.log_size as nat, table.bound as int, uses),
        ),
        relation.wf(),
        avoids_pole(carry_values(table.log_size as nat, table.bound as int), *relation),
    ensures
        r.1 == sf_negation(sf_sum_of(carry_consumer_terms(uses, *relation))),
        r.1.wf(),
        is_interaction(
            r.0@,
            table.log_size as nat,
            provider_fractions(
                carry_multiplicities(table.log_size as nat, table.bound as int, uses),
                carry_values(table.log_size as nat, table.bound as int),
                *relation,
            ),
            r.1,
        ),
{
    let value: ColumnEval = table.gen_value_column();
    proof {
        let k = table.log_size as nat;
        let b = table.bound as int;
        lemma_listed_reduced(k, b, Seq::empty(), uses);
        lemma_stored_facts(value, k, carry_values(k, b), *relation);
        lemma_stored_facts(*multiplicity, k, carry_multiplicities(k, b, uses), *relation);
        lemma_stored_fractions(
            *multiplicity,
            value,
            k,
            carry_multiplicities(k, b, uses),
            carry_values(k, b),
            *relation,
        );
    }
    let (columns, claim) = RangeCheckInteractionClaim::gen_interaction_trace(
        multiplicity,
        &value,
        relation,
    );
    proof {
        law_signed_carry_provider_balances_uses(*multiplicity, value, *table, uses, *relation);
        let taken = sf_sum_of(carry_consumer_terms(uses, *relation));
        lemma_sum_of_reduced(carry_consumer_terms(uses, *relation));
        law_sum_commutes(claim.claimed_sum, taken);
        law_sum_zero(taken, claim.claimed_sum);
    }
    (columns, claim.claimed_sum)
}

/// The interaction columns of the four tables of a base trace, and what the
/// tables claim.
pub fn serve_tables(base: &P256CurrentAirBaseTrace, relations: &P256CurrentAirRelations) -> (r: (
    TableColumns,
    TableSums,
))
    requires
        base.counts_uses(),
        tables_avoid_poles(base.uses, *relations),
    ensures
        r.1.wf(),
        r.1.serve(base.uses, *relations),
        r.0.run(base.uses, *relations, r.1),
{
    proof {
        lemma2_to64();
        lemma_kept_counts(base.uses.use_counts@);
    }
    let range7 = serve_range(
        RANGE7_BITS,
        &base.prepared_point_range7_multiplicity,
        &relations.range7,
        Ghost(nonzero_counts(base.uses.use_counts@)),
    );
    let range13 = serve_range(
        RANGE13_BITS,
        &base.hinted_range13_multiplicity,
        &relations.projective_rcb_air.range13,
        Ghost(base.uses.range13@),
    );
    let signed_h = serve_carries(
        &base.uses.signed_h_table,
        &base.hinted_signed_h_multiplicity,
        &relations.hinted_signed_h,
        Ghost(base.uses.signed_h@),
    );
    let signed_formula = serve_carries(
        &base.uses.signed_formula_table,
        &base.hinted_signed_formula_multiplicity,
        &relations.hinted_signed_formula,
        Ghost(base.uses.signed_formula@),
    );
    (
        TableColumns {
            range7: range7.0,
            range13: range13.0,
            signed_h: signed_h.0,
            signed_formula: signed_formula.0,
        },
        TableSums {
            range7: range7.1,
            range13: range13.1,
            signed_h: signed_h.1,
            signed_formula: signed_formula.1,
        },
    )
}

/// The interaction claim, from the sums of the parts and of the tables. A
/// consumer of ladder rows claims its row, product and header terms together,
/// and the provider of prepared points claims its table uses along.
pub fn assemble_interaction_claim(sums: &InteractionSums, tables: &TableSums) -> (r:
    P256CurrentAirInteractionClaim)
    requires
        sums.wf(),
        tables.wf(),
    ensures
        assembles(r, *sums, *tables),
        r.wf(),
{
    P256CurrentAirInteractionClaim {
        scalar_setup: ComponentInteractionClaim { claimed_sum: sums.scalar_setup },
        cert_scalar_inputs: ComponentInteractionClaim { claimed_sum: sums.cert_scalar_inputs },
        fake_glv_scalar_air: ComponentInteractionClaim { claimed_sum: sums.fake_glv_scalar_air },
        fake_glv_selector_air: ComponentInteractionClaim {
            claimed_sum: sums.fake_glv_selector_air,
        },
        scalar_mod_muls: ScalarModMulProofSliceInteractionClaim {
            scalar_mod_mul: ComponentInteractionClaim { claimed_sum: sums.scalar_mod_mul },
            range13: RangeCheckInteractionClaim { claimed_sum: sums.scalar_mod_mul_range13 },
            signed_carry: RangeCheckInteractionClaim {
                claimed_sum: sums.scalar_mod_mul_signed_carry,
            },
        },
        prepared_table_projective_source: pair(
            sums.prepared_table_pinned,
            sums.prepared_consumer_ec_row.plus(sums.prepared_consumer_mul_result).plus(
                sums.prepared_consumer_header_yield,
            ),
        ),
        prepared_table_pinned: PinnedTableClaim {
            claimed_sum: sums.prepared_table_pinned,
            final_check_hint: ComponentInteractionClaim { claimed_sum: sums.final_check_hint },
        },
        fake_glv_projective_source: pair(
            sums.fake_glv_provider,
            sums.fake_glv_consumer_ec_row.plus(sums.fake_glv_consumer_mul_result).plus(
                sums.fake_glv_consumer_header_yield,
            ),
        ),
        fake_glv_chain_expansion: ChainExpansionClaim {
            expansion_claimed_sum: sums.expansion_provider,
            primitive_claimed_sum: sums.expansion_consumer,
        },
        fake_glv_chain_continuity: ComponentInteractionClaim { claimed_sum: sums.continuity },
        fake_glv_direct_prepared_operand: pair(sums.direct_provider, sums.direct_consumer),
        fake_glv_signed_selector_operand: pair(sums.signed_provider, sums.signed_consumer),
        fake_glv_lsb_correction_operand: pair(sums.lsb_provider, sums.lsb_consumer),
        fake_glv_prepared_point_source: pair(
            sums.prepared_point_provider.plus(sums.prepared_point_range7_consumer),
            sums.prepared_point_consumer,
        ),
        prepared_point_range7: RangeCheckInteractionClaim { claimed_sum: tables.range7 },
        final_check: ComponentInteractionClaim { claimed_sum: sums.final_check },
        public_key_on_curve: ComponentInteractionClaim { claimed_sum: sums.public_key_on_curve },
        hinted_mul: HintedMulProofInteractionClaim {
            claimed_sum: sums.hinted_mul,
            gamma_range13: sums.hinted_gamma_range13,
            gamma_signed: sums.hinted_gamma_signed,
            range13: tables.range13,
            signed_h: tables.signed_h,
            signed_formula: tables.signed_formula,
        },
        final_add: ComponentInteractionClaim { claimed_sum: sums.final_add },
    }
}

fn pair(provider: SecureField, consumer: SecureField) -> (r: ProviderConsumerClaim)
    ensures
        r.provider.claimed_sum == provider,
        r.consumer.claimed_sum == consumer,
{
    ProviderConsumerClaim {
        provider: ComponentInteractionClaim { claimed_sum: provider },
        consumer: ComponentInteractionClaim { claimed_sum: consumer },
    }
}

/// Appends the columns of a run of parts, which are groups number `first` and on.
fn extend_run(
    out: &mut Vec<ColumnEval>,
    parts: &Vec<Vec<ColumnEval>>,
    from: usize,
    to: usize,
    Ghost(groups): Ghost<Seq<Seq<ColumnCells>>>,
    Ghost(first): Ghost<int>,
)
    requires
        from <= to <= parts@.len(),
        0 <= first,
        first + (to - from) <= groups.len(),
        forall|i: int|
            0 <= i < to - from ==> #[trigger] groups[first + i] == all_cells(parts@[from + i]@),
        all_cells(old(out)@) == concatenated(groups.take(first)),
    ensures
        all_cells(final(out)@) == concatenated(groups.take(first + (to - from))),
{
    let mut i: usize = from;
    while i < to
        invariant
            from <= i <= to <= parts@.len(),
            0 <= first,
            first + (to - from) <= groups.len(),
            forall|k: int|
                0 <= k < to - from ==> #[trigger] groups[first + k] == all_cells(
                    parts@[from + k]@,
                ),
            all_cells(out@) == concatenated(groups.take(first + (i - from))),
        decreases to - i,
    {
        assert(groups[first + (i - from)] == all_cells(parts@[from + (i - from)]@));
        extend_columns(out, &parts[i], Ghost(groups), Ghost(first + (i - from)));
        i = i + 1;
    }
}

/// The interaction trace: the columns of the parts and of the tables in
/// component order, and the interaction claim. The error is that of the first
/// part that failed.
pub fn gen_current_air_interaction_trace(
    base: &P256CurrentAirBaseTrace,
    relations: &P256CurrentAirRelations,
    parts: Vec<ColumnsOutcome>,
    sums: &InteractionSums,
) -> (r: Result<(Vec<ColumnEval>, P256CurrentAirInteractionClaim), P256ProofError>)
    requires
        base.counts_uses(),
        tables_avoid_poles(base.uses, *relations),
        parts@.len() == INTERACTION_PARTS,
        sums.wf(),
    ensures
        match first_error(parts@) {
            Some(e) => r == Err::<
                (Vec<ColumnEval>, P256CurrentAirInteractionClaim),
                P256ProofError,
            >(e),
            None => r matches Ok(trace) && trace.1.wf() && exists|
                columns: TableColumns,
                tables: TableSums,
            |
                #[trigger] columns.run(base.uses, *relations, tables) && tables.serve(
                    base.uses,
                    *relations,
                ) && assembles(trace.1, *sums, tables) && all_cells(trace.0@) == concatenated(
                    interaction_groups(part_cells(artifacts(parts@)), columns),
                ),
        },
{
    let ghost outcomes = parts@;
    let mut rest: Vec<ColumnsOutcome> = parts;
    proof {
        assert(outcomes.take(INTERACTION_PARTS as int) =~= outcomes);
    }
    let built: Vec<Vec<ColumnEval>> = match take_stages(&mut rest, INTERACTION_PARTS) {
        Ok(built) => built,
        Err(e) => {
            return Err(e);
        },
    };
    let (tables, table_sums) = serve_tables(base, relations);
    let claim = assemble_interaction_claim(sums, &table_sums);
    let ghost all = part_cells(built@);
    let ghost groups = interaction_groups(all, tables);
    let mut columns: Vec<ColumnEval> = Vec::new();
    proof {
        assert(groups.take(0) =~= Seq::<Seq<ColumnCells>>::empty());
        assert(all_cells(columns@) =~= Seq::<ColumnCells>::empty());
        assert forall|i: int| 0 <= i < 20 implies #[trigger] groups[0 + i] == all_cells(
            built@[0 + i]@,
        ) by {
            assert(groups[i] == all[i]);
        }
        assert forall|i: int| 0 <= i < 5 implies #[trigger] groups[21 + i] == all_cells(
            built@[20 + i]@,
        ) by {
            assert(groups[21 + i] == all[20 + i]);
        }
        assert forall|i: int| 0 <= i < 1 implies #[trigger] groups[29 + i] == all_cells(
            built@[25 + i]@,
        ) by {
            assert(groups[29 + i] == all[25 + i]);
        }
    }
    extend_run(&mut columns, &built, 0, 20, Ghost(groups), Ghost(0));
    extend_columns(&mut columns, &tables.range7, Ghost(groups), Ghost(20));
    extend_run(&mut columns, &built, 20, 25, Ghost(groups), Ghost(21));
    extend_columns(&mut columns, &tables.range13, Ghost(groups), Ghost(26));
    extend_columns(&mut columns, &tables.signed_h, Ghost(groups), Ghost(27));
    extend_columns(&mut columns, &tables.signed_formula, Ghost(groups), Ghost(28));
    extend_run(&mut columns, &built, 25, 26, Ghost(groups), Ghost(29));
    proof {
        assert(groups.take(30) =~= groups);
        assert(tables.run(base.uses, *relations, table_sums));
    }
    Ok((columns, claim))
}

/// Law: the seven-bit table and the uses that the provider of prepared points
/// claims along cancel in the aggregate balance.
pub proof fn law_range7_uses_cancel(
    uses: TableUses,
    relations: P256CurrentAirRelations,
    tables: TableSums,
    consumer: SecureField,
)
    requires
        tables.serve(uses, relations),
        consumer == sf_sum_of(consumer_terms(nonzero_counts(uses.use_counts@), relations.range7)),
    ensures
        sf_sum(tables.range7, consumer) == sf_zero(),
{
    lemma_sum_of_reduced(consumer_terms(nonzero_counts(uses.use_counts@), relations.range7));
    lemma_results_reduced(consumer, consumer);
    law_sum_zero(consumer, tables.range7);
    law_sum_commutes(consumer, tables.range7);
}

/// The sizes of a list of columns.
pub open spec fn sizes(columns: Seq<ColumnCells>) -> Seq<u32> {
    columns.map_values(|column: ColumnCells| column.0)
}

/// The columns of the groups have the sizes that the components commit, in
/// their order.
pub open spec fn commits(groups: Seq<Seq<ColumnCells>>, shapes: Seq<ComponentShape>) -> bool {
    sizes(concatenated(groups)) == trace_sizes(shapes)
}

/// Every part of the base trace has the columns that its components commit.
pub open spec fn parts_commit(
    parts: Seq<Seq<ColumnCells>>,
    tables: Seq<ColumnCells>,
    components: P256CurrentAirComponents<ComponentShape>,
) -> bool {
    let muls = components.scalar_mod_muls;
    &&& commits(seq![parts[0], parts[3]], components.scalar_setup@)
    &&& commits(seq![parts[4]], components.cert_scalar_inputs@)
    &&& commits(seq![parts[5]], components.fake_glv_scalar_air@)
    &&& commits(seq![parts[6]], components.fake_glv_selector_air@)
    &&& commits(
        seq![parts[7]],
        seq![
            muls.canonical,
            muls.ab_chunks,
            muls.qn_chunks,
            muls.accumulators,
            muls.reduction_digits,
            muls.range13,
            muls.signed_carry,
        ],
    )
    &&& commits(seq![parts[8], parts[9]], components.prepared_table_projective_source@)
    &&& commits(seq![parts[10], parts[11]], components.fake_glv_projective_source@)
    &&& commits(seq![parts[12], parts[13]], components.fake_glv_chain_expansion@)
    &&& commits(
        seq![parts[14], parts[15]],
        seq![components.fake_glv_chain_continuity, components.fake_glv_chain_schedule],
    )
    &&& commits(seq![parts[16], parts[17]], components.fake_glv_direct_prepared_operand@)
    &&& commits(seq![parts[18], parts[19]], components.fake_glv_signed_selector_operand@)
    &&& commits(seq![parts[20], parts[21]], components.fake_glv_lsb_correction_operand@)
    &&& commits(seq![parts[22], parts[23]], components.fake_glv_prepared_point_source@)
    &&& commits(seq![seq![tables[0]]], seq![components.prepared_point_range7])
    &&& commits(seq![parts[1]], components.final_check@)
    &&& commits(seq![parts[2]], components.public_key_on_curve@)
    &&& commits(
        seq![
            parts[24],
            parts[25],
            parts[26],
            seq![tables[1]],
            seq![tables[2]],
            seq![tables[3]],
        ],
        components.hinted_mul@,
    )
    &&& commits(seq![parts[27]], components.final_add@)
}

/// Groups side by side hold their columns side by side.
proof fn lemma_concatenated_sum(a: Seq<Seq<ColumnCells>>, b: Seq<Seq<ColumnCells>>)
    ensures
        concatenated(a + b) == concatenated(a) + concatenated(b),
    decreases b.len(),
{
    if b.len() == 0 {
        assert(a + b =~= a);
        assert(concatenated(a) + concatenated(b) =~= concatenated(a));
    } else {
        assert((a + b).drop_last() =~= a + b.drop_last());
        lemma_concatenated_sum(a, b.drop_last());
        assert(concatenated(a + b) =~= concatenated(a) + concatenated(b));
    }
}

/// Components side by side commit their columns side by side.
proof fn lemma_trace_sizes_sum(a: Seq<ComponentShape>, b: Seq<ComponentShape>)
    ensures
        trace_sizes(a + b) == trace_sizes(a) + trace_sizes(b),
    decreases b.len(),
{
    if b.len() == 0 {
        assert(a + b =~= a);
        assert(trace_sizes(a) + trace_sizes(b) =~= trace_sizes(a));
    } else {
        assert((a + b).drop_last() =~= a + b.drop_last());
        lemma_trace_sizes_sum(a, b.drop_last());
        assert(trace_sizes(a + b) =~= trace_sizes(a) + trace_sizes(b));
    }
}

/// Groups and components can be put side by side.
proof fn lemma_commits_sum(
    g: Seq<Seq<ColumnCells>>,
    c: Seq<ComponentShape>,
    h: Seq<Seq<ColumnCells>>,
    d: Seq<ComponentShape>,
)
    requires
        commits(g, c),
        commits(h, d),
    ensures
        commits(g + h, c + d),
{
    lemma_concatenated_sum(g, h);
    lemma_trace_sizes_sum(c, d);
    assert(sizes(concatenated(g) + concatenated(h)) =~= sizes(concatenated(g)) + sizes(
        concatenated(h),
    ));
}

/// Law: the base columns lie in the order of the components that commit them.
/// Where every part has the columns of its components, the sizes of the base
/// columns are those of the trace tree, in order.
pub proof fn law_base_columns_follow_the_components(
    parts: Seq<Seq<ColumnCells>>,
    tables: Seq<ColumnCells>,
    components: P256CurrentAirComponents<ComponentShape>,
)
    requires
        parts_commit(parts, tables, components),
    ensures
        sizes(concatenated(base_groups(parts, tables))) == trace_sizes(
            components.spec_components(),
        ),
{
    let muls = components.scalar_mod_muls;
    let seven = seq![
        muls.canonical,
        muls.ab_chunks,
        muls.qn_chunks,
        muls.accumulators,
        muls.reduction_digits,
        muls.range13,
        muls.signed_carry,
    ];
    // The scalar parts.
    let c = components.scalar_setup@;
    let g = seq![parts[0], parts[3]];
    lemma_commits_sum(g, c, seq![parts[4]], components.cert_scalar_inputs@);
    let c = c + components.cert_scalar_inputs@;
    let g = g + seq![parts[4]];
    lemma_commits_sum(g, c, seq![parts[5]], components.fake_glv_scalar_air@);
    let c = c + components.fake_glv_scalar_air@;
    let g = g + seq![parts[5]];
    lemma_commits_sum(g, c, seq![parts[6]], components.fake_glv_selector_air@);
    let c = c + components.fake_glv_selector_air@;
    let g = g + seq![parts[6]];
    lemma_commits_sum(g, c, seq![parts[7]], seven);
    let scalar = c + seven;
    let scalar_groups = g + seq![parts[7]];
    assert(scalar == components.spec_scalar_components());
    // The table and the ladder.
    let c = components.prepared_table_projective_source@;
    let g = seq![parts[8], parts[9]];
    let d = components.fake_glv_projective_source@;
    lemma_commits_sum(g, c, seq![parts[10], parts[11]], d);
    let c = c + d;
    let g = g + seq![parts[10], parts[11]];
    let d = components.fake_glv_chain_expansion@;
    lemma_commits_sum(g, c, seq![parts[12], parts[13]], d);
    let c = c + d;
    let g = g + seq![parts[12], parts[13]];
    let d = seq![components.fake_glv_chain_continuity, components.fake_glv_chain_schedule];
    lemma_commits_sum(g, c, seq![parts[14], parts[15]], d);
    let c = c + d;
    let g = g + seq![parts[14], parts[15]];
    let d = components.fake_glv_direct_prepared_operand@;
    lemma_commits_sum(g, c, seq![parts[16], parts[17]], d);
    let c = c + d;
    let g = g + seq![parts[16], parts[17]];
    let d = components.fake_glv_signed_selector_operand@;
    lemma_commits_sum(g, c, seq![parts[18], parts[19]], d);
    let c = c + d;
    let g = g + seq![parts[18], parts[19]];
    let d = components.fake_glv_lsb_correction_operand@;
    lemma_commits_sum(g, c, seq![parts[20], parts[21]], d);
    let c = c + d;
    let g = g + seq![parts[20], parts[21]];
    let d = components.fake_glv_prepared_point_source@;
    lemma_commits_sum(g, c, seq![parts[22], parts[23]], d);
    let c = c + d;
    let g = g + seq![parts[22], parts[23]];
    let d = seq![components.prepared_point_range7];
    lemma_commits_sum(g, c, seq![seq![tables[0]]], d);
    let ladder = c + d;
    let ladder_groups = g + seq![seq![tables[0]]];
    assert(ladder == components.spec_ladder_components());
    // The result.
    let c = components.final_check@;
    let g = seq![parts[1]];
    lemma_commits_sum(g, c, seq![parts[2]], components.public_key_on_curve@);
    let c = c + components.public_key_on_curve@;
    let g = g + seq![parts[2]];
    let hinted = seq![
        parts[24],
        parts[25],
        parts[26],
        seq![tables[1]],
        seq![tables[2]],
        seq![tables[3]],
    ];
    lemma_commits_sum(g, c, hinted, components.hinted_mul@);
    let c = c + components.hinted_mul@;
    let g = g + hinted;
    lemma_commits_sum(g, c, seq![parts[27]], components.final_add@);
    let result = c + components.final_add@;
    let result_groups = g + seq![parts[27]];
    assert(result == components.spec_result_components());
    lemma_commits_sum(scalar_groups, scalar, ladder_groups, ladder);
    lemma_commits_sum(scalar_groups + ladder_groups, scalar + ladder, result_groups, result);
    assert(scalar_groups + ladder_groups + result_groups =~= base_groups(parts, tables));
}

} // verus!
