//! The components of a proof: their order, and the sizes of the columns that
//! they commit.
use vstd::prelude::*;

verus! {

/// The seven components of the scalar multiplication slice.
#[derive(Clone, Debug)]
pub struct ScalarModMulComponents<C> {
    pub canonical: C,
    pub ab_chunks: C,
    pub qn_chunks: C,
    pub accumulators: C,
    pub reduction_digits: C,
    pub range13: C,
    pub signed_carry: C,
}

/// Every component of a proof, by part.
#[derive(Clone, Debug)]
pub struct P256CurrentAirComponents<C> {
    pub scalar_setup: Vec<C>,
    pub cert_scalar_inputs: Vec<C>,
    pub fake_glv_scalar_air: Vec<C>,
    pub fake_glv_selector_air: Vec<C>,
    pub scalar_mod_muls: ScalarModMulComponents<C>,
    pub prepared_table_projective_source: Vec<C>,
    pub fake_glv_projective_source: Vec<C>,
    pub fake_glv_chain_expansion: Vec<C>,
    pub fake_glv_chain_continuity: C,
    pub fake_glv_chain_schedule: C,
    pub fake_glv_direct_prepared_operand: Vec<C>,
    pub fake_glv_signed_selector_operand: Vec<C>,
    pub fake_glv_lsb_correction_operand: Vec<C>,
    pub fake_glv_prepared_point_source: Vec<C>,
    pub prepared_point_range7: C,
    pub final_check: Vec<C>,
    pub public_key_on_curve: Vec<C>,
    pub hinted_mul: Vec<C>,
    pub final_add: Vec<C>,
}

/// Appends references to the items of a list.
fn extend_refs<'a, C>(out: &mut Vec<&'a C>, items: &'a Vec<C>)
    ensures
        final(out)@.len() == old(out)@.len() + items@.len(),
        forall|i: int| 0 <= i < old(out)@.len() ==> #[trigger] final(out)@[i] == old(out)@[i],
        forall|i: int|
            old(out)@.len() <= i < final(out)@.len() ==> *(#[trigger] final(out)@[i])
                == items@[i - old(out)@.len()],
{
    let ghost start = out@;
    let mut i: usize = 0;
    while i < items.len()
        invariant
            i <= items@.len(),
            out@.len() == start.len() + i,
            forall|k: int| 0 <= k < start.len() ==> #[trigger] out@[k] == start[k],
            forall|k: int|
                start.len() <= k < out@.len() ==> *(#[trigger] out@[k]) == items@[k - start.len()],
        decreases items@.len() - i,
    {
        out.push(&items[i]);
        i = i + 1;
    }
}

/// A list of references refers to the given items, one by one.
pub open spec fn refers_to<C>(list: Seq<&C>, items: Seq<C>) -> bool {
    &&& list.len() == items.len()
    &&& forall|i: int| 0 <= i < items.len() ==> *(#[trigger] list[i]) == items[i]
}

impl<C> P256CurrentAirComponents<C> {
    /// The components in the order in which their columns are committed.
    pub open spec fn spec_components(&self) -> Seq<C> {
        self.spec_scalar_components() + self.spec_ladder_components()
            + self.spec_result_components()
    }

    /// Components of the scalar part.
    pub open spec fn spec_scalar_components(&self) -> Seq<C> {
        self.scalar_setup@ + self.cert_scalar_inputs@ + self.fake_glv_scalar_air@
            + self.fake_glv_selector_air@ + seq![
            self.scalar_mod_muls.canonical,
            self.scalar_mod_muls.ab_chunks,
            self.scalar_mod_muls.qn_chunks,
            self.scalar_mod_muls.accumulators,
            self.scalar_mod_muls.reduction_digits,
            self.scalar_mod_muls.range13,
            self.scalar_mod_muls.signed_carry,
        ]
    }

    /// Components of the table and of the ladder.
    pub open spec fn spec_ladder_components(&self) -> Seq<C> {
        self.prepared_table_projective_source@ + self.fake_glv_projective_source@
            + self.fake_glv_chain_expansion@ + seq![
            self.fake_glv_chain_continuity,
            self.fake_glv_chain_schedule,
        ] + self.fake_glv_direct_prepared_operand@ + self.fake_glv_signed_selector_operand@
            + self.fake_glv_lsb_correction_operand@ + self.fake_glv_prepared_point_source@ + seq![
            self.prepared_point_range7,
        ]
    }

    /// Components of the final check.
    pub open spec fn spec_result_components(&self) -> Seq<C> {
        self.final_check@ + self.public_key_on_curve@ + self.hinted_mul@ + self.final_add@
    }

    fn scalar_components(&self) -> (r: Vec<&C>)
        ensures
            refers_to(r@, self.spec_scalar_components()),
    {
        let mut components: Vec<&C> = Vec::new();
        extend_refs(&mut components, &self.scalar_setup);
        extend_refs(&mut components, &self.cert_scalar_inputs);
        extend_refs(&mut components, &self.fake_glv_scalar_air);
        extend_refs(&mut components, &self.fake_glv_selector_air);
        components.push(&self.scalar_mod_muls.canonical);
        components.push(&self.scalar_mod_muls.ab_chunks);
        components.push(&self.scalar_mod_muls.qn_chunks);
        components.push(&self.scalar_mod_muls.accumulators);
        components.push(&self.scalar_mod_muls.reduction_digits);
        components.push(&self.scalar_mod_muls.range13);
        components.push(&self.scalar_mod_muls.signed_carry);
        components
    }

    fn ladder_components(&self) -> (r: Vec<&C>)
        ensures
            refers_to(r@, self.spec_ladder_components()),
    {
        let mut components: Vec<&C> = Vec::new();
        extend_refs(&mut components, &self.prepared_table_projective_source);
        extend_refs(&mut components, &self.fake_glv_projective_source);
        extend_refs(&mut components, &self.fake_glv_chain_expansion);
        components.push(&self.fake_glv_chain_continuity);
        components.push(&self.fake_glv_chain_schedule);
        extend_refs(&mut components, &self.fake_glv_direct_prepared_operand);
        extend_refs(&mut components, &self.fake_glv_signed_selector_operand);
        extend_refs(&mut components, &self.fake_glv_lsb_correction_operand);
        extend_refs(&mut components, &self.fake_glv_prepared_point_source);
        components.push(&self.prepared_point_range7);
        components
    }

    fn result_components(&self) -> (r: Vec<&C>)
        ensures
            refers_to(r@, self.spec_result_components()),
    {
        let mut components: Vec<&C> = Vec::new();
        extend_refs(&mut components, &self.final_check);
        extend_refs(&mut components, &self.public_key_on_curve);
        extend_refs(&mut components, &self.hinted_mul);
        extend_refs(&mut components, &self.final_add);
        components
    }

    /// The components in the order in which their columns are committed.
    pub fn components(&self) -> (r: Vec<&C>)
        ensures
            refers_to(r@, self.spec_components()),
    {
        let mut components: Vec<&C> = self.scalar_components();
        let mut ladder: Vec<&C> = self.ladder_components();
        let mut result: Vec<&C> = self.result_components();
        components.append(&mut ladder);
        components.append(&mut result);
        components
    }

    /// The components as the prover walks them: in the order of the verifier.
    pub fn component_provers(&self) -> (r: Vec<&C>)
        ensures
            refers_to(r@, self.spec_components()),
    {
        self.components()
    }
}

/// The columns that one component reads and commits, by logarithm of size.
#[derive(Clone, Debug)]
pub struct ComponentShape {
    /// Positions in the list of preprocessed columns.
    pub preprocessed_column_indices: Vec<usize>,
    pub preprocessed: Vec<u32>,
    pub trace: Vec<u32>,
    pub interaction: Vec<u32>,
    pub max_constraint_log_degree_bound: u32,
}

/// Sizes of the columns of a proof, per commitment tree.
#[derive(Clone, Debug)]
pub struct TreeLayout {
    pub preprocessed: Vec<u32>,
    pub trace: Vec<u32>,
    pub interaction: Vec<u32>,
}

impl ComponentShape {
    /// There is one size for each column that the component reads.
    pub open spec fn wf(&self, columns: int) -> bool {
        &&& self.preprocessed_column_indices@.len() == self.preprocessed@.len()
        &&& forall|k: int|
            0 <= k < self.preprocessed@.len() ==> (#[trigger] self.preprocessed_column_indices@[k])
                < columns
    }

    /// The component reads column `column`, as one of size `log_size`.
    pub open spec fn reads(&self, column: int, log_size: u32) -> bool {
        exists|k: int|
            0 <= k < self.preprocessed@.len() && #[trigger] self.preprocessed_column_indices@[k]
                == column && self.preprocessed@[k] == log_size
    }
}

/// Some component reads the column as one of the given size.
pub open spec fn read_as(shapes: Seq<ComponentShape>, column: int, log_size: u32) -> bool {
    exists|c: int| 0 <= c < shapes.len() && (#[trigger] shapes[c]).reads(column, log_size)
}

/// Every reader of a column agrees on its size.
pub open spec fn consistent(shapes: Seq<ComponentShape>) -> bool {
    forall|column: int, a: u32, b: u32|
        #[trigger] read_as(shapes, column, a) && #[trigger] read_as(shapes, column, b) ==> a == b
}

/// The column has a reader.
pub open spec fn is_read(shapes: Seq<ComponentShape>, column: int) -> bool {
    exists|log_size: u32| read_as(shapes, column, log_size)
}

/// Every column has a reader.
pub open spec fn all_read(shapes: Seq<ComponentShape>, columns: int) -> bool {
    forall|column: int| 0 <= column < columns ==> #[trigger] is_read(shapes, column)
}

/// Sizes of the trace columns of the components, one after the other.
pub open spec fn trace_sizes(shapes: Seq<ComponentShape>) -> Seq<u32>
    decreases shapes.len(),
{
    if shapes.len() == 0 {
        Seq::empty()
    } else {
        trace_sizes(shapes.drop_last()) + shapes.last().trace@
    }
}

/// Sizes of the interaction columns of the components, one after the other.
pub open spec fn interaction_sizes(shapes: Seq<ComponentShape>) -> Seq<u32>
    decreases shapes.len(),
{
    if shapes.len() == 0 {
        Seq::empty()
    } else {
        interaction_sizes(shapes.drop_last()) + shapes.last().interaction@
    }
}

/// The largest constraint degree bound, or zero.
pub open spec fn largest_bound(shapes: Seq<ComponentShape>) -> u32
    decreases shapes.len(),
{
    if shapes.len() == 0 {
        0
    } else {
        let front = largest_bound(shapes.drop_last());
        if shapes.last().max_constraint_log_degree_bound > front {
            shapes.last().max_constraint_log_degree_bound
        } else {
            front
        }
    }
}

fn extend_sizes(out: &mut Vec<u32>, sizes: &Vec<u32>)
    ensures
        final(out)@ == old(out)@ + sizes@,
{
    let ghost start = out@;
    let mut i: usize = 0;
    while i < sizes.len()
        invariant
            i <= sizes@.len(),
            out@ == start + sizes@.take(i as int),
        decreases sizes@.len() - i,
    {
        out.push(sizes[i]);
        i = i + 1;
    }
    proof {
        assert(sizes@.take(i as int) =~= sizes@);
    }
}

/// The items that a list of references refers to.
pub open spec fn referents<C>(list: Seq<&C>) -> Seq<C> {
    list.map_values(|item: &C| *item)
}

/// Sizes of the preprocessed columns: what their readers agree on.
pub fn merge_preprocessed_bounds(shapes: &Vec<&ComponentShape>, columns: usize) -> (r: Vec<u32>)
    requires
        forall|c: int| 0 <= c < shapes@.len() ==> (#[trigger] shapes@[c]).wf(columns as int),
        consistent(referents(shapes@)),
        all_read(referents(shapes@), columns as int),
    ensures
        r@.len() == columns,
        forall|column: int, log_size: u32|
            0 <= column < columns && #[trigger] read_as(referents(shapes@), column, log_size)
                ==> r@[column] == log_size,
{
    let ghost all = referents(shapes@);
    let mut bounds: Vec<u32> = Vec::new();
    let mut n: usize = 0;
    while n < columns
        invariant
            n <= columns,
            bounds@.len() == n,
        decreases columns - n,
    {
        bounds.push(0);
        n = n + 1;
    }
    let mut c: usize = 0;
    while c < shapes.len()
        invariant
            c <= shapes@.len(),
            all == referents(shapes@),
            consistent(all),
            bounds@.len() == columns,
            forall|d: int| 0 <= d < shapes@.len() ==> (#[trigger] shapes@[d]).wf(columns as int),
            forall|d: int, k: int|
                0 <= d < c && 0 <= k < all[d].preprocessed@.len()
                    ==> bounds@[#[trigger] all[d].preprocessed_column_indices@[k] as int]
                    == all[d].preprocessed@[k],
        decreases shapes@.len() - c,
    {
        let shape: &ComponentShape = shapes[c];
        let mut k: usize = 0;
        assert(shapes@[c as int].wf(columns as int));
        assert(all[c as int] == *shape);
        while k < shape.preprocessed.len()
            invariant
                c < shapes@.len(),
                k <= shape.preprocessed@.len(),
                all == referents(shapes@),
                all[c as int] == *shape,
                consistent(all),
                shape.wf(columns as int),
                forall|d: int|
                    0 <= d < shapes@.len() ==> (#[trigger] shapes@[d]).wf(columns as int),
                bounds@.len() == columns,
                forall|d: int, m: int|
                    0 <= d < c && 0 <= m < all[d].preprocessed@.len()
                        ==> bounds@[#[trigger] all[d].preprocessed_column_indices@[m] as int]
                        == all[d].preprocessed@[m],
                forall|m: int|
                    0 <= m < k
                        ==> bounds@[#[trigger] shape.preprocessed_column_indices@[m] as int]
                        == shape.preprocessed@[m],
            decreases shape.preprocessed@.len() - k,
        {
            let index: usize = shape.preprocessed_column_indices[k];
            let ghost before = bounds@;
            let size: u32 = shape.preprocessed[k];
            bounds.set(index, size);
            proof {
                assert(all[c as int].reads(index as int, size)) by {
                    assert(shape.preprocessed_column_indices@[k as int] == index);
                }
                assert(read_as(all, index as int, size));
                assert forall|d: int, m: int|
                    0 <= d < c && 0 <= m < all[d].preprocessed@.len() implies bounds@[
                    #[trigger] all[d].preprocessed_column_indices@[m] as int] == all[d].preprocessed@[m] by {
                    let column = all[d].preprocessed_column_indices@[m] as int;
                    assert(shapes@[d].wf(columns as int));
                    assert(all[d].reads(column, all[d].preprocessed@[m]));
                    assert(read_as(all, column, all[d].preprocessed@[m]));
                }
                assert forall|m: int| 0 <= m < k + 1 implies bounds@[
                    #[trigger] shape.preprocessed_column_indices@[m] as int] == shape.preprocessed@[m] by {
                    let column = shape.preprocessed_column_indices@[m] as int;
                    assert(all[c as int].reads(column, shape.preprocessed@[m]));
                    assert(read_as(all, column, shape.preprocessed@[m]));
                }
            }
            k = k + 1;
        }
        c = c + 1;
    }
    proof {
        assert forall|column: int, log_size: u32|
            0 <= column < columns && #[trigger] read_as(all, column, log_size) implies bounds@[column]
            == log_size by {
            let d = choose|d: int| 0 <= d < all.len() && (#[trigger] all[d]).reads(column, log_size);
            let k = choose|k: int|
                0 <= k < all[d].preprocessed@.len()
                    && #[trigger] all[d].preprocessed_column_indices@[k] == column
                    && all[d].preprocessed@[k] == log_size;
            assert(bounds@[all[d].preprocessed_column_indices@[k] as int]
                == all[d].preprocessed@[k]);
        }
    }
    bounds
}

/// Whether the readers of every column agree on its size, and no column is left
/// unread.
pub fn bounds_agree(shapes: &Vec<&ComponentShape>, columns: usize) -> (r: bool)
    ensures
        r <==> (forall|c: int|
            0 <= c < shapes@.len() ==> (#[trigger] shapes@[c]).wf(columns as int)) && consistent(
            referents(shapes@),
        ) && all_read(referents(shapes@), columns as int),
{
    let ghost all = referents(shapes@);
    let mut bounds: Vec<u32> = Vec::new();
    let mut visited: Vec<bool> = Vec::new();
    while bounds.len() < columns
        invariant
            bounds@.len() <= columns,
            visited@.len() == bounds@.len(),
            forall|i: int| 0 <= i < visited@.len() ==> !(#[trigger] visited@[i]),
        decreases columns - bounds@.len(),
    {
        bounds.push(0);
        visited.push(false);
    }
    let mut c: usize = 0;
    while c < shapes.len()
        invariant
            c <= shapes@.len(),
            all == referents(shapes@),
            bounds@.len() == columns,
            visited@.len() == columns,
            forall|d: int| 0 <= d < c ==> (#[trigger] shapes@[d]).wf(columns as int),
            forall|d: int, k: int|
                0 <= d < c && 0 <= k < all[d].preprocessed@.len() ==> {
                    let column = #[trigger] all[d].preprocessed_column_indices@[k] as int;
                    visited@[column] && bounds@[column] == all[d].preprocessed@[k]
                },
            forall|i: int|
                0 <= i < columns && #[trigger] visited@[i] ==> read_as(all, i, bounds@[i]),
        decreases shapes@.len() - c,
    {
        let shape: &ComponentShape = shapes[c];
        assert(all[c as int] == *shape);
        if shape.preprocessed_column_indices.len() != shape.preprocessed.len() {
            assert(!shapes@[c as int].wf(columns as int));
            return false;
        }
        let mut k: usize = 0;
        while k < shape.preprocessed.len()
            invariant
                c < shapes@.len(),
                k <= shape.preprocessed@.len(),
                shape.preprocessed_column_indices@.len() == shape.preprocessed@.len(),
                all == referents(shapes@),
                all[c as int] == *shape,
                *shape == *shapes@[c as int],
                bounds@.len() == columns,
                visited@.len() == columns,
                forall|d: int| 0 <= d < c ==> (#[trigger] shapes@[d]).wf(columns as int),
                forall|m: int|
                    0 <= m < k ==> (#[trigger] shape.preprocessed_column_indices@[m]) < columns,
                forall|d: int, m: int|
                    0 <= d < c && 0 <= m < all[d].preprocessed@.len() ==> {
                        let column = #[trigger] all[d].preprocessed_column_indices@[m] as int;
                        visited@[column] && bounds@[column] == all[d].preprocessed@[m]
                    },
                forall|m: int|
                    0 <= m < k ==> {
                        let column = #[trigger] shape.preprocessed_column_indices@[m] as int;
                        visited@[column] && bounds@[column] == shape.preprocessed@[m]
                    },
                forall|i: int|
                    0 <= i < columns && #[trigger] visited@[i] ==> read_as(all, i, bounds@[i]),
            decreases shape.preprocessed@.len() - k,
        {
            let index: usize = shape.preprocessed_column_indices[k];
            let size: u32 = shape.preprocessed[k];
            if index >= columns {
                assert(!shapes@[c as int].wf(columns as int)) by {
                    assert(shapes@[c as int].preprocessed_column_indices@[k as int] == index);
                }
                return false;
            }
            proof {
                assert(all[c as int].reads(index as int, size)) by {
                    assert(shape.preprocessed_column_indices@[k as int] == index);
                }
                assert(read_as(all, index as int, size));
            }
            if visited[index] {
                if bounds[index] != size {
                    assert(read_as(all, index as int, bounds@[index as int]));
                    return false;
                }
            } else {
                let ghost before = bounds@;
                let ghost seen = visited@;
                bounds.set(index, size);
                visited.set(index, true);
                proof {
                    assert forall|d: int, m: int|
                        0 <= d < c && 0 <= m < all[d].preprocessed@.len() implies {
                        let column = #[trigger] all[d].preprocessed_column_indices@[m] as int;
                        visited@[column] && bounds@[column] == all[d].preprocessed@[m]
                    } by {
                        assert(shapes@[d].wf(columns as int));
                        let column = all[d].preprocessed_column_indices@[m] as int;
                        assert(seen[column]);
                        assert(column != index);
                    }
                    assert forall|i: int| 0 <= i < columns && #[trigger] visited@[i] implies read_as(
                        all,
                        i,
                        bounds@[i],
                    ) by {
                        if i != index {
                            assert(seen[i]);
                        }
                    }
                }
            }
            k = k + 1;
        }
        assert(shapes@[c as int].wf(columns as int));
        c = c + 1;
    }
    proof {
        lemma_agreeing_sizes(all, shapes@, bounds@, visited@, columns as int);
    }
    let mut i: usize = 0;
    while i < columns
        invariant
            i <= columns,
            all == referents(shapes@),
            visited@.len() == columns,
            forall|k: int| 0 <= k < i ==> #[trigger] visited@[k],
            forall|k: int| 0 <= k < columns ==> (#[trigger] visited@[k] <==> is_read(all, k)),
        decreases columns - i,
    {
        if !visited[i] {
            assert(!is_read(all, i as int));
            return false;
        }
        i = i + 1;
    }
    assert forall|column: int| 0 <= column < columns implies #[trigger] is_read(all, column) by {
        assert(visited@[column]);
    }
    true
}

/// Sizes that were recorded without a conflict are consistent, and the visited
/// columns are those that are read.
proof fn lemma_agreeing_sizes(
    all: Seq<ComponentShape>,
    shapes: Seq<&ComponentShape>,
    bounds: Seq<u32>,
    visited: Seq<bool>,
    columns: int,
)
    requires
        all == referents(shapes),
        bounds.len() == columns,
        visited.len() == columns,
        forall|d: int| 0 <= d < shapes.len() ==> (#[trigger] shapes[d]).wf(columns),
        forall|d: int, k: int|
            0 <= d < all.len() && 0 <= k < all[d].preprocessed@.len() ==> {
                let column = #[trigger] all[d].preprocessed_column_indices@[k] as int;
                visited[column] && bounds[column] == all[d].preprocessed@[k]
            },
        forall|i: int| 0 <= i < columns && #[trigger] visited[i] ==> read_as(all, i, bounds[i]),
    ensures
        consistent(all),
        forall|k: int| 0 <= k < columns ==> (#[trigger] visited[k] <==> is_read(all, k)),
{
    assert forall|column: int, a: u32| #[trigger] read_as(all, column, a) implies 0 <= column
        < columns && visited[column] && bounds[column] == a by {
        let d = choose|d: int| 0 <= d < all.len() && (#[trigger] all[d]).reads(column, a);
        let k = choose|k: int|
            0 <= k < all[d].preprocessed@.len()
                && #[trigger] all[d].preprocessed_column_indices@[k] == column
                && all[d].preprocessed@[k] == a;
        assert(shapes[d].wf(columns));
        assert(all[d].preprocessed_column_indices@[k] == column);
    }
    assert forall|k: int| 0 <= k < columns implies (#[trigger] visited[k] <==> is_read(all, k)) by {
        if is_read(all, k) {
            let a = choose|a: u32| read_as(all, k, a);
            assert(read_as(all, k, a));
        }
    }
}

impl P256CurrentAirComponents<ComponentShape> {
    /// Sizes of every column of the proof: the preprocessed ones as their
    /// readers agree on them, the others component by component.
    pub fn trace_log_degree_bounds(&self, columns: usize) -> (r: TreeLayout)
        requires
            forall|c: int|
                0 <= c < self.spec_components().len() ==> (#[trigger] self.spec_components()[c]).wf(
                    columns as int,
                ),
            consistent(self.spec_components()),
            all_read(self.spec_components(), columns as int),
        ensures
            r.preprocessed@.len() == columns,
            forall|column: int, log_size: u32|
                0 <= column < columns && #[trigger] read_as(
                    self.spec_components(),
                    column,
                    log_size,
                ) ==> r.preprocessed@[column] == log_size,
            r.trace@ == trace_sizes(self.spec_components()),
            r.interaction@ == interaction_sizes(self.spec_components()),
    {
        let shapes: Vec<&ComponentShape> = self.components();
        let ghost all = self.spec_components();
        proof {
            assert(referents(shapes@) =~= all);
            assert forall|c: int| 0 <= c < shapes@.len() implies (#[trigger] shapes@[c]).wf(
                columns as int,
            ) by {
                assert(all[c].wf(columns as int));
            }
        }
        let preprocessed: Vec<u32> = merge_preprocessed_bounds(&shapes, columns);
        let mut trace: Vec<u32> = Vec::new();
        let mut interaction: Vec<u32> = Vec::new();
        let mut c: usize = 0;
        proof {
            assert(all.take(0) =~= Seq::<ComponentShape>::empty());
        }
        while c < shapes.len()
            invariant
                c <= shapes@.len(),
                refers_to(shapes@, all),
                trace@ == trace_sizes(all.take(c as int)),
                interaction@ == interaction_sizes(all.take(c as int)),
            decreases shapes@.len() - c,
        {
            proof {
                assert(all.take(c + 1).drop_last() =~= all.take(c as int));
                assert(all.take(c + 1).last() == all[c as int]);
            }
            extend_sizes(&mut trace, &shapes[c].trace);
            extend_sizes(&mut interaction, &shapes[c].interaction);
            c = c + 1;
        }
        proof {
            assert(all.take(c as int) =~= all);
        }
        TreeLayout { preprocessed, trace, interaction }
    }

    /// The largest constraint degree bound over all components.
    pub fn max_constraint_log_degree_bound(&self) -> (r: u32)
        ensures
            r == largest_bound(self.spec_components()),
    {
        let shapes: Vec<&ComponentShape> = self.components();
        let ghost all = self.spec_components();
        let mut bound: u32 = 0;
        let mut c: usize = 0;
        proof {
            assert(all.take(0) =~= Seq::<ComponentShape>::empty());
        }
        while c < shapes.len()
            invariant
                c <= shapes@.len(),
                refers_to(shapes@, all),
                bound == largest_bound(all.take(c as int)),
            decreases shapes@.len() - c,
        {
            proof {
                assert(all.take(c + 1).drop_last() =~= all.take(c as int));
                assert(all.take(c + 1).last() == all[c as int]);
            }
            if shapes[c].max_constraint_log_degree_bound > bound {
                bound = shapes[c].max_constraint_log_degree_bound;
            }
            c = c + 1;
        }
        proof {
            assert(all.take(c as int) =~= all);
        }
        bound
    }
}

/// Law: the largest bound is at least that of every component, and is that of
/// one of them where there are any.
pub proof fn law_largest_bound(shapes: Seq<ComponentShape>)
    ensures
        forall|c: int|
            0 <= c < shapes.len() ==> (#[trigger] shapes[c]).max_constraint_log_degree_bound
                <= largest_bound(shapes),
        largest_bound(shapes) > 0 ==> exists|c: int|
            0 <= c < shapes.len() && (#[trigger] shapes[c]).max_constraint_log_degree_bound
                == largest_bound(shapes),
    decreases shapes.len(),
{
    if shapes.len() > 0 {
        let rest = shapes.drop_last();
        law_largest_bound(rest);
        assert forall|c: int| 0 <= c < shapes.len() implies (
        #[trigger] shapes[c]).max_constraint_log_degree_bound <= largest_bound(shapes) by {
            if c < rest.len() {
                assert(rest[c] == shapes[c]);
            }
        }
        if largest_bound(shapes) > 0 {
            if shapes.last().max_constraint_log_degree_bound > largest_bound(rest) {
                assert(shapes[shapes.len() - 1].max_constraint_log_degree_bound == largest_bound(
                    shapes,
                ));
            } else {
                let c = choose|c: int|
                    0 <= c < rest.len() && (#[trigger] rest[c]).max_constraint_log_degree_bound
                        == largest_bound(rest);
                assert(shapes[c] == rest[c]);
            }
        }
    }
}

} // verus!
