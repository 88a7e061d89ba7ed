//! Lists of preprocessed columns: every column is kept once, under its name.
use crate::fields::M31;
use crate::range_checks::trace::ColumnEval;
use crate::range_checks::PreProcessedColumnId;
use vstd::prelude::*;

verus! {

/// What a column holds: the logarithm of its size, and its cells.
pub type ColumnCells = (u32, Seq<M31>);

/// The names in a list of identifiers.
pub open spec fn names(ids: Seq<PreProcessedColumnId>) -> Seq<Seq<char>> {
    ids.map_values(|id: PreProcessedColumnId| id.id@)
}

pub open spec fn cells(column: ColumnEval) -> ColumnCells {
    (column.domain.log_size, column.values@)
}

/// What the columns of a list hold.
pub open spec fn all_cells(columns: Seq<ColumnEval>) -> Seq<ColumnCells> {
    columns.map_values(|column: ColumnEval| cells(column))
}

/// No name occurs twice.
pub open spec fn distinct(list: Seq<Seq<char>>) -> bool {
    forall|i: int, j: int| 0 <= i < j < list.len() ==> #[trigger] list[i] != #[trigger] list[j]
}

/// Appends the names that are not in the list yet, in order.
pub open spec fn append_unique(out: Seq<Seq<char>>, ids: Seq<Seq<char>>) -> Seq<Seq<char>>
    decreases ids.len(),
{
    if ids.len() == 0 {
        out
    } else {
        let front = append_unique(out, ids.drop_last());
        if front.contains(ids.last()) {
            front
        } else {
            front.push(ids.last())
        }
    }
}

/// Appends the names of each group in turn.
pub open spec fn append_groups(out: Seq<Seq<char>>, groups: Seq<Seq<Seq<char>>>) -> Seq<Seq<char>>
    decreases groups.len(),
{
    if groups.len() == 0 {
        out
    } else {
        append_unique(append_groups(out, groups.drop_last()), groups.last())
    }
}

/// The columns that stay when named columns are appended: a column stays where
/// its name is new.
pub open spec fn append_new_columns(
    out: Seq<Seq<char>>,
    columns: Seq<ColumnCells>,
    ids: Seq<Seq<char>>,
    new_columns: Seq<ColumnCells>,
) -> Seq<ColumnCells>
    decreases ids.len(),
{
    if ids.len() == 0 {
        columns
    } else {
        let front = append_new_columns(
            out,
            columns,
            ids.drop_last(),
            new_columns.take(ids.len() - 1),
        );
        if append_unique(out, ids.drop_last()).contains(ids.last()) {
            front
        } else {
            front.push(new_columns[ids.len() - 1])
        }
    }
}

/// The position at which a name first occurs, or the length of the list.
pub open spec fn first_position(list: Seq<Seq<char>>, name: Seq<char>) -> int
    decreases list.len(),
{
    if list.len() == 0 {
        0
    } else if first_position(list.drop_last(), name) < list.len() - 1 {
        first_position(list.drop_last(), name)
    } else if list.last() == name {
        list.len() - 1
    } else {
        list.len() as int
    }
}

/// The position of a name in a list of names is its first occurrence.
pub proof fn lemma_first_position(list: Seq<Seq<char>>, name: Seq<char>)
    ensures
        0 <= first_position(list, name) <= list.len(),
        first_position(list, name) < list.len() <==> list.contains(name),
        first_position(list, name) < list.len() ==> list[first_position(list, name)] == name,
        forall|i: int| 0 <= i < first_position(list, name) ==> #[trigger] list[i] != name,
    decreases list.len(),
{
    if list.len() > 0 {
        let front = list.drop_last();
        lemma_first_position(front, name);
        assert(list.contains(name) <==> front.contains(name) || list.last() == name) by {
            if list.contains(name) {
                let i = choose|i: int| 0 <= i < list.len() && list[i] == name;
                if i < front.len() {
                    assert(front[i] == name);
                }
            }
            if front.contains(name) {
                let i = choose|i: int| 0 <= i < front.len() && front[i] == name;
                assert(list[i] == name);
            }
            if list.last() == name {
                assert(list[list.len() - 1] == name);
            }
        }
        assert forall|i: int| 0 <= i < first_position(list, name) implies #[trigger] list[i]
            != name by {
            if i < front.len() {
                assert(front[i] == list[i]);
            }
        }
    }
}

/// Finds a name in a list.
pub fn find_id(ids: &Vec<PreProcessedColumnId>, wanted: &PreProcessedColumnId) -> (r: usize)
    ensures
        r == first_position(names(ids@), wanted.id@),
        r < ids@.len() <==> names(ids@).contains(wanted.id@),
        r <= ids@.len(),
{
    let mut i: usize = 0;
    while i < ids.len()
        invariant
            i <= ids@.len(),
            forall|k: int| 0 <= k < i ==> #[trigger] names(ids@)[k] != wanted.id@,
        decreases ids@.len() - i,
    {
        if ids[i].same(wanted) {
            proof {
                lemma_first_position(names(ids@), wanted.id@);
                let p = first_position(names(ids@), wanted.id@);
                assert(names(ids@)[i as int] == wanted.id@);
                if p < i {
                    assert(names(ids@)[p] != wanted.id@);
                }
                if i < p {
                    assert(names(ids@)[i as int] != wanted.id@);
                }
            }
            return i;
        }
        assert(names(ids@)[i as int] == ids@[i as int].id@);
        i = i + 1;
    }
    proof {
        lemma_first_position(names(ids@), wanted.id@);
    }
    i
}

/// Appends to a list the identifiers that it does not hold yet.
pub fn append_unique_preprocessed_ids(
    out: &mut Vec<PreProcessedColumnId>,
    ids: &Vec<PreProcessedColumnId>,
)
    ensures
        names(final(out)@) == append_unique(names(old(out)@), names(ids@)),
{
    let ghost start = names(out@);
    let ghost all = names(ids@);
    let mut i: usize = 0;
    proof {
        assert(all.take(0) =~= Seq::<Seq<char>>::empty());
    }
    while i < ids.len()
        invariant
            i <= ids@.len(),
            all == names(ids@),
            names(out@) == append_unique(start, all.take(i as int)),
        decreases ids@.len() - i,
    {
        proof {
            assert(all.take(i + 1).drop_last() =~= all.take(i as int));
            assert(all.take(i + 1).last() == ids@[i as int].id@);
        }
        if find_id(out, &ids[i]) == out.len() {
            let ghost before = out@;
            out.push(ids[i].duplicate());
            proof {
                assert(names(out@) =~= names(before).push(ids@[i as int].id@));
            }
        }
        i = i + 1;
    }
    proof {
        assert(all.take(i as int) =~= all);
    }
}

impl ColumnEval {
    /// A copy of the column.
    pub fn duplicate(&self) -> (r: ColumnEval)
        ensures
            cells(r) == cells(*self),
    {
        let mut values: Vec<M31> = Vec::new();
        let mut i: usize = 0;
        while i < self.values.len()
            invariant
                i <= self.values@.len(),
                values@ == self.values@.take(i as int),
            decreases self.values@.len() - i,
        {
            values.push(self.values[i]);
            i = i + 1;
        }
        proof {
            assert(self.values@.take(i as int) =~= self.values@);
        }
        ColumnEval { domain: self.domain, values }
    }
}

/// The length of the shorter of two lists.
pub open spec fn paired(a: nat, b: nat) -> int {
    if a <= b {
        a as int
    } else {
        b as int
    }
}

/// Appends to a list of named columns those whose name it does not hold yet.
/// Where a name is held, the column under it stays. Names and columns are taken
/// in pairs, as far as both go.
pub fn append_unique_preprocessed_columns(
    out_ids: &mut Vec<PreProcessedColumnId>,
    out_columns: &mut Vec<ColumnEval>,
    ids: &Vec<PreProcessedColumnId>,
    columns: &Vec<ColumnEval>,
)
    ensures
        names(final(out_ids)@) == append_unique(
            names(old(out_ids)@),
            names(ids@).take(paired(ids@.len(), columns@.len())),
        ),
        all_cells(final(out_columns)@) == append_new_columns(
            names(old(out_ids)@),
            all_cells(old(out_columns)@),
            names(ids@).take(paired(ids@.len(), columns@.len())),
            all_cells(columns@).take(paired(ids@.len(), columns@.len())),
        ),
        old(out_ids)@.len() == old(out_columns)@.len()
            ==> final(out_ids)@.len() == final(out_columns)@.len(),
{
    let ghost start = names(out_ids@);
    let ghost start_columns = all_cells(out_columns@);
    let ghost all = names(ids@);
    let ghost all_columns = all_cells(columns@);
    let mut i: usize = 0;
    proof {
        assert(all.take(0) =~= Seq::<Seq<char>>::empty());
    }
    let ghost aligned = out_ids@.len() == out_columns@.len();
    while i < ids.len() && i < columns.len()
        invariant
            i <= ids@.len(),
            i <= columns@.len(),
            all == names(ids@),
            all_columns == all_cells(columns@),
            names(out_ids@) == append_unique(start, all.take(i as int)),
            all_cells(out_columns@) == append_new_columns(
                start,
                start_columns,
                all.take(i as int),
                all_columns.take(i as int),
            ),
            aligned ==> out_ids@.len() == out_columns@.len(),
        decreases ids@.len() - i,
    {
        proof {
            assert(all.take(i + 1).drop_last() =~= all.take(i as int));
            assert(all.take(i + 1).last() == ids@[i as int].id@);
            assert(all_columns.take(i + 1).take(i as int) =~= all_columns.take(i as int));
            assert(all_columns.take(i + 1)[i as int] == cells(columns@[i as int]));
        }
        if find_id(out_ids, &ids[i]) == out_ids.len() {
            let ghost before = out_ids@;
            let ghost before_columns = out_columns@;
            out_ids.push(ids[i].duplicate());
            out_columns.push(columns[i].duplicate());
            proof {
                assert(names(out_ids@) =~= names(before).push(ids@[i as int].id@));
                assert(all_cells(out_columns@) =~= all_cells(before_columns).push(
                    cells(columns@[i as int]),
                ));
            }
        }
        i = i + 1;
    }
}

/// The columns under the wanted names, in the order of the names.
pub fn select_preprocessed_columns(
    ids: &Vec<PreProcessedColumnId>,
    columns: &Vec<ColumnEval>,
    wanted: &Vec<PreProcessedColumnId>,
) -> (r: Vec<ColumnEval>)
    requires
        ids@.len() == columns@.len(),
        forall|i: int|
            0 <= i < wanted@.len() ==> names(ids@).contains((#[trigger] wanted@[i]).id@),
    ensures
        r@.len() == wanted@.len(),
        forall|i: int|
            0 <= i < wanted@.len() ==> cells(#[trigger] r@[i]) == cells(
                columns@[first_position(names(ids@), wanted@[i].id@)],
            ),
{
    let mut selected: Vec<ColumnEval> = Vec::new();
    let mut i: usize = 0;
    while i < wanted.len()
        invariant
            i <= wanted@.len(),
            selected@.len() == i,
            ids@.len() == columns@.len(),
            forall|k: int|
                0 <= k < wanted@.len() ==> names(ids@).contains((#[trigger] wanted@[k]).id@),
            forall|k: int|
                0 <= k < i ==> cells(#[trigger] selected@[k]) == cells(
                    columns@[first_position(names(ids@), wanted@[k].id@)],
                ),
        decreases wanted@.len() - i,
    {
        assert(names(ids@).contains(wanted@[i as int].id@));
        let position: usize = find_id(ids, &wanted[i]);
        selected.push(columns[position].duplicate());
        i = i + 1;
    }
    selected
}

/// Law: appending keeps what was in the list, and its order.
pub proof fn law_append_keeps_the_list(out: Seq<Seq<char>>, ids: Seq<Seq<char>>)
    ensures
        append_unique(out, ids).len() >= out.len(),
        append_unique(out, ids).take(out.len() as int) == out,
    decreases ids.len(),
{
    if ids.len() == 0 {
        assert(out.take(out.len() as int) =~= out);
    } else {
        law_append_keeps_the_list(out, ids.drop_last());
        let front = append_unique(out, ids.drop_last());
        assert(front.push(ids.last()).take(out.len() as int) =~= front.take(out.len() as int));
    }
}

/// Law: after appending, the list holds what it held and what was appended,
/// and nothing else.
pub proof fn law_append_covers(out: Seq<Seq<char>>, ids: Seq<Seq<char>>, name: Seq<char>)
    ensures
        append_unique(out, ids).contains(name) <==> out.contains(name) || ids.contains(name),
    decreases ids.len(),
{
    if ids.len() > 0 {
        let rest = ids.drop_last();
        law_append_covers(out, rest, name);
        let front = append_unique(out, rest);
        assert(ids.contains(name) <==> rest.contains(name) || ids.last() == name) by {
            if ids.contains(name) {
                let i = choose|i: int| 0 <= i < ids.len() && ids[i] == name;
                if i < rest.len() {
                    assert(rest[i] == name);
                }
            }
            if rest.contains(name) {
                let i = choose|i: int| 0 <= i < rest.len() && rest[i] == name;
                assert(ids[i] == name);
            }
            if ids.last() == name {
                assert(ids[ids.len() - 1] == name);
            }
        }
        lemma_push_contains(front, ids.last(), name);
    }
}

/// A list with one more name holds that name too.
proof fn lemma_push_contains(list: Seq<Seq<char>>, last: Seq<char>, name: Seq<char>)
    ensures
        list.push(last).contains(name) <==> list.contains(name) || last == name,
{
    let longer = list.push(last);
    if longer.contains(name) {
        let i = choose|i: int| 0 <= i < longer.len() && longer[i] == name;
        if i < list.len() {
            assert(list[i] == name);
        }
    }
    if list.contains(name) {
        let i = choose|i: int| 0 <= i < list.len() && list[i] == name;
        assert(longer[i] == name);
    }
    if last == name {
        assert(longer[list.len() as int] == name);
    }
}

/// Law: appending never makes a name occur twice.
pub proof fn law_append_keeps_distinct(out: Seq<Seq<char>>, ids: Seq<Seq<char>>)
    requires
        distinct(out),
    ensures
        distinct(append_unique(out, ids)),
    decreases ids.len(),
{
    if ids.len() > 0 {
        law_append_keeps_distinct(out, ids.drop_last());
        let front = append_unique(out, ids.drop_last());
        if !front.contains(ids.last()) {
            let list = front.push(ids.last());
            assert forall|i: int, j: int| 0 <= i < j < list.len() implies #[trigger] list[i]
                != #[trigger] list[j] by {
                assert(front[i] == list[i]);
                if j < front.len() {
                    assert(front[j] == list[j]);
                } else {
                    assert(front.contains(front[i]));
                }
            }
        }
    }
}

/// Law: appending the same names a second time changes nothing.
pub proof fn law_append_is_idempotent(out: Seq<Seq<char>>, ids: Seq<Seq<char>>)
    ensures
        append_unique(append_unique(out, ids), ids) == append_unique(out, ids),
{
    let list = append_unique(out, ids);
    assert forall|i: int| 0 <= i < ids.len() implies list.contains(#[trigger] ids[i]) by {
        law_append_covers(out, ids, ids[i]);
        assert(ids.contains(ids[i]));
    }
    lemma_append_known(list, ids);
}

/// Appending names that the list holds changes nothing.
proof fn lemma_append_known(out: Seq<Seq<char>>, ids: Seq<Seq<char>>)
    requires
        forall|i: int| 0 <= i < ids.len() ==> out.contains(#[trigger] ids[i]),
    ensures
        append_unique(out, ids) == out,
    decreases ids.len(),
{
    if ids.len() > 0 {
        let rest = ids.drop_last();
        assert forall|i: int| 0 <= i < rest.len() implies out.contains(#[trigger] rest[i]) by {
            assert(rest[i] == ids[i]);
        }
        lemma_append_known(out, rest);
        assert(out.contains(ids[ids.len() - 1]));
    }
}

/// Law: groups appended in turn give a list without repetitions that holds
/// every name of every group.
pub proof fn law_groups_are_covered_once(groups: Seq<Seq<Seq<char>>>)
    ensures
        distinct(append_groups(Seq::empty(), groups)),
        forall|g: int, i: int|
            0 <= g < groups.len() && 0 <= i < groups[g].len() ==> append_groups(
                Seq::empty(),
                groups,
            ).contains(#[trigger] groups[g][i]),
    decreases groups.len(),
{
    if groups.len() > 0 {
        let rest = groups.drop_last();
        law_groups_are_covered_once(rest);
        let front = append_groups(Seq::empty(), rest);
        law_append_keeps_distinct(front, groups.last());
        assert forall|g: int, i: int|
            0 <= g < groups.len() && 0 <= i < groups[g].len() implies append_groups(
            Seq::empty(),
            groups,
        ).contains(#[trigger] groups[g][i]) by {
            law_append_covers(front, groups.last(), groups[g][i]);
            if g < rest.len() {
                assert(rest[g] == groups[g]);
                assert(front.contains(rest[g][i]));
            } else {
                assert(groups.last().contains(groups[g][i]));
            }
        }
    }
}

/// Law: the column under a name that the list held before stays the same.
pub proof fn law_first_column_stays(
    out: Seq<Seq<char>>,
    columns: Seq<ColumnCells>,
    ids: Seq<Seq<char>>,
    new_columns: Seq<ColumnCells>,
)
    requires
        out.len() == columns.len(),
        ids.len() == new_columns.len(),
    ensures
        append_new_columns(out, columns, ids, new_columns).len() == append_unique(out, ids).len(),
        append_new_columns(out, columns, ids, new_columns).take(columns.len() as int) == columns,
    decreases ids.len(),
{
    if ids.len() == 0 {
        assert(columns.take(columns.len() as int) =~= columns);
    } else {
        let rest = ids.drop_last();
        let rest_columns = new_columns.take(ids.len() - 1);
        law_first_column_stays(out, columns, rest, rest_columns);
        law_append_keeps_the_list(out, rest);
        let front = append_new_columns(out, columns, rest, rest_columns);
        assert(front.push(new_columns[ids.len() - 1]).take(columns.len() as int) =~= front.take(
            columns.len() as int,
        ));
    }
}

} // verus!
