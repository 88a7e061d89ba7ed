//! How lists of columns, words, messages and sizes are put together.
use crate::fields::SecureField;
use crate::pipeline::claim::flattened;
use crate::pipeline::columns::{
    append_groups, append_new_columns, append_unique, distinct, first_position, law_append_covers,
    law_first_column_stays, lemma_first_position, paired, ColumnCells,
};
use crate::pipeline::components::{interaction_sizes, trace_sizes, ComponentShape};
use crate::pipeline::interaction_claim::{absorb_messages, first_nonzero, names_where};
use crate::pipeline::slots::{pending_names, P256ProofComponentSlot, P256ProofComponentStatus};
use crate::pipeline::traces::{appended_columns, appended_names, concatenated, NamedColumns};
use crate::transcript::{absorb_words, blake2s_mix_felts, blake2s_mix_u64, coordinates};
use vstd::prelude::*;

verus! {

/// Law: columns are concatenated group by group.
pub proof fn law_concatenated(a: Seq<Seq<ColumnCells>>, b: Seq<Seq<ColumnCells>>)
    ensures
        concatenated(a + b) == concatenated(a) + concatenated(b),
        a.len() == 0 ==> concatenated(a).len() == 0,
        a.len() == 1 ==> concatenated(a) == a[0],
    decreases b.len(),
{
    if b.len() == 0 {
        assert(a + b =~= a);
        assert(concatenated(a) + concatenated(b) =~= concatenated(a));
    } else {
        assert((a + b).drop_last() =~= a + b.drop_last());
        law_concatenated(a, b.drop_last());
        assert(concatenated(a + b) =~= concatenated(a) + concatenated(b));
    }
    if a.len() == 1 {
        reveal_with_fuel(concatenated, 2);
        assert(concatenated(a) =~= a[0]);
    }
}

/// Law: words are flattened group by group.
pub proof fn law_flattened(a: Seq<Seq<u64>>, b: Seq<Seq<u64>>)
    ensures
        flattened(a + b) == flattened(a) + flattened(b),
        a.len() == 0 ==> flattened(a).len() == 0,
        a.len() == 1 ==> flattened(a) == a[0],
    decreases b.len(),
{
    if b.len() == 0 {
        assert(a + b =~= a);
        assert(flattened(a) + flattened(b) =~= flattened(a));
    } else {
        assert((a + b).drop_last() =~= a + b.drop_last());
        law_flattened(a, b.drop_last());
        assert(flattened(a + b) =~= flattened(a) + flattened(b));
    }
    if a.len() == 1 {
        reveal_with_fuel(flattened, 2);
        assert(flattened(a) =~= a[0]);
    }
}

/// Law: components commit their columns one after the other, each its own.
pub proof fn law_sizes_of_components(a: Seq<ComponentShape>, b: Seq<ComponentShape>)
    ensures
        trace_sizes(a + b) == trace_sizes(a) + trace_sizes(b),
        interaction_sizes(a + b) == interaction_sizes(a) + interaction_sizes(b),
        a.len() == 0 ==> trace_sizes(a).len() == 0 && interaction_sizes(a).len() == 0,
        a.len() == 1 ==> trace_sizes(a) == a[0].trace@ && interaction_sizes(a)
            == a[0].interaction@,
    decreases b.len(),
{
    if b.len() == 0 {
        assert(a + b =~= a);
        assert(trace_sizes(a) + trace_sizes(b) =~= trace_sizes(a));
        assert(interaction_sizes(a) + interaction_sizes(b) =~= interaction_sizes(a));
    } else {
        assert((a + b).drop_last() =~= a + b.drop_last());
        law_sizes_of_components(a, b.drop_last());
        assert(trace_sizes(a + b) =~= trace_sizes(a) + trace_sizes(b));
        assert(interaction_sizes(a + b) =~= interaction_sizes(a) + interaction_sizes(b));
    }
    if a.len() == 1 {
        reveal_with_fuel(trace_sizes, 2);
        reveal_with_fuel(interaction_sizes, 2);
        assert(trace_sizes(a) =~= a[0].trace@);
        assert(interaction_sizes(a) =~= a[0].interaction@);
    }
}

/// Law: words are absorbed in order, each in a message of its own.
pub proof fn law_words_are_absorbed_in_order(digest: Seq<u8>, a: Seq<u64>, b: Seq<u64>)
    ensures
        absorb_words(digest, a + b) == absorb_words(absorb_words(digest, a), b),
        a.len() == 0 ==> absorb_words(digest, a) == digest,
        a.len() == 1 ==> absorb_words(digest, a) == blake2s_mix_u64(digest, a[0]),
{
    crate::transcript::lemma_absorb_concat(digest, a, b);
    reveal_with_fuel(absorb_words, 2);
}

/// Law: messages are absorbed in order, each with the coordinates of its elements.
pub proof fn law_messages_are_absorbed_in_order(
    digest: Seq<u8>,
    a: Seq<Seq<SecureField>>,
    b: Seq<Seq<SecureField>>,
)
    ensures
        absorb_messages(digest, a + b) == absorb_messages(absorb_messages(digest, a), b),
        a.len() == 0 ==> absorb_messages(digest, a) == digest,
        a.len() == 1 ==> absorb_messages(digest, a) == blake2s_mix_felts(
            digest,
            coordinates(a[0]),
        ),
    decreases b.len(),
{
    if b.len() == 0 {
        assert(a + b =~= a);
    } else {
        law_messages_are_absorbed_in_order(digest, a, b.drop_last());
        assert((a + b).drop_last() =~= a + b.drop_last());
        assert((a + b).last() == b.last());
    }
    reveal_with_fuel(absorb_messages, 2);
}

/// Law: the coordinates of elements follow each other, four to an element in order.
pub proof fn law_coordinates(a: Seq<SecureField>, b: Seq<SecureField>)
    ensures
        coordinates(a + b) == coordinates(a) + coordinates(b),
        coordinates(a).len() == 4 * a.len(),
        a.len() == 1 ==> coordinates(a)[0] == a[0].c0.0 && coordinates(a)[1] == a[0].c1.0
            && coordinates(a)[2] == a[0].c2.0 && coordinates(a)[3] == a[0].c3.0,
    decreases a.len() + b.len(),
{
    if b.len() == 0 {
        assert(a + b =~= a);
        assert(coordinates(a) + coordinates(b) =~= coordinates(a));
        if a.len() > 0 {
            law_coordinates(a.drop_last(), b);
        }
    } else {
        law_coordinates(a, b.drop_last());
        assert((a + b).drop_last() =~= a + b.drop_last());
        assert(coordinates(a + b) =~= coordinates(a) + coordinates(b));
    }
    reveal_with_fuel(coordinates, 2);
}

/// Law: names are appended one by one: a new name at the end, a known one not at all;
/// and groups are appended in turn.
pub proof fn law_names_are_appended_in_order(
    out: Seq<Seq<char>>,
    a: Seq<Seq<char>>,
    b: Seq<Seq<char>>,
    g: Seq<Seq<Seq<char>>>,
    h: Seq<Seq<Seq<char>>>,
)
    ensures
        append_unique(out, a + b) == append_unique(append_unique(out, a), b),
        a.len() == 0 ==> append_unique(out, a) == out,
        a.len() == 1 ==> append_unique(out, a) == (if out.contains(a[0]) {
            out
        } else {
            out.push(a[0])
        }),
        append_groups(out, g + h) == append_groups(append_groups(out, g), h),
        g.len() == 0 ==> append_groups(out, g) == out,
        g.len() == 1 ==> append_groups(out, g) == append_unique(out, g[0]),
    decreases b.len() + h.len(),
{
    if b.len() == 0 {
        assert(a + b =~= a);
    } else {
        law_names_are_appended_in_order(out, a, b.drop_last(), g, h);
        assert((a + b).drop_last() =~= a + b.drop_last());
    }
    if h.len() == 0 {
        assert(g + h =~= g);
    } else {
        law_names_are_appended_in_order(out, a, b, g, h.drop_last());
        assert((g + h).drop_last() =~= g + h.drop_last());
    }
    reveal_with_fuel(append_unique, 2);
    reveal_with_fuel(append_groups, 2);
}

/// Law: the column of a new name is the one that comes with it.
pub proof fn law_new_name_brings_its_column(
    out: Seq<Seq<char>>,
    columns: Seq<ColumnCells>,
    ids: Seq<Seq<char>>,
    new_columns: Seq<ColumnCells>,
)
    requires
        out.len() == columns.len(),
        ids.len() == new_columns.len(),
        distinct(ids),
        forall|k: int| 0 <= k < ids.len() ==> !out.contains(#[trigger] ids[k]),
    ensures
        append_unique(out, ids) == out + ids,
        append_new_columns(out, columns, ids, new_columns) == columns + new_columns,
    decreases ids.len(),
{
    if ids.len() == 0 {
        assert(out + ids =~= out);
        assert(columns + new_columns =~= columns);
    } else {
        let rest = ids.drop_last();
        let rest_columns = new_columns.take(ids.len() - 1);
        assert forall|k: int| 0 <= k < rest.len() implies !out.contains(#[trigger] rest[k]) by {
            assert(rest[k] == ids[k]);
        }
        assert(distinct(rest)) by {
            assert forall|j: int, k: int| 0 <= j < k < rest.len() implies #[trigger] rest[j]
                != #[trigger] rest[k] by {
                assert(ids[j] != ids[k]);
            }
        }
        law_new_name_brings_its_column(out, columns, rest, rest_columns);
        let last = ids.last();
        assert(!append_unique(out, rest).contains(last)) by {
            law_append_covers(out, rest, last);
            assert(ids[ids.len() - 1] == last);
            if rest.contains(last) {
                let j = choose|j: int| 0 <= j < rest.len() && rest[j] == last;
                assert(ids[j] != ids[ids.len() - 1]);
            }
        }
        assert(append_unique(out, ids) =~= out + ids);
        assert(append_new_columns(out, columns, ids, new_columns) =~= columns + new_columns);
    }
}

/// Law: the parts are appended in order: what the first parts leave stays in front,
/// columns under their names.
pub proof fn law_first_parts_stay(groups: Seq<NamedColumns>, more: NamedColumns)
    requires
        appended_names(groups).len() == appended_columns(groups).len(),
        more.0.len() == more.1.len(),
    ensures
        ({
            let all = groups.push(more);
            &&& appended_names(all).len() == appended_columns(all).len()
            &&& appended_names(all) == append_unique(appended_names(groups), more.0)
            &&& appended_columns(all).take(appended_columns(groups).len() as int)
                == appended_columns(groups)
            &&& appended_columns(all) == append_new_columns(
                appended_names(groups),
                appended_columns(groups),
                more.0,
                more.1,
            )
        }),
        appended_names(Seq::empty()).len() == 0,
        appended_columns(Seq::empty()).len() == 0,
{
    let all = groups.push(more);
    assert(all.drop_last() =~= groups);
    law_first_column_stays(appended_names(groups), appended_columns(groups), more.0, more.1);
}

/// Law: the names listed are those of the entries that satisfy the condition, in order,
/// and the first imbalance is that of the first entry that is not zero.
pub proof fn law_listed_names(
    a: Seq<(&'static str, SecureField)>,
    b: Seq<(&'static str, SecureField)>,
    zero: bool,
)
    ensures
        names_where(a + b, zero) == names_where(a, zero) + names_where(b, zero),
        a.len() == 1 ==> names_where(a, zero) == (if (a[0].1 == crate::fields::sf_zero()) == zero {
            seq![a[0].0]
        } else {
            Seq::empty()
        }),
        first_nonzero(a + b) == (if first_nonzero(a) is Some {
            first_nonzero(a)
        } else {
            first_nonzero(b)
        }),
    decreases b.len(),
{
    if b.len() == 0 {
        assert(a + b =~= a);
        assert(names_where(a, zero) + names_where(b, zero) =~= names_where(a, zero));
    } else {
        assert((a + b).drop_last() =~= a + b.drop_last());
        law_listed_names(a, b.drop_last(), zero);
        assert(names_where(a + b, zero) =~= names_where(a, zero) + names_where(b, zero));
    }
    if a.len() == 1 {
        reveal_with_fuel(names_where, 2);
        assert(names_where(a, zero) =~= (if (a[0].1 == crate::fields::sf_zero()) == zero {
            seq![a[0].0]
        } else {
            Seq::empty()
        }));
    }
}

/// Law: the pending slots are those with the pending status, in order.
pub proof fn law_pending_slots(
    a: Seq<P256ProofComponentSlot>,
    b: Seq<P256ProofComponentSlot>,
)
    ensures
        pending_names(a + b) == pending_names(a) + pending_names(b),
        a.len() == 1 ==> pending_names(a) == (match a[0].status {
            P256ProofComponentStatus::Pending => seq![a[0].name],
            P256ProofComponentStatus::Implemented => Seq::empty(),
        }),
    decreases b.len(),
{
    if b.len() == 0 {
        assert(a + b =~= a);
        assert(pending_names(a) + pending_names(b) =~= pending_names(a));
    } else {
        assert((a + b).drop_last() =~= a + b.drop_last());
        law_pending_slots(a, b.drop_last());
        assert(pending_names(a + b) =~= pending_names(a) + pending_names(b));
    }
    if a.len() == 1 {
        reveal_with_fuel(pending_names, 2);
        assert(pending_names(a) =~= (match a[0].status {
            P256ProofComponentStatus::Pending => seq![a[0].name],
            P256ProofComponentStatus::Implemented => Seq::empty(),
        }));
    }
}

/// Law: a name is found at its first place; a name that is not in the list is found at its
/// end. Pairs go as far as the shorter of two lists.
pub proof fn law_first_position(list: Seq<Seq<char>>, name: Seq<char>, i: int, a: nat, b: nat)
    requires
        0 <= i <= list.len(),
        forall|k: int| 0 <= k < i ==> #[trigger] list[k] != name,
        i < list.len() ==> list[i] == name,
    ensures
        first_position(list, name) == i,
        paired(a, b) <= a,
        paired(a, b) <= b,
        paired(a, b) == a || paired(a, b) == b,
{
    lemma_first_position(list, name);
    let p = first_position(list, name);
    if p < i {
        assert(list[p] != name);
    }
    if i < p {
        assert(list[i] != name);
    }
}

} // verus!
