//! The order of the public index: registry entries by name, ascending,
//! entries of the same name in the order in which they were found.

use crate::lexical::{
    lemma_name_lt_le, lemma_name_lt_total, name_le, name_lt, name_precedes,
};
use crate::utils::{infos_view, ChannelInfo, ChannelInfoView};
use vstd::prelude::*;

verus! {

/// No entry comes after one whose name is strictly before its own.
pub open spec fn is_sorted(entries: Seq<ChannelInfoView>) -> bool {
    forall|i: int, j: int|
        0 <= i < j < entries.len() ==> name_le(
            (#[trigger] entries[i]).name,
            (#[trigger] entries[j]).name,
        )
}

/// How many entries at the head of `entries` have a name strictly before
/// `name`.
pub open spec fn lower_bound(entries: Seq<ChannelInfoView>, name: Seq<char>) -> int
    decreases entries.len(),
{
    if entries.len() > 0 && name_lt(entries[0].name, name) {
        1 + lower_bound(entries.drop_first(), name)
    } else {
        0
    }
}

/// `entries` with `entry` put in after the entries at its head whose names
/// are strictly before that of `entry`: in a sorted list, before every entry
/// of the same name.
pub open spec fn placed(entries: Seq<ChannelInfoView>, entry: ChannelInfoView) -> Seq<
    ChannelInfoView,
> {
    entries.insert(lower_bound(entries, entry.name), entry)
}

/// The entries sorted by name, ascending; entries of the same name keep
/// their order. The first entry is put in its place among the others,
/// sorted.
pub open spec fn sorted_by_name(entries: Seq<ChannelInfoView>) -> Seq<ChannelInfoView>
    decreases entries.len(),
{
    if entries.len() == 0 {
        entries
    } else {
        placed(sorted_by_name(entries.drop_first()), entries[0])
    }
}

/// Where [`lower_bound`] points: every entry before it has a name strictly
/// before `name`, and the entry at it, if there is one, has not.
pub proof fn lemma_lower_bound(entries: Seq<ChannelInfoView>, name: Seq<char>)
    ensures
        0 <= lower_bound(entries, name) <= entries.len(),
        forall|i: int|
            0 <= i < lower_bound(entries, name) ==> name_lt((#[trigger] entries[i]).name, name),
        lower_bound(entries, name) < entries.len() ==> !name_lt(
            entries[lower_bound(entries, name)].name,
            name,
        ),
    decreases entries.len(),
{
    if entries.len() > 0 && name_lt(entries[0].name, name) {
        let rest = entries.drop_first();
        lemma_lower_bound(rest, name);
        assert forall|i: int| 0 <= i < lower_bound(entries, name) implies name_lt(
            (#[trigger] entries[i]).name,
            name,
        ) by {
            if i > 0 {
                assert(entries[i] == rest[i - 1]);
            }
        }
        if lower_bound(entries, name) < entries.len() {
            assert(entries[lower_bound(entries, name)] == rest[lower_bound(rest, name)]);
        }
    }
}

/// Putting an entry in its place keeps a sorted list sorted.
pub proof fn lemma_placed_sorted(entries: Seq<ChannelInfoView>, entry: ChannelInfoView)
    requires
        is_sorted(entries),
    ensures
        is_sorted(placed(entries, entry)),
{
    let at = lower_bound(entries, entry.name);
    let result = placed(entries, entry);
    lemma_lower_bound(entries, entry.name);
    assert forall|i: int, j: int| 0 <= i < j < result.len() implies name_le(
        (#[trigger] result[i]).name,
        (#[trigger] result[j]).name,
    ) by {
        if j == at {
            assert(result[i] == entries[i]);
            lemma_name_lt_total(entries[i].name, entry.name);
        } else if i == at {
            let other = entries[j - 1];
            assert(result[j] == other);
            if name_lt(other.name, entry.name) {
                lemma_name_lt_le(other.name, entry.name, entries[at].name);
                assert(name_le(entries[at].name, entries[j - 1].name));
            }
        } else {
            let a = if i < at { i } else { i - 1 };
            let b = if j < at { j } else { j - 1 };
            assert(result[i] == entries[a]);
            assert(result[j] == entries[b]);
        }
    }
}

/// After sorting, each entry's name is not after the name of any entry that
/// follows it.
pub proof fn lemma_sorted_by_name_sorted(entries: Seq<ChannelInfoView>)
    ensures
        is_sorted(sorted_by_name(entries)),
    decreases entries.len(),
{
    if entries.len() > 0 {
        lemma_sorted_by_name_sorted(entries.drop_first());
        lemma_placed_sorted(sorted_by_name(entries.drop_first()), entries[0]);
    }
}

/// Sorting neither adds nor drops nor changes an entry: each entry occurs
/// in the result as often as in the input.
pub proof fn lemma_sorted_by_name_permutes(entries: Seq<ChannelInfoView>)
    ensures
        sorted_by_name(entries).len() == entries.len(),
        sorted_by_name(entries).to_multiset() == entries.to_multiset(),
    decreases entries.len(),
{
    if entries.len() > 0 {
        let rest = entries.drop_first();
        let sorted_rest = sorted_by_name(rest);
        lemma_sorted_by_name_permutes(rest);
        lemma_lower_bound(sorted_rest, entries[0].name);
        vstd::seq_lib::to_multiset_insert(
            sorted_rest,
            lower_bound(sorted_rest, entries[0].name),
            entries[0],
        );
        vstd::seq_lib::to_multiset_insert(rest, 0, entries[0]);
        assert(rest.insert(0, entries[0]) =~= entries);
    }
}

/// Sorting leaves a sorted list as it is.
pub proof fn lemma_sorted_by_name_fixes_sorted(entries: Seq<ChannelInfoView>)
    requires
        is_sorted(entries),
    ensures
        sorted_by_name(entries) == entries,
    decreases entries.len(),
{
    if entries.len() > 0 {
        let rest = entries.drop_first();
        assert forall|i: int, j: int| 0 <= i < j < rest.len() implies name_le(
            (#[trigger] rest[i]).name,
            (#[trigger] rest[j]).name,
        ) by {
            assert(rest[i] == entries[i + 1]);
            assert(rest[j] == entries[j + 1]);
        }
        lemma_sorted_by_name_fixes_sorted(rest);
        if rest.len() > 0 {
            assert(rest[0] == entries[1]);
            assert(name_le(entries[0].name, entries[1].name));
        }
        assert(lower_bound(rest, entries[0].name) == 0);
        assert(rest.insert(0, entries[0]) =~= entries);
    }
}

/// Sorting twice gives what sorting once gives.
pub proof fn lemma_sorted_by_name_idempotent(entries: Seq<ChannelInfoView>)
    ensures
        sorted_by_name(sorted_by_name(entries)) == sorted_by_name(entries),
{
    lemma_sorted_by_name_sorted(entries);
    lemma_sorted_by_name_fixes_sorted(sorted_by_name(entries));
}

/// The entry has the name `name`, as a predicate on entries.
pub open spec fn has_name(name: Seq<char>) -> spec_fn(ChannelInfoView) -> bool {
    |entry: ChannelInfoView| entry.name == name
}

/// The entries that have the name `name`, in their order.
pub open spec fn named(entries: Seq<ChannelInfoView>, name: Seq<char>) -> Seq<ChannelInfoView> {
    entries.filter(has_name(name))
}

proof fn lemma_named_none(entries: Seq<ChannelInfoView>, name: Seq<char>)
    requires
        forall|i: int| 0 <= i < entries.len() ==> (#[trigger] entries[i]).name != name,
    ensures
        named(entries, name) == Seq::<ChannelInfoView>::empty(),
    decreases entries.len(),
{
    if entries.len() == 0 {
        reveal(Seq::filter);
    } else {
        let init = entries.drop_last();
        assert(init.push(entries.last()) =~= entries);
        assert(entries[entries.len() - 1].name != name);
        init.lemma_filter_push(entries.last(), has_name(name));
        assert forall|i: int| 0 <= i < init.len() implies (#[trigger] init[i]).name != name by {
            assert(init[i] == entries[i]);
        }
        lemma_named_none(init, name);
    }
}

proof fn lemma_named_first(entries: Seq<ChannelInfoView>, name: Seq<char>)
    requires
        entries.len() > 0,
    ensures
        named(entries, name) == (if entries[0].name == name {
            seq![entries[0]]
        } else {
            Seq::empty()
        }) + named(entries.drop_first(), name),
{
    assert(seq![entries[0]] + entries.drop_first() =~= entries);
    entries.drop_first().lemma_filter_prepend(entries[0], has_name(name));
}

/// A new entry comes before the entries of its name that were there, and
/// does not move the others.
pub proof fn lemma_placed_named(
    entries: Seq<ChannelInfoView>,
    entry: ChannelInfoView,
    name: Seq<char>,
)
    ensures
        named(placed(entries, entry), name) == (if entry.name == name {
            seq![entry]
        } else {
            Seq::empty()
        }) + named(entries, name),
{
    let at = lower_bound(entries, entry.name);
    lemma_lower_bound(entries, entry.name);
    let head = entries.take(at);
    let tail = entries.skip(at);
    let like = has_name(name);
    assert(entries =~= head + tail);
    assert(placed(entries, entry) =~= head + (seq![entry] + tail));
    Seq::filter_distributes_over_add(head, tail, like);
    Seq::filter_distributes_over_add(head, seq![entry] + tail, like);
    tail.lemma_filter_prepend(entry, like);
    if entry.name == name {
        assert forall|i: int| 0 <= i < head.len() implies (#[trigger] head[i]).name != name by {
            assert(head[i] == entries[i]);
            lemma_name_lt_total(name, name);
        }
        lemma_named_none(head, name);
        assert(named(placed(entries, entry), name) =~= seq![entry] + named(entries, name));
    } else {
        assert(named(placed(entries, entry), name) =~= Seq::<ChannelInfoView>::empty() + named(
            entries,
            name,
        ));
    }
}

/// Sorting is stable: the entries of one name stand in the result in the
/// order in which they stood in the input.
pub proof fn lemma_sorted_by_name_stable(entries: Seq<ChannelInfoView>, name: Seq<char>)
    ensures
        named(sorted_by_name(entries), name) == named(entries, name),
    decreases entries.len(),
{
    if entries.len() > 0 {
        let rest = entries.drop_first();
        lemma_sorted_by_name_stable(rest, name);
        lemma_placed_named(sorted_by_name(rest), entries[0], name);
        lemma_named_first(entries, name);
    }
}

/// Two sorted lists are the same list if they hold the same entries, each
/// as often, and the entries of each name in the same order.
pub proof fn lemma_sorted_unique(a: Seq<ChannelInfoView>, b: Seq<ChannelInfoView>)
    requires
        is_sorted(a),
        is_sorted(b),
        a.to_multiset() == b.to_multiset(),
        forall|name: Seq<char>| #[trigger] named(a, name) == named(b, name),
    ensures
        a == b,
    decreases a.len(),
{
    broadcast use vstd::multiset::group_multiset_axioms;

    a.to_multiset_ensures();
    b.to_multiset_ensures();
    if a.len() == 0 {
        assert(a =~= b);
    } else {
        let x = a[0];
        let y = b[0];
        assert(b.contains(y)) by {
            assert(b[0] == y);
        }
        assert(b.to_multiset().count(y) > 0);
        assert(a.contains(y));
        let k = choose|k: int| 0 <= k < a.len() && a[k] == y;
        lemma_name_lt_total(x.name, y.name);
        assert(!name_lt(y.name, x.name)) by {
            if k > 0 {
                assert(name_le(a[0].name, a[k].name));
            }
        }
        assert(a.contains(x)) by {
            assert(a[0] == x);
        }
        assert(a.to_multiset().count(x) > 0);
        assert(b.contains(x));
        let m = choose|m: int| 0 <= m < b.len() && b[m] == x;
        assert(!name_lt(x.name, y.name)) by {
            if m > 0 {
                assert(name_le(b[0].name, b[m].name));
            }
        }
        assert(x.name == y.name);
        lemma_named_first(a, x.name);
        lemma_named_first(b, x.name);
        assert(named(a, x.name)[0] == x);
        assert(named(b, x.name)[0] == y);
        assert(x == y);
        let ra = a.drop_first();
        let rb = b.drop_first();
        assert forall|i: int, j: int| 0 <= i < j < ra.len() implies name_le(
            (#[trigger] ra[i]).name,
            (#[trigger] ra[j]).name,
        ) by {
            assert(ra[i] == a[i + 1] && ra[j] == a[j + 1]);
        }
        assert forall|i: int, j: int| 0 <= i < j < rb.len() implies name_le(
            (#[trigger] rb[i]).name,
            (#[trigger] rb[j]).name,
        ) by {
            assert(rb[i] == b[i + 1] && rb[j] == b[j + 1]);
        }
        assert(ra.to_multiset() == rb.to_multiset()) by {
            assert(a.remove(0) =~= ra);
            assert(b.remove(0) =~= rb);
            vstd::seq_lib::to_multiset_remove(a, 0);
            vstd::seq_lib::to_multiset_remove(b, 0);
        }
        assert forall|name: Seq<char>| #[trigger] named(ra, name) == named(rb, name) by {
            lemma_named_first(a, name);
            lemma_named_first(b, name);
            let head = if x.name == name {
                seq![x]
            } else {
                Seq::empty()
            };
            let ta = named(ra, name);
            let tb = named(rb, name);
            assert(head + ta == head + tb);
            assert(ta.len() == tb.len()) by {
                assert((head + ta).len() == (head + tb).len());
            }
            assert forall|i: int| 0 <= i < ta.len() implies ta[i] == tb[i] by {
                assert((head + ta)[i + head.len()] == ta[i]);
                assert((head + tb)[i + head.len()] == tb[i]);
            }
            assert(ta =~= tb);
        }
        lemma_sorted_unique(ra, rb);
        assert(a =~= seq![x] + ra);
        assert(b =~= seq![y] + rb);
    }
}

/// Sorting gives the same list for two inputs that hold the same entries,
/// each as often, and the entries of each name in the same order.
pub proof fn lemma_sorted_by_name_any_order(
    first: Seq<ChannelInfoView>,
    second: Seq<ChannelInfoView>,
)
    requires
        first.to_multiset() == second.to_multiset(),
        forall|name: Seq<char>| #[trigger] named(first, name) == named(second, name),
    ensures
        sorted_by_name(first) == sorted_by_name(second),
{
    lemma_sorted_by_name_sorted(first);
    lemma_sorted_by_name_sorted(second);
    lemma_sorted_by_name_permutes(first);
    lemma_sorted_by_name_permutes(second);
    assert forall|name: Seq<char>| #[trigger]
        named(sorted_by_name(first), name) == named(sorted_by_name(second), name) by {
        lemma_sorted_by_name_stable(first, name);
        lemma_sorted_by_name_stable(second, name);
        assert(named(first, name) == named(second, name));
    }
    lemma_sorted_unique(sorted_by_name(first), sorted_by_name(second));
}

/// No two of the entries have the same name.
pub open spec fn distinct_names(entries: Seq<ChannelInfoView>) -> bool {
    forall|i: int, j: int|
        0 <= i < entries.len() && 0 <= j < entries.len() && i != j ==> (#[trigger] entries[i]).name
            != (#[trigger] entries[j]).name
}

/// Entries with different names still have different names in another
/// order.
pub proof fn lemma_distinct_names_any_order(
    first: Seq<ChannelInfoView>,
    second: Seq<ChannelInfoView>,
)
    requires
        distinct_names(first),
        first.to_multiset() == second.to_multiset(),
    ensures
        distinct_names(second),
{
    broadcast use vstd::multiset::group_multiset_axioms;

    first.to_multiset_ensures();
    second.to_multiset_ensures();
    assert(first.no_duplicates());
    first.lemma_multiset_has_no_duplicates();
    second.lemma_multiset_has_no_duplicates_conv();
    assert forall|i: int, j: int|
        0 <= i < second.len() && 0 <= j < second.len() && i != j implies (#[trigger] second[i]).name
        != (#[trigger] second[j]).name by {
        assert(second.contains(second[i]));
        assert(second.contains(second[j]));
        assert(second.to_multiset().count(second[i]) > 0);
        assert(second.to_multiset().count(second[j]) > 0);
        assert(first.contains(second[i]));
        assert(first.contains(second[j]));
        let p = choose|p: int| 0 <= p < first.len() && first[p] == second[i];
        let q = choose|q: int| 0 <= q < first.len() && first[q] == second[j];
        assert(second[i] != second[j]);
        assert(p != q);
        assert(first[p].name != first[q].name);
    }
}

/// Where no two entries have the same name, all that sorting depends on is
/// which entries there are: the entries of one name, in their order, are
/// the same in any two lists that hold the same entries.
pub proof fn lemma_distinct_names_named(
    first: Seq<ChannelInfoView>,
    second: Seq<ChannelInfoView>,
    name: Seq<char>,
)
    requires
        distinct_names(first),
        first.to_multiset() == second.to_multiset(),
    ensures
        named(first, name) == named(second, name),
    decreases first.len(),
{
    broadcast use vstd::multiset::group_multiset_axioms;

    first.to_multiset_ensures();
    second.to_multiset_ensures();
    lemma_distinct_names_any_order(first, second);
    if first.len() == 0 {
        assert(first =~= second);
    } else {
        let x = first[0];
        assert(first.contains(x)) by {
            assert(first[0] == x);
        }
        assert(first.to_multiset().count(x) > 0);
        assert(second.contains(x));
        let at = choose|at: int| 0 <= at < second.len() && second[at] == x;
        let rest = first.drop_first();
        let others = second.remove(at);
        assert(first.remove(0) =~= rest);
        vstd::seq_lib::to_multiset_remove(first, 0);
        vstd::seq_lib::to_multiset_remove(second, at);
        assert forall|i: int, j: int|
            0 <= i < rest.len() && 0 <= j < rest.len() && i != j implies (#[trigger] rest[i]).name
            != (#[trigger] rest[j]).name by {
            assert(rest[i] == first[i + 1] && rest[j] == first[j + 1]);
        }
        lemma_distinct_names_named(rest, others, name);
        lemma_named_first(first, name);
        let head = second.take(at);
        let tail = second.skip(at + 1);
        assert(second =~= head + (seq![x] + tail));
        assert(others =~= head + tail);
        Seq::filter_distributes_over_add(head, seq![x] + tail, has_name(name));
        Seq::filter_distributes_over_add(head, tail, has_name(name));
        tail.lemma_filter_prepend(x, has_name(name));
        if x.name == name {
            assert forall|i: int| 0 <= i < head.len() implies (#[trigger] head[i]).name != name by {
                assert(head[i] == second[i]);
            }
            lemma_named_none(head, name);
            assert forall|i: int| 0 <= i < rest.len() implies (#[trigger] rest[i]).name != name by {
                assert(rest[i] == first[i + 1]);
            }
            lemma_named_none(rest, name);
            assert forall|i: int| 0 <= i < tail.len() implies (#[trigger] tail[i]).name != name by {
                assert(tail[i] == second[at + 1 + i]);
            }
            lemma_named_none(tail, name);
            assert(named(second, name) =~= seq![x]);
            assert(named(first, name) =~= seq![x]);
        } else {
            assert(named(second, name) =~= named(others, name));
            assert(named(first, name) =~= named(rest, name));
        }
    }
}

/// The place of an entry named `name` in `sorted`.
fn insertion_point(sorted: &Vec<ChannelInfo>, name: &str) -> (at: usize)
    ensures
        at == lower_bound(infos_view(sorted@), name@),
        at <= sorted@.len(),
{
    let ghost all = infos_view(sorted@);
    let mut at: usize = 0;
    assert(all.skip(0) =~= all);
    while at < sorted.len() && name_precedes(sorted[at].name.as_str(), name)
        invariant
            at <= sorted@.len(),
            all == infos_view(sorted@),
            lower_bound(all, name@) == at + lower_bound(all.skip(at as int), name@),
        decreases sorted@.len() - at,
    {
        assert(all.skip(at as int)[0] == all[at as int]);
        assert(all.skip(at as int).drop_first() =~= all.skip(at + 1));
        at += 1;
    }
    proof {
        if at < sorted@.len() {
            assert(all.skip(at as int)[0] == all[at as int]);
        }
    }
    at
}

/// The entries sorted by name, ascending, under the order of
/// [`crate::lexical`]; entries of the same name keep their order.
pub fn sort_by_name(entries: Vec<ChannelInfo>) -> (sorted: Vec<ChannelInfo>)
    ensures
        infos_view(sorted@) == sorted_by_name(infos_view(entries@)),
{
    let ghost all = infos_view(entries@);
    let mut pending = entries;
    let mut sorted: Vec<ChannelInfo> = Vec::new();
    assert(all.skip(all.len() as int) =~= Seq::empty());
    assert(infos_view(sorted@) =~= Seq::empty());
    while pending.len() > 0
        invariant
            pending@.len() <= all.len(),
            infos_view(pending@) == all.take(pending@.len() as int),
            infos_view(sorted@) == sorted_by_name(all.skip(pending@.len() as int)),
        decreases pending@.len(),
    {
        let ghost before = pending@;
        let ghost placed_so_far = sorted@;
        let entry = pending.pop().unwrap();
        let at = insertion_point(&sorted, entry.name.as_str());
        proof {
            let k = before.len() - 1;
            assert(entry@ == infos_view(before)[k]);
            assert(infos_view(pending@) =~= all.take(k));
            assert(all.skip(k)[0] == entry@);
            assert(all.skip(k).drop_first() =~= all.skip(k + 1));
        }
        sorted.insert(at, entry);
        assert(infos_view(sorted@) =~= infos_view(placed_so_far).insert(at as int, entry@));
    }
    assert(all.skip(0) =~= all);
    sorted
}

} // verus!
