//! The order of the index: with no slug twice, the entries stand in strictly
//! descending order, and the index does not depend on the order in which the
//! posts were found.

use vstd::prelude::*;
use vstd::multiset::Multiset;
use crate::index::{
    lemma_sort_descending, listed_entries, post_index, sort_descending, sorted_descending,
    text_lt, Entry, SourceDocumentView,
};

verus! {

/// No slug stands twice among the entries: every entry is there once, and
/// entries of one slug are one entry.
pub open spec fn no_slug_twice(entries: Multiset<Entry>) -> bool {
    forall|a: Entry, b: Entry|
        #![trigger entries.count(a), entries.count(b)]
        entries.count(a) > 0 && entries.count(b) > 0 && a.0 == b.0 ==> a == b && entries.count(a)
            == 1
}

/// Of two different texts one comes before the other.
pub proof fn lemma_text_lt_total(a: Seq<char>, b: Seq<char>)
    ensures
        text_lt(a, b) || text_lt(b, a) || a == b,
    decreases a.len(),
{
    if a.len() > 0 && b.len() > 0 {
        if a[0] == b[0] {
            lemma_text_lt_total(a.drop_first(), b.drop_first());
            if a.drop_first() == b.drop_first() {
                assert(a =~= seq![a[0]] + a.drop_first());
                assert(b =~= seq![b[0]] + b.drop_first());
            }
        } else {
            // Different characters have different numbers.
            let x = a[0] as u32;
            let y = b[0] as u32;
            vstd::utf8::char_u32_cast(a[0], x);
            vstd::utf8::char_u32_cast(b[0], y);
            assert(x != y);
        }
    } else if a.len() == 0 && b.len() == 0 {
        assert(a =~= b);
    }
}

/// An entry that stands at two places is there twice.
proof fn lemma_twice(entries: Seq<Entry>, i: int, j: int)
    requires
        0 <= i < j < entries.len(),
        entries[i] == entries[j],
    ensures
        entries.to_multiset().count(entries[i]) >= 2,
{
    broadcast use vstd::seq_lib::group_to_multiset_ensures;
    broadcast use vstd::multiset::group_multiset_axioms;

    let rest = entries.remove(i);
    assert(rest[j - 1] == entries[j]);
    assert(rest.contains(entries[i]));
    assert(rest.to_multiset().count(entries[i]) > 0);
}

/// With no slug twice, a sorted list is in strictly descending order: every
/// entry comes behind all entries of greater slugs, and no two are equal in
/// rank.
pub proof fn lemma_sorted_is_strict(entries: Seq<Entry>)
    requires
        sorted_descending(entries),
        no_slug_twice(entries.to_multiset()),
    ensures
        forall|i: int, j: int|
            0 <= i < j < entries.len() ==> text_lt(
                #[trigger] entries[j].0,
                #[trigger] entries[i].0,
            ),
{
    broadcast use vstd::seq_lib::group_to_multiset_ensures;

    assert forall|i: int, j: int| 0 <= i < j < entries.len() implies text_lt(
        #[trigger] entries[j].0,
        #[trigger] entries[i].0,
    ) by {
        lemma_text_lt_total(entries[i].0, entries[j].0);
        if entries[i].0 == entries[j].0 {
            assert(entries.contains(entries[i]));
            assert(entries.contains(entries[j]));
            assert(entries.to_multiset().count(entries[i]) > 0);
            assert(entries.to_multiset().count(entries[j]) > 0);
            lemma_twice(entries, i, j);
        }
    }
}

/// With no slug twice, there is one sorted list of given entries only.
pub proof fn lemma_sorted_is_unique(a: Seq<Entry>, b: Seq<Entry>)
    requires
        sorted_descending(a),
        sorted_descending(b),
        a.to_multiset() == b.to_multiset(),
        no_slug_twice(a.to_multiset()),
    ensures
        a == b,
    decreases a.len(),
{
    broadcast use vstd::seq_lib::group_to_multiset_ensures;
    broadcast use vstd::multiset::group_multiset_axioms;

    vstd::seq_lib::to_multiset_len(a);
    vstd::seq_lib::to_multiset_len(b);
    if a.len() == 0 {
        assert(b.len() == 0);
        assert(a =~= b);
    } else {
        assert(b.len() == a.len());
        let all = a.to_multiset();
        let first = a[0];
        let other = b[0];
        assert(a.contains(first));
        assert(b.contains(other));
        assert(all.count(first) > 0);
        assert(all.count(other) > 0);
        // Each of the two first entries stands in the other list as well, so
        // neither has the lesser slug.
        assert(b.contains(first));
        let k = choose|k: int| 0 <= k < b.len() && b[k] == first;
        assert(a.contains(other));
        let l = choose|l: int| 0 <= l < a.len() && a[l] == other;
        if k > 0 && l > 0 {
            assert(!text_lt(b[0].0, b[k].0));
            assert(!text_lt(a[0].0, a[l].0));
            lemma_text_lt_total(first.0, other.0);
        }
        assert(first == other);
        // What follows them is sorted too, and holds the same entries.
        let rest_a = a.remove(0);
        let rest_b = b.remove(0);
        assert(rest_a =~= a.drop_first());
        assert(rest_b =~= b.drop_first());
        assert(rest_a.to_multiset() =~= rest_b.to_multiset());
        assert forall|i: int, j: int| 0 <= i < j < rest_a.len() implies !text_lt(
            #[trigger] rest_a[i].0,
            #[trigger] rest_a[j].0,
        ) by {
            assert(rest_a[i] == a[i + 1]);
            assert(rest_a[j] == a[j + 1]);
        }
        assert forall|i: int, j: int| 0 <= i < j < rest_b.len() implies !text_lt(
            #[trigger] rest_b[i].0,
            #[trigger] rest_b[j].0,
        ) by {
            assert(rest_b[i] == b[i + 1]);
            assert(rest_b[j] == b[j + 1]);
        }
        let fewer = rest_a.to_multiset();
        assert(fewer =~= all.remove(first));
        assert forall|x: Entry, y: Entry|
            #![trigger fewer.count(x), fewer.count(y)]
            fewer.count(x) > 0 && fewer.count(y) > 0 && x.0 == y.0 implies x == y && fewer.count(x)
                == 1 by {
            assert(all.count(x) > 0);
            assert(all.count(y) > 0);
        }
        lemma_sorted_is_unique(rest_a, rest_b);
        assert(a =~= seq![first] + rest_a);
        assert(b =~= seq![other] + rest_b);
    }
}

/// With no slug twice, sorting does not depend on the order of what is
/// sorted.
pub proof fn lemma_sort_ignores_order(x: Seq<Entry>, y: Seq<Entry>)
    requires
        x.to_multiset() == y.to_multiset(),
        no_slug_twice(x.to_multiset()),
    ensures
        sort_descending(x) == sort_descending(y),
{
    lemma_sort_descending(x);
    lemma_sort_descending(y);
    lemma_sorted_is_unique(sort_descending(x), sort_descending(y));
}

/// The index does not depend on the order in which the posts were found:
/// where two enumerations of the directory give the same posts, no slug
/// twice, the index is one and the same, and it stands in strictly
/// descending order of slugs.
pub proof fn lemma_index_ignores_order(
    first: Seq<SourceDocumentView>,
    second: Seq<SourceDocumentView>,
)
    requires
        listed_entries(first).to_multiset() == listed_entries(second).to_multiset(),
        no_slug_twice(listed_entries(first).to_multiset()),
    ensures
        post_index(first) == post_index(second),
        forall|i: int, j: int|
            0 <= i < j < post_index(first).len() ==> text_lt(
                #[trigger] post_index(first)[j].0,
                #[trigger] post_index(first)[i].0,
            ),
{
    lemma_sort_ignores_order(listed_entries(first), listed_entries(second));
    lemma_sort_descending(listed_entries(first));
    lemma_sorted_is_strict(post_index(first));
}

} // verus!
