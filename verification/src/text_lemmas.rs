//! Facts about searching, trimming and splitting texts that are put
//! together from parts.

use vstd::prelude::*;
use crate::text::{
    first_occurrence, is_first_occurrence, is_whitespace, lemma_first_occurrence,
    lemma_first_occurrence_is, lemma_trim_end_at, lemma_trim_start_at, occurs_at, split_on,
    starts_with, trim, trim_start,
};

verus! {

/// `sep` is not among the characters of `s`.
pub open spec fn free_of(s: Seq<char>, sep: char) -> bool {
    forall|i: int| 0 <= i < s.len() ==> #[trigger] s[i] != sep
}

/// A text that begins with the needle has its first occurrence at the start.
pub proof fn lemma_first_occurrence_at_start(hay: Seq<char>, needle: Seq<char>)
    requires
        starts_with(hay, needle),
    ensures
        first_occurrence(hay, needle, 0) == Some(0int),
{
    lemma_first_occurrence_is(hay, needle, 0, 0);
}

/// What follows a text does not move the first occurrence in it.
pub proof fn lemma_first_occurrence_extends(
    hay: Seq<char>,
    more: Seq<char>,
    needle: Seq<char>,
    i: int,
)
    requires
        first_occurrence(hay, needle, 0) == Some(i),
    ensures
        first_occurrence(hay + more, needle, 0) == Some(i),
{
    lemma_first_occurrence(hay, needle, 0);
    let whole = hay + more;
    assert(whole.subrange(i, i + needle.len()) =~= hay.subrange(i, i + needle.len()));
    assert(is_first_occurrence(hay, needle, 0, i));
    assert forall|j: int| 0 <= j < i implies !occurs_at(whole, needle, j) by {
        if occurs_at(whole, needle, j) {
            assert(hay.subrange(j, j + needle.len()) =~= whole.subrange(j, j + needle.len()));
            assert(occurs_at(hay, needle, j));
        }
    }
    lemma_first_occurrence_is(whole, needle, 0, i);
}

/// Splitting a text that holds a separator gives the pieces of what stands
/// before it, then the pieces of what stands after it.
pub proof fn lemma_split_on_concat(a: Seq<char>, b: Seq<char>, sep: char)
    ensures
        split_on(a + seq![sep] + b, sep) == split_on(a, sep) + split_on(b, sep),
    decreases b.len(),
{
    let whole = a + seq![sep] + b;
    if b.len() == 0 {
        assert(whole.drop_last() =~= a);
        assert(whole.last() == sep);
        assert(split_on(b, sep) =~= seq![Seq::<char>::empty()]);
        assert(split_on(a, sep).push(Seq::<char>::empty()) =~= split_on(a, sep) + split_on(
            b,
            sep,
        ));
    } else {
        let shorter = b.drop_last();
        lemma_split_on_concat(a, shorter, sep);
        crate::text::lemma_split_on_nonempty(shorter, sep);
        crate::text::lemma_split_on_nonempty(a, sep);
        assert(whole.drop_last() =~= a + seq![sep] + shorter);
        assert(whole.last() == b.last());
        let left = split_on(a, sep);
        let right = split_on(shorter, sep);
        let before = left + right;
        assert(before.last() == right.last());
        if b.last() == sep {
            assert(before.push(Seq::<char>::empty()) =~= left + right.push(Seq::<char>::empty()));
        } else {
            assert(before.drop_last().push(before.last().push(b.last())) =~= left
                + right.drop_last().push(right.last().push(b.last())));
        }
    }
}

/// A text without separator is one piece.
pub proof fn lemma_split_on_whole(s: Seq<char>, sep: char)
    requires
        free_of(s, sep),
    ensures
        split_on(s, sep) == seq![s],
    decreases s.len(),
{
    if s.len() == 0 {
        assert(s =~= Seq::<char>::empty());
    } else {
        let shorter = s.drop_last();
        assert forall|i: int| 0 <= i < shorter.len() implies #[trigger] shorter[i] != sep by {
            assert(shorter[i] == s[i]);
        }
        lemma_split_on_whole(shorter, sep);
        assert(shorter.push(s.last()) =~= s);
        assert(seq![shorter].drop_last() =~= Seq::<Seq<char>>::empty());
        assert(seq![shorter].drop_last().push(shorter.push(s.last())) =~= seq![s]);
    }
}

/// Trimming takes the whitespace off both ends of a text that has a core
/// without whitespace at its own ends.
pub proof fn lemma_trim_core(before: Seq<char>, core: Seq<char>, after: Seq<char>)
    requires
        forall|i: int| 0 <= i < before.len() ==> is_whitespace(#[trigger] before[i]),
        forall|i: int| 0 <= i < after.len() ==> is_whitespace(#[trigger] after[i]),
        core.len() > 0 ==> !is_whitespace(core[0]) && !is_whitespace(core.last()),
    ensures
        trim(before + core + after) == core,
{
    let whole = before + core + after;
    if core.len() == 0 {
        assert forall|j: int| 0 <= j < whole.len() implies is_whitespace(whole[j]) by {
            if j < before.len() {
                assert(whole[j] == before[j]);
            } else {
                assert(whole[j] == after[j - before.len()]);
            }
        }
        lemma_trim_start_at(whole, whole.len() as int);
        assert(whole.subrange(whole.len() as int, whole.len() as int) =~= core);
    } else {
        let k = before.len() as int;
        assert forall|j: int| 0 <= j < k implies is_whitespace(whole[j]) by {
            assert(whole[j] == before[j]);
        }
        assert(whole[k] == core[0]);
        lemma_trim_start_at(whole, k);
        let rest = whole.subrange(k, whole.len() as int);
        assert(rest =~= core + after);
        let n = core.len() as int;
        assert forall|j: int| n <= j < rest.len() implies is_whitespace(rest[j]) by {
            assert(rest[j] == after[j - n]);
        }
        assert(rest[n - 1] == core.last());
        lemma_trim_end_at(rest, n);
        assert(rest.subrange(0, n) =~= core);
    }
}

/// Trimming at the start takes the whitespace off a text whose rest begins
/// with another character.
pub proof fn lemma_trim_start_core(before: Seq<char>, rest: Seq<char>)
    requires
        forall|i: int| 0 <= i < before.len() ==> is_whitespace(#[trigger] before[i]),
        rest.len() > 0 ==> !is_whitespace(rest[0]),
    ensures
        trim_start(before + rest) == rest,
{
    let whole = before + rest;
    let k = before.len() as int;
    assert forall|j: int| 0 <= j < k implies is_whitespace(whole[j]) by {
        assert(whole[j] == before[j]);
    }
    if rest.len() > 0 {
        assert(whole[k] == rest[0]);
    }
    lemma_trim_start_at(whole, k);
    assert(whole.subrange(k, whole.len() as int) =~= rest);
}

} // verus!
