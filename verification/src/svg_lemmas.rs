//! What is taken out of a text as an `svg` element: the whole outer element
//! where one stands inside another, and in general the shortest text that
//! holds as many opening as closing tags.

use vstd::prelude::*;
use crate::fragment::{balanced_svg, svg_end};
use crate::text::{first_occurrence, is_first_occurrence, lemma_first_occurrence, occurs_at};
use crate::text_lemmas::free_of;

verus! {

/// The characters of the opening tag.
pub open spec fn open_tag() -> Seq<char> {
    seq!['<', 's', 'v', 'g']
}

/// The characters of the closing tag.
pub open spec fn close_tag() -> Seq<char> {
    seq!['<', '/', 's', 'v', 'g', '>']
}

/// An `svg` element with another inside it: the opening tag, text, the inner
/// element with its own text, more text, the closing tag.
pub open spec fn nested_svg(outer_head: Seq<char>, inner: Seq<char>, outer_tail: Seq<char>) -> Seq<
    char,
> {
    open_tag() + outer_head + open_tag() + inner + close_tag() + outer_tail + close_tag()
}

/// No tag of the kind that `second` tells begins from `from` up to `to`: no
/// `<` there is followed by `second`.
spec fn no_tag_between(input: Seq<char>, second: char, from: int, to: int) -> bool {
    forall|j: int|
        from <= j < to && j + 1 < input.len() ==> !(#[trigger] input[j] == '<' && input[j + 1]
            == second)
}

/// The tags as they are written in the texts.
proof fn lemma_tags()
    ensures
        "<svg"@ == open_tag(),
        "</svg>"@ == close_tag(),
{
    reveal_strlit("<svg");
    reveal_strlit("</svg>");
    assert("<svg"@ =~= open_tag());
    assert("</svg>"@ =~= close_tag());
}

/// A tag that stands at `pos`, with none of its kind beginning between
/// `cursor` and `pos`, is the next of its kind after `cursor`.
proof fn lemma_next_tag(input: Seq<char>, tag: Seq<char>, cursor: int, pos: int)
    requires
        tag.len() >= 2,
        tag[0] == '<',
        0 <= cursor <= pos,
        occurs_at(input, tag, pos),
        no_tag_between(input, tag[1], cursor, pos),
    ensures
        first_occurrence(input, tag, cursor) == Some(pos),
{
    assert forall|j: int| cursor <= j < pos implies !occurs_at(input, tag, j) by {
        if occurs_at(input, tag, j) {
            let window = input.subrange(j, j + tag.len());
            assert(window[0] == tag[0]);
            assert(window[1] == tag[1]);
            assert(input[j] == '<' && input[j + 1] == tag[1]);
        }
    }
    crate::text::lemma_first_occurrence_is(input, tag, cursor, pos);
}

/// Where no tag of a kind begins between `cursor` and `bound`, the next of
/// its kind after `cursor`, if there is one, stands at `bound` or later.
proof fn lemma_no_tag_before(input: Seq<char>, tag: Seq<char>, cursor: int, bound: int)
    requires
        tag.len() >= 2,
        tag[0] == '<',
        0 <= cursor,
        no_tag_between(input, tag[1], cursor, bound),
    ensures
        match first_occurrence(input, tag, cursor) {
            Some(i) => i >= bound,
            None => true,
        },
{
    lemma_first_occurrence(input, tag, cursor);
    if let Some(i) = first_occurrence(input, tag, cursor) {
        if i < bound {
            let window = input.subrange(i, i + tag.len());
            assert(window[0] == tag[0]);
            assert(window[1] == tag[1]);
            assert(input[i] == '<' && input[i + 1] == tag[1]);
        }
    }
}

/// Where the tags of a nested element stand in a text that begins with it,
/// and that no other tag begins inside it.
proof fn lemma_nested_shape(
    outer_head: Seq<char>,
    inner: Seq<char>,
    outer_tail: Seq<char>,
    rest: Seq<char>,
)
    requires
        free_of(outer_head, '<'),
        free_of(inner, '<'),
        free_of(outer_tail, '<'),
    ensures
        ({
            let input = nested_svg(outer_head, inner, outer_tail) + rest;
            let p1: int = outer_head.len() as int + 4;
            let p2: int = p1 + 4 + inner.len();
            let p3: int = p2 + 6 + outer_tail.len();
            &&& nested_svg(outer_head, inner, outer_tail).len() == p3 + 6
            &&& input.subrange(0, p3 + 6) == nested_svg(outer_head, inner, outer_tail)
            &&& occurs_at(input, open_tag(), 0)
            &&& occurs_at(input, open_tag(), p1)
            &&& occurs_at(input, close_tag(), p2)
            &&& occurs_at(input, close_tag(), p3)
            &&& no_tag_between(input, '/', 0, p2)
            &&& no_tag_between(input, '/', p2 + 1, p3)
            &&& no_tag_between(input, 's', 1, p1)
            &&& no_tag_between(input, 's', p1 + 1, p3 + 6)
        }),
{
    let element = nested_svg(outer_head, inner, outer_tail);
    let input = element + rest;
    let p1: int = outer_head.len() as int + 4;
    let p2: int = p1 + 4 + inner.len();
    let p3: int = p2 + 6 + outer_tail.len();
    assert(input.subrange(0, p3 + 6) =~= element);
    assert(input.subrange(0, 4) =~= open_tag());
    assert(input.subrange(p1, p1 + 4) =~= open_tag());
    assert(input.subrange(p2, p2 + 6) =~= close_tag());
    assert(input.subrange(p3, p3 + 6) =~= close_tag());
    // Where a `<` stands inside the element, and what follows it.
    assert forall|j: int| 0 <= j < p3 + 6 && #[trigger] input[j] == '<' implies (j == 0 || j == p1
        || j == p2 || j == p3) by {
        if 4 <= j < p1 {
            assert(input[j] == outer_head[j - 4]);
        } else if p1 + 4 <= j < p2 {
            assert(input[j] == inner[j - p1 - 4]);
        } else if p2 + 6 <= j < p3 {
            assert(input[j] == outer_tail[j - p2 - 6]);
        }
    }
    assert(input[1] == 's');
    assert(input[p1 + 1] == 's');
    assert(input[p2 + 1] == '/');
    assert(input[p3 + 1] == '/');
}

/// An `svg` element that holds another is taken out whole: for texts without
/// `<` between the tags and whatever follows the element, the element that
/// begins at the start of the text is the outer one up to its own closing
/// tag, not up to the closing tag of the inner one.
#[verifier::rlimit(60)]
pub proof fn lemma_nested_svg_is_kept_whole(
    outer_head: Seq<char>,
    inner: Seq<char>,
    outer_tail: Seq<char>,
    rest: Seq<char>,
)
    requires
        free_of(outer_head, '<'),
        free_of(inner, '<'),
        free_of(outer_tail, '<'),
    ensures
        balanced_svg(nested_svg(outer_head, inner, outer_tail) + rest, 0) == Some(
            nested_svg(outer_head, inner, outer_tail),
        ),
{
    lemma_tags();
    lemma_nested_shape(outer_head, inner, outer_tail, rest);
    let input = nested_svg(outer_head, inner, outer_tail) + rest;
    let open = open_tag();
    let close = close_tag();
    let p1: int = outer_head.len() as int + 4;
    let p2: int = p1 + 4 + inner.len();
    let p3: int = p2 + 6 + outer_tail.len();
    // At the start: the outer opening tag, before any closing tag.
    lemma_next_tag(input, open, 0, 0);
    lemma_next_tag(input, close, 0, p2);
    lemma_opening_step(input, 0, 0, 0, p2);
    // Behind it: the inner opening tag, still before any closing tag.
    lemma_next_tag(input, open, 4, p1);
    lemma_next_tag(input, close, 4, p2);
    lemma_opening_step(input, 4, 1, p1, p2);
    // Behind that: the inner closing tag, and no opening tag before it.
    lemma_next_tag(input, close, p1 + 4, p2);
    lemma_no_tag_before(input, open, p1 + 4, p3 + 6);
    lemma_closing_step(input, p1 + 4, 2, p2);
    // At last the outer closing tag, which ends the element.
    lemma_next_tag(input, close, p2 + 6, p3);
    lemma_no_tag_before(input, open, p2 + 6, p3 + 6);
    lemma_closing_step(input, p2 + 6, 1, p3);
}

/// An opening tag that comes before the next closing tag opens one more
/// element, and the scan goes on behind it.
proof fn lemma_opening_step(input: Seq<char>, cursor: int, depth: nat, open: int, close: int)
    requires
        0 <= cursor < input.len(),
        first_occurrence(input, open_tag(), cursor) == Some(open),
        first_occurrence(input, close_tag(), cursor) == Some(close),
        open < close,
    ensures
        svg_end(input, cursor, depth) == svg_end(input, open + 4, depth + 1),
{
    lemma_tags();
}

/// A closing tag with no opening tag before it closes one element: the only
/// one that is open, and the scan ends behind the tag; or one of several, and
/// the scan goes on there.
proof fn lemma_closing_step(input: Seq<char>, cursor: int, depth: nat, close: int)
    requires
        0 <= cursor < input.len(),
        depth >= 1,
        first_occurrence(input, close_tag(), cursor) == Some(close),
        match first_occurrence(input, open_tag(), cursor) {
            Some(open) => open >= close,
            None => true,
        },
    ensures
        depth == 1 ==> svg_end(input, cursor, depth) == Some(close + 6),
        depth > 1 ==> svg_end(input, cursor, depth) == svg_end(
            input,
            close + 6,
            (depth - 1) as nat,
        ),
{
    lemma_tags();
}

/// How often `tag` stands in the text from `start` up to `end`, counting the
/// occurrences that lie wholly between the two.
pub open spec fn count_within(input: Seq<char>, tag: Seq<char>, start: int, end: int) -> nat
    decreases end - start,
{
    if end <= start || end - start < tag.len() {
        0
    } else {
        count_within(input, tag, start, end - 1) + if occurs_at(input, tag, end - tag.len()) {
            1nat
        } else {
            0nat
        }
    }
}

/// The opening tags from `start` up to `end`.
pub open spec fn opens(input: Seq<char>, start: int, end: int) -> nat {
    count_within(input, open_tag(), start, end)
}

/// The closing tags from `start` up to `end`.
pub open spec fn closes(input: Seq<char>, start: int, end: int) -> nat {
    count_within(input, close_tag(), start, end)
}

/// A closing tag ends at `end`, at or after `start`.
pub open spec fn closes_at_end(input: Seq<char>, start: int, end: int) -> bool {
    start <= end - 6 && occurs_at(input, close_tag(), end - 6)
}

/// Over a stretch in which no occurrence of the tag ends, the count stays.
proof fn lemma_count_unchanged(input: Seq<char>, tag: Seq<char>, start: int, a: int, b: int)
    requires
        start <= a <= b,
        tag.len() > 0,
        forall|p: int| start <= p && a < p + tag.len() <= b ==> !#[trigger] occurs_at(input, tag, p),
    ensures
        count_within(input, tag, start, b) == count_within(input, tag, start, a),
    decreases b - a,
{
    if a < b {
        lemma_count_unchanged(input, tag, start, a, b - 1);
        if b - start >= tag.len() {
            assert(!occurs_at(input, tag, b - tag.len()));
        }
    }
}

/// Over a stretch in which one occurrence of the tag ends, the count grows
/// by one.
proof fn lemma_count_one(input: Seq<char>, tag: Seq<char>, start: int, a: int, b: int, t: int)
    requires
        start <= a <= b,
        tag.len() > 0,
        start <= t,
        a < t + tag.len() <= b,
        occurs_at(input, tag, t),
        forall|p: int|
            start <= p && a < p + tag.len() <= b && p != t ==> !#[trigger] occurs_at(input, tag, p),
    ensures
        count_within(input, tag, start, b) == count_within(input, tag, start, a) + 1,
{
    let end = t + tag.len();
    lemma_count_unchanged(input, tag, start, a, end - 1);
    lemma_count_unchanged(input, tag, start, end, b);
}

/// No tag begins before `cursor` and ends behind it.
spec fn no_tag_across(input: Seq<char>, start: int, cursor: int) -> bool {
    &&& forall|p: int|
        start <= p < cursor && p + 4 > cursor ==> !#[trigger] occurs_at(input, open_tag(), p)
    &&& forall|p: int|
        start <= p < cursor && p + 6 > cursor ==> !#[trigger] occurs_at(input, close_tag(), p)
}

/// At every closing tag that ends at or before `cursor`, more opening than
/// closing tags have been seen.
spec fn open_at_every_close(input: Seq<char>, start: int, cursor: int) -> bool {
    forall|p: int|
        start <= p && p + 6 <= cursor && #[trigger] occurs_at(input, close_tag(), p) ==> opens(
            input,
            start,
            p + 6,
        ) > closes(input, start, p + 6)
}

/// What the scan has seen when it stands at `cursor` with `depth` elements
/// open: so many more opening than closing tags, no tag across the cursor,
/// and an element open at every closing tag so far.
spec fn seen(input: Seq<char>, start: int, cursor: int, depth: nat) -> bool {
    &&& 0 <= start <= cursor
    &&& opens(input, start, cursor) == closes(input, start, cursor) + depth
    &&& depth == 0 ==> cursor == start
    &&& no_tag_across(input, start, cursor)
    &&& open_at_every_close(input, start, cursor)
}

/// The element ends at `end`: a closing tag ends there, as many closing as
/// opening tags stand before it, one at least, and at every closing tag
/// before it more opening than closing tags stand, so that no shorter text
/// has as many of the one as of the other.
pub open spec fn is_element_end(input: Seq<char>, start: int, end: int) -> bool {
    &&& closes_at_end(input, start, end)
    &&& opens(input, start, end) == closes(input, start, end)
    &&& opens(input, start, end) >= 1
    &&& forall|p: int|
        start <= p && p + 6 < end && #[trigger] occurs_at(input, close_tag(), p) ==> opens(
            input,
            start,
            p + 6,
        ) > closes(input, start, p + 6)
}

/// There is no element: wherever as many closing as opening tags have been
/// seen at a closing tag, a closing tag has come before any opening tag.
pub open spec fn has_no_element(input: Seq<char>, start: int) -> bool {
    forall|p: int|
        start <= p && #[trigger] occurs_at(input, close_tag(), p) && opens(input, start, p + 6)
            == closes(input, start, p + 6) ==> exists|q: int|
            start <= q <= p && #[trigger] occurs_at(input, close_tag(), q) && opens(
                input,
                start,
                q + 6,
            ) == 0
}

/// No tag begins from `from` up to `to`.
spec fn no_tag_from(input: Seq<char>, from: int, to: int) -> bool {
    &&& forall|p: int| from <= p < to ==> !#[trigger] occurs_at(input, open_tag(), p)
    &&& forall|p: int| from <= p < to ==> !#[trigger] occurs_at(input, close_tag(), p)
}

/// Inside a tag that stands at `t` no tag begins, and the other tag does not
/// stand at `t`.
proof fn lemma_inside_a_tag(input: Seq<char>, t: int)
    ensures
        occurs_at(input, open_tag(), t) ==> !occurs_at(input, close_tag(), t) && no_tag_from(
            input,
            t + 1,
            t + 4,
        ),
        occurs_at(input, close_tag(), t) ==> !occurs_at(input, open_tag(), t) && no_tag_from(
            input,
            t + 1,
            t + 6,
        ),
{
    if occurs_at(input, open_tag(), t) {
        let here = input.subrange(t, t + 4);
        assert(here[1] == 's' && here[2] == 'v' && here[3] == 'g');
        if occurs_at(input, close_tag(), t) {
            assert(input.subrange(t, t + 6)[1] == '/');
        }
        assert forall|p: int| t < p < t + 4 implies !#[trigger] occurs_at(input, open_tag(), p) by {
            assert(input[p] == here[p - t]);
            if occurs_at(input, open_tag(), p) {
                assert(input.subrange(p, p + 4)[0] == '<');
            }
        }
        assert forall|p: int| t < p < t + 4 implies !#[trigger] occurs_at(input, close_tag(), p) by {
            assert(input[p] == here[p - t]);
            if occurs_at(input, close_tag(), p) {
                assert(input.subrange(p, p + 6)[0] == '<');
            }
        }
    }
    if occurs_at(input, close_tag(), t) {
        let here = input.subrange(t, t + 6);
        assert(here[1] == '/' && here[2] == 's' && here[3] == 'v' && here[4] == 'g' && here[5]
            == '>');
        if occurs_at(input, open_tag(), t) {
            assert(input.subrange(t, t + 4)[1] == 's');
        }
        assert forall|p: int| t < p < t + 6 implies !#[trigger] occurs_at(input, open_tag(), p) by {
            assert(input[p] == here[p - t]);
            if occurs_at(input, open_tag(), p) {
                assert(input.subrange(p, p + 4)[0] == '<');
            }
        }
        assert forall|p: int| t < p < t + 6 implies !#[trigger] occurs_at(input, close_tag(), p) by {
            assert(input[p] == here[p - t]);
            if occurs_at(input, close_tag(), p) {
                assert(input.subrange(p, p + 6)[0] == '<');
            }
        }
    }
}

/// Behind an opening tag that comes before the next closing tag, the scan
/// has seen one more opening tag.
proof fn lemma_seen_after_open(
    input: Seq<char>,
    start: int,
    cursor: int,
    depth: nat,
    open: int,
    close: int,
)
    requires
        seen(input, start, cursor, depth),
        first_occurrence(input, open_tag(), cursor) == Some(open),
        first_occurrence(input, close_tag(), cursor) == Some(close),
        open < close,
    ensures
        seen(input, start, open + 4, depth + 1),
{
    lemma_first_occurrence(input, open_tag(), cursor);
    lemma_first_occurrence(input, close_tag(), cursor);
    assert(is_first_occurrence(input, open_tag(), cursor, open));
    assert(is_first_occurrence(input, close_tag(), cursor, close));
    lemma_inside_a_tag(input, open);
    let next = open + 4;
    assert forall|p: int| start <= p && cursor < p + 4 <= next && p != open implies !#[trigger] occurs_at(
        input,
        open_tag(),
        p,
    ) by {
        if p >= cursor {
            assert(p < open);
        }
    }
    lemma_count_one(input, open_tag(), start, cursor, next, open);
    assert forall|p: int| start <= p && cursor < p + 6 <= next implies !#[trigger] occurs_at(
        input,
        close_tag(),
        p,
    ) by {
        if p >= cursor {
            assert(p < close);
        }
    }
    lemma_count_unchanged(input, close_tag(), start, cursor, next);
    assert forall|p: int| start <= p < next && p + 4 > next implies !#[trigger] occurs_at(
        input,
        open_tag(),
        p,
    ) by {
    }
    assert forall|p: int| start <= p < next && p + 6 > next implies !#[trigger] occurs_at(
        input,
        close_tag(),
        p,
    ) by {
        if cursor <= p < open {
            assert(p < close);
        }
    }
    assert forall|p: int|
        start <= p && p + 6 <= next && #[trigger] occurs_at(input, close_tag(), p) implies opens(
        input,
        start,
        p + 6,
    ) > closes(input, start, p + 6) by {
        if p + 6 > cursor {
            if p >= cursor {
                assert(p < close);
            }
        }
    }
}

/// Behind a closing tag with no opening tag before it, the scan has seen
/// one more closing tag; where that was the last element open, the element
/// ends there.
proof fn lemma_seen_after_close(
    input: Seq<char>,
    start: int,
    cursor: int,
    depth: nat,
    close: int,
)
    requires
        seen(input, start, cursor, depth),
        depth >= 1,
        first_occurrence(input, close_tag(), cursor) == Some(close),
        match first_occurrence(input, open_tag(), cursor) {
            Some(open) => open >= close,
            None => true,
        },
    ensures
        depth >= 2 ==> seen(input, start, close + 6, (depth - 1) as nat),
        depth == 1 ==> is_element_end(input, start, close + 6),
{
    lemma_first_occurrence(input, open_tag(), cursor);
    lemma_first_occurrence(input, close_tag(), cursor);
    assert(is_first_occurrence(input, close_tag(), cursor, close));
    lemma_inside_a_tag(input, close);
    let next = close + 6;
    assert forall|p: int| cursor <= p < close implies !#[trigger] occurs_at(input, open_tag(), p) by {
        if let Some(open) = first_occurrence(input, open_tag(), cursor) {
            assert(is_first_occurrence(input, open_tag(), cursor, open));
        }
    }
    assert forall|p: int| start <= p && cursor < p + 6 <= next && p != close implies !#[trigger] occurs_at(
        input,
        close_tag(),
        p,
    ) by {
        if p >= cursor {
            assert(p < close);
        }
    }
    lemma_count_one(input, close_tag(), start, cursor, next, close);
    assert forall|p: int| start <= p && cursor < p + 4 <= next implies !#[trigger] occurs_at(
        input,
        open_tag(),
        p,
    ) by {
    }
    lemma_count_unchanged(input, open_tag(), start, cursor, next);
    assert forall|p: int| start <= p < next && p + 4 > next implies !#[trigger] occurs_at(
        input,
        open_tag(),
        p,
    ) by {
    }
    assert forall|p: int| start <= p < next && p + 6 > next implies !#[trigger] occurs_at(
        input,
        close_tag(),
        p,
    ) by {
    }
    assert forall|p: int|
        start <= p && p + 6 < next && #[trigger] occurs_at(input, close_tag(), p) implies opens(
        input,
        start,
        p + 6,
    ) > closes(input, start, p + 6) by {
        if p + 6 > cursor {
            if p >= cursor {
                assert(p < close);
            }
        }
    }
}

/// Where no closing tag follows the cursor, there is no element.
proof fn lemma_no_element_without_close(input: Seq<char>, start: int, cursor: int, depth: nat)
    requires
        seen(input, start, cursor, depth),
        forall|p: int| cursor <= p ==> !#[trigger] occurs_at(input, close_tag(), p),
    ensures
        has_no_element(input, start),
{
    assert forall|p: int|
        start <= p && #[trigger] occurs_at(input, close_tag(), p) && opens(input, start, p + 6)
            == closes(input, start, p + 6) implies exists|q: int|
        start <= q <= p && #[trigger] occurs_at(input, close_tag(), q) && opens(input, start, q + 6)
            == 0 by {
        if p + 6 <= cursor {
            assert(opens(input, start, p + 6) > closes(input, start, p + 6));
        }
    }
}

/// Where a closing tag comes first, before any opening tag, there is no
/// element.
proof fn lemma_no_element_after_close(input: Seq<char>, start: int, close: int)
    requires
        0 <= start,
        first_occurrence(input, close_tag(), start) == Some(close),
        match first_occurrence(input, open_tag(), start) {
            Some(open) => open >= close,
            None => true,
        },
    ensures
        has_no_element(input, start),
{
    lemma_first_occurrence(input, open_tag(), start);
    lemma_first_occurrence(input, close_tag(), start);
    assert(is_first_occurrence(input, close_tag(), start, close));
    lemma_inside_a_tag(input, close);
    assert forall|p: int| start <= p < close implies !#[trigger] occurs_at(input, open_tag(), p) by {
        if let Some(open) = first_occurrence(input, open_tag(), start) {
            assert(is_first_occurrence(input, open_tag(), start, open));
        }
    }
    assert forall|p: int| start <= p && start < p + 4 <= close + 6 implies !#[trigger] occurs_at(
        input,
        open_tag(),
        p,
    ) by {
    }
    lemma_count_unchanged(input, open_tag(), start, start, close + 6);
    assert(opens(input, start, close + 6) == 0);
    assert forall|p: int|
        start <= p && #[trigger] occurs_at(input, close_tag(), p) && opens(input, start, p + 6)
            == closes(input, start, p + 6) implies exists|q: int|
        start <= q <= p && #[trigger] occurs_at(input, close_tag(), q) && opens(input, start, q + 6)
            == 0 by {
        assert(close <= p);
        assert(occurs_at(input, close_tag(), close));
    }
}

/// What the scan comes to, in counts of tags: it ends an element where as
/// many closing as opening tags have been seen for the first time, and it
/// gives up only where there is no element.
proof fn lemma_scan_in_counts(input: Seq<char>, start: int, cursor: int, depth: nat)
    requires
        seen(input, start, cursor, depth),
    ensures
        match svg_end(input, cursor, depth) {
            Some(end) => is_element_end(input, start, end),
            None => has_no_element(input, start),
        },
    decreases input.len() - cursor,
{
    lemma_tags();
    lemma_first_occurrence(input, open_tag(), cursor);
    lemma_first_occurrence(input, close_tag(), cursor);
    if cursor >= input.len() {
        lemma_no_element_without_close(input, start, cursor, depth);
    } else {
        let next_open = first_occurrence(input, open_tag(), cursor);
        match first_occurrence(input, close_tag(), cursor) {
            None => {
                lemma_no_element_without_close(input, start, cursor, depth);
            },
            Some(close) => {
                assert(is_first_occurrence(input, close_tag(), cursor, close));
                if next_open is Some && next_open.unwrap() < close {
                    let open = next_open.unwrap();
                    assert(is_first_occurrence(input, open_tag(), cursor, open));
                    lemma_seen_after_open(input, start, cursor, depth, open, close);
                    lemma_scan_in_counts(input, start, open + 4, depth + 1);
                } else {
                    lemma_inside_a_tag(input, close);
                    if depth == 0 {
                        lemma_no_element_after_close(input, start, close);
                    } else {
                        lemma_seen_after_close(input, start, cursor, depth, close);
                        if depth > 1 {
                            lemma_scan_in_counts(input, start, close + 6, (depth - 1) as nat);
                        }
                    }
                }
            },
        }
    }
}

/// A text has an element that ends somewhere, or it has none, never both.
pub proof fn lemma_element_or_none(input: Seq<char>, start: int, end: int)
    requires
        is_element_end(input, start, end),
    ensures
        !has_no_element(input, start),
{
    if has_no_element(input, start) {
        let p = end - 6;
        assert(occurs_at(input, close_tag(), p));
        let q = choose|q: int|
            start <= q <= p && #[trigger] occurs_at(input, close_tag(), q) && opens(
                input,
                start,
                q + 6,
            ) == 0;
        if q < p {
            assert(opens(input, start, q + 6) > closes(input, start, q + 6));
        }
    }
}

/// The `svg` element that is taken out at `start` is the shortest text from
/// there that ends with a closing tag and holds as many opening as closing
/// tags, one at least. None is taken out only where there is no such text,
/// or a closing tag comes before the first opening tag.
pub proof fn lemma_balanced_svg_in_counts(input: Seq<char>, start: int)
    requires
        0 <= start,
    ensures
        match balanced_svg(input, start) {
            Some(element) => element == input.subrange(start, start + element.len())
                && is_element_end(input, start, start + element.len()) && !has_no_element(
                input,
                start,
            ),
            None => has_no_element(input, start),
        },
{
    assert(seen(input, start, start, 0));
    lemma_scan_in_counts(input, start, start, 0);
    lemma_tags();
    if let Some(end) = svg_end(input, start, 0) {
        assert(start <= end - 6);
        assert(end <= input.len());
        lemma_element_or_none(input, start, end);
    }
}

} // verus!
