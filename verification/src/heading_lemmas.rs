//! What the title of a document is where its header declares none: the
//! first heading, and without a heading the file stem.

use vstd::prelude::*;
use crate::metadata::{
    first_heading, heading_of, lemma_strip_leading_at, post_metadata, post_title,
};
use crate::text::{is_whitespace, split_on};
use crate::text_lemmas::{free_of, lemma_split_on_concat, lemma_split_on_whole, lemma_trim_core};

verus! {

/// The first heading of two runs of lines is that of the first run, or
/// without one that of the second.
pub proof fn lemma_first_heading_concat(a: Seq<Seq<char>>, b: Seq<Seq<char>>)
    ensures
        first_heading(a + b) == match first_heading(a) {
            Some(h) => Some(h),
            None => first_heading(b),
        },
    decreases a.len(),
{
    if a.len() == 0 {
        assert(a + b =~= b);
    } else {
        assert((a + b)[0] == a[0]);
        assert((a + b).drop_first() =~= a.drop_first() + b);
        lemma_first_heading_concat(a.drop_first(), b);
    }
}

/// Lines have no first heading exactly where none of them holds a heading.
pub proof fn lemma_first_heading_none(lines: Seq<Seq<char>>)
    ensures
        first_heading(lines) is None <==> forall|k: int|
            0 <= k < lines.len() ==> heading_of(#[trigger] lines[k]) is None,
    decreases lines.len(),
{
    if lines.len() > 0 {
        let rest = lines.drop_first();
        lemma_first_heading_none(rest);
        if first_heading(lines) is None {
            assert forall|k: int| 0 <= k < lines.len() implies heading_of(
                #[trigger] lines[k],
            ) is None by {
                if k > 0 {
                    assert(lines[k] == rest[k - 1]);
                }
            }
        } else if heading_of(lines[0]) is None {
            let k = choose|k: int| 0 <= k < rest.len() && heading_of(#[trigger] rest[k]) is Some;
            assert(lines[k + 1] == rest[k]);
        }
    }
}

/// The line `= H` holds the heading `H`, for every `H` that has no
/// whitespace at its ends.
pub proof fn lemma_heading_of_line(heading: Seq<char>)
    requires
        heading.len() > 0 ==> !is_whitespace(heading[0]) && !is_whitespace(heading.last()),
    ensures
        heading_of(seq!['=', ' '] + heading) == Some(heading),
{
    let none = Seq::<char>::empty();
    let line = seq!['=', ' '] + heading;
    if heading.len() == 0 {
        assert(line =~= none + seq!['='] + seq![' ']);
        lemma_trim_core(none, seq!['='], seq![' ']);
        let t = seq!['='];
        lemma_strip_leading_at(t, '=', 1);
        assert(t.subrange(1, 1) =~= none);
        assert(heading =~= none);
        assert(none =~= none + none + none);
        lemma_trim_core(none, none, none);
    } else {
        assert(line =~= none + line + none);
        assert(line.last() == heading.last());
        lemma_trim_core(none, line, none);
        lemma_strip_leading_at(line, '=', 1);
        let rest = line.subrange(1, line.len() as int);
        assert(rest =~= seq![' '] + heading + none);
        lemma_trim_core(seq![' '], heading, none);
    }
}

/// The lines of a text in which a line stands between two line ends: those
/// before it, the line, those after it.
proof fn lemma_lines_around(before: Seq<char>, line: Seq<char>, after: Seq<char>) -> (r: (
    Seq<Seq<char>>,
    Seq<Seq<char>>,
))
    requires
        before.len() == 0 || before.last() == '\n',
        after.len() == 0 || after[0] == '\n',
        free_of(line, '\n'),
    ensures
        split_on(before + line + after, '\n') == r.0 + seq![line] + r.1,
        first_heading(split_on(before, '\n')) is None ==> first_heading(r.0) is None,
{
    let none = Seq::<char>::empty();
    let sep = seq!['\n'];
    lemma_split_on_whole(line, '\n');
    // The line and what follows it.
    let tail = line + after;
    let lines_after = if after.len() == 0 {
        Seq::<Seq<char>>::empty()
    } else {
        split_on(after.drop_first(), '\n')
    };
    if after.len() == 0 {
        assert(tail =~= line);
        assert(seq![line] + lines_after =~= seq![line]);
    } else {
        assert(tail =~= line + sep + after.drop_first());
        lemma_split_on_concat(line, after.drop_first(), '\n');
    }
    assert(split_on(tail, '\n') == seq![line] + lines_after);
    // What stands before the line.
    let lines_before = if before.len() == 0 {
        Seq::<Seq<char>>::empty()
    } else {
        split_on(before.drop_last(), '\n')
    };
    if before.len() == 0 {
        assert(before + line + after =~= tail);
        assert(lines_before + seq![line] + lines_after =~= seq![line] + lines_after);
    } else {
        let head = before.drop_last();
        assert(before + line + after =~= head + sep + tail);
        lemma_split_on_concat(head, tail, '\n');
        assert(lines_before + (seq![line] + lines_after) =~= lines_before + seq![line]
            + lines_after);
        assert(before =~= head + sep + none);
        lemma_split_on_concat(head, none, '\n');
        lemma_first_heading_concat(lines_before, split_on(none, '\n'));
    }
    (lines_before, lines_after)
}

/// A document whose header declares no title, and in which the first line
/// that holds a heading is `= H`, has the title `H`: for every text `before`
/// the line that is empty or ends with a line end and holds no heading, every
/// `H` without line end and without whitespace at its ends, and every text
/// `after` the line that is empty or begins with a line end.
pub proof fn lemma_title_from_heading(
    before: Seq<char>,
    heading: Seq<char>,
    after: Seq<char>,
    stem: Option<Seq<char>>,
)
    requires
        before.len() == 0 || before.last() == '\n',
        after.len() == 0 || after[0] == '\n',
        first_heading(split_on(before, '\n')) is None,
        free_of(heading, '\n'),
        heading.len() > 0 ==> !is_whitespace(heading[0]) && !is_whitespace(heading.last()),
        post_metadata(before + (seq!['=', ' '] + heading) + after).title is None,
    ensures
        post_title(Some(before + (seq!['=', ' '] + heading) + after), stem) == heading,
{
    let line = seq!['=', ' '] + heading;
    assert forall|i: int| 0 <= i < line.len() implies #[trigger] line[i] != '\n' by {
        if i >= 2 {
            assert(line[i] == heading[i - 2]);
        }
    }
    let (lines_before, lines_after) = lemma_lines_around(before, line, after);
    lemma_heading_of_line(heading);
    lemma_first_heading_concat(lines_before, seq![line] + lines_after);
    assert(lines_before + seq![line] + lines_after =~= lines_before + (seq![line] + lines_after));
    assert((seq![line] + lines_after)[0] == line);
}

/// A document whose header declares no title and in which no line holds a
/// heading has the file stem for title, and so has a document that could not
/// be read; without a stem the title is "Untitled".
pub proof fn lemma_title_falls_back_to_stem(content: Seq<char>, stem: Seq<char>)
    requires
        post_metadata(content).title is None,
        first_heading(split_on(content, '\n')) is None,
    ensures
        post_title(Some(content), Some(stem)) == stem,
        post_title(None, Some(stem)) == stem,
        post_title(Some(content), None) == "Untitled"@,
        post_title(None, None) == "Untitled"@,
{
}

/// The title of a document is never taken from a heading where the header
/// declares one: the header comes first.
pub proof fn lemma_header_title_comes_first(content: Seq<char>, stem: Option<Seq<char>>)
    requires
        post_metadata(content).title is Some,
    ensures
        post_title(Some(content), stem) == post_metadata(content).title.unwrap(),
{
}

} // verus!
