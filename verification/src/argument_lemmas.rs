//! Facts about string literals and about the parting of a call's arguments
//! at its top-level commas.

use vstd::prelude::*;
use crate::metadata::{
    arguments, lemma_arguments_nonempty, named_date, named_string, named_value, scan, scan_step,
    top_level, unescape_until_quote, value_of, ScanMode, ScanState,
};
use crate::scan_lemmas::{
    is_balanced, lemma_never_below_concat, lemma_never_below_one, lemma_scan_concat,
    lemma_scan_one, never_below, plain, quoted,
};

verus! {

/// Text that can stand between the quotes of a string literal: a backslash
/// takes the character behind it along, and no quote stands without one.
pub open spec fn is_literal_body(body: Seq<char>) -> bool
    decreases body.len(),
{
    if body.len() == 0 {
        true
    } else if body[0] == '"' {
        false
    } else if body[0] == '\\' {
        body.len() >= 2 && is_literal_body(body.subrange(2, body.len() as int))
    } else {
        is_literal_body(body.drop_first())
    }
}

/// What the body of a string literal stands for: its characters, each
/// backslash left out and the character behind it kept.
pub open spec fn literal_value(body: Seq<char>) -> Seq<char>
    decreases body.len(),
{
    if body.len() == 0 {
        Seq::<char>::empty()
    } else if body[0] == '\\' && body.len() >= 2 {
        seq![body[1]] + literal_value(body.subrange(2, body.len() as int))
    } else {
        seq![body[0]] + literal_value(body.drop_first())
    }
}

/// A text as the body of a string literal: a backslash is put before every
/// quote and every backslash.
pub open spec fn escaped(text: Seq<char>) -> Seq<char>
    decreases text.len(),
{
    if text.len() == 0 {
        Seq::<char>::empty()
    } else if text[0] == '"' || text[0] == '\\' {
        seq!['\\', text[0]] + escaped(text.drop_first())
    } else {
        seq![text[0]] + escaped(text.drop_first())
    }
}

/// While scanning `s` from `st`, the scanner is never in plain text, and the
/// count of open parentheses does not change.
pub open spec fn stays_inside(st: ScanState, s: Seq<char>) -> bool {
    forall|k: int|
        0 <= k <= s.len() ==> (#[trigger] scan(st, s.take(k))).mode != ScanMode::Plain && scan(
            st,
            s.take(k),
        ).depth == st.depth
}

/// What holds inside over each of two parts holds over both.
proof fn lemma_stays_inside_concat(st: ScanState, a: Seq<char>, b: Seq<char>)
    requires
        stays_inside(st, a),
        stays_inside(scan(st, a), b),
    ensures
        stays_inside(st, a + b),
{
    let whole = a + b;
    assert(a.take(a.len() as int) =~= a);
    assert forall|k: int| 0 <= k <= whole.len() implies (#[trigger] scan(st, whole.take(k))).mode
        != ScanMode::Plain && scan(st, whole.take(k)).depth == st.depth by {
        if k <= a.len() {
            assert(whole.take(k) =~= a.take(k));
        } else {
            let rest = b.take(k - a.len());
            assert(whole.take(k) =~= a + rest);
            lemma_scan_concat(st, a, rest);
            assert(scan(scan(st, a), rest).mode != ScanMode::Plain);
        }
    }
}

/// Inside a string literal the scanner passes over a literal body without
/// leaving the literal, and comes out of it as it went in.
pub proof fn lemma_scan_body(depth: int, body: Seq<char>)
    requires
        is_literal_body(body),
    ensures
        scan(quoted(depth), body) == quoted(depth),
        stays_inside(quoted(depth), body),
    decreases body.len(),
{
    let st = quoted(depth);
    if body.len() == 0 {
        assert forall|k: int| 0 <= k <= body.len() implies (#[trigger] scan(st, body.take(k))).mode
            != ScanMode::Plain && scan(st, body.take(k)).depth == st.depth by {
            assert(body.take(k) =~= body);
        }
    } else {
        let n: int = if body[0] == '\\' {
            2
        } else {
            1
        };
        let head = body.take(n);
        let rest = body.subrange(n, body.len() as int);
        assert(body =~= head + rest);
        assert(n == 1 ==> rest =~= body.drop_first());
        lemma_scan_body(depth, rest);
        // The head leaves the scanner inside the literal.
        assert(head.take(0) =~= Seq::<char>::empty());
        assert(head.take(1) =~= seq![body[0]]);
        lemma_scan_one(st, body[0]);
        if n == 2 {
            assert(head =~= seq![body[0]] + seq![body[1]]);
            lemma_scan_concat(st, seq![body[0]], seq![body[1]]);
            lemma_scan_one(scan_step(st, body[0]), body[1]);
        } else {
            assert(head =~= seq![body[0]]);
        }
        assert(scan(st, head) == st);
        assert forall|k: int| 0 <= k <= head.len() implies (#[trigger] scan(st, head.take(k))).mode
            != ScanMode::Plain && scan(st, head.take(k)).depth == st.depth by {
            if k == 0 {
            } else if k == 1 {
            } else {
                assert(head.take(k) =~= head);
            }
        }
        lemma_scan_concat(st, head, rest);
        lemma_stays_inside_concat(st, head, rest);
    }
}

/// A string literal is balanced, whatever its body holds.
pub proof fn lemma_balanced_body(body: Seq<char>)
    requires
        is_literal_body(body),
    ensures
        is_balanced(seq!['"'] + body + seq!['"']),
{
    let quote = seq!['"'];
    lemma_scan_one(plain(0), '"');
    lemma_never_below_one(plain(0), '"', 0);
    lemma_scan_body(0, body);
    assert(never_below(quoted(0), body, 0));
    lemma_scan_concat(plain(0), quote, body);
    lemma_never_below_concat(plain(0), quote, body, 0);
    lemma_scan_one(quoted(0), '"');
    lemma_never_below_one(quoted(0), '"', 0);
    lemma_scan_concat(plain(0), quote + body, quote);
    lemma_never_below_concat(plain(0), quote + body, quote, 0);
}

/// A string literal stands for the value of its body.
pub proof fn lemma_unescape_body(body: Seq<char>, tail: Seq<char>)
    requires
        is_literal_body(body),
    ensures
        unescape_until_quote(body + seq!['"'] + tail) == Some(literal_value(body)),
    decreases body.len(),
{
    let s = body + seq!['"'] + tail;
    if body.len() == 0 {
        assert(s[0] == '"');
    } else if body[0] == '\\' {
        let rest = body.subrange(2, body.len() as int);
        assert(s[0] == body[0]);
        assert(s[1] == body[1]);
        lemma_unescape_body(rest, tail);
        assert(s.subrange(2, s.len() as int) =~= rest + seq!['"'] + tail);
    } else {
        let rest = body.drop_first();
        assert(s[0] == body[0]);
        lemma_unescape_body(rest, tail);
        assert(s.drop_first() =~= rest + seq!['"'] + tail);
    }
}

/// Every text can be written as the body of a string literal, and is read
/// back from it as it was.
pub proof fn lemma_escaped(text: Seq<char>)
    ensures
        is_literal_body(escaped(text)),
        literal_value(escaped(text)) == text,
    decreases text.len(),
{
    if text.len() > 0 {
        let rest = text.drop_first();
        lemma_escaped(rest);
        let body = escaped(text);
        if text[0] == '"' || text[0] == '\\' {
            assert(body[0] == '\\');
            assert(body[1] == text[0]);
            assert(body.subrange(2, body.len() as int) =~= escaped(rest));
        } else {
            assert(body[0] == text[0]);
            assert(body.drop_first() =~= escaped(rest));
        }
        assert(seq![text[0]] + rest =~= text);
    }
}

/// No comma of `s` stands at the top level.
pub open spec fn has_no_top_level_comma(s: Seq<char>) -> bool {
    forall|i: int|
        0 <= i < s.len() && s[i] == ',' ==> #[trigger] scan(top_level(), s.take(i))
            != top_level()
}

/// A text without comma at the top level is one argument.
pub proof fn lemma_arguments_whole(s: Seq<char>)
    requires
        has_no_top_level_comma(s),
    ensures
        arguments(s) == seq![s],
    decreases s.len(),
{
    if s.len() == 0 {
        assert(s =~= Seq::<char>::empty());
    } else {
        let shorter = s.drop_last();
        assert forall|i: int| 0 <= i < shorter.len() && shorter[i] == ',' implies #[trigger] scan(
            top_level(),
            shorter.take(i),
        ) != top_level() by {
            assert(shorter[i] == s[i]);
            assert(shorter.take(i) =~= s.take(i));
            assert(scan(top_level(), s.take(i)) != top_level());
        }
        lemma_arguments_whole(shorter);
        assert(s.take(s.len() - 1) =~= shorter);
        assert(s[s.len() - 1] == s.last());
        if s.last() == ',' {
            assert(scan(top_level(), s.take(s.len() - 1)) != top_level());
        }
        assert(shorter.push(s.last()) =~= s);
        assert(seq![shorter].drop_last() =~= Seq::<Seq<char>>::empty());
        assert(seq![shorter].drop_last().push(shorter.push(s.last())) =~= seq![s]);
    }
}

/// Behind a text that ends at the top level, a comma parts the arguments:
/// those before it, then those after it.
pub proof fn lemma_arguments_concat(a: Seq<char>, b: Seq<char>)
    requires
        scan(top_level(), a) == top_level(),
    ensures
        arguments(a + seq![','] + b) == arguments(a) + arguments(b),
    decreases b.len(),
{
    let whole = a + seq![','] + b;
    if b.len() == 0 {
        assert(whole.drop_last() =~= a);
        assert(whole.last() == ',');
        assert(arguments(b) =~= seq![Seq::<char>::empty()]);
        assert(arguments(a).push(Seq::<char>::empty()) =~= arguments(a) + arguments(b));
    } else {
        let shorter = b.drop_last();
        lemma_arguments_concat(a, shorter);
        lemma_arguments_nonempty(shorter);
        lemma_arguments_nonempty(a);
        assert(whole.drop_last() =~= a + seq![','] + shorter);
        assert(whole.last() == b.last());
        // Behind the comma the scanner stands as at the start.
        lemma_scan_concat(top_level(), a, seq![',']);
        lemma_scan_one(top_level(), ',');
        lemma_scan_concat(top_level(), a + seq![','], shorter);
        let left = arguments(a);
        let right = arguments(shorter);
        let before = left + right;
        assert(before.last() == right.last());
        if b.last() == ',' && scan(top_level(), shorter) == top_level() {
            assert(before.push(Seq::<char>::empty()) =~= left + right.push(Seq::<char>::empty()));
        } else {
            assert(before.drop_last().push(before.last().push(b.last())) =~= left
                + right.drop_last().push(right.last().push(b.last())));
        }
    }
}

/// The argument is one whole argument of a call: it ends at the top level,
/// with every string literal and every parenthesis closed, and holds no
/// comma at the top level.
pub open spec fn is_one_argument(argument: Seq<char>) -> bool {
    scan(top_level(), argument) == top_level() && has_no_top_level_comma(argument)
}

/// The value of a name among arguments is that of the first argument if it
/// has the name, and else that of the name among the others.
proof fn lemma_named_value_of_first(first: Seq<char>, others: Seq<Seq<char>>, key: Seq<char>)
    ensures
        named_value(seq![first] + others, key) == match value_of(first, key) {
            Some(value) => Some(value),
            None => named_value(others, key),
        },
{
    let all = seq![first] + others;
    assert(all[0] == first);
    assert(all.drop_first() =~= others);
}

/// An argument of another name does not stand in the way: before the
/// arguments `rest`, it changes neither the string nor the date that a name
/// gives. So arguments that are not looked for may stand before those that
/// are, in any number.
pub proof fn lemma_other_argument_is_passed_over(
    other: Seq<char>,
    rest: Seq<char>,
    key: Seq<char>,
)
    requires
        is_one_argument(other),
        value_of(other, key) is None,
    ensures
        named_value(arguments(other + seq![','] + rest), key) == named_value(arguments(rest), key),
        named_string(other + seq![','] + rest, key) == named_string(rest, key),
        named_date(other + seq![','] + rest, key) == named_date(rest, key),
{
    lemma_arguments_concat(other, rest);
    lemma_arguments_whole(other);
    lemma_named_value_of_first(other, arguments(rest), key);
}

/// The first argument of a name decides: whatever arguments follow it, of
/// that name or another, the name has the value of that argument.
pub proof fn lemma_first_argument_decides(argument: Seq<char>, rest: Seq<char>, key: Seq<char>)
    requires
        is_one_argument(argument),
        value_of(argument, key) is Some,
    ensures
        named_value(arguments(argument + seq![','] + rest), key) == value_of(argument, key),
        named_value(arguments(argument), key) == value_of(argument, key),
        named_string(argument + seq![','] + rest, key) == named_string(argument, key),
        named_date(argument + seq![','] + rest, key) == named_date(argument, key),
{
    lemma_arguments_concat(argument, rest);
    lemma_arguments_whole(argument);
    lemma_named_value_of_first(argument, arguments(rest), key);
    lemma_named_value_of_first(argument, Seq::<Seq<char>>::empty(), key);
    assert(seq![argument] + Seq::<Seq<char>>::empty() =~= seq![argument]);
}

} // verus!
