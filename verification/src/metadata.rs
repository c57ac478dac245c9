//! Title and date of a post, read from the `#post(...)` header of its source.
//!
//! The header is a call written in the document's markup. Its arguments are
//! found by a scanner that counts parentheses and passes over string
//! literals; the title is a quoted string, the date a nested `datetime(...)`
//! call with `year`, `month` and `day`.

use vstd::prelude::*;
use crate::decimal::{parse_decimal_u32, parse_u32, zero_padded, zero_padded_decimal};
use crate::text::{
    chars_of, find, first_occurrence, is_first_occurrence, lemma_first_occurrence, matches_at,
    opt_chars, opt_view, split_on, split_on_char, starts_with, string_of, trim, trim_slice,
    trim_start, trim_start_slice, views,
};

verus! {

/// Where the parenthesis scanner stands: in plain text, inside a string
/// literal, or inside one just after a backslash.
#[derive(Clone, Copy, PartialEq, Eq, Debug)]
pub enum ScanMode {
    Plain,
    Quoted,
    Escaped,
}

/// The scanner's state: how many parentheses are open, and the mode.
pub struct ScanState {
    pub depth: int,
    pub mode: ScanMode,
}

/// The state just after the opening parenthesis of a call.
pub open spec fn opening() -> ScanState {
    ScanState { depth: 1, mode: ScanMode::Plain }
}

/// The state after one more character. Inside a string literal a
/// parenthesis counts for nothing, a backslash takes the next character with
/// it, and a quote ends the literal.
pub open spec fn scan_step(st: ScanState, c: char) -> ScanState {
    match st.mode {
        ScanMode::Escaped => ScanState { depth: st.depth, mode: ScanMode::Quoted },
        ScanMode::Quoted => if c == '\\' {
            ScanState { depth: st.depth, mode: ScanMode::Escaped }
        } else if c == '"' {
            ScanState { depth: st.depth, mode: ScanMode::Plain }
        } else {
            st
        },
        ScanMode::Plain => if c == '"' {
            ScanState { depth: st.depth, mode: ScanMode::Quoted }
        } else if c == '(' {
            ScanState { depth: st.depth + 1, mode: ScanMode::Plain }
        } else if c == ')' {
            ScanState { depth: st.depth - 1, mode: ScanMode::Plain }
        } else {
            st
        },
    }
}

/// The state after the characters of `s`, starting from `st`.
pub open spec fn scan(st: ScanState, s: Seq<char>) -> ScanState
    decreases s.len(),
{
    if s.len() == 0 {
        st
    } else {
        scan_step(scan(st, s.drop_last()), s.last())
    }
}

/// The character at position `n` of `s` brings the count of open
/// parentheses to zero, `s` being the text after an opening parenthesis.
pub open spec fn closes_at(s: Seq<char>, n: int) -> bool {
    0 <= n < s.len() && scan(opening(), s.take(n + 1)).depth == 0
}

/// Position `n` is the first at which the call closes.
pub open spec fn is_block_end(s: Seq<char>, n: int) -> bool {
    &&& closes_at(s, n)
    &&& forall|m: int| 0 <= m < n ==> !closes_at(s, m)
}

/// The position of the parenthesis that closes the call whose arguments begin
/// `s`, if the call is closed at all.
pub open spec fn block_end(s: Seq<char>) -> Option<int> {
    if exists|n: int| is_block_end(s, n) {
        Some(choose|n: int| is_block_end(s, n))
    } else {
        None
    }
}

/// The text between the parentheses of the first call in `input` that
/// `marker` introduces, the marker ending with the opening parenthesis.
/// `None` where the marker is absent or the call is never closed.
pub open spec fn balanced_block(input: Seq<char>, marker: Seq<char>) -> Option<Seq<char>> {
    match first_occurrence(input, marker, 0) {
        None => None,
        Some(i) => {
            let rest = input.subrange(i + marker.len(), input.len() as int);
            match block_end(rest) {
                None => None,
                Some(n) => Some(rest.take(n)),
            }
        },
    }
}

/// The first closing position is the only one: it is what `block_end` names.
pub proof fn lemma_block_end_is(s: Seq<char>, n: int)
    requires
        is_block_end(s, n),
    ensures
        block_end(s) == Some(n),
{
    let c = choose|k: int| is_block_end(s, k);
    assert(is_block_end(s, c));
    if c < n {
        assert(!closes_at(s, c));
    } else if n < c {
        assert(!closes_at(s, n));
    }
}

/// The arguments of the first call that `marker` introduces.
pub fn parenthesized_block<'a>(input: &'a [char], marker: &[char]) -> (r: Option<&'a [char]>)
    ensures
        opt_view(r) == balanced_block(input@, marker@),
{
    let end = input.len();
    let found = find(input, marker);
    let start: usize = match found {
        None => {
            return None;
        },
        Some(i) => {
            proof {
                lemma_first_occurrence(input@, marker@, 0);
                assert(is_first_occurrence(input@, marker@, 0, i as int));
                assert(i + marker@.len() <= input@.len());
            }
            i + marker.len()
        },
    };
    let rest = vstd::slice::slice_subrange(input, start, end);
    // Parentheses open inside the call; the call's own is one more.
    let mut nested: usize = 0;
    let mut mode = ScanMode::Plain;
    let mut idx: usize = 0;
    assert(rest@.take(0) =~= Seq::<char>::empty());
    while idx < rest.len()
        invariant
            idx <= rest.len(),
            nested <= idx,
            first_occurrence(input@, marker@, 0) == Some(start - marker@.len()),
            rest@ == input@.subrange(start as int, input@.len() as int),
            scan(opening(), rest@.take(idx as int)) == (ScanState { depth: nested + 1, mode }),
            forall|m: int| 0 <= m < idx ==> !closes_at(rest@, m),
        decreases rest.len() - idx,
    {
        let ch = rest[idx];
        proof {
            assert(rest@.take(idx + 1).drop_last() =~= rest@.take(idx as int));
            assert(rest@.take(idx + 1).last() == ch);
        }
        match mode {
            ScanMode::Escaped => {
                mode = ScanMode::Quoted;
            },
            ScanMode::Quoted => {
                if ch == '\\' {
                    mode = ScanMode::Escaped;
                } else if ch == '"' {
                    mode = ScanMode::Plain;
                }
            },
            ScanMode::Plain => {
                if ch == '"' {
                    mode = ScanMode::Quoted;
                } else if ch == '(' {
                    nested += 1;
                } else if ch == ')' {
                    if nested == 0 {
                        proof {
                            lemma_block_end_is(rest@, idx as int);
                        }
                        return Some(vstd::slice::slice_subrange(rest, 0, idx));
                    }
                    nested -= 1;
                }
            },
        }
        idx += 1;
    }
    None
}

/// `tail` with `head` put in front of it, where there is a tail.
pub open spec fn prepend(head: Seq<char>, tail: Option<Seq<char>>) -> Option<Seq<char>> {
    match tail {
        Some(t) => Some(head + t),
        None => None,
    }
}

/// What a string literal stands for, `s` being the text after its opening
/// quote: the characters up to the closing quote, a backslash standing for
/// the character that follows it. `None` where the literal is never closed.
pub open spec fn unescape_until_quote(s: Seq<char>) -> Option<Seq<char>>
    decreases s.len(),
{
    if s.len() == 0 {
        None
    } else if s[0] == '"' {
        Some(Seq::<char>::empty())
    } else if s[0] == '\\' {
        if s.len() < 2 {
            None
        } else {
            prepend(seq![s[1]], unescape_until_quote(s.subrange(2, s.len() as int)))
        }
    } else {
        prepend(seq![s[0]], unescape_until_quote(s.drop_first()))
    }
}

/// The scanner in plain text at the outermost level of a call's arguments.
pub open spec fn top_level() -> ScanState {
    ScanState { depth: 0, mode: ScanMode::Plain }
}

/// The arguments of a call, one by one: the arguments text parted at every
/// comma that stands at the outermost level, that is outside every string
/// literal and every pair of parentheses. The commas are left out; a text
/// without such a comma is one argument.
pub open spec fn arguments(args: Seq<char>) -> Seq<Seq<char>>
    decreases args.len(),
{
    if args.len() == 0 {
        seq![Seq::<char>::empty()]
    } else {
        let before = arguments(args.drop_last());
        if args.last() == ',' && scan(top_level(), args.drop_last()) == top_level() {
            before.push(Seq::<char>::empty())
        } else {
            before.drop_last().push(before.last().push(args.last()))
        }
    }
}

/// The value of an argument of the name `key`: an argument that, after
/// optional whitespace, begins with the key and a colon gives what follows
/// the colon, without leading whitespace. Any other argument gives nothing.
pub open spec fn value_of(argument: Seq<char>, key: Seq<char>) -> Option<Seq<char>> {
    let text = trim_start(argument);
    if starts_with(text, key.push(':')) {
        Some(trim_start(text.subrange(key.len() as int + 1, text.len() as int)))
    } else {
        None
    }
}

/// The value of the first argument of the name `key`.
pub open spec fn named_value(arguments: Seq<Seq<char>>, key: Seq<char>) -> Option<Seq<char>>
    decreases arguments.len(),
{
    if arguments.len() == 0 {
        None
    } else {
        match value_of(arguments[0], key) {
            Some(value) => Some(value),
            None => named_value(arguments.drop_first(), key),
        }
    }
}

/// The string that the argument `key` of a call gives: the value of the
/// first argument of that name must be a quoted literal, which is unescaped.
/// `None` where no argument has the name, the value is no string literal, or
/// the literal is never closed.
pub open spec fn named_string(args: Seq<char>, key: Seq<char>) -> Option<Seq<char>> {
    match named_value(arguments(args), key) {
        None => None,
        Some(value) => if value.len() > 0 && value[0] == '"' {
            unescape_until_quote(value.drop_first())
        } else {
            None
        },
    }
}

/// The number given for `name` (a word ending with a colon) among
/// comma-separated parts: that of the last part which, trimmed, begins with
/// the name. `None` where no part does, or where what follows the name in
/// that part is no number.
pub open spec fn field_value(parts: Seq<Seq<char>>, name: Seq<char>) -> Option<u32>
    decreases parts.len(),
{
    if parts.len() == 0 {
        None
    } else {
        let part = trim(parts.last());
        if starts_with(part, name) {
            parse_u32(trim(part.subrange(name.len() as int, part.len() as int)))
        } else {
            field_value(parts.drop_last(), name)
        }
    }
}

/// A date as text: the year on four digits or more, month and day on two or
/// more, with hyphens between.
pub open spec fn format_date(year: u32, month: u32, day: u32) -> Seq<char> {
    zero_padded(year as nat, 4) + seq!['-'] + zero_padded(month as nat, 2) + seq!['-']
        + zero_padded(day as nat, 2)
}

/// The date that the arguments of a `datetime(...)` call give.
pub open spec fn date_of_fields(block: Seq<char>) -> Option<Seq<char>> {
    let parts = split_on(block, ',');
    match (
        field_value(parts, "year:"@),
        field_value(parts, "month:"@),
        field_value(parts, "day:"@),
    ) {
        (Some(y), Some(m), Some(d)) => Some(format_date(y, m, d)),
        _ => None,
    }
}

/// The date that the argument `key` of a call gives: the value of the first
/// argument of that name must be a `datetime(...)` call, with `year`,
/// `month` and `day` all given as numbers, in any order. `None` where no
/// argument has the name, its value is no such call, the call is never
/// closed, or one of the three is missing or no number.
pub open spec fn named_date(args: Seq<char>, key: Seq<char>) -> Option<Seq<char>> {
    match named_value(arguments(args), key) {
        None => None,
        Some(value) => if starts_with(value, "datetime("@) {
            match balanced_block(value, "datetime("@) {
                None => None,
                Some(block) => date_of_fields(block),
            }
        } else {
            None
        },
    }
}

/// Title and date of a post as its header gives them.
#[derive(Clone, Debug, PartialEq, Eq)]
pub struct BlogMetadata {
    pub title: Option<String>,
    pub date: Option<String>,
}

/// What a `BlogMetadata` holds, as texts.
pub struct MetadataView {
    pub title: Option<Seq<char>>,
    pub date: Option<Seq<char>>,
}

impl View for BlogMetadata {
    type V = MetadataView;

    open spec fn view(&self) -> MetadataView {
        MetadataView { title: self.title.deep_view(), date: self.date.deep_view() }
    }
}

impl Default for BlogMetadata {
    fn default() -> (r: Self)
        ensures
            r@ == (MetadataView { title: None, date: None }),
    {
        BlogMetadata { title: None, date: None }
    }
}

/// What the `#post(...)` header of a document says: nothing where there is
/// no header, else the `title` string and the `date` of its arguments.
pub open spec fn post_metadata(content: Seq<char>) -> MetadataView {
    match balanced_block(content, "#post("@) {
        None => MetadataView { title: None, date: None },
        Some(args) => MetadataView {
            title: named_string(args, "title"@),
            date: named_date(args, "date"@),
        },
    }
}

/// `s` without the run of `c` at its start.
pub open spec fn strip_leading(s: Seq<char>, c: char) -> Seq<char>
    decreases s.len(),
{
    if s.len() > 0 && s[0] == c {
        strip_leading(s.drop_first(), c)
    } else {
        s
    }
}

/// The heading that a line holds: a line which, trimmed, begins with `=`
/// gives what follows its run of `=`, trimmed.
pub open spec fn heading_of(line: Seq<char>) -> Option<Seq<char>> {
    let t = trim(line);
    if t.len() > 0 && t[0] == '=' {
        Some(trim(strip_leading(t, '=')))
    } else {
        None
    }
}

/// The heading of the first line that holds one.
pub open spec fn first_heading(lines: Seq<Seq<char>>) -> Option<Seq<char>>
    decreases lines.len(),
{
    if lines.len() == 0 {
        None
    } else {
        match heading_of(lines[0]) {
            Some(h) => Some(h),
            None => first_heading(lines.drop_first()),
        }
    }
}

/// The title that a document without header title gets: its first heading;
/// without one, or without content, the file stem; without that, "Untitled".
/// Lines end at `\n`; a `\r` before it goes with the trimming.
pub open spec fn fallback_title(content: Option<Seq<char>>, stem: Option<Seq<char>>) -> Seq<char> {
    let heading = match content {
        Some(text) => first_heading(split_on(text, '\n')),
        None => None,
    };
    match heading {
        Some(h) => h,
        None => match stem {
            Some(s) => s,
            None => "Untitled"@,
        },
    }
}

/// The title of a post: the header's, else the fallback.
pub open spec fn post_title(content: Option<Seq<char>>, stem: Option<Seq<char>>) -> Seq<char> {
    let declared = match content {
        Some(text) => post_metadata(text).title,
        None => None,
    };
    match declared {
        Some(t) => t,
        None => fallback_title(content, stem),
    }
}

/// The date of a post: the header's, else empty.
pub open spec fn post_date(content: Option<Seq<char>>) -> Seq<char> {
    let declared = match content {
        Some(text) => post_metadata(text).date,
        None => None,
    };
    match declared {
        Some(d) => d,
        None => Seq::<char>::empty(),
    }
}

/// The key followed by a colon.
fn key_marker(key: &[char]) -> (m: Vec<char>)
    ensures
        m@ == key@.push(':'),
{
    let mut m: Vec<char> = Vec::new();
    let mut i: usize = 0;
    while i < key.len()
        invariant
            i <= key.len(),
            m@ == key@.take(i as int),
        decreases key.len() - i,
    {
        m.push(key[i]);
        i += 1;
    }
    assert(key@.take(key.len() as int) =~= key@);
    m.push(':');
    m
}

/// Parting gives at least one argument.
pub proof fn lemma_arguments_nonempty(args: Seq<char>)
    ensures
        arguments(args).len() >= 1,
    decreases args.len(),
{
    if args.len() > 0 {
        lemma_arguments_nonempty(args.drop_last());
    }
}

/// The arguments of a call, one by one.
pub fn top_level_arguments(args: &[char]) -> (r: Vec<Vec<char>>)
    ensures
        views(r@) == arguments(args@),
{
    let mut pieces: Vec<Vec<char>> = Vec::new();
    let mut current: Vec<char> = Vec::new();
    let mut depth: i128 = 0;
    let mut mode = ScanMode::Plain;
    let mut i: usize = 0;
    assert(args@.take(0) =~= Seq::<char>::empty());
    while i < args.len()
        invariant
            i <= args.len(),
            -i <= depth <= i,
            scan(top_level(), args@.take(i as int)) == (ScanState { depth: depth as int, mode }),
            pieces@.len() + 1 == arguments(args@.take(i as int)).len(),
            forall|k: int|
                0 <= k < pieces@.len() ==> (#[trigger] pieces@[k])@ == arguments(
                    args@.take(i as int),
                )[k],
            current@ == arguments(args@.take(i as int)).last(),
        decreases args.len() - i,
    {
        let c = args[i];
        proof {
            assert(args@.take(i + 1).drop_last() =~= args@.take(i as int));
            assert(args@.take(i + 1).last() == c);
        }
        let plain = match mode {
            ScanMode::Plain => true,
            _ => false,
        };
        if c == ',' && plain && depth == 0 {
            pieces.push(current);
            current = Vec::new();
        } else {
            current.push(c);
        }
        match mode {
            ScanMode::Escaped => {
                mode = ScanMode::Quoted;
            },
            ScanMode::Quoted => {
                if c == '\\' {
                    mode = ScanMode::Escaped;
                } else if c == '"' {
                    mode = ScanMode::Plain;
                }
            },
            ScanMode::Plain => {
                if c == '"' {
                    mode = ScanMode::Quoted;
                } else if c == '(' {
                    depth += 1;
                } else if c == ')' {
                    depth -= 1;
                }
            },
        }
        i += 1;
    }
    assert(args@.take(args.len() as int) =~= args@);
    pieces.push(current);
    assert(views(pieces@) =~= arguments(args@));
    pieces
}

/// The value of an argument of the name `key`.
fn value_of_argument<'a>(argument: &'a [char], key: &[char]) -> (r: Option<&'a [char]>)
    ensures
        opt_view(r) == value_of(argument@, key@),
{
    let marker = key_marker(key);
    let text = trim_start_slice(argument);
    if matches_at(text, marker.as_slice(), 0) {
        let rest = vstd::slice::slice_subrange(text, marker.len(), text.len());
        Some(trim_start_slice(rest))
    } else {
        None
    }
}

/// The value of the first argument of the name `key`.
fn value_of_key(args: &[char], key: &[char]) -> (r: Option<Vec<char>>)
    ensures
        opt_chars(r) == named_value(arguments(args@), key@),
{
    let parts = top_level_arguments(args);
    let ghost all = views(parts@);
    let mut i: usize = 0;
    assert(all.subrange(0, all.len() as int) =~= all);
    while i < parts.len()
        invariant
            i <= parts.len(),
            all == views(parts@),
            all == arguments(args@),
            named_value(all, key@) == named_value(all.subrange(i as int, all.len() as int), key@),
        decreases parts.len() - i,
    {
        let ghost rest = all.subrange(i as int, all.len() as int);
        assert(rest[0] == parts@[i as int]@);
        assert(rest.drop_first() =~= all.subrange(i + 1, all.len() as int));
        match value_of_argument(parts[i].as_slice(), key) {
            Some(value) => {
                return Some(vstd::slice::slice_to_vec(value));
            },
            None => {},
        }
        i += 1;
    }
    None
}

/// What a string literal stands for, `body` being the text after its
/// opening quote.
fn unquote(body: &[char]) -> (r: Option<Vec<char>>)
    ensures
        opt_chars(r) == unescape_until_quote(body@),
{
    let mut out: Vec<char> = Vec::new();
    let mut i: usize = 0;
    proof {
        assert(body@.subrange(0, body@.len() as int) =~= body@);
        if let Some(text) = unescape_until_quote(body@) {
            assert(out@ + text =~= text);
        }
    }
    while i < body.len()
        invariant
            i <= body.len(),
            unescape_until_quote(body@) == prepend(
                out@,
                unescape_until_quote(body@.subrange(i as int, body@.len() as int)),
            ),
        decreases body.len() - i,
    {
        let ghost rest = body@.subrange(i as int, body@.len() as int);
        let ghost before = out@;
        let ch = body[i];
        assert(rest[0] == ch);
        if ch == '"' {
            assert(out@ + Seq::<char>::empty() =~= out@);
            return Some(out);
        }
        if ch == '\\' {
            if body.len() - i < 2 {
                return None;
            }
            let next = body[i + 1];
            assert(rest[1] == next);
            out.push(next);
            i += 2;
            proof {
                let after = body@.subrange(i as int, body@.len() as int);
                assert(rest.subrange(2, rest.len() as int) =~= after);
                lemma_prepend_push(before, next, unescape_until_quote(after));
            }
        } else {
            out.push(ch);
            i += 1;
            proof {
                let after = body@.subrange(i as int, body@.len() as int);
                assert(rest.drop_first() =~= after);
                lemma_prepend_push(before, ch, unescape_until_quote(after));
            }
        }
    }
    None
}

/// The string that the argument `key` gives.
pub fn named_string_chars(args: &[char], key: &[char]) -> (r: Option<Vec<char>>)
    ensures
        opt_chars(r) == named_string(args@, key@),
{
    let value = match value_of_key(args, key) {
        None => {
            return None;
        },
        Some(v) => v,
    };
    if value.len() == 0 || value[0] != '"' {
        return None;
    }
    let body = vstd::slice::slice_subrange(value.as_slice(), 1, value.len());
    assert(body@ =~= value@.drop_first());
    unquote(body)
}

/// The number given for `name` among the parts.
fn field_of(parts: &Vec<Vec<char>>, name: &[char]) -> (r: Option<u32>)
    ensures
        r == field_value(views(parts@), name@),
{
    let ghost all = views(parts@);
    let mut found: Option<u32> = None;
    let mut i: usize = 0;
    assert(all.take(0) =~= Seq::<Seq<char>>::empty());
    while i < parts.len()
        invariant
            i <= parts.len(),
            all == views(parts@),
            found == field_value(all.take(i as int), name@),
        decreases parts.len() - i,
    {
        let part = trim_slice(parts[i].as_slice());
        proof {
            let next = all.take(i + 1);
            assert(next.drop_last() =~= all.take(i as int));
            assert(next.last() == parts@[i as int]@);
        }
        if matches_at(part, name, 0) {
            let value = vstd::slice::slice_subrange(part, name.len(), part.len());
            found = parse_decimal_u32(trim_slice(value));
        }
        i += 1;
    }
    assert(all.take(parts.len() as int) =~= all);
    found
}

/// Appends the characters of `more` to `out`.
fn append_chars(out: &mut Vec<char>, more: &[char])
    ensures
        final(out)@ == old(out)@ + more@,
{
    let mut i: usize = 0;
    assert(out@ + more@.take(0) =~= out@);
    while i < more.len()
        invariant
            i <= more.len(),
            out@ == old(out)@ + more@.take(i as int),
        decreases more.len() - i,
    {
        out.push(more[i]);
        i += 1;
        assert(out@ =~= old(out)@ + more@.take(i as int));
    }
    assert(more@.take(more.len() as int) =~= more@);
}

/// Writes a date as text.
pub fn format_date_chars(year: u32, month: u32, day: u32) -> (r: Vec<char>)
    ensures
        r@ == format_date(year, month, day),
{
    let mut out = zero_padded_decimal(year, 4);
    out.push('-');
    let m = zero_padded_decimal(month, 2);
    append_chars(&mut out, m.as_slice());
    out.push('-');
    let d = zero_padded_decimal(day, 2);
    append_chars(&mut out, d.as_slice());
    assert(out@ =~= format_date(year, month, day));
    out
}

/// The date that the arguments of a `datetime(...)` call give.
fn date_of_block(block: &[char]) -> (r: Option<Vec<char>>)
    ensures
        opt_chars(r) == date_of_fields(block@),
{
    let parts = split_on_char(block, ',');
    let year_name = chars_of("year:");
    let month_name = chars_of("month:");
    let day_name = chars_of("day:");
    let year = field_of(&parts, year_name.as_slice());
    let month = field_of(&parts, month_name.as_slice());
    let day = field_of(&parts, day_name.as_slice());
    match (year, month, day) {
        (Some(y), Some(m), Some(d)) => Some(format_date_chars(y, m, d)),
        _ => None,
    }
}

/// The date that the argument `key` gives.
pub fn named_date_chars(args: &[char], key: &[char]) -> (r: Option<Vec<char>>)
    ensures
        opt_chars(r) == named_date(args@, key@),
{
    let value = match value_of_key(args, key) {
        None => {
            return None;
        },
        Some(v) => v,
    };
    let marker = chars_of("datetime(");
    if !matches_at(value.as_slice(), marker.as_slice(), 0) {
        return None;
    }
    match parenthesized_block(value.as_slice(), marker.as_slice()) {
        None => None,
        Some(block) => date_of_block(block),
    }
}

/// The string of an optional vector of characters.
fn opt_string_of(o: Option<Vec<char>>) -> (r: Option<String>)
    ensures
        r.deep_view() == opt_chars(o),
{
    match o {
        Some(v) => Some(string_of(v.as_slice())),
        None => None,
    }
}

/// The text between the parentheses of the first call in `input` that
/// `marker` introduces; `marker` ends with the opening parenthesis.
pub fn extract_parenthesized_block(input: &str, marker: &str) -> (r: Option<String>)
    ensures
        r.deep_view() == balanced_block(input@, marker@),
{
    let text = chars_of(input);
    let mark = chars_of(marker);
    match parenthesized_block(text.as_slice(), mark.as_slice()) {
        Some(block) => Some(string_of(block)),
        None => None,
    }
}

/// The string that the argument `key` of a call gives, `args` being the
/// text between the parentheses of the call.
pub fn extract_named_string(args: &str, key: &str) -> (r: Option<String>)
    ensures
        r.deep_view() == named_string(args@, key@),
{
    let text = chars_of(args);
    let name = chars_of(key);
    opt_string_of(named_string_chars(text.as_slice(), name.as_slice()))
}

/// The date that the argument `key` of a call gives, as `YYYY-MM-DD`, `args`
/// being the text between the parentheses of the call.
pub fn extract_named_date(args: &str, key: &str) -> (r: Option<String>)
    ensures
        r.deep_view() == named_date(args@, key@),
{
    let text = chars_of(args);
    let name = chars_of(key);
    opt_string_of(named_date_chars(text.as_slice(), name.as_slice()))
}

/// Title and date as the header of the document gives them.
pub fn extract_post_metadata(content: &str) -> (r: BlogMetadata)
    ensures
        r@ == post_metadata(content@),
{
    let text = chars_of(content);
    let marker = chars_of("#post(");
    match parenthesized_block(text.as_slice(), marker.as_slice()) {
        None => BlogMetadata { title: None, date: None },
        Some(args) => {
            let title_key = chars_of("title");
            let date_key = chars_of("date");
            BlogMetadata {
                title: opt_string_of(named_string_chars(args, title_key.as_slice())),
                date: opt_string_of(named_date_chars(args, date_key.as_slice())),
            }
        },
    }
}

/// A suffix that begins after a run of `c`, at another character or at the
/// end, is what stripping the run leaves.
pub proof fn lemma_strip_leading_at(s: Seq<char>, c: char, k: int)
    requires
        0 <= k <= s.len(),
        forall|j: int| 0 <= j < k ==> s[j] == c,
        k < s.len() ==> s[k] != c,
    ensures
        strip_leading(s, c) == s.subrange(k, s.len() as int),
    decreases k,
{
    if k == 0 {
        assert(s.subrange(0, s.len() as int) =~= s);
    } else {
        let t = s.drop_first();
        assert forall|j: int| 0 <= j < k - 1 implies t[j] == c by {
            assert(t[j] == s[j + 1]);
        }
        lemma_strip_leading_at(t, c, k - 1);
        assert(t.subrange(k - 1, t.len() as int) =~= s.subrange(k, s.len() as int));
    }
}

/// The heading that a line holds.
fn heading_of_line(line: &[char]) -> (r: Option<Vec<char>>)
    ensures
        opt_chars(r) == heading_of(line@),
{
    let t = trim_slice(line);
    if t.len() == 0 || t[0] != '=' {
        return None;
    }
    let mut k: usize = 0;
    while k < t.len() && t[k] == '='
        invariant
            k <= t.len(),
            forall|j: int| 0 <= j < k ==> t@[j] == '=',
        decreases t.len() - k,
    {
        k += 1;
    }
    proof {
        lemma_strip_leading_at(t@, '=', k as int);
    }
    let rest = vstd::slice::slice_subrange(t, k, t.len());
    let heading = trim_slice(rest);
    Some(vstd::slice::slice_to_vec(heading))
}

/// The heading of the first line of the text that holds one.
fn first_heading_of(content: &[char]) -> (r: Option<Vec<char>>)
    ensures
        opt_chars(r) == first_heading(split_on(content@, '\n')),
{
    let lines = split_on_char(content, '\n');
    let ghost all = views(lines@);
    let mut i: usize = 0;
    assert(all.subrange(0, all.len() as int) =~= all);
    while i < lines.len()
        invariant
            i <= lines.len(),
            all == views(lines@),
            all == split_on(content@, '\n'),
            first_heading(all) == first_heading(all.subrange(i as int, all.len() as int)),
        decreases lines.len() - i,
    {
        let ghost rest = all.subrange(i as int, all.len() as int);
        assert(rest[0] == lines@[i as int]@);
        assert(rest.drop_first() =~= all.subrange(i + 1, all.len() as int));
        match heading_of_line(lines[i].as_slice()) {
            Some(h) => {
                return Some(h);
            },
            None => {},
        }
        i += 1;
    }
    None
}

/// The file stem, or "Untitled" where there is none.
fn stem_or_untitled(file_stem: Option<&str>) -> (r: String)
    ensures
        r@ == match file_stem {
            Some(s) => s@,
            None => "Untitled"@,
        },
{
    match file_stem {
        Some(s) => s.to_owned(),
        None => "Untitled".to_owned(),
    }
}

/// The title of a document that declares none in a header: its first
/// heading, else the file stem, else "Untitled". `content` is `None` where the
/// document could not be read.
pub fn extract_title_from_typst(content: Option<&str>, file_stem: Option<&str>) -> (r: String)
    ensures
        r@ == fallback_title(content.deep_view(), file_stem.deep_view()),
{
    if let Some(text) = content {
        let chars = chars_of(text);
        if let Some(h) = first_heading_of(chars.as_slice()) {
            return string_of(h.as_slice());
        }
    }
    stem_or_untitled(file_stem)
}

/// Title and date of a post: those of its header where it declares them, the
/// fallback title and an empty date where it does not.
pub fn resolve_title_and_date(content: Option<&str>, file_stem: Option<&str>) -> (r: (
    String,
    String,
))
    ensures
        r.0@ == post_title(content.deep_view(), file_stem.deep_view()),
        r.1@ == post_date(content.deep_view()),
{
    let meta = match content {
        Some(text) => extract_post_metadata(text),
        None => BlogMetadata { title: None, date: None },
    };
    let title = match meta.title {
        Some(t) => t,
        None => extract_title_from_typst(content, file_stem),
    };
    let date = match meta.date {
        Some(d) => d,
        None => String::new(),
    };
    (title, date)
}

/// Putting a character in front of the tail, then the head in front of that,
/// is putting the head with the character in front of the tail.
proof fn lemma_prepend_push(head: Seq<char>, c: char, tail: Option<Seq<char>>)
    ensures
        prepend(head, prepend(seq![c], tail)) == prepend(head.push(c), tail),
{
    if let Some(t) = tail {
        assert(head + (seq![c] + t) =~= head.push(c) + t);
    }
}

} // verus!
