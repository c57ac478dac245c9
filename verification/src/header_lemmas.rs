//! What is read back from a header that was written in the usual form:
//! `#post(title: "T", date: datetime(year: Y, month: M, day: D))`, whatever
//! the title holds.

use vstd::prelude::*;
use crate::argument_lemmas::{
    escaped, has_no_top_level_comma, is_literal_body, lemma_arguments_concat,
    lemma_arguments_whole, lemma_balanced_body, lemma_escaped, lemma_scan_body,
    lemma_unescape_body, literal_value,
};
use crate::decimal::{
    all_digits, decimal_digits, is_digit, lemma_decimal_digits_value, lemma_parse_decimal_digits,
    parse_u32,
};
use crate::metadata::{
    arguments, balanced_block, date_of_fields, field_value, format_date, named_date,
    named_string, named_value, post_date, post_metadata, post_title, scan, top_level, value_of,
};
use crate::scan_lemmas::{
    is_balanced, is_plain_text, lemma_balanced_block, lemma_balanced_concat,
    lemma_balanced_nested, lemma_balanced_plain, lemma_block_end_of_balanced, lemma_scan_concat,
    lemma_scan_one, lemma_scan_plain, plain, quoted,
};
use crate::text::{first_occurrence, is_whitespace, split_on, starts_with, trim};
use crate::text_lemmas::{
    free_of, lemma_first_occurrence_at_start, lemma_split_on_concat, lemma_split_on_whole,
    lemma_trim_core, lemma_trim_start_core,
};

verus! {

/// The arguments of a `datetime` call as they are usually written.
pub open spec fn date_arguments(year: u32, month: u32, day: u32) -> Seq<char> {
    "year: "@ + decimal_digits(year as nat) + ", month: "@ + decimal_digits(month as nat)
        + ", day: "@ + decimal_digits(day as nat)
}

/// The arguments of a header as they are usually written, `body` being what
/// stands between the quotes of the title.
pub open spec fn header_arguments(body: Seq<char>, year: u32, month: u32, day: u32) -> Seq<
    char,
> {
    "title: \""@ + body + "\", date: datetime("@ + date_arguments(year, month, day) + ")"@
}

/// A header as it is usually written, `body` being what stands between the
/// quotes of the title.
pub open spec fn header(body: Seq<char>, year: u32, month: u32, day: u32) -> Seq<char> {
    "#post("@ + header_arguments(body, year, month, day) + ")"@
}

/// The characters of the words that a header is written with.
proof fn lemma_words()
    ensures
        "year: "@ == seq!['y', 'e', 'a', 'r', ':', ' '],
        ", month: "@ == seq![',', ' ', 'm', 'o', 'n', 't', 'h', ':', ' '],
        ", day: "@ == seq![',', ' ', 'd', 'a', 'y', ':', ' '],
        "year:"@ == seq!['y', 'e', 'a', 'r', ':'],
        "month:"@ == seq!['m', 'o', 'n', 't', 'h', ':'],
        "day:"@ == seq!['d', 'a', 'y', ':'],
{
    reveal_strlit("year: ");
    reveal_strlit(", month: ");
    reveal_strlit(", day: ");
    reveal_strlit("year:");
    reveal_strlit("month:");
    reveal_strlit("day:");
    assert("year: "@ =~= seq!['y', 'e', 'a', 'r', ':', ' ']);
    assert(", month: "@ =~= seq![',', ' ', 'm', 'o', 'n', 't', 'h', ':', ' ']);
    assert(", day: "@ =~= seq![',', ' ', 'd', 'a', 'y', ':', ' ']);
    assert("year:"@ =~= seq!['y', 'e', 'a', 'r', ':']);
    assert("month:"@ =~= seq!['m', 'o', 'n', 't', 'h', ':']);
    assert("day:"@ =~= seq!['d', 'a', 'y', ':']);
}

/// Digits are neither whitespace nor any of the characters that a header is
/// built with.
proof fn lemma_digits_are_plain(digits: Seq<char>)
    requires
        all_digits(digits),
    ensures
        is_plain_text(digits),
        free_of(digits, ','),
        forall|i: int| 0 <= i < digits.len() ==> !is_whitespace(#[trigger] digits[i]),
{
    assert forall|i: int| 0 <= i < digits.len() implies (#[trigger] digits[i]) != '"' && digits[i]
        != '(' && digits[i] != ')' && digits[i] != ',' && !is_whitespace(digits[i]) by {
        assert(is_digit(digits[i]));
    }
}

/// A part that gives a number under a name: after optional whitespace the
/// name, a space and the digits. Trimmed, it begins with the name, and what
/// follows the name reads as the number.
proof fn lemma_part_with_name(lead: Seq<char>, name: Seq<char>, n: u32)
    requires
        forall|i: int| 0 <= i < lead.len() ==> is_whitespace(#[trigger] lead[i]),
        name.len() > 0,
        !is_whitespace(name[0]),
    ensures
        trim(lead + name + seq![' '] + decimal_digits(n as nat)) == name + seq![' ']
            + decimal_digits(n as nat),
        starts_with(trim(lead + name + seq![' '] + decimal_digits(n as nat)), name),
        parse_u32(
            trim(
                (name + seq![' '] + decimal_digits(n as nat)).subrange(
                    name.len() as int,
                    (name + seq![' '] + decimal_digits(n as nat)).len() as int,
                ),
            ),
        ) == Some(n),
{
    let digits = decimal_digits(n as nat);
    lemma_decimal_digits_value(n as nat);
    lemma_digits_are_plain(digits);
    lemma_parse_decimal_digits(n);
    let core = name + seq![' '] + digits;
    assert(core[0] == name[0]);
    assert(core.last() == digits.last());
    assert(lead + name + seq![' '] + digits =~= lead + core + Seq::<char>::empty());
    lemma_trim_core(lead, core, Seq::<char>::empty());
    assert(core.subrange(0, name.len() as int) =~= name);
    let value = core.subrange(name.len() as int, core.len() as int);
    assert(value =~= seq![' '] + digits + Seq::<char>::empty());
    lemma_trim_core(seq![' '], digits, Seq::<char>::empty());
}

/// A part that, trimmed, begins with another character than a name does not
/// begin with the name.
proof fn lemma_part_without_name(part: Seq<char>, core: Seq<char>, name: Seq<char>)
    requires
        trim(part) == core,
        name.len() > 0,
        core.len() > 0,
        core[0] != name[0],
    ensures
        !starts_with(trim(part), name),
{
    if starts_with(core, name) {
        assert(core.subrange(0, name.len() as int)[0] == name[0]);
    }
}

/// The three parts of the arguments of a `datetime` call.
proof fn lemma_date_parts(year: u32, month: u32, day: u32)
    ensures
        is_plain_text(date_arguments(year, month, day)),
        split_on(date_arguments(year, month, day), ',') == seq![
            "year:"@ + seq![' '] + decimal_digits(year as nat),
            seq![' '] + "month:"@ + seq![' '] + decimal_digits(month as nat),
            seq![' '] + "day:"@ + seq![' '] + decimal_digits(day as nat),
        ],
{
    lemma_words();
    let y = decimal_digits(year as nat);
    let m = decimal_digits(month as nat);
    let d = decimal_digits(day as nat);
    lemma_decimal_digits_value(year as nat);
    lemma_decimal_digits_value(month as nat);
    lemma_decimal_digits_value(day as nat);
    lemma_digits_are_plain(y);
    lemma_digits_are_plain(m);
    lemma_digits_are_plain(d);
    let first = "year:"@ + seq![' '] + y;
    let second = seq![' '] + "month:"@ + seq![' '] + m;
    let third = seq![' '] + "day:"@ + seq![' '] + d;
    let all = date_arguments(year, month, day);
    assert(all =~= first + seq![','] + (second + seq![','] + third));
    assert forall|i: int| 0 <= i < first.len() implies (#[trigger] first[i]) != ',' && first[i]
        != '"' && first[i] != '(' && first[i] != ')' by {
        if i >= 6 {
            assert(first[i] == y[i - 6]);
        }
    }
    assert forall|i: int| 0 <= i < second.len() implies (#[trigger] second[i]) != ',' && second[i]
        != '"' && second[i] != '(' && second[i] != ')' by {
        if i >= 8 {
            assert(second[i] == m[i - 8]);
        }
    }
    assert forall|i: int| 0 <= i < third.len() implies (#[trigger] third[i]) != ',' && third[i]
        != '"' && third[i] != '(' && third[i] != ')' by {
        if i >= 6 {
            assert(third[i] == d[i - 6]);
        }
    }
    assert forall|i: int| 0 <= i < all.len() implies (#[trigger] all[i]) != '"' && all[i] != '('
        && all[i] != ')' by {
        if i < first.len() {
            assert(all[i] == first[i]);
        } else if i == first.len() {
        } else if i < first.len() + 1 + second.len() {
            assert(all[i] == second[i - first.len() - 1]);
        } else if i == first.len() + 1 + second.len() {
        } else {
            assert(all[i] == third[i - first.len() - second.len() - 2]);
        }
    }
    lemma_split_on_concat(first, second + seq![','] + third, ',');
    lemma_split_on_concat(second, third, ',');
    lemma_split_on_whole(first, ',');
    lemma_split_on_whole(second, ',');
    lemma_split_on_whole(third, ',');
    assert(seq![first] + (seq![second] + seq![third]) =~= seq![first, second, third]);
}

/// The arguments of a `datetime` call give the date that they were written
/// from.
pub proof fn lemma_date_arguments(year: u32, month: u32, day: u32)
    ensures
        is_plain_text(date_arguments(year, month, day)),
        date_of_fields(date_arguments(year, month, day)) == Some(format_date(year, month, day)),
{
    lemma_words();
    lemma_date_parts(year, month, day);
    let y = decimal_digits(year as nat);
    let m = decimal_digits(month as nat);
    let d = decimal_digits(day as nat);
    let none = Seq::<char>::empty();
    let first = "year:"@ + seq![' '] + y;
    let second = seq![' '] + "month:"@ + seq![' '] + m;
    let third = seq![' '] + "day:"@ + seq![' '] + d;
    let parts = seq![first, second, third];
    let two = seq![first, second];
    let one = seq![first];
    assert(parts.drop_last() =~= two);
    assert(two.drop_last() =~= one);
    assert(one.drop_last() =~= Seq::<Seq<char>>::empty());
    assert(parts.last() == third);
    assert(two.last() == second);
    assert(one.last() == first);
    assert(first =~= none + "year:"@ + seq![' '] + y);
    lemma_part_with_name(none, "year:"@, year);
    lemma_part_with_name(seq![' '], "month:"@, month);
    lemma_part_with_name(seq![' '], "day:"@, day);
    let first_core = first;
    let second_core = "month:"@ + seq![' '] + m;
    let third_core = "day:"@ + seq![' '] + d;
    assert(trim(first) == first_core);
    assert(trim(second) == second_core);
    assert(trim(third) == third_core);
    assert(first_core[0] == 'y');
    assert(second_core[0] == 'm');
    assert(third_core[0] == 'd');
    // year: not in the third part, not in the second, in the first
    lemma_part_without_name(third, third_core, "year:"@);
    lemma_part_without_name(second, second_core, "year:"@);
    assert(first_core.len() == 6 + y.len());
    assert(field_value(parts, "year:"@) == field_value(two, "year:"@));
    assert(field_value(two, "year:"@) == field_value(one, "year:"@));
    assert(field_value(one, "year:"@) == Some(year));
    // month: not in the third part, in the second
    lemma_part_without_name(third, third_core, "month:"@);
    assert(second_core.len() == 7 + m.len());
    assert(field_value(parts, "month:"@) == field_value(two, "month:"@));
    assert(field_value(two, "month:"@) == Some(month));
    // day: in the third part
    assert(third_core.len() == 5 + d.len());
    assert(field_value(parts, "day:"@) == Some(day));
}

/// What stands before the body of the title in its argument.
pub open spec fn title_frame() -> Seq<char> {
    seq!['t', 'i', 't', 'l', 'e', ':', ' ', '"']
}

/// What stands before the arguments of the `datetime` call in the argument
/// of the date.
pub open spec fn date_frame() -> Seq<char> {
    seq![' ', 'd', 'a', 't', 'e', ':', ' ', 'd', 'a', 't', 'e', 't', 'i', 'm', 'e', '(']
}

/// The marker of the `datetime` call.
pub open spec fn datetime_marker() -> Seq<char> {
    seq!['d', 'a', 't', 'e', 't', 'i', 'm', 'e', '(']
}

/// The argument of the title.
pub open spec fn title_argument(body: Seq<char>) -> Seq<char> {
    title_frame() + body + seq!['"']
}

/// The argument of the date.
pub open spec fn date_argument(year: u32, month: u32, day: u32) -> Seq<char> {
    date_frame() + date_arguments(year, month, day) + seq![')']
}

/// The characters of the frame that a header is written in.
proof fn lemma_frame()
    ensures
        "title: \""@ == title_frame(),
        "\", date: datetime("@ == seq!['"', ','] + date_frame(),
        ")"@ == seq![')'],
{
    reveal_strlit("title: \"");
    reveal_strlit("\", date: datetime(");
    reveal_strlit(")");
    assert("title: \""@ =~= title_frame());
    assert("\", date: datetime("@ =~= seq!['"', ','] + date_frame());
    assert(")"@ =~= seq![')']);
}

/// The characters of the names that the arguments are looked up with.
proof fn lemma_keys()
    ensures
        "title"@.push(':') == seq!['t', 'i', 't', 'l', 'e', ':'],
        "title"@.len() == 5,
        "date"@.push(':') == seq!['d', 'a', 't', 'e', ':'],
        "date"@.len() == 4,
        "datetime("@ == datetime_marker(),
{
    reveal_strlit("title");
    reveal_strlit("date");
    reveal_strlit("datetime(");
    assert("title"@.push(':') =~= seq!['t', 'i', 't', 'l', 'e', ':']);
    assert("date"@.push(':') =~= seq!['d', 'a', 't', 'e', ':']);
    assert("datetime("@ =~= datetime_marker());
}

/// The arguments of a header are the argument of the title, a comma, and the
/// argument of the date.
proof fn lemma_header_arguments(body: Seq<char>, year: u32, month: u32, day: u32)
    ensures
        header_arguments(body, year, month, day) == title_argument(body) + seq![',']
            + date_argument(year, month, day),
{
    lemma_frame();
    assert(header_arguments(body, year, month, day) =~= title_argument(body) + seq![',']
        + date_argument(year, month, day));
}

/// The argument of the title is balanced, whatever its body holds.
proof fn lemma_title_argument_balanced(body: Seq<char>)
    requires
        is_literal_body(body),
    ensures
        is_balanced(title_argument(body)),
{
    let lead = seq!['t', 'i', 't', 'l', 'e', ':', ' '];
    let literal = seq!['"'] + body + seq!['"'];
    assert(title_argument(body) =~= lead + literal);
    lemma_balanced_plain(lead);
    lemma_balanced_body(body);
    lemma_balanced_concat(lead, literal);
}

/// The argument of the title holds no comma at the top level: a comma
/// stands inside the literal only.
proof fn lemma_title_argument_commas(body: Seq<char>)
    requires
        is_literal_body(body),
    ensures
        has_no_top_level_comma(title_argument(body)),
{
    let argument = title_argument(body);
    let lead = seq!['t', 'i', 't', 'l', 'e', ':', ' '];
    lemma_scan_plain(0, lead);
    lemma_scan_concat(plain(0), lead, seq!['"']);
    lemma_scan_one(plain(0), '"');
    lemma_scan_body(0, body);
    assert forall|i: int| 0 <= i < argument.len() && argument[i] == ',' implies #[trigger] scan(
        top_level(),
        argument.take(i),
    ) != top_level() by {
        assert(8 <= i < 8 + body.len());
        let inside = body.take(i - 8);
        assert(argument.take(i) =~= (lead + seq!['"']) + inside);
        lemma_scan_concat(plain(0), lead + seq!['"'], inside);
        assert(scan(quoted(0), inside).mode != crate::metadata::ScanMode::Plain);
    }
}

/// The value of the argument of the title under the name `title` is the
/// string literal, and under the name `date` it has none.
proof fn lemma_title_argument_value(body: Seq<char>)
    ensures
        value_of(title_argument(body), "title"@) == Some(seq!['"'] + body + seq!['"']),
        value_of(title_argument(body), "date"@) is None,
{
    lemma_keys();
    let none = Seq::<char>::empty();
    let argument = title_argument(body);
    let literal = seq!['"'] + body + seq!['"'];
    assert(argument =~= none + argument);
    lemma_trim_start_core(none, argument);
    assert(argument.subrange(0, 6) =~= "title"@.push(':'));
    assert(argument.subrange(6, argument.len() as int) =~= seq![' '] + literal);
    lemma_trim_start_core(seq![' '], literal);
    if starts_with(argument, "date"@.push(':')) {
        assert(argument.subrange(0, 5)[0] == 'd');
    }
}

/// The argument of the date is balanced.
proof fn lemma_date_argument_balanced(year: u32, month: u32, day: u32)
    ensures
        is_balanced(date_argument(year, month, day)),
{
    lemma_date_arguments(year, month, day);
    let fields = date_arguments(year, month, day);
    let lead = seq![' ', 'd', 'a', 't', 'e', ':', ' ', 'd', 'a', 't', 'e', 't', 'i', 'm', 'e'];
    let call = seq!['('] + fields + seq![')'];
    assert(date_argument(year, month, day) =~= lead + call);
    lemma_balanced_plain(lead);
    lemma_balanced_plain(fields);
    lemma_balanced_nested(fields);
    lemma_balanced_concat(lead, call);
}

/// An argument that is a call of plain arguments behind a plain lead holds
/// no comma at the top level: a comma of the arguments stands inside the
/// call.
proof fn lemma_call_commas(lead: Seq<char>, fields: Seq<char>)
    requires
        is_plain_text(lead),
        free_of(lead, ','),
        is_plain_text(fields),
    ensures
        has_no_top_level_comma(lead + seq!['('] + fields + seq![')']),
{
    let argument = lead + seq!['('] + fields + seq![')'];
    let n = lead.len() as int;
    lemma_scan_plain(0, lead);
    lemma_scan_concat(plain(0), lead, seq!['(']);
    lemma_scan_one(plain(0), '(');
    assert forall|i: int| 0 <= i < argument.len() && argument[i] == ',' implies #[trigger] scan(
        top_level(),
        argument.take(i),
    ) != top_level() by {
        if i < n {
            assert(argument[i] == lead[i]);
        }
        assert(n + 1 <= i < n + 1 + fields.len());
        let inside = fields.take(i - n - 1);
        assert(argument.take(i) =~= (lead + seq!['(']) + inside);
        lemma_scan_concat(plain(0), lead + seq!['('], inside);
        assert forall|k: int| 0 <= k < inside.len() implies (#[trigger] inside[k]) != '"'
            && inside[k] != '(' && inside[k] != ')' by {
            assert(inside[k] == fields[k]);
        }
        lemma_scan_plain(1, inside);
    }
}

/// The argument of the date holds no comma at the top level.
proof fn lemma_date_argument_commas(year: u32, month: u32, day: u32)
    ensures
        has_no_top_level_comma(date_argument(year, month, day)),
{
    lemma_date_arguments(year, month, day);
    let fields = date_arguments(year, month, day);
    let lead = seq![' ', 'd', 'a', 't', 'e', ':', ' ', 'd', 'a', 't', 'e', 't', 'i', 'm', 'e'];
    assert(date_argument(year, month, day) =~= lead + seq!['('] + fields + seq![')']);
    lemma_call_commas(lead, fields);
}

/// The `datetime` call of a date.
pub open spec fn datetime_call(year: u32, month: u32, day: u32) -> Seq<char> {
    datetime_marker() + date_arguments(year, month, day) + seq![')']
}

/// The value of the argument of the date under the name `date` is the
/// `datetime` call.
proof fn lemma_date_argument_value(year: u32, month: u32, day: u32)
    ensures
        value_of(date_argument(year, month, day), "date"@) == Some(
            datetime_call(year, month, day),
        ),
{
    lemma_keys();
    let argument = date_argument(year, month, day);
    let text = argument.subrange(1, argument.len() as int);
    assert(argument =~= seq![' '] + text);
    assert(text[0] == 'd');
    lemma_trim_start_core(seq![' '], text);
    assert(text.subrange(0, 5) =~= "date"@.push(':'));
    let value = datetime_call(year, month, day);
    assert(text.subrange(5, text.len() as int) =~= seq![' '] + value);
    assert(value[0] == 'd');
    lemma_trim_start_core(seq![' '], value);
}

/// The `datetime` call of a date gives that date.
proof fn lemma_datetime_call(year: u32, month: u32, day: u32)
    ensures
        starts_with(datetime_call(year, month, day), "datetime("@),
        balanced_block(datetime_call(year, month, day), "datetime("@) == Some(
            date_arguments(year, month, day),
        ),
        date_of_fields(date_arguments(year, month, day)) == Some(format_date(year, month, day)),
{
    lemma_keys();
    lemma_date_arguments(year, month, day);
    let fields = date_arguments(year, month, day);
    let value = datetime_call(year, month, day);
    assert(value.subrange(0, 9) =~= datetime_marker());
    lemma_first_occurrence_at_start(value, datetime_marker());
    assert(value.subrange(9, value.len() as int) =~= fields + seq![')'] + Seq::<char>::empty());
    lemma_balanced_plain(fields);
    lemma_block_end_of_balanced(fields, Seq::<char>::empty());
}

/// The arguments of a header are balanced.
proof fn lemma_header_balanced(body: Seq<char>, year: u32, month: u32, day: u32)
    requires
        is_literal_body(body),
    ensures
        is_balanced(header_arguments(body, year, month, day)),
{
    lemma_header_arguments(body, year, month, day);
    lemma_title_argument_balanced(body);
    lemma_date_argument_balanced(year, month, day);
    let first = title_argument(body);
    let second = date_argument(year, month, day);
    lemma_balanced_plain(seq![',']);
    lemma_balanced_concat(first, seq![',']);
    lemma_balanced_concat(first + seq![','], second);
}

/// Parted at the top level, the arguments of a header are the argument of
/// the title and the argument of the date.
proof fn lemma_header_parts(body: Seq<char>, year: u32, month: u32, day: u32)
    requires
        is_literal_body(body),
    ensures
        arguments(header_arguments(body, year, month, day)) == seq![
            title_argument(body),
            date_argument(year, month, day),
        ],
{
    lemma_header_arguments(body, year, month, day);
    lemma_title_argument_balanced(body);
    lemma_title_argument_commas(body);
    lemma_date_argument_commas(year, month, day);
    let first = title_argument(body);
    let second = date_argument(year, month, day);
    assert(top_level() == plain(0));
    lemma_arguments_concat(first, second);
    lemma_arguments_whole(first);
    lemma_arguments_whole(second);
    assert(seq![first] + seq![second] =~= seq![first, second]);
}

/// The value of a name among two arguments is that of the first argument
/// that has the name.
proof fn lemma_named_value_of_two(
    first: Seq<char>,
    second: Seq<char>,
    key: Seq<char>,
)
    ensures
        named_value(seq![first, second], key) == match value_of(first, key) {
            Some(value) => Some(value),
            None => value_of(second, key),
        },
{
    let parts = seq![first, second];
    let rest = parts.drop_first();
    assert(parts[0] == first);
    assert(rest =~= seq![second]);
    assert(rest[0] == second);
    assert(rest.drop_first() =~= Seq::<Seq<char>>::empty());
    assert(named_value(rest.drop_first(), key) is None);
    assert(named_value(rest, key) == value_of(second, key));
}

/// The values of the two names among the arguments of a header.
proof fn lemma_values_of_header(body: Seq<char>, year: u32, month: u32, day: u32)
    requires
        is_literal_body(body),
    ensures
        named_value(arguments(header_arguments(body, year, month, day)), "title"@) == Some(
            seq!['"'] + body + seq!['"'],
        ),
        named_value(arguments(header_arguments(body, year, month, day)), "date"@) == Some(
            datetime_call(year, month, day),
        ),
{
    lemma_header_parts(body, year, month, day);
    lemma_title_argument_value(body);
    lemma_date_argument_value(year, month, day);
    lemma_named_value_of_two(title_argument(body), date_argument(year, month, day), "title"@);
    lemma_named_value_of_two(title_argument(body), date_argument(year, month, day), "date"@);
}

/// The title is read back from the arguments of a header.
pub proof fn lemma_title_of_arguments(body: Seq<char>, year: u32, month: u32, day: u32)
    requires
        is_literal_body(body),
    ensures
        named_string(header_arguments(body, year, month, day), "title"@) == Some(
            literal_value(body),
        ),
{
    lemma_values_of_header(body, year, month, day);
    let value = seq!['"'] + body + seq!['"'];
    assert(value[0] == '"');
    assert(value.drop_first() =~= body + seq!['"'] + Seq::<char>::empty());
    lemma_unescape_body(body, Seq::<char>::empty());
}

/// The date is read back from the arguments of a header, whatever the title
/// holds.
pub proof fn lemma_date_of_arguments(body: Seq<char>, year: u32, month: u32, day: u32)
    requires
        is_literal_body(body),
    ensures
        named_date(header_arguments(body, year, month, day), "date"@) == Some(
            format_date(year, month, day),
        ),
{
    lemma_values_of_header(body, year, month, day);
    lemma_datetime_call(year, month, day);
}

/// A header that is written in the usual form gives back its title and its
/// date: for every text `before` it in which no header begins, every body of
/// a string literal for the title, every date and every text `after` it, the
/// title of the document is what the literal stands for, and its date is the
/// date that was written, the year on four digits, month and day on two.
/// What the title holds does not matter: neither parentheses nor commas nor
/// the words of the header itself.
pub proof fn lemma_header_gives_title_and_date(
    before: Seq<char>,
    body: Seq<char>,
    year: u32,
    month: u32,
    day: u32,
    after: Seq<char>,
)
    requires
        first_occurrence(before + "#post("@, "#post("@, 0) == Some(before.len() as int),
        is_literal_body(body),
    ensures
        post_metadata(before + header(body, year, month, day) + after).title == Some(
            literal_value(body),
        ),
        post_metadata(before + header(body, year, month, day) + after).date == Some(
            format_date(year, month, day),
        ),
        forall|stem: Option<Seq<char>>|
            #[trigger] post_title(Some(before + header(body, year, month, day) + after), stem)
                == literal_value(body),
        post_date(Some(before + header(body, year, month, day) + after)) == format_date(
            year,
            month,
            day,
        ),
{
    lemma_frame();
    let args = header_arguments(body, year, month, day);
    let content = before + header(body, year, month, day) + after;
    assert(content =~= before + "#post("@ + args + seq![')'] + after);
    lemma_header_balanced(body, year, month, day);
    lemma_balanced_block(before, "#post("@, args, after);
    lemma_title_of_arguments(body, year, month, day);
    lemma_date_of_arguments(body, year, month, day);
}

/// Every title can be written into a header and is read back from it: for
/// every title, written with a backslash before each of its quotes and
/// backslashes, the header gives back that title and the date.
pub proof fn lemma_header_of_any_title(
    before: Seq<char>,
    title: Seq<char>,
    year: u32,
    month: u32,
    day: u32,
    after: Seq<char>,
)
    requires
        first_occurrence(before + "#post("@, "#post("@, 0) == Some(before.len() as int),
    ensures
        post_metadata(before + header(escaped(title), year, month, day) + after).title == Some(
            title,
        ),
        post_metadata(before + header(escaped(title), year, month, day) + after).date == Some(
            format_date(year, month, day),
        ),
{
    lemma_escaped(title);
    lemma_header_gives_title_and_date(before, escaped(title), year, month, day, after);
}

} // verus!
