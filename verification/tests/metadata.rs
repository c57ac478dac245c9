use lince_site::metadata::{
    extract_named_date, extract_named_string, extract_parenthesized_block, extract_post_metadata,
    extract_title_from_typst, resolve_title_and_date,
};

fn some(s: &str) -> Option<String> {
    Some(s.to_string())
}

#[test]
fn balanced_block_ignores_quoted_parentheses() {
    let input = "foo(bar: \"a)b\", baz: (1,2))";
    assert_eq!(
        extract_parenthesized_block(input, "foo("),
        some("bar: \"a)b\", baz: (1,2)")
    );
}

#[test]
fn balanced_block_without_marker_is_none() {
    assert_eq!(extract_parenthesized_block("bar(1)", "foo("), None);
}

#[test]
fn balanced_block_never_closed_is_none() {
    assert_eq!(extract_parenthesized_block("foo(a, (b)", "foo("), None);
    assert_eq!(extract_parenthesized_block("foo(\"a)", "foo("), None);
}

#[test]
fn balanced_block_handles_escaped_quote_and_backslash() {
    // The escaped quote does not end the literal, so the first `)` is text.
    assert_eq!(
        extract_parenthesized_block("f(\"a\\\")\" x) y)", "f("),
        some("\"a\\\")\" x")
    );
    // An escaped backslash does not escape the quote after it.
    assert_eq!(
        extract_parenthesized_block("f(\"a\\\\\") y)", "f("),
        some("\"a\\\\\"")
    );
}

#[test]
fn balanced_block_uses_first_marker() {
    assert_eq!(
        extract_parenthesized_block("x f(1) f(2)", "f("),
        some("1")
    );
    assert_eq!(extract_parenthesized_block("f()", "f("), some(""));
}

#[test]
fn balanced_block_with_non_ascii_text() {
    assert_eq!(
        extract_parenthesized_block("é#post(título: \"é(\") fin", "#post("),
        some("título: \"é(\"")
    );
}

#[test]
fn named_string_reads_quoted_value() {
    assert_eq!(
        extract_named_string("title: \"Hello\", x: 1", "title"),
        some("Hello")
    );
    assert_eq!(
        extract_named_string("x: 1, title:   \"Hello\"", "title"),
        some("Hello")
    );
}

#[test]
fn named_string_unescapes() {
    assert_eq!(
        extract_named_string("title: \"a\\\"b\\\\c\\n\"", "title"),
        some("a\"b\\cn")
    );
}

#[test]
fn named_string_failures() {
    assert_eq!(extract_named_string("x: 1", "title"), None);
    assert_eq!(extract_named_string("title: Hello", "title"), None);
    assert_eq!(extract_named_string("title: \"Hello", "title"), None);
    assert_eq!(extract_named_string("title: \"Hello\\", "title"), None);
    assert_eq!(extract_named_string("title:", "title"), None);
}

#[test]
fn named_date_reads_fields_in_any_order() {
    assert_eq!(
        extract_named_date("date: datetime(year: 2024, month: 3, day: 7)", "date"),
        some("2024-03-07")
    );
    assert_eq!(
        extract_named_date("date: datetime(day: 7, year: 2024, month: 3)", "date"),
        some("2024-03-07")
    );
    assert_eq!(
        extract_named_date("date:datetime( month:12 ,day:31,year:+5 )", "date"),
        some("0005-12-31")
    );
}

#[test]
fn named_date_pads_but_does_not_cut() {
    assert_eq!(
        extract_named_date("date: datetime(year: 12345, month: 123, day: 0)", "date"),
        some("12345-123-00")
    );
    assert_eq!(
        extract_named_date(
            "date: datetime(year: 4294967295, month: 1, day: 1)",
            "date"
        ),
        some("4294967295-01-01")
    );
}

#[test]
fn named_date_failures() {
    assert_eq!(extract_named_date("x: 1", "date"), None);
    assert_eq!(extract_named_date("date: 2024", "date"), None);
    assert_eq!(
        extract_named_date("date: datetime(year: 2024, month: 3)", "date"),
        None
    );
    assert_eq!(
        extract_named_date("date: datetime(year: 2024, month: x, day: 1)", "date"),
        None
    );
    assert_eq!(
        extract_named_date("date: datetime(year: -1, month: 1, day: 1)", "date"),
        None
    );
    assert_eq!(
        extract_named_date(
            "date: datetime(year: 4294967296, month: 1, day: 1)",
            "date"
        ),
        None
    );
    assert_eq!(
        extract_named_date("date: datetime(year: 2024, month: 3, day: 7", "date"),
        None
    );
}

#[test]
fn named_date_last_field_wins() {
    assert_eq!(
        extract_named_date(
            "date: datetime(year: 1, month: 2, day: 3, year: 2000)",
            "date"
        ),
        some("2000-02-03")
    );
    assert_eq!(
        extract_named_date(
            "date: datetime(year: 1, month: 2, day: 3, year: x)",
            "date"
        ),
        None
    );
}

#[test]
fn header_gives_title_and_date() {
    let doc = "#import \"c.typ\": *\n#post(title: \"My Post\", date: datetime(year: 2024, month: 1, day: 5))\n= Heading\n";
    let meta = extract_post_metadata(doc);
    assert_eq!(meta.title, some("My Post"));
    assert_eq!(meta.date, some("2024-01-05"));
}

#[test]
fn header_with_other_order_and_extra_arguments() {
    let doc = "#post(\n  tags: (\"a\", \"b\"),\n  date: datetime(year: 2023, month: 11, day: 30),\n  title: \"T (draft)\",\n)";
    let meta = extract_post_metadata(doc);
    assert_eq!(meta.title, some("T (draft)"));
    assert_eq!(meta.date, some("2023-11-30"));
}

#[test]
fn missing_header_gives_empty_metadata() {
    let meta = extract_post_metadata("= Just a heading\ntext");
    assert_eq!(meta.title, None);
    assert_eq!(meta.date, None);
    let meta = extract_post_metadata("#post(title: \"never closed\"");
    assert_eq!(meta.title, None);
    assert_eq!(meta.date, None);
}

#[test]
fn header_with_partial_content() {
    let meta = extract_post_metadata("#post(title: \"Only title\")");
    assert_eq!(meta.title, some("Only title"));
    assert_eq!(meta.date, None);
    let meta = extract_post_metadata("#post(date: datetime(year: 1, month: 1, day: 1))");
    assert_eq!(meta.title, None);
    assert_eq!(meta.date, some("0001-01-01"));
}

#[test]
fn title_falls_back_to_first_heading() {
    let doc = "intro\n  = Some Heading  \n== Later\n";
    assert_eq!(
        extract_title_from_typst(Some(doc), Some("stem")),
        "Some Heading"
    );
    assert_eq!(
        extract_title_from_typst(Some("=== Deep\r\nx"), Some("stem")),
        "Deep"
    );
    assert_eq!(extract_title_from_typst(Some("="), Some("stem")), "");
}

#[test]
fn title_falls_back_to_stem_then_placeholder() {
    assert_eq!(
        extract_title_from_typst(Some("no heading here\nx = 1"), Some("20240101-a")),
        "20240101-a"
    );
    assert_eq!(extract_title_from_typst(None, Some("stem")), "stem");
    assert_eq!(extract_title_from_typst(None, None), "Untitled");
    assert_eq!(extract_title_from_typst(Some("text"), None), "Untitled");
}

#[test]
fn resolved_title_prefers_header() {
    let doc = "= Heading\n#post(title: \"Declared\", date: datetime(year: 2020, month: 2, day: 2))";
    assert_eq!(
        resolve_title_and_date(Some(doc), Some("stem")),
        ("Declared".to_string(), "2020-02-02".to_string())
    );
    assert_eq!(
        resolve_title_and_date(Some("= Heading\n"), Some("stem")),
        ("Heading".to_string(), String::new())
    );
    assert_eq!(
        resolve_title_and_date(Some("plain"), Some("stem")),
        ("stem".to_string(), String::new())
    );
    assert_eq!(
        resolve_title_and_date(None, None),
        ("Untitled".to_string(), String::new())
    );
}

#[test]
fn title_may_hold_parentheses_and_the_word_date() {
    let doc = "text\n#post(title: \"Up(date: 1) (draft\", date: datetime(year: 2024, month: 12, day: 31))\nmore";
    let meta = extract_post_metadata(doc);
    assert_eq!(meta.title, some("Up(date: 1) (draft"));
    assert_eq!(meta.date, some("2024-12-31"));
}

#[test]
fn title_that_reads_like_a_date_does_not_hide_the_date() {
    let doc = "#post(title: \"date: datetime(year: 1, month: 1, day: 1)\", date: datetime(year: 2024, month: 3, day: 7))";
    let meta = extract_post_metadata(doc);
    assert_eq!(meta.title, some("date: datetime(year: 1, month: 1, day: 1)"));
    assert_eq!(meta.date, some("2024-03-07"));
}

#[test]
fn title_with_escapes_and_commas_is_read_back() {
    let doc = "#post(title: \"a \\\"b\\\", c\\\\ (d\", date: datetime(year: 2024, month: 3, day: 7))";
    let meta = extract_post_metadata(doc);
    assert_eq!(meta.title, some("a \"b\", c\\ (d"));
    assert_eq!(meta.date, some("2024-03-07"));
}

#[test]
fn a_name_is_not_found_inside_another_name() {
    assert_eq!(
        extract_named_string("subtitle: \"S\", title: \"T\"", "title"),
        some("T")
    );
    assert_eq!(
        extract_named_string("subtitle: \"S\"", "title"),
        None
    );
    assert_eq!(
        extract_named_date(
            "update: datetime(year: 1, month: 1, day: 1), date: datetime(year: 2, month: 2, day: 2)",
            "date"
        ),
        some("0002-02-02")
    );
}

#[test]
fn a_name_is_not_found_inside_a_value() {
    assert_eq!(
        extract_named_string("tags: (a, title: \"inner\"), title: \"outer\"", "title"),
        some("outer")
    );
    assert_eq!(
        extract_named_string("note: \"x, title: y\", title: \"T\"", "title"),
        some("T")
    );
}

#[test]
fn the_first_argument_of_the_name_decides() {
    assert_eq!(
        extract_named_string("title: 1, title: \"T\"", "title"),
        None
    );
    assert_eq!(
        extract_named_string("title: \"A\", title: \"B\"", "title"),
        some("A")
    );
}

#[test]
fn the_value_of_the_date_must_be_the_call() {
    assert_eq!(
        extract_named_date(
            "date: \"soon\", updated: datetime(year: 2024, month: 1, day: 1)",
            "date"
        ),
        None
    );
    assert_eq!(
        extract_named_date("date: x datetime(year: 2024, month: 1, day: 1)", "date"),
        None
    );
    assert_eq!(
        extract_named_date("date:\n  datetime(year: 2024, month: 1, day: 1) ", "date"),
        some("2024-01-01")
    );
}

#[test]
fn only_the_first_header_counts() {
    let doc = "#post(title: \"One\")\n#post(title: \"Two\", date: datetime(year: 1, month: 1, day: 1))";
    let meta = extract_post_metadata(doc);
    assert_eq!(meta.title, some("One"));
    assert_eq!(meta.date, None);
}

#[test]
fn heading_is_found_among_other_lines() {
    let doc = "#import \"x.typ\"\n\n= Some Heading\ntext\n= Other";
    assert_eq!(
        resolve_title_and_date(Some(doc), Some("stem")).0,
        "Some Heading"
    );
}
