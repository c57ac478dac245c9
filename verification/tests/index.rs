use lince_site::index::{
    extension_of_file_name, get_blog_posts, is_listed_file_name, should_skip_blog_post,
    stem_of_file_name, text_less, SourceDocument,
};

fn doc(name: &str, content: Option<&str>) -> SourceDocument {
    SourceDocument {
        file_name: name.to_string(),
        content: content.map(|c| c.to_string()),
    }
}

fn entry(slug: &str, title: &str, date: &str) -> (String, String, String) {
    (slug.to_string(), title.to_string(), date.to_string())
}

fn chars(s: &str) -> Vec<char> {
    s.chars().collect()
}

#[test]
fn templates_are_skipped() {
    assert!(should_skip_blog_post("0000_template"));
    assert!(should_skip_blog_post("weekly_template"));
    assert!(should_skip_blog_post("_template"));
    assert!(!should_skip_blog_post("2024_template_notes"));
    assert!(!should_skip_blog_post("template"));
    assert!(!should_skip_blog_post("20240101-a"));
    assert!(!should_skip_blog_post(""));
}

#[test]
fn template_files_are_not_listed() {
    assert!(!is_listed_file_name("0000_template.typ"));
    assert!(!is_listed_file_name("weekly_template.typ"));
    assert!(is_listed_file_name("2024_template_notes.typ"));
}

#[test]
fn only_posts_are_listed() {
    assert!(is_listed_file_name("20240101-a.typ"));
    assert!(!is_listed_file_name("components.txt"));
    assert!(!is_listed_file_name("20240101-a.typ.bak"));
    assert!(!is_listed_file_name("20240101-a.TYP"));
    assert!(!is_listed_file_name("typ"));
    assert!(!is_listed_file_name(".typ"));
    assert!(is_listed_file_name("a.b.typ"));
}

#[test]
fn stem_and_extension_part_at_the_last_dot() {
    assert_eq!(stem_of_file_name("post.typ"), "post");
    assert_eq!(
        extension_of_file_name("post.typ"),
        Some("typ".to_string())
    );
    assert_eq!(stem_of_file_name("a.b.c"), "a.b");
    assert_eq!(extension_of_file_name("a.b.c"), Some("c".to_string()));
    assert_eq!(stem_of_file_name("post."), "post");
    assert_eq!(extension_of_file_name("post."), Some(String::new()));
}

#[test]
fn names_without_extension() {
    assert_eq!(stem_of_file_name("post"), "post");
    assert_eq!(extension_of_file_name("post"), None);
    assert_eq!(stem_of_file_name(".hidden"), ".hidden");
    assert_eq!(extension_of_file_name(".hidden"), None);
    assert_eq!(stem_of_file_name(".."), "..");
    assert_eq!(extension_of_file_name(".."), None);
    assert_eq!(stem_of_file_name(""), "");
    assert_eq!(extension_of_file_name(""), None);
}

#[test]
fn stem_and_extension_agree_with_std() {
    for name in [
        "post.typ", "a.b.c", "post.", "post", ".hidden", ".hidden.typ", "...", "é.typ", "a..b",
    ] {
        let path = std::path::Path::new(name);
        assert_eq!(
            Some(stem_of_file_name(name)),
            path.file_stem().map(|s| s.to_str().unwrap().to_string()),
            "stem of {}",
            name
        );
        assert_eq!(
            extension_of_file_name(name),
            path.extension().map(|s| s.to_str().unwrap().to_string()),
            "extension of {}",
            name
        );
    }
}

#[test]
fn text_order_is_that_of_strings() {
    let words = ["", "a", "ab", "b", "B", "é", "z", "20240101-a", "20240301-b", "日本"];
    for x in words {
        for y in words {
            assert_eq!(text_less(&chars(x), &chars(y)), x < y, "{} < {}", x, y);
        }
    }
}

#[test]
fn index_lists_from_the_greatest_slug_down() {
    let documents = vec![
        doc("20240101-a.typ", Some("= First")),
        doc("20240301-b.typ", Some("= Second")),
    ];
    assert_eq!(
        get_blog_posts(&documents),
        vec![
            entry("20240301-b", "Second", ""),
            entry("20240101-a", "First", ""),
        ]
    );
}

#[test]
fn index_leaves_out_templates_and_other_files() {
    let documents = vec![
        doc("0000_template.typ", Some("= Template")),
        doc("b.typ", None),
        doc("weekly_template.typ", Some("= Weekly")),
        doc("components.txt", Some("= Not a post")),
        doc("2024_template_notes.typ", Some("text")),
        doc("c.typ", Some("#post(title: \"C\", date: datetime(year: 2024, month: 5, day: 6))")),
    ];
    assert_eq!(
        get_blog_posts(&documents),
        vec![
            entry("c", "C", "2024-05-06"),
            entry("b", "b", ""),
            entry("2024_template_notes", "2024_template_notes", ""),
        ]
    );
}

#[test]
fn index_of_nothing_is_empty() {
    assert_eq!(get_blog_posts(&Vec::new()), Vec::new());
    assert_eq!(
        get_blog_posts(&vec![doc("0000_template.typ", None)]),
        Vec::new()
    );
}

#[test]
fn index_keeps_the_order_of_equal_slugs() {
    let documents = vec![
        doc("a.typ", Some("= One")),
        doc("b.typ", Some("= Top")),
        doc("a.typ", Some("= Two")),
    ];
    assert_eq!(
        get_blog_posts(&documents),
        vec![
            entry("b", "Top", ""),
            entry("a", "One", ""),
            entry("a", "Two", ""),
        ]
    );
}

#[test]
fn index_is_sorted_whatever_the_order_of_the_files() {
    let names = ["03-c.typ", "01-a.typ", "05-e.typ", "02-b.typ", "04-d.typ"];
    let documents: Vec<SourceDocument> = names.iter().map(|n| doc(n, None)).collect();
    let slugs: Vec<String> = get_blog_posts(&documents)
        .into_iter()
        .map(|(slug, _, _)| slug)
        .collect();
    assert_eq!(slugs, vec!["05-e", "04-d", "03-c", "02-b", "01-a"]);
}

#[test]
fn plain_list_takes_every_post_file_by_its_heading() {
    let documents = vec![
        doc("a.typ", Some("#post(title: \"Declared\")\n= Heading A")),
        doc("0000_template.typ", Some("= Template")),
        doc("notes.txt", Some("= Notes")),
        doc("c.typ", None),
        doc("b.typ", Some("no heading")),
    ];
    assert_eq!(
        lince_site::index::get_blog_posts_by_heading(&documents),
        vec![
            ("c".to_string(), "c".to_string()),
            ("b".to_string(), "b".to_string()),
            ("a".to_string(), "Heading A".to_string()),
            ("0000_template".to_string(), "Template".to_string()),
        ]
    );
    assert!(lince_site::index::has_post_extension("a.typ"));
    assert!(lince_site::index::has_post_extension("0000_template.typ"));
    assert!(!lince_site::index::has_post_extension("a.txt"));
}
