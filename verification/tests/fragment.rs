use lince_site::fragment::{
    extract_balanced_svg, extract_body, extract_first_block, extract_typst_doc_svg,
    tinymist_native_html,
};

fn some(s: &str) -> Option<String> {
    Some(s.to_string())
}

#[test]
fn body_is_what_stands_between_the_markers() {
    let html = "<html><head></head><body>\n  <p>Hi</p>\n</body></html>";
    assert_eq!(extract_body(html.to_string()), "<p>Hi</p>");
}

#[test]
fn body_uses_first_open_and_last_close() {
    let html = "<body>a<body>b</body>c</body>d";
    assert_eq!(extract_body(html.to_string()), "a<body>b</body>c");
}

#[test]
fn body_without_a_marker_is_the_input() {
    assert_eq!(extract_body("<p>x</p>".to_string()), "<p>x</p>");
    assert_eq!(extract_body("<body>x".to_string()), "<body>x");
    assert_eq!(extract_body("x</body>".to_string()), "x</body>");
    assert_eq!(extract_body(String::new()), "");
}

#[test]
fn body_with_close_before_open_is_the_input() {
    assert_eq!(
        extract_body("</body><body>".to_string()),
        "</body><body>"
    );
}

#[test]
fn body_may_be_empty() {
    assert_eq!(extract_body("<body></body>".to_string()), "");
    assert_eq!(extract_body("<body> \n\t </body>".to_string()), "");
}

#[test]
fn body_trims_unicode_whitespace() {
    assert_eq!(
        extract_body("<body>\u{a0}\u{3000}é \u{2003}</body>".to_string()),
        "é"
    );
}

#[test]
fn first_block_runs_through_the_end_marker() {
    assert_eq!(
        extract_first_block("x<a>1</a>y<a>2</a>", "<a>", "</a>"),
        some("<a>1</a>")
    );
}

#[test]
fn first_block_needs_both_markers() {
    assert_eq!(extract_first_block("x<a>1", "<a>", "</a>"), None);
    assert_eq!(extract_first_block("1</a>", "<a>", "</a>"), None);
    // An end marker that stands only before the start marker does not count.
    assert_eq!(extract_first_block("</a><a>", "<a>", "</a>"), None);
}

#[test]
fn balanced_svg_keeps_nested_elements() {
    let input = "<svg>a<svg>b</svg>c</svg>d";
    assert_eq!(
        extract_balanced_svg(input, 0),
        some("<svg>a<svg>b</svg>c</svg>")
    );
    assert_eq!(extract_balanced_svg(input, 6), some("<svg>b</svg>"));
}

#[test]
fn balanced_svg_starts_at_the_offset() {
    let input = "xx<svg id=\"a\"></svg><svg></svg>";
    assert_eq!(extract_balanced_svg(input, 2), some("<svg id=\"a\"></svg>"));
    // Text between the offset and the first tag belongs to the result.
    assert_eq!(extract_balanced_svg(input, 1), some("x<svg id=\"a\"></svg>"));
}

#[test]
fn balanced_svg_counts_offsets_in_characters() {
    let input = "éé<svg>é</svg>é";
    assert_eq!(extract_balanced_svg(input, 2), some("<svg>é</svg>"));
}

#[test]
fn balanced_svg_fails_on_unmatched_close() {
    assert_eq!(extract_balanced_svg("</svg><svg></svg>", 0), None);
}

#[test]
fn balanced_svg_fails_when_never_closed() {
    assert_eq!(extract_balanced_svg("<svg><svg></svg>", 0), None);
    assert_eq!(extract_balanced_svg("<svg>", 0), None);
    assert_eq!(extract_balanced_svg("", 0), None);
    assert_eq!(extract_balanced_svg("<svg></svg>", 50), None);
    assert_eq!(extract_balanced_svg("<svg></svg>", 11), None);
}

#[test]
fn document_is_found_in_the_container() {
    let raw = "<svg class=\"typst-doc\">other</svg><div id=\"typst-app\"><p/><svg class=\"x\"><svg/></svg></svg></div>";
    assert_eq!(
        extract_typst_doc_svg(raw),
        some("<svg class=\"x\"><svg/></svg></svg>")
    );
}

#[test]
fn document_is_found_by_class_without_container() {
    let raw = "<svg id=\"r\"></svg><svg class=\"typst-doc\" w=\"1\"><g/></svg>tail";
    assert_eq!(
        extract_typst_doc_svg(raw),
        some("<svg class=\"typst-doc\" w=\"1\"><g/></svg>")
    );
}

#[test]
fn document_falls_back_to_class_when_container_is_broken() {
    let raw = "<svg class=\"typst-doc\">d</svg><div id=\"typst-app\"><svg>";
    assert_eq!(
        extract_typst_doc_svg(raw),
        some("<svg class=\"typst-doc\">d</svg>")
    );
    let raw = "<svg class=\"typst-doc\">d</svg><div id=\"typst-app\">";
    assert_eq!(
        extract_typst_doc_svg(raw),
        some("<svg class=\"typst-doc\">d</svg>")
    );
}

#[test]
fn document_absent() {
    assert_eq!(extract_typst_doc_svg("<p>nothing</p>"), None);
}

#[test]
fn native_embed_holds_resources_and_document() {
    let raw = "<svg id=\"typst-svg-resources\"><defs/></svg><div id=\"typst-app\"><svg class=\"typst-doc\"><g/></svg></div>";
    let html = tinymist_native_html(raw, "20240101-a").unwrap();
    assert!(html.starts_with(
        "<div class=\"blog_post_embed\">\n  <div class=\"tinymist-native\" id=\"tinymist-native-20240101-a\">\n    <svg id=\"typst-svg-resources\"><defs/></svg>\n    <svg class=\"typst-doc\"><g/></svg>\n  </div>\n</div>\n<script>\n(function() {\n  const root = document.getElementById(\"tinymist-native-20240101-a\");\n  if (!root) {\n    return;\n  }\n"
    ));
    assert!(html.contains("page.setAttribute(\"transform\", `translate(0, ${targetY})`);"));
    assert!(html.contains("svg.setAttribute(\"viewBox\", `0 0 ${width} ${y}`);"));
    assert!(html.contains("svg.removeAttribute(\"height\");"));
    assert!(html.contains("for (const outer of svg.querySelectorAll(\".typst-page-outer\")) {\n    outer.remove();\n  }"));
    assert!(html.ends_with("\n\n})();\n</script>"));
    assert!(!html.contains("{{"));
}

#[test]
fn native_embed_resources_by_class_or_empty() {
    let raw = "<svg class=\"typst-svg-resources\">r</svg><svg class=\"typst-doc\">d</svg>";
    let html = tinymist_native_html(raw, "s").unwrap();
    assert!(html.contains(
        "id=\"tinymist-native-s\">\n    <svg class=\"typst-svg-resources\">r</svg>\n    <svg class=\"typst-doc\">d</svg>\n  </div>"
    ));
    let raw = "<svg class=\"typst-doc\">d</svg>";
    let html = tinymist_native_html(raw, "s").unwrap();
    assert!(html.contains(
        "id=\"tinymist-native-s\">\n    \n    <svg class=\"typst-doc\">d</svg>\n  </div>"
    ));
}

#[test]
fn native_embed_needs_a_document() {
    assert_eq!(
        tinymist_native_html("<svg id=\"typst-svg-resources\"></svg>", "s"),
        None
    );
    assert_eq!(tinymist_native_html("", "s"), None);
}
