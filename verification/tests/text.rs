use lince_site::decimal::{decimal_of, parse_decimal_u32, zero_padded_decimal};
use lince_site::lang::{
    asset_prefix, get_lang_suffix, lang_suffix, nav_item_class, page_href, post_output_path,
    post_page_name, NavItem,
};
use lince_site::text::{
    chars_of, find, find_from, is_whitespace_char, matches_at, rfind, split_on_char, string_of,
    trim_slice, trim_start_slice,
};

fn chars(s: &str) -> Vec<char> {
    s.chars().collect()
}

fn text(v: &[char]) -> String {
    v.iter().collect()
}

#[test]
fn strings_and_characters_convert_both_ways() {
    for s in ["", "abc", "héllo wörld", "日本語", "a\nb\t"] {
        assert_eq!(chars_of(s), chars(s));
        assert_eq!(string_of(&chars(s)), s);
    }
}

#[test]
fn find_gives_the_first_occurrence_in_characters() {
    assert_eq!(find(&chars("abcabc"), &chars("bc")), Some(1));
    assert_eq!(find(&chars("ééabc"), &chars("abc")), Some(2));
    assert_eq!(find(&chars("abc"), &chars("")), Some(0));
    assert_eq!(find(&chars("abc"), &chars("abcd")), None);
    assert_eq!(find(&chars("abc"), &chars("x")), None);
    assert_eq!(find(&chars(""), &chars("")), Some(0));
}

#[test]
fn find_from_starts_at_the_offset() {
    assert_eq!(find_from(&chars("abcabc"), &chars("bc"), 1), Some(1));
    assert_eq!(find_from(&chars("abcabc"), &chars("bc"), 2), Some(4));
    assert_eq!(find_from(&chars("abcabc"), &chars("bc"), 5), None);
    assert_eq!(find_from(&chars("abc"), &chars(""), 3), Some(3));
    assert_eq!(find_from(&chars("abc"), &chars(""), 4), None);
    assert_eq!(find_from(&chars("abc"), &chars("a"), 100), None);
}

#[test]
fn rfind_gives_the_last_occurrence() {
    assert_eq!(rfind(&chars("abcabc"), &chars("bc")), Some(4));
    assert_eq!(rfind(&chars("abc"), &chars("")), Some(3));
    assert_eq!(rfind(&chars("abc"), &chars("x")), None);
    assert_eq!(rfind(&chars("aaa"), &chars("aa")), Some(1));
}

#[test]
fn matches_at_checks_the_bounds() {
    assert!(matches_at(&chars("abc"), &chars("bc"), 1));
    assert!(!matches_at(&chars("abc"), &chars("bc"), 2));
    assert!(!matches_at(&chars("abc"), &chars("bc"), usize::MAX));
    assert!(matches_at(&chars("abc"), &chars(""), 3));
    assert!(!matches_at(&chars("abc"), &chars(""), 4));
}

#[test]
fn whitespace_is_that_of_unicode() {
    for code in 0u32..0x11_0000 {
        if let Some(c) = char::from_u32(code) {
            assert_eq!(is_whitespace_char(c), c.is_whitespace(), "U+{:04X}", code);
        }
    }
}

#[test]
fn trimming_agrees_with_std() {
    for s in [
        "", " ", "  a  ", "\t\r\na b\u{a0}", "\u{3000}x", "x", " \u{2003}é\u{2028}", "a \n",
    ] {
        assert_eq!(text(trim_slice(&chars(s))), s.trim(), "{:?}", s);
        assert_eq!(text(trim_start_slice(&chars(s))), s.trim_start(), "{:?}", s);
    }
}

#[test]
fn splitting_agrees_with_std() {
    for s in ["", "a", "a,b", ",", "a,,b,", ",a", "year: 1, month: 2"] {
        let pieces: Vec<String> = split_on_char(&chars(s), ',')
            .iter()
            .map(|p| text(p))
            .collect();
        let expected: Vec<String> = s.split(',').map(|p| p.to_string()).collect();
        assert_eq!(pieces, expected, "{:?}", s);
    }
}

#[test]
fn numbers_are_read_as_std_reads_them() {
    for s in [
        "", "0", "7", "007", "+7", "+", "-7", "++7", "7+", " 7", "7 ", "12a", "4294967295",
        "4294967296", "99999999999999999999", "0000000000000000000001", "٣", "1_000",
    ] {
        assert_eq!(parse_decimal_u32(&chars(s)), s.parse::<u32>().ok(), "{:?}", s);
    }
}

#[test]
fn numbers_are_written_in_base_ten() {
    for n in [0u32, 5, 9, 10, 99, 100, 2024, 65535, u32::MAX] {
        assert_eq!(text(&decimal_of(n)), n.to_string());
    }
}

#[test]
fn padding_fills_up_to_the_width() {
    assert_eq!(text(&zero_padded_decimal(7, 2)), "07");
    assert_eq!(text(&zero_padded_decimal(7, 4)), "0007");
    assert_eq!(text(&zero_padded_decimal(2024, 4)), "2024");
    assert_eq!(text(&zero_padded_decimal(12345, 4)), "12345");
    assert_eq!(text(&zero_padded_decimal(0, 0)), "0");
    assert_eq!(text(&zero_padded_decimal(0, 3)), "000");
    for n in [0u32, 9, 10, 123, 99999] {
        assert_eq!(text(&zero_padded_decimal(n, 4)), format!("{:04}", n));
        assert_eq!(text(&zero_padded_decimal(n, 2)), format!("{:02}", n));
    }
}

#[test]
fn suffixes_of_the_site() {
    assert_eq!(lang_suffix("en"), "");
    assert_eq!(lang_suffix("pt-br"), ".pt-br");
    assert_eq!(lang_suffix("zh"), ".zh");
    assert_eq!(lang_suffix("fr"), ".zh");
    assert_eq!(lang_suffix(""), ".zh");
}

#[test]
fn suffixes_made_of_the_code() {
    assert_eq!(get_lang_suffix("en"), "");
    assert_eq!(get_lang_suffix("pt-br"), ".pt-br");
    assert_eq!(get_lang_suffix("zh"), ".zh");
    assert_eq!(get_lang_suffix("fr"), ".fr");
}

#[test]
fn both_suffixes_agree_on_the_languages_of_the_site() {
    for (code, _) in lince_site::i18n::get_translations() {
        assert_eq!(lang_suffix(code), get_lang_suffix(code));
    }
}

#[test]
fn links_between_pages() {
    assert_eq!(page_href("blog", ".pt-br"), "/blog.pt-br.html");
    assert_eq!(page_href("index", ""), "/index.html");
    assert_eq!(post_page_name("20240101-a"), "blog/20240101-a");
    assert_eq!(
        page_href(&post_page_name("20240101-a"), ".zh"),
        "/blog/20240101-a.zh.html"
    );
    assert_eq!(
        post_output_path("20240101-a", ".zh"),
        "output/blog/20240101-a.zh.html"
    );
    assert_eq!(
        post_output_path("20240101-a", ""),
        "output/blog/20240101-a.html"
    );
}

#[test]
fn assets_are_one_directory_up_from_posts() {
    assert_eq!(asset_prefix("blog/20240101-a"), "../");
    assert_eq!(asset_prefix("blog"), "");
    assert_eq!(asset_prefix("index"), "");
    assert_eq!(asset_prefix(""), "");
}

#[test]
fn navigation_marks_the_page_that_is_shown() {
    assert_eq!(nav_item_class(NavItem::Home, "index"), "navbar-item active");
    assert_eq!(nav_item_class(NavItem::Home, "about"), "navbar-item");
    assert_eq!(nav_item_class(NavItem::About, "about"), "navbar-item active");
    assert_eq!(nav_item_class(NavItem::About, "blog/x"), "navbar-item");
    assert_eq!(nav_item_class(NavItem::Blog, "blogposts"), "navbar-item active");
    assert_eq!(nav_item_class(NavItem::Blog, "blog/20240101-a"), "navbar-item active");
    assert_eq!(nav_item_class(NavItem::Blog, "blog"), "navbar-item");
    assert_eq!(nav_item_class(NavItem::Blog, "index"), "navbar-item");
}
