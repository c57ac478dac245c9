//! Languages in file names, and the links between the pages of the site.
//!
//! Every page exists once per language. The English page has the plain name;
//! the others carry the language code before `.html`.

use vstd::prelude::*;
use crate::text::{chars_of, matches_at, starts_with};

verus! {

/// The suffix of the pages in a language of the site: none for English,
/// `.pt-br` for Brazilian Portuguese, `.zh` for every other code.
pub open spec fn site_suffix(lang: Seq<char>) -> Seq<char> {
    if lang == "en"@ {
        ""@
    } else if lang == "pt-br"@ {
        ".pt-br"@
    } else {
        ".zh"@
    }
}

/// The suffix that a language code makes: none for English, else a dot and
/// the code.
pub open spec fn code_suffix(lang: Seq<char>) -> Seq<char> {
    if lang == "en"@ {
        Seq::<char>::empty()
    } else {
        seq!['.'] + lang
    }
}

/// The address of a page of the site in a language.
pub open spec fn page_address(page: Seq<char>, suffix: Seq<char>) -> Seq<char> {
    "/"@ + page + suffix + ".html"@
}

/// The name under which a post is known to the page shell.
pub open spec fn post_page(stem: Seq<char>) -> Seq<char> {
    "blog/"@ + stem
}

/// The file that the page of a post is written to.
pub open spec fn post_file(stem: Seq<char>, suffix: Seq<char>) -> Seq<char> {
    "output/blog/"@ + stem + suffix + ".html"@
}

/// The way from a page to the assets: `../` from the page of a post, which
/// lies one directory down, and nothing from any other page.
pub open spec fn assets_from(page: Seq<char>) -> Seq<char> {
    if starts_with(page, "blog/"@) {
        "../"@
    } else {
        ""@
    }
}

/// For the three languages of the site, the suffix of the site is the one
/// that the code makes.
pub proof fn lemma_suffixes_agree(lang: Seq<char>)
    requires
        lang == "en"@ || lang == "pt-br"@ || lang == "zh"@,
    ensures
        site_suffix(lang) == code_suffix(lang),
{
    reveal_strlit("");
    reveal_strlit("en");
    reveal_strlit("pt-br");
    reveal_strlit("zh");
    reveal_strlit(".pt-br");
    reveal_strlit(".zh");
    if lang == "en"@ {
        assert(""@ =~= Seq::<char>::empty());
    } else if lang == "pt-br"@ {
        assert(".pt-br"@ =~= seq!['.'] + "pt-br"@);
    } else {
        assert("zh"@.len() != "pt-br"@.len());
        assert(".zh"@ =~= seq!['.'] + "zh"@);
    }
}

/// The page of a post reaches the assets through the directory above, and
/// its address is that of the post under `/blog/`.
pub proof fn lemma_post_pages_lie_one_down(stem: Seq<char>, suffix: Seq<char>)
    ensures
        assets_from(post_page(stem)) == "../"@,
        page_address(post_page(stem), suffix) == "/blog/"@ + stem + suffix + ".html"@,
{
    reveal_strlit("blog/");
    reveal_strlit("/blog/");
    reveal_strlit("/");
    let page = post_page(stem);
    assert(page.subrange(0, 5) =~= "blog/"@);
    assert(page_address(page, suffix) =~= "/blog/"@ + stem + suffix + ".html"@);
}

/// Whether two strings are the same.
fn same_str(a: &str, b: &str) -> (r: bool)
    ensures
        r == (a@ == b@),
{
    let x = chars_of(a);
    let y = chars_of(b);
    if x.len() != y.len() {
        return false;
    }
    let same = matches_at(x.as_slice(), y.as_slice(), 0);
    assert(x@.subrange(0, x@.len() as int) =~= x@);
    same
}

/// The suffix of the pages in a language of the site.
pub fn lang_suffix(lang: &str) -> (r: &'static str)
    ensures
        r@ == site_suffix(lang@),
{
    if same_str(lang, "en") {
        ""
    } else if same_str(lang, "pt-br") {
        ".pt-br"
    } else {
        ".zh"
    }
}

/// The suffix that a language code makes.
pub fn get_lang_suffix(lang_code: &str) -> (r: String)
    ensures
        r@ == code_suffix(lang_code@),
{
    let mut suffix = String::new();
    if !same_str(lang_code, "en") {
        suffix.push('.');
        suffix.append(lang_code);
        assert(suffix@ =~= seq!['.'] + lang_code@);
    }
    suffix
}

/// The address of a page of the site in a language.
pub fn page_href(page: &str, suffix: &str) -> (r: String)
    ensures
        r@ == page_address(page@, suffix@),
{
    let mut href = "/".to_owned();
    href.append(page);
    href.append(suffix);
    href.append(".html");
    href
}

/// The name under which a post is known to the page shell.
pub fn post_page_name(stem: &str) -> (r: String)
    ensures
        r@ == post_page(stem@),
{
    let mut name = "blog/".to_owned();
    name.append(stem);
    name
}

/// The file that the page of a post is written to.
pub fn post_output_path(stem: &str, suffix: &str) -> (r: String)
    ensures
        r@ == post_file(stem@, suffix@),
{
    let mut path = "output/blog/".to_owned();
    path.append(stem);
    path.append(suffix);
    path.append(".html");
    path
}

/// The way from a page to the assets.
pub fn asset_prefix(page: &str) -> (r: &'static str)
    ensures
        r@ == assets_from(page@),
{
    let chars = chars_of(page);
    let posts = chars_of("blog/");
    if matches_at(chars.as_slice(), posts.as_slice(), 0) {
        "../"
    } else {
        ""
    }
}

/// An entry of the navigation bar that leads to a page of the site.
#[derive(Clone, Copy, PartialEq, Eq, Debug)]
pub enum NavItem {
    Home,
    About,
    Blog,
}

/// Whether the entry is the one of the page that is shown: `index` is under
/// Home, `about` under About, and the list of posts and every post under
/// Blog.
pub open spec fn is_current(item: NavItem, page: Seq<char>) -> bool {
    match item {
        NavItem::Home => page == "index"@,
        NavItem::About => page == "about"@,
        NavItem::Blog => page == "blogposts"@ || starts_with(page, "blog/"@),
    }
}

/// The classes of an entry of the navigation bar.
pub open spec fn nav_classes(item: NavItem, page: Seq<char>) -> Seq<char> {
    if is_current(item, page) {
        "navbar-item active"@
    } else {
        "navbar-item"@
    }
}

/// The classes of an entry of the navigation bar on the page `current_page`:
/// the entry of the page that is shown is marked active.
pub fn nav_item_class(item: NavItem, current_page: &str) -> (r: &'static str)
    ensures
        r@ == nav_classes(item, current_page@),
{
    let current = match item {
        NavItem::Home => same_str(current_page, "index"),
        NavItem::About => same_str(current_page, "about"),
        NavItem::Blog => {
            let chars = chars_of(current_page);
            let posts = chars_of("blog/");
            same_str(current_page, "blogposts") || matches_at(
                chars.as_slice(),
                posts.as_slice(),
                0,
            )
        },
    };
    if current {
        "navbar-item active"
    } else {
        "navbar-item"
    }
}

/// On the page of a post, the entry Blog is the active one and no other.
pub proof fn lemma_posts_are_under_blog(stem: Seq<char>)
    ensures
        is_current(NavItem::Blog, post_page(stem)),
        !is_current(NavItem::Home, post_page(stem)),
        !is_current(NavItem::About, post_page(stem)),
{
    reveal_strlit("blog/");
    reveal_strlit("index");
    reveal_strlit("about");
    let page = post_page(stem);
    assert(page.subrange(0, 5) =~= "blog/"@);
    assert(page[0] == 'b');
}

} // verus!
