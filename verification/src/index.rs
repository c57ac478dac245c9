//! The index of posts: which files of the posts directory are posts, what
//! each is called, and the order they are listed in.

use vstd::prelude::*;
use crate::metadata::{
    extract_title_from_typst, fallback_title, post_date, post_title, resolve_title_and_date,
};
use crate::text::{
    chars_of, ends_with, is_last_occurrence, last_occurrence, lemma_last_occurrence, matches_at,
    rfind, string_of,
};

verus! {

/// The extension of the files that are posts.
pub const POST_EXTENSION: &'static str = "typ";

/// The posts directory.
pub const POSTS_DIR: &'static str = "output/assets/blog/posts";

/// Where a file name parts into stem and extension: at its last dot, unless
/// that dot begins the name, or the name is `..`.
pub open spec fn extension_dot(name: Seq<char>) -> Option<int> {
    match last_occurrence(name, seq!['.']) {
        Some(i) => if i > 0 && name != seq!['.', '.'] {
            Some(i)
        } else {
            None
        },
        None => None,
    }
}

/// The stem of a file name: what stands before the dot of its extension, or
/// the whole name where it has no extension.
pub open spec fn file_stem(name: Seq<char>) -> Seq<char> {
    match extension_dot(name) {
        Some(i) => name.take(i),
        None => name,
    }
}

/// The extension of a file name: what stands after its dot.
pub open spec fn file_extension(name: Seq<char>) -> Option<Seq<char>> {
    match extension_dot(name) {
        Some(i) => Some(name.skip(i + 1)),
        None => None,
    }
}

/// Whether a post of this slug is left out of the index: the template
/// `0000_template`, and every slug that ends with `_template`.
pub open spec fn is_skipped(stem: Seq<char>) -> bool {
    stem == "0000_template"@ || ends_with(stem, "_template"@)
}

/// `a` comes before `b` in the order of strings: at the first place where
/// they differ `a` has the lesser character, or `a` ends there and `b` does
/// not.
pub open spec fn text_lt(a: Seq<char>, b: Seq<char>) -> bool
    decreases a.len(),
{
    if b.len() == 0 {
        false
    } else if a.len() == 0 {
        true
    } else if a[0] != b[0] {
        (a[0] as u32) < (b[0] as u32)
    } else {
        text_lt(a.drop_first(), b.drop_first())
    }
}

/// An entry of the index: slug, title and date.
pub type Entry = (Seq<char>, Seq<char>, Seq<char>);

/// The entries are listed from the greatest slug down.
pub open spec fn sorted_descending(entries: Seq<Entry>) -> bool {
    forall|i: int, j: int|
        0 <= i < j < entries.len() ==> !text_lt(#[trigger] entries[i].0, #[trigger] entries[j].0)
}

/// A list that is sorted from the greatest slug down, with one more entry:
/// the new entry stands before the first entry of a lesser slug, so behind
/// every entry of its own slug.
pub open spec fn insert_descending(sorted: Seq<Entry>, entry: Entry) -> Seq<Entry>
    decreases sorted.len(),
{
    if sorted.len() == 0 {
        seq![entry]
    } else if text_lt(sorted[0].0, entry.0) {
        seq![entry] + sorted
    } else {
        seq![sorted[0]] + insert_descending(sorted.drop_first(), entry)
    }
}

/// The entries from the greatest slug down; entries of one slug keep their
/// order.
pub open spec fn sort_descending(entries: Seq<Entry>) -> Seq<Entry>
    decreases entries.len(),
{
    if entries.len() == 0 {
        Seq::<Entry>::empty()
    } else {
        insert_descending(sort_descending(entries.drop_last()), entries.last())
    }
}

/// A file of the posts directory: its name, and its text where it could be
/// read.
#[derive(Clone, Debug, PartialEq, Eq)]
pub struct SourceDocument {
    pub file_name: String,
    pub content: Option<String>,
}

/// A `SourceDocument` as texts.
pub struct SourceDocumentView {
    pub file_name: Seq<char>,
    pub content: Option<Seq<char>>,
}

impl View for SourceDocument {
    type V = SourceDocumentView;

    open spec fn view(&self) -> SourceDocumentView {
        SourceDocumentView { file_name: self.file_name@, content: self.content.deep_view() }
    }
}

/// The documents as texts.
pub open spec fn document_views(documents: Seq<SourceDocument>) -> Seq<SourceDocumentView> {
    Seq::new(documents.len(), |i: int| documents[i]@)
}

/// Whether a file is a post that the index lists: it has the extension of
/// posts, and its stem is not skipped.
pub open spec fn is_listed(document: SourceDocumentView) -> bool {
    file_extension(document.file_name) == Some(POST_EXTENSION@) && !is_skipped(
        file_stem(document.file_name),
    )
}

/// The entry of a post: its slug is the stem of its file name, title and
/// date are those of its header, with the fallbacks for a missing one.
pub open spec fn entry_of(document: SourceDocumentView) -> Entry {
    let slug = file_stem(document.file_name);
    (slug, post_title(document.content, Some(slug)), post_date(document.content))
}

/// The entries of the posts among the documents, in the documents' order.
pub open spec fn listed_entries(documents: Seq<SourceDocumentView>) -> Seq<Entry>
    decreases documents.len(),
{
    if documents.len() == 0 {
        Seq::<Entry>::empty()
    } else {
        let before = listed_entries(documents.drop_last());
        if is_listed(documents.last()) {
            before.push(entry_of(documents.last()))
        } else {
            before
        }
    }
}

/// The index of the posts among the documents: one entry for each post that
/// is not skipped, from the greatest slug down.
pub open spec fn post_index(documents: Seq<SourceDocumentView>) -> Seq<Entry> {
    sort_descending(listed_entries(documents))
}

/// Where the new entry stands in the list: before the first entry of a
/// lesser slug.
pub proof fn lemma_insert_descending_at(sorted: Seq<Entry>, entry: Entry, p: int)
    requires
        0 <= p <= sorted.len(),
        forall|k: int| 0 <= k < p ==> !text_lt(#[trigger] sorted[k].0, entry.0),
        p < sorted.len() ==> text_lt(sorted[p].0, entry.0),
    ensures
        insert_descending(sorted, entry) == sorted.insert(p, entry),
    decreases p,
{
    if sorted.len() == 0 {
        assert(sorted.insert(p, entry) =~= seq![entry]);
    } else if p == 0 {
        assert(sorted.insert(0, entry) =~= seq![entry] + sorted);
    } else {
        let rest = sorted.drop_first();
        assert(!text_lt(sorted[0].0, entry.0));
        assert forall|k: int| 0 <= k < p - 1 implies !text_lt(#[trigger] rest[k].0, entry.0) by {
            assert(rest[k] == sorted[k + 1]);
        }
        lemma_insert_descending_at(rest, entry, p - 1);
        assert(seq![sorted[0]] + rest.insert(p - 1, entry) =~= sorted.insert(p, entry));
    }
}

/// No text comes before itself.
pub proof fn lemma_text_lt_irreflexive(a: Seq<char>)
    ensures
        !text_lt(a, a),
    decreases a.len(),
{
    if a.len() > 0 {
        lemma_text_lt_irreflexive(a.drop_first());
    }
}

/// What comes before a text comes before everything that the text comes
/// before.
pub proof fn lemma_text_lt_transitive(a: Seq<char>, b: Seq<char>, c: Seq<char>)
    requires
        text_lt(a, b),
        text_lt(b, c),
    ensures
        text_lt(a, c),
    decreases a.len(),
{
    if a.len() > 0 && b.len() > 0 && c.len() > 0 {
        if a[0] == b[0] && b[0] == c[0] {
            lemma_text_lt_transitive(a.drop_first(), b.drop_first(), c.drop_first());
        }
    }
}

/// Putting an entry into a sorted list leaves it sorted, and adds the entry
/// and nothing else.
pub proof fn lemma_insert_descending(sorted: Seq<Entry>, entry: Entry)
    requires
        sorted_descending(sorted),
    ensures
        sorted_descending(insert_descending(sorted, entry)),
        insert_descending(sorted, entry).to_multiset() == sorted.to_multiset().insert(entry),
        insert_descending(sorted, entry).len() == sorted.len() + 1,
    decreases sorted.len(),
{
    broadcast use vstd::seq_lib::group_to_multiset_ensures;

    let out = insert_descending(sorted, entry);
    if sorted.len() == 0 {
        assert(out =~= Seq::<Entry>::empty().push(entry));
        assert(sorted =~= Seq::<Entry>::empty());
    } else if text_lt(sorted[0].0, entry.0) {
        assert(out =~= sorted.insert(0, entry));
        vstd::seq_lib::to_multiset_insert(sorted, 0, entry);
        assert forall|i: int, j: int| 0 <= i < j < out.len() implies !text_lt(
            #[trigger] out[i].0,
            #[trigger] out[j].0,
        ) by {
            if i == 0 {
                // out[j] is sorted[j - 1], which does not come after sorted[0]
                let x = sorted[j - 1].0;
                assert(!text_lt(sorted[0].0, x)) by {
                    if j - 1 > 0 {
                        assert(!text_lt(sorted[0].0, sorted[j - 1].0));
                    } else {
                        lemma_text_lt_irreflexive(sorted[0].0);
                    }
                }
                if text_lt(entry.0, x) {
                    lemma_text_lt_transitive(sorted[0].0, entry.0, x);
                }
            } else {
                assert(out[i] == sorted[i - 1]);
                assert(out[j] == sorted[j - 1]);
            }
        }
    } else {
        let rest = sorted.drop_first();
        assert forall|i: int, j: int| 0 <= i < j < rest.len() implies !text_lt(
            #[trigger] rest[i].0,
            #[trigger] rest[j].0,
        ) by {
            assert(rest[i] == sorted[i + 1]);
            assert(rest[j] == sorted[j + 1]);
        }
        lemma_insert_descending(rest, entry);
        let tail = insert_descending(rest, entry);
        assert(out =~= tail.insert(0, sorted[0]));
        vstd::seq_lib::to_multiset_insert(tail, 0, sorted[0]);
        assert(sorted =~= rest.insert(0, sorted[0]));
        vstd::seq_lib::to_multiset_insert(rest, 0, sorted[0]);
        assert(out.to_multiset() =~= sorted.to_multiset().insert(entry));
        assert forall|i: int, j: int| 0 <= i < j < out.len() implies !text_lt(
            #[trigger] out[i].0,
            #[trigger] out[j].0,
        ) by {
            if i == 0 {
                // out[j] is the new entry or an entry of the rest
                assert(out[j] == tail[j - 1]);
                assert(tail.to_multiset().count(tail[j - 1]) > 0);
                if tail[j - 1] == entry {
                } else {
                    assert(rest.to_multiset().count(tail[j - 1]) > 0);
                    let k = choose|k: int| 0 <= k < rest.len() && rest[k] == tail[j - 1];
                    assert(rest[k] == sorted[k + 1]);
                    assert(!text_lt(sorted[0].0, sorted[k + 1].0));
                }
            } else {
                assert(out[i] == tail[i - 1]);
                assert(out[j] == tail[j - 1]);
            }
        }
    }
}

/// Sorting gives a sorted list of the same entries.
pub proof fn lemma_sort_descending(entries: Seq<Entry>)
    ensures
        sorted_descending(sort_descending(entries)),
        sort_descending(entries).to_multiset() == entries.to_multiset(),
        sort_descending(entries).len() == entries.len(),
    decreases entries.len(),
{
    broadcast use vstd::seq_lib::group_to_multiset_ensures;

    if entries.len() == 0 {
        assert(entries =~= Seq::<Entry>::empty());
    } else {
        let before = entries.drop_last();
        lemma_sort_descending(before);
        lemma_insert_descending(sort_descending(before), entries.last());
        assert(entries =~= before.push(entries.last()));
    }
}

/// Where a file name parts into stem and extension.
fn extension_dot_of(name: &[char]) -> (r: Option<usize>)
    ensures
        match r {
            Some(i) => extension_dot(name@) == Some(i as int) && i < name.len(),
            None => extension_dot(name@) is None,
        },
{
    let mut dot: Vec<char> = Vec::new();
    dot.push('.');
    assert(dot@ =~= seq!['.']);
    proof {
        lemma_last_occurrence(name@, dot@);
    }
    match rfind(name, dot.as_slice()) {
        None => None,
        Some(i) => {
            assert(is_last_occurrence(name@, dot@, i as int));
            let dots_only = name.len() == 2 && name[0] == '.' && name[1] == '.';
            assert(dots_only == (name@ == seq!['.', '.'])) by {
                if dots_only {
                    assert(name@ =~= seq!['.', '.']);
                }
            }
            if i > 0 && !dots_only {
                Some(i)
            } else {
                None
            }
        },
    }
}

/// The stem of a file name.
pub fn stem_of_file_name(name: &str) -> (r: String)
    ensures
        r@ == file_stem(name@),
{
    let chars = chars_of(name);
    match extension_dot_of(chars.as_slice()) {
        Some(i) => string_of(vstd::slice::slice_subrange(chars.as_slice(), 0, i)),
        None => string_of(chars.as_slice()),
    }
}

/// The extension of a file name.
pub fn extension_of_file_name(name: &str) -> (r: Option<String>)
    ensures
        r.deep_view() == file_extension(name@),
{
    let chars = chars_of(name);
    match extension_dot_of(chars.as_slice()) {
        Some(i) => Some(string_of(vstd::slice::slice_subrange(chars.as_slice(), i + 1, chars.len()))),
        None => None,
    }
}

/// Whether two texts are the same.
fn same_text(a: &[char], b: &[char]) -> (r: bool)
    ensures
        r == (a@ == b@),
{
    if a.len() != b.len() {
        return false;
    }
    let same = matches_at(a, b, 0);
    assert(a@.subrange(0, a@.len() as int) =~= a@);
    same
}

/// Whether a post of this slug is left out of the index: the template
/// `0000_template`, and every slug that ends with `_template`.
pub fn should_skip_blog_post(stem: &str) -> (r: bool)
    ensures
        r == is_skipped(stem@),
{
    let chars = chars_of(stem);
    let template = chars_of("0000_template");
    let suffix = chars_of("_template");
    if same_text(chars.as_slice(), template.as_slice()) {
        return true;
    }
    if suffix.len() > chars.len() {
        return false;
    }
    matches_at(chars.as_slice(), suffix.as_slice(), chars.len() - suffix.len())
}

/// Whether `a` comes before `b` in the order of strings.
pub fn text_less(a: &[char], b: &[char]) -> (r: bool)
    ensures
        r == text_lt(a@, b@),
{
    let mut i: usize = 0;
    assert(a@.subrange(0, a@.len() as int) =~= a@);
    assert(b@.subrange(0, b@.len() as int) =~= b@);
    while i < a.len() && i < b.len()
        invariant
            i <= a.len(),
            i <= b.len(),
            text_lt(a@, b@) == text_lt(
                a@.subrange(i as int, a@.len() as int),
                b@.subrange(i as int, b@.len() as int),
            ),
        decreases a.len() - i,
    {
        let ghost rest_a = a@.subrange(i as int, a@.len() as int);
        let ghost rest_b = b@.subrange(i as int, b@.len() as int);
        assert(rest_a[0] == a@[i as int]);
        assert(rest_b[0] == b@[i as int]);
        if a[i] != b[i] {
            return (a[i] as u32) < (b[i] as u32);
        }
        assert(rest_a.drop_first() =~= a@.subrange(i + 1, a@.len() as int));
        assert(rest_b.drop_first() =~= b@.subrange(i + 1, b@.len() as int));
        i += 1;
    }
    i < b.len()
}

/// Whether the string `a` comes before the string `b`.
fn slug_less(a: &str, b: &str) -> (r: bool)
    ensures
        r == text_lt(a@, b@),
{
    let x = chars_of(a);
    let y = chars_of(b);
    text_less(x.as_slice(), y.as_slice())
}

/// Whether a file of this name is a post that the index lists.
pub fn is_listed_file_name(file_name: &str) -> (r: bool)
    ensures
        r == (file_extension(file_name@) == Some(POST_EXTENSION@) && !is_skipped(
            file_stem(file_name@),
        )),
{
    let chars = chars_of(file_name);
    let wanted = chars_of(POST_EXTENSION);
    match extension_dot_of(chars.as_slice()) {
        None => false,
        Some(i) => {
            let extension = vstd::slice::slice_subrange(chars.as_slice(), i + 1, chars.len());
            if !same_text(extension, wanted.as_slice()) {
                return false;
            }
            let stem = string_of(vstd::slice::slice_subrange(chars.as_slice(), 0, i));
            !should_skip_blog_post(stem.as_str())
        },
    }
}

/// The entries as texts.
pub open spec fn entry_views(entries: Seq<(String, String, String)>) -> Seq<Entry> {
    Seq::new(entries.len(), |i: int| (entries[i].0@, entries[i].1@, entries[i].2@))
}

/// Puts an entry into a list that is sorted from the greatest slug down.
fn insert_entry(sorted: &mut Vec<(String, String, String)>, entry: (String, String, String))
    ensures
        entry_views(final(sorted)@) == insert_descending(
            entry_views(old(sorted)@),
            (entry.0@, entry.1@, entry.2@),
        ),
{
    let ghost before = entry_views(sorted@);
    let ghost added = (entry.0@, entry.1@, entry.2@);
    let mut p: usize = 0;
    while p < sorted.len() && !slug_less(sorted[p].0.as_str(), entry.0.as_str())
        invariant
            p <= sorted.len(),
            before == entry_views(sorted@),
            forall|k: int| 0 <= k < p ==> !text_lt(#[trigger] before[k].0, entry.0@),
        decreases sorted.len() - p,
    {
        p += 1;
    }
    proof {
        lemma_insert_descending_at(before, added, p as int);
    }
    sorted.insert(p, entry);
    assert(entry_views(sorted@) =~= before.insert(p as int, added));
}

/// The index of the posts among the files of the posts directory: one entry
/// `(slug, title, date)` for each file that has the extension of posts and
/// whose stem is not skipped, from the greatest slug down. The slug is the
/// stem of the file name; title and date are those of the header, the title
/// falling back to the first heading and then to the slug, the date to the
/// empty string.
pub fn get_blog_posts(documents: &Vec<SourceDocument>) -> (r: Vec<(String, String, String)>)
    ensures
        entry_views(r@) == post_index(document_views(documents@)),
{
    let ghost all = document_views(documents@);
    let mut posts: Vec<(String, String, String)> = Vec::new();
    let mut i: usize = 0;
    assert(all.take(0) =~= Seq::<SourceDocumentView>::empty());
    assert(entry_views(posts@) =~= Seq::<Entry>::empty());
    while i < documents.len()
        invariant
            i <= documents.len(),
            all == document_views(documents@),
            entry_views(posts@) == sort_descending(listed_entries(all.take(i as int))),
        decreases documents.len() - i,
    {
        let document = &documents[i];
        proof {
            let next = all.take(i + 1);
            assert(next.drop_last() =~= all.take(i as int));
            assert(next.last() == document@);
            if is_listed(document@) {
                let listed = listed_entries(all.take(i as int));
                let more = listed.push(entry_of(document@));
                assert(more.drop_last() =~= listed);
                assert(more.last() == entry_of(document@));
            }
        }
        if is_listed_file_name(document.file_name.as_str()) {
            let slug = stem_of_file_name(document.file_name.as_str());
            let content: Option<&str> = match &document.content {
                Some(text) => Some(text.as_str()),
                None => None,
            };
            let (title, date) = resolve_title_and_date(content, Some(slug.as_str()));
            insert_entry(&mut posts, (slug, title, date));
        }
        i += 1;
    }
    assert(all.take(documents.len() as int) =~= all);
    posts
}

/// Whether a file of this name has the extension of posts.
pub fn has_post_extension(file_name: &str) -> (r: bool)
    ensures
        r == (file_extension(file_name@) == Some(POST_EXTENSION@)),
{
    let chars = chars_of(file_name);
    let wanted = chars_of(POST_EXTENSION);
    match extension_dot_of(chars.as_slice()) {
        None => false,
        Some(i) => {
            let extension = vstd::slice::slice_subrange(chars.as_slice(), i + 1, chars.len());
            same_text(extension, wanted.as_slice())
        },
    }
}

/// The entry of a file in the plain list of posts: its slug, and for title
/// its first heading, or the slug where it has none. The header is not
/// read, and there is no date.
pub open spec fn heading_entry(document: SourceDocumentView) -> Entry {
    let slug = file_stem(document.file_name);
    (slug, fallback_title(document.content, Some(slug)), Seq::<char>::empty())
}

/// The entries of the files that have the extension of posts, templates
/// included, in the documents' order.
pub open spec fn heading_entries(documents: Seq<SourceDocumentView>) -> Seq<Entry>
    decreases documents.len(),
{
    if documents.len() == 0 {
        Seq::<Entry>::empty()
    } else {
        let before = heading_entries(documents.drop_last());
        if file_extension(documents.last().file_name) == Some(POST_EXTENSION@) {
            before.push(heading_entry(documents.last()))
        } else {
            before
        }
    }
}

/// Slug and title of each entry.
pub open spec fn slugs_and_titles(entries: Seq<Entry>) -> Seq<(Seq<char>, Seq<char>)> {
    Seq::new(entries.len(), |i: int| (entries[i].0, entries[i].1))
}

/// The pairs as texts.
pub open spec fn pair_views(pairs: Seq<(String, String)>) -> Seq<(Seq<char>, Seq<char>)> {
    Seq::new(pairs.len(), |i: int| (pairs[i].0@, pairs[i].1@))
}

/// The plain list of posts: `(slug, title)` for every file that has the
/// extension of posts, from the greatest slug down, the title being the
/// first heading of the file or else its slug. No file is skipped and no
/// header is read.
pub fn get_blog_posts_by_heading(documents: &Vec<SourceDocument>) -> (r: Vec<(String, String)>)
    ensures
        pair_views(r@) == slugs_and_titles(
            sort_descending(heading_entries(document_views(documents@))),
        ),
{
    let ghost all = document_views(documents@);
    let mut posts: Vec<(String, String, String)> = Vec::new();
    let mut i: usize = 0;
    assert(all.take(0) =~= Seq::<SourceDocumentView>::empty());
    assert(entry_views(posts@) =~= Seq::<Entry>::empty());
    while i < documents.len()
        invariant
            i <= documents.len(),
            all == document_views(documents@),
            entry_views(posts@) == sort_descending(heading_entries(all.take(i as int))),
        decreases documents.len() - i,
    {
        let document = &documents[i];
        proof {
            let next = all.take(i + 1);
            assert(next.drop_last() =~= all.take(i as int));
            assert(next.last() == document@);
            if file_extension(document@.file_name) == Some(POST_EXTENSION@) {
                let listed = heading_entries(all.take(i as int));
                let more = listed.push(heading_entry(document@));
                assert(more.drop_last() =~= listed);
                assert(more.last() == heading_entry(document@));
            }
        }
        if has_post_extension(document.file_name.as_str()) {
            let slug = stem_of_file_name(document.file_name.as_str());
            let content: Option<&str> = match &document.content {
                Some(text) => Some(text.as_str()),
                None => None,
            };
            let title = extract_title_from_typst(content, Some(slug.as_str()));
            insert_entry(&mut posts, (slug, title, String::new()));
        }
        i += 1;
    }
    assert(all.take(documents.len() as int) =~= all);
    let ghost sorted = entry_views(posts@);
    let mut pairs: Vec<(String, String)> = Vec::new();
    let mut k: usize = 0;
    while k < posts.len()
        invariant
            k <= posts.len(),
            sorted == entry_views(posts@),
            pairs@.len() == k,
            pair_views(pairs@) == slugs_and_titles(sorted).take(k as int),
        decreases posts.len() - k,
    {
        let entry = &posts[k];
        let ghost before = pairs@;
        let slug = entry.0.clone();
        let title = entry.1.clone();
        assert(slug@ == posts@[k as int].0@ && title@ == posts@[k as int].1@);
        pairs.push((slug, title));
        proof {
            assert(sorted[k as int] == (posts@[k as int].0@, posts@[k as int].1@, posts@[k as int].2@));
            assert(pairs@[k as int].0@ == sorted[k as int].0);
            assert(pairs@[k as int].1@ == sorted[k as int].1);
            assert forall|j: int| 0 <= j < k implies pair_views(pairs@)[j] == slugs_and_titles(
                sorted,
            )[j] by {
                assert(pairs@[j] == before[j]);
                assert(pair_views(before)[j] == slugs_and_titles(sorted).take(k as int)[j]);
            }
        }
        k += 1;
        assert(pair_views(pairs@) =~= slugs_and_titles(sorted).take(k as int));
    }
    assert(slugs_and_titles(sorted).take(posts.len() as int) =~= slugs_and_titles(sorted));
    pairs
}

/// The index lists its entries from the greatest slug down, and holds the
/// entries of the listed posts, each as often as it was found.
pub proof fn lemma_post_index(documents: Seq<SourceDocumentView>)
    ensures
        sorted_descending(post_index(documents)),
        post_index(documents).to_multiset() == listed_entries(documents).to_multiset(),
        post_index(documents).len() == listed_entries(documents).len(),
{
    lemma_sort_descending(listed_entries(documents));
}

} // verus!
