//! Fragments of compiler output that can stand inside a page: the body of an
//! HTML document, and the vector drawing of a sidecar with its resources.

use vstd::prelude::*;
use crate::text::{
    chars_of, find, find_from, first_occurrence, is_first_occurrence, is_last_occurrence,
    last_occurrence, lemma_first_occurrence, lemma_last_occurrence, opt_view, rfind, string_of,
    trim, trim_slice,
};

verus! {

/// The embed up to the identifier of its container.
pub const EMBED_OPEN: &'static str = r#"<div class="blog_post_embed">
  <div class="tinymist-native" id="tinymist-native-"#;

/// What stands between the identifier and the resources block.
pub const EMBED_BEFORE_RESOURCES: &'static str = r#"">
    "#;

/// What stands between the resources block and the document.
pub const EMBED_BEFORE_DOCUMENT: &'static str = r#"
    "#;

/// From the end of the document to the identifier that the script looks up.
pub const EMBED_SCRIPT_OPEN: &'static str = r#"
  </div>
</div>
<script>
(function() {
  const root = document.getElementById("tinymist-native-"#;

/// The rest of the script. It lays the pages of the document out as one
/// column, each page just below the content of the one before, lets the width
/// follow the container, and removes the frames and numbers of the pages.
pub const EMBED_SCRIPT_BODY: &'static str = r#"");
  if (!root) {
    return;
  }
  const svg = root.querySelector("svg.typst-doc");
  if (!svg) {
    return;
  }

  // Flatten pages so Tinymist output reads like one continuous post.
  const pages = Array.from(svg.querySelectorAll("g.typst-page"));
  let y = 0;
  const pageGap = 10;
  for (const page of pages) {
    let targetY = y;
    let advance = Number(page.getAttribute("data-page-height")) || 0;
    try {
      // Measure only page content so pages collapse without huge blank bands.
      const content = page.querySelector("g.typst-group") || page;
      const box = content.getBBox();
      if (box.height > 0) {
        targetY = y - box.y;
        advance = box.height + pageGap;
      }
    } catch (_err) {
      // Keep data-page-height fallback when geometry isn't measurable.
    }
    page.setAttribute("transform", `translate(0, ${targetY})`);
    y += advance;
  }

  const width = Number(svg.getAttribute("data-width"))
    || Number((pages[0] && pages[0].getAttribute("data-page-width")) || 596);
  if (width > 0 && y > 0) {
    svg.setAttribute("viewBox", `0 0 ${width} ${y}`);
  }

  svg.removeAttribute("height");
  svg.setAttribute("width", "100%");
  svg.style.height = "auto";
  svg.style.display = "block";
  svg.style.maxWidth = "100%";
  svg.style.background = "transparent";

  for (const outer of svg.querySelectorAll(".typst-page-outer")) {
    outer.remove();
  }
  for (const inner of svg.querySelectorAll(".typst-page-inner")) {
    inner.remove();
  }
  for (const ind of svg.querySelectorAll(".typst-preview-canvas-page-number, .typst-preview-svg-page-number")) {
    ind.remove();
  }

})();
</script>"#;

/// The body of an HTML document: what stands between the first `<body>` and
/// the last `</body>`, trimmed. Where either is absent, or the last
/// `</body>` begins before the first `<body>` has ended, the whole input.
pub open spec fn body_fragment(html: Seq<char>) -> Seq<char> {
    match (first_occurrence(html, "<body>"@, 0), last_occurrence(html, "</body>"@)) {
        (Some(start), Some(end)) => if start + 6 <= end {
            trim(html.subrange(start + 6, end))
        } else {
            html
        },
        _ => html,
    }
}

/// From the first `start_marker` through the first `end_marker` at or after
/// it, both included.
pub open spec fn first_block(input: Seq<char>, start_marker: Seq<char>, end_marker: Seq<char>)
    -> Option<Seq<char>> {
    match first_occurrence(input, start_marker, 0) {
        None => None,
        Some(start) => match first_occurrence(input, end_marker, start) {
            None => None,
            Some(end) => Some(input.subrange(start, end + end_marker.len())),
        },
    }
}

/// Where the `svg` element ends that is being read at `cursor`, with `depth`
/// such elements open. The next tag decides: an opening `<svg` that comes
/// before the next `</svg>` opens one more; a `</svg>` closes one, and the
/// one that closes the last ends the element. `None` where a `</svg>` comes
/// with none open, or where no `</svg>` follows.
pub open spec fn svg_end(input: Seq<char>, cursor: int, depth: nat) -> Option<int>
    decreases input.len() - cursor,
{
    if cursor < 0 || cursor >= input.len() {
        None
    } else {
        let next_open = first_occurrence(input, "<svg"@, cursor);
        let next_close = first_occurrence(input, "</svg>"@, cursor);
        match next_close {
            None => None,
            Some(close) => if next_open is Some && next_open.unwrap() < close {
                proof {
                    reveal_strlit("<svg");
                    lemma_first_occurrence(input, "<svg"@, cursor);
                }
                svg_end(input, next_open.unwrap() + "<svg"@.len(), depth + 1)
            } else if depth == 0 {
                None
            } else if depth == 1 {
                Some(close + "</svg>"@.len())
            } else {
                proof {
                    reveal_strlit("</svg>");
                    lemma_first_occurrence(input, "</svg>"@, cursor);
                }
                svg_end(input, close + "</svg>"@.len(), (depth - 1) as nat)
            },
        }
    }
}

/// The `svg` element that begins at `start`, nested `svg` elements included:
/// from `start` through the `</svg>` that closes it.
pub open spec fn balanced_svg(input: Seq<char>, start: int) -> Option<Seq<char>> {
    match svg_end(input, start, 0) {
        Some(end) => Some(input.subrange(start, end)),
        None => None,
    }
}

/// The drawing of the document in a sidecar: the first `svg` element inside
/// the `typst-app` container; where there is no container, or no complete
/// element in it, the `svg` element of class `typst-doc`.
pub open spec fn typst_doc_svg(input: Seq<char>) -> Option<Seq<char>> {
    let in_container = match first_occurrence(input, "<div id=\"typst-app\""@, 0) {
        None => None,
        Some(app) => match first_occurrence(input, "<svg"@, app) {
            None => None,
            Some(svg) => balanced_svg(input, svg),
        },
    };
    match in_container {
        Some(svg) => Some(svg),
        None => match first_occurrence(input, "<svg class=\"typst-doc\""@, 0) {
            None => None,
            Some(svg) => balanced_svg(input, svg),
        },
    }
}

/// The resources block of a sidecar: the `svg` element marked
/// `typst-svg-resources` by its id, else by its class, up to the first
/// `</svg>`; empty where there is none.
pub open spec fn svg_resources(raw: Seq<char>) -> Seq<char> {
    match first_block(raw, "<svg id=\"typst-svg-resources\""@, "</svg>"@) {
        Some(block) => block,
        None => match first_block(raw, "<svg class=\"typst-svg-resources\""@, "</svg>"@) {
            Some(block) => block,
            None => Seq::<char>::empty(),
        },
    }
}

/// The embed made of a resources block and a document, for the post `stem`.
pub open spec fn native_embed(stem: Seq<char>, resources: Seq<char>, document: Seq<char>) -> Seq<
    char,
> {
    EMBED_OPEN@ + stem + EMBED_BEFORE_RESOURCES@ + resources + EMBED_BEFORE_DOCUMENT@ + document
        + EMBED_SCRIPT_OPEN@ + stem + EMBED_SCRIPT_BODY@
}

/// What a sidecar gives to embed: its resources and its document, put
/// together with the script; `None` where it holds no document.
pub open spec fn native_html(raw: Seq<char>, stem: Seq<char>) -> Option<Seq<char>> {
    match typst_doc_svg(raw) {
        Some(document) => Some(native_embed(stem, svg_resources(raw), document)),
        None => None,
    }
}

/// The body of an HTML document, on characters.
pub fn body_of(html: &[char]) -> (r: &[char])
    ensures
        r@ == body_fragment(html@),
{
    let open = chars_of("<body>");
    let close = chars_of("</body>");
    let len = html.len();
    proof {
        reveal_strlit("<body>");
        lemma_first_occurrence(html@, open@, 0);
        lemma_last_occurrence(html@, close@);
    }
    match (find(html, open.as_slice()), rfind(html, close.as_slice())) {
        (Some(start), Some(end)) => {
            assert(is_first_occurrence(html@, open@, 0, start as int));
            assert(is_last_occurrence(html@, close@, end as int));
            if start + 6 <= end {
                trim_slice(vstd::slice::slice_subrange(html, start + 6, end))
            } else {
                html
            }
        },
        _ => html,
    }
}

/// From the first `start_marker` through the first `end_marker` after it.
pub fn first_block_of<'a>(input: &'a [char], start_marker: &[char], end_marker: &[char]) -> (r:
    Option<&'a [char]>)
    ensures
        opt_view(r) == first_block(input@, start_marker@, end_marker@),
{
    let len = input.len();
    match find(input, start_marker) {
        None => None,
        Some(start) => match find_from(input, end_marker, start) {
            None => None,
            Some(end) => {
                proof {
                    lemma_first_occurrence(input@, end_marker@, start as int);
                    assert(is_first_occurrence(input@, end_marker@, start as int, end as int));
                }
                Some(vstd::slice::slice_subrange(input, start, end + end_marker.len()))
            },
        },
    }
}

/// The `svg` element that begins at `start`.
pub fn balanced_svg_of<'a>(input: &'a [char], start: usize) -> (r: Option<&'a [char]>)
    ensures
        opt_view(r) == balanced_svg(input@, start as int),
{
    let open = chars_of("<svg");
    let close = chars_of("</svg>");
    let len = input.len();
    let mut cursor: usize = start;
    let mut depth: usize = 0;
    while cursor < len
        invariant
            len == input@.len(),
            open@ == "<svg"@,
            close@ == "</svg>"@,
            start <= cursor,
            depth <= cursor,
            svg_end(input@, start as int, 0) == svg_end(input@, cursor as int, depth as nat),
        decreases len - cursor,
    {
        let next_open = find_from(input, open.as_slice(), cursor);
        let next_close = find_from(input, close.as_slice(), cursor);
        proof {
            reveal_strlit("<svg");
            reveal_strlit("</svg>");
            lemma_first_occurrence(input@, open@, cursor as int);
            lemma_first_occurrence(input@, close@, cursor as int);
        }
        let close_at: usize = match next_close {
            None => {
                return None;
            },
            Some(c) => c,
        };
        assert(is_first_occurrence(input@, close@, cursor as int, close_at as int));
        let opens_first = match next_open {
            Some(o) => o < close_at,
            None => false,
        };
        if opens_first {
            let open_at = next_open.unwrap();
            assert(is_first_occurrence(input@, open@, cursor as int, open_at as int));
            depth += 1;
            cursor = open_at + open.len();
        } else {
            if depth == 0 {
                return None;
            }
            depth -= 1;
            cursor = close_at + close.len();
            if depth == 0 {
                return Some(vstd::slice::slice_subrange(input, start, cursor));
            }
        }
    }
    None
}

/// The drawing of the document in a sidecar.
pub fn typst_doc_svg_of<'a>(input: &'a [char]) -> (r: Option<&'a [char]>)
    ensures
        opt_view(r) == typst_doc_svg(input@),
{
    let container = chars_of("<div id=\"typst-app\"");
    let open = chars_of("<svg");
    let document = chars_of("<svg class=\"typst-doc\"");
    if let Some(app) = find(input, container.as_slice()) {
        if let Some(svg) = find_from(input, open.as_slice(), app) {
            if let Some(found) = balanced_svg_of(input, svg) {
                return Some(found);
            }
        }
    }
    match find(input, document.as_slice()) {
        Some(svg) => balanced_svg_of(input, svg),
        None => None,
    }
}

/// The resources block of a sidecar.
pub fn svg_resources_of<'a>(raw: &'a [char]) -> (r: &'a [char])
    ensures
        r@ == svg_resources(raw@),
{
    let by_id = chars_of("<svg id=\"typst-svg-resources\"");
    let by_class = chars_of("<svg class=\"typst-svg-resources\"");
    let close = chars_of("</svg>");
    match first_block_of(raw, by_id.as_slice(), close.as_slice()) {
        Some(block) => block,
        None => match first_block_of(raw, by_class.as_slice(), close.as_slice()) {
            Some(block) => block,
            None => vstd::slice::slice_subrange(raw, 0, 0),
        },
    }
}

/// The body of an HTML document: what stands between the first `<body>` and
/// the last `</body>`, trimmed; the whole input where there is no such part.
pub fn extract_body(full_html: String) -> (r: String)
    ensures
        r@ == body_fragment(full_html@),
{
    let chars = chars_of(full_html.as_str());
    string_of(body_of(chars.as_slice()))
}

/// From the first `start_marker` in `input` through the first `end_marker`
/// at or after it.
pub fn extract_first_block(input: &str, start_marker: &str, end_marker: &str) -> (r: Option<
    String,
>)
    ensures
        r.deep_view() == first_block(input@, start_marker@, end_marker@),
{
    let chars = chars_of(input);
    let start = chars_of(start_marker);
    let end = chars_of(end_marker);
    match first_block_of(chars.as_slice(), start.as_slice(), end.as_slice()) {
        Some(block) => Some(string_of(block)),
        None => None,
    }
}

/// The `svg` element that begins at character `start` of `input`, nested
/// `svg` elements included.
pub fn extract_balanced_svg(input: &str, start: usize) -> (r: Option<String>)
    ensures
        r.deep_view() == balanced_svg(input@, start as int),
{
    let chars = chars_of(input);
    match balanced_svg_of(chars.as_slice(), start) {
        Some(svg) => Some(string_of(svg)),
        None => None,
    }
}

/// The drawing of the document in a sidecar.
pub fn extract_typst_doc_svg(input: &str) -> (r: Option<String>)
    ensures
        r.deep_view() == typst_doc_svg(input@),
{
    let chars = chars_of(input);
    match typst_doc_svg_of(chars.as_slice()) {
        Some(svg) => Some(string_of(svg)),
        None => None,
    }
}

/// What the sidecar `raw` of the post `stem` gives to embed: its resources
/// and its document in one container, with the script that lays the pages out
/// as one column. `None` where the sidecar holds no document.
pub fn tinymist_native_html(raw: &str, stem: &str) -> (r: Option<String>)
    ensures
        r.deep_view() == native_html(raw@, stem@),
{
    let chars = chars_of(raw);
    let resources = string_of(svg_resources_of(chars.as_slice()));
    let document = match typst_doc_svg_of(chars.as_slice()) {
        Some(svg) => string_of(svg),
        None => {
            return None;
        },
    };
    let mut out = String::new();
    out.append(EMBED_OPEN);
    out.append(stem);
    out.append(EMBED_BEFORE_RESOURCES);
    out.append(resources.as_str());
    out.append(EMBED_BEFORE_DOCUMENT);
    out.append(document.as_str());
    out.append(EMBED_SCRIPT_OPEN);
    out.append(stem);
    out.append(EMBED_SCRIPT_BODY);
    assert(out@ =~= native_embed(stem@, resources@, document@));
    Some(out)
}

} // verus!
