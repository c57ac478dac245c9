//! The logo files that the visual identity page offers for download.
//!
//! Every logo has a name, a picture and a set of files. The files of a logo
//! lie in `/assets/logo/` under one file name, once per format.

use vstd::prelude::*;

verus! {

/// A file to download: what the link is called, and where it leads.
pub struct AssetLink {
    pub label: &'static str,
    pub href: &'static str,
}

/// One logo: its name, a note on its use, the picture that shows it, and the
/// files it comes in.
pub struct IdentitySection {
    pub title: &'static str,
    pub description: Option<&'static str>,
    pub preview_src: &'static str,
    pub preview_alt: &'static str,
    pub links: Vec<AssetLink>,
}

/// The names of the logos, in the order of the page.
pub open spec fn logo_names() -> Seq<Seq<char>> {
    seq!["White Logo"@, "White on Black"@, "Black Logo"@, "Black on White"@]
}

/// The file name of each logo, without extension.
pub open spec fn logo_files() -> Seq<Seq<char>> {
    seq!["white"@, "white_in_black"@, "black"@, "black_in_white"@]
}

/// The note on the use of each logo; the last has none.
pub open spec fn logo_notes() -> Seq<Option<Seq<char>>> {
    seq![
        Some("Use on dark backgrounds."@),
        Some("Logo with fixed dark background."@),
        Some("Use on light backgrounds."@),
        None,
    ]
}

/// What stands for the picture of each logo where it cannot be shown.
pub open spec fn logo_alts() -> Seq<Seq<char>> {
    seq![
        "Lince white logo"@,
        "Lince white logo on black background"@,
        "Lince black logo"@,
        "Lince black logo on white background"@,
    ]
}

/// The formats that every logo comes in: what the link is called, and the
/// extension of the file.
pub open spec fn logo_formats() -> Seq<(Seq<char>, Seq<char>)> {
    seq![("SVG"@, ".svg"@), ("PNG"@, ".png"@), ("JPG"@, ".jpg"@)]
}

/// Where the file of a logo lies.
pub open spec fn logo_href(file: Seq<char>, extension: Seq<char>) -> Seq<char> {
    "/assets/logo/"@ + file + extension
}

/// The note of a section as text.
pub open spec fn note_of(section: IdentitySection) -> Option<Seq<char>> {
    match section.description {
        Some(note) => Some(note@),
        None => None,
    }
}

/// The link offers the logo `file` in the format of number `k`.
pub open spec fn is_format_link(link: AssetLink, file: Seq<char>, k: int) -> bool {
    link.label@ == logo_formats()[k].0 && link.href@ == logo_href(file, logo_formats()[k].1)
}

/// The section is that of the logo of number `i`: it has its name, its note
/// and the text for its picture, it shows the SVG file as its picture, and
/// it offers the logo in the three formats, in their order. The last logo
/// comes as an icon file too, which lies beside the directory of the logos.
pub open spec fn is_logo_section(section: IdentitySection, i: int) -> bool {
    &&& section.title@ == logo_names()[i]
    &&& note_of(section) == logo_notes()[i]
    &&& section.preview_alt@ == logo_alts()[i]
    &&& section.preview_src@ == logo_href(logo_files()[i], ".svg"@)
    &&& section.links@.len() == if i == 3 {
        4int
    } else {
        3int
    }
    &&& is_format_link(section.links@[0], logo_files()[i], 0)
    &&& is_format_link(section.links@[1], logo_files()[i], 1)
    &&& is_format_link(section.links@[2], logo_files()[i], 2)
    &&& i == 3 ==> section.links@[3].label@ == "ICO"@ && section.links@[3].href@
        == "/assets/black_in_white.ico"@
}

/// The files of the first logo lie where `logo_href` says.
proof fn lemma_white_files()
    ensures
        "/assets/logo/white.svg"@ == logo_href("white"@, ".svg"@),
        "/assets/logo/white.png"@ == logo_href("white"@, ".png"@),
        "/assets/logo/white.jpg"@ == logo_href("white"@, ".jpg"@),
{
    reveal_strlit("/assets/logo/");
    reveal_strlit("white");
    reveal_strlit(".svg");
    reveal_strlit(".png");
    reveal_strlit(".jpg");
    reveal_strlit("/assets/logo/white.svg");
    reveal_strlit("/assets/logo/white.png");
    reveal_strlit("/assets/logo/white.jpg");
    assert("/assets/logo/white.svg"@ =~= logo_href("white"@, ".svg"@));
    assert("/assets/logo/white.png"@ =~= logo_href("white"@, ".png"@));
    assert("/assets/logo/white.jpg"@ =~= logo_href("white"@, ".jpg"@));
}

/// The files of the second logo lie where `logo_href` says.
proof fn lemma_white_in_black_files()
    ensures
        "/assets/logo/white_in_black.svg"@ == logo_href("white_in_black"@, ".svg"@),
        "/assets/logo/white_in_black.png"@ == logo_href("white_in_black"@, ".png"@),
        "/assets/logo/white_in_black.jpg"@ == logo_href("white_in_black"@, ".jpg"@),
{
    reveal_strlit("/assets/logo/");
    reveal_strlit("white_in_black");
    reveal_strlit(".svg");
    reveal_strlit(".png");
    reveal_strlit(".jpg");
    reveal_strlit("/assets/logo/white_in_black.svg");
    reveal_strlit("/assets/logo/white_in_black.png");
    reveal_strlit("/assets/logo/white_in_black.jpg");
    assert("/assets/logo/white_in_black.svg"@ =~= logo_href("white_in_black"@, ".svg"@));
    assert("/assets/logo/white_in_black.png"@ =~= logo_href("white_in_black"@, ".png"@));
    assert("/assets/logo/white_in_black.jpg"@ =~= logo_href("white_in_black"@, ".jpg"@));
}

/// The files of the third logo lie where `logo_href` says.
proof fn lemma_black_files()
    ensures
        "/assets/logo/black.svg"@ == logo_href("black"@, ".svg"@),
        "/assets/logo/black.png"@ == logo_href("black"@, ".png"@),
        "/assets/logo/black.jpg"@ == logo_href("black"@, ".jpg"@),
{
    reveal_strlit("/assets/logo/");
    reveal_strlit("black");
    reveal_strlit(".svg");
    reveal_strlit(".png");
    reveal_strlit(".jpg");
    reveal_strlit("/assets/logo/black.svg");
    reveal_strlit("/assets/logo/black.png");
    reveal_strlit("/assets/logo/black.jpg");
    assert("/assets/logo/black.svg"@ =~= logo_href("black"@, ".svg"@));
    assert("/assets/logo/black.png"@ =~= logo_href("black"@, ".png"@));
    assert("/assets/logo/black.jpg"@ =~= logo_href("black"@, ".jpg"@));
}

/// The files of the fourth logo lie where `logo_href` says.
proof fn lemma_black_in_white_files()
    ensures
        "/assets/logo/black_in_white.svg"@ == logo_href("black_in_white"@, ".svg"@),
        "/assets/logo/black_in_white.png"@ == logo_href("black_in_white"@, ".png"@),
        "/assets/logo/black_in_white.jpg"@ == logo_href("black_in_white"@, ".jpg"@),
{
    reveal_strlit("/assets/logo/");
    reveal_strlit("black_in_white");
    reveal_strlit(".svg");
    reveal_strlit(".png");
    reveal_strlit(".jpg");
    reveal_strlit("/assets/logo/black_in_white.svg");
    reveal_strlit("/assets/logo/black_in_white.png");
    reveal_strlit("/assets/logo/black_in_white.jpg");
    assert("/assets/logo/black_in_white.svg"@ =~= logo_href("black_in_white"@, ".svg"@));
    assert("/assets/logo/black_in_white.png"@ =~= logo_href("black_in_white"@, ".png"@));
    assert("/assets/logo/black_in_white.jpg"@ =~= logo_href("black_in_white"@, ".jpg"@));
}

/// The logos of the page: four sections, the section of number `i` being
/// that of the logo of number `i`.
pub fn sections() -> (r: Vec<IdentitySection>)
    ensures
        r@.len() == 4,
        forall|i: int| 0 <= i < 4 ==> is_logo_section(#[trigger] r@[i], i),
{
    proof {
        lemma_white_files();
        lemma_white_in_black_files();
        lemma_black_files();
        lemma_black_in_white_files();
    }
    vec![
        IdentitySection {
            title: "White Logo",
            description: Some("Use on dark backgrounds."),
            preview_src: "/assets/logo/white.svg",
            preview_alt: "Lince white logo",
            links: vec![
                AssetLink { label: "SVG", href: "/assets/logo/white.svg" },
                AssetLink { label: "PNG", href: "/assets/logo/white.png" },
                AssetLink { label: "JPG", href: "/assets/logo/white.jpg" },
            ],
        },
        IdentitySection {
            title: "White on Black",
            description: Some("Logo with fixed dark background."),
            preview_src: "/assets/logo/white_in_black.svg",
            preview_alt: "Lince white logo on black background",
            links: vec![
                AssetLink { label: "SVG", href: "/assets/logo/white_in_black.svg" },
                AssetLink { label: "PNG", href: "/assets/logo/white_in_black.png" },
                AssetLink { label: "JPG", href: "/assets/logo/white_in_black.jpg" },
            ],
        },
        IdentitySection {
            title: "Black Logo",
            description: Some("Use on light backgrounds."),
            preview_src: "/assets/logo/black.svg",
            preview_alt: "Lince black logo",
            links: vec![
                AssetLink { label: "SVG", href: "/assets/logo/black.svg" },
                AssetLink { label: "PNG", href: "/assets/logo/black.png" },
                AssetLink { label: "JPG", href: "/assets/logo/black.jpg" },
            ],
        },
        IdentitySection {
            title: "Black on White",
            description: None,
            preview_src: "/assets/logo/black_in_white.svg",
            preview_alt: "Lince black logo on white background",
            links: vec![
                AssetLink { label: "SVG", href: "/assets/logo/black_in_white.svg" },
                AssetLink { label: "PNG", href: "/assets/logo/black_in_white.png" },
                AssetLink { label: "JPG", href: "/assets/logo/black_in_white.jpg" },
                AssetLink { label: "ICO", href: "/assets/black_in_white.ico" },
            ],
        },
    ]
}

} // verus!
