use lince_site::visual_identity::sections;

#[test]
fn four_logos_in_order() {
    let titles: Vec<&str> = sections().iter().map(|s| s.title).collect();
    assert_eq!(
        titles,
        vec!["White Logo", "White on Black", "Black Logo", "Black on White"]
    );
}

#[test]
fn every_logo_comes_as_svg_png_and_jpg() {
    for section in sections() {
        let labels: Vec<&str> = section.links.iter().map(|l| l.label).collect();
        assert_eq!(&labels[..3], &["SVG", "PNG", "JPG"]);
        assert_eq!(section.links[0].href, section.preview_src);
        for link in &section.links {
            assert!(link.href.starts_with("/assets/"));
        }
    }
}

#[test]
fn the_last_logo_has_an_icon_and_no_note() {
    let all = sections();
    assert_eq!(all[0].description, Some("Use on dark backgrounds."));
    assert_eq!(all[1].description, Some("Logo with fixed dark background."));
    assert_eq!(all[2].description, Some("Use on light backgrounds."));
    assert_eq!(all[3].description, None);
    assert_eq!(all[3].links.len(), 4);
    assert_eq!(all[3].links[3].label, "ICO");
    assert_eq!(all[3].links[3].href, "/assets/black_in_white.ico");
    assert_eq!(all[0].preview_alt, "Lince white logo");
    assert_eq!(all[2].links[1].href, "/assets/logo/black.png");
}
