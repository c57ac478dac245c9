use lince_site::i18n::get_translations;

#[test]
fn three_languages_in_order() {
    let tables = get_translations();
    let codes: Vec<&str> = tables.iter().map(|(code, _)| *code).collect();
    assert_eq!(codes, vec!["en", "pt-br", "zh"]);
}

#[test]
fn each_table_carries_its_code() {
    for (code, table) in get_translations() {
        assert_eq!(table.lang_code, code);
    }
}

#[test]
fn tables_hold_their_language() {
    let tables = get_translations();
    assert_eq!(tables[0].1.lang_name, "English");
    assert_eq!(tables[0].1.nav_home, "Home");
    assert_eq!(tables[1].1.lang_name, "Português (Brasil)");
    assert_eq!(tables[1].1.nav_home, "Início");
    assert_eq!(tables[2].1.lang_name, "中文");
    assert_eq!(tables[0].1.footer_license, "License");
}

#[test]
fn tables_hold_the_navigation_texts() {
    let tables = get_translations();
    assert_eq!(tables.len(), 3);
    assert_eq!(tables[0].1.nav_home, "Home");
    assert_eq!(tables[1].1.nav_home, "Início");
    assert_eq!(tables[2].1.nav_home, "首页");
    assert_eq!(tables[0].1.nav_about, "About");
    assert_eq!(tables[1].1.nav_about, "Sobre");
    assert_eq!(
        tables[0].1.footer_copyright,
        "Copyleft 2023-2026 Lince. Built with love and Rust."
    );
}
