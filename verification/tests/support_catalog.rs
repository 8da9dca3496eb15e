use zuu::support::{languages_to_check, Language, Support};

#[test]
fn support_lists_every_language_once() {
    let s = Support::new();
    assert_eq!(s.languages.len(), 27);
    assert_eq!(s.languages[0], Language::Rust);
    assert_eq!(s.languages[26], Language::Fish);
    assert!(!s.languages.contains(&Language::Unknown));
}

#[test]
fn menu_offers_every_supported_language() {
    let names = Support::new().all();
    assert_eq!(names.len(), 27);
    assert_eq!(names[0], "Rust");
    assert_eq!(names[1], "Javascript");
    assert_eq!(names[15], "Lua");
    assert_eq!(names[21], "Fsharp");
    assert_eq!(names[26], "Fish");
}

#[test]
fn supported_hands_back_the_catalog() {
    let langs = Support::new().supported();
    assert_eq!(langs.len(), 27);
    assert_eq!(langs[3], Language::Go);
}

#[test]
fn default_support_is_empty() {
    let s = Support::default();
    assert!(s.languages.is_empty());
}

#[test]
fn labels_name_the_languages() {
    assert_eq!(Language::Rust.label(), "Rust");
    assert_eq!(Language::JavaScript.label(), "JavaScript");
    assert_eq!(Language::FSharp.label(), "FSharp");
    assert_eq!(Language::Lua.label(), "Lua");
    assert_eq!(Language::Unknown.label(), "Unknown");
}

#[test]
fn menu_names_differ_from_labels_in_casing() {
    assert_eq!(Language::JavaScript.menu_name(), "Javascript");
    assert_eq!(Language::FSharp.menu_name(), "Fsharp");
    assert_eq!(Language::Unknown.menu_name(), "");
}

#[test]
fn selection_picks_named_languages_in_support_order() {
    let names = vec![String::from("Go"), String::from("Rust")];
    let picked = languages_to_check(&names);
    // support order, not selection order
    assert_eq!(picked, vec![Language::Rust, Language::Go]);
}

#[test]
fn selection_ignores_unknown_names() {
    let names = vec![String::from("Cobol"), String::from("Ruby"), String::from("rust")];
    let picked = languages_to_check(&names);
    assert_eq!(picked, vec![Language::Ruby]);
}

#[test]
fn empty_selection_picks_nothing() {
    let picked = languages_to_check(&Vec::new());
    assert!(picked.is_empty());
}
