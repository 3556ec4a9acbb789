use warframe_status::model::{Language, PlatformType, Translations};

#[test]
fn platform_codes() {
    assert_eq!(PlatformType::PC.code(), "pc");
    assert_eq!(PlatformType::PS4.code(), "ps4");
    assert_eq!(PlatformType::XBox.code(), "xb1");
    assert_eq!(PlatformType::Switch.code(), "swi");
}

#[test]
fn language_codes() {
    assert_eq!(Language::English.code(), "en");
    assert_eq!(Language::German.code(), "de");
    assert_eq!(Language::Spanish.code(), "es");
    assert_eq!(Language::French.code(), "fr");
    assert_eq!(Language::Italian.code(), "it");
    assert_eq!(Language::Korean.code(), "ko");
    assert_eq!(Language::Polish.code(), "pl");
    assert_eq!(Language::Portuguese.code(), "pt");
    assert_eq!(Language::Russian.code(), "ru");
    assert_eq!(Language::Chinese.code(), "zh");
    assert_eq!(Language::Ukrainian.code(), "uk");
}

#[test]
fn platform_default_is_pc() {
    assert_eq!(PlatformType::default(), PlatformType::PC);
}

#[test]
fn language_default_is_english() {
    assert_eq!(Language::default(), Language::English);
}

#[test]
fn translations_get_hit_and_miss() {
    let mut t = Translations::new();
    t.insert(String::from("en"), String::from("hello"));
    t.insert(String::from("de"), String::from("hallo"));
    assert_eq!(t.get(Language::English), Some(&String::from("hello")));
    assert_eq!(t.get(Language::German), Some(&String::from("hallo")));
    assert_eq!(t.get(Language::French), None);
}

#[test]
fn translations_empty_has_nothing() {
    let t = Translations::new();
    assert_eq!(t.get(Language::English), None);
}

#[test]
fn translations_insert_replaces() {
    let mut t = Translations::new();
    t.insert(String::from("en"), String::from("old"));
    t.insert(String::from("en"), String::from("new"));
    assert_eq!(t.get(Language::English), Some(&String::from("new")));
}

#[test]
fn translations_clone_reads_the_same() {
    let mut t = Translations::new();
    t.insert(String::from("ru"), String::from("privet"));
    let c = t.clone();
    assert_eq!(c.get(Language::Russian), Some(&String::from("privet")));
    assert_eq!(c.get(Language::Chinese), None);
}
