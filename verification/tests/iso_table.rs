use whatlang_pyo3::iso::lang_to_iso639_1;
use whatlang_pyo3::model::Lang;

const TABLE: [(&str, &str); 45] = [
    ("afr", "af"),
    ("ara", "ar"),
    ("bul", "bg"),
    ("bos", "bs"),
    ("cat", "ca"),
    ("ces", "cs"),
    ("dan", "da"),
    ("deu", "de"),
    ("ell", "el"),
    ("eng", "en"),
    ("epo", "eo"),
    ("est", "et"),
    ("eus", "eu"),
    ("fin", "fi"),
    ("fra", "fr"),
    ("glg", "gl"),
    ("heb", "he"),
    ("hin", "hi"),
    ("hrv", "hr"),
    ("hun", "hu"),
    ("ind", "id"),
    ("ile", "is"),
    ("ita", "it"),
    ("jpn", "ja"),
    ("kor", "ko"),
    ("lat", "la"),
    ("lit", "lt"),
    ("lav", "lv"),
    ("mkd", "mk"),
    ("mlt", "mt"),
    ("nld", "nl"),
    ("nob", "nb"),
    ("nno", "nn"),
    ("pol", "pl"),
    ("por", "pt"),
    ("rum", "ro"),
    ("rus", "ru"),
    ("slk", "sk"),
    ("slv", "sl"),
    ("spa", "es"),
    ("swe", "sv"),
    ("tel", "te"),
    ("tur", "tr"),
    ("ukr", "uk"),
    ("vie", "vi"),
];

#[test]
fn every_table_entry_maps_to_its_two_letter_code() {
    for (code, iso) in TABLE.iter() {
        assert_eq!(lang_to_iso639_1(code), *iso, "code {}", code);
    }
}

#[test]
fn english_maps_to_en() {
    assert_eq!(lang_to_iso639_1("eng"), "en");
}

#[test]
fn ile_maps_to_is() {
    assert_eq!(lang_to_iso639_1("ile"), "is");
}

#[test]
fn unmapped_code_is_unknown() {
    assert_eq!(lang_to_iso639_1("xyz"), "unknown");
}

#[test]
fn codes_outside_the_table_are_unknown() {
    assert_eq!(lang_to_iso639_1(""), "unknown");
    assert_eq!(lang_to_iso639_1("en"), "unknown");
    assert_eq!(lang_to_iso639_1("engl"), "unknown");
    assert_eq!(lang_to_iso639_1("ENG"), "unknown");
    assert_eq!(lang_to_iso639_1("Eng"), "unknown");
    assert_eq!(lang_to_iso639_1("en\u{e9}"), "unknown");
    assert_eq!(lang_to_iso639_1("\u{e9}ng"), "unknown");
    assert_eq!(lang_to_iso639_1("cmn"), "unknown");
    assert_eq!(lang_to_iso639_1("ron"), "unknown");
    assert_eq!(lang_to_iso639_1("unknown"), "unknown");
    assert_eq!(lang_to_iso639_1("afs"), "unknown");
    assert_eq!(lang_to_iso639_1("vif"), "unknown");
}


#[test]
fn a_language_has_no_empty_code() {
    assert!(Lang::new(String::new()).is_none());
    assert_eq!(Lang::new("eng".to_string()).unwrap().code(), "eng");
    assert_eq!(Lang::new("x".to_string()).unwrap().code(), "x");
}

#[test]
fn iso_of_a_language_leaves_the_code_alone() {
    let lang = Lang::new("fra".to_string()).unwrap();
    assert_eq!(lang.iso(), "fr");
    assert_eq!(lang.code(), "fra");
    let other = Lang::new("cmn".to_string()).unwrap();
    assert_eq!(other.iso(), "unknown");
}

#[test]
fn to_iso_rewrites_the_code_in_place() {
    let mut lang = Lang::new("deu".to_string()).unwrap();
    lang.to_iso();
    assert_eq!(lang.code(), "de");
}

#[test]
fn to_iso_twice_is_to_iso_once() {
    for (code, iso) in TABLE.iter() {
        let mut lang = Lang::new(code.to_string()).unwrap();
        lang.to_iso();
        assert_eq!(lang.code(), *iso);
        lang.to_iso();
        assert_eq!(lang.code(), *iso);
    }
    let mut lang = Lang::new("xyz".to_string()).unwrap();
    lang.to_iso();
    assert_eq!(lang.code(), "unknown");
    lang.to_iso();
    assert_eq!(lang.code(), "unknown");
}

#[test]
fn to_iso_leaves_a_code_of_two_characters() {
    let mut lang = Lang::new("zz".to_string()).unwrap();
    lang.to_iso();
    assert_eq!(lang.code(), "zz");
    let mut accented = Lang::new("\u{e9}\u{e9}".to_string()).unwrap();
    accented.to_iso();
    assert_eq!(accented.code(), "\u{e9}\u{e9}");
    let mut single = Lang::new("\u{e9}".to_string()).unwrap();
    single.to_iso();
    assert_eq!(single.code(), "unknown");
}

#[test]
fn a_language_renders_as_its_code() {
    let lang = Lang::new("eng".to_string()).unwrap();
    assert_eq!(lang.to_display_string(), "eng");
    assert_eq!(lang.to_labeled_string(), "Language: eng");
    assert_eq!(lang.clone().code(), "eng");
}
