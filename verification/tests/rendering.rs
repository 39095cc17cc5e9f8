use whatlang_pyo3::color::{colorize, TermColor};
use whatlang_pyo3::model::{join, Info, Lang, Script};
use whatlang_pyo3::progress::{batch_message, decimal, Progress};

#[test]
fn colorize_wraps_text_in_escape_sequences() {
    assert_eq!(colorize("Hello World", TermColor::Red), "\x1b[31mHello World\x1b[0m");
    assert_eq!(colorize("a", TermColor::Green), "\x1b[32ma\x1b[0m");
    assert_eq!(colorize("a", TermColor::Yellow), "\x1b[33ma\x1b[0m");
    assert_eq!(colorize("a", TermColor::Blue), "\x1b[34ma\x1b[0m");
    assert_eq!(colorize("a", TermColor::Magenta), "\x1b[35ma\x1b[0m");
    assert_eq!(colorize("a", TermColor::Cyan), "\x1b[36ma\x1b[0m");
    assert_eq!(colorize("a", TermColor::White), "\x1b[37ma\x1b[0m");
    assert_eq!(colorize("", TermColor::White), "\x1b[37m\x1b[0m");
}

#[test]
fn join_puts_the_separator_between_neighbours() {
    assert_eq!(join(&vec![], ", "), "");
    assert_eq!(join(&vec!["eng".to_string()], ", "), "eng");
    assert_eq!(join(&vec!["eng".to_string(), "fra".to_string()], ", "), "eng, fra");
    assert_eq!(
        join(&vec!["a".to_string(), "".to_string(), "c".to_string()], "-"),
        "a--c"
    );
}

fn sample_info() -> Info {
    Info::new(
        Lang::new("eng".to_string()).unwrap(),
        "Latin".to_string(),
        0.5f64.to_bits(),
        false,
    )
}

#[test]
fn info_keeps_its_parts() {
    let info = sample_info();
    assert_eq!(info.lang(), "eng");
    assert_eq!(info.script(), "Latin");
    assert_eq!(f64::from_bits(info.confidence_bits()), 0.5);
    assert_eq!(info.is_reliable(), false);
    assert_eq!(info.language().code(), "eng");
    assert_eq!(info.language().iso(), "en");
    let copy = info.clone();
    assert_eq!(copy.lang(), "eng");
    assert_eq!(copy.script(), "Latin");
    assert_eq!(copy.confidence_bits(), info.confidence_bits());
    assert_eq!(copy.is_reliable(), false);
}

#[test]
fn info_confidence_can_be_overwritten() {
    let mut info = sample_info();
    info.set_confidence_bits(0.75f64.to_bits());
    assert_eq!(f64::from_bits(info.confidence_bits()), 0.75);
    assert_eq!(info.lang(), "eng");
    assert_eq!(info.script(), "Latin");
    assert_eq!(info.is_reliable(), false);
}

#[test]
fn info_to_iso_normalizes_the_language_only() {
    let mut info = sample_info();
    info.to_iso();
    assert_eq!(info.lang(), "en");
    assert_eq!(info.script(), "Latin");
    assert_eq!(f64::from_bits(info.confidence_bits()), 0.5);
    assert_eq!(info.is_reliable(), false);
    info.to_iso();
    assert_eq!(info.lang(), "en");
}

#[test]
fn info_renders_its_four_parts_in_order() {
    let info = sample_info();
    assert_eq!(
        info.to_display_string("0.5"),
        "Language: eng - Script: Latin - Confidence: 0.5 - Is reliable: false"
    );
    let reliable = Info::new(
        Lang::new("fra".to_string()).unwrap(),
        "Latin".to_string(),
        1.0f64.to_bits(),
        true,
    );
    assert_eq!(
        reliable.to_display_string("1"),
        "Language: fra - Script: Latin - Confidence: 1 - Is reliable: true"
    );
}

#[test]
fn info_renders_with_coloured_labels() {
    let info = sample_info();
    assert_eq!(
        info.to_colored_string("0.5"),
        "\x1b[32mLanguage\x1b[0m: eng - \x1b[34mScript\x1b[0m: Latin - \x1b[33mConfidence\x1b[0m: 0.5 - \x1b[35mIs reliable\x1b[0m: false"
    );
}

#[test]
fn a_script_has_at_least_one_language() {
    assert!(Script::new("Latin".to_string(), vec![]).is_none());
    let script = Script::new("Greek".to_string(), vec!["ell".to_string()]).unwrap();
    assert_eq!(script.name(), "Greek");
    assert_eq!(script.langs(), &vec!["ell".to_string()]);
}

#[test]
fn script_renders_name_and_languages() {
    let script = Script::new(
        "Hebrew".to_string(),
        vec!["heb".to_string(), "yid".to_string()],
    )
    .unwrap();
    assert_eq!(script.to_display_string(), "Name: Hebrew - Languages: heb, yid");
    assert_eq!(
        script.to_colored_string(),
        "\x1b[32mName\x1b[0m: Hebrew - \x1b[36mLanguages\x1b[0m: heb, yid"
    );
}

#[test]
fn decimal_writes_numbers_without_leading_zeros() {
    assert_eq!(decimal(0), "0");
    assert_eq!(decimal(7), "7");
    assert_eq!(decimal(10), "10");
    assert_eq!(decimal(405), "405");
    assert_eq!(decimal(1234567890), "1234567890");
    assert_eq!(decimal(usize::MAX), usize::MAX.to_string());
}

#[test]
fn batch_message_names_texts_and_workers() {
    assert_eq!(batch_message(2, 4), "2 texts using \x1b[31m4\x1b[0m cores");
    assert_eq!(batch_message(1000, 16), "1000 texts using \x1b[31m16\x1b[0m cores");
}

#[test]
fn progress_counts_every_text_once() {
    let mut progress = Progress::new(5);
    assert_eq!(progress.done(), 0);
    assert_eq!(progress.total(), 5);
    assert!(!progress.is_complete());
    for expected in 1..=5u64 {
        assert_eq!(progress.advance(), expected);
        assert_eq!(progress.done(), expected);
    }
    assert!(progress.is_complete());
    assert_eq!(progress.advance(), 5);
    assert_eq!(progress.done(), 5);
}

#[test]
fn progress_of_an_empty_batch_is_complete() {
    let mut progress = Progress::new(0);
    assert!(progress.is_complete());
    assert_eq!(progress.advance(), 0);
}
