//! The statistical classifier that does the actual identification. It is
//! the `whatlang` crate; nothing of it is proved here. Each function below
//! makes one call into it and hands the answer on as plain values.

use vstd::prelude::*;
use crate::model::texts_of;

verus! {

/// The answer of `whatlang::detect` for a text: the language's code, the
/// script's name, the bit pattern of the confidence, and whether the
/// classifier holds the answer to be reliable; or nothing.
pub uninterp spec fn classified(text: Seq<char>) -> Option<(Seq<char>, Seq<char>, u64, bool)>;

/// The answer of `whatlang::detect_script` for a text: the script's name and
/// the codes of its languages; or nothing.
pub uninterp spec fn classified_script(text: Seq<char>) -> Option<(Seq<char>, Seq<Seq<char>>)>;

/// The answer of `whatlang::detect_lang` for a text: the language's code, or
/// nothing.
pub uninterp spec fn classified_lang(text: Seq<char>) -> Option<Seq<char>>;

/// The characters of a full answer.
pub open spec fn full_answer_view(raw: Option<(String, String, u64, bool)>) -> Option<
    (Seq<char>, Seq<char>, u64, bool),
> {
    match raw {
        Some((code, script, bits, reliable)) => Some((code@, script@, bits, reliable)),
        None => None,
    }
}

/// The characters of a script answer.
pub open spec fn script_answer_view(raw: Option<(String, Vec<String>)>) -> Option<
    (Seq<char>, Seq<Seq<char>>),
> {
    match raw {
        Some((name, langs)) => Some((name@, texts_of(langs@))),
        None => None,
    }
}

/// The characters of a language answer.
pub open spec fn lang_answer_view(raw: Option<String>) -> Option<Seq<char>> {
    match raw {
        Some(code) => Some(code@),
        None => None,
    }
}

/// Calls `whatlang::detect` and reads the answer with `Info::lang`,
/// `Lang::code`, `Info::script`, `Script::name`, `Info::confidence` and
/// `Info::is_reliable`. Trusted: the answer depends on the text alone, and
/// this function hands it on unchanged, part by part, the confidence by its
/// bit pattern. When the classifier answers and when not is its own affair.
#[verifier::external_body]
pub(crate) fn classify(text: &str) -> (raw: Option<(String, String, u64, bool)>)
    ensures
        full_answer_view(raw) == classified(text@),
{
    match whatlang::detect(text) {
        Some(info) => Some(
            (
                info.lang().code().to_string(),
                info.script().name().to_string(),
                info.confidence().to_bits(),
                info.is_reliable(),
            ),
        ),
        None => None,
    }
}

/// Calls `whatlang::detect_script` and reads the answer with `Script::name`,
/// `Script::langs` and `Lang::code`. Trusted: the answer depends on the text
/// alone, and this function hands on the script's name and the codes of its
/// languages, in the classifier's order.
#[verifier::external_body]
pub(crate) fn classify_script(text: &str) -> (raw: Option<(String, Vec<String>)>)
    ensures
        script_answer_view(raw) == classified_script(text@),
{
    match whatlang::detect_script(text) {
        Some(script) => Some(
            (
                script.name().to_string(),
                script.langs().iter().map(|lang| lang.code().to_string()).collect(),
            ),
        ),
        None => None,
    }
}

/// Calls `whatlang::detect_lang` and reads the answer with `Lang::code`.
/// Trusted: the answer depends on the text alone, and this function hands on
/// the language's code.
#[verifier::external_body]
pub(crate) fn classify_lang(text: &str) -> (raw: Option<String>)
    ensures
        lang_answer_view(raw) == classified_lang(text@),
{
    match whatlang::detect_lang(text) {
        Some(lang) => Some(lang.code().to_string()),
        None => None,
    }
}

} // verus!
