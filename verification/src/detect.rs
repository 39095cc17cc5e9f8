//! Classification of a single text: one call of the classifier, and the
//! answer brought into the result entities.

use vstd::prelude::*;
use crate::classifier::{
    classified,
    classified_lang,
    classified_script,
    classify,
    classify_lang,
    classify_script,
    full_answer_view,
    lang_answer_view,
    script_answer_view,
};
use crate::model::{Info, InfoView, Lang, Script, ScriptView};

verus! {

/// Why a call returned no result.
#[derive(Clone, Copy, Debug, PartialEq, Eq, Structural)]
pub enum DetectError {
    /// The classifier had no usable answer for the text.
    DetectionFailed,
    /// The classifier found no script in the text.
    ScriptNotDetected,
    /// The classifier found no language in the text.
    LanguageNotDetected,
    /// One text of a batch could not be classified, so the batch has no
    /// result at all.
    BatchAborted,
    /// The worker pool for a batch could not be started.
    PoolUnavailable,
}

/// What is said to a caller about an error.
pub open spec fn message_text(error: DetectError) -> Seq<char> {
    match error {
        DetectError::DetectionFailed => "Language could not be detected"@,
        DetectError::ScriptNotDetected => "Script could not be detected"@,
        DetectError::LanguageNotDetected => "Language could not be detected"@,
        DetectError::BatchAborted => "A text of the batch could not be classified"@,
        DetectError::PoolUnavailable => "The worker pool could not be started"@,
    }
}

impl DetectError {
    /// What is said to a caller about this error.
    pub fn message(self) -> (text: &'static str)
        ensures
            text@ == message_text(self),
    {
        match self {
            DetectError::DetectionFailed => "Language could not be detected",
            DetectError::ScriptNotDetected => "Script could not be detected",
            DetectError::LanguageNotDetected => "Language could not be detected",
            DetectError::BatchAborted => "A text of the batch could not be classified",
            DetectError::PoolUnavailable => "The worker pool could not be started",
        }
    }
}

/// A result by what it stands for.
pub open spec fn info_outcome_view(r: Result<Info, DetectError>) -> Result<InfoView, DetectError> {
    match r {
        Ok(info) => Ok(info@),
        Err(e) => Err(e),
    }
}

/// A result by what it stands for.
pub open spec fn script_outcome_view(r: Result<Script, DetectError>) -> Result<
    ScriptView,
    DetectError,
> {
    match r {
        Ok(script) => Ok(script@),
        Err(e) => Err(e),
    }
}

/// A result by what it stands for.
pub open spec fn lang_outcome_view(r: Result<Lang, DetectError>) -> Result<Seq<char>, DetectError> {
    match r {
        Ok(lang) => Ok(lang@),
        Err(e) => Err(e),
    }
}

/// What a full answer of the classifier becomes: the outcome with the same
/// four parts, where there is an answer and it names a language.
pub open spec fn info_outcome(raw: Option<(Seq<char>, Seq<char>, u64, bool)>) -> Result<
    InfoView,
    DetectError,
> {
    match raw {
        Some((code, script, bits, reliable)) => if code.len() > 0 {
            Ok(InfoView { lang: code, script, confidence_bits: bits, is_reliable: reliable })
        } else {
            Err(DetectError::DetectionFailed)
        },
        None => Err(DetectError::DetectionFailed),
    }
}

/// What a script answer of the classifier becomes: the script with the same
/// name and languages, where there is an answer and it names a language.
pub open spec fn script_outcome(raw: Option<(Seq<char>, Seq<Seq<char>>)>) -> Result<
    ScriptView,
    DetectError,
> {
    match raw {
        Some((name, langs)) => if langs.len() > 0 {
            Ok(ScriptView { name, langs })
        } else {
            Err(DetectError::ScriptNotDetected)
        },
        None => Err(DetectError::ScriptNotDetected),
    }
}

/// What a language answer of the classifier becomes: the language with that
/// code, where there is an answer and it is not empty.
pub open spec fn lang_outcome(raw: Option<Seq<char>>) -> Result<Seq<char>, DetectError> {
    match raw {
        Some(code) => if code.len() > 0 {
            Ok(code)
        } else {
            Err(DetectError::LanguageNotDetected)
        },
        None => Err(DetectError::LanguageNotDetected),
    }
}

/// Brings a full answer of the classifier into an `Info`.
pub fn info_from_answer(raw: Option<(String, String, u64, bool)>) -> (r: Result<Info, DetectError>)
    ensures
        info_outcome_view(r) == info_outcome(full_answer_view(raw)),
{
    match raw {
        Some((code, script, bits, reliable)) => match Lang::new(code) {
            Some(lang) => Ok(Info::new(lang, script, bits, reliable)),
            None => Err(DetectError::DetectionFailed),
        },
        None => Err(DetectError::DetectionFailed),
    }
}

/// Brings a script answer of the classifier into a `Script`.
pub fn script_from_answer(raw: Option<(String, Vec<String>)>) -> (r: Result<Script, DetectError>)
    ensures
        script_outcome_view(r) == script_outcome(script_answer_view(raw)),
{
    match raw {
        Some((name, langs)) => match Script::new(name, langs) {
            Some(script) => Ok(script),
            None => Err(DetectError::ScriptNotDetected),
        },
        None => Err(DetectError::ScriptNotDetected),
    }
}

/// Brings a language answer of the classifier into a `Lang`.
pub fn lang_from_answer(raw: Option<String>) -> (r: Result<Lang, DetectError>)
    ensures
        lang_outcome_view(r) == lang_outcome(lang_answer_view(raw)),
{
    match raw {
        Some(code) => match Lang::new(code) {
            Some(lang) => Ok(lang),
            None => Err(DetectError::LanguageNotDetected),
        },
        None => Err(DetectError::LanguageNotDetected),
    }
}

/// Identifies language and script of a text: the classifier's answer as an
/// `Info`, or `DetectionFailed` where it has none.
pub fn detect(text: &str) -> (r: Result<Info, DetectError>)
    ensures
        info_outcome_view(r) == info_outcome(classified(text@)),
        r is Ok <==> (classified(text@) matches Some(answer) && answer.0.len() > 0),
        r matches Err(e) ==> e == DetectError::DetectionFailed,
{
    info_from_answer(classify(text))
}

/// Identifies the script of a text: the classifier's answer as a `Script`,
/// or `ScriptNotDetected` where it has none.
pub fn detect_script(text: &str) -> (r: Result<Script, DetectError>)
    ensures
        script_outcome_view(r) == script_outcome(classified_script(text@)),
        r is Ok <==> (classified_script(text@) matches Some(answer) && answer.1.len() > 0),
        r matches Err(e) ==> e == DetectError::ScriptNotDetected,
{
    script_from_answer(classify_script(text))
}

/// Identifies the language of a text: the classifier's answer as a `Lang`,
/// or `LanguageNotDetected` where it has none.
pub fn detect_lang(text: &str) -> (r: Result<Lang, DetectError>)
    ensures
        lang_outcome_view(r) == lang_outcome(classified_lang(text@)),
        r is Ok <==> (classified_lang(text@) matches Some(code) && code.len() > 0),
        r matches Err(e) ==> e == DetectError::LanguageNotDetected,
{
    lang_from_answer(classify_lang(text))
}

} // verus!
