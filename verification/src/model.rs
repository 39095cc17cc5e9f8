//! The result entities: a language, a script, and the full outcome of
//! classifying one text.

use vstd::prelude::*;
use vstd::string::*;
use crate::color::{colorize, colorized, TermColor};
use crate::iso::{iso_code, lang_to_iso639_1, lemma_normalized_nonempty, normalized};

verus! {

/// The characters of each string of a sequence.
pub open spec fn texts_of(items: Seq<String>) -> Seq<Seq<char>> {
    Seq::new(items.len(), |i: int| items[i]@)
}

/// The items of `items` with `sep` between each two neighbours.
pub open spec fn joined(items: Seq<Seq<char>>, sep: Seq<char>) -> Seq<char>
    decreases items.len(),
{
    if items.len() == 0 {
        Seq::empty()
    } else if items.len() == 1 {
        items[0]
    } else {
        joined(items.drop_last(), sep) + sep + items.last()
    }
}

/// Joins `items` with `sep` between each two neighbours.
pub fn join(items: &Vec<String>, sep: &str) -> (out: String)
    ensures
        out@ == joined(texts_of(items@), sep@),
{
    let mut out = String::new();
    let mut i: usize = 0;
    while i < items.len()
        invariant
            i <= items.len(),
            out@ == joined(texts_of(items@).take(i as int), sep@),
        decreases items.len() - i,
    {
        let ghost before = texts_of(items@).take(i as int);
        let ghost after = texts_of(items@).take(i + 1);
        if i > 0 {
            out.append(sep);
        }
        out.append(items[i].as_str());
        proof {
            assert(after.drop_last() =~= before);
            assert(after.last() == items@[i as int]@);
            if i == 0 {
                assert(out@ =~= items@[0]@);
            }
        }
        i += 1;
    }
    assert(texts_of(items@).take(i as int) =~= texts_of(items@));
    out
}

/// An identified language, by its code.
#[derive(Debug)]
pub struct Lang {
    code: String,
}

impl View for Lang {
    type V = Seq<char>;

    closed spec fn view(&self) -> Seq<char> {
        self.code@
    }
}

impl Clone for Lang {
    fn clone(&self) -> (copy: Self)
        ensures
            copy@ == self@,
    {
        proof {
            use_type_invariant(self);
        }
        Lang { code: self.code.clone() }
    }
}

impl Lang {
    #[verifier::type_invariant]
    spec fn never_empty(self) -> bool {
        self.code@.len() > 0
    }

    /// A language with the given code; there is none with an empty code.
    pub fn new(code: String) -> (lang: Option<Lang>)
        ensures
            code@.len() == 0 ==> lang is None,
            code@.len() > 0 ==> lang is Some && lang->Some_0@ == code@,
    {
        if code.as_str().is_empty() {
            None
        } else {
            Some(Lang { code })
        }
    }

    /// The code as it stands now.
    pub fn code(&self) -> (code: &str)
        ensures
            code@ == self@,
            code@.len() > 0,
    {
        proof {
            use_type_invariant(self);
        }
        self.code.as_str()
    }

    /// The ISO 639-1 code that the table gives for this language.
    pub fn iso(&self) -> (iso: String)
        ensures
            iso@ == iso_code(self@),
    {
        lang_to_iso639_1(self.code.as_str())
    }

    /// Rewrites the code to its ISO 639-1 form, in place. A code that has two
    /// characters already is left alone.
    pub fn to_iso(&mut self)
        ensures
            final(self)@ == normalized(old(self)@),
    {
        proof {
            lemma_normalized_nonempty(self.code@);
        }
        if self.code.as_str().unicode_len() != 2 {
            self.code = lang_to_iso639_1(self.code.as_str());
        }
    }

    /// The code alone.
    pub fn to_display_string(&self) -> (out: String)
        ensures
            out@ == self@,
    {
        self.code.clone()
    }

    /// The code behind its label.
    pub fn to_labeled_string(&self) -> (out: String)
        ensures
            out@ == "Language: "@ + self@,
    {
        String::from_str("Language: ").concat(self.code.as_str())
    }
}

/// A writing system, with the codes of the languages commonly written in it.
#[derive(Debug)]
pub struct Script {
    name: String,
    langs: Vec<String>,
}

/// What a `Script` stands for: its name and its language codes, in order.
pub struct ScriptView {
    pub name: Seq<char>,
    pub langs: Seq<Seq<char>>,
}

/// The plain rendering of a script.
pub open spec fn script_display(script: ScriptView) -> Seq<char> {
    "Name: "@ + script.name + " - Languages: "@ + joined(script.langs, ", "@)
}

/// The rendering of a script with its labels in colour.
pub open spec fn script_colored(script: ScriptView) -> Seq<char> {
    colorized("Name"@, TermColor::Green) + ": "@ + script.name + " - "@ + colorized(
        "Languages"@,
        TermColor::Cyan,
    ) + ": "@ + joined(script.langs, ", "@)
}

impl View for Script {
    type V = ScriptView;

    closed spec fn view(&self) -> ScriptView {
        ScriptView { name: self.name@, langs: texts_of(self.langs@) }
    }
}

impl Script {
    #[verifier::type_invariant]
    spec fn has_langs(self) -> bool {
        self.langs@.len() > 0
    }

    /// A script with the given name and languages; there is none without a
    /// language.
    pub fn new(name: String, langs: Vec<String>) -> (script: Option<Script>)
        ensures
            langs@.len() == 0 ==> script is None,
            langs@.len() > 0 ==> script is Some && script->Some_0@ == (ScriptView {
                name: name@,
                langs: texts_of(langs@),
            }),
    {
        if langs.len() == 0 {
            None
        } else {
            Some(Script { name, langs })
        }
    }

    /// The script's name.
    pub fn name(&self) -> (name: &str)
        ensures
            name@ == self@.name,
    {
        self.name.as_str()
    }

    /// The codes of the script's languages, in order; at least one.
    pub fn langs(&self) -> (langs: &Vec<String>)
        ensures
            texts_of(langs@) == self@.langs,
            langs@.len() > 0,
    {
        proof {
            use_type_invariant(self);
        }
        &self.langs
    }

    /// Name and languages behind their labels.
    pub fn to_display_string(&self) -> (out: String)
        ensures
            out@ == script_display(self@),
    {
        let langs = join(&self.langs, ", ");
        String::from_str("Name: ").concat(self.name.as_str()).concat(" - Languages: ").concat(
            langs.as_str(),
        )
    }

    /// Name and languages behind their labels, the labels in colour.
    pub fn to_colored_string(&self) -> (out: String)
        ensures
            out@ == script_colored(self@),
    {
        let langs = join(&self.langs, ", ");
        colorize("Name", TermColor::Green).concat(": ").concat(self.name.as_str()).concat(
            " - ",
        ).concat(colorize("Languages", TermColor::Cyan).as_str()).concat(": ").concat(
            langs.as_str(),
        )
    }
}

/// The outcome of classifying one text.
#[derive(Debug)]
pub struct Info {
    lang: Lang,
    script: String,
    confidence_bits: u64,
    is_reliable: bool,
}

/// What an `Info` stands for. The confidence is a double-precision number
/// between 0 and 1, held by its bit pattern.
pub struct InfoView {
    pub lang: Seq<char>,
    pub script: Seq<char>,
    pub confidence_bits: u64,
    pub is_reliable: bool,
}

/// How a truth value is written.
pub open spec fn bool_text(b: bool) -> Seq<char> {
    if b {
        "true"@
    } else {
        "false"@
    }
}

/// The plain rendering of an outcome, with the confidence written as
/// `confidence`.
pub open spec fn info_display(info: InfoView, confidence: Seq<char>) -> Seq<char> {
    "Language: "@ + info.lang + " - Script: "@ + info.script + " - Confidence: "@ + confidence
        + " - Is reliable: "@ + bool_text(info.is_reliable)
}

/// The rendering of an outcome with its labels in colour.
pub open spec fn info_colored(info: InfoView, confidence: Seq<char>) -> Seq<char> {
    colorized("Language"@, TermColor::Green) + ": "@ + info.lang + " - "@ + colorized(
        "Script"@,
        TermColor::Blue,
    ) + ": "@ + info.script + " - "@ + colorized("Confidence"@, TermColor::Yellow) + ": "@
        + confidence + " - "@ + colorized("Is reliable"@, TermColor::Magenta) + ": "@ + bool_text(
        info.is_reliable,
    )
}

impl View for Info {
    type V = InfoView;

    closed spec fn view(&self) -> InfoView {
        InfoView {
            lang: self.lang@,
            script: self.script@,
            confidence_bits: self.confidence_bits,
            is_reliable: self.is_reliable,
        }
    }
}

impl Clone for Info {
    fn clone(&self) -> (copy: Self)
        ensures
            copy@ == self@,
    {
        Info {
            lang: self.lang.clone(),
            script: self.script.clone(),
            confidence_bits: self.confidence_bits,
            is_reliable: self.is_reliable,
        }
    }
}

fn bool_str(b: bool) -> (text: &'static str)
    ensures
        text@ == bool_text(b),
{
    if b {
        "true"
    } else {
        "false"
    }
}

impl Info {
    /// An outcome made of its four parts.
    pub fn new(lang: Lang, script: String, confidence_bits: u64, is_reliable: bool) -> (info: Info)
        ensures
            info@ == (InfoView { lang: lang@, script: script@, confidence_bits, is_reliable }),
    {
        Info { lang, script, confidence_bits, is_reliable }
    }

    /// The language's code as it stands now.
    pub fn lang(&self) -> (code: String)
        ensures
            code@ == self@.lang,
            code@.len() > 0,
    {
        String::from_str(self.lang.code())
    }

    /// The language itself.
    pub fn language(&self) -> (lang: &Lang)
        ensures
            lang@ == self@.lang,
    {
        &self.lang
    }

    /// The script's name.
    pub fn script(&self) -> (name: &str)
        ensures
            name@ == self@.script,
    {
        self.script.as_str()
    }

    /// The bit pattern of the confidence.
    pub fn confidence_bits(&self) -> (bits: u64)
        ensures
            bits == self@.confidence_bits,
    {
        self.confidence_bits
    }

    /// Overwrites the confidence and nothing else.
    pub fn set_confidence_bits(&mut self, bits: u64)
        ensures
            final(self)@ == (InfoView { confidence_bits: bits, ..old(self)@ }),
    {
        self.confidence_bits = bits;
    }

    /// Whether the classifier held its own result to be reliable.
    pub fn is_reliable(&self) -> (reliable: bool)
        ensures
            reliable == self@.is_reliable,
    {
        self.is_reliable
    }

    /// Rewrites the language's code to its ISO 639-1 form, in place, and
    /// leaves the rest alone.
    pub fn to_iso(&mut self)
        ensures
            final(self)@ == (InfoView { lang: normalized(old(self)@.lang), ..old(self)@ }),
    {
        self.lang.to_iso();
    }

    /// The four parts behind their labels. The caller writes the confidence.
    pub fn to_display_string(&self, confidence: &str) -> (out: String)
        ensures
            out@ == info_display(self@, confidence@),
    {
        String::from_str("Language: ").concat(self.lang.code()).concat(" - Script: ").concat(
            self.script.as_str(),
        ).concat(" - Confidence: ").concat(confidence).concat(" - Is reliable: ").concat(
            bool_str(self.is_reliable),
        )
    }

    /// The four parts behind their labels, the labels in colour. The caller
    /// writes the confidence.
    pub fn to_colored_string(&self, confidence: &str) -> (out: String)
        ensures
            out@ == info_colored(self@, confidence@),
    {
        colorize("Language", TermColor::Green).concat(": ").concat(self.lang.code()).concat(
            " - ",
        ).concat(colorize("Script", TermColor::Blue).as_str()).concat(": ").concat(
            self.script.as_str(),
        ).concat(" - ").concat(colorize("Confidence", TermColor::Yellow).as_str()).concat(
            ": ",
        ).concat(confidence).concat(" - ").concat(
            colorize("Is reliable", TermColor::Magenta).as_str(),
        ).concat(": ").concat(bool_str(self.is_reliable))
    }
}

} // verus!
