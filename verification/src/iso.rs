//! The table from three-letter language codes to ISO 639-1.

use vstd::prelude::*;
use vstd::string::*;

verus! {

/// Whether `code` is the three letters `a`, `b`, `c`.
pub open spec fn spells(code: Seq<char>, a: char, b: char, c: char) -> bool {
    code.len() == 3 && code[0] == a && code[1] == b && code[2] == c
}

/// Whether `code` is one of the three-letter codes that the table holds.
pub open spec fn is_supported(code: Seq<char>) -> bool {
    ||| spells(code, 'a', 'f', 'r')
    ||| spells(code, 'a', 'r', 'a')
    ||| spells(code, 'b', 'u', 'l')
    ||| spells(code, 'b', 'o', 's')
    ||| spells(code, 'c', 'a', 't')
    ||| spells(code, 'c', 'e', 's')
    ||| spells(code, 'd', 'a', 'n')
    ||| spells(code, 'd', 'e', 'u')
    ||| spells(code, 'e', 'l', 'l')
    ||| spells(code, 'e', 'n', 'g')
    ||| spells(code, 'e', 'p', 'o')
    ||| spells(code, 'e', 's', 't')
    ||| spells(code, 'e', 'u', 's')
    ||| spells(code, 'f', 'i', 'n')
    ||| spells(code, 'f', 'r', 'a')
    ||| spells(code, 'g', 'l', 'g')
    ||| spells(code, 'h', 'e', 'b')
    ||| spells(code, 'h', 'i', 'n')
    ||| spells(code, 'h', 'r', 'v')
    ||| spells(code, 'h', 'u', 'n')
    ||| spells(code, 'i', 'n', 'd')
    ||| spells(code, 'i', 'l', 'e')
    ||| spells(code, 'i', 't', 'a')
    ||| spells(code, 'j', 'p', 'n')
    ||| spells(code, 'k', 'o', 'r')
    ||| spells(code, 'l', 'a', 't')
    ||| spells(code, 'l', 'i', 't')
    ||| spells(code, 'l', 'a', 'v')
    ||| spells(code, 'm', 'k', 'd')
    ||| spells(code, 'm', 'l', 't')
    ||| spells(code, 'n', 'l', 'd')
    ||| spells(code, 'n', 'o', 'b')
    ||| spells(code, 'n', 'n', 'o')
    ||| spells(code, 'p', 'o', 'l')
    ||| spells(code, 'p', 'o', 'r')
    ||| spells(code, 'r', 'u', 'm')
    ||| spells(code, 'r', 'u', 's')
    ||| spells(code, 's', 'l', 'k')
    ||| spells(code, 's', 'l', 'v')
    ||| spells(code, 's', 'p', 'a')
    ||| spells(code, 's', 'w', 'e')
    ||| spells(code, 't', 'e', 'l')
    ||| spells(code, 't', 'u', 'r')
    ||| spells(code, 'u', 'k', 'r')
    ||| spells(code, 'v', 'i', 'e')
}

/// The table itself: the two-letter code of each supported language, and
/// `"unknown"` for everything else. The entry for `"ile"` is `"is"`.
pub open spec fn iso_code(code: Seq<char>) -> Seq<char> {
    if spells(code, 'a', 'f', 'r') {
        "af"@
    } else if spells(code, 'a', 'r', 'a') {
        "ar"@
    } else if spells(code, 'b', 'u', 'l') {
        "bg"@
    } else if spells(code, 'b', 'o', 's') {
        "bs"@
    } else if spells(code, 'c', 'a', 't') {
        "ca"@
    } else if spells(code, 'c', 'e', 's') {
        "cs"@
    } else if spells(code, 'd', 'a', 'n') {
        "da"@
    } else if spells(code, 'd', 'e', 'u') {
        "de"@
    } else if spells(code, 'e', 'l', 'l') {
        "el"@
    } else if spells(code, 'e', 'n', 'g') {
        "en"@
    } else if spells(code, 'e', 'p', 'o') {
        "eo"@
    } else if spells(code, 'e', 's', 't') {
        "et"@
    } else if spells(code, 'e', 'u', 's') {
        "eu"@
    } else if spells(code, 'f', 'i', 'n') {
        "fi"@
    } else if spells(code, 'f', 'r', 'a') {
        "fr"@
    } else if spells(code, 'g', 'l', 'g') {
        "gl"@
    } else if spells(code, 'h', 'e', 'b') {
        "he"@
    } else if spells(code, 'h', 'i', 'n') {
        "hi"@
    } else if spells(code, 'h', 'r', 'v') {
        "hr"@
    } else if spells(code, 'h', 'u', 'n') {
        "hu"@
    } else if spells(code, 'i', 'n', 'd') {
        "id"@
    } else if spells(code, 'i', 'l', 'e') {
        "is"@
    } else if spells(code, 'i', 't', 'a') {
        "it"@
    } else if spells(code, 'j', 'p', 'n') {
        "ja"@
    } else if spells(code, 'k', 'o', 'r') {
        "ko"@
    } else if spells(code, 'l', 'a', 't') {
        "la"@
    } else if spells(code, 'l', 'i', 't') {
        "lt"@
    } else if spells(code, 'l', 'a', 'v') {
        "lv"@
    } else if spells(code, 'm', 'k', 'd') {
        "mk"@
    } else if spells(code, 'm', 'l', 't') {
        "mt"@
    } else if spells(code, 'n', 'l', 'd') {
        "nl"@
    } else if spells(code, 'n', 'o', 'b') {
        "nb"@
    } else if spells(code, 'n', 'n', 'o') {
        "nn"@
    } else if spells(code, 'p', 'o', 'l') {
        "pl"@
    } else if spells(code, 'p', 'o', 'r') {
        "pt"@
    } else if spells(code, 'r', 'u', 'm') {
        "ro"@
    } else if spells(code, 'r', 'u', 's') {
        "ru"@
    } else if spells(code, 's', 'l', 'k') {
        "sk"@
    } else if spells(code, 's', 'l', 'v') {
        "sl"@
    } else if spells(code, 's', 'p', 'a') {
        "es"@
    } else if spells(code, 's', 'w', 'e') {
        "sv"@
    } else if spells(code, 't', 'e', 'l') {
        "te"@
    } else if spells(code, 't', 'u', 'r') {
        "tr"@
    } else if spells(code, 'u', 'k', 'r') {
        "uk"@
    } else if spells(code, 'v', 'i', 'e') {
        "vi"@
    } else {
        "unknown"@
    }
}

/// What normalising a code to its ISO form leaves: a code of two characters
/// stays as it is, any other is looked up in the table.
pub open spec fn normalized(code: Seq<char>) -> Seq<char> {
    if code.len() == 2 {
        code
    } else {
        iso_code(code)
    }
}

/// A supported code has three characters and its entry two; any other code
/// gets the fallback, which has seven.
pub proof fn lemma_table_shape(code: Seq<char>)
    ensures
        is_supported(code) ==> code.len() == 3 && iso_code(code).len() == 2,
        !is_supported(code) ==> iso_code(code) == "unknown"@,
        "unknown"@.len() == 7,
{
    reveal_strlit("unknown");
    reveal_strlit("af");
    reveal_strlit("ar");
    reveal_strlit("bg");
    reveal_strlit("bs");
    reveal_strlit("ca");
    reveal_strlit("cs");
    reveal_strlit("da");
    reveal_strlit("de");
    reveal_strlit("el");
    reveal_strlit("en");
    reveal_strlit("eo");
    reveal_strlit("es");
    reveal_strlit("et");
    reveal_strlit("eu");
    reveal_strlit("fi");
    reveal_strlit("fr");
    reveal_strlit("gl");
    reveal_strlit("he");
    reveal_strlit("hi");
    reveal_strlit("hr");
    reveal_strlit("hu");
    reveal_strlit("id");
    reveal_strlit("is");
    reveal_strlit("it");
    reveal_strlit("ja");
    reveal_strlit("ko");
    reveal_strlit("la");
    reveal_strlit("lt");
    reveal_strlit("lv");
    reveal_strlit("mk");
    reveal_strlit("mt");
    reveal_strlit("nb");
    reveal_strlit("nl");
    reveal_strlit("nn");
    reveal_strlit("pl");
    reveal_strlit("pt");
    reveal_strlit("ro");
    reveal_strlit("ru");
    reveal_strlit("sk");
    reveal_strlit("sl");
    reveal_strlit("sv");
    reveal_strlit("te");
    reveal_strlit("tr");
    reveal_strlit("uk");
    reveal_strlit("vi");
}

/// Normalising is idempotent: a second pass changes nothing.
pub proof fn lemma_normalized_idempotent(code: Seq<char>)
    ensures
        normalized(normalized(code)) == normalized(code),
{
    lemma_table_shape(code);
    lemma_table_shape("unknown"@);
}

/// Normalising never leaves an empty code.
pub proof fn lemma_normalized_nonempty(code: Seq<char>)
    ensures
        normalized(code).len() > 0,
{
    lemma_table_shape(code);
}

/// Looks a language code up in the table.
pub fn lang_to_iso639_1(lang: &str) -> (iso: String)
    ensures
        iso@ == iso_code(lang@),
        is_supported(lang@) ==> iso@.len() == 2,
        !is_supported(lang@) ==> iso@ == "unknown"@,
{
    proof {
        lemma_table_shape(lang@);
    }
    if lang.unicode_len() != 3 {
        return String::from_str("unknown");
    }
    let a: char = lang.get_char(0);
    let b: char = lang.get_char(1);
    let c: char = lang.get_char(2);
    let iso: &str = if a == 'a' && b == 'f' && c == 'r' {
        "af"
    } else if a == 'a' && b == 'r' && c == 'a' {
        "ar"
    } else if a == 'b' && b == 'u' && c == 'l' {
        "bg"
    } else if a == 'b' && b == 'o' && c == 's' {
        "bs"
    } else if a == 'c' && b == 'a' && c == 't' {
        "ca"
    } else if a == 'c' && b == 'e' && c == 's' {
        "cs"
    } else if a == 'd' && b == 'a' && c == 'n' {
        "da"
    } else if a == 'd' && b == 'e' && c == 'u' {
        "de"
    } else if a == 'e' && b == 'l' && c == 'l' {
        "el"
    } else if a == 'e' && b == 'n' && c == 'g' {
        "en"
    } else if a == 'e' && b == 'p' && c == 'o' {
        "eo"
    } else if a == 'e' && b == 's' && c == 't' {
        "et"
    } else if a == 'e' && b == 'u' && c == 's' {
        "eu"
    } else if a == 'f' && b == 'i' && c == 'n' {
        "fi"
    } else if a == 'f' && b == 'r' && c == 'a' {
        "fr"
    } else if a == 'g' && b == 'l' && c == 'g' {
        "gl"
    } else if a == 'h' && b == 'e' && c == 'b' {
        "he"
    } else if a == 'h' && b == 'i' && c == 'n' {
        "hi"
    } else if a == 'h' && b == 'r' && c == 'v' {
        "hr"
    } else if a == 'h' && b == 'u' && c == 'n' {
        "hu"
    } else if a == 'i' && b == 'n' && c == 'd' {
        "id"
    } else if a == 'i' && b == 'l' && c == 'e' {
        "is"
    } else if a == 'i' && b == 't' && c == 'a' {
        "it"
    } else if a == 'j' && b == 'p' && c == 'n' {
        "ja"
    } else if a == 'k' && b == 'o' && c == 'r' {
        "ko"
    } else if a == 'l' && b == 'a' && c == 't' {
        "la"
    } else if a == 'l' && b == 'i' && c == 't' {
        "lt"
    } else if a == 'l' && b == 'a' && c == 'v' {
        "lv"
    } else if a == 'm' && b == 'k' && c == 'd' {
        "mk"
    } else if a == 'm' && b == 'l' && c == 't' {
        "mt"
    } else if a == 'n' && b == 'l' && c == 'd' {
        "nl"
    } else if a == 'n' && b == 'o' && c == 'b' {
        "nb"
    } else if a == 'n' && b == 'n' && c == 'o' {
        "nn"
    } else if a == 'p' && b == 'o' && c == 'l' {
        "pl"
    } else if a == 'p' && b == 'o' && c == 'r' {
        "pt"
    } else if a == 'r' && b == 'u' && c == 'm' {
        "ro"
    } else if a == 'r' && b == 'u' && c == 's' {
        "ru"
    } else if a == 's' && b == 'l' && c == 'k' {
        "sk"
    } else if a == 's' && b == 'l' && c == 'v' {
        "sl"
    } else if a == 's' && b == 'p' && c == 'a' {
        "es"
    } else if a == 's' && b == 'w' && c == 'e' {
        "sv"
    } else if a == 't' && b == 'e' && c == 'l' {
        "te"
    } else if a == 't' && b == 'u' && c == 'r' {
        "tr"
    } else if a == 'u' && b == 'k' && c == 'r' {
        "uk"
    } else if a == 'v' && b == 'i' && c == 'e' {
        "vi"
    } else {
        "unknown"
    };
    String::from_str(iso)
}

} // verus!
