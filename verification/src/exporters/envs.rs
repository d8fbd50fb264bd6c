//! Reading a severity level from configuration text.

use crate::severity::SeverityLevel;
use crate::text::same_text;
use vstd::prelude::*;

verus! {

/// An ASCII lower-case letter in upper case; any other character as it is.
pub open spec fn upper(c: char) -> char {
    if 'a' <= c && c <= 'z' {
        (c as int - 32) as char
    } else {
        c
    }
}

/// `name` with every letter in upper case.
pub open spec fn upper_case(name: Seq<char>) -> Seq<char> {
    Seq::new(name.len(), |i: int| upper(name[i]))
}

/// `name` with its first letter in upper case.
pub open spec fn capitalized(name: Seq<char>) -> Seq<char> {
    Seq::new(name.len(), |i: int| if i == 0 { upper(name[i]) } else { name[i] })
}

/// Whether `text` writes the lower-case `name` in one of the three accepted
/// forms: as it is, capitalized, or in upper case.
pub open spec fn spells(text: Seq<char>, name: Seq<char>) -> bool {
    text == name || text == capitalized(name) || text == upper_case(name)
}

/// The level that a piece of configuration text stands for: the level whose
/// name it spells, and `Off` where it spells none.
pub open spec fn level_of(text: Seq<char>) -> SeverityLevel {
    if spells(text, "debug"@) {
        SeverityLevel::Debug
    } else if spells(text, "info"@) {
        SeverityLevel::Info
    } else if spells(text, "warn"@) {
        SeverityLevel::Warn
    } else if spells(text, "error"@) {
        SeverityLevel::Error
    } else if spells(text, "trace"@) {
        SeverityLevel::Trace
    } else {
        SeverityLevel::Off
    }
}

/// The lower-case name of a level other than `Off`.
pub open spec fn level_name(level: SeverityLevel) -> Seq<char> {
    match level {
        SeverityLevel::Off => Seq::empty(),
        SeverityLevel::Error => "error"@,
        SeverityLevel::Warn => "warn"@,
        SeverityLevel::Info => "info"@,
        SeverityLevel::Debug => "debug"@,
        SeverityLevel::Trace => "trace"@,
    }
}

/// Whether `text` is one of the fifteen accepted spellings.
pub open spec fn is_recognized(text: Seq<char>) -> bool {
    ||| text == "debug"@ || text == "Debug"@ || text == "DEBUG"@
    ||| text == "info"@ || text == "Info"@ || text == "INFO"@
    ||| text == "warn"@ || text == "Warn"@ || text == "WARN"@
    ||| text == "error"@ || text == "Error"@ || text == "ERROR"@
    ||| text == "trace"@ || text == "Trace"@ || text == "TRACE"@
}

/// The capitalized and upper-case forms of the five names, written out.
pub proof fn lemma_spellings()
    ensures
        capitalized("debug"@) == "Debug"@ && upper_case("debug"@) == "DEBUG"@,
        capitalized("info"@) == "Info"@ && upper_case("info"@) == "INFO"@,
        capitalized("warn"@) == "Warn"@ && upper_case("warn"@) == "WARN"@,
        capitalized("error"@) == "Error"@ && upper_case("error"@) == "ERROR"@,
        capitalized("trace"@) == "Trace"@ && upper_case("trace"@) == "TRACE"@,
{
    reveal_strlit("debug");
    reveal_strlit("Debug");
    reveal_strlit("DEBUG");
    reveal_strlit("info");
    reveal_strlit("Info");
    reveal_strlit("INFO");
    reveal_strlit("warn");
    reveal_strlit("Warn");
    reveal_strlit("WARN");
    reveal_strlit("error");
    reveal_strlit("Error");
    reveal_strlit("ERROR");
    reveal_strlit("trace");
    reveal_strlit("Trace");
    reveal_strlit("TRACE");
    assert(capitalized("debug"@) =~= "Debug"@);
    assert(upper_case("debug"@) =~= "DEBUG"@);
    assert(capitalized("info"@) =~= "Info"@);
    assert(upper_case("info"@) =~= "INFO"@);
    assert(capitalized("warn"@) =~= "Warn"@);
    assert(upper_case("warn"@) =~= "WARN"@);
    assert(capitalized("error"@) =~= "Error"@);
    assert(upper_case("error"@) =~= "ERROR"@);
    assert(capitalized("trace"@) =~= "Trace"@);
    assert(upper_case("trace"@) =~= "TRACE"@);
}

/// A spelling of a name has the name's length and begins with its first
/// letter, in lower or upper case: so a text spells at most one of the five
/// names.
pub proof fn lemma_names_apart(text: Seq<char>)
    ensures
        spells(text, "debug"@) ==> text.len() == 5 && (text[0] == 'd' || text[0] == 'D'),
        spells(text, "info"@) ==> text.len() == 4 && (text[0] == 'i' || text[0] == 'I'),
        spells(text, "warn"@) ==> text.len() == 4 && (text[0] == 'w' || text[0] == 'W'),
        spells(text, "error"@) ==> text.len() == 5 && (text[0] == 'e' || text[0] == 'E'),
        spells(text, "trace"@) ==> text.len() == 5 && (text[0] == 't' || text[0] == 'T'),
{
    reveal_strlit("debug");
    reveal_strlit("info");
    reveal_strlit("warn");
    reveal_strlit("error");
    reveal_strlit("trace");
}

/// A level's name in lower case, capitalized or in upper case reads as that
/// level: the three forms of one name agree.
pub proof fn lemma_case_variants_agree(level: SeverityLevel, text: Seq<char>)
    requires
        level != SeverityLevel::Off,
        spells(text, level_name(level)),
    ensures
        level_of(text) == level,
        level_of(text) == level_of(level_name(level)),
{
    lemma_names_apart(text);
    lemma_names_apart(level_name(level));
}

/// The accepted spellings are fifteen literals, and a text reads as `Off`
/// exactly when it is none of them.
pub proof fn lemma_unrecognized_is_off(text: Seq<char>)
    ensures
        is_recognized(text) <==> exists|level: SeverityLevel|
            level != SeverityLevel::Off && spells(text, level_name(level)),
        !is_recognized(text) <==> level_of(text) == SeverityLevel::Off,
{
    lemma_spellings();
    if is_recognized(text) {
        let level = level_of(text);
        assert(level != SeverityLevel::Off && spells(text, level_name(level)));
    }
}

/// Reads a severity level from configuration text. The five names `debug`,
/// `info`, `warn`, `error` and `trace` are accepted in lower case, capitalized
/// and in upper case; every other text gives `Off`.
pub fn log_level(level: &str) -> (r: SeverityLevel)
    ensures
        r == level_of(level@),
{
    proof {
        lemma_spellings();
    }
    if same_text(level, "debug") || same_text(level, "Debug") || same_text(level, "DEBUG") {
        SeverityLevel::Debug
    } else if same_text(level, "info") || same_text(level, "Info") || same_text(level, "INFO") {
        SeverityLevel::Info
    } else if same_text(level, "warn") || same_text(level, "Warn") || same_text(level, "WARN") {
        SeverityLevel::Warn
    } else if same_text(level, "error") || same_text(level, "Error") || same_text(
        level,
        "ERROR",
    ) {
        SeverityLevel::Error
    } else if same_text(level, "trace") || same_text(level, "Trace") || same_text(
        level,
        "TRACE",
    ) {
        SeverityLevel::Trace
    } else {
        SeverityLevel::Off
    }
}

} // verus!
