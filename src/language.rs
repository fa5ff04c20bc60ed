//! The closed set of supported languages and the lookup from user text.

use vstd::prelude::*;

verus! {

/// A language for which an environment can be generated.
#[derive(Debug, Clone, Copy, PartialEq, Eq, Structural)]
pub enum Language {
    Rust,
    Dotnet,
    Java,
    NodeJS,
    Go,
}

/// Every supported language, in the order in which they are offered.
pub open spec fn catalog() -> Seq<Language> {
    seq![Language::Rust, Language::Dotnet, Language::Java, Language::NodeJS, Language::Go]
}

/// The language whose lowercase name is exactly `s`, if there is one.
pub open spec fn language_named(s: Seq<char>) -> Option<Language> {
    if s == "rust"@ {
        Some(Language::Rust)
    } else if s == "dotnet"@ {
        Some(Language::Dotnet)
    } else if s == "java"@ {
        Some(Language::Java)
    } else if s == "nodejs"@ {
        Some(Language::NodeJS)
    } else if s == "go"@ {
        Some(Language::Go)
    } else {
        None
    }
}

/// The supported languages, in the order in which they are offered.
pub fn supported_languages() -> (r: Vec<Language>)
    ensures
        r@ == catalog(),
{
    let r = vec![Language::Rust, Language::Dotnet, Language::Java, Language::NodeJS, Language::Go];
    assert(r@ =~= catalog());
    r
}

fn same_text(a: &str, b: &str) -> (r: bool)
    ensures
        r == (a@ == b@),
{
    String::from_str(a) == String::from_str(b)
}

/// The language whose lowercase name is exactly `name`; any other text is no match.
fn language_of_name(name: &str) -> (r: Option<Language>)
    ensures
        r == language_named(name@),
{
    if same_text(name, "rust") {
        Some(Language::Rust)
    } else if same_text(name, "dotnet") {
        Some(Language::Dotnet)
    } else if same_text(name, "java") {
        Some(Language::Java)
    } else if same_text(name, "nodejs") {
        Some(Language::NodeJS)
    } else if same_text(name, "go") {
        Some(Language::Go)
    } else {
        None
    }
}

/// Whether `c` has the Unicode `White_Space` property.
pub open spec fn is_white_space(c: char) -> bool {
    ('\u{9}' <= c && c <= '\u{d}') || c == ' ' || c == '\u{85}' || c == '\u{a0}'
        || c == '\u{1680}' || ('\u{2000}' <= c && c <= '\u{200a}') || c == '\u{2028}'
        || c == '\u{2029}' || c == '\u{202f}' || c == '\u{205f}' || c == '\u{3000}'
}

/// `s` without its leading white space.
pub open spec fn strip_leading(s: Seq<char>) -> Seq<char>
    decreases s.len(),
{
    if s.len() > 0 && is_white_space(s[0]) {
        strip_leading(s.drop_first())
    } else {
        s
    }
}

/// `s` without its trailing white space.
pub open spec fn strip_trailing(s: Seq<char>) -> Seq<char>
    decreases s.len(),
{
    if s.len() > 0 && is_white_space(s.last()) {
        strip_trailing(s.drop_last())
    } else {
        s
    }
}

/// `s` without white space at either end.
pub open spec fn trimmed(s: Seq<char>) -> Seq<char> {
    strip_trailing(strip_leading(s))
}

/// What `str::to_lowercase` makes of a string: it depends on the characters alone.
pub uninterp spec fn lowercase_of(s: Seq<char>) -> Seq<char>;

/// Relies on `str::trim`: removes the leading and trailing characters that
/// have the Unicode `White_Space` property.
#[verifier::external_body]
fn trim(s: &str) -> (r: &str)
    ensures
        r@ == trimmed(s@),
{
    s.trim()
}

/// Relies on `str::to_lowercase`: the lowercase mapping of each character.
#[verifier::external_body]
fn to_lowercase(s: &str) -> (r: String)
    ensures
        r@ == lowercase_of(s@),
{
    s.to_lowercase()
}

/// The language that a line typed by a user names: white space around the
/// name is ignored, and so is letter case.
pub open spec fn selected_language(input: Seq<char>) -> Option<Language> {
    language_named(lowercase_of(trimmed(input)))
}

/// Looks up the language that `input` names, ignoring surrounding white space
/// and letter case; unrecognised text is no match.
pub fn user_input_to_enum(input: &str) -> (r: Option<Language>)
    ensures
        r == selected_language(input@),
{
    let folded = to_lowercase(trim(input));
    language_of_name(folded.as_str())
}

/// Whether every character of `s` is white space.
pub open spec fn all_white_space(s: Seq<char>) -> bool {
    forall|i: int| 0 <= i < s.len() ==> is_white_space(#[trigger] s[i])
}

proof fn lemma_strip_leading_skips(w: Seq<char>, s: Seq<char>)
    requires
        all_white_space(w),
    ensures
        strip_leading(w + s) == strip_leading(s),
    decreases w.len(),
{
    if w.len() == 0 {
        assert(w + s =~= s);
    } else {
        assert(is_white_space(w[0]));
        assert((w + s).drop_first() =~= w.drop_first() + s);
        lemma_strip_leading_skips(w.drop_first(), s);
    }
}

proof fn lemma_strip_trailing_skips(s: Seq<char>, w: Seq<char>)
    requires
        all_white_space(w),
    ensures
        strip_trailing(s + w) == strip_trailing(s),
    decreases w.len(),
{
    if w.len() == 0 {
        assert(s + w =~= s);
    } else {
        assert(is_white_space(w.last()));
        assert((s + w).drop_last() =~= s + w.drop_last());
        lemma_strip_trailing_skips(s, w.drop_last());
    }
}

proof fn lemma_trimmed_skips_trailing(s: Seq<char>, w: Seq<char>)
    requires
        all_white_space(w),
    ensures
        trimmed(s + w) == trimmed(s),
    decreases s.len(),
{
    if s.len() == 0 {
        assert(s + w =~= w + s);
        lemma_strip_leading_skips(w, s);
    } else if is_white_space(s[0]) {
        assert((s + w).drop_first() =~= s.drop_first() + w);
        lemma_trimmed_skips_trailing(s.drop_first(), w);
    } else {
        lemma_strip_trailing_skips(s, w);
    }
}

/// White space around a line never changes the language that it names.
pub proof fn lemma_surrounding_white_space_ignored(before: Seq<char>, s: Seq<char>, after: Seq<char>)
    requires
        all_white_space(before),
        all_white_space(after),
    ensures
        selected_language(before + s + after) == selected_language(s),
{
    assert(before + s + after =~= before + (s + after));
    lemma_strip_leading_skips(before, s + after);
    lemma_trimmed_skips_trailing(s, after);
}

} // verus!
