//! A compiled pattern, and the calls into the regex engine.

use vstd::prelude::*;

verus! {

/// `regex::Regex`, the engine's compiled matcher, declared so that a
/// [`Pattern`] can hold one. Nothing is known of what is inside it.
#[verifier::external_type_specification]
#[verifier::external_body]
pub struct ExRegex(regex::Regex);

/// A compiled pattern. A value is made by [`Pattern::compile`] alone, so the
/// matcher is always the one that the engine built from `source`.
pub struct Pattern {
    source: String,
    matcher: regex::Regex,
}

impl View for Pattern {
    type V = Seq<char>;

    /// The pattern text that was compiled.
    closed spec fn view(&self) -> Seq<char> {
        self.source@
    }
}

/// Why a pattern text was not compiled.
#[derive(Debug, Clone)]
pub enum PatternError {
    /// The engine's diagnostic, as it gave it.
    Syntax(String),
    /// The compiled program would exceed the engine's size limit, which is
    /// the number held here.
    TooBig(usize),
    /// A failure of a kind that the engine added later.
    Other,
}

/// The diagnostic with which the engine's syntax stage (parsing and
/// translation, under the default options) refuses a pattern text, or `None`
/// where it accepts the text.
pub uninterp spec fn syntax_error(pattern: Seq<char>) -> Option<Seq<char>>;

/// What a search for the first match of `pattern` in `text` gives for the
/// capture group with the given number: `None` where there is no match,
/// `Some(None)` where there is one and the group is not part of it or does
/// not exist, and else the text that the group matched.
pub uninterp spec fn index_capture(pattern: Seq<char>, text: Seq<char>, index: nat) -> Option<
    Option<Seq<char>>,
>;

/// As [`index_capture`], for the capture group with the given name.
pub uninterp spec fn name_capture(pattern: Seq<char>, text: Seq<char>, name: Seq<char>) -> Option<
    Option<Seq<char>>,
>;

/// Whether `part` stands in `whole`, as one piece.
pub open spec fn occurs_in(part: Seq<char>, whole: Seq<char>) -> bool {
    exists|start: int, end: int|
        0 <= start <= end <= whole.len() && #[trigger] whole.subrange(start, end) == part
}

/// The mathematical value of what a capture lookup returned.
pub open spec fn capture_view(found: Option<Option<String>>) -> Option<Option<Seq<char>>> {
    match found {
        None => None,
        Some(None) => Some(None),
        Some(Some(s)) => Some(Some(s@)),
    }
}

/// What a compilation of `pattern` may return: the parser's diagnostic
/// wherever the text does not parse; else the compiled pattern, or a failure
/// of the engine's later stages.
pub open spec fn compiled(pattern: Seq<char>, result: Result<Pattern, PatternError>) -> bool {
    match syntax_error(pattern) {
        Some(message) => result matches Err(PatternError::Syntax(m)) && m@ == message,
        None => result matches Ok(p) ==> p@ == pattern,
    }
}

/// Calls `regex::Regex::new`. Trusted: a text that the parser refuses gives
/// `Syntax` with the parser's diagnostic, which depends on the text alone; a
/// compiled pattern remembers the text it was built from. Nothing is claimed
/// of when the later stages fail (the size limit).
#[verifier::external_body]
fn regex_new(pattern: &str) -> (r: Result<Pattern, PatternError>)
    ensures
        match syntax_error(pattern@) {
            Some(message) => r matches Err(PatternError::Syntax(m)) && m@ == message,
            None => r matches Ok(p) ==> p@ == pattern@,
        },
{
    match regex::Regex::new(pattern) {
        Ok(matcher) => Ok(Pattern { source: String::from(pattern), matcher }),
        Err(regex::Error::Syntax(message)) => Err(PatternError::Syntax(message)),
        Err(regex::Error::CompiledTooBig(limit)) => Err(PatternError::TooBig(limit)),
        Err(_) => Err(PatternError::Other),
    }
}

/// Calls `regex::Regex::captures`, then `regex::Captures::get` and
/// `regex::Match::as_str` on what it found. Trusted: the result is a function
/// of the pattern text, the searched text and the index; group 0 is the whole
/// match and is present in every match; what a group matched is a piece of
/// the searched text.
#[verifier::external_body]
pub(crate) fn captures_get(pattern: &Pattern, text: &str, index: usize) -> (r: Option<
    Option<String>,
>)
    ensures
        capture_view(r) == index_capture(pattern@, text@, index as nat),
        index == 0 ==> !(r matches Some(None)),
        r matches Some(Some(s)) ==> occurs_in(s@, text@),
{
    pattern.matcher.captures(text).map(|c| c.get(index).map(|m| String::from(m.as_str())))
}

/// Calls `regex::Regex::captures`, then `regex::Captures::name` and
/// `regex::Match::as_str` on what it found. Trusted: the result is a function
/// of the pattern text, the searched text and the name; what a group matched
/// is a piece of the searched text.
#[verifier::external_body]
pub(crate) fn captures_name(pattern: &Pattern, text: &str, name: &str) -> (r: Option<
    Option<String>,
>)
    ensures
        capture_view(r) == name_capture(pattern@, text@, name@),
        r matches Some(Some(s)) ==> occurs_in(s@, text@),
{
    pattern.matcher.captures(text).map(|c| c.name(name).map(|m| String::from(m.as_str())))
}

impl Pattern {
    /// Compiles a pattern text. A text with a syntax error is refused with
    /// the engine's diagnostic; a compiled pattern stands for the text given.
    pub fn compile(pattern: &str) -> (r: Result<Pattern, PatternError>)
        ensures
            compiled(pattern@, r),
            syntax_error(pattern@) is Some ==> r is Err,
    {
        regex_new(pattern)
    }

    /// The pattern text.
    pub fn as_str(&self) -> (r: &str)
        ensures
            r@ == self@,
    {
        self.source.as_str()
    }
}

} // verus!
