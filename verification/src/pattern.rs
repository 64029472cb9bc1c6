//! Regular expressions, as the `regex` crate compiles and runs them, and what
//! the filter assumes of that crate.

use regex::Regex;
use vstd::prelude::*;

verus! {

/// A compiled regular expression of the `regex` crate. Nothing inside it is
/// visible to the verifier.
#[verifier::external_type_specification]
#[verifier::external_body]
pub struct ExRegex(regex::Regex);

/// The error that the `regex` crate returns for a pattern it cannot compile.
#[verifier::external_type_specification]
#[verifier::external_body]
pub struct ExRegexError(regex::Error);

/// `re` is an expression that `Regex::new` returned for the text `pattern`.
/// Of an expression that was made in any other way nothing is said.
pub uninterp spec fn built_from(re: Regex, pattern: Seq<char>) -> bool;

/// What `Regex::new` makes of a pattern text: `None` where it compiles, else
/// the text of the error that it returns.
pub uninterp spec fn compile_failure(pattern: Seq<char>) -> Option<Seq<char>>;

/// The text that a compile error displays as.
pub uninterp spec fn error_text(error: regex::Error) -> Seq<char>;

/// Whether an expression that `Regex::new` built from `pattern` finds a match
/// anywhere in `text`: what `Regex::is_match` returns. The search is not
/// anchored.
pub uninterp spec fn pattern_matches(pattern: Seq<char>, text: Seq<char>) -> bool;

/// The pattern is one that `Regex::new` accepts.
pub open spec fn compiles(pattern: Seq<char>) -> bool {
    compile_failure(pattern) is None
}

/// The texts of a list of strings.
pub open spec fn texts(strings: Seq<String>) -> Seq<Seq<char>> {
    Seq::new(strings.len(), |i: int| strings[i]@)
}

/// The pattern texts of a list of compiled patterns.
pub open spec fn sources(patterns: Seq<Pattern>) -> Seq<Seq<char>> {
    Seq::new(patterns.len(), |i: int| patterns[i]@)
}

/// At least one of the patterns matches the text.
pub open spec fn any_matches(patterns: Seq<Seq<char>>, text: Seq<char>) -> bool {
    exists|i: int| 0 <= i < patterns.len() && pattern_matches(#[trigger] patterns[i], text)
}

/// The constraint that a pattern list puts on a field: an empty list puts
/// none, any other asks for one pattern that matches.
pub open spec fn satisfies(patterns: Seq<Seq<char>>, text: Seq<char>) -> bool {
    patterns.len() == 0 || any_matches(patterns, text)
}

/// Every pattern of the list compiles.
pub open spec fn all_compile(raw: Seq<Seq<char>>) -> bool {
    forall|i: int| 0 <= i < raw.len() ==> compiles(#[trigger] raw[i])
}

/// A pattern that did not compile, and why.
#[derive(Clone, Debug, PartialEq, Eq)]
pub struct PatternError {
    pattern: String,
    reason: String,
}

/// What a `PatternError` holds, as mathematical values.
pub struct PatternErrorView {
    pub pattern: Seq<char>,
    pub reason: Seq<char>,
}

impl View for PatternError {
    type V = PatternErrorView;

    closed spec fn view(&self) -> PatternErrorView {
        PatternErrorView { pattern: self.pattern@, reason: self.reason@ }
    }
}

impl PatternError {
    /// The pattern text that was rejected.
    pub fn pattern(&self) -> (text: &str)
        ensures
            text@ == self@.pattern,
    {
        self.pattern.as_str()
    }

    /// The diagnostic that the compiler of expressions gave.
    pub fn reason(&self) -> (text: &str)
        ensures
            text@ == self@.reason,
    {
        self.reason.as_str()
    }
}

/// `error` reports the pattern at index `at`: it is the first of the list that
/// does not compile.
pub open spec fn rejected_at(raw: Seq<Seq<char>>, at: int, error: PatternErrorView) -> bool {
    &&& 0 <= at < raw.len()
    &&& all_compile(raw.take(at))
    &&& compile_failure(raw[at]) == Some(error.reason)
    &&& error.pattern == raw[at]
}

/// `error` reports the first pattern of the list that does not compile.
pub open spec fn rejected(raw: Seq<Seq<char>>, error: PatternErrorView) -> bool {
    exists|at: int| rejected_at(raw, at, error)
}

/// A compiled regular expression, with the text that it was compiled from.
/// It is built once and never changes.
pub struct Pattern {
    source: String,
    regex: Regex,
}

impl View for Pattern {
    type V = Seq<char>;

    closed spec fn view(&self) -> Seq<char> {
        self.source@
    }
}

/// Calls `Regex::new`. Assumed: it accepts exactly the patterns for which
/// `compile_failure` is `None`; the error it returns displays as
/// `compile_failure` says. The expression returned is recorded as built from
/// the text given.
#[verifier::external_body]
fn compile(pattern: &str) -> (outcome: Result<Regex, regex::Error>)
    ensures
        match outcome {
            Ok(re) => compile_failure(pattern@) is None && built_from(re, pattern@),
            Err(error) => compile_failure(pattern@) == Some(error_text(error)),
        },
{
    Regex::new(pattern)
}

/// Calls `to_string` on a `regex::Error`, which goes by its `Display`.
/// Assumed: the string holds the text that `error_text` names.
#[verifier::external_body]
fn describe(error: &regex::Error) -> (text: String)
    ensures
        text@ == error_text(*error),
{
    error.to_string()
}

/// Calls `Regex::is_match`. Assumed: for an expression that `Regex::new`
/// built, the answer depends on the pattern text and the haystack alone, and
/// is the one that `pattern_matches` names.
#[verifier::external_body]
fn search(re: &Regex, text: &str) -> (hit: bool)
    ensures
        forall|pattern: Seq<char>| #[trigger]
            built_from(*re, pattern) ==> hit == pattern_matches(pattern, text@),
{
    re.is_match(text)
}

impl Pattern {
    #[verifier::type_invariant]
    spec fn well_formed(&self) -> bool {
        built_from(self.regex, self.source@)
    }

    /// Compiles a pattern. Gives the compiled pattern, or the error that
    /// names the text and carries the diagnostic.
    pub fn new(pattern: &str) -> (outcome: Result<Pattern, PatternError>)
        ensures
            match outcome {
                Ok(compiled) => compiles(pattern@) && compiled@ == pattern@,
                Err(error) => error@.pattern == pattern@ && compile_failure(pattern@) == Some(
                    error@.reason,
                ),
            },
    {
        match compile(pattern) {
            Ok(regex) => Ok(Pattern { source: pattern.to_owned(), regex }),
            Err(error) => Err(
                PatternError { pattern: pattern.to_owned(), reason: describe(&error) },
            ),
        }
    }

    /// The text that the pattern was compiled from.
    pub fn as_str(&self) -> (text: &str)
        ensures
            text@ == self@,
    {
        self.source.as_str()
    }

    /// Whether the pattern matches anywhere in the text.
    pub fn is_match(&self, text: &str) -> (hit: bool)
        ensures
            hit == pattern_matches(self@, text@),
    {
        proof {
            use_type_invariant(self);
        }
        search(&self.regex, text)
    }
}

/// Whether one of the patterns matches the text. The patterns are tried in
/// order, up to the first that matches.
pub fn matches_any(patterns: &Vec<Pattern>, text: &str) -> (hit: bool)
    ensures
        hit == any_matches(sources(patterns@), text@),
{
    let mut i: usize = 0;
    while i < patterns.len()
        invariant
            i <= patterns.len(),
            forall|j: int| 0 <= j < i ==> !pattern_matches(#[trigger] sources(patterns@)[j], text@),
        decreases patterns.len() - i,
    {
        if patterns[i].is_match(text) {
            assert(pattern_matches(sources(patterns@)[i as int], text@));
            return true;
        }
        i += 1;
    }
    false
}

/// The constraint of a list of `count` patterns on a field, given whether one
/// of them matched it: a list without patterns is met by every field.
pub fn constraint_met(count: usize, matched: bool) -> (ok: bool)
    ensures
        ok == (count == 0 || matched),
{
    count == 0 || matched
}

/// Whether the list of patterns lets the text through: an empty list lets
/// everything through, any other asks for one pattern that matches.
pub fn passes(patterns: &Vec<Pattern>, text: &str) -> (ok: bool)
    ensures
        ok == satisfies(sources(patterns@), text@),
{
    constraint_met(patterns.len(), matches_any(patterns, text))
}

} // verus!
