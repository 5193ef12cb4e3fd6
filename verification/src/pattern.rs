//! Patterns: regular expressions that captured text is searched with.
//!
//! The `regex` crate compiles and runs the expressions. What it decides is
//! named here, not restated: whether it accepts a pattern, what it says of
//! one that it refuses, and whether an accepted pattern matches somewhere in
//! a text. The rules around those decisions are the library's own and are
//! proved.

use crate::failure::{outcome, Failure, FailureModel};
use crate::text::decode;
use vstd::prelude::*;
use vstd::utf8::{decode_utf8, valid_utf8};

verus! {

/// `regex::Regex`, a compiled expression. Its inside is the engine's own.
#[verifier::external_type_specification]
#[verifier::external_body]
pub struct ExRegex(regex::Regex);

/// `regex::Error`, the engine's complaint about a pattern. Its inside is
/// the engine's own.
#[verifier::external_type_specification]
#[verifier::external_body]
pub struct ExRegexError(regex::Error);

/// Whether `regex::Regex::new` accepts `pattern`: it is well formed and its
/// compiled form stays within the engine's default size limit.
pub uninterp spec fn regex_compiles(pattern: Seq<char>) -> bool;

/// Whether the expression compiled from `pattern` has a match anywhere in
/// `haystack`, as `regex::Regex::is_match` tells it.
pub uninterp spec fn regex_matches(pattern: Seq<char>, haystack: Seq<char>) -> bool;

/// The text to which the engine's complaint about `pattern` renders: what
/// the `Display` impl of `regex::Error` writes for the error that
/// `regex::Regex::new` gives on a pattern that it refuses.
pub uninterp spec fn regex_diagnostic(pattern: Seq<char>) -> Seq<char>;

/// A pattern that the engine has accepted, together with its compiled form.
pub struct Pattern {
    source: String,
    engine: regex::Regex,
}

impl View for Pattern {
    type V = Seq<char>;

    /// The text that the pattern was compiled from.
    closed spec fn view(&self) -> Seq<char> {
        self.source@
    }
}

/// A pattern that the engine has refused, together with its complaint.
struct Refusal {
    source: String,
    error: regex::Error,
}

impl View for Refusal {
    type V = Seq<char>;

    /// The text of the refused pattern.
    closed spec fn view(&self) -> Seq<char> {
        self.source@
    }
}

/// Compiles `pattern` with `regex::Regex::new`. The engine alone decides
/// whether it accepts the pattern. What it gives back, the compiled form or
/// its complaint, is kept beside the text of the pattern.
#[verifier::external_body]
fn regex_new(pattern: &str) -> (compiled: Result<Pattern, Refusal>)
    ensures
        compiled.is_ok() <==> regex_compiles(pattern@),
        compiled matches Ok(accepted) ==> accepted@ == pattern@,
        compiled matches Err(refused) ==> refused@ == pattern@,
{
    match regex::Regex::new(pattern) {
        Ok(engine) => Ok(Pattern { source: pattern.to_owned(), engine }),
        Err(error) => Err(Refusal { source: pattern.to_owned(), error }),
    }
}

/// Searches `haystack` with `regex::Regex::is_match`, which is true exactly
/// when the expression matches somewhere in the haystack. Every `Pattern`
/// comes from `regex_new`, so its expression is the one that `Regex::new`
/// compiled from its source.
#[verifier::external_body]
fn regex_is_match(pattern: &Pattern, haystack: &str) -> (found: bool)
    ensures
        found == regex_matches(pattern@, haystack@),
{
    pattern.engine.is_match(haystack)
}

/// Renders the engine's complaint with the `Display` impl of
/// `regex::Error`. Every `Refusal` comes from `regex_new`, so its complaint
/// is the one that `Regex::new` made about its source. The wording is the
/// engine's own: it is named, not stated.
#[verifier::external_body]
fn regex_error_text(refusal: &Refusal) -> (text: String)
    ensures
        text@ == regex_diagnostic(refusal@),
{
    refusal.error.to_string()
}

/// The failure that reports a pattern which the engine refuses: the text
/// of the pattern and the engine's diagnostic.
pub open spec fn refusal_of(pattern: Seq<char>) -> FailureModel {
    FailureModel::Pattern { pattern, diagnostic: regex_diagnostic(pattern) }
}

impl Pattern {
    /// Compiles a pattern. A pattern that the engine refuses is reported
    /// with its text and the engine's diagnostic.
    pub fn compile(pattern: &str) -> (result: Result<Pattern, Failure>)
        ensures
            match result {
                Ok(accepted) => regex_compiles(pattern@) && accepted@ == pattern@,
                Err(failure) => !regex_compiles(pattern@) && failure@ == refusal_of(pattern@),
            },
    {
        match regex_new(pattern) {
            Ok(accepted) => Ok(accepted),
            Err(refused) => Err(
                Failure::Pattern {
                    pattern: pattern.to_owned(),
                    diagnostic: regex_error_text(&refused),
                },
            ),
        }
    }

    /// The text that the pattern was compiled from.
    pub fn as_str(&self) -> (source: &str)
        ensures
            source@ == self@,
    {
        self.source.as_str()
    }

    /// Tells whether the pattern matches somewhere in `text`. The pattern
    /// need not cover the whole text.
    pub fn is_match(&self, text: &str) -> (found: bool)
        ensures
            found == regex_matches(self@, text@),
    {
        regex_is_match(self, text)
    }
}

/// The judgement on a text that was searched with a pattern, given what the
/// search found.
pub open spec fn search_verdict(found: bool, text: Seq<char>, pattern: Seq<char>) -> Result<
    (),
    FailureModel,
> {
    if found {
        Ok(())
    } else {
        Err(FailureModel::Assertion { actual: Some(text), expected: pattern })
    }
}

/// Judges a search: a text in which the pattern was found passes; one in
/// which it was not is reported whole, against the text of the pattern.
pub fn judge_search(found: bool, text: &str, pattern: &str) -> (result: Result<(), Failure>)
    ensures
        outcome(result) == search_verdict(found, text@, pattern@),
{
    if found {
        Ok(())
    } else {
        Err(Failure::Assertion { actual: Some(text.to_owned()), expected: pattern.to_owned() })
    }
}

/// The judgement on bytes that are expected to hold a match of a pattern.
/// The pattern comes first: one that the engine refuses fails the check
/// whatever the bytes are.
pub open spec fn pattern_verdict(bytes: Seq<u8>, pattern: Seq<char>) -> Result<(), FailureModel> {
    if !regex_compiles(pattern) {
        Err(refusal_of(pattern))
    } else if !valid_utf8(bytes) {
        Err(FailureModel::Encoding)
    } else {
        search_verdict(regex_matches(pattern, decode_utf8(bytes)), decode_utf8(bytes), pattern)
    }
}

/// The check succeeds exactly when the engine accepts the pattern, the
/// bytes are text, and the pattern matches somewhere in that text. The
/// pattern need not cover the text.
pub proof fn lemma_pattern_passes_iff_match(bytes: Seq<u8>, pattern: Seq<char>)
    ensures
        pattern_verdict(bytes, pattern).is_ok() <==> regex_compiles(pattern) && valid_utf8(bytes)
            && regex_matches(pattern, decode_utf8(bytes)),
{
}

/// A pattern that the engine refuses is reported as such on every input:
/// neither a matching text nor bytes that are no text come before it.
pub proof fn lemma_refused_pattern_comes_first(bytes: Seq<u8>, pattern: Seq<char>)
    ensures
        !regex_compiles(pattern) ==> pattern_verdict(bytes, pattern) == Err::<(), FailureModel>(
            refusal_of(pattern),
        ),
{
}

/// Checks that `bytes`, read as text, hold a match of `pattern` somewhere.
/// The pattern is compiled first: a pattern that the engine refuses is
/// reported before the bytes are looked at.
pub fn expect_pattern(bytes: &[u8], pattern: &str) -> (result: Result<(), Failure>)
    ensures
        outcome(result) == pattern_verdict(bytes@, pattern@),
{
    let compiled = Pattern::compile(pattern)?;
    match decode(bytes) {
        None => Err(Failure::Encoding),
        Some(text) => judge_search(compiled.is_match(text), text, pattern),
    }
}

} // verus!
