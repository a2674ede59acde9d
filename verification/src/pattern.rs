//! The search for the first severity word of a message.
//!
//! The search itself is the `regex` crate's: this module compiles the one
//! pattern of the library, hands messages to it, and maps what it finds to a
//! level. What is stated of the crate here is believed, not proved.

use crate::level::{default_level, level_of_token, token_level, SeverityLevel};
use regex::Regex;
use vstd::prelude::*;

verus! {

/// `regex::Regex`, a compiled pattern. Its inside is not looked at.
#[verifier::external_type_specification]
#[verifier::external_body]
pub struct ExRegex(Regex);

/// `regex::Error`, the reason for which a pattern was not compiled.
#[verifier::external_type_specification]
#[verifier::external_body]
pub struct ExRegexError(regex::Error);

/// The six severity words, each as a whole word, in any case of letters.
pub const LEVEL_PATTERN: &'static str = r"(?i)\b(error|warn|warning|info|debug|trace)\b";

/// What `Regex::new` makes of a pattern: the compiled pattern, or nothing
/// where the pattern is refused.
pub uninterp spec fn compiled(pattern: Seq<char>) -> Option<Regex>;

/// What `Regex::find` reports: the text of the leftmost match of the
/// compiled pattern in the haystack, or nothing where there is no match.
pub uninterp spec fn leftmost_match(re: Regex, haystack: Seq<char>) -> Option<Seq<char>>;

/// Calls `Regex::new`. The same pattern is compiled to the same thing every
/// time, or refused every time.
#[verifier::external_body]
fn compile(pattern: &str) -> (r: Result<Regex, regex::Error>)
    ensures
        r.is_ok() == compiled(pattern@).is_some(),
        r matches Ok(re) ==> compiled(pattern@) == Some(re),
{
    Regex::new(pattern)
}

/// Calls `Regex::find` and hands out the matched part of the haystack
/// (`Match::as_str`).
#[verifier::external_body]
fn find_first<'h>(re: &Regex, haystack: &'h str) -> (found: Option<&'h str>)
    ensures
        found.is_some() == leftmost_match(*re, haystack@).is_some(),
        found matches Some(token) ==> leftmost_match(*re, haystack@) == Some(token@),
{
    match re.find(haystack) {
        Some(m) => Some(m.as_str()),
        None => None,
    }
}

/// The text that `regex::Error` shows for itself.
#[verifier::external_body]
fn describe(error: &regex::Error) -> (text: String) {
    error.to_string()
}

/// The level pattern was refused by the pattern compiler.
#[derive(Debug)]
pub struct PatternError {
    /// The compiler's own account of the refusal.
    pub reason: String,
}

/// The level of a message: that of the first severity word that the search
/// finds in it, and the default level where it finds none.
pub open spec fn found_level(found: Option<Seq<char>>) -> SeverityLevel {
    match found {
        Some(token) => token_level(token),
        None => default_level(),
    }
}

/// The level of a message under the library's pattern.
pub open spec fn message_level(message: Seq<char>) -> SeverityLevel {
    match compiled(LEVEL_PATTERN@) {
        Some(re) => found_level(leftmost_match(re, message)),
        None => default_level(),
    }
}

/// The level for what a search found: that of the word, or the default level
/// after a search without a match.
pub fn level_of_match(found: Option<&str>) -> (level: SeverityLevel)
    ensures
        level == found_level(
            match found {
                Some(token) => Some(token@),
                None => None,
            },
        ),
{
    match found {
        Some(token) => level_of_token(token),
        None => SeverityLevel::default(),
    }
}

/// The compiled level pattern. It is made once and then only read, so one
/// classifier serves any number of connections.
pub struct Classifier {
    matcher: Regex,
}

impl Classifier {
    #[verifier::type_invariant]
    spec fn holds_level_pattern(&self) -> bool {
        compiled(LEVEL_PATTERN@) == Some(self.matcher)
    }

    /// Compiles the level pattern. It fails only where the pattern compiler
    /// refuses the pattern.
    pub fn new() -> (r: Result<Classifier, PatternError>)
        ensures
            r.is_ok() == compiled(LEVEL_PATTERN@).is_some(),
    {
        match compile(LEVEL_PATTERN) {
            Ok(matcher) => Ok(Classifier { matcher }),
            Err(e) => Err(PatternError { reason: describe(&e) }),
        }
    }

    /// The level of `message`. It depends on the text of the message and on
    /// nothing else.
    pub fn classify(&self, message: &str) -> (level: SeverityLevel)
        ensures
            level == message_level(message@),
    {
        proof {
            use_type_invariant(self);
        }
        level_of_match(find_first(&self.matcher, message))
    }
}

} // verus!
