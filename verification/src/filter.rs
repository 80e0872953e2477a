//! The filter that decides which tags are of interest: a regular expression,
//! searched for anywhere in a tag's name.

use regex::Regex;
use vstd::prelude::*;

verus! {

/// `regex::Error`, carried as it comes: nothing is known of what it holds.
#[verifier::external_type_specification]
#[verifier::external_body]
pub struct ExRegexError(regex::Error);

/// Whether `regex::Regex::new` accepts `pattern`.
pub uninterp spec fn regex_compiles(pattern: Seq<char>) -> bool;

/// Whether the regular expression compiled from `pattern` finds a match
/// anywhere in `text`.
pub uninterp spec fn regex_is_match(pattern: Seq<char>, text: Seq<char>) -> bool;

/// Calls `regex::Regex::new` and keeps the error, if any. The contract
/// gives the outcome a name: the call fails exactly on the patterns that
/// do not compile.
#[verifier::external_body]
fn compilation_failure(pattern: &str) -> (failure: Option<regex::Error>)
    ensures
        failure is None <==> regex_compiles(pattern@),
{
    Regex::new(pattern).err()
}

/// Renders a `regex::Error` through its `Display` impl. Nothing is claimed
/// of the text.
#[verifier::external_body]
fn error_text(error: &regex::Error) -> String {
    error.to_string()
}

/// Calls `regex::Regex::is_match` on the regular expression that
/// `regex::Regex::new` compiles from `pattern`. The contract gives the
/// answer a name; the pattern must compile, else the call would panic.
#[verifier::external_body]
fn search(pattern: &str, text: &str) -> (found: bool)
    requires
        regex_compiles(pattern@),
    ensures
        found == regex_is_match(pattern@, text@),
{
    Regex::new(pattern).unwrap().is_match(text)
}

/// A pattern that did not compile, with what the compiler said of it.
#[derive(Debug)]
pub struct InvalidPattern {
    pub pattern: String,
    pub reason: String,
}

/// A tag filter. It holds a pattern that is known to compile, and compiles
/// it for each search.
#[derive(Debug)]
pub struct TagFilter {
    pattern: String,
}

impl View for TagFilter {
    type V = Seq<char>;

    /// The pattern of the filter.
    closed spec fn view(&self) -> Seq<char> {
        self.pattern@
    }
}

impl TagFilter {
    #[verifier::type_invariant]
    spec fn compiles(self) -> bool {
        regex_compiles(self.pattern@)
    }

    /// Validates `pattern`. A pattern that compiles always gives a filter;
    /// one that does not is handed back with the reason.
    pub fn new(pattern: &str) -> (made: Result<TagFilter, InvalidPattern>)
        ensures
            regex_compiles(pattern@) <==> made is Ok,
            made matches Ok(filter) ==> filter@ == pattern@,
            made matches Err(invalid) ==> invalid.pattern@ == pattern@,
    {
        match compilation_failure(pattern) {
            None => Ok(TagFilter { pattern: pattern.to_owned() }),
            Some(error) => Err(
                InvalidPattern { pattern: pattern.to_owned(), reason: error_text(&error) },
            ),
        }
    }

    /// The pattern that the filter was made from.
    pub fn as_str(&self) -> (pattern: &str)
        ensures
            pattern@ == self@,
    {
        self.pattern.as_str()
    }

    /// Whether the filter lets `name` through.
    pub fn is_match(&self, name: &str) -> (found: bool)
        ensures
            found == regex_is_match(self@, name@),
    {
        proof {
            use_type_invariant(self);
        }
        search(self.pattern.as_str(), name)
    }
}

} // verus!
