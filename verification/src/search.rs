//! Searching a text for a pattern, done by the regex engine.
//!
//! What a pattern means is the engine's business. This module gives the
//! engine's answers a name, so that the rest of the library can say exactly
//! what it does with them.

use regex::Regex;
use vstd::prelude::*;

verus! {

/// `regex::Error`, with which the engine refuses a pattern. Nothing is read
/// from it.
#[verifier::external_type_specification]
#[verifier::external_body]
pub struct ExPatternError(regex::Error);

/// Whether the engine takes `pattern` for a regular expression: whether
/// `regex::Regex::new(pattern)` is `Ok`. The engine refuses a pattern that is
/// ill-formed, and one that compiles to more than its size limit.
pub uninterp spec fn accepted(pattern: Seq<char>) -> bool;

/// The part of `haystack` that the group named `group` holds in the leftmost
/// match of `pattern`: what `Regex::captures` and then `Captures::name` give.
/// `None` where nothing matches, or the match has no such group.
pub uninterp spec fn captured(pattern: Seq<char>, haystack: Seq<char>, group: Seq<char>) -> Option<
    Seq<char>,
>;

/// The characters of an optional string.
pub open spec fn text_of(found: Option<String>) -> Option<Seq<char>> {
    match found {
        Some(s) => Some(s@),
        None => None,
    }
}

/// Compiles `pattern`, searches `haystack` for its leftmost match and copies
/// out what the group named `group` holds.
///
/// Calls `regex::Regex::new`, `Regex::captures`, `Captures::name` and
/// `Match::as_str`. The contract claims only that the outcome depends on the
/// three texts and on nothing else: whether the pattern is refused on the
/// pattern, what is found on all three. It says nothing of what any pattern
/// matches.
#[verifier::external_body]
fn capture(pattern: &str, haystack: &str, group: &str) -> (r: Result<Option<String>, regex::Error>)
    ensures
        r is Ok <==> accepted(pattern@),
        r matches Ok(found) ==> text_of(found) == captured(pattern@, haystack@, group@),
{
    let re = Regex::new(pattern)?;
    Ok(re.captures(haystack).and_then(|caps| caps.name(group)).map(|m| String::from(m.as_str())))
}

/// What a search came to.
#[derive(Clone, Debug, PartialEq, Eq, Hash)]
pub enum Search {
    /// The engine refused the pattern.
    Rejected,
    /// The pattern matches nowhere in the text.
    Absent,
    /// What the named group holds in the leftmost match.
    Found(String),
}

/// What a search came to, as a mathematical value.
pub enum SearchView {
    Rejected,
    Absent,
    Found(Seq<char>),
}

impl View for Search {
    type V = SearchView;

    open spec fn view(&self) -> SearchView {
        match self {
            Search::Rejected => SearchView::Rejected,
            Search::Absent => SearchView::Absent,
            Search::Found(s) => SearchView::Found(s@),
        }
    }
}

/// What searching `haystack` for `pattern` comes to, in the engine's terms.
pub open spec fn searched(pattern: Seq<char>, haystack: Seq<char>, group: Seq<char>) -> SearchView {
    if !accepted(pattern) {
        SearchView::Rejected
    } else {
        match captured(pattern, haystack, group) {
            Some(s) => SearchView::Found(s),
            None => SearchView::Absent,
        }
    }
}

/// Searches `haystack` for the leftmost match of `pattern` and gives what its
/// group named `group` holds.
pub fn search(pattern: &str, haystack: &str, group: &str) -> (r: Search)
    ensures
        r@ == searched(pattern@, haystack@, group@),
{
    match capture(pattern, haystack, group) {
        Ok(Some(s)) => Search::Found(s),
        Ok(None) => Search::Absent,
        Err(_) => Search::Rejected,
    }
}

} // verus!
