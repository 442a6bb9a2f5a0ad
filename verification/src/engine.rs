//! The two collaborators that this library calls but does not prove: the
//! regular-expression engine of the `regex` crate and the thread-local
//! generator of the `rand` crate. Every contract in this file is taken on trust,
//! not proved.

use regex::Regex;
use vstd::prelude::*;

verus! {

/// `regex::Regex`, a compiled regular expression. Nothing inside it is visible
/// to the proofs.
#[verifier::external_type_specification]
#[verifier::external_body]
pub struct ExRegex(regex::Regex);

/// The pattern that `Regex::new` compiled an expression from: what
/// `Regex::as_str` hands back. This library makes its expressions by
/// `Regex::new` alone, with the engine's default options.
pub uninterp spec fn source_of(re: Regex) -> Seq<char>;

/// What `Regex::captures` finds for a pattern in a text: `None` where the
/// pattern matches nowhere, else one entry per capture group of the leftmost
/// match, in the order of the opening parentheses and starting with the whole
/// match; an entry is `None` where the group took no part in the match.
pub uninterp spec fn capture_groups(pattern: Seq<char>, text: Seq<char>) -> Option<
    Seq<Option<Seq<char>>>,
>;

/// The views of a list of optional texts.
pub open spec fn texts_of(groups: Seq<Option<Vec<char>>>) -> Seq<Option<Seq<char>>> {
    Seq::new(
        groups.len(),
        |i: int|
            match groups[i] {
                Some(chars) => Some(chars@),
                None => None,
            },
    )
}

/// Whether `Regex::new` gives an expression for a pattern. It does so for a
/// pattern that is well formed and whose compiled form stays within the
/// engine's default size limit, and reads nothing but the pattern.
pub uninterp spec fn compiles(pattern: Seq<char>) -> bool;

/// Calls `Regex::new`. Claims that whether an expression comes back is fixed
/// by the pattern, under the name `compiles`, and that an expression that
/// comes back keeps the pattern it was given. Which patterns compile is not
/// claimed.
#[verifier::external_body]
pub(crate) fn compile(pattern: &str) -> (r: Option<Regex>)
    ensures
        r.is_some() == compiles(pattern@),
        r matches Some(re) ==> source_of(re) == pattern@,
{
    Regex::new(pattern).ok()
}

/// Calls `Regex::captures` and copies each group of the match out as its
/// characters (`Captures::iter`, `Match::as_str`). Claims that, for an
/// expression that `Regex::new` compiled, the outcome is fixed by the pattern
/// and the text, under the name `capture_groups`.
#[verifier::external_body]
pub(crate) fn captures(re: &Regex, text: &str) -> (r: Option<Vec<Option<Vec<char>>>>)
    ensures
        match r {
            Some(groups) => capture_groups(source_of(*re), text@) == Some(texts_of(groups@)),
            None => capture_groups(source_of(*re), text@).is_none(),
        },
{
    let found = re.captures(text)?;
    Some(found.iter().map(|group| group.map(|m| m.as_str().chars().collect())).collect())
}

/// Calls `rand::random::<u32>`. Nothing is claimed of the number.
#[verifier::external_body]
pub(crate) fn random_draw() -> u32 {
    rand::random::<u32>()
}

} // verus!
