use vstd::prelude::*;
use fuzzy_matcher::FuzzyMatcher;

verus! {

/// The score the fuzzy matcher assigns to a haystack under a query: `Some`
/// with a signed score (higher is better) when the algorithm finds a match,
/// `None` otherwise. A name for the outside algorithm's result; it depends
/// on the two strings alone.
pub uninterp spec fn score_of(haystack: Seq<char>, query: Seq<char>) -> Option<i64>;

/// The lower-case form of a string, as std computes it.
pub uninterp spec fn lower_of(s: Seq<char>) -> Seq<char>;

/// Relies on fuzzy_matcher::skim::SkimMatcherV2::fuzzy_match, with default
/// settings: the result is a deterministic function of the two strings
/// alone, and an empty query matches every haystack with score 0.
#[verifier::external_body]
pub(crate) fn fuzzy_score(haystack: &str, query: &str) -> (r: Option<i64>)
    ensures
        r == score_of(haystack@, query@),
        query@.len() == 0 ==> r == Some(0i64),
{
    fuzzy_matcher::skim::SkimMatcherV2::default().fuzzy_match(haystack, query)
}

/// Relies on str::to_lowercase: the result depends on the characters alone.
#[verifier::external_body]
pub(crate) fn lowercase(s: &str) -> (r: String)
    ensures
        r@ == lower_of(s@),
{
    s.to_lowercase()
}

} // verus!
