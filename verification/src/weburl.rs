//! URL handling, done by the `url` crate as `reqwest` re-exports it.
//!
//! A URL is held as its serialised text. Parsing and joining are not
//! proved here: their results are named, and the rest of the library is
//! verified over those names.

use vstd::prelude::*;

verus! {

/// The serialisation of the URL that `reqwest::Url::parse` reads from
/// `input`, or `None` where it rejects `input`.
pub uninterp spec fn url_parsed(input: Seq<char>) -> Option<Seq<char>>;

/// The serialisation of the URL that `reqwest::Url::join` gives for
/// `reference` on the URL parsed from `base`, or `None` where `base` does not
/// parse or the join is rejected.
pub uninterp spec fn url_joined(base: Seq<char>, reference: Seq<char>) -> Option<Seq<char>>;

/// Calls `reqwest::Url::parse` and hands back the URL's serialisation.
///
/// Trusted: the result is `url_parsed` of the input, which says only that
/// parsing depends on nothing but the input text.
#[verifier::external_body]
pub(crate) fn parse_url(input: &str) -> (r: Option<String>)
    ensures
        r.deep_view() == url_parsed(input@),
{
    match reqwest::Url::parse(input) {
        Ok(url) => Some(url.into()),
        Err(_) => None,
    }
}

/// Calls `reqwest::Url::join` on the URL that `base` serialises and hands
/// back the serialisation of the joined URL.
///
/// Trusted: the result is `url_joined` of the two texts, which says only
/// that joining depends on nothing but them.
#[verifier::external_body]
pub(crate) fn join_url(base: &str, reference: &str) -> (r: Option<String>)
    ensures
        r.deep_view() == url_joined(base@, reference@),
{
    match reqwest::Url::parse(base) {
        Ok(url) => match url.join(reference) {
            Ok(joined) => Some(joined.into()),
            Err(_) => None,
        },
        Err(_) => None,
    }
}

} // verus!
