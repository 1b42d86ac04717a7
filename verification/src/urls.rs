//! The two questions this library puts to the `url` crate.

use vstd::prelude::*;

verus! {

/// The name-value pairs that a query string holds when it is read as
/// `application/x-www-form-urlencoded`, in the order in which they stand.
pub uninterp spec fn query_pairs(query: Seq<char>) -> Seq<(Seq<char>, Seq<char>)>;

/// Whether `text` can be read as an absolute URL.
pub uninterp spec fn is_absolute_url(text: Seq<char>) -> bool;

/// Splits a query string with `url::form_urlencoded::parse`, which cuts it at
/// each `&`, cuts each piece at its first `=`, and decodes `+` and percent
/// escapes in names and values. Nothing is claimed of the pairs but that they
/// are what that function reads in `query`.
#[verifier::external_body]
pub(crate) fn parse_query(query: &str) -> (pairs: Vec<(String, String)>)
    ensures
        pairs.deep_view() == query_pairs(query@),
{
    url::form_urlencoded::parse(query.as_bytes()).into_owned().collect()
}

/// Asks `url::Url::parse` whether `text` is an absolute URL: that function
/// accepts no relative reference, since it is given no base to resolve one
/// against.
#[verifier::external_body]
pub(crate) fn parses_as_url(text: &str) -> (ok: bool)
    ensures
        ok == is_absolute_url(text@),
{
    url::Url::parse(text).is_ok()
}

} // verus!
