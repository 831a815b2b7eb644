//! URLs and query strings, through the `url` and `serde_qs` crates.
use crate::json::members_view;
use vstd::prelude::*;

verus! {

/// What `url` makes of `text`: `None` where it is no absolute URL, else its
/// query component, if it has one.
pub uninterp spec fn url_query_of(text: Seq<char>) -> Option<Option<Seq<char>>>;

/// What `url` makes of `rel` resolved against the absolute URL `base`, as text;
/// `None` where either fails to parse.
pub uninterp spec fn url_join_of(base: Seq<char>, rel: Seq<char>) -> Option<Seq<char>>;

/// The URL `base` with `params` appended to its query, as text; `None` where
/// `base` is no absolute URL.
pub uninterp spec fn url_with_params_of(
    base: Seq<char>,
    params: Seq<(Seq<char>, Seq<char>)>,
) -> Option<Seq<char>>;

/// The key/value pairs that `serde_qs` reads from a query string, in key order;
/// `None` where it rejects the string.
pub uninterp spec fn query_pairs_of(query: Seq<char>) -> Option<Seq<(Seq<char>, Seq<char>)>>;

/// Relies on `url::Url::parse` and `Url::query`: the query component of the
/// absolute URL `text`. The result depends on `text` alone.
#[verifier::external_body]
pub(crate) fn url_query(text: &str) -> (r: Result<Option<String>, String>)
    ensures
        match r {
            Ok(Some(q)) => url_query_of(text@) == Some(Some(q@)),
            Ok(None) => url_query_of(text@) == Some(None::<Seq<char>>),
            Err(_) => url_query_of(text@) is None,
        },
{
    match url::Url::parse(text) {
        Ok(u) => Ok(u.query().map(|q| q.to_string())),
        Err(e) => Err(e.to_string()),
    }
}

/// Relies on `url::Url::parse` of `base` and `Url::join` of `rel` onto it,
/// serialised with `Url`'s `Display`. The result depends on the arguments alone.
#[verifier::external_body]
pub(crate) fn join_url(base: &str, rel: &str) -> (r: Result<String, String>)
    ensures
        match r {
            Ok(u) => url_join_of(base@, rel@) == Some(u@),
            Err(_) => url_join_of(base@, rel@) is None,
        },
{
    url::Url::parse(base).and_then(|u| u.join(rel)).map(|u| u.to_string()).map_err(|e| e.to_string())
}

/// Relies on `url::Url::parse_with_params`, serialised with `Url`'s `Display`:
/// `base` with each pair appended, URL-encoded, to its query. The result
/// depends on the arguments alone.
#[verifier::external_body]
pub(crate) fn url_with_params(base: &str, params: &Vec<(String, String)>) -> (r: Result<String, String>)
    ensures
        match r {
            Ok(u) => url_with_params_of(base@, members_view(params@)) == Some(u@),
            Err(_) => url_with_params_of(base@, members_view(params@)) is None,
        },
{
    url::Url::parse_with_params(base, params.iter()).map(|u| u.to_string()).map_err(|e| e.to_string())
}

/// Relies on `serde_qs::from_str` into a `BTreeMap<String, String>`: the pairs
/// of a URL-encoded query string, in key order. The result depends on `query`
/// alone.
#[verifier::external_body]
pub(crate) fn query_pairs(query: &str) -> (r: Result<Vec<(String, String)>, String>)
    ensures
        match r {
            Ok(p) => query_pairs_of(query@) == Some(members_view(p@)),
            Err(_) => query_pairs_of(query@) is None,
        },
{
    serde_qs::from_str::<std::collections::BTreeMap<String, String>>(query).map(
        |m| m.into_iter().collect(),
    ).map_err(|e| e.to_string())
}

} // verus!
