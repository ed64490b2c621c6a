//! Query strings of URLs: building the authorization URL and reading the
//! parameters of the redirect callback.
use vstd::prelude::*;
use crate::model::{opt_view, AuthError};

verus! {

/// The view of a list of name/value pairs.
pub open spec fn pairs_view(v: Seq<(String, String)>) -> Seq<(Seq<char>, Seq<char>)> {
    v.map_values(|p: (String, String)| (p.0@, p.1@))
}

/// The URL that `base` names, with `pairs` form-encoded and appended to its
/// query; `None` when `base` is not a valid URL.
pub uninterp spec fn url_with_query(base: Seq<char>, pairs: Seq<(Seq<char>, Seq<char>)>) -> Option<
    Seq<char>,
>;

/// The decoded query pairs of `uri`, in order; `None` when `uri` is not a
/// valid URL.
pub uninterp spec fn query_pairs_of(uri: Seq<char>) -> Option<Seq<(Seq<char>, Seq<char>)>>;

/// Relies on url's `Url::parse` of `base`, `Url::query_pairs_mut` with
/// `extend_pairs`, and the URL's serialization: a function of the base and
/// the pairs alone.
#[verifier::external_body]
pub(crate) fn append_query(base: &str, pairs: &Vec<(String, String)>) -> (r: Option<String>)
    ensures
        opt_view(r) == url_with_query(base@, pairs_view(pairs@)),
{
    let mut url = url::Url::parse(base).ok()?;
    url.query_pairs_mut().extend_pairs(pairs.iter());
    Some(url.into())
}

/// Relies on url's `Url::parse` and `Url::query_pairs`: the decoded pairs of
/// the query, a function of the text alone.
#[verifier::external_body]
fn decoded_query_pairs(uri: &str) -> (r: Option<Vec<(String, String)>>)
    ensures
        match r {
            Some(v) => query_pairs_of(uri@) == Some(pairs_view(v@)),
            None => query_pairs_of(uri@) is None,
        },
{
    let url = url::Url::parse(uri).ok()?;
    Some(url.query_pairs().into_owned().collect())
}

/// The value of parameter `key`: that of its last occurrence, as when the
/// pairs are collected into a map.
pub open spec fn query_value(pairs: Seq<(Seq<char>, Seq<char>)>, key: Seq<char>) -> Option<Seq<char>>
    decreases pairs.len(),
{
    if pairs.len() == 0 {
        None
    } else if pairs.last().0 == key {
        Some(pairs.last().1)
    } else {
        query_value(pairs.drop_last(), key)
    }
}

/// Finds the value of parameter `key`, its last occurrence winning.
pub fn find_query_value(pairs: &Vec<(String, String)>, key: &str) -> (r: Option<String>)
    ensures
        opt_view(r) == query_value(pairs_view(pairs@), key@),
{
    let ghost pv = pairs_view(pairs@);
    let wanted = key.to_owned();
    let mut found: Option<String> = None;
    let mut i: usize = 0;
    while i < pairs.len()
        invariant
            0 <= i <= pairs.len(),
            pv == pairs_view(pairs@),
            wanted@ == key@,
            opt_view(found) == query_value(pv.subrange(0, i as int), key@),
        decreases pairs.len() - i,
    {
        assert(pv.subrange(0, i + 1).drop_last() =~= pv.subrange(0, i as int));
        if pairs[i].0 == wanted {
            found = Some(pairs[i].1.clone());
        }
        i = i + 1;
    }
    assert(pv.subrange(0, pairs.len() as int) =~= pv);
    found
}

/// The `code` and `state` parameters of a redirect callback, or why they
/// cannot be had.
pub open spec fn callback_params(uri: Seq<char>) -> Result<(Seq<char>, Seq<char>), AuthError> {
    match query_pairs_of(uri) {
        None => Err(AuthError::InvalidCallbackUri),
        Some(ps) => match (query_value(ps, "code"@), query_value(ps, "state"@)) {
            (None, _) => Err(AuthError::MissingCode),
            (Some(_), None) => Err(AuthError::MissingState),
            (Some(code), Some(state)) => Ok((code, state)),
        },
    }
}

/// Reads the `code` and `state` parameters of a redirect callback.
pub fn parse_callback(uri: &str) -> (r: Result<(String, String), AuthError>)
    ensures
        match (r, callback_params(uri@)) {
            (Ok((c, s)), Ok((vc, vs))) => c@ == vc && s@ == vs,
            (Err(e), Err(f)) => e == f,
            _ => false,
        },
{
    let pairs = match decoded_query_pairs(uri) {
        Some(p) => p,
        None => return Err(AuthError::InvalidCallbackUri),
    };
    let code = find_query_value(&pairs, "code");
    let state = find_query_value(&pairs, "state");
    match (code, state) {
        (None, _) => Err(AuthError::MissingCode),
        (Some(_), None) => Err(AuthError::MissingState),
        (Some(code), Some(state)) => Ok((code, state)),
    }
}

} // verus!
