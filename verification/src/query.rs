//! Query-parameter lists and URL construction.
//!
//! A request is encoded as an ordered list of `(key, value)` pairs; the URL
//! crate then appends them, percent-encoded, to the endpoint's base URL.

use vstd::prelude::*;

verus! {

/// The view of a list of owned string pairs.
pub open spec fn pairs_view(ps: Seq<(String, String)>) -> Seq<(Seq<char>, Seq<char>)> {
    Seq::new(ps.len(), |i: int| (ps[i].0@, ps[i].1@))
}

/// Whether `params` holds no pair with key `key`.
pub open spec fn no_key(params: Seq<(Seq<char>, Seq<char>)>, key: Seq<char>) -> bool {
    forall|i: int| 0 <= i < params.len() ==> (#[trigger] params[i]).0 != key
}

/// The URL that results from parsing `base` and appending `params` to its
/// query string, percent-encoded; `None` when `base` is not a valid URL.
pub uninterp spec fn url_with_params(base: Seq<char>, params: Seq<(Seq<char>, Seq<char>)>) -> Option<
    Seq<char>,
>;

/// A key absent from both parts is absent from their concatenation.
pub proof fn lemma_no_key_concat(
    a: Seq<(Seq<char>, Seq<char>)>,
    b: Seq<(Seq<char>, Seq<char>)>,
    key: Seq<char>,
)
    requires
        no_key(a, key),
        no_key(b, key),
    ensures
        no_key(a + b, key),
{
    assert forall|i: int| 0 <= i < (a + b).len() implies ((a + b)[i]).0 != key by {
        if i < a.len() {
            assert((a + b)[i] == a[i]);
        } else {
            assert((a + b)[i] == b[i - a.len()]);
        }
    }
}

/// Append one parameter pair.
pub fn push_pair(params: &mut Vec<(String, String)>, key: &str, value: String)
    ensures
        pairs_view(final(params)@) == pairs_view(old(params)@) + seq![(key@, value@)],
{
    let ghost before = params@;
    params.push((String::from_str(key), value));
    assert(pairs_view(params@) =~= pairs_view(before) + seq![(key@, params@.last().1@)]);
}

/// Append the parameter pair for an optional text field, when it is set.
pub fn push_opt_pair(params: &mut Vec<(String, String)>, key: &str, v: &Option<String>)
    ensures
        pairs_view(final(params)@) == pairs_view(old(params)@) + (match *v {
            Some(s) => seq![(key@, s@)],
            None => Seq::empty(),
        }),
{
    match v {
        Some(s) => push_pair(params, key, s.clone()),
        None => {
            assert(pairs_view(params@) =~= pairs_view(params@) + Seq::<
                (Seq<char>, Seq<char>),
            >::empty());
        },
    }
}

/// Relies on `reqwest::Url::parse_with_params` (the `url` crate): it parses
/// the base URL and appends each pair to the query string, percent-encoded.
/// The result is a function of the base and the pairs alone, and it is an
/// error exactly when the base does not parse as a URL.
#[verifier::external_body]
fn parse_with_params(base: &str, params: &Vec<(String, String)>) -> (r: Result<String, String>)
    ensures
        match r {
            Ok(u) => url_with_params(base@, pairs_view(params@)) == Some(u@),
            Err(_) => url_with_params(base@, pairs_view(params@)) is None,
        },
{
    match reqwest::Url::parse_with_params(base, params.iter()) {
        Ok(u) => Ok(u.to_string()),
        Err(e) => Err(e.to_string()),
    }
}

/// Build the request URL for `base` and `params`.
///
/// Fails with `InvalidParameter` exactly when `base` is not a valid URL.
pub fn build_url(base: &str, params: &Vec<(String, String)>) -> (r: Result<
    String,
    crate::error::OpenMeteoError,
>)
    ensures
        match r {
            Ok(u) => url_with_params(base@, pairs_view(params@)) == Some(u@),
            Err(e) => e matches crate::error::OpenMeteoError::InvalidParameter(_)
                && url_with_params(base@, pairs_view(params@)) is None,
        },
{
    match parse_with_params(base, params) {
        Ok(u) => Ok(u),
        Err(e) => Err(crate::error::OpenMeteoError::InvalidParameter(e)),
    }
}

} // verus!
