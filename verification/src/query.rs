//! Request URLs: an endpoint and its query parameters, rendered by the `url`
//! crate.

use vstd::prelude::*;
use url::Url;

verus! {

/// `url::ParseError`: why a text is no URL.
#[verifier::external_type_specification]
#[verifier::external_body]
pub struct ExParseError(url::ParseError);

/// The text of the URL that `Url::parse_with_params` makes of `base` and
/// `pairs`, or `None` where it finds no absolute URL in `base`.
pub uninterp spec fn url_with_params(base: Seq<char>, pairs: Seq<(Seq<char>, Seq<char>)>) -> Option<
    Seq<char>,
>;

/// `Url::parse_with_params`, and the URL handed back as text. The `url` crate
/// parses `base` and appends each pair to the query in
/// `application/x-www-form-urlencoded` syntax; what comes of it is given the
/// name [`url_with_params`]. The crate keeps offsets into the URL in 32 bits
/// and panics where the query or a fragment would start beyond them: `base`
/// is short, so its query starts early, and it has no fragment to be put
/// back behind the query.
#[verifier::external_body]
pub(crate) fn parse_with_params(base: &str, pairs: &Vec<(String, String)>) -> (r: Result<
    String,
    url::ParseError,
>)
    requires
        base@.len() <= 2048,
        !base@.contains('#'),
    ensures
        match r {
            Ok(text) => url_with_params(base@, pairs.deep_view()) == Some(text@),
            Err(_) => url_with_params(base@, pairs.deep_view()) is None,
        },
{
    Url::parse_with_params(base, pairs).map(String::from)
}

/// Appends the parameter `name=value` to `query`, after what is there.
pub fn append_pair(query: &mut Vec<(String, String)>, name: &str, value: &str)
    ensures
        final(query).deep_view() == old(query).deep_view().push((name@, value@)),
{
    query.push((name.to_owned(), value.to_owned()));
    assert(query.deep_view() =~= old(query).deep_view().push((name@, value@)));
}

/// Renders a request URL from an endpoint and its parameters.
pub(crate) fn request_url(base: &str, pairs: &Vec<(String, String)>) -> (r: Option<String>)
    requires
        base@.len() <= 2048,
        !base@.contains('#'),
    ensures
        match r {
            Some(text) => url_with_params(base@, pairs.deep_view()) == Some(text@),
            None => url_with_params(base@, pairs.deep_view()) is None,
        },
{
    match parse_with_params(base, pairs) {
        Ok(text) => Some(text),
        Err(_) => None,
    }
}

} // verus!
