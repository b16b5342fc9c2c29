//! What this crate asks of the `url` crate: the normal form of an absolute
//! URL, and the pairs of its query string.

use vstd::prelude::*;
use crate::text::pairs_view;

verus! {

/// The serialization that the `url` crate gives the absolute URL written as
/// `input`, or `None` where it does not accept `input` as one.
pub uninterp spec fn url_serialization(input: Seq<char>) -> Option<Seq<char>>;

/// The name/value pairs, already decoded, that the `url` crate reads from the
/// query string of the URL written as `input`, in the order in which they
/// stand there. Of no meaning where `input` is not accepted as a URL.
pub uninterp spec fn url_query_pairs(input: Seq<char>) -> Seq<(Seq<char>, Seq<char>)>;

/// What is read of a URL once the `url` crate has parsed it.
#[derive(Debug)]
pub struct ParsedUrl {
    /// The URL in its normal form.
    pub serialization: String,
    /// The decoded pairs of its query string, in their order.
    pub query_pairs: Vec<(String, String)>,
}

/// Calls `url::Url::parse` on `input` and copies out of the URL its
/// serialization (`Url::as_str`) and the pairs of its query string
/// (`Url::query_pairs`). Trusted: both depend on `input` alone, and are what
/// [`url_serialization`] and [`url_query_pairs`] name. Nothing is claimed
/// about which inputs are accepted or what the two hold.
#[verifier::external_body]
pub(crate) fn parse_url(input: &str) -> (parsed: Option<ParsedUrl>)
    ensures
        parsed is Some <==> url_serialization(input@) is Some,
        parsed matches Some(url) ==> url_serialization(input@) == Some(url.serialization@)
            && url_query_pairs(input@) == pairs_view(url.query_pairs@),
{
    match url::Url::parse(input) {
        Ok(url) => Some(
            ParsedUrl {
                serialization: url.as_str().to_owned(),
                query_pairs: url.query_pairs().map(|(k, v)| (k.into_owned(), v.into_owned())).collect(),
            },
        ),
        Err(_) => None,
    }
}

} // verus!
