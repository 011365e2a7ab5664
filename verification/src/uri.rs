//! URI parsing, done by the `url` crate.
//!
//! Everything in this module is taken on trust from that crate: the parser is
//! called, not re-derived. The rest of the library reasons about its answers
//! through the three names below.

use url::Url;
use vstd::prelude::*;

verus! {

/// The error type of `url::Url::parse`. Its value is never inspected.
#[verifier::external_type_specification]
#[verifier::external_body]
pub struct ExParseError(url::ParseError);

/// The two components of a parsed URI that discovery reads.
#[derive(Debug, PartialEq, Eq)]
pub struct UriParts {
    /// The scheme, without the `:` that ends it.
    pub scheme: String,
    /// The path: for a URI without an authority, all that follows the `:` up
    /// to a query or fragment.
    pub path: String,
}

/// Whether `url::Url::parse` accepts `input` as an absolute URL.
pub uninterp spec fn uri_parses(input: Seq<char>) -> bool;

/// What `url::Url::scheme` returns for the URL parsed from `input`.
pub uninterp spec fn uri_scheme(input: Seq<char>) -> Seq<char>;

/// What `url::Url::path` returns for the URL parsed from `input`.
pub uninterp spec fn uri_path(input: Seq<char>) -> Seq<char>;

/// Calls `url::Url::parse` on `input` and, where it succeeds, copies out what
/// `Url::scheme` and `Url::path` return for the parsed URL.
///
/// Trusted: the contract only names these results. It claims that parsing is a
/// function of the input text alone, and nothing about what the scheme or path
/// of any particular input is.
#[verifier::external_body]
pub(crate) fn parse_uri(input: &str) -> (parsed: Result<UriParts, url::ParseError>)
    ensures
        parsed is Ok <==> uri_parses(input@),
        parsed matches Ok(parts) ==> parts.scheme@ == uri_scheme(input@) && parts.path@
            == uri_path(input@),
{
    match Url::parse(input) {
        Ok(url) => Ok(UriParts { scheme: url.scheme().to_owned(), path: url.path().to_owned() }),
        Err(e) => Err(e),
    }
}

} // verus!
