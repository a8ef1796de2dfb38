//! URL handling: resolving an endpoint path against the base URL, and the
//! two encodings that query-parameter values go through. The URL standard's
//! algorithms live in outside crates; everything here either calls them
//! through a trusted wrapper or names what they return.

use vstd::prelude::*;
use crate::error::QBittorrentError;

verus! {

/// Whether url::Url::parse accepts `s` as an absolute URL.
pub uninterp spec fn url_parses(s: Seq<char>) -> bool;

/// What url::Url::parse makes of `s`: the serialization of the parsed URL.
pub uninterp spec fn normalized_url(s: Seq<char>) -> Seq<char>;

/// Whether parsing `base` and resolving `rel` against it succeeds.
pub uninterp spec fn url_joins(base: Seq<char>, rel: Seq<char>) -> bool;

/// What resolving `rel` against the URL `base` yields, serialized.
pub uninterp spec fn joined_url(base: Seq<char>, rel: Seq<char>) -> Seq<char>;

/// The application/x-www-form-urlencoded encoding of a string's bytes.
pub uninterp spec fn form_encoded(s: Seq<char>) -> Seq<char>;

/// The percent-encoding of a string's bytes that keeps only alphanumerics
/// and `-`, `_`, `.`, `~`.
pub uninterp spec fn percent_encoded(s: Seq<char>) -> Seq<char>;

/// Relies on url::Url::parse: parses `s` as an absolute URL and serializes
/// the parsed form; whether the parse succeeds and what it yields both
/// depend on `s` alone.
#[verifier::external_body]
fn parse_url_raw(s: &str) -> (r: Result<String, String>)
    ensures
        r is Ok <==> url_parses(s@),
        r matches Ok(u) ==> u@ == normalized_url(s@),
{
    match url::Url::parse(s) {
        Ok(u) => Ok(String::from(u)),
        Err(e) => Err(format!("{}", e)),
    }
}

/// Relies on url::Url::parse and url::Url::join: resolves `rel` against
/// `base` by the URL standard and serializes the result; whether the two
/// steps succeed and what they yield all depend on the two arguments alone.
#[verifier::external_body]
fn join_url_raw(base: &str, rel: &str) -> (r: Result<String, String>)
    ensures
        r is Ok <==> url_joins(base@, rel@),
        r matches Ok(u) ==> u@ == joined_url(base@, rel@),
{
    match url::Url::parse(base) {
        Ok(b) => match b.join(rel) {
            Ok(u) => Ok(String::from(u)),
            Err(e) => Err(format!("{}", e)),
        },
        Err(e) => Err(format!("{}", e)),
    }
}

/// Relies on url::form_urlencoded::byte_serialize: the
/// application/x-www-form-urlencoded encoding of the string's bytes, which
/// depends on those bytes alone; a string with no bytes encodes to nothing.
#[verifier::external_body]
pub(crate) fn form_urlencode(s: &str) -> (r: String)
    ensures
        r@ == form_encoded(s@),
        s@.len() == 0 ==> r@.len() == 0,
{
    url::form_urlencoded::byte_serialize(s.as_bytes()).collect()
}

/// Relies on urlencoding::encode: percent-encodes every byte except
/// alphanumerics and `-`, `_`, `.`, `~`, a function of the string alone; a
/// string with no bytes encodes to nothing.
#[verifier::external_body]
pub(crate) fn percent_encode(s: &str) -> (r: String)
    ensures
        r@ == percent_encoded(s@),
        s@.len() == 0 ==> r@.len() == 0,
{
    urlencoding::encode(s).into_owned()
}

/// Checks that `s` parses as an absolute URL, and returns it serialized;
/// anything else is reported as a `Url` error.
pub fn validate_base_url(s: &str) -> (r: Result<String, QBittorrentError>)
    ensures
        r is Ok <==> url_parses(s@),
        r matches Ok(u) ==> u@ == normalized_url(s@),
        r is Err ==> r->Err_0 is Url,
{
    match parse_url_raw(s) {
        Ok(u) => Ok(u),
        Err(t) => Err(QBittorrentError::Url(t)),
    }
}

/// Resolves an endpoint path against the base URL; a base that does not
/// parse, or a join the URL standard rejects, is reported as a `Url` error.
pub fn build_url(base: &str, endpoint: &str) -> (r: Result<String, QBittorrentError>)
    ensures
        r is Ok <==> url_joins(base@, endpoint@),
        r matches Ok(u) ==> u@ == joined_url(base@, endpoint@),
        r is Err ==> r->Err_0 is Url,
{
    match join_url_raw(base, endpoint) {
        Ok(u) => Ok(u),
        Err(t) => Err(QBittorrentError::Url(t)),
    }
}

} // verus!
