//! The closed error taxonomy of the client: authentication failures, generic
//! bad requests, bad identifiers, malformed URLs, unparsable numeric
//! responses, and transport failures reported by the HTTP layer.

use vstd::prelude::*;

verus! {

/// Everything that can go wrong in a client call.
///
/// `ParseInt` carries the response text that failed to parse as an unsigned
/// decimal number; `BadInput` carries a description of the rejected input;
/// `Url` carries the parse error's description; `Reqwest` carries the
/// transport error's description.
#[derive(Debug, Clone)]
pub enum QBittorrentError {
    AuthFailed,
    BadRequest,
    ParseInt(String),
    BadInput(String),
    Url(String),
    Reqwest(String),
}

/// The human-readable description of an error, one fixed phrase per variant,
/// followed by the variant's detail text where it has one.
pub open spec fn spec_message(e: QBittorrentError) -> Seq<char> {
    match e {
        QBittorrentError::AuthFailed => "failed to log in"@,
        QBittorrentError::BadRequest => "bad request http error occured"@,
        QBittorrentError::ParseInt(t) => "failed to parse integer: "@ + t@,
        QBittorrentError::BadInput(t) => "bad input error occured: "@ + t@,
        QBittorrentError::Url(t) => "url error occured: "@ + t@,
        QBittorrentError::Reqwest(t) => "reqwest error occured: "@ + t@,
    }
}

impl QBittorrentError {
    /// Renders the error as text.
    pub fn message(&self) -> (r: String)
        ensures
            r@ == spec_message(*self),
    {
        match self {
            QBittorrentError::AuthFailed => String::from_str("failed to log in"),
            QBittorrentError::BadRequest => String::from_str("bad request http error occured"),
            QBittorrentError::ParseInt(t) => String::from_str("failed to parse integer: ").concat(
                t.as_str(),
            ),
            QBittorrentError::BadInput(t) => String::from_str("bad input error occured: ").concat(
                t.as_str(),
            ),
            QBittorrentError::Url(t) => String::from_str("url error occured: ").concat(t.as_str()),
            QBittorrentError::Reqwest(t) => String::from_str("reqwest error occured: ").concat(
                t.as_str(),
            ),
        }
    }
}

} // verus!
