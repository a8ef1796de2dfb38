//! A typed client library for a torrent daemon's HTTP control API.
//!
//! The library owns everything about a call except the transport: it
//! resolves endpoint URLs, renders query strings and request bodies byte for
//! byte, maps status codes to the closed error taxonomy, and reads JSON
//! responses into typed records. A caller (or the bundled asynchronous
//! transport) sends the requests and hands the responses back.

pub mod client;
pub mod error;
pub mod json;
pub mod models;
pub mod numtext;
pub mod urls;

pub use error::QBittorrentError;
pub use json::IntOrString;
pub use json::JsonObject;
pub use json::JsonValue;
