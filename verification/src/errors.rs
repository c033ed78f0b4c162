//! The error types of the library: engine-configuration and proxy-switch
//! failures, share-link parse and generation failures, and assembly with no
//! outbound.

use vstd::prelude::*;

verus! {

/// A failure around the engine's configuration or its process: the message
/// and a numeric code (`-1` for a command that could not be run).
#[derive(Debug, Clone)]
pub struct CoreConfigError {
    pub msg: String,
    pub code: i64,
}

/// A failure while switching the active proxy, such as an unsupported
/// proxy type.
#[derive(Debug, Clone)]
pub struct ProxySwitchError {
    pub msg: String,
}

/// Assembly was asked to build an engine document with no outbound at all:
/// such a document could route no traffic and is rejected.
#[derive(Debug, Clone, PartialEq, Eq, Structural)]
pub struct EmptyOutboundError {}

/// What went wrong while reading a share link.
#[derive(Debug, Clone, Copy, PartialEq, Eq, Structural)]
pub enum ParseLinkErrorCode {
    /// The Base64 payload could not be decoded.
    Base64Error,
    /// No `vmess://` marker was found in the link.
    LinkError,
    /// The decoded payload was not a well-formed link descriptor.
    JsonEror,
}

/// A share-link parse failure: the causing detail and its category.
#[derive(Debug, Clone)]
pub struct ParseLinkError {
    pub msg: String,
    pub code: ParseLinkErrorCode,
}

/// A share-link generation failure: the causing detail and a numeric code
/// (`4` when the entry is structurally incomplete, such as an empty server
/// or user list).
#[derive(Debug, Clone)]
pub struct GenerateLinkError {
    pub msg: String,
    pub code: i32,
}

} // verus!
