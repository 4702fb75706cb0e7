use vstd::prelude::*;

verus! {

/// The failure taxonomy of the client. Every request-level failure is
/// surfaced to the caller as exactly one of these variants; the client never
/// retries and never panics on bad input.
#[derive(Clone, Copy, Debug, PartialEq, Eq, Structural)]
pub enum ClientError {
    /// The URI has no host component. Surfaced before any transport work.
    InvalidUri,
    /// Default construction of an unset configuration field failed.
    Config,
    /// The anonymous transport could not build a path or the remote refused.
    Transport,
    /// The TLS handshake over the established stream failed.
    Tls,
    /// The HTTP handshake, request framing, or exchange failed.
    Http,
}

} // verus!
