use vstd::prelude::*;
use crate::bytes::copy_bytes;
use crate::error::ClientError;

verus! {

/// Default port for the secure scheme.
pub const HTTPS_PORT: u16 = 443;
/// Default port for the plain scheme.
pub const HTTP_PORT: u16 = 80;

/// The parts of a target URI that the stream pipeline reads: the host, an
/// explicit port if one was written, whether the scheme is the secure
/// variant, and the raw authority component. Any scheme other than the
/// secure one is treated as plain.
#[derive(Debug)]
pub struct UriParts {
    /// Host component, absent when the URI has none.
    pub host: Option<Vec<u8>>,
    /// Explicit port, absent when the URI leaves it to the scheme.
    pub port: Option<u16>,
    /// Whether the scheme is the secure variant.
    pub secure: bool,
    /// The authority component, used to synthesize a `Host` header.
    pub authority: Vec<u8>,
}

/// The port a stream for this URI must be connected to: an explicit port
/// wins; otherwise the secure scheme implies 443 and any other scheme 80.
pub open spec fn spec_target_port(explicit: Option<u16>, secure: bool) -> u16 {
    match explicit {
        Some(p) => p,
        None => if secure { HTTPS_PORT } else { HTTP_PORT },
    }
}

/// Everything the transport layers need to build one stream: where to
/// connect and whether to wrap the raw stream in TLS afterwards.
#[derive(Debug)]
pub struct StreamPlan {
    /// Host to route the anonymous connection to.
    pub host: Vec<u8>,
    /// Port to connect to, after defaulting from the scheme.
    pub port: u16,
    /// Whether the raw stream must be upgraded to TLS.
    pub use_tls: bool,
}

/// What a correct plan for `uri` looks like: the URI's own host, the
/// explicit or scheme-defaulted port, and TLS exactly for the secure scheme.
pub open spec fn plan_matches(uri: UriParts, plan: StreamPlan) -> bool {
    &&& uri.host matches Some(h) && plan.host@ == h@
    &&& plan.port == spec_target_port(uri.port, uri.secure)
    &&& plan.use_tls == uri.secure
}

/// Computes the target port for a URI with the given explicit port and
/// scheme flag.
pub fn target_port(explicit: Option<u16>, secure: bool) -> (r: u16)
    ensures
        r == spec_target_port(explicit, secure),
{
    match explicit {
        Some(p) => p,
        None => if secure { HTTPS_PORT } else { HTTP_PORT },
    }
}

/// Decides where one stream for `uri` must go. Fails with `InvalidUri`
/// exactly when the URI has no host; otherwise the plan names that host, the
/// explicit or scheme-defaulted port, and TLS exactly for the secure scheme.
pub fn plan_stream(uri: &UriParts) -> (r: Result<StreamPlan, ClientError>)
    ensures
        r is Ok <==> uri.host is Some,
        r matches Err(e) ==> e == ClientError::InvalidUri && uri.host is None,
        r matches Ok(plan) ==> plan_matches(*uri, plan),
{
    match &uri.host {
        None => Err(ClientError::InvalidUri),
        Some(h) => Ok(StreamPlan {
            host: copy_bytes(h),
            port: target_port(uri.port, uri.secure),
            use_tls: uri.secure,
        }),
    }
}

} // verus!
