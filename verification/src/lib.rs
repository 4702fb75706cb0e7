//! An HTTP/1.1 client core whose every connection is routed through an
//! anonymity-preserving overlay network and, for the secure scheme, wrapped
//! in TLS before exactly one request/response exchange.
//!
//! This crate holds the verified decision logic of that pipeline: choosing
//! host, port and TLS from the target URI, sequencing the fallible transport
//! layers, defaulting the `Host` header without touching caller intent, and
//! building the configuration bundle. The outside work itself — the overlay
//! connection, the TLS handshake and the HTTP engine — is performed by a
//! driver that executes the actions this library decides on.

use vstd::prelude::*;

mod bytes;
pub mod config;
pub mod dispatch;
pub mod error;
pub mod headers;
pub mod request;
pub mod uri;

verus! {

/// The stream capability of the pipeline: an owned handle to something
/// readable and writable, under which the raw and the TLS-wrapped stream
/// unify into one value the HTTP engine can consume. The verified core
/// never reads or writes a stream itself — it only decides when one is
/// created, upgraded and abandoned — so the capability carries no
/// operations here; a driver erases its concrete transport streams behind
/// its executable counterpart of this trait.
pub trait AsyncReadWrite {

}

} // verus!
