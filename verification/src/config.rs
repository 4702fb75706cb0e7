use vstd::prelude::*;
use tokio_native_tls::native_tls;
use crate::error::ClientError;

verus! {

/// Declares native-tls's `TlsConnector` so a configuration can carry one;
/// the value is opaque to this crate.
#[verifier::external_type_specification]
#[verifier::external_body]
pub struct ExTlsConnector(native_tls::TlsConnector);

/// Declares native-tls's `Error` so default construction can report it;
/// the value is opaque to this crate.
#[verifier::external_type_specification]
#[verifier::external_body]
pub struct ExNativeTlsError(native_tls::Error);

/// Relies on `native_tls::TlsConnector::builder().build()`: a connector
/// with the builder's default settings, validating against the platform's
/// standard trust store, or the backend's error when that construction is
/// impossible.
#[verifier::external_body]
fn default_tls_connector() -> (r: Result<native_tls::TlsConnector, native_tls::Error>) {
    native_tls::TlsConnector::builder().build()
}

/// The routing settings this client reads: whether addresses in the
/// overlay network's hidden-service namespace may be resolved. The wrapped
/// routing client rejects them unless told otherwise, so the default here
/// enables them explicitly — a required override, not a convenience.
#[derive(Clone, Copy, Debug, PartialEq, Eq, Structural)]
pub struct RoutingConfig {
    /// Whether hidden-service addresses are resolved rather than rejected.
    pub allow_onion_addrs: bool,
}

impl Default for RoutingConfig {
    /// The default routing configuration: hidden-service address
    /// resolution is enabled.
    fn default() -> (r: Self)
        ensures
            r.allow_onion_addrs,
    {
        RoutingConfig { allow_onion_addrs: true }
    }
}

/// Immutable configuration bundle for a client: TLS connector settings and
/// routing settings. Both fields are always populated; unset fields are
/// defaulted once, inside `ClientConfigBuilder::build`.
pub struct ClientConfig {
    /// TLS configuration for secure-scheme connections.
    pub tls_config: native_tls::TlsConnector,
    /// Routing configuration for the anonymous transport.
    pub tor_config: RoutingConfig,
}

/// Staged builder for a `ClientConfig`: each field may be set once by the
/// caller; whatever is left unset is materialized in `build`, and nowhere
/// else.
pub struct ClientConfigBuilder {
    tls_config: Option<native_tls::TlsConnector>,
    tor_config: Option<RoutingConfig>,
}

impl ClientConfigBuilder {
    /// The staged TLS field.
    pub closed spec fn spec_tls_config(self) -> Option<native_tls::TlsConnector> {
        self.tls_config
    }

    /// The staged routing field.
    pub closed spec fn spec_tor_config(self) -> Option<RoutingConfig> {
        self.tor_config
    }

    /// An empty builder: both fields left for defaulting.
    pub fn new() -> (r: Self)
        ensures
            r.spec_tls_config() is None,
            r.spec_tor_config() is None,
    {
        ClientConfigBuilder { tls_config: None, tor_config: None }
    }

    /// Sets the TLS configuration, consuming and returning the builder.
    pub fn tls_config(self, tls_config: native_tls::TlsConnector) -> (r: Self)
        ensures
            r.spec_tls_config() == Some(tls_config),
            r.spec_tor_config() == self.spec_tor_config(),
    {
        ClientConfigBuilder { tls_config: Some(tls_config), ..self }
    }

    /// Sets the routing configuration, consuming and returning the builder.
    pub fn tor_config(self, tor_config: RoutingConfig) -> (r: Self)
        ensures
            r.spec_tor_config() == Some(tor_config),
            r.spec_tls_config() == self.spec_tls_config(),
    {
        ClientConfigBuilder { tor_config: Some(tor_config), ..self }
    }

    /// Materializes the configuration. Every field the caller set is taken
    /// verbatim; an unset routing field defaults with hidden-service
    /// addresses enabled. Fails with `ConfigError` only when the default
    /// TLS connector cannot be constructed — with both fields set, `build`
    /// always succeeds.
    pub fn build(self) -> (r: Result<ClientConfig, ClientError>)
        ensures
            self.spec_tls_config() is Some ==> r is Ok,
            r matches Ok(c) ==> {
                &&& (self.spec_tls_config() matches Some(t) ==> c.tls_config == t)
                &&& (self.spec_tor_config() matches Some(rc) ==> c.tor_config == rc)
                &&& (self.spec_tor_config() is None ==> c.tor_config.allow_onion_addrs)
            },
            r matches Err(e) ==> e == ClientError::Config && self.spec_tls_config() is None,
    {
        let tls_config = match self.tls_config {
            Some(t) => t,
            None => match default_tls_connector() {
                Ok(t) => t,
                Err(_) => {
                    return Err(ClientError::Config);
                },
            },
        };
        let tor_config = match self.tor_config {
            Some(c) => c,
            None => RoutingConfig::default(),
        };
        Ok(ClientConfig { tls_config, tor_config })
    }
}

} // verus!
