//! The two TLS implementations a container can be built on, and the outside
//! calls that build their connectors.

use std::sync::Arc;
use vstd::prelude::*;

verus! {

#[verifier::external_type_specification]
#[verifier::external_body]
pub struct ExNativeTlsConnector(native_tls::TlsConnector);

#[verifier::external_type_specification]
#[verifier::external_body]
pub struct ExClientConfig(rustls::ClientConfig);

#[verifier::external_type_specification]
#[verifier::external_body]
pub struct ExRootCertStore(rustls::RootCertStore);

#[verifier::external_type_specification]
pub struct ExConnector(tokio_tungstenite::Connector);

/// Where the portable backend takes the certificate authorities it trusts from.
#[derive(Debug, Clone, Copy, PartialEq, Eq, Structural)]
pub enum TrustSource {
    /// The certificates installed on this machine.
    NativeRoots,
    /// The trust anchors bundled with `webpki-roots`.
    WebpkiRoots,
}

/// The TLS implementation a container is built on.
#[derive(Debug, Clone, Copy, PartialEq, Eq, Structural)]
pub enum Backend {
    /// The platform's TLS library, through `native-tls`.
    Native,
    /// `rustls`, trusting the given source of certificate authorities.
    Rustls(TrustSource),
}

/// A connector of either backend. The `rustls` configuration sits behind a
/// reference count, so that clones share it.
pub enum BackendConnector {
    /// A `native-tls` connector.
    Native(native_tls::TlsConnector),
    /// A shared `rustls` client configuration.
    Rustls(Arc<rustls::ClientConfig>),
}

/// Relies on `native_tls::TlsConnector::new`: builds a connector with the
/// default settings, or reports why the platform library could not.
pub assume_specification[ native_tls::TlsConnector::new ]() -> Result<native_tls::TlsConnector, native_tls::Error>;

/// Relies on the derived `Clone` of `native_tls::TlsConnector`: the copy
/// shares the OpenSSL context of the original and keeps its settings.
pub assume_specification[ <native_tls::TlsConnector as Clone>::clone ](c: &native_tls::TlsConnector) -> (r: native_tls::TlsConnector)
    ensures
        r == *c,
;

/// A trust anchor as plain values: the DER of its subject, of its public key
/// info, and of its name constraints where it has any.
pub type AnchorParts = (Seq<u8>, Seq<u8>, Option<Seq<u8>>);

/// The trust anchors of a `rustls` client configuration, in the order of its
/// root store.
pub uninterp spec fn trusted_roots(config: rustls::ClientConfig) -> Seq<AnchorParts>;

/// The trust anchors held by a `rustls` root store, in order.
pub uninterp spec fn store_roots(store: rustls::RootCertStore) -> Seq<AnchorParts>;

/// The anchors of a root store holding `roots` once the anchors of
/// `webpki_roots::TLS_SERVER_ROOTS` have been added to it.
pub uninterp spec fn with_webpki_roots(roots: Seq<AnchorParts>) -> Seq<AnchorParts>;

/// The anchors bundled with `webpki-roots`, in the order they are added.
pub open spec fn bundled_roots() -> Seq<AnchorParts> {
    with_webpki_roots(Seq::empty())
}

/// Relies on `rustls::ClientConfig::new`: a configuration whose root store
/// is `RootCertStore::empty()`.
pub assume_specification[ rustls::ClientConfig::new ]() -> (r: rustls::ClientConfig)
    ensures
        trusted_roots(r) == Seq::<AnchorParts>::empty(),
;

/// Relies on `rustls_native_certs::load_native_certs`: reads the platform's
/// certificate store, or reports the I/O error that stopped it. The partial
/// store handed back beside an error is dropped.
#[verifier::external_body]
pub(crate) fn load_native_roots() -> (r: Result<rustls::RootCertStore, std::io::Error>) {
    rustls_native_certs::load_native_certs().map_err(|(_, err)| err)
}

/// Relies on the public field `rustls::ClientConfig::root_store`: replaces the
/// certificate authorities that `config` trusts by those of `roots`.
#[verifier::external_body]
fn set_root_store(config: &mut rustls::ClientConfig, roots: rustls::RootCertStore)
    ensures
        trusted_roots(*final(config)) == store_roots(roots),
{
    config.root_store = roots;
}

/// Relies on `rustls::RootCertStore::add_server_trust_anchors`: pushes each
/// anchor of `webpki_roots::TLS_SERVER_ROOTS`, in order, after those that
/// `config` already trusts.
#[verifier::external_body]
fn add_webpki_roots(config: &mut rustls::ClientConfig)
    ensures
        trusted_roots(*final(config)) == with_webpki_roots(trusted_roots(*old(config))),
        trusted_roots(*final(config)) == trusted_roots(*old(config)) + with_webpki_roots(Seq::empty()),
{
    config.root_store.add_server_trust_anchors(&webpki_roots::TLS_SERVER_ROOTS);
}

/// Relies on `Arc::clone`: a second pointer to the same configuration.
#[verifier::external_body]
pub(crate) fn share_config(config: &Arc<rustls::ClientConfig>) -> (r: Arc<rustls::ClientConfig>)
    ensures
        r == *config,
{
    Arc::clone(config)
}

impl BackendConnector {
    /// The handle that the websocket layer dials with.
    pub open spec fn spec_handle(&self) -> tokio_tungstenite::Connector {
        match self {
            BackendConnector::Native(c) => tokio_tungstenite::Connector::NativeTls(*c),
            BackendConnector::Rustls(c) => tokio_tungstenite::Connector::Rustls(*c),
        }
    }

    /// A second handle to the same connector state.
    pub fn handle(&self) -> (r: tokio_tungstenite::Connector)
        ensures
            r == self.spec_handle(),
    {
        match self {
            BackendConnector::Native(c) => tokio_tungstenite::Connector::NativeTls(c.clone()),
            BackendConnector::Rustls(c) => tokio_tungstenite::Connector::Rustls(share_config(c)),
        }
    }
}

/// A `rustls` configuration trusting exactly the anchors of a loaded root
/// store; a failed load is handed back as it came.
pub fn config_from_roots(loaded: Result<rustls::RootCertStore, std::io::Error>) -> (r: Result<rustls::ClientConfig, std::io::Error>)
    ensures
        match loaded {
            Ok(store) => r matches Ok(config) && trusted_roots(config) == store_roots(store),
            Err(e) => r == Err::<rustls::ClientConfig, std::io::Error>(e),
        },
{
    match loaded {
        Ok(store) => {
            let mut config = rustls::ClientConfig::new();
            set_root_store(&mut config, store);
            Ok(config)
        },
        Err(e) => Err(e),
    }
}

/// A `rustls` configuration trusting exactly the anchors bundled with
/// `webpki-roots`.
pub fn webpki_config() -> (r: rustls::ClientConfig)
    ensures
        trusted_roots(r) == bundled_roots(),
{
    let mut config = rustls::ClientConfig::new();
    add_webpki_roots(&mut config);
    config
}

} // verus!
