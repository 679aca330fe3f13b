//! The TLS manager that every shard of a client shares.

use std::sync::Arc;
use vstd::prelude::*;

use crate::backend::{
    bundled_roots, config_from_roots, load_native_roots, store_roots, trusted_roots, webpki_config,
    AnchorParts, Backend, BackendConnector, TrustSource,
};
use crate::error::{TlsError, TlsErrorSource, TlsErrorType};
use crate::gateway_url::{address_for, tls_address, GatewayUrl};

verus! {

/// Holds the one connector of a client. Clones share that connector, so every
/// shard negotiates TLS with the same trust configuration.
pub struct TlsContainer {
    tls: BackendConnector,
    backend: Backend,
}

/// The error type that building a container on `backend` fails with.
pub open spec fn failure_kind(backend: Backend) -> TlsErrorType {
    match backend {
        Backend::Native => TlsErrorType::NativeTls,
        Backend::Rustls(_) => TlsErrorType::NativeCerts,
    }
}

/// What resolving a URL with host `url` against a container whose handle is
/// `handle` gives: the address to dial and the handle, or nothing where the
/// URL has no host.
pub open spec fn resolved(
    handle: tokio_tungstenite::Connector,
    url: Option<Seq<char>>,
) -> Option<(Seq<char>, tokio_tungstenite::Connector)> {
    match url {
        Some(host) => Some((tls_address(host), handle)),
        None => None,
    }
}

impl TlsContainer {
    #[verifier::type_invariant]
    closed spec fn connector_matches_backend(self) -> bool {
        (self.tls is Native) == (self.backend is Native)
    }

    /// The backend the container was built on.
    pub closed spec fn spec_backend(&self) -> Backend {
        self.backend
    }

    /// The handle that [`TlsContainer::tls_domain`] gives out.
    pub closed spec fn spec_handle(&self) -> tokio_tungstenite::Connector {
        self.tls.spec_handle()
    }

    /// The anchors the container trusts; `None` for the native backend, which
    /// takes them from the platform library.
    pub open spec fn spec_trusted_roots(&self) -> Option<Seq<AnchorParts>> {
        match self.spec_handle() {
            tokio_tungstenite::Connector::Rustls(config) => Some(trusted_roots(*config)),
            _ => None,
        }
    }

    /// Wraps the outcome of building a native-tls connector.
    pub fn from_native(built: Result<native_tls::TlsConnector, native_tls::Error>) -> (r: Result<TlsContainer, TlsError>)
        ensures
            match built {
                Ok(c) => r matches Ok(t) && t.spec_backend() == Backend::Native
                    && t.spec_handle() == tokio_tungstenite::Connector::NativeTls(c),
                Err(e) => r matches Err(err) && err.spec_kind() == TlsErrorType::NativeTls
                    && err.spec_source() == Some(TlsErrorSource::NativeTls(e)),
            },
    {
        match built {
            Ok(c) => Ok(TlsContainer { tls: BackendConnector::Native(c), backend: Backend::Native }),
            Err(e) => Err(TlsError::new(TlsErrorType::NativeTls, Some(TlsErrorSource::NativeTls(e)))),
        }
    }

    /// Wraps the outcome of building a `rustls` configuration trusting `source`.
    pub fn from_rustls(source: TrustSource, built: Result<rustls::ClientConfig, std::io::Error>) -> (r: Result<TlsContainer, TlsError>)
        ensures
            match built {
                Ok(c) => r matches Ok(t) && t.spec_backend() == Backend::Rustls(source)
                    && t.spec_handle() == tokio_tungstenite::Connector::Rustls(Arc::new(c)),
                Err(e) => r matches Err(err) && err.spec_kind() == TlsErrorType::NativeCerts
                    && err.spec_source() == Some(TlsErrorSource::Io(e)),
            },
    {
        match built {
            Ok(c) => Ok(TlsContainer { tls: BackendConnector::Rustls(Arc::new(c)), backend: Backend::Rustls(source) }),
            Err(e) => Err(TlsError::new(TlsErrorType::NativeCerts, Some(TlsErrorSource::Io(e)))),
        }
    }

    /// Builds a `rustls` container from the outcome of loading the platform's
    /// certificate store: it trusts exactly the loaded anchors, and a failed
    /// load is its cause.
    pub fn from_loaded_roots(loaded: Result<rustls::RootCertStore, std::io::Error>) -> (r: Result<TlsContainer, TlsError>)
        ensures
            match loaded {
                Ok(store) => r matches Ok(t) && t.spec_backend() == Backend::Rustls(TrustSource::NativeRoots)
                    && t.spec_trusted_roots() == Some(store_roots(store)),
                Err(e) => r matches Err(err) && err.spec_kind() == TlsErrorType::NativeCerts
                    && err.spec_source() == Some(TlsErrorSource::Io(e)),
            },
    {
        TlsContainer::from_rustls(TrustSource::NativeRoots, config_from_roots(loaded))
    }

    /// Builds the connector of `backend`. This reads no network; only the
    /// native backend and the platform certificate store can fail, with the
    /// error type of that backend and the underlying cause.
    pub fn new(backend: Backend) -> (r: Result<TlsContainer, TlsError>)
        ensures
            r matches Ok(t) ==> t.spec_backend() == backend,
            r matches Err(e) ==> e.spec_kind() == failure_kind(backend)
                && (e.spec_source() matches Some(cause) && (cause is NativeTls <==> backend is Native)),
            backend == Backend::Rustls(TrustSource::WebpkiRoots)
                ==> (r matches Ok(t) && t.spec_trusted_roots() == Some(bundled_roots())),
            backend == Backend::Rustls(TrustSource::NativeRoots) ==> (r matches Ok(t)
                ==> exists|store: rustls::RootCertStore| t.spec_trusted_roots() == Some(#[trigger] store_roots(store))),
            backend == Backend::Native ==> (r matches Ok(t) ==> t.spec_trusted_roots() is None),
    {
        match backend {
            Backend::Native => TlsContainer::from_native(native_tls::TlsConnector::new()),
            Backend::Rustls(TrustSource::NativeRoots) => TlsContainer::from_loaded_roots(load_native_roots()),
            Backend::Rustls(TrustSource::WebpkiRoots) => TlsContainer::from_rustls(TrustSource::WebpkiRoots, Ok(webpki_config())),
        }
    }

    /// The backend the container was built on.
    pub fn backend(&self) -> (r: Backend)
        ensures
            r == self.spec_backend(),
            r is Native <==> self.spec_handle() is NativeTls,
            r is Rustls <==> self.spec_handle() is Rustls,
    {
        proof {
            use_type_invariant(self);
        }
        self.backend
    }

    /// The address to dial for `url`, `"{host}:443"` whatever port the URL
    /// names, and a handle to the shared connector. Fails with
    /// [`TlsErrorType::NoDomain`], and no cause, where the URL has no host.
    pub fn tls_domain(&self, url: &GatewayUrl) -> (r: Result<(String, tokio_tungstenite::Connector), TlsError>)
        ensures
            match r {
                Ok((address, handle)) => resolved(self.spec_handle(), url@) == Some((address@, handle)),
                Err(e) => resolved(self.spec_handle(), url@) is None
                    && e.spec_kind() == TlsErrorType::NoDomain
                    && e.spec_source() is None,
            },
    {
        match url.host() {
            Some(host) => Ok((address_for(host), self.tls.handle())),
            None => Err(TlsError::new(TlsErrorType::NoDomain, None)),
        }
    }
}

impl Clone for TlsContainer {
    /// A second handle to the same connector.
    fn clone(&self) -> (r: TlsContainer)
        ensures
            r == *self,
    {
        proof {
            use_type_invariant(self);
        }
        let tls = match &self.tls {
            BackendConnector::Native(c) => BackendConnector::Native(c.clone()),
            BackendConnector::Rustls(c) => BackendConnector::Rustls(crate::backend::share_config(c)),
        };
        TlsContainer { tls, backend: self.backend }
    }
}

/// A clone of a container resolves every URL as the container itself does:
/// to the same address, and to a handle on the same connector, built on the
/// same backend.
pub proof fn lemma_clones_resolve_alike(a: TlsContainer, b: TlsContainer, url: GatewayUrl)
    requires
        vstd::pervasive::cloned(a, b),
    ensures
        b.spec_backend() == a.spec_backend(),
        b.spec_handle() == a.spec_handle(),
        resolved(b.spec_handle(), url@) == resolved(a.spec_handle(), url@),
{
}

/// Two containers built on the bundled anchors trust the same anchors: the
/// set that `webpki-roots` bundles, whatever else was built before.
pub proof fn lemma_bundled_containers_trust_alike(a: TlsContainer, b: TlsContainer)
    requires
        call_ensures(TlsContainer::new, (Backend::Rustls(TrustSource::WebpkiRoots),), Ok::<TlsContainer, TlsError>(a)),
        call_ensures(TlsContainer::new, (Backend::Rustls(TrustSource::WebpkiRoots),), Ok::<TlsContainer, TlsError>(b)),
    ensures
        a.spec_trusted_roots() == b.spec_trusted_roots(),
        a.spec_trusted_roots() == Some(bundled_roots()),
{
}

} // verus!
