use std::sync::Arc;

use gateway_tls::backend::{config_from_roots, webpki_config};
use gateway_tls::gateway_url::address_for;
use gateway_tls::{Backend, GatewayUrl, TlsContainer, TlsError, TlsErrorSource, TlsErrorType, TrustSource};
use tokio_tungstenite::Connector;

fn bundled() -> TlsContainer {
    match TlsContainer::new(Backend::Rustls(TrustSource::WebpkiRoots)) {
        Ok(container) => container,
        Err(e) => panic!("bundled roots failed: {:?}", e),
    }
}

fn rustls_config(handle: Connector) -> Arc<rustls::ClientConfig> {
    match handle {
        Connector::Rustls(config) => config,
        _ => panic!("expected a rustls handle"),
    }
}

fn err_of<T>(r: Result<T, TlsError>) -> TlsError {
    match r {
        Ok(_) => panic!("expected an error"),
        Err(e) => e,
    }
}

fn assert_shareable<T: Send + Sync + Clone + 'static>() {}

#[test]
fn container_is_send_sync_and_clone() {
    assert_shareable::<TlsContainer>();
}

#[test]
fn bundled_roots_construct_and_resolve() {
    let container = bundled();
    assert_eq!(container.backend(), Backend::Rustls(TrustSource::WebpkiRoots));
    let url = GatewayUrl::parse("https://gateway.example.com/");
    let (address, handle) = container.tls_domain(&url).unwrap();
    assert_eq!(address, "gateway.example.com:443");
    assert!(matches!(handle, Connector::Rustls(_)));
}

#[test]
fn address_ignores_url_port() {
    let container = bundled();
    for text in [
        "https://gateway.example.com",
        "wss://gateway.example.com:8443/?v=9&encoding=json",
        "https://gateway.example.com:443/",
    ] {
        let (address, _) = container.tls_domain(&GatewayUrl::parse(text)).unwrap();
        assert_eq!(address, "gateway.example.com:443");
    }
}

#[test]
fn ip_host_is_kept() {
    let container = bundled();
    let (address, _) = container.tls_domain(&GatewayUrl::parse("https://127.0.0.1:8080/")).unwrap();
    assert_eq!(address, "127.0.0.1:443");
}

#[test]
fn url_without_host_fails_with_no_domain() {
    let container = bundled();
    for text in ["/gateway/path", "not a url", "mailto:someone"] {
        let url = GatewayUrl::parse(text);
        assert_eq!(url.host(), None);
        let err = err_of(container.tls_domain(&url));
        assert_eq!(*err.kind(), TlsErrorType::NoDomain);
        let (kind, source) = err.into_parts();
        assert_eq!(kind, TlsErrorType::NoDomain);
        assert!(source.is_none());
    }
}

#[test]
fn no_domain_error_has_no_source() {
    let err = err_of(bundled().tls_domain(&GatewayUrl::from_host(None)));
    assert_eq!(err.message(), "URL provided by discord have no domain part");
    assert!(err.into_source().is_none());
}

#[test]
fn parse_reads_the_host() {
    let url = GatewayUrl::parse("https://gateway.example.com/path?q=1");
    assert_eq!(url.host(), Some("gateway.example.com"));
    let url = GatewayUrl::from_host(Some("example.org".to_string()));
    assert_eq!(url.host(), Some("example.org"));
}

#[test]
fn address_is_host_on_port_443() {
    assert_eq!(address_for("a"), "a:443");
    assert_eq!(address_for(""), ":443");
}

#[test]
fn clones_share_the_connector() {
    let container = bundled();
    let clone = container.clone();
    let url = GatewayUrl::parse("https://gateway.example.com/");
    let (a1, h1) = container.tls_domain(&url).unwrap();
    let (a2, h2) = clone.tls_domain(&url).unwrap();
    assert_eq!(a1, a2);
    assert!(Arc::ptr_eq(&rustls_config(h1), &rustls_config(h2)));
    assert_eq!(clone.backend(), container.backend());
}

#[test]
fn independent_containers_do_not_share_state() {
    let first = bundled();
    let second = bundled();
    let url = GatewayUrl::parse("https://gateway.example.com/");
    let (a1, h1) = first.tls_domain(&url).unwrap();
    let (a2, h2) = second.tls_domain(&url).unwrap();
    assert_eq!(a1, a2);
    assert!(!Arc::ptr_eq(&rustls_config(h1), &rustls_config(h2)));
    let other = GatewayUrl::parse("https://other.example.com/");
    assert_eq!(second.tls_domain(&other).unwrap().0, "other.example.com:443");
    assert_eq!(first.tls_domain(&url).unwrap().0, "gateway.example.com:443");
}

#[test]
fn native_backend_outcome_matches_contract() {
    match TlsContainer::new(Backend::Native) {
        Ok(container) => {
            assert_eq!(container.backend(), Backend::Native);
            let url = GatewayUrl::parse("https://gateway.example.com/");
            let (address, handle) = container.tls_domain(&url).unwrap();
            assert_eq!(address, "gateway.example.com:443");
            assert!(matches!(handle, Connector::NativeTls(_)));
        }
        Err(err) => {
            assert_eq!(*err.kind(), TlsErrorType::NativeTls);
            assert!(matches!(err.into_source(), Some(TlsErrorSource::NativeTls(_))));
        }
    }
}

#[test]
fn native_roots_outcome_matches_contract() {
    match TlsContainer::new(Backend::Rustls(TrustSource::NativeRoots)) {
        Ok(container) => {
            assert_eq!(container.backend(), Backend::Rustls(TrustSource::NativeRoots));
        }
        Err(err) => {
            assert_eq!(*err.kind(), TlsErrorType::NativeCerts);
            assert!(matches!(err.into_source(), Some(TlsErrorSource::Io(_))));
        }
    }
}

#[test]
fn failed_certificate_load_maps_to_native_certs() {
    let io = std::io::Error::new(std::io::ErrorKind::NotFound, "no certificate file");
    let err = err_of(TlsContainer::from_rustls(TrustSource::NativeRoots, Err(io)));
    assert_eq!(err.message(), "could not load native certificates");
    let (kind, source) = err.into_parts();
    assert_eq!(kind, TlsErrorType::NativeCerts);
    match source {
        Some(TlsErrorSource::Io(e)) => assert_eq!(e.kind(), std::io::ErrorKind::NotFound),
        _ => panic!("expected the I/O error as source"),
    }
}

#[test]
fn loaded_config_builds_portable_container() {
    let container =
        TlsContainer::from_rustls(TrustSource::NativeRoots, Ok(rustls::ClientConfig::new())).unwrap();
    assert_eq!(container.backend(), Backend::Rustls(TrustSource::NativeRoots));
    let (_, handle) = container.tls_domain(&GatewayUrl::parse("https://gateway.example.com/")).unwrap();
    assert!(matches!(handle, Connector::Rustls(_)));
}

#[test]
fn built_native_connector_builds_native_container() {
    if let Ok(connector) = native_tls::TlsConnector::new() {
        let container = TlsContainer::from_native(Ok(connector)).unwrap();
        assert_eq!(container.backend(), Backend::Native);
    }
}

#[test]
fn error_messages_per_type() {
    let native = TlsError::new(TlsErrorType::NativeTls, None);
    assert_eq!(native.message(), "construction of the nativetls connector failed");
    let certs = TlsError::new(TlsErrorType::NativeCerts, None);
    assert_eq!(certs.message(), "could not load native certificates");
}

fn bundled_count() -> usize {
    webpki_roots::TLS_SERVER_ROOTS.0.len()
}

#[test]
fn webpki_config_trusts_the_bundled_anchors() {
    let config = webpki_config();
    assert!(bundled_count() > 0);
    assert_eq!(config.root_store.len(), bundled_count());
}

#[test]
fn bundled_container_trusts_the_bundled_anchors() {
    let (_, handle) = bundled().tls_domain(&GatewayUrl::parse("https://gateway.example.com/")).unwrap();
    assert_eq!(rustls_config(handle).root_store.len(), bundled_count());
}

#[test]
fn loaded_store_becomes_the_root_store() {
    let mut store = rustls::RootCertStore::empty();
    store.add_server_trust_anchors(&webpki_roots::TLS_SERVER_ROOTS);
    let config = match config_from_roots(Ok(store)) {
        Ok(config) => config,
        Err(e) => panic!("unexpected error: {}", e),
    };
    assert_eq!(config.root_store.len(), bundled_count());
    let empty = match config_from_roots(Ok(rustls::RootCertStore::empty())) {
        Ok(config) => config,
        Err(e) => panic!("unexpected error: {}", e),
    };
    assert!(empty.root_store.is_empty());
}

#[test]
fn failed_load_is_handed_back() {
    let io = std::io::Error::new(std::io::ErrorKind::PermissionDenied, "unreadable");
    match config_from_roots(Err(io)) {
        Ok(_) => panic!("expected the load error"),
        Err(e) => assert_eq!(e.kind(), std::io::ErrorKind::PermissionDenied),
    }
}

#[test]
fn loaded_roots_build_portable_container() {
    let mut store = rustls::RootCertStore::empty();
    store.add_server_trust_anchors(&webpki_roots::TLS_SERVER_ROOTS);
    let container = TlsContainer::from_loaded_roots(Ok(store)).unwrap();
    assert_eq!(container.backend(), Backend::Rustls(TrustSource::NativeRoots));
    let (_, handle) = container.tls_domain(&GatewayUrl::parse("https://gateway.example.com/")).unwrap();
    assert_eq!(rustls_config(handle).root_store.len(), bundled_count());
}

#[test]
fn failed_load_builds_no_container() {
    let io = std::io::Error::new(std::io::ErrorKind::NotFound, "no certificate file");
    let err = err_of(TlsContainer::from_loaded_roots(Err(io)));
    assert_eq!(*err.kind(), TlsErrorType::NativeCerts);
    match err.into_source() {
        Some(TlsErrorSource::Io(e)) => assert_eq!(e.kind(), std::io::ErrorKind::NotFound),
        _ => panic!("expected the I/O error as source"),
    }
}

#[test]
fn two_bundled_containers_trust_the_same_count() {
    let url = GatewayUrl::parse("https://gateway.example.com/");
    let (_, h1) = bundled().tls_domain(&url).unwrap();
    let (_, h2) = bundled().tls_domain(&url).unwrap();
    let (c1, c2) = (rustls_config(h1), rustls_config(h2));
    assert_eq!(c1.root_store.len(), c2.root_store.len());
}
