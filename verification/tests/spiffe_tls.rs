use std::time::Duration;

use spiffe::cert::error::CertificateError;
use spiffe::{SpiffeId, SpiffeIdError, TrustDomain};
use spiffe_rustls::Authorizer;
use url::Url;
use uxum::layers::ext::{ListenerInfo, ListenerProtocol};
use uxum::spiffe_tls::{
    AcceptError, CertificateIdentity, PeerAuthorizer, SpiffeAcceptorFuture, SpiffeAuthorize,
    SpiffeConfig, SpiffeError, SpiffeReconnectBackoff, SpiffeResourceLimits,
    SpiffeTrustDomainPolicy,
};
use uxum::tls::TlsAlpnProtocol;

/// Certificate with a SPIFFE ID.
const WITH_ID: [u8; 223] = [
    0x30, 0x81, 0xdc, 0x30, 0x81, 0x8f, 0xa0, 0x03, 0x02, 0x01, 0x02, 0x02,
    0x01, 0x01, 0x30, 0x05, 0x06, 0x03, 0x2b, 0x65, 0x70, 0x30, 0x00, 0x30,
    0x1e, 0x17, 0x0d, 0x32, 0x34, 0x30, 0x31, 0x30, 0x31, 0x30, 0x30, 0x30,
    0x30, 0x30, 0x30, 0x5a, 0x17, 0x0d, 0x34, 0x34, 0x30, 0x31, 0x30, 0x31,
    0x30, 0x30, 0x30, 0x30, 0x30, 0x30, 0x5a, 0x30, 0x00, 0x30, 0x2a, 0x30,
    0x05, 0x06, 0x03, 0x2b, 0x65, 0x70, 0x03, 0x21, 0x00, 0xc8, 0xf2, 0xc0,
    0x20, 0x5f, 0x83, 0x57, 0x63, 0xe9, 0xdf, 0x91, 0x95, 0x65, 0xca, 0x2b,
    0xdb, 0x57, 0x36, 0x2c, 0xa5, 0x51, 0x3d, 0xc5, 0x3b, 0x45, 0x9e, 0x6f,
    0xf7, 0x37, 0x97, 0x92, 0x69, 0xa3, 0x2e, 0x30, 0x2c, 0x30, 0x2a, 0x06,
    0x03, 0x55, 0x1d, 0x11, 0x01, 0x01, 0xff, 0x04, 0x20, 0x30, 0x1e, 0x86,
    0x1c, 0x73, 0x70, 0x69, 0x66, 0x66, 0x65, 0x3a, 0x2f, 0x2f, 0x65, 0x78,
    0x61, 0x6d, 0x70, 0x6c, 0x65, 0x2e, 0x6f, 0x72, 0x67, 0x2f, 0x73, 0x65,
    0x72, 0x76, 0x69, 0x63, 0x65, 0x30, 0x05, 0x06, 0x03, 0x2b, 0x65, 0x70,
    0x03, 0x41, 0x00, 0xb1, 0x10, 0x8a, 0x00, 0x49, 0x82, 0x5b, 0x5e, 0x11,
    0x98, 0x2f, 0x3b, 0x66, 0xa1, 0xbd, 0xa3, 0x08, 0x21, 0x30, 0xa4, 0xeb,
    0xbd, 0xb4, 0x7d, 0x75, 0x5b, 0x1e, 0xd7, 0x4f, 0x60, 0x8a, 0xcf, 0x31,
    0x74, 0xad, 0x5f, 0xef, 0x0a, 0xb6, 0xfc, 0x59, 0x69, 0xff, 0x0b, 0xbd,
    0x7d, 0xd8, 0x29, 0xe7, 0x60, 0xaa, 0x8f, 0x2c, 0xec, 0xbe, 0x88, 0x07,
    0x17, 0x31, 0xc6, 0x0b, 0x59, 0xe2, 0x01,
];

/// Certificate without one.
const WITHOUT_ID: [u8; 205] = [
    0x30, 0x81, 0xca, 0x30, 0x7e, 0xa0, 0x03, 0x02, 0x01, 0x02, 0x02, 0x01,
    0x01, 0x30, 0x05, 0x06, 0x03, 0x2b, 0x65, 0x70, 0x30, 0x00, 0x30, 0x1e,
    0x17, 0x0d, 0x32, 0x34, 0x30, 0x31, 0x30, 0x31, 0x30, 0x30, 0x30, 0x30,
    0x30, 0x30, 0x5a, 0x17, 0x0d, 0x34, 0x34, 0x30, 0x31, 0x30, 0x31, 0x30,
    0x30, 0x30, 0x30, 0x30, 0x30, 0x5a, 0x30, 0x00, 0x30, 0x2a, 0x30, 0x05,
    0x06, 0x03, 0x2b, 0x65, 0x70, 0x03, 0x21, 0x00, 0xdd, 0x21, 0x50, 0x5a,
    0x1e, 0x3b, 0x3b, 0x43, 0x29, 0xbc, 0xb4, 0x9d, 0x44, 0xf3, 0x7f, 0xd1,
    0x3f, 0xc2, 0x4a, 0xcf, 0x68, 0x6f, 0x56, 0xc9, 0xfb, 0xaa, 0x94, 0xa2,
    0x0e, 0xa6, 0x9f, 0xff, 0xa3, 0x1d, 0x30, 0x1b, 0x30, 0x19, 0x06, 0x03,
    0x55, 0x1d, 0x11, 0x01, 0x01, 0xff, 0x04, 0x0f, 0x30, 0x0d, 0x82, 0x0b,
    0x65, 0x78, 0x61, 0x6d, 0x70, 0x6c, 0x65, 0x2e, 0x6f, 0x72, 0x67, 0x30,
    0x05, 0x06, 0x03, 0x2b, 0x65, 0x70, 0x03, 0x41, 0x00, 0x6f, 0x6c, 0xb2,
    0x0e, 0x5c, 0xb2, 0x8f, 0xe0, 0x05, 0x76, 0x40, 0x8b, 0x6c, 0x5c, 0x40,
    0x35, 0x70, 0x33, 0x34, 0xfe, 0x1e, 0x39, 0xa4, 0x54, 0xad, 0x18, 0xf5,
    0xa6, 0xa7, 0x34, 0x7b, 0xe2, 0x1f, 0x89, 0xde, 0x5c, 0x92, 0xba, 0x00,
    0x69, 0xaf, 0x0f, 0xe6, 0xa9, 0x84, 0x53, 0x0a, 0xf9, 0x0d, 0x96, 0x9f,
    0xf1, 0x76, 0x16, 0xb7, 0x36, 0xd3, 0xba, 0x16, 0xc7, 0xb8, 0xd4, 0x12,
    0x07,
];

fn strings(texts: &[&str]) -> Vec<String> {
    texts.iter().map(|text| text.to_string()).collect()
}

fn domain(name: &str) -> TrustDomain {
    TrustDomain::new(name).unwrap()
}

fn settings(config: &SpiffeConfig) -> String {
    match config.build_source(Ok(())) {
        Ok(builder) => format!("{builder:?}"),
        Err(err) => err.message(),
    }
}

#[test]
fn default_spiffe_config() {
    let config = SpiffeConfig::default();
    assert_eq!(
        config.workload_api.as_ref().map(Url::as_str),
        Some("unix:///tmp/spire-agent/public/api.sock")
    );
    assert_eq!(config.handshake_timeout, Duration::from_secs(10));
    assert_eq!(
        config.alpn_protocols,
        vec![TlsAlpnProtocol::Http2, TlsAlpnProtocol::Http11]
    );
    assert_eq!(config.authorize, SpiffeAuthorize::Any);
    assert_eq!(config.trust_domain_policy, SpiffeTrustDomainPolicy::AnyInBundleSet);
    assert!(config.limits.is_none() && config.reconnect.is_none());
    assert!(config.initial_sync_timeout.is_none() && config.shutdown_timeout.is_none());
}

#[test]
fn source_of_default_config() {
    let text = settings(&SpiffeConfig::default());
    assert!(text.contains("endpoint: Some"), "{text}");
    assert!(text.contains("max_svids: Some(100)"), "{text}");
    assert!(text.contains("max_bundles: Some(200)"), "{text}");
    assert!(text.contains("max_bundle_der_bytes: Some(4194304)"), "{text}");
    assert!(text.contains("min_backoff: 200ms"), "{text}");
    assert!(text.contains("max_backoff: 10s"), "{text}");
    assert!(text.contains("shutdown_timeout: Some(30s)"), "{text}");
    assert!(text.contains("initial_sync_timeout: None"), "{text}");
}

#[test]
fn source_of_custom_config() {
    let config = SpiffeConfig {
        limits: Some(SpiffeResourceLimits {
            max_svids: Some(1),
            max_bundles: None,
            max_bundle_der_bytes: Some(3),
        }),
        initial_sync_timeout: Some(Duration::from_secs(4)),
        shutdown_timeout: Some(Duration::from_secs(5)),
        reconnect: Some(SpiffeReconnectBackoff {
            min_backoff: Duration::from_secs(6),
            max_backoff: Duration::from_secs(7),
        }),
        ..SpiffeConfig::default()
    };
    let text = settings(&config);
    assert!(text.contains("max_svids: Some(1)"), "{text}");
    assert!(text.contains("max_bundles: None"), "{text}");
    assert!(text.contains("max_bundle_der_bytes: Some(3)"), "{text}");
    assert!(text.contains("min_backoff: 6s"), "{text}");
    assert!(text.contains("max_backoff: 7s"), "{text}");
    assert!(text.contains("shutdown_timeout: Some(5s)"), "{text}");
    assert!(text.contains("initial_sync_timeout: Some(4s)"), "{text}");
}

#[test]
fn endpoint_comes_from_config_or_environment() {
    let missing = || Err("environment variable not found".to_string());
    assert!(SpiffeConfig::default().build_source(missing()).is_ok());
    let config = SpiffeConfig {
        workload_api: None,
        ..SpiffeConfig::default()
    };
    assert!(settings(&config).contains("endpoint: None"));
    match config.build_source(missing()) {
        Err(err) => assert_eq!(
            err.message(),
            "Cannot find SPIFFE workload API endpoint: environment variable not found"
        ),
        Ok(_) => panic!("there is no endpoint"),
    }
}

#[test]
fn resource_limits() {
    let limits = SpiffeResourceLimits {
        max_svids: Some(1),
        max_bundles: Some(2),
        max_bundle_der_bytes: None,
    }
    .to_limits();
    assert_eq!(limits.max_svids, Some(1));
    assert_eq!(limits.max_bundles, Some(2));
    assert_eq!(limits.max_bundle_der_bytes, None);
}

#[test]
fn authorizers() {
    assert!(matches!(SpiffeAuthorize::default().authorizer(), Ok(PeerAuthorizer::Any)));
    let service = SpiffeId::new("spiffe://example.org/service").unwrap();
    let other = SpiffeId::new("spiffe://example.org/other").unwrap();
    let stranger = SpiffeId::new("spiffe://stranger.org/service").unwrap();
    let exact = SpiffeAuthorize::Exact {
        spiffe_ids: strings(&["spiffe://example.org/service"]),
    };
    let Ok(PeerAuthorizer::Exact(exact)) = exact.authorizer() else {
        panic!("not an exact authorizer");
    };
    assert!(exact.authorize(&service));
    assert!(!exact.authorize(&other));
    let domains = SpiffeAuthorize::TrustDomains {
        trust_domains: strings(&["example.org"]),
    };
    let Ok(PeerAuthorizer::TrustDomains(domains)) = domains.authorizer() else {
        panic!("not a trust domain authorizer");
    };
    assert!(domains.authorize(&service));
    assert!(domains.authorize(&other));
    assert!(!domains.authorize(&stranger));
}

#[test]
fn invalid_authorizers() {
    let exact = SpiffeAuthorize::Exact {
        spiffe_ids: strings(&["nonsense"]),
    };
    assert!(exact.authorizer().is_err());
    let domains = SpiffeAuthorize::TrustDomains {
        trust_domains: strings(&["Invalid@Domain"]),
    };
    assert!(domains.authorizer().is_err());
}

#[test]
fn trust_domain_policies() {
    let any = SpiffeTrustDomainPolicy::default().policy().unwrap();
    assert!(any.allows(&domain("anything.org")));
    let local = SpiffeTrustDomainPolicy::LocalOnly {
        domain: "example.org".to_string(),
    };
    let local = local.policy().unwrap();
    assert!(local.allows(&domain("example.org")));
    assert!(!local.allows(&domain("other.org")));
    let list = SpiffeTrustDomainPolicy::AllowList {
        domains: strings(&["example.org", "other.org", "example.org"]),
    };
    let list = list.policy().unwrap();
    assert!(list.allows(&domain("example.org")));
    assert!(list.allows(&domain("other.org")));
    assert!(!list.allows(&domain("third.org")));
}

#[test]
fn invalid_trust_domain_policies() {
    let local = SpiffeTrustDomainPolicy::LocalOnly {
        domain: String::new(),
    };
    assert_eq!(local.policy().unwrap_err(), SpiffeIdError::MissingTrustDomain);
    let list = SpiffeTrustDomainPolicy::AllowList {
        domains: strings(&["example.org", "http://x", "", "other.org"]),
    };
    assert_eq!(list.policy().unwrap_err(), SpiffeIdError::WrongScheme);
    let empty = SpiffeTrustDomainPolicy::AllowList {
        domains: Vec::new(),
    };
    assert!(!empty.policy().unwrap().allows(&domain("example.org")));
}

#[test]
fn rustls_settings_and_their_errors() {
    let mut config = SpiffeConfig::default();
    let Ok(settings) = config.rustls_settings() else {
        panic!("default settings are invalid");
    };
    assert!(matches!(settings.authorizer, PeerAuthorizer::Any));
    assert!(settings.trust_domain_policy.allows(&domain("example.org")));
    assert_eq!(settings.alpn_protocols, vec![b"h2".to_vec(), b"http/1.1".to_vec()]);
    config.trust_domain_policy = SpiffeTrustDomainPolicy::LocalOnly {
        domain: String::new(),
    };
    match config.rustls_settings() {
        Err(err @ SpiffeError::Id(_)) => {
            assert_eq!(err.message(), "Invalid SPIFFE ID: trust domain is missing")
        }
        _ => panic!("trust domain policy is invalid"),
    }
    config.authorize = SpiffeAuthorize::Exact {
        spiffe_ids: strings(&["nonsense"]),
    };
    match config.rustls_settings() {
        Err(err @ SpiffeError::Rustls(_)) => {
            assert!(err.message().starts_with("Error setting up SPIFFE TLS config: "))
        }
        _ => panic!("authorizer is invalid"),
    }
    assert_eq!(
        SpiffeError::Source("x".to_string()).message(),
        "Error setting up SPIFFE X.509 source: x"
    );
}

#[test]
fn peer_with_an_identity() {
    let mut future = SpiffeAcceptorFuture::new(ListenerInfo::new_spiffe(1));
    let Ok(extensions) = future.complete(Some(&WITH_ID)) else {
        panic!("connection was not accepted");
    };
    assert_eq!(
        extensions.peer_identity.spiffe_id().map(ToString::to_string),
        Some("spiffe://example.org/service".to_string())
    );
    assert_eq!(extensions.listener_info.protocol, ListenerProtocol::HttpsSpiffe);
    assert_eq!(extensions.listener_info.local_addr, 1);
}

#[test]
fn peer_without_an_identity() {
    for leaf in [None, Some(&WITHOUT_ID[..])] {
        let mut future = SpiffeAcceptorFuture::new(ListenerInfo::new_spiffe(1));
        let Ok(extensions) = future.complete(leaf) else {
            panic!("connection was not accepted");
        };
        assert!(extensions.peer_identity.spiffe_id().is_none());
    }
    let mut future = SpiffeAcceptorFuture::new(ListenerInfo::new_spiffe(1));
    let Ok(extensions) = future.complete_with(Some(CertificateIdentity::Multiple)) else {
        panic!("connection was not accepted");
    };
    assert!(extensions.peer_identity.spiffe_id().is_none());
}

#[test]
fn unreadable_certificate() {
    let mut future = SpiffeAcceptorFuture::new(ListenerInfo::new_spiffe(1));
    match future.complete(Some(&[1, 2, 3])) {
        Err(err @ AcceptError::Certificate(_)) => {
            assert_eq!(err.message(), "failed parsing X.509 certificate")
        }
        _ => panic!("certificate is invalid"),
    }
    // Listener information is still there.
    assert!(future.complete(None).is_ok());
}

#[test]
fn connection_is_accepted_once() {
    let mut future = SpiffeAcceptorFuture::new(ListenerInfo::new_spiffe(1));
    let id = SpiffeId::new("spiffe://example.org/a").unwrap();
    let found = CertificateIdentity::Found(id.clone());
    let Ok(extensions) = future.complete_with(Some(found)) else {
        panic!("connection was not accepted");
    };
    assert_eq!(extensions.peer_identity.spiffe_id(), Some(&id));
    match future.complete(None) {
        Err(err @ AcceptError::NoListenerInfo) => assert_eq!(err.message(), "no listener info"),
        _ => panic!("listener information is used up"),
    }
    let invalid = CertificateIdentity::Invalid(CertificateError::MultipleUriSanEntries);
    assert!(matches!(
        future.complete_with(Some(invalid)),
        Err(AcceptError::Certificate(CertificateError::MultipleUriSanEntries))
    ));
}
