use std::time::Duration;

use rustls_pki_types::pem::Error as PemError;
use rustls_pki_types::PrivateKeyDer;
use uxum::tls::{
    alpn_ids, CertificateChain, TlsAlpnProtocol, TlsConfig, TlsError, TlsIdentity,
};

fn pem(label: &str, body: &str) -> String {
    format!("-----BEGIN {label}-----\n{body}\n-----END {label}-----\n")
}

fn identity_from_pem(certs: &[u8], key: &[u8]) -> Result<TlsIdentity, TlsError> {
    CertificateChain::from_pem(certs)?.with_key_pem(key)
}

#[test]
fn default_tls_config() {
    let config = TlsConfig::new("cert.pem", "key.pem");
    assert_eq!(config.certificate, "cert.pem");
    assert_eq!(config.private_key, "key.pem");
    assert_eq!(config.handshake_timeout, Duration::from_secs(10));
    assert_eq!(
        config.alpn_protocols,
        vec![TlsAlpnProtocol::Http2, TlsAlpnProtocol::Http11]
    );
    assert_eq!(TlsAlpnProtocol::default(), TlsAlpnProtocol::Http11);
}

#[test]
fn protocol_ids() {
    assert_eq!(TlsAlpnProtocol::Http11.as_ref(), b"http/1.1");
    assert_eq!(TlsAlpnProtocol::Http2.as_ref(), b"h2");
    assert_eq!(
        alpn_ids(&vec![TlsAlpnProtocol::Http2, TlsAlpnProtocol::Http11]),
        vec![b"h2".to_vec(), b"http/1.1".to_vec()]
    );
}

#[test]
fn identity_is_read() {
    let certs = format!("{}{}", pem("CERTIFICATE", "AQID"), pem("CERTIFICATE", "BAUG"));
    let key = pem("PRIVATE KEY", "BwgJ");
    let Ok(identity) = identity_from_pem(certs.as_bytes(), key.as_bytes()) else {
        panic!("identity was not read");
    };
    let certs: Vec<&[u8]> = identity.certificates.iter().map(|cert| cert.as_ref()).collect();
    assert_eq!(certs, vec![&[1_u8, 2, 3][..], &[4, 5, 6][..]]);
    assert!(matches!(identity.private_key, PrivateKeyDer::Pkcs8(_)));
    assert_eq!(identity.private_key.secret_der(), &[7, 8, 9]);
}

#[test]
fn certificate_error_goes_first() {
    let broken = "-----BEGIN CERTIFICATE-----\nAQID\n";
    assert!(matches!(
        identity_from_pem(broken.as_bytes(), b""),
        Err(TlsError::Certificate(_))
    ));
}

#[test]
fn missing_private_key() {
    let certs = pem("CERTIFICATE", "AQID");
    assert!(matches!(
        identity_from_pem(certs.as_bytes(), certs.as_bytes()),
        Err(TlsError::PrivateKey(_))
    ));
    assert!(matches!(
        CertificateChain {
            certificates: Vec::new()
        }
        .with_read_key(Err(PemError::NoItemsFound)),
        Err(TlsError::PrivateKey(PemError::NoItemsFound))
    ));
    assert!(matches!(
        CertificateChain::from_read(Err(PemError::NoItemsFound)),
        Err(TlsError::Certificate(PemError::NoItemsFound))
    ));
    assert!(CertificateChain::from_read(Ok(Vec::new())).is_ok());
}
