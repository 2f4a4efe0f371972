//! TLS support types and utilities.

use std::time::Duration;

use rustls_pki_types::pem::{Error as PemError, PemObject};
use rustls_pki_types::{CertificateDer, PrivateKeyDer};
use vstd::prelude::*;
#[allow(unused_imports)]
use vstd::utf8::is_ascii_chars_encode_utf8;

#[allow(unused_imports)]
use crate::time::duration_nanos;

verus! {

/// Certificate in DER encoding.
#[verifier::external_type_specification]
#[verifier::external_body]
pub struct ExCertificateDer<'a>(CertificateDer<'a>);

/// Private key in DER encoding.
#[verifier::external_type_specification]
#[verifier::external_body]
pub struct ExPrivateKeyDer<'a>(PrivateKeyDer<'a>);

/// Error of reading PEM data.
#[verifier::external_type_specification]
#[verifier::external_body]
pub struct ExPemError(PemError);

/// Certificates of PEM data, as `CertificateDer::pem_slice_iter` finds them, or the first error.
pub uninterp spec fn pem_certificates(pem: Seq<u8>) -> Result<
    Seq<CertificateDer<'static>>,
    PemError,
>;

/// First private key of PEM data, as `PrivateKeyDer::from_pem_slice` finds it, or an error.
pub uninterp spec fn pem_private_key(pem: Seq<u8>) -> Result<PrivateKeyDer<'static>, PemError>;

/// `CertificateDer::pem_slice_iter` goes over certificates of PEM data in order. They are
/// collected up to the first error. The result is a function of the data.
#[verifier::external_body]
fn certificates(pem: &[u8]) -> (res: Result<Vec<CertificateDer<'static>>, PemError>)
    ensures
        pem_certificates(pem@) == match res {
            Ok(certificates) => Ok(certificates@),
            Err(err) => Err(err),
        },
{
    CertificateDer::pem_slice_iter(pem).collect()
}

/// `PrivateKeyDer::from_pem_slice` finds the first private key of PEM data. The result is a
/// function of the data.
#[verifier::external_body]
fn private_key(pem: &[u8]) -> (res: Result<PrivateKeyDer<'static>, PemError>)
    ensures
        res == pem_private_key(pem@),
{
    PrivateKeyDer::from_pem_slice(pem)
}

/// Protocol to consider for negotiation using TLS ALPN.
#[derive(Clone, Copy, Debug, PartialEq, Eq, Structural)]
pub enum TlsAlpnProtocol {
    /// HTTP/1.1.
    Http11,
    /// HTTP/2. Required for gRPC.
    Http2,
}

impl Default for TlsAlpnProtocol {
    fn default() -> (res: Self)
        ensures
            res == TlsAlpnProtocol::Http11,
    {
        TlsAlpnProtocol::Http11
    }
}

impl TlsAlpnProtocol {
    /// Protocol ID, as it is sent during negotiation: `http/1.1` or `h2`.
    pub open spec fn id(self) -> Seq<u8> {
        match self {
            TlsAlpnProtocol::Http11 => seq![
                0x68u8,
                0x74u8,
                0x74u8,
                0x70u8,
                0x2fu8,
                0x31u8,
                0x2eu8,
                0x31u8,
            ],
            TlsAlpnProtocol::Http2 => seq![0x68u8, 0x32u8],
        }
    }
}

impl AsRef<[u8]> for TlsAlpnProtocol {
    fn as_ref(&self) -> (res: &[u8])
        ensures
            res@ == self.id(),
    {
        proof {
            reveal_strlit("http/1.1");
            reveal_strlit("h2");
            is_ascii_chars_encode_utf8("http/1.1"@);
            is_ascii_chars_encode_utf8("h2"@);
        }
        match self {
            TlsAlpnProtocol::Http11 => "http/1.1".as_bytes(),
            TlsAlpnProtocol::Http2 => "h2".as_bytes(),
        }
    }
}

/// Protocol IDs, as they are sent during negotiation, in order of preference.
pub fn alpn_ids(protocols: &Vec<TlsAlpnProtocol>) -> (ids: Vec<Vec<u8>>)
    ensures
        ids@.len() == protocols@.len(),
        forall|i: int| 0 <= i < ids@.len() ==> (#[trigger] ids@[i])@ == protocols@[i].id(),
{
    let mut ids: Vec<Vec<u8>> = Vec::new();
    for i in 0..protocols.len()
        invariant
            ids@.len() == i,
            forall|j: int| 0 <= j < i ==> (#[trigger] ids@[j])@ == protocols@[j].id(),
    {
        ids.push(vstd::slice::slice_to_vec(protocols[i].as_ref()));
    }
    ids
}

/// Error of TLS configuration.
pub enum TlsError {
    /// Certificate or certificate chain cannot be read.
    Certificate(PemError),
    /// Private key cannot be read.
    PrivateKey(PemError),
}

/// Certificate chain that a server authenticates itself with.
pub struct CertificateChain {
    /// Certificates, beginning with that of the server.
    pub certificates: Vec<CertificateDer<'static>>,
}

/// What a server authenticates itself with.
pub struct TlsIdentity {
    /// Certificates, beginning with that of the server.
    pub certificates: Vec<CertificateDer<'static>>,
    /// Private key of the first certificate.
    pub private_key: PrivateKeyDer<'static>,
}

impl CertificateChain {
    /// Take a certificate chain that was read.
    ///
    /// # Errors
    ///
    /// Returns `Err` if it could not be read.
    pub fn from_read(certificates: Result<Vec<CertificateDer<'static>>, PemError>) -> (res: Result<
        Self,
        TlsError,
    >)
        ensures
            res == match certificates {
                Ok(certificates) => Ok(CertificateChain { certificates }),
                Err(err) => Err(TlsError::Certificate(err)),
            },
    {
        match certificates {
            Ok(certificates) => Ok(CertificateChain { certificates }),
            Err(err) => Err(TlsError::Certificate(err)),
        }
    }

    /// Read a certificate chain in PEM format.
    ///
    /// # Errors
    ///
    /// Returns `Err` if it cannot be read.
    pub fn from_pem(pem: &[u8]) -> (res: Result<Self, TlsError>)
        ensures
            match pem_certificates(pem@) {
                Ok(certificates) => res is Ok && res->Ok_0.certificates@ == certificates,
                Err(err) => res == Err::<Self, TlsError>(TlsError::Certificate(err)),
            },
    {
        CertificateChain::from_read(certificates(pem))
    }

    /// Add a private key that was read.
    ///
    /// # Errors
    ///
    /// Returns `Err` if it could not be read.
    pub fn with_read_key(self, private_key: Result<PrivateKeyDer<'static>, PemError>) -> (res:
        Result<TlsIdentity, TlsError>)
        ensures
            res == match private_key {
                Ok(private_key) => Ok(
                    TlsIdentity { certificates: self.certificates, private_key },
                ),
                Err(err) => Err(TlsError::PrivateKey(err)),
            },
    {
        match private_key {
            Ok(private_key) => Ok(TlsIdentity { certificates: self.certificates, private_key }),
            Err(err) => Err(TlsError::PrivateKey(err)),
        }
    }

    /// Add a private key in PEM format.
    ///
    /// # Errors
    ///
    /// Returns `Err` if it cannot be read.
    pub fn with_key_pem(self, pem: &[u8]) -> (res: Result<TlsIdentity, TlsError>)
        ensures
            res == match pem_private_key(pem@) {
                Ok(private_key) => Ok(
                    TlsIdentity { certificates: self.certificates, private_key },
                ),
                Err(err) => Err(TlsError::PrivateKey(err)),
            },
    {
        self.with_read_key(private_key(pem))
    }
}

/// TLS configuration.
///
/// Files are referred to by paths of any type.
#[derive(Debug, PartialEq)]
pub struct TlsConfig<P> {
    /// Path to certificate or certificate chain in PEM format.
    pub certificate: P,
    /// Path to private key file in PEM format.
    pub private_key: P,
    /// TLS handshake timeout.
    ///
    /// Default is 10 seconds.
    pub handshake_timeout: Duration,
    /// Protocols to consider for negotiation using TLS ALPN.
    pub alpn_protocols: Vec<TlsAlpnProtocol>,
}

/// Default TLS handshake timeout.
#[must_use]
pub fn default_handshake_timeout() -> (timeout: Duration)
    ensures
        duration_nanos(timeout) == 10 * 1_000_000_000,
{
    Duration::from_secs(10)
}

/// Default protocols to consider for negotiation.
#[must_use]
pub fn default_alpn_protocols() -> (protocols: Vec<TlsAlpnProtocol>)
    ensures
        protocols@ == seq![TlsAlpnProtocol::Http2, TlsAlpnProtocol::Http11],
{
    let mut protocols: Vec<TlsAlpnProtocol> = Vec::new();
    protocols.push(TlsAlpnProtocol::Http2);
    protocols.push(TlsAlpnProtocol::Http11);
    protocols
}

impl<P> TlsConfig<P> {
    /// Create configuration with default settings.
    #[must_use]
    pub fn new(certificate: P, private_key: P) -> (config: Self)
        ensures
            config.certificate == certificate,
            config.private_key == private_key,
            duration_nanos(config.handshake_timeout) == 10 * 1_000_000_000,
            config.alpn_protocols@ == seq![TlsAlpnProtocol::Http2, TlsAlpnProtocol::Http11],
    {
        TlsConfig {
            certificate,
            private_key,
            handshake_timeout: default_handshake_timeout(),
            alpn_protocols: default_alpn_protocols(),
        }
    }
}

/// Protocols have different IDs, so peers tell them apart.
pub proof fn lemma_ids_differ(left: TlsAlpnProtocol, right: TlsAlpnProtocol)
    ensures
        left.id() == right.id() <==> left == right,
{
    assert(TlsAlpnProtocol::Http11.id().len() != TlsAlpnProtocol::Http2.id().len());
}

/// An identity has all certificates that were read, in order, and the key that was read. Without a
/// certificate chain, or without a key, there is none, and the error tells which of them it was.
pub proof fn lemma_identity(
    certificates: &[u8],
    key: &[u8],
    chain: Result<CertificateChain, TlsError>,
    identity: Result<TlsIdentity, TlsError>,
)
    requires
        call_ensures(CertificateChain::from_pem, (certificates,), chain),
        chain is Ok ==> call_ensures(CertificateChain::with_key_pem, (chain->Ok_0, key), identity),
    ensures
        chain is Ok <==> pem_certificates(certificates@) is Ok,
        chain is Err ==> chain->Err_0 == TlsError::Certificate(
            pem_certificates(certificates@)->Err_0,
        ),
        chain is Ok ==> (identity is Ok <==> pem_private_key(key@) is Ok),
        chain is Ok && identity is Ok ==> identity->Ok_0.certificates@ == pem_certificates(
            certificates@,
        )->Ok_0 && identity->Ok_0.private_key == pem_private_key(key@)->Ok_0,
        chain is Ok && identity is Err ==> identity->Err_0 == TlsError::PrivateKey(
            pem_private_key(key@)->Err_0,
        ),
{
}

} // verus!
