//! SPIFFE authentication and authorization support.

use std::time::Duration;

use spiffe::cert::error::CertificateError;
use spiffe::{
    SpiffeId, SpiffeIdError, TrustDomain, X509ResourceLimits, X509Source, X509SourceBuilder,
};
use spiffe_rustls::authorizer::{Exact, TrustDomainAllowList};
use spiffe_rustls::{Error as SpiffeRustlsError, TrustDomainPolicy};
use spiffe_rustls_tokio::PeerIdentity;
use url::{ParseError, Url};
use vstd::prelude::*;
#[allow(unused_imports)]
use vstd::string::to_string_from_display_ensures;

use crate::layers::ext::ListenerInfo;
#[allow(unused_imports)]
use crate::time::duration_nanos;
use crate::tls::{alpn_ids, default_alpn_protocols, default_handshake_timeout, TlsAlpnProtocol};
use crate::util::str::joined;
#[allow(unused_imports)]
use crate::util::str::{framed_alike, lemma_framed_alike};

verus! {

/// URL.
#[verifier::external_type_specification]
#[verifier::external_body]
pub struct ExUrl(Url);

/// Error of reading a URL.
#[verifier::external_type_specification]
#[verifier::external_body]
pub struct ExParseError(ParseError);

/// Limits of a source of X.509 identities.
#[verifier::external_type_specification]
pub struct ExX509ResourceLimits(X509ResourceLimits);

/// Builder of a source of X.509 identities.
#[verifier::external_type_specification]
#[verifier::external_body]
pub struct ExX509SourceBuilder(X509SourceBuilder);

/// URL that a text stands for, as `Url::parse` reads it, or an error.
pub uninterp spec fn parsed_url(text: Seq<char>) -> Result<Url, ParseError>;

/// Text of a URL, as `Url::as_str` gives it.
pub uninterp spec fn url_text(url: Url) -> Seq<char>;

/// Settings that a builder of a source holds.
pub uninterp spec fn source_settings(builder: X509SourceBuilder) -> SourceSettings;

/// Settings of a source of X.509 identities. Times are in nanoseconds.
pub struct SourceSettings {
    /// Address of workload API, unless it is taken from the environment.
    pub endpoint: Option<Seq<char>>,
    /// Maximum number of SVIDs, unless unlimited.
    pub max_svids: Option<usize>,
    /// Maximum number of bundles, unless unlimited.
    pub max_bundles: Option<usize>,
    /// Maximum size of a bundle, unless unlimited.
    pub max_bundle_der_bytes: Option<usize>,
    /// Minimum interval between reconnect attempts.
    pub min_backoff: nat,
    /// Maximum interval between reconnect attempts.
    pub max_backoff: nat,
    /// Wait time to finish background tasks, unless unbounded.
    pub shutdown_timeout: Option<nat>,
    /// Timeout for initial sync, unless unbounded.
    pub initial_sync_timeout: Option<nat>,
}

/// Nanoseconds of an optional duration.
pub open spec fn opt_nanos(duration: Option<Duration>) -> Option<nat> {
    match duration {
        Some(duration) => Some(duration_nanos(duration)),
        None => None,
    }
}

/// `Url::parse` reads a URL. The result is a function of the text.
pub assume_specification[ Url::parse ](input: &str) -> (res: Result<Url, ParseError>)
    ensures
        res == parsed_url(input@),
;

/// `Url::clone` makes another URL that is the same.
pub assume_specification[ <Url as Clone>::clone ](url: &Url) -> (res: Url)
    ensures
        res == *url,
;

/// `Url::as_str` gives the text of a URL. The result is a function of the URL.
pub assume_specification[ Url::as_str ](url: &Url) -> (res: &str)
    ensures
        res@ == url_text(*url),
;

/// `X509ResourceLimits::new` keeps the limits it is given.
pub assume_specification[ X509ResourceLimits::new ](
    max_svids: Option<usize>,
    max_bundles: Option<usize>,
    max_bundle_der_bytes: Option<usize>,
) -> (limits: X509ResourceLimits)
    ensures
        limits.max_svids == max_svids,
        limits.max_bundles == max_bundles,
        limits.max_bundle_der_bytes == max_bundle_der_bytes,
;

/// `X509Source::builder` makes a builder with default settings: workload API from the
/// environment, 100 SVIDs, 200 bundles of 4 MiB each, reconnects in 200 milliseconds to 10
/// seconds, shutdown in 30 seconds, and no timeout for initial sync.
#[verifier::external_body]
fn source_builder() -> (builder: X509SourceBuilder)
    ensures
        source_settings(builder) == default_source_settings(),
{
    X509Source::builder()
}

/// Settings of a new builder.
pub open spec fn default_source_settings() -> SourceSettings {
    SourceSettings {
        endpoint: None,
        max_svids: Some(100),
        max_bundles: Some(200),
        max_bundle_der_bytes: Some(4_194_304),
        min_backoff: 200_000_000,
        max_backoff: 10_000_000_000,
        shutdown_timeout: Some(30_000_000_000),
        initial_sync_timeout: None,
    }
}

/// `X509SourceBuilder::endpoint` sets the address of workload API.
#[verifier::external_body]
fn with_endpoint(builder: X509SourceBuilder, endpoint: &str) -> (res: X509SourceBuilder)
    ensures
        source_settings(res) == (SourceSettings {
            endpoint: Some(endpoint@),
            ..source_settings(builder)
        }),
{
    builder.endpoint(endpoint)
}

/// `X509SourceBuilder::resource_limits` sets all limits.
pub assume_specification[ X509SourceBuilder::resource_limits ](
    builder: X509SourceBuilder,
    limits: X509ResourceLimits,
) -> (res: X509SourceBuilder)
    ensures
        source_settings(res) == (SourceSettings {
            max_svids: limits.max_svids,
            max_bundles: limits.max_bundles,
            max_bundle_der_bytes: limits.max_bundle_der_bytes,
            ..source_settings(builder)
        }),
;

/// `X509SourceBuilder::reconnect_backoff` sets both intervals.
pub assume_specification[ X509SourceBuilder::reconnect_backoff ](
    builder: X509SourceBuilder,
    min_backoff: Duration,
    max_backoff: Duration,
) -> (res: X509SourceBuilder)
    ensures
        source_settings(res) == (SourceSettings {
            min_backoff: duration_nanos(min_backoff),
            max_backoff: duration_nanos(max_backoff),
            ..source_settings(builder)
        }),
;

/// `X509SourceBuilder::shutdown_timeout` sets wait time to finish background tasks.
pub assume_specification[ X509SourceBuilder::shutdown_timeout ](
    builder: X509SourceBuilder,
    timeout: Option<Duration>,
) -> (res: X509SourceBuilder)
    ensures
        source_settings(res) == (SourceSettings {
            shutdown_timeout: opt_nanos(timeout),
            ..source_settings(builder)
        }),
;

/// `X509SourceBuilder::initial_sync_timeout` sets timeout for initial sync.
pub assume_specification[ X509SourceBuilder::initial_sync_timeout ](
    builder: X509SourceBuilder,
    timeout: Duration,
) -> (res: X509SourceBuilder)
    ensures
        source_settings(res) == (SourceSettings {
            initial_sync_timeout: Some(duration_nanos(timeout)),
            ..source_settings(builder)
        }),
;

/// Invalid SPIFFE ID.
#[verifier::external_type_specification]
#[verifier::external_body]
pub struct ExSpiffeIdError(SpiffeIdError);

/// Error of SPIFFE TLS config.
#[verifier::external_type_specification]
#[verifier::external_body]
pub struct ExSpiffeRustlsError(SpiffeRustlsError);

/// Error of reading a certificate.
#[verifier::external_type_specification]
#[verifier::external_body]
pub struct ExCertificateError(CertificateError);

/// SPIFFE ID.
#[verifier::external_type_specification]
#[verifier::external_body]
pub struct ExSpiffeId(SpiffeId);

/// Trust domain.
#[verifier::external_type_specification]
#[verifier::external_body]
pub struct ExTrustDomain(TrustDomain);

/// Policy for selecting which trust domains to trust.
#[verifier::external_type_specification]
#[verifier::external_body]
pub struct ExTrustDomainPolicy(TrustDomainPolicy);

/// Authorizer of exact SPIFFE IDs.
#[verifier::external_type_specification]
#[verifier::external_body]
pub struct ExExact(Exact);

/// Authorizer of trust domains.
#[verifier::external_type_specification]
#[verifier::external_body]
pub struct ExTrustDomainAllowList(TrustDomainAllowList);

/// Identity of a connected peer.
#[verifier::external_type_specification]
#[verifier::external_body]
pub struct ExPeerIdentity(PeerIdentity);

/// Trust domain that a text stands for, as `TrustDomain::new` reads it, or an error.
pub uninterp spec fn trust_domain(text: Seq<char>) -> Result<TrustDomain, SpiffeIdError>;

/// Trust domains that a policy trusts.
pub uninterp spec fn policy_scope(policy: TrustDomainPolicy) -> PolicyScope;

/// SPIFFE ID that a text stands for, as `SpiffeId::new` reads it, or an error.
pub uninterp spec fn spiffe_id(text: Seq<char>) -> Result<SpiffeId, SpiffeIdError>;

/// SPIFFE IDs that an authorizer accepts.
pub uninterp spec fn accepted_ids(authorizer: Exact) -> Set<SpiffeId>;

/// Trust domains that an authorizer accepts.
pub uninterp spec fn accepted_domains(authorizer: TrustDomainAllowList) -> Set<TrustDomain>;

/// Authorizer of these SPIFFE IDs, as `authorizer::exact` makes it, or an error.
pub uninterp spec fn exact_authorizer(ids: Seq<Seq<char>>) -> Result<Exact, SpiffeRustlsError>;

/// Authorizer of these trust domains, as `authorizer::trust_domains` makes it, or an error.
pub uninterp spec fn domains_authorizer(domains: Seq<Seq<char>>) -> Result<
    TrustDomainAllowList,
    SpiffeRustlsError,
>;

/// What `spiffe::cert::spiffe_id_from_der` finds in a certificate.
pub uninterp spec fn der_identity(der: Seq<u8>) -> CertificateIdentity;

/// SPIFFE ID of a peer, if it has one.
pub uninterp spec fn peer_spiffe_id(peer: PeerIdentity) -> Option<SpiffeId>;

/// Trust domains that are trusted.
pub enum PolicyScope {
    /// All trust domains that there is a bundle for.
    AnyInBundleSet,
    /// One trust domain.
    LocalOnly(TrustDomain),
    /// Any of these trust domains.
    AllowList(Set<TrustDomain>),
}

/// What was found in a certificate.
pub enum CertificateIdentity {
    /// Exactly one SPIFFE ID.
    Found(SpiffeId),
    /// No SPIFFE ID.
    Missing,
    /// More than one SPIFFE ID.
    Multiple,
    /// Certificate cannot be read.
    Invalid(CertificateError),
}

/// Every text stands for a SPIFFE ID.
pub open spec fn all_ids(texts: Seq<Seq<char>>) -> bool {
    forall|i: int| 0 <= i < texts.len() ==> spiffe_id(#[trigger] texts[i]) is Ok
}

/// SPIFFE IDs that texts stand for.
pub open spec fn ids_of(texts: Seq<Seq<char>>) -> Set<SpiffeId> {
    texts.map_values(|text: Seq<char>| spiffe_id(text)->Ok_0).to_set()
}

/// Every text stands for a trust domain.
pub open spec fn all_domains(texts: Seq<Seq<char>>) -> bool {
    forall|i: int| 0 <= i < texts.len() ==> trust_domain(#[trigger] texts[i]) is Ok
}

/// Trust domains that texts stand for.
pub open spec fn domains_of(texts: Seq<Seq<char>>) -> Set<TrustDomain> {
    texts.map_values(|text: Seq<char>| trust_domain(text)->Ok_0).to_set()
}

/// Views of strings.
pub open spec fn texts(strings: Seq<String>) -> Seq<Seq<char>> {
    Seq::new(strings.len(), |i: int| strings[i]@)
}

/// `TrustDomain::new` reads a trust domain. The result is a function of the text.
#[verifier::external_body]
fn read_trust_domain(text: &str) -> (res: Result<TrustDomain, SpiffeIdError>)
    ensures
        res == trust_domain(text@),
{
    TrustDomain::new(text)
}

/// `TrustDomainPolicy::AnyInBundleSet` trusts all trust domains that there is a bundle for.
#[verifier::external_body]
fn any_policy() -> (policy: TrustDomainPolicy)
    ensures
        policy_scope(policy) == PolicyScope::AnyInBundleSet,
{
    TrustDomainPolicy::AnyInBundleSet
}

/// `TrustDomainPolicy::LocalOnly` trusts one trust domain.
#[verifier::external_body]
fn local_policy(domain: TrustDomain) -> (policy: TrustDomainPolicy)
    ensures
        policy_scope(policy) == PolicyScope::LocalOnly(domain),
{
    TrustDomainPolicy::LocalOnly(domain)
}

/// `TrustDomainPolicy::AllowList` trusts any of given trust domains.
#[verifier::external_body]
fn list_policy(domains: Vec<TrustDomain>) -> (policy: TrustDomainPolicy)
    ensures
        policy_scope(policy) == PolicyScope::AllowList(domains@.to_set()),
{
    TrustDomainPolicy::AllowList(domains.into_iter().collect())
}

/// `authorizer::exact` reads SPIFFE IDs as `SpiffeId::new` does, and makes an authorizer that
/// accepts exactly those, unless one of them is invalid. The result is a function of the IDs.
#[verifier::external_body]
fn exact(ids: &Vec<String>) -> (res: Result<Exact, SpiffeRustlsError>)
    ensures
        res == exact_authorizer(texts(ids@)),
        res is Ok <==> (forall|i: int|
            0 <= i < ids@.len() ==> spiffe_id(#[trigger] texts(ids@)[i]) is Ok),
        res is Ok ==> accepted_ids(res->Ok_0) == ids_of(texts(ids@)),
{
    spiffe_rustls::authorizer::exact(ids.iter().map(|id| id.as_str()))
}

/// `authorizer::trust_domains` reads trust domains as `TrustDomain::new` does, and makes an
/// authorizer that accepts exactly those, unless one of them is invalid. The result is a function
/// of the trust domains.
#[verifier::external_body]
fn trust_domains(domains: &Vec<String>) -> (res: Result<TrustDomainAllowList, SpiffeRustlsError>)
    ensures
        res == domains_authorizer(texts(domains@)),
        res is Ok <==> all_domains(texts(domains@)),
        res is Ok ==> accepted_domains(res->Ok_0) == domains_of(texts(domains@)),
{
    spiffe_rustls::authorizer::trust_domains(domains.iter().map(|domain| domain.as_str()))
}

/// `spiffe::cert::spiffe_id_from_der` finds the SPIFFE ID of a certificate in DER encoding. The
/// result is a function of the certificate.
#[verifier::external_body]
fn identity_from_der(der: &[u8]) -> (res: CertificateIdentity)
    ensures
        res == der_identity(der@),
{
    match spiffe::cert::spiffe_id_from_der(der) {
        Ok(id) => CertificateIdentity::Found(id),
        Err(CertificateError::MissingSpiffeId) => CertificateIdentity::Missing,
        Err(CertificateError::MultipleSpiffeIds) => CertificateIdentity::Multiple,
        Err(err) => CertificateIdentity::Invalid(err),
    }
}

/// `PeerIdentity::new` keeps the SPIFFE ID it is given.
pub assume_specification[ PeerIdentity::new ](spiffe_id: Option<SpiffeId>) -> (peer: PeerIdentity)
    ensures
        peer_spiffe_id(peer) == spiffe_id,
;

/// SPIFFE-related error.
#[derive(Debug)]
#[non_exhaustive]
pub enum SpiffeError {
    /// Invalid SPIFFE ID.
    Id(SpiffeIdError),
    /// Error setting up SPIFFE X.509 source.
    Source(String),
    /// Error setting up SPIFFE TLS config.
    Rustls(SpiffeRustlsError),
    /// Cannot find SPIFFE workload API endpoint.
    NoEndpoint(String),
}

impl SpiffeError {
    /// Text of the error, and of what has caused it.
    pub open spec fn has_text(self, text: Seq<char>) -> bool {
        match self {
            SpiffeError::Id(err) => exists|cause: String| #[trigger]
                to_string_from_display_ensures(&err, cause) && text == "Invalid SPIFFE ID: "@
                    + cause@,
            SpiffeError::Source(err) => text == "Error setting up SPIFFE X.509 source: "@ + err@,
            SpiffeError::Rustls(err) => exists|cause: String| #[trigger]
                to_string_from_display_ensures(&err, cause) && text
                    == "Error setting up SPIFFE TLS config: "@ + cause@,
            SpiffeError::NoEndpoint(err) => text == "Cannot find SPIFFE workload API endpoint: "@
                + err@,
        }
    }

    /// Format the error for display.
    pub fn message(&self) -> (res: String)
        ensures
            self.has_text(res@),
    {
        match self {
            SpiffeError::Id(err) => {
                let cause: String = err.to_string();
                joined("Invalid SPIFFE ID: ", cause.as_str())
            },
            SpiffeError::Source(err) => joined("Error setting up SPIFFE X.509 source: ", err),
            SpiffeError::Rustls(err) => {
                let cause: String = err.to_string();
                joined("Error setting up SPIFFE TLS config: ", cause.as_str())
            },
            SpiffeError::NoEndpoint(err) => joined(
                "Cannot find SPIFFE workload API endpoint: ",
                err,
            ),
        }
    }
}

/// SPIFFE resource limits for SVID and bundle storage to prevent resource exhaustion.
#[derive(Clone, Copy, Debug, PartialEq)]
pub struct SpiffeResourceLimits {
    /// Maximum number of SVIDs allowed in a context.
    pub max_svids: Option<usize>,
    /// Maximum number of bundles allowed in a bundle set.
    pub max_bundles: Option<usize>,
    /// Maximum bundle DER size in bytes (per bundle).
    pub max_bundle_der_bytes: Option<usize>,
}

impl SpiffeResourceLimits {
    /// Limits of a source.
    #[must_use]
    pub fn to_limits(&self) -> (limits: X509ResourceLimits)
        ensures
            limits.max_svids == self.max_svids,
            limits.max_bundles == self.max_bundles,
            limits.max_bundle_der_bytes == self.max_bundle_der_bytes,
    {
        X509ResourceLimits::new(self.max_svids, self.max_bundles, self.max_bundle_der_bytes)
    }
}

/// Backoff interval configuration between subsequent workload API connection attempts.
#[derive(Clone, Copy, Debug, PartialEq)]
pub struct SpiffeReconnectBackoff {
    /// Minimum interval between reconnect attempts.
    pub min_backoff: Duration,
    /// Maximum interval between reconnect attempts.
    pub max_backoff: Duration,
}

/// SPIFFE authorizer configuration.
///
/// Limits Spiffe IDs that can connect to server.
#[derive(Debug, PartialEq)]
#[non_exhaustive]
pub enum SpiffeAuthorize {
    /// Allow any SPIFFE ID.
    Any,
    /// Allow only exact SPIFFE IDs listed.
    Exact {
        /// Allowed SPIFFE IDs.
        spiffe_ids: Vec<String>,
    },
    /// Allow SPIFFE IDs from listed trust domains.
    TrustDomains {
        /// Allowed trust domains.
        trust_domains: Vec<String>,
    },
}

impl Default for SpiffeAuthorize {
    fn default() -> (res: Self)
        ensures
            res is Any,
    {
        SpiffeAuthorize::Any
    }
}

/// Authorizer of connected peers.
pub enum PeerAuthorizer {
    /// Any SPIFFE ID is authorized.
    Any,
    /// Listed SPIFFE IDs are authorized.
    Exact(Exact),
    /// SPIFFE IDs from listed trust domains are authorized.
    TrustDomains(TrustDomainAllowList),
}

impl PeerAuthorizer {
    /// Peers that are authorized.
    pub open spec fn accepted(self) -> Accepted {
        match self {
            PeerAuthorizer::Any => Accepted::Any,
            PeerAuthorizer::Exact(authorizer) => Accepted::Ids(accepted_ids(authorizer)),
            PeerAuthorizer::TrustDomains(authorizer) => Accepted::Domains(
                accepted_domains(authorizer),
            ),
        }
    }
}

/// Peers that are authorized.
pub enum Accepted {
    /// Peers with any SPIFFE ID.
    Any,
    /// Peers with one of these SPIFFE IDs.
    Ids(Set<SpiffeId>),
    /// Peers with a SPIFFE ID from one of these trust domains.
    Domains(Set<TrustDomain>),
}

impl SpiffeAuthorize {
    /// Listed SPIFFE IDs and trust domains are valid.
    pub open spec fn is_valid(self) -> bool {
        match self {
            SpiffeAuthorize::Any => true,
            SpiffeAuthorize::Exact { spiffe_ids } => all_ids(texts(spiffe_ids@)),
            SpiffeAuthorize::TrustDomains { trust_domains } => all_domains(texts(trust_domains@)),
        }
    }

    /// Peers that are to be authorized.
    pub open spec fn accepts(self) -> Accepted {
        match self {
            SpiffeAuthorize::Any => Accepted::Any,
            SpiffeAuthorize::Exact { spiffe_ids } => Accepted::Ids(ids_of(texts(spiffe_ids@))),
            SpiffeAuthorize::TrustDomains { trust_domains } => Accepted::Domains(
                domains_of(texts(trust_domains@)),
            ),
        }
    }

    /// Authorizer that follows the configuration, or an error.
    pub open spec fn authorizer_of(self) -> Result<PeerAuthorizer, SpiffeRustlsError> {
        match self {
            SpiffeAuthorize::Any => Ok(PeerAuthorizer::Any),
            SpiffeAuthorize::Exact { spiffe_ids } => match exact_authorizer(texts(spiffe_ids@)) {
                Ok(authorizer) => Ok(PeerAuthorizer::Exact(authorizer)),
                Err(err) => Err(err),
            },
            SpiffeAuthorize::TrustDomains { trust_domains } => match domains_authorizer(
                texts(trust_domains@),
            ) {
                Ok(authorizer) => Ok(PeerAuthorizer::TrustDomains(authorizer)),
                Err(err) => Err(err),
            },
        }
    }

    /// Make an authorizer that follows the configuration.
    ///
    /// # Errors
    ///
    /// Returns `Err` if one of SPIFFE IDs or trust domains is invalid.
    pub fn authorizer(&self) -> (res: Result<PeerAuthorizer, SpiffeRustlsError>)
        ensures
            res == self.authorizer_of(),
            res is Ok <==> self.is_valid(),
            res matches Ok(authorizer) ==> authorizer.accepted() == self.accepts(),
    {
        match self {
            SpiffeAuthorize::Any => Ok(PeerAuthorizer::Any),
            SpiffeAuthorize::Exact { spiffe_ids } => match exact(spiffe_ids) {
                Ok(authorizer) => Ok(PeerAuthorizer::Exact(authorizer)),
                Err(err) => Err(err),
            },
            SpiffeAuthorize::TrustDomains { trust_domains: domains } => match trust_domains(
                domains,
            ) {
                Ok(authorizer) => Ok(PeerAuthorizer::TrustDomains(authorizer)),
                Err(err) => Err(err),
            },
        }
    }
}

/// Policy for selecting which trust domains to trust during certificate verification.
#[derive(Debug, PartialEq)]
pub enum SpiffeTrustDomainPolicy {
    /// Default: use all trust domain bundles provided by the Workload API.
    AnyInBundleSet,
    /// Only trust the specified trust domain.
    LocalOnly {
        /// Allowed trust domain.
        domain: String,
    },
    /// Restrict to these trust domains only.
    AllowList {
        /// Allowed trust domains.
        domains: Vec<String>,
    },
}

impl Default for SpiffeTrustDomainPolicy {
    fn default() -> (res: Self)
        ensures
            res is AnyInBundleSet,
    {
        SpiffeTrustDomainPolicy::AnyInBundleSet
    }
}

/// Trust domains that were read one by one, up to the first error.
pub open spec fn first_failure(
    read: Seq<Result<TrustDomain, SpiffeIdError>>,
) -> Result<Seq<TrustDomain>, SpiffeIdError>
    decreases read.len(),
{
    if read.len() == 0 {
        Ok(Seq::empty())
    } else {
        match first_failure(read.drop_last()) {
            Err(err) => Err(err),
            Ok(domains) => match read.last() {
                Err(err) => Err(err),
                Ok(domain) => Ok(domains.push(domain)),
            },
        }
    }
}

/// Trust domains that texts stand for.
pub open spec fn read_all(domains: Seq<String>) -> Seq<Result<TrustDomain, SpiffeIdError>> {
    Seq::new(domains.len(), |i: int| trust_domain(domains[i]@))
}

impl SpiffeTrustDomainPolicy {
    /// Trust domains that are trusted according to the configuration, or the first error.
    pub open spec fn scope(self) -> Result<PolicyScope, SpiffeIdError> {
        match self {
            SpiffeTrustDomainPolicy::AnyInBundleSet => Ok(PolicyScope::AnyInBundleSet),
            SpiffeTrustDomainPolicy::LocalOnly { domain } => match trust_domain(domain@) {
                Ok(domain) => Ok(PolicyScope::LocalOnly(domain)),
                Err(err) => Err(err),
            },
            SpiffeTrustDomainPolicy::AllowList { domains } => match first_failure(
                read_all(domains@),
            ) {
                Ok(domains) => Ok(PolicyScope::AllowList(domains.to_set())),
                Err(err) => Err(err),
            },
        }
    }

    /// Make a policy that follows the configuration.
    ///
    /// # Errors
    ///
    /// Returns `Err` if one of trust domains is invalid.
    pub fn policy(&self) -> (res: Result<TrustDomainPolicy, SpiffeIdError>)
        ensures
            match self.scope() {
                Ok(scope) => res is Ok && policy_scope(res->Ok_0) == scope,
                Err(err) => res == Err::<TrustDomainPolicy, SpiffeIdError>(err),
            },
    {
        match self {
            SpiffeTrustDomainPolicy::AnyInBundleSet => Ok(any_policy()),
            SpiffeTrustDomainPolicy::LocalOnly { domain } => match read_trust_domain(domain) {
                Ok(domain) => Ok(local_policy(domain)),
                Err(err) => Err(err),
            },
            SpiffeTrustDomainPolicy::AllowList { domains } => match read_domains(domains) {
                Ok(domains) => Ok(list_policy(domains)),
                Err(err) => Err(err),
            },
        }
    }
}

/// Read trust domains one by one, up to the first error.
fn read_domains(domains: &Vec<String>) -> (res: Result<Vec<TrustDomain>, SpiffeIdError>)
    ensures
        match first_failure(read_all(domains@)) {
            Ok(read) => res is Ok && res->Ok_0@ == read,
            Err(err) => res == Err::<Vec<TrustDomain>, SpiffeIdError>(err),
        },
{
    let mut read: Vec<TrustDomain> = Vec::new();
    let ghost all = read_all(domains@);
    for i in 0..domains.len()
        invariant
            all == read_all(domains@),
            first_failure(all.take(i as int)) == Ok::<Seq<TrustDomain>, SpiffeIdError>(read@),
    {
        proof {
            let seen = all.take(i as int + 1);
            assert(seen.drop_last() == all.take(i as int));
            assert(seen.last() == all[i as int]);
        }
        match read_trust_domain(domains[i].as_str()) {
            Ok(domain) => read.push(domain),
            Err(err) => {
                proof {
                    lemma_first_failure(all, i as int + 1);
                }
                return Err(err);
            },
        }
    }
    proof {
        assert(all.take(all.len() as int) == all);
    }
    Ok(read)
}

/// What comes after the first invalid trust domain makes no difference.
pub proof fn lemma_first_failure(read: Seq<Result<TrustDomain, SpiffeIdError>>, count: int)
    requires
        0 <= count <= read.len(),
        first_failure(read.take(count)) is Err,
    ensures
        first_failure(read) == first_failure(read.take(count)),
    decreases read.len(),
{
    if count < read.len() {
        assert(read.drop_last().take(count) == read.take(count));
        lemma_first_failure(read.drop_last(), count);
    } else {
        assert(read.take(count) == read);
    }
}

/// A policy is made if and only if every trust domain of it is valid.
pub proof fn lemma_all_valid(read: Seq<Result<TrustDomain, SpiffeIdError>>)
    ensures
        first_failure(read) is Ok <==> forall|i: int|
            0 <= i < read.len() ==> #[trigger] read[i] is Ok,
        first_failure(read) matches Ok(domains) ==> {
            &&& domains.len() == read.len()
            &&& forall|i: int| 0 <= i < read.len() ==> #[trigger] domains[i] == read[i]->Ok_0
        },
    decreases read.len(),
{
    if read.len() > 0 {
        let init = read.drop_last();
        lemma_all_valid(init);
        assert forall|i: int| 0 <= i < init.len() implies #[trigger] read[i] == init[i] by {}
        if first_failure(init) is Err {
            let i = choose|i: int| 0 <= i < init.len() && !(#[trigger] init[i] is Ok);
            assert(!(read[i] is Ok));
        } else if read.last() is Err {
            assert(!(read[read.len() - 1] is Ok));
        }
    }
}

/// SPIFFE configuration.
#[derive(Debug, PartialEq)]
pub struct SpiffeConfig {
    /// SPIFFE local resource limits.
    pub limits: Option<SpiffeResourceLimits>,
    /// Custom SPIFFE workload API endpoint.
    ///
    /// Typically contains `unix://` URL to a socket.
    ///
    /// Default value is `unix:///tmp/spire-agent/public/api.sock`.
    ///
    /// Explicitly specify no value to force use of `SPIFFE_ENDPOINT_SOCKET`
    /// environment variable.
    pub workload_api: Option<Url>,
    /// Optional timeout for initial sync of SPIFFE state and retrieval of
    /// bundle sets.
    ///
    /// Unbounded by default.
    pub initial_sync_timeout: Option<Duration>,
    /// Wait time to finish background tasks for source.
    ///
    /// Default is 30 seconds.
    pub shutdown_timeout: Option<Duration>,
    /// Reconnect interval settings.
    pub reconnect: Option<SpiffeReconnectBackoff>,
    /// SPIFFE authorizer settings.
    pub authorize: SpiffeAuthorize,
    /// SPIFFE trust domain policy.
    pub trust_domain_policy: SpiffeTrustDomainPolicy,
    /// TLS handshake timeout.
    ///
    /// Default is 10 seconds.
    pub handshake_timeout: Duration,
    /// Protocols to consider for negotiation using TLS ALPN.
    pub alpn_protocols: Vec<TlsAlpnProtocol>,
}

/// Default SPIFFE workload API endpoint.
#[must_use]
pub fn default_workload_api() -> (res: Option<Url>)
    ensures
        res == match parsed_url("unix:///tmp/spire-agent/public/api.sock"@) {
            Ok(url) => Some(url),
            Err(_) => None,
        },
{
    match Url::parse("unix:///tmp/spire-agent/public/api.sock") {
        Ok(url) => Some(url),
        Err(_) => None,
    }
}

impl Default for SpiffeConfig {
    fn default() -> (config: Self)
        ensures
            config.limits is None,
            config.workload_api == match parsed_url("unix:///tmp/spire-agent/public/api.sock"@) {
                Ok(url) => Some(url),
                Err(_) => None,
            },
            config.initial_sync_timeout is None,
            config.shutdown_timeout is None,
            config.reconnect is None,
            config.authorize is Any,
            config.trust_domain_policy is AnyInBundleSet,
            duration_nanos(config.handshake_timeout) == 10 * 1_000_000_000,
            config.alpn_protocols@ == seq![TlsAlpnProtocol::Http2, TlsAlpnProtocol::Http11],
    {
        SpiffeConfig {
            limits: None,
            workload_api: default_workload_api(),
            initial_sync_timeout: None,
            shutdown_timeout: None,
            reconnect: None,
            authorize: SpiffeAuthorize::default(),
            trust_domain_policy: SpiffeTrustDomainPolicy::default(),
            handshake_timeout: default_handshake_timeout(),
            alpn_protocols: default_alpn_protocols(),
        }
    }
}

/// What TLS sessions with peers are set up from.
pub struct RustlsSettings {
    /// Authorizer of connected peers.
    pub authorizer: PeerAuthorizer,
    /// Policy for selecting which trust domains to trust.
    pub trust_domain_policy: TrustDomainPolicy,
    /// Protocol IDs to negotiate, in order of preference.
    pub alpn_protocols: Vec<Vec<u8>>,
}

impl SpiffeConfig {
    /// Settings of the source. Those that are not configured stay at their default.
    pub open spec fn source_settings_of(self) -> SourceSettings {
        let default = default_source_settings();
        SourceSettings {
            endpoint: match self.workload_api {
                Some(url) => Some(url_text(url)),
                None => default.endpoint,
            },
            max_svids: match self.limits {
                Some(limits) => limits.max_svids,
                None => default.max_svids,
            },
            max_bundles: match self.limits {
                Some(limits) => limits.max_bundles,
                None => default.max_bundles,
            },
            max_bundle_der_bytes: match self.limits {
                Some(limits) => limits.max_bundle_der_bytes,
                None => default.max_bundle_der_bytes,
            },
            min_backoff: match self.reconnect {
                Some(reconnect) => duration_nanos(reconnect.min_backoff),
                None => default.min_backoff,
            },
            max_backoff: match self.reconnect {
                Some(reconnect) => duration_nanos(reconnect.max_backoff),
                None => default.max_backoff,
            },
            shutdown_timeout: match self.shutdown_timeout {
                Some(timeout) => Some(duration_nanos(timeout)),
                None => default.shutdown_timeout,
            },
            initial_sync_timeout: opt_nanos(self.initial_sync_timeout),
        }
    }

    /// Generate builder of SPIFFE X.509 source object from configuration.
    ///
    /// Takes the result of looking up `SPIFFE_ENDPOINT_SOCKET` environment variable, which only
    /// counts when workload API endpoint is not configured.
    ///
    /// # Errors
    ///
    /// Returns `Err` if there is no workload API endpoint.
    pub fn build_source(&self, environment: Result<(), String>) -> (res: Result<
        X509SourceBuilder,
        SpiffeError,
    >)
        ensures
            match (self.workload_api, environment) {
                (None, Err(err)) => res == Err::<X509SourceBuilder, SpiffeError>(
                    SpiffeError::NoEndpoint(err),
                ),
                _ => res is Ok && source_settings(res->Ok_0) == self.source_settings_of(),
            },
            self.workload_api matches Some(url) ==> res is Ok && source_settings(res->Ok_0).endpoint
                == Some(url_text(url)),
            self.workload_api is None ==> (res is Ok <==> environment is Ok),
    {
        let mut builder = source_builder();
        if let Some(limits) = &self.limits {
            builder = builder.resource_limits(limits.to_limits());
        }
        match &self.workload_api {
            Some(endpoint) => {
                builder = with_endpoint(builder, endpoint.as_str());
            },
            None => {
                if let Err(err) = environment {
                    return Err(SpiffeError::NoEndpoint(err));
                }
            },
        }
        if let Some(timeout) = self.initial_sync_timeout {
            builder = builder.initial_sync_timeout(timeout);
        }
        if let Some(timeout) = self.shutdown_timeout {
            builder = builder.shutdown_timeout(Some(timeout));
        }
        if let Some(reconnect) = &self.reconnect {
            builder = builder.reconnect_backoff(reconnect.min_backoff, reconnect.max_backoff);
        }
        Ok(builder)
    }

    /// Generate settings for server-side and client-side RusTLS, apart from the source of
    /// identities.
    ///
    /// # Errors
    ///
    /// Returns `Err` if authorizer settings, or else trust domain policy, are invalid.
    pub fn rustls_settings(&self) -> (res: Result<RustlsSettings, SpiffeError>)
        ensures
            match (self.authorize.authorizer_of(), self.trust_domain_policy.scope()) {
                (Err(err), _) => res == Err::<RustlsSettings, SpiffeError>(
                    SpiffeError::Rustls(err),
                ),
                (Ok(_), Err(err)) => res == Err::<RustlsSettings, SpiffeError>(
                    SpiffeError::Id(err),
                ),
                (Ok(authorizer), Ok(scope)) => {
                    &&& res is Ok
                    &&& res->Ok_0.authorizer == authorizer
                    &&& authorizer.accepted() == self.authorize.accepts()
                    &&& policy_scope(res->Ok_0.trust_domain_policy) == scope
                    &&& res->Ok_0.alpn_protocols@.len() == self.alpn_protocols@.len()
                    &&& forall|i: int|
                        0 <= i < self.alpn_protocols@.len() ==> (
                        #[trigger] res->Ok_0.alpn_protocols@[i])@ == self.alpn_protocols@[i].id()
                },
            },
    {
        let authorizer: PeerAuthorizer = match self.authorize.authorizer() {
            Ok(authorizer) => authorizer,
            Err(err) => return Err(SpiffeError::Rustls(err)),
        };
        let trust_domain_policy: TrustDomainPolicy = match self.trust_domain_policy.policy() {
            Ok(policy) => policy,
            Err(err) => return Err(SpiffeError::Id(err)),
        };
        Ok(
            RustlsSettings {
                authorizer,
                trust_domain_policy,
                alpn_protocols: alpn_ids(&self.alpn_protocols),
            },
        )
    }
}

/// Reason why a connection is not accepted.
pub enum AcceptError {
    /// Peer certificate cannot be read.
    Certificate(CertificateError),
    /// Listener information was already used up.
    NoListenerInfo,
}

impl AcceptError {
    /// Text of the error.
    pub open spec fn has_text(self, text: Seq<char>) -> bool {
        match self {
            AcceptError::Certificate(err) => exists|cause: String| #[trigger]
                to_string_from_display_ensures(&err, cause) && text == cause@,
            AcceptError::NoListenerInfo => text == "no listener info"@,
        }
    }

    /// Format the error for display.
    pub fn message(&self) -> (res: String)
        ensures
            self.has_text(res@),
    {
        match self {
            AcceptError::Certificate(err) => err.to_string(),
            AcceptError::NoListenerInfo => "no listener info".to_owned(),
        }
    }
}

/// SPIFFE ID of a peer, by what was found in its certificate. A peer without a certificate, or
/// without exactly one SPIFFE ID in it, has none.
pub open spec fn peer_id(found: Option<CertificateIdentity>) -> Result<
    Option<SpiffeId>,
    CertificateError,
> {
    match found {
        Some(CertificateIdentity::Found(id)) => Ok(Some(id)),
        Some(CertificateIdentity::Invalid(err)) => Err(err),
        _ => Ok(None),
    }
}

/// Extensions of requests that come from a connected peer.
pub struct PeerExtensions<A> {
    /// Identity of the peer.
    pub peer_identity: PeerIdentity,
    /// Listener information.
    pub listener_info: ListenerInfo<A>,
}

/// Connection that is being accepted.
pub struct SpiffeAcceptorFuture<A> {
    /// Listener information, until it is used up.
    listener_info: Option<ListenerInfo<A>>,
}

impl<A> View for SpiffeAcceptorFuture<A> {
    type V = Option<ListenerInfo<A>>;

    closed spec fn view(&self) -> Option<ListenerInfo<A>> {
        self.listener_info
    }
}

impl<A> SpiffeAcceptorFuture<A> {
    /// Begin to accept a connection.
    pub fn new(listener_info: ListenerInfo<A>) -> (res: Self)
        ensures
            res@ == Some(listener_info),
    {
        SpiffeAcceptorFuture { listener_info: Some(listener_info) }
    }

    /// Accept a connection, by what was found in the certificate of its peer.
    ///
    /// # Errors
    ///
    /// Returns `Err` if the certificate cannot be read, or if a connection was already accepted.
    pub fn complete_with(&mut self, found: Option<CertificateIdentity>) -> (res: Result<
        PeerExtensions<A>,
        AcceptError,
    >)
        ensures
            match (peer_id(found), old(self)@) {
                (Err(err), _) => {
                    &&& res == Err::<PeerExtensions<A>, AcceptError>(AcceptError::Certificate(err))
                    &&& final(self)@ == old(self)@
                },
                (Ok(_), None) => {
                    &&& res == Err::<PeerExtensions<A>, AcceptError>(AcceptError::NoListenerInfo)
                    &&& final(self)@ is None
                },
                (Ok(id), Some(listener_info)) => {
                    &&& res is Ok
                    &&& peer_spiffe_id(res->Ok_0.peer_identity) == id
                    &&& res->Ok_0.listener_info == listener_info
                    &&& final(self)@ is None
                },
            },
            res is Ok ==> old(self)@ == Some(res->Ok_0.listener_info),
            res is Ok ==> (match found {
                Some(CertificateIdentity::Found(id)) => peer_spiffe_id(res->Ok_0.peer_identity)
                    == Some(id),
                _ => peer_spiffe_id(res->Ok_0.peer_identity) is None,
            }),
            res is Ok <==> old(self)@ is Some && !(found is Some && found->0 is Invalid),
    {
        let peer_identity: PeerIdentity = match found {
            Some(CertificateIdentity::Found(id)) => PeerIdentity::new(Some(id)),
            Some(CertificateIdentity::Invalid(err)) => return Err(AcceptError::Certificate(err)),
            Some(CertificateIdentity::Missing) | Some(CertificateIdentity::Multiple) => {
                PeerIdentity::new(None)
            },
            None => PeerIdentity::new(None),
        };
        match self.listener_info.take() {
            Some(listener_info) => Ok(PeerExtensions { peer_identity, listener_info }),
            None => Err(AcceptError::NoListenerInfo),
        }
    }

    /// Accept a connection, by the certificate of its peer, in DER encoding.
    ///
    /// # Errors
    ///
    /// Returns `Err` if the certificate cannot be read, or if a connection was already accepted.
    pub fn complete(&mut self, leaf: Option<&[u8]>) -> (res: Result<
        PeerExtensions<A>,
        AcceptError,
    >)
        ensures
            ({
                let found = match leaf {
                    Some(leaf) => Some(der_identity(leaf@)),
                    None => None,
                };
                match (peer_id(found), old(self)@) {
                    (Err(err), _) => {
                        &&& res == Err::<PeerExtensions<A>, AcceptError>(
                            AcceptError::Certificate(err),
                        )
                        &&& final(self)@ == old(self)@
                    },
                    (Ok(_), None) => {
                        &&& res == Err::<PeerExtensions<A>, AcceptError>(
                            AcceptError::NoListenerInfo,
                        )
                        &&& final(self)@ is None
                    },
                    (Ok(id), Some(listener_info)) => {
                        &&& res is Ok
                        &&& peer_spiffe_id(res->Ok_0.peer_identity) == id
                        &&& res->Ok_0.listener_info == listener_info
                        &&& final(self)@ is None
                    },
                }
            }),
    {
        let found: Option<CertificateIdentity> = match leaf {
            Some(leaf) => Some(identity_from_der(leaf)),
            None => None,
        };
        self.complete_with(found)
    }
}

/// A source is built unless there is no workload API endpoint, neither in the configuration nor in
/// the environment. Every setting that is configured is that of the source, to the nanosecond for
/// times, and does not depend on any other one. Those that are not stay at what the source has by
/// itself.
pub proof fn lemma_build_source(
    config: SpiffeConfig,
    environment: Result<(), String>,
    res: Result<X509SourceBuilder, SpiffeError>,
)
    requires
        call_ensures(SpiffeConfig::build_source, (&config, environment), res),
    ensures
        res is Err <==> config.workload_api is None && environment is Err,
        res is Err ==> res->Err_0 == SpiffeError::NoEndpoint(environment->Err_0),
        res matches Ok(builder) ==> {
            let settings = source_settings(builder);
            &&& config.workload_api matches Some(url) ==> settings.endpoint == Some(url_text(url))
            &&& config.workload_api is None ==> settings.endpoint is None
            &&& config.limits matches Some(limits) ==> {
                &&& settings.max_svids == limits.max_svids
                &&& settings.max_bundles == limits.max_bundles
                &&& settings.max_bundle_der_bytes == limits.max_bundle_der_bytes
            }
            &&& config.limits is None ==> {
                &&& settings.max_svids == Some(100usize)
                &&& settings.max_bundles == Some(200usize)
                &&& settings.max_bundle_der_bytes == Some(4_194_304usize)
            }
            &&& config.reconnect matches Some(reconnect) ==> {
                &&& settings.min_backoff == duration_nanos(reconnect.min_backoff)
                &&& settings.max_backoff == duration_nanos(reconnect.max_backoff)
            }
            &&& config.reconnect is None ==> {
                &&& settings.min_backoff == 200_000_000
                &&& settings.max_backoff == 10_000_000_000
            }
            &&& config.shutdown_timeout matches Some(timeout) ==> settings.shutdown_timeout == Some(
                duration_nanos(timeout),
            )
            &&& config.shutdown_timeout is None ==> settings.shutdown_timeout == Some(
                30_000_000_000nat,
            )
            &&& config.initial_sync_timeout matches Some(timeout) ==> settings.initial_sync_timeout
                == Some(duration_nanos(timeout))
            &&& config.initial_sync_timeout is None ==> settings.initial_sync_timeout is None
        },
{
}

/// Configurations with different workload API endpoints give sources with different endpoints,
/// whatever else is configured, and whatever is in the environment.
pub proof fn lemma_endpoints_differ(
    left: SpiffeConfig,
    right: SpiffeConfig,
    left_environment: Result<(), String>,
    right_environment: Result<(), String>,
    left_source: Result<X509SourceBuilder, SpiffeError>,
    right_source: Result<X509SourceBuilder, SpiffeError>,
)
    requires
        left.workload_api is Some,
        right.workload_api is Some,
        url_text(left.workload_api->0) != url_text(right.workload_api->0),
        call_ensures(SpiffeConfig::build_source, (&left, left_environment), left_source),
        call_ensures(SpiffeConfig::build_source, (&right, right_environment), right_source),
    ensures
        left_source is Ok,
        right_source is Ok,
        source_settings(left_source->Ok_0).endpoint != source_settings(right_source->Ok_0).endpoint,
{
}

/// An authorizer is made if and only if everything on its list is valid. It accepts a SPIFFE ID, or
/// a trust domain, if and only if that is on the list.
pub proof fn lemma_authorizer(
    config: SpiffeAuthorize,
    res: Result<PeerAuthorizer, SpiffeRustlsError>,
    id: SpiffeId,
    domain: TrustDomain,
)
    requires
        call_ensures(SpiffeAuthorize::authorizer, (&config,), res),
    ensures
        config is Any ==> res is Ok && res->Ok_0 is Any,
        config matches SpiffeAuthorize::Exact { spiffe_ids } ==> {
            &&& res is Ok <==> forall|i: int|
                0 <= i < spiffe_ids@.len() ==> spiffe_id((#[trigger] spiffe_ids@[i])@) is Ok
            &&& res matches Ok(authorizer) ==> authorizer is Exact && (accepted_ids(
                authorizer->Exact_0,
            ).contains(id) <==> exists|i: int|
                0 <= i < spiffe_ids@.len() && spiffe_id((#[trigger] spiffe_ids@[i])@) == Ok::<
                    SpiffeId,
                    SpiffeIdError,
                >(id))
        },
        config matches SpiffeAuthorize::TrustDomains { trust_domains } ==> {
            &&& res is Ok <==> forall|i: int|
                0 <= i < trust_domains@.len() ==> trust_domain(
                    (#[trigger] trust_domains@[i])@,
                ) is Ok
            &&& res matches Ok(authorizer) ==> authorizer is TrustDomains && (accepted_domains(
                authorizer->TrustDomains_0,
            ).contains(domain) <==> exists|i: int|
                0 <= i < trust_domains@.len() && trust_domain((#[trigger] trust_domains@[i])@)
                    == Ok::<TrustDomain, SpiffeIdError>(domain))
        },
{
    match config {
        SpiffeAuthorize::Any => {},
        SpiffeAuthorize::Exact { spiffe_ids } => {
            let list = texts(spiffe_ids@);
            assert forall|i: int| 0 <= i < list.len() implies #[trigger] list[i]
                == spiffe_ids@[i]@ by {}
            if forall|i: int|
                0 <= i < spiffe_ids@.len() ==> spiffe_id((#[trigger] spiffe_ids@[i])@) is Ok {
                assert forall|i: int| 0 <= i < list.len() implies spiffe_id(
                    #[trigger] list[i],
                ) is Ok by {
                    assert(spiffe_id(spiffe_ids@[i]@) is Ok);
                }
            }
            if res is Ok {
                assert forall|i: int| 0 <= i < spiffe_ids@.len() implies spiffe_id(
                    (#[trigger] spiffe_ids@[i])@,
                ) is Ok by {
                    assert(spiffe_id(list[i]) is Ok);
                }
                let read = list.map_values(|text: Seq<char>| spiffe_id(text)->Ok_0);
                if read.to_set().contains(id) {
                    let i = choose|i: int| 0 <= i < read.len() && #[trigger] read[i] == id;
                    assert(spiffe_id(spiffe_ids@[i]@) == Ok::<SpiffeId, SpiffeIdError>(id));
                }
                if exists|i: int|
                    0 <= i < spiffe_ids@.len() && spiffe_id((#[trigger] spiffe_ids@[i])@) == Ok::<
                        SpiffeId,
                        SpiffeIdError,
                    >(id) {
                    let i = choose|i: int|
                        0 <= i < spiffe_ids@.len() && spiffe_id((#[trigger] spiffe_ids@[i])@)
                            == Ok::<SpiffeId, SpiffeIdError>(id);
                    assert(read[i] == id);
                    assert(read.contains(id));
                }
            }
        },
        SpiffeAuthorize::TrustDomains { trust_domains } => {
            let list = texts(trust_domains@);
            assert forall|i: int| 0 <= i < list.len() implies #[trigger] list[i]
                == trust_domains@[i]@ by {}
            if forall|i: int|
                0 <= i < trust_domains@.len() ==> trust_domain(
                    (#[trigger] trust_domains@[i])@,
                ) is Ok {
                assert forall|i: int| 0 <= i < list.len() implies trust_domain(
                    #[trigger] list[i],
                ) is Ok by {
                    assert(trust_domain(trust_domains@[i]@) is Ok);
                }
            }
            if res is Ok {
                assert forall|i: int| 0 <= i < trust_domains@.len() implies trust_domain(
                    (#[trigger] trust_domains@[i])@,
                ) is Ok by {
                    assert(trust_domain(list[i]) is Ok);
                }
                let read = list.map_values(|text: Seq<char>| trust_domain(text)->Ok_0);
                if read.to_set().contains(domain) {
                    let i = choose|i: int| 0 <= i < read.len() && #[trigger] read[i] == domain;
                    assert(trust_domain(trust_domains@[i]@) == Ok::<TrustDomain, SpiffeIdError>(
                        domain,
                    ));
                }
                if exists|i: int|
                    0 <= i < trust_domains@.len() && trust_domain((#[trigger] trust_domains@[i])@)
                        == Ok::<TrustDomain, SpiffeIdError>(domain) {
                    let i = choose|i: int|
                        0 <= i < trust_domains@.len() && trust_domain(
                            (#[trigger] trust_domains@[i])@,
                        ) == Ok::<TrustDomain, SpiffeIdError>(domain);
                    assert(read[i] == domain);
                    assert(read.contains(domain));
                }
            }
        },
    }
}

/// First error among trust domains that were read, by its place.
proof fn lemma_first_invalid(
    read: Seq<Result<TrustDomain, SpiffeIdError>>,
    index: int,
    err: SpiffeIdError,
)
    requires
        0 <= index < read.len(),
        read[index] == Err::<TrustDomain, SpiffeIdError>(err),
        forall|i: int| 0 <= i < index ==> #[trigger] read[i] is Ok,
    ensures
        first_failure(read) == Err::<Seq<TrustDomain>, SpiffeIdError>(err),
{
    let part = read.take(index + 1);
    let init = read.take(index);
    assert(part.drop_last() == init);
    assert(part.last() == read[index]);
    lemma_all_valid(init);
    assert forall|i: int| 0 <= i < init.len() implies #[trigger] init[i] is Ok by {
        assert(init[i] == read[i]);
    }
    lemma_first_failure(read, index + 1);
}

/// A policy is made if and only if every configured trust domain is valid. It trusts exactly those
/// that are configured: all that there is a bundle for, the one, or any on the list. The error, if
/// there is one, is that of the first invalid trust domain.
pub proof fn lemma_policy(
    config: SpiffeTrustDomainPolicy,
    res: Result<TrustDomainPolicy, SpiffeIdError>,
    domain: TrustDomain,
    index: int,
    err: SpiffeIdError,
)
    requires
        call_ensures(SpiffeTrustDomainPolicy::policy, (&config,), res),
    ensures
        config is AnyInBundleSet ==> res is Ok && policy_scope(res->Ok_0)
            == PolicyScope::AnyInBundleSet,
        config matches SpiffeTrustDomainPolicy::LocalOnly { domain: only } ==> {
            &&& trust_domain(only@) matches Ok(read) ==> res is Ok && policy_scope(res->Ok_0)
                == PolicyScope::LocalOnly(read)
            &&& trust_domain(only@) matches Err(err) ==> res == Err::<
                TrustDomainPolicy,
                SpiffeIdError,
            >(err)
        },
        config matches SpiffeTrustDomainPolicy::AllowList { domains } ==> {
            &&& res is Ok <==> forall|i: int|
                0 <= i < domains@.len() ==> trust_domain((#[trigger] domains@[i])@) is Ok
            &&& res matches Ok(policy) ==> policy_scope(policy) is AllowList && (policy_scope(
                policy,
            )->AllowList_0.contains(domain) <==> exists|i: int|
                0 <= i < domains@.len() && trust_domain((#[trigger] domains@[i])@) == Ok::<
                    TrustDomain,
                    SpiffeIdError,
                >(domain))
            &&& 0 <= index < domains@.len() && trust_domain(domains@[index]@) == Err::<
                TrustDomain,
                SpiffeIdError,
            >(err) && (forall|i: int|
                0 <= i < index ==> trust_domain((#[trigger] domains@[i])@) is Ok) ==> res == Err::<
                TrustDomainPolicy,
                SpiffeIdError,
            >(err)
        },
{
    if let SpiffeTrustDomainPolicy::AllowList { domains } = config {
        let read = read_all(domains@);
        lemma_all_valid(read);
        assert forall|i: int| 0 <= i < read.len() implies #[trigger] read[i] == trust_domain(
            domains@[i]@,
        ) by {}
        if forall|i: int| 0 <= i < domains@.len() ==> trust_domain((#[trigger] domains@[i])@) is Ok {
            assert forall|i: int| 0 <= i < read.len() implies #[trigger] read[i] is Ok by {
                assert(trust_domain(domains@[i]@) is Ok);
            }
        }
        if res is Ok {
            let valid = first_failure(read)->Ok_0;
            assert forall|i: int| 0 <= i < domains@.len() implies trust_domain(
                (#[trigger] domains@[i])@,
            ) is Ok by {
                assert(read[i] is Ok);
            }
            if valid.to_set().contains(domain) {
                let i = choose|i: int| 0 <= i < valid.len() && #[trigger] valid[i] == domain;
                assert(read[i] is Ok);
                assert(trust_domain(domains@[i]@) == Ok::<TrustDomain, SpiffeIdError>(domain));
            }
            if exists|i: int|
                0 <= i < domains@.len() && trust_domain((#[trigger] domains@[i])@) == Ok::<
                    TrustDomain,
                    SpiffeIdError,
                >(domain) {
                let i = choose|i: int|
                    0 <= i < domains@.len() && trust_domain((#[trigger] domains@[i])@) == Ok::<
                        TrustDomain,
                        SpiffeIdError,
                    >(domain);
                assert(valid[i] == read[i]->Ok_0);
                assert(valid.contains(domain));
            }
        }
        if 0 <= index < domains@.len() && trust_domain(domains@[index]@) == Err::<
            TrustDomain,
            SpiffeIdError,
        >(err) && (forall|i: int|
            0 <= i < index ==> trust_domain((#[trigger] domains@[i])@) is Ok) {
            assert forall|i: int| 0 <= i < index implies #[trigger] read[i] is Ok by {
                assert(trust_domain(domains@[i]@) is Ok);
            }
            lemma_first_invalid(read, index, err);
        }
    }
}

/// TLS settings are made from the authorizer and from the policy that are configured, and have both
/// of them, whichever protocols there are. An invalid authorizer is reported before an invalid
/// policy. Protocols are negotiated in the configured order, none of them left out.
pub proof fn lemma_rustls_settings(
    config: SpiffeConfig,
    authorizer: Result<PeerAuthorizer, SpiffeRustlsError>,
    policy: Result<TrustDomainPolicy, SpiffeIdError>,
    res: Result<RustlsSettings, SpiffeError>,
)
    requires
        call_ensures(SpiffeAuthorize::authorizer, (&config.authorize,), authorizer),
        call_ensures(SpiffeTrustDomainPolicy::policy, (&config.trust_domain_policy,), policy),
        call_ensures(SpiffeConfig::rustls_settings, (&config,), res),
    ensures
        res is Ok <==> authorizer is Ok && policy is Ok,
        authorizer matches Err(err) ==> res->Err_0 == SpiffeError::Rustls(err),
        authorizer is Ok && policy is Err ==> res->Err_0 == SpiffeError::Id(policy->Err_0),
        res matches Ok(settings) ==> {
            &&& authorizer == Ok::<PeerAuthorizer, SpiffeRustlsError>(settings.authorizer)
            &&& policy_scope(settings.trust_domain_policy) == policy_scope(policy->Ok_0)
            &&& settings.alpn_protocols@.len() == config.alpn_protocols@.len()
            &&& forall|i: int|
                0 <= i < config.alpn_protocols@.len() ==> (
                #[trigger] settings.alpn_protocols@[i])@ == config.alpn_protocols@[i].id()
        },
{
}

/// A peer has the SPIFFE ID that was found in its certificate. It has none if there was no
/// certificate, or if there was none or more than one in it. It is turned away if and only if its
/// certificate cannot be read, for that reason.
pub proof fn lemma_peer_id(found: Option<CertificateIdentity>, id: SpiffeId, err: CertificateError)
    ensures
        peer_id(found) == Ok::<Option<SpiffeId>, CertificateError>(Some(id)) <==> found == Some(
            CertificateIdentity::Found(id),
        ),
        peer_id(found) == Err::<Option<SpiffeId>, CertificateError>(err) <==> found == Some(
            CertificateIdentity::Invalid(err),
        ),
        peer_id(found) == Ok::<Option<SpiffeId>, CertificateError>(None) <==> found is None || found
            == Some(CertificateIdentity::Missing) || found == Some(CertificateIdentity::Multiple),
{
}

/// Text of an error holds the text of what has caused it, behind the same words whatever that is.
pub proof fn lemma_spiffe_texts(
    left: String,
    right: String,
    left_text: Seq<char>,
    right_text: Seq<char>,
)
    ensures
        SpiffeError::Source(left).has_text(left_text) && SpiffeError::Source(right).has_text(
            right_text,
        ) ==> framed_alike(left_text, left@, right_text, right@),
        SpiffeError::NoEndpoint(left).has_text(left_text) && SpiffeError::NoEndpoint(
            right,
        ).has_text(right_text) ==> framed_alike(left_text, left@, right_text, right@),
{
    lemma_framed_alike("Error setting up SPIFFE X.509 source: "@, left@, right@);
    lemma_framed_alike("Cannot find SPIFFE workload API endpoint: "@, left@, right@);
}

} // verus!
