//! Ephemeral session credential and encryption setup. A fresh self-signed
//! certificate is derived from the device's long-lived key pair on every
//! handshake attempt, and the encryption context is pinned to exactly one
//! protocol version. The cryptographic work is done by openssl behind trusted
//! wrappers; what each wrapper hands to the library is recorded in a plain
//! mirror carried beside the opaque value, so the public contracts here state
//! the full fixed policy: X.509 version 3, serial number 2, a validity window
//! of exactly 3650 days starting now, the supplied pair's public half as
//! subject key, critical basic-constraints and key-usage extensions followed
//! by a subject key identifier, a SHA-256 self-signature, and a TLS setup
//! with minimum and maximum version pinned equal in the connecting role.

use vstd::prelude::*;
use openssl::asn1::Asn1Time;
use openssl::error::ErrorStack;
use openssl::hash::MessageDigest;
use openssl::pkey::{PKey, Private};
use openssl::rsa::Rsa;
use openssl::ssl::{Ssl, SslContext, SslContextBuilder, SslMethod, SslVersion};
use openssl::x509::extension::{BasicConstraints, KeyUsage, SubjectKeyIdentifier};
use openssl::x509::{X509, X509Builder, X509Extension};
use crate::types::AdbError;

verus! {

/// X.509 version field value for version 3 (the field is zero-based).
pub const CERT_VERSION_X509V3: i32 = 2;

/// Fixed serial number of every session certificate.
pub const CERT_SERIAL: u32 = 2;

/// The validity window of a session certificate, in days from now.
pub const CERT_VALIDITY_DAYS: u32 = 3650;

#[verifier::external_type_specification]
#[verifier::external_body]
pub struct ExErrorStack(ErrorStack);

#[verifier::external_type_specification]
#[verifier::external_body]
#[verifier::reject_recursive_types(T)]
pub struct ExRsa<T>(Rsa<T>);

#[verifier::external_type_specification]
#[verifier::external_body]
pub struct ExPrivate(Private);

#[verifier::external_type_specification]
#[verifier::external_body]
#[verifier::reject_recursive_types(T)]
pub struct ExPKey<T>(PKey<T>);

#[verifier::external_type_specification]
#[verifier::external_body]
pub struct ExX509Builder(X509Builder);

#[verifier::external_type_specification]
#[verifier::external_body]
pub struct ExX509(X509);

#[verifier::external_type_specification]
#[verifier::external_body]
pub struct ExX509Extension(X509Extension);

#[verifier::external_type_specification]
#[verifier::external_body]
pub struct ExMessageDigest(MessageDigest);

#[verifier::external_type_specification]
#[verifier::external_body]
pub struct ExSslContextBuilder(SslContextBuilder);

#[verifier::external_type_specification]
#[verifier::external_body]
pub struct ExSslContext(SslContext);

#[verifier::external_type_specification]
#[verifier::external_body]
pub struct ExSslVersion(SslVersion);

#[verifier::external_type_specification]
#[verifier::external_body]
pub struct ExSsl(Ssl);

/// The certificate extensions this library ever hands to the builder.
#[derive(Clone, Copy, Debug, PartialEq, Eq, Structural)]
pub enum ExtensionKind {
    /// Basic constraints, marked critical, with CA set to true.
    BasicConstraintsCaCritical,
    /// Key usage, marked critical, with the certificate-signing, CRL-signing
    /// and digital-signature bits set.
    KeyUsageSigningCritical,
    /// Subject key identifier, non-critical, computed from the public key
    /// stored in the builder.
    SubjectKeyIdentifier,
}

/// The digests this library ever signs with.
#[derive(Clone, Copy, Debug, PartialEq, Eq, Structural)]
pub enum DigestKind {
    Sha256,
}

/// The protocol versions this library ever pins the encrypted stream to.
#[derive(Clone, Copy, Debug, PartialEq, Eq, Structural)]
pub enum TlsVersionKind {
    Tls13,
}

/// The roles an encryption session can be put into.
#[derive(Clone, Copy, Debug, PartialEq, Eq, Structural)]
pub enum TlsRole {
    Client,
}

/// What has been handed to a certificate builder so far, as the contracts see
/// it: each field mirrors one builder call, `None` (or empty) until that call
/// was made. The key-pair fields hold the reference-counted handle of the
/// supplied pair.
#[verifier::ext_equal]
pub struct CertPolicy {
    pub version: Option<i32>,
    pub serial: Option<u32>,
    /// Days from the moment of the call to the start of the validity window.
    pub not_before_days: Option<u32>,
    /// Days from the moment of the call to the end of the validity window.
    pub not_after_days: Option<u32>,
    /// The key pair whose public half was stored as the subject key.
    pub subject: Option<Rsa<Private>>,
    /// The extensions appended, in order.
    pub extensions: Seq<ExtensionKind>,
    /// The key pair whose private half signed the certificate.
    pub signer: Option<Rsa<Private>>,
    pub digest: Option<DigestKind>,
}

/// A certificate-builder state with nothing handed over yet.
pub open spec fn spec_empty_cert_policy() -> CertPolicy {
    CertPolicy {
        version: None,
        serial: None,
        not_before_days: None,
        not_after_days: None,
        subject: None,
        extensions: Seq::<ExtensionKind>::empty(),
        signer: None,
        digest: None,
    }
}

/// The fixed policy of a session certificate built from `pair` (spec §4.4 of
/// the wire protocol this library implements, as this crate states it): X.509
/// version 3, serial 2, valid from now for exactly the fixed number of days,
/// the pair's public half as subject, the three extensions in order, and a
/// SHA-256 self-signature by the same pair.
pub open spec fn spec_session_cert_policy(pair: Rsa<Private>) -> CertPolicy {
    CertPolicy {
        version: Some(CERT_VERSION_X509V3),
        serial: Some(CERT_SERIAL),
        not_before_days: Some(0),
        not_after_days: Some(CERT_VALIDITY_DAYS),
        subject: Some(pair),
        extensions: seq![
            ExtensionKind::BasicConstraintsCaCritical,
            ExtensionKind::KeyUsageSigningCritical,
            ExtensionKind::SubjectKeyIdentifier,
        ],
        signer: Some(pair),
        digest: Some(DigestKind::Sha256),
    }
}

/// The exec-side mirror behind [`CertPolicy`].
struct CertMirror {
    version: Option<i32>,
    serial: Option<u32>,
    not_before_days: Option<u32>,
    not_after_days: Option<u32>,
    subject: Option<Rsa<Private>>,
    extensions: Vec<ExtensionKind>,
    signer: Option<Rsa<Private>>,
    digest: Option<DigestKind>,
}

impl CertMirror {
    spec fn as_policy(&self) -> CertPolicy {
        CertPolicy {
            version: self.version,
            serial: self.serial,
            not_before_days: self.not_before_days,
            not_after_days: self.not_after_days,
            subject: self.subject,
            extensions: self.extensions@,
            signer: self.signer,
            digest: self.digest,
        }
    }
}

/// An in-progress certificate build: the opaque openssl builder beside the
/// mirror of everything handed to it.
pub struct CertBuilder {
    inner: X509Builder,
    mirror: CertMirror,
}

impl CertBuilder {
    /// What has been handed to the builder so far.
    pub closed spec fn policy(&self) -> CertPolicy {
        self.mirror.as_policy()
    }
}

/// A finished session certificate: the opaque certificate beside the mirror
/// of everything its build was handed.
pub struct SessionCert {
    inner: X509,
    mirror: CertMirror,
}

impl SessionCert {
    /// What the build of this certificate was handed.
    pub closed spec fn policy(&self) -> CertPolicy {
        self.mirror.as_policy()
    }

    /// The certificate itself, for the encryption layer and for inspection.
    pub fn x509(&self) -> &X509 {
        &self.inner
    }
}

/// A key handle for the builder calls, remembering which pair it came from.
pub struct SessionKey {
    inner: PKey<Private>,
    pair: Rsa<Private>,
}

impl SessionKey {
    /// The key pair this handle denotes.
    pub closed spec fn pair(&self) -> Rsa<Private> {
        self.pair
    }
}

/// A digest handle beside which digest it is.
pub struct Digest {
    inner: MessageDigest,
    kind: DigestKind,
}

impl Digest {
    /// Which digest this handle denotes.
    pub closed spec fn kind(&self) -> DigestKind {
        self.kind
    }
}

/// A protocol-version handle beside which version it is.
pub struct TlsVersion {
    inner: SslVersion,
    kind: TlsVersionKind,
}

impl TlsVersion {
    /// Which protocol version this handle denotes.
    pub closed spec fn kind(&self) -> TlsVersionKind {
        self.kind
    }
}

/// An extension value beside which of the fixed extensions it is.
pub struct CertExtension {
    inner: X509Extension,
    kind: ExtensionKind,
}

impl CertExtension {
    /// Which extension this value is.
    pub closed spec fn kind(&self) -> ExtensionKind {
        self.kind
    }
}

/// What has been handed to the encryption-context setup so far; `None` until
/// the matching call was made.
#[verifier::ext_equal]
pub struct TlsPolicy {
    pub min_version: Option<TlsVersionKind>,
    pub max_version: Option<TlsVersionKind>,
    /// The build policy of the certificate installed for the peer.
    pub certificate: Option<CertPolicy>,
    /// The key pair whose private half was installed.
    pub key: Option<Rsa<Private>>,
}

/// An encryption-context setup with nothing handed over yet.
pub open spec fn spec_empty_tls_policy() -> TlsPolicy {
    TlsPolicy { min_version: None, max_version: None, certificate: None, key: None }
}

/// The fixed encryption setup for one session from `pair`: minimum and
/// maximum protocol version pinned to the same single version (no negotiation
/// range), the freshly built session certificate installed, and the pair's
/// private half as the session key.
pub open spec fn spec_session_tls_policy(pair: Rsa<Private>) -> TlsPolicy {
    TlsPolicy {
        min_version: Some(TlsVersionKind::Tls13),
        max_version: Some(TlsVersionKind::Tls13),
        certificate: Some(spec_session_cert_policy(pair)),
        key: Some(pair),
    }
}

/// The exec-side mirror behind [`TlsPolicy`].
struct TlsMirror {
    min_version: Option<TlsVersionKind>,
    max_version: Option<TlsVersionKind>,
    certificate: Option<CertMirror>,
    key: Option<Rsa<Private>>,
}

impl TlsMirror {
    spec fn as_policy(&self) -> TlsPolicy {
        TlsPolicy {
            min_version: self.min_version,
            max_version: self.max_version,
            certificate: match self.certificate {
                Some(m) => Some(m.as_policy()),
                None => None,
            },
            key: self.key,
        }
    }
}

/// An in-progress encryption-context setup: the opaque openssl builder beside
/// the mirror of everything handed to it.
pub struct TlsContextBuilder {
    inner: SslContextBuilder,
    mirror: TlsMirror,
}

impl TlsContextBuilder {
    /// What has been handed to the setup so far.
    pub closed spec fn policy(&self) -> TlsPolicy {
        self.mirror.as_policy()
    }
}

/// A finished encryption context beside the mirror of its setup.
pub struct TlsContext {
    inner: SslContext,
    mirror: TlsMirror,
}

impl TlsContext {
    /// What the setup of this context was handed.
    pub closed spec fn policy(&self) -> TlsPolicy {
        self.mirror.as_policy()
    }
}

/// One encryption session over a finished context, beside the role it was put
/// into (`None` until a role is set).
pub struct TlsClient {
    inner: Ssl,
    mirror: TlsMirror,
    role: Option<TlsRole>,
}

impl TlsClient {
    /// What the session's context setup was handed.
    pub closed spec fn policy(&self) -> TlsPolicy {
        self.mirror.as_policy()
    }

    /// The role the session was put into.
    pub closed spec fn role(&self) -> Option<TlsRole> {
        self.role
    }

    /// Hands the session to the caller, who wraps the raw stream with it and
    /// runs the handshake.
    pub fn into_ssl(self) -> Ssl {
        self.inner
    }
}

/// Relies on openssl's X509Builder::new: a fresh, empty certificate builder,
/// with nothing handed over yet.
#[verifier::external_body]
fn cert_builder_new() -> (r: Result<CertBuilder, ErrorStack>)
    ensures
        r matches Ok(b) ==> b.policy() == spec_empty_cert_policy(),
{
    let inner = X509Builder::new()?;
    let mirror = CertMirror {
        version: None,
        serial: None,
        not_before_days: None,
        not_after_days: None,
        subject: None,
        extensions: Vec::new(),
        signer: None,
        digest: None,
    };
    Ok(CertBuilder { inner, mirror })
}

/// Relies on openssl's X509Builder::set_version: stores the (zero-based)
/// certificate version field.
#[verifier::external_body]
fn x509_set_version(b: &mut CertBuilder, version: i32) -> (r: Result<(), ErrorStack>)
    ensures
        r is Ok ==> final(b).policy() == (CertPolicy { version: Some(version), ..old(b).policy() }),
{
    b.inner.set_version(version)?;
    b.mirror.version = Some(version);
    Ok(())
}

/// Relies on openssl's X509Builder::set_serial_number, with the value
/// converted through BigNum::from_u32 and BigNumRef::to_asn1_integer.
#[verifier::external_body]
fn x509_set_serial(b: &mut CertBuilder, serial: u32) -> (r: Result<(), ErrorStack>)
    ensures
        r is Ok ==> final(b).policy() == (CertPolicy { serial: Some(serial), ..old(b).policy() }),
{
    let asn1 = openssl::bn::BigNum::from_u32(serial)?.to_asn1_integer()?;
    b.inner.set_serial_number(&asn1)?;
    b.mirror.serial = Some(serial);
    Ok(())
}

/// Relies on openssl's X509Builder::set_not_before, with the time built by
/// Asn1Time::days_from_now, so the stored time is the moment of the call plus
/// the given days; the bound keeps the library's time arithmetic away from
/// any overflow.
#[verifier::external_body]
fn x509_set_not_before_days(b: &mut CertBuilder, days: u32) -> (r: Result<(), ErrorStack>)
    requires
        days <= CERT_VALIDITY_DAYS,
    ensures
        r is Ok ==> final(b).policy() == (CertPolicy {
            not_before_days: Some(days),
            ..old(b).policy()
        }),
{
    let t = Asn1Time::days_from_now(days)?;
    b.inner.set_not_before(&t)?;
    b.mirror.not_before_days = Some(days);
    Ok(())
}

/// Relies on openssl's X509Builder::set_not_after, with the time built by
/// Asn1Time::days_from_now, as for the start of the window.
#[verifier::external_body]
fn x509_set_not_after_days(b: &mut CertBuilder, days: u32) -> (r: Result<(), ErrorStack>)
    requires
        days <= CERT_VALIDITY_DAYS,
    ensures
        r is Ok ==> final(b).policy() == (CertPolicy {
            not_after_days: Some(days),
            ..old(b).policy()
        }),
{
    let t = Asn1Time::days_from_now(days)?;
    b.inner.set_not_after(&t)?;
    b.mirror.not_after_days = Some(days);
    Ok(())
}

/// Relies on openssl's PKey::from_rsa: the key pair viewed as a generic key.
/// The handle is reference-counted: the clones taken here denote the same
/// underlying key pair as the argument, which is what the mirror records; the
/// key material is shared, never regenerated.
#[verifier::external_body]
fn pkey_from_rsa(rsa: &Rsa<Private>) -> (r: Result<SessionKey, ErrorStack>)
    ensures
        r matches Ok(k) ==> k.pair() == *rsa,
{
    let inner = PKey::from_rsa(rsa.clone())?;
    Ok(SessionKey { inner, pair: rsa.clone() })
}

/// Relies on openssl's X509Builder::set_pubkey: stores the public half of the
/// key as the certificate's subject key. The mirror records the pair the key
/// handle denotes (a reference-counted clone of the same pair).
#[verifier::external_body]
fn x509_set_pubkey(b: &mut CertBuilder, key: &SessionKey) -> (r: Result<(), ErrorStack>)
    ensures
        r is Ok ==> final(b).policy() == (CertPolicy {
            subject: Some(key.pair()),
            ..old(b).policy()
        }),
{
    b.inner.set_pubkey(&key.inner)?;
    b.mirror.subject = Some(key.pair.clone());
    Ok(())
}

/// Relies on openssl's BasicConstraints builder: the basic-constraints
/// extension marked critical with CA set to true.
#[verifier::external_body]
fn basic_constraints_ca_critical() -> (r: Result<CertExtension, ErrorStack>)
    ensures
        r matches Ok(e) ==> e.kind() == ExtensionKind::BasicConstraintsCaCritical,
{
    let inner = BasicConstraints::new().critical().ca().build()?;
    Ok(CertExtension { inner, kind: ExtensionKind::BasicConstraintsCaCritical })
}

/// Relies on openssl's KeyUsage builder: the key-usage extension marked
/// critical with the certificate-signing, CRL-signing and digital-signature
/// bits set.
#[verifier::external_body]
fn key_usage_signing_critical() -> (r: Result<CertExtension, ErrorStack>)
    ensures
        r matches Ok(e) ==> e.kind() == ExtensionKind::KeyUsageSigningCritical,
{
    let inner = KeyUsage::new().critical().key_cert_sign().crl_sign().digital_signature().build()?;
    Ok(CertExtension { inner, kind: ExtensionKind::KeyUsageSigningCritical })
}

/// Relies on openssl's SubjectKeyIdentifier builder over the builder's
/// context: the non-critical identifier computed from the stored public key.
#[verifier::external_body]
fn subject_key_identifier_ext(b: &CertBuilder) -> (r: Result<CertExtension, ErrorStack>)
    ensures
        r matches Ok(e) ==> e.kind() == ExtensionKind::SubjectKeyIdentifier,
{
    let inner = SubjectKeyIdentifier::new().build(&b.inner.x509v3_context(None, None))?;
    Ok(CertExtension { inner, kind: ExtensionKind::SubjectKeyIdentifier })
}

/// Relies on openssl's X509Builder::append_extension: adds the extension in
/// the order of the calls, which the mirror records.
#[verifier::external_body]
fn x509_append_extension(b: &mut CertBuilder, ext: CertExtension) -> (r: Result<(), ErrorStack>)
    ensures
        r is Ok ==> final(b).policy() == (CertPolicy {
            extensions: old(b).policy().extensions.push(ext.kind()),
            ..old(b).policy()
        }),
{
    b.inner.append_extension(ext.inner)?;
    b.mirror.extensions.push(ext.kind);
    Ok(())
}

/// Relies on openssl's MessageDigest::sha256: the SHA-256 digest handle.
#[verifier::external_body]
fn digest_sha256() -> (r: Digest)
    ensures
        r.kind() == DigestKind::Sha256,
{
    Digest { inner: MessageDigest::sha256(), kind: DigestKind::Sha256 }
}

/// Relies on openssl's X509Builder::sign: signs the certificate with the
/// given private key and digest; the mirror records the pair the key handle
/// denotes (a reference-counted clone of the same pair) and the digest.
#[verifier::external_body]
fn x509_sign(b: &mut CertBuilder, key: &SessionKey, digest: Digest) -> (r: Result<(), ErrorStack>)
    ensures
        r is Ok ==> final(b).policy() == (CertPolicy {
            signer: Some(key.pair()),
            digest: Some(digest.kind()),
            ..old(b).policy()
        }),
{
    b.inner.sign(&key.inner, digest.inner)?;
    b.mirror.signer = Some(key.pair.clone());
    b.mirror.digest = Some(digest.kind);
    Ok(())
}

/// Relies on openssl's X509Builder::build: the finished certificate, carrying
/// the mirror of everything the build was handed.
#[verifier::external_body]
fn cert_builder_build(b: CertBuilder) -> (r: SessionCert)
    ensures
        r.policy() == b.policy(),
{
    let CertBuilder { inner, mirror } = b;
    SessionCert { inner: inner.build(), mirror }
}

/// Relies on openssl's SslContextBuilder::new with the generic TLS method; the
/// protocol version is pinned afterwards, which the mirror records.
#[verifier::external_body]
fn tls_context_builder_new() -> (r: Result<TlsContextBuilder, ErrorStack>)
    ensures
        r matches Ok(b) ==> b.policy() == spec_empty_tls_policy(),
{
    let inner = SslContextBuilder::new(SslMethod::tls())?;
    let mirror = TlsMirror { min_version: None, max_version: None, certificate: None, key: None };
    Ok(TlsContextBuilder { inner, mirror })
}

/// Relies on openssl's SslVersion::TLS1_3 constant.
#[verifier::external_body]
fn ssl_version_tls13() -> (r: TlsVersion)
    ensures
        r.kind() == TlsVersionKind::Tls13,
{
    TlsVersion { inner: SslVersion::TLS1_3, kind: TlsVersionKind::Tls13 }
}

/// Relies on openssl's SslContextBuilder::set_min_proto_version: the lowest
/// protocol version the handshake may negotiate.
#[verifier::external_body]
fn ssl_set_min_proto_version(b: &mut TlsContextBuilder, v: &TlsVersion) -> (r: Result<
    (),
    ErrorStack,
>)
    ensures
        r is Ok ==> final(b).policy() == (TlsPolicy {
            min_version: Some(v.kind()),
            ..old(b).policy()
        }),
{
    b.inner.set_min_proto_version(Some(v.inner))?;
    b.mirror.min_version = Some(v.kind);
    Ok(())
}

/// Relies on openssl's SslContextBuilder::set_max_proto_version: the highest
/// protocol version the handshake may negotiate.
#[verifier::external_body]
fn ssl_set_max_proto_version(b: &mut TlsContextBuilder, v: &TlsVersion) -> (r: Result<
    (),
    ErrorStack,
>)
    ensures
        r is Ok ==> final(b).policy() == (TlsPolicy {
            max_version: Some(v.kind()),
            ..old(b).policy()
        }),
{
    b.inner.set_max_proto_version(Some(v.inner))?;
    b.mirror.max_version = Some(v.kind);
    Ok(())
}

/// Relies on openssl's SslContextBuilder::set_certificate: the certificate
/// offered to the peer; the certificate's own build mirror moves into the
/// context's mirror.
#[verifier::external_body]
fn ssl_set_certificate(b: &mut TlsContextBuilder, cert: SessionCert) -> (r: Result<(), ErrorStack>)
    ensures
        r is Ok ==> final(b).policy() == (TlsPolicy {
            certificate: Some(cert.policy()),
            ..old(b).policy()
        }),
{
    b.inner.set_certificate(&cert.inner)?;
    b.mirror.certificate = Some(cert.mirror);
    Ok(())
}

/// Relies on openssl's SslContextBuilder::set_private_key: the private key
/// matching the offered certificate; the mirror records the pair the key
/// handle denotes (a reference-counted clone of the same pair).
#[verifier::external_body]
fn ssl_set_private_key(b: &mut TlsContextBuilder, key: &SessionKey) -> (r: Result<(), ErrorStack>)
    ensures
        r is Ok ==> final(b).policy() == (TlsPolicy { key: Some(key.pair()), ..old(b).policy() }),
{
    b.inner.set_private_key(&key.inner)?;
    b.mirror.key = Some(key.pair.clone());
    Ok(())
}

/// Relies on openssl's SslContextBuilder::build: the finished context,
/// carrying the mirror of its setup.
#[verifier::external_body]
fn tls_context_build(b: TlsContextBuilder) -> (r: TlsContext)
    ensures
        r.policy() == b.policy(),
{
    let TlsContextBuilder { inner, mirror } = b;
    TlsContext { inner: inner.build(), mirror }
}

/// Relies on openssl's Ssl::new: one session handle over the context, with no
/// role set yet.
#[verifier::external_body]
fn ssl_new(ctx: TlsContext) -> (r: Result<TlsClient, ErrorStack>)
    ensures
        r matches Ok(c) ==> c.policy() == ctx.policy() && c.role() is None,
{
    let inner = Ssl::new(&ctx.inner)?;
    Ok(TlsClient { inner, mirror: ctx.mirror, role: None })
}

/// Relies on openssl's Ssl::set_connect_state: the session takes the
/// connecting (client) role without an extra round of negotiation.
#[verifier::external_body]
fn ssl_set_connect_state(c: &mut TlsClient)
    ensures
        final(c).policy() == old(c).policy(),
        final(c).role() == Some(TlsRole::Client),
{
    c.inner.set_connect_state();
    c.role = Some(TlsRole::Client);
}

/// Maps any cryptographic library failure to the library's credential error;
/// every such failure is fatal and there is no fallback identity.
fn ck<T>(r: Result<T, ErrorStack>) -> (out: Result<T, AdbError>)
    ensures
        match out {
            Ok(v) => r == Ok::<T, ErrorStack>(v),
            Err(e) => r is Err && e == AdbError::Crypto,
        },
{
    match r {
        Ok(v) => Ok(v),
        Err(_) => Err(AdbError::Crypto),
    }
}

/// Builds the ephemeral self-signed session certificate from the device's
/// existing key pair. On success the certificate's build was handed exactly
/// the fixed policy: X.509 version 3, serial number 2, valid from now for
/// exactly 3650 days, the public half of the supplied pair as subject key,
/// critical basic-constraints (CA) and key-usage (certificate signing, CRL
/// signing, digital signature) extensions followed by the subject key
/// identifier, and a SHA-256 self-signature by the same pair. Any library
/// failure is a fatal credential error.
pub fn generate_x509_certificate(rsa: &Rsa<Private>) -> (r: Result<SessionCert, AdbError>)
    ensures
        r matches Ok(c) ==> c.policy() == spec_session_cert_policy(*rsa),
        r is Err ==> r == Err::<SessionCert, AdbError>(AdbError::Crypto),
{
    let mut builder = ck(cert_builder_new())?;
    ck(x509_set_version(&mut builder, CERT_VERSION_X509V3))?;
    ck(x509_set_serial(&mut builder, CERT_SERIAL))?;
    ck(x509_set_not_before_days(&mut builder, 0))?;
    ck(x509_set_not_after_days(&mut builder, CERT_VALIDITY_DAYS))?;
    let key = ck(pkey_from_rsa(rsa))?;
    ck(x509_set_pubkey(&mut builder, &key))?;
    let basic = ck(basic_constraints_ca_critical())?;
    ck(x509_append_extension(&mut builder, basic))?;
    let usage = ck(key_usage_signing_critical())?;
    ck(x509_append_extension(&mut builder, usage))?;
    let ski = ck(subject_key_identifier_ext(&builder))?;
    ck(x509_append_extension(&mut builder, ski))?;
    let digest = digest_sha256();
    ck(x509_sign(&mut builder, &key, digest))?;
    proof {
        assert(builder.policy() =~= spec_session_cert_policy(*rsa));
    }
    Ok(cert_builder_build(builder))
}

/// Prepares the client side of the encryption handshake. On success the
/// returned session was set up with exactly the fixed policy: minimum and
/// maximum protocol version pinned to the same single version (no negotiation
/// range), the freshly generated session certificate installed for the peer,
/// the supplied pair's private half as session key, and the connecting
/// (client) role. The caller wraps the raw stream with it and runs the
/// handshake; any failure here is a fatal credential error.
pub fn prepare_tls_client(rsa: &Rsa<Private>) -> (r: Result<TlsClient, AdbError>)
    ensures
        r matches Ok(c) ==> c.policy() == spec_session_tls_policy(*rsa) && c.role() == Some(
            TlsRole::Client,
        ),
        r is Err ==> r == Err::<TlsClient, AdbError>(AdbError::Crypto),
{
    let cert = generate_x509_certificate(rsa)?;
    let key = ck(pkey_from_rsa(rsa))?;
    let mut cb = ck(tls_context_builder_new())?;
    let pinned = ssl_version_tls13();
    ck(ssl_set_min_proto_version(&mut cb, &pinned))?;
    ck(ssl_set_max_proto_version(&mut cb, &pinned))?;
    ck(ssl_set_certificate(&mut cb, cert))?;
    ck(ssl_set_private_key(&mut cb, &key))?;
    let ctx = tls_context_build(cb);
    let mut client = ck(ssl_new(ctx))?;
    proof {
        assert(client.policy() =~= spec_session_tls_policy(*rsa));
    }
    ssl_set_connect_state(&mut client);
    Ok(client)
}

} // verus!
