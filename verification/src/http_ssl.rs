//! TLS material of an `ssl` block and the rustls server configuration made
//! from it.

use rustls::pki_types::pem::PemObject;
use rustls::pki_types::{CertificateDer, PrivateKeyDer, PrivatePkcs8KeyDer};
use rustls::{ServerConfig, ServerConnection};
use std::sync::Arc;
use vstd::prelude::*;

verus! {

/// `rustls::ServerConfig`, carried through as an opaque value.
#[verifier::external_type_specification]
#[verifier::external_body]
pub struct ExServerConfig(rustls::ServerConfig);

/// `rustls::Error`, carried through as an opaque value.
#[verifier::external_type_specification]
#[verifier::external_body]
pub struct ExRustlsError(rustls::Error);

/// `rustls::ServerConnection`, carried through as an opaque value.
#[verifier::external_type_specification]
#[verifier::external_body]
pub struct ExServerConnection(rustls::ServerConnection);

/// `rustls::pki_types::pem::Error`, carried through as an opaque value.
#[verifier::external_type_specification]
#[verifier::external_body]
pub struct ExPemError(rustls::pki_types::pem::Error);

/// The DER bytes of the first `CERTIFICATE` section that
/// `CertificateDer::from_pem_slice` decodes from `pem`, or `None` where it
/// reports an error.
pub uninterp spec fn certificate_der_of_pem(pem: Seq<u8>) -> Option<Seq<u8>>;

/// The DER bytes of the first `PRIVATE KEY` section that
/// `PrivatePkcs8KeyDer::from_pem_slice` decodes from `pem`, or `None` where it
/// reports an error.
pub uninterp spec fn pkcs8_key_der_of_pem(pem: Seq<u8>) -> Option<Seq<u8>>;

/// Calls `CertificateDer::from_pem_slice` of rustls-pki-types. Trusted: the
/// call is a pure decoding of its argument, so its outcome is the named
/// function of the PEM bytes; on success the certificate's DER bytes are
/// handed out.
#[verifier::external_body]
fn certificate_from_pem(pem: &[u8]) -> (decoded: Result<Vec<u8>, rustls::pki_types::pem::Error>)
    ensures
        match decoded {
            Ok(der) => certificate_der_of_pem(pem@) == Some(der@),
            Err(_) => certificate_der_of_pem(pem@) is None,
        },
{
    match CertificateDer::from_pem_slice(pem) {
        Ok(certificate) => Ok(certificate.to_vec()),
        Err(e) => Err(e),
    }
}

/// Calls `PrivatePkcs8KeyDer::from_pem_slice` of rustls-pki-types. Trusted:
/// the call is a pure decoding of its argument, so its outcome is the named
/// function of the PEM bytes; on success the key's DER bytes are handed out.
#[verifier::external_body]
fn pkcs8_key_from_pem(pem: &[u8]) -> (decoded: Result<Vec<u8>, rustls::pki_types::pem::Error>)
    ensures
        match decoded {
            Ok(der) => pkcs8_key_der_of_pem(pem@) == Some(der@),
            Err(_) => pkcs8_key_der_of_pem(pem@) is None,
        },
{
    match PrivatePkcs8KeyDer::from_pem_slice(pem) {
        Ok(key) => Ok(key.secret_pkcs8_der().to_vec()),
        Err(e) => Err(e),
    }
}

/// Builds a `rustls::ServerConfig` without client authentication for one
/// certificate and its PKCS#8 key, with the ring provider and the default
/// protocol versions (`ServerConfig::builder_with_provider`,
/// `with_safe_default_protocol_versions`, `with_no_client_auth`,
/// `with_single_cert`). Nothing is claimed of the outcome: loading the key
/// consults the system's random source.
#[verifier::external_body]
fn single_cert_config(certificate_der: Vec<u8>, key_der: Vec<u8>) -> Result<
    ServerConfig,
    rustls::Error,
> {
    let key = PrivateKeyDer::Pkcs8(PrivatePkcs8KeyDer::from(key_der));
    ServerConfig::builder_with_provider(Arc::new(rustls::crypto::ring::default_provider()))
        .with_safe_default_protocol_versions()?
        .with_no_client_auth()
        .with_single_cert(vec![CertificateDer::from(certificate_der)], key)
}

/// Calls `rustls::ServerConnection::new`, which makes the state of a
/// server-side TLS session that has exchanged nothing yet. Nothing is claimed
/// of the outcome: it rests on what the opaque configuration holds.
#[verifier::external_body]
pub(crate) fn new_server_session(config: Arc<ServerConfig>) -> Result<
    ServerConnection,
    rustls::Error,
> {
    ServerConnection::new(config)
}

/// Why an `ssl` block yields no TLS configuration.
#[derive(Clone, Copy, Debug, PartialEq, Eq, Structural)]
pub enum TlsError {
    /// The block names no certificate.
    MissingCertificate,
    /// The block names no private key.
    MissingPrivateKey,
    /// The private key is not a PEM `PRIVATE KEY` section.
    InvalidPrivateKey,
    /// The certificate is not a PEM `CERTIFICATE` section.
    InvalidCertificate,
    /// The TLS library refused the certificate and key.
    Rejected,
}

/// What an `ssl` block holds, as contracts see it.
pub ghost struct HttpSslContextView {
    pub certificate: Option<Seq<u8>>,
    pub private_key: Option<Seq<u8>>,
}

/// The context of one `ssl` block: the PEM text of a certificate and of its
/// private key, as far as directives have supplied them.
pub struct HttpSslContext {
    certificate: Option<Vec<u8>>,
    private_key: Option<Vec<u8>>,
}

impl View for HttpSslContext {
    type V = HttpSslContextView;

    closed spec fn view(&self) -> HttpSslContextView {
        HttpSslContextView {
            certificate: match self.certificate {
                Some(pem) => Some(pem@),
                None => None,
            },
            private_key: match self.private_key {
                Some(pem) => Some(pem@),
                None => None,
            },
        }
    }
}

impl HttpSslContext {
    /// A context without certificate and key.
    pub fn new() -> (ctx: HttpSslContext)
        ensures
            ctx@ == (HttpSslContextView { certificate: None, private_key: None }),
    {
        HttpSslContext { certificate: None, private_key: None }
    }

    /// Sets the certificate, as PEM text.
    pub fn set_certificate(&mut self, pem: Vec<u8>)
        ensures
            final(self)@ == (HttpSslContextView { certificate: Some(pem@), ..old(self)@ }),
    {
        self.certificate = Some(pem);
    }

    /// Sets the private key, as PEM text.
    pub fn set_private_key(&mut self, pem: Vec<u8>)
        ensures
            final(self)@ == (HttpSslContextView { private_key: Some(pem@), ..old(self)@ }),
    {
        self.private_key = Some(pem);
    }
}

/// The certificate and private key of a server, both as PEM text.
pub struct HttpSSL {
    pub certificate: Vec<u8>,
    pub private_key: Vec<u8>,
}

/// What `HttpSSL::from_config` makes of a context.
pub open spec fn material_of(ctx: HttpSslContextView) -> Result<(Seq<u8>, Seq<u8>), TlsError> {
    match (ctx.certificate, ctx.private_key) {
        (None, _) => Err(TlsError::MissingCertificate),
        (Some(_), None) => Err(TlsError::MissingPrivateKey),
        (Some(certificate), Some(private_key)) => Ok((certificate, private_key)),
    }
}

/// The DER bytes of a certificate and of a key given as PEM text; the key is
/// decoded first.
pub open spec fn der_pair_of(certificate_pem: Seq<u8>, key_pem: Seq<u8>) -> Result<
    (Seq<u8>, Seq<u8>),
    TlsError,
> {
    match pkcs8_key_der_of_pem(key_pem) {
        None => Err(TlsError::InvalidPrivateKey),
        Some(key_der) => match certificate_der_of_pem(certificate_pem) {
            None => Err(TlsError::InvalidCertificate),
            Some(certificate_der) => Ok((certificate_der, key_der)),
        },
    }
}

/// Whether an `ssl` block holds a certificate and a key that both decode.
pub open spec fn tls_material_decodes(ctx: HttpSslContextView) -> bool {
    material_of(ctx) matches Ok(pems) && der_pair_of(pems.0, pems.1) is Ok
}

fn copy_bytes(bytes: &Vec<u8>) -> (out: Vec<u8>)
    ensures
        out@ == bytes@,
{
    let mut out: Vec<u8> = Vec::new();
    crate::http_type::append_bytes(&mut out, bytes.as_slice());
    out
}

impl HttpSSL {
    /// Reads the certificate and the key out of an `ssl` block's context.
    pub fn from_config(ctx: &HttpSslContext) -> (loaded: Result<HttpSSL, TlsError>)
        ensures
            match loaded {
                Ok(ssl) => material_of(ctx@) == Ok::<(Seq<u8>, Seq<u8>), TlsError>(
                    (ssl.certificate@, ssl.private_key@),
                ),
                Err(e) => material_of(ctx@) == Err::<(Seq<u8>, Seq<u8>), TlsError>(e),
            },
    {
        match &ctx.certificate {
            None => Err(TlsError::MissingCertificate),
            Some(certificate) => match &ctx.private_key {
                None => Err(TlsError::MissingPrivateKey),
                Some(private_key) => Ok(
                    HttpSSL {
                        certificate: copy_bytes(certificate),
                        private_key: copy_bytes(private_key),
                    },
                ),
            },
        }
    }

    /// Decodes the PEM text into the DER bytes of the certificate and of the
    /// key.
    pub fn to_der(&self) -> (decoded: Result<(Vec<u8>, Vec<u8>), TlsError>)
        ensures
            match decoded {
                Ok(pair) => der_pair_of(self.certificate@, self.private_key@) == Ok::<
                    (Seq<u8>, Seq<u8>),
                    TlsError,
                >((pair.0@, pair.1@)),
                Err(e) => der_pair_of(self.certificate@, self.private_key@) == Err::<
                    (Seq<u8>, Seq<u8>),
                    TlsError,
                >(e),
            },
    {
        let key_der = match pkcs8_key_from_pem(self.private_key.as_slice()) {
            Ok(der) => der,
            Err(_) => {
                return Err(TlsError::InvalidPrivateKey);
            },
        };
        let certificate_der = match certificate_from_pem(self.certificate.as_slice()) {
            Ok(der) => der,
            Err(_) => {
                return Err(TlsError::InvalidCertificate);
            },
        };
        Ok((certificate_der, key_der))
    }
}

/// What becomes of the TLS library's verdict on a certificate and key.
pub fn accept_verdict(verdict: Result<ServerConfig, rustls::Error>) -> (config: Result<
    ServerConfig,
    TlsError,
>)
    ensures
        match verdict {
            Ok(accepted) => config == Ok::<ServerConfig, TlsError>(accepted),
            Err(_) => config == Err::<ServerConfig, TlsError>(TlsError::Rejected),
        },
{
    match verdict {
        Ok(accepted) => Ok(accepted),
        Err(_) => Err(TlsError::Rejected),
    }
}

/// Makes the TLS configuration of a server from its certificate and key.
///
/// Material that does not decode fails with the error of `der_pair_of`.
/// Material that decodes is put before the TLS library, whose verdict decides
/// between a configuration and `TlsError::Rejected`.
pub fn server_tls_config(ssl: &HttpSSL) -> (config: Result<ServerConfig, TlsError>)
    ensures
        match der_pair_of(ssl.certificate@, ssl.private_key@) {
            Err(e) => config == Err::<ServerConfig, TlsError>(e),
            Ok(_) => config is Ok || config == Err::<ServerConfig, TlsError>(TlsError::Rejected),
        },
{
    match ssl.to_der() {
        Err(e) => Err(e),
        Ok((certificate_der, key_der)) => accept_verdict(
            single_cert_config(certificate_der, key_der),
        ),
    }
}

} // verus!
