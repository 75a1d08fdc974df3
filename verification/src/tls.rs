use rustls_pki_types::PrivateKeyDer;
use vstd::prelude::*;

verus! {

/// The encodings a private key in a PEM file can come in.
#[derive(Clone, Copy, Debug, PartialEq, Eq, Structural)]
pub enum KeyKind {
    /// An RSA private key (`BEGIN RSA PRIVATE KEY`).
    Pkcs1,
    /// A SEC1 elliptic-curve private key (`BEGIN EC PRIVATE KEY`).
    Sec1,
    /// A PKCS#8 private key (`BEGIN PRIVATE KEY`).
    Pkcs8,
}

/// A private key taken from a PEM file: its encoding and its DER bytes.
pub struct PrivateKey {
    pub kind: KeyKind,
    pub der: Vec<u8>,
}

/// Why key material could not be loaded.
#[derive(Debug)]
pub enum PemError {
    /// The PEM text could not be read; the message says why.
    Read(String),
    /// The PEM text holds no private key.
    NoPrivateKey,
}

/// The DER bytes of every certificate section of the PEM text `pem`, in
/// order, as `rustls_pemfile::certs` yields them; `None` when it reports an
/// error instead.
pub uninterp spec fn pem_certificates(pem: Seq<u8>) -> Option<Seq<Seq<u8>>>;

/// The first private key section of the PEM text `pem` (its kind and DER
/// bytes), as `rustls_pemfile::private_key` returns it: `Some(None)` when
/// there is none, `None` when it reports an error (or returns a key of a
/// kind other than the three listed in `KeyKind`).
pub uninterp spec fn pem_private_key(pem: Seq<u8>) -> Option<Option<(KeyKind, Seq<u8>)>>;

/// Calls `rustls_pemfile::certs` on `pem` and collects the certificates'
/// DER bytes, stopping at the first error. The contract ties the outcome to
/// `pem_certificates`; the text of the error is not stated.
#[verifier::external_body]
fn read_pem_certificates(pem: &[u8]) -> (r: Result<Vec<Vec<u8>>, String>)
    ensures
        match r {
            Ok(ders) => pem_certificates(pem@) == Some(ders.deep_view()),
            Err(_) => pem_certificates(pem@) is None,
        },
{
    let mut reader: &[u8] = pem;
    rustls_pemfile::certs(&mut reader).map(|c| c.map(|der| der.as_ref().to_vec())).collect::<
        Result<Vec<Vec<u8>>, std::io::Error>,
    >().map_err(|e| e.to_string())
}

/// Calls `rustls_pemfile::private_key` on `pem` and takes the key's kind and
/// DER bytes. The contract ties the outcome to `pem_private_key`; the text of
/// the error is not stated. (`PrivateKeyDer` is marked non-exhaustive; the
/// version in use has exactly the three kinds matched here.)
#[verifier::external_body]
fn read_pem_private_key(pem: &[u8]) -> (r: Result<Option<PrivateKey>, String>)
    ensures
        match r {
            Ok(Some(key)) => pem_private_key(pem@) == Some(Some((key.kind, key.der@))),
            Ok(None) => pem_private_key(pem@) == Some(None::<(KeyKind, Seq<u8>)>),
            Err(_) => pem_private_key(pem@) is None,
        },
{
    let mut reader: &[u8] = pem;
    match rustls_pemfile::private_key(&mut reader) {
        Ok(Some(PrivateKeyDer::Pkcs1(k))) => Ok(Some(PrivateKey { kind: KeyKind::Pkcs1, der: k.secret_pkcs1_der().to_vec() })),
        Ok(Some(PrivateKeyDer::Sec1(k))) => Ok(Some(PrivateKey { kind: KeyKind::Sec1, der: k.secret_sec1_der().to_vec() })),
        Ok(Some(PrivateKeyDer::Pkcs8(k))) => Ok(Some(PrivateKey { kind: KeyKind::Pkcs8, der: k.secret_pkcs8_der().to_vec() })),
        Ok(Some(_)) => Err(String::from("unsupported private key kind")),
        Ok(None) => Ok(None),
        Err(e) => Err(e.to_string()),
    }
}

/// The DER bytes of every certificate in the PEM text `pem`, in order.
pub fn load_certs(pem: &[u8]) -> (r: Result<Vec<Vec<u8>>, PemError>)
    ensures
        match r {
            Ok(ders) => pem_certificates(pem@) == Some(ders.deep_view()),
            Err(e) => pem_certificates(pem@) is None && e is Read,
        },
{
    match read_pem_certificates(pem) {
        Ok(ders) => Ok(ders),
        Err(msg) => Err(PemError::Read(msg)),
    }
}

/// The key that a read of PEM text found, or the error for finding none.
pub fn key_or_missing(found: Option<PrivateKey>) -> (r: Result<PrivateKey, PemError>)
    ensures
        match found {
            Some(key) => r matches Ok(k) && k.kind == key.kind && k.der@ == key.der@,
            None => r matches Err(PemError::NoPrivateKey),
        },
{
    match found {
        Some(key) => Ok(key),
        None => Err(PemError::NoPrivateKey),
    }
}

/// The first private key in the PEM text `pem`, or `NoPrivateKey` when it
/// holds none. The text must be readable as PEM.
pub fn load_key(pem: &[u8]) -> (r: Result<PrivateKey, PemError>)
    requires
        pem_private_key(pem@) is Some,
    ensures
        match pem_private_key(pem@) {
            Some(Some((kind, der))) => r matches Ok(k) && k.kind == kind && k.der@ == der,
            _ => r matches Err(PemError::NoPrivateKey),
        },
{
    match read_pem_private_key(pem) {
        Ok(found) => key_or_missing(found),
        Err(_) => Err(PemError::NoPrivateKey),
    }
}

/// Like `load_key`, for any PEM text: `None` when the text cannot be read as PEM.
pub fn try_load_key(pem: &[u8]) -> (r: Option<Result<PrivateKey, PemError>>)
    ensures
        match pem_private_key(pem@) {
            None => r is None,
            Some(Some((kind, der))) => r matches Some(Ok(k)) && k.kind == kind && k.der@ == der,
            Some(None) => r matches Some(Err(PemError::NoPrivateKey)),
        },
{
    match read_pem_private_key(pem) {
        Ok(_) => Some(load_key(pem)),
        Err(_) => None,
    }
}

} // verus!
