//! The device's TLS identity: a self-signed certificate and its SHA-256 fingerprint.
use rcgen::{Certificate, KeyPair};
use rustls::pki_types::{CertificateDer, PrivateKeyDer, PrivatePkcs8KeyDer};
use rustls::ServerConfig;
use sha2::{Digest, Sha256};
use std::sync::Arc;
use vstd::prelude::*;

use crate::ids::{new_id, uuid_hyphenated, uuid_text};
pub use crate::text::encode_hex;
use crate::text::{hex_text, lemma_hex_text_len};

verus! {

#[verifier::external_type_specification]
#[verifier::external_body]
pub struct ExCertificate(Certificate);

#[verifier::external_type_specification]
#[verifier::external_body]
pub struct ExKeyPair(KeyPair);

#[verifier::external_type_specification]
#[verifier::external_body]
pub struct ExRcgenError(rcgen::Error);

#[verifier::external_type_specification]
#[verifier::external_body]
pub struct ExServerConfig(ServerConfig);

#[verifier::external_type_specification]
#[verifier::external_body]
pub struct ExTlsError(rustls::Error);

/// A version of TLS.
#[derive(Debug, Clone, Copy, PartialEq, Eq)]
pub enum TlsVersion {
    Tls12,
    Tls13,
}

/// The one TLS version transfers are encrypted with: TLS 1.3.
pub const TRANSFER_TLS_VERSION: TlsVersion = TlsVersion::Tls13;

/// Whether rustls accepts the certificate `cert` (DER) with the PKCS#8 private key
/// `key` (DER) as the single certificate of a server speaking TLS `version` only: the
/// key parses and fits the certificate.
pub uninterp spec fn single_cert_accepted(cert: Seq<u8>, key: Seq<u8>, version: TlsVersion) -> bool;

/// `rustls::ServerConfig::builder_with_protocol_versions(&[version])
/// .with_no_client_auth().with_single_cert(..)`: a TLS server setup that speaks TLS
/// `version` only, asks clients for no certificate and presents the certificate
/// `cert_der` with the PKCS#8 private key `key_der`; or the error rustls gives when it
/// refuses them. Whether it refuses them depends on the three alone. The setup itself
/// is an opaque rustls value, so what it offers and presents is stated here, in
/// words, and fixed by what is handed to the call, not in a clause of its result.
#[verifier::external_body]
fn single_cert_server(version: TlsVersion, cert_der: Vec<u8>, key_der: Vec<u8>) -> (r: Result<
    Arc<ServerConfig>,
    rustls::Error,
>)
    ensures
        r is Ok <==> single_cert_accepted(cert_der@, key_der@, version),
{
    let v: &'static rustls::SupportedProtocolVersion = match version {
        TlsVersion::Tls12 => &rustls::version::TLS12,
        TlsVersion::Tls13 => &rustls::version::TLS13,
    };
    let key = PrivateKeyDer::from(PrivatePkcs8KeyDer::from(key_der));
    let builder = ServerConfig::builder_with_protocol_versions(&[v]);
    match builder.with_no_client_auth().with_single_cert(vec![CertificateDer::from(cert_der)], key) {
        Ok(config) => Ok(Arc::new(config)),
        Err(e) => Err(e),
    }
}

/// The SHA-256 digest of a byte string.
pub uninterp spec fn sha256_digest(data: Seq<u8>) -> Seq<u8>;

/// `sha2::Sha256::digest`: the SHA-256 digest of `data`, which is 32 bytes long.
#[verifier::external_body]
fn sha256(data: &[u8]) -> (d: Vec<u8>)
    ensures
        d@ == sha256_digest(data@),
        d@.len() == 32,
{
    Sha256::digest(data).to_vec()
}

/// The fingerprint text of a certificate: the lowercase hex of the SHA-256 of its DER.
pub open spec fn fingerprint_text(der: Seq<u8>) -> Seq<char> {
    hex_text(sha256_digest(der))
}

/// A certificate fingerprint: lowercase hex of the SHA-256 digest of the DER encoding.
#[derive(Debug, Clone)]
pub struct CertFingerprint(pub String);

impl CertFingerprint {
    /// The fingerprint of a DER-encoded certificate.
    pub fn from_der(der: &[u8]) -> (fp: CertFingerprint)
        ensures
            fp.0@ == fingerprint_text(der@),
            fp.0@.len() == 64,
    {
        let hash = sha256(der);
        proof {
            lemma_hex_text_len(hash@);
        }
        CertFingerprint(encode_hex(hash.as_slice()))
    }

    /// The fingerprint's text.
    pub fn as_str(&self) -> (s: &str)
        ensures
            s@ == self.0@,
    {
        self.0.as_str()
    }
}

/// The names a device's certificate is issued for: `localhost` and `landrop-<device id>`.
pub open spec fn subject_alt_names(device_id: u128) -> Seq<Seq<char>> {
    seq!["localhost"@, "landrop-"@ + uuid_hyphenated(device_id)]
}

/// The subject alternative names a DER-encoded certificate is issued for, as text.
pub uninterp spec fn certificate_names(der: Seq<u8>) -> Seq<Seq<char>>;

/// A name that no IP address is written as: it holds a character that is neither a
/// hexadecimal digit, nor `.`, nor `:`.
pub open spec fn not_an_address(name: Seq<char>) -> bool {
    exists|i: int|
        0 <= i < name.len() && !(('0' <= #[trigger] name[i] <= '9') || ('a' <= name[i] <= 'f') || ('A'
            <= name[i] <= 'F') || name[i] == '.' || name[i] == ':')
}

/// `rcgen::generate_simple_self_signed`: a fresh key pair and a certificate that it
/// signs for the given names, with the certificate's DER encoding and the key pair in
/// PKCS#8 DER (`KeyPair::serialize_der`, which cannot fail here: the pair was just
/// generated, so its private key is at hand). A name that is
/// not an IP address becomes a DNS name of the certificate, so when no name is an
/// address the certificate is issued for exactly the names given, in order. Nothing
/// else is stated of the key or the certificate: the key is drawn at random.
#[verifier::external_body]
fn self_signed(names: Vec<String>) -> (res: Result<(Certificate, KeyPair, Vec<u8>, Vec<u8>), rcgen::Error>)
    ensures
        res matches Ok((_, _, der, _)) ==> ((forall|i: int|
            0 <= i < names@.len() ==> not_an_address(#[trigger] names@[i]@)) ==> certificate_names(der@)
            == names@.map_values(|n: String| n@)),
{
    match rcgen::generate_simple_self_signed(names) {
        Ok(ck) => {
            let der = ck.cert.der().to_vec();
            let key_der = ck.key_pair.serialize_der();
            Ok((ck.cert, ck.key_pair, der, key_der))
        },
        Err(e) => Err(e),
    }
}

/// Why a device identity could not be created.
#[derive(Debug)]
pub enum IdentityError {
    /// The certificate generator failed.
    Generation(rcgen::Error),
    /// The TLS library refused the certificate and key.
    Tls(rustls::Error),
}

/// The device's identity: its id, its self-signed certificate and key, and the
/// certificate's fingerprint.
pub struct DeviceIdentity {
    pub cert: Certificate,
    pub fingerprint: CertFingerprint,
    pub device_id: u128,
    key_pair: KeyPair,
    key_der: Vec<u8>,
    der: Vec<u8>,
}

impl DeviceIdentity {
    /// The DER encoding of the identity's certificate.
    pub closed spec fn der_bytes(&self) -> Seq<u8> {
        self.der@
    }

    /// The text of the identity's fingerprint.
    pub closed spec fn fingerprint_chars(&self) -> Seq<char> {
        self.fingerprint.0@
    }

    /// The identity's device id.
    pub closed spec fn id(&self) -> u128 {
        self.device_id
    }

    /// The identity's certificate.
    pub closed spec fn certificate(&self) -> Certificate {
        self.cert
    }

    /// The key pair the certificate was signed with.
    pub closed spec fn key(&self) -> KeyPair {
        self.key_pair
    }

    /// The key pair in PKCS#8 DER, as the certificate generator gave it.
    pub closed spec fn key_der_bytes(&self) -> Seq<u8> {
        self.key_der@
    }

    /// The names the identity's certificate is issued for.
    pub closed spec fn issued_for(&self) -> Seq<Seq<char>> {
        certificate_names(self.der@)
    }

    /// A new identity: a fresh random device id, and a self-signed certificate issued
    /// for `localhost` and `landrop-<device id>`, fingerprinted.
    pub fn generate() -> (res: Result<DeviceIdentity, IdentityError>)
        ensures
            res matches Ok(id) ==> id.fingerprint_chars() == fingerprint_text(id.der_bytes())
                && id.fingerprint_chars().len() == 64 && id.issued_for() == subject_alt_names(id.id()),
            res matches Err(e) ==> e is Generation,
    {
        let device_id = new_id();
        let mut names: Vec<String> = Vec::new();
        names.push(String::from_str("localhost"));
        let mut tagged = String::from_str("landrop-");
        let id_text = uuid_text(device_id);
        tagged.append(id_text.as_str());
        names.push(tagged);
        proof {
            reveal_strlit("localhost");
            reveal_strlit("landrop-");
        }
        assert(names@.map_values(|n: String| n@) =~= subject_alt_names(device_id));
        assert(not_an_address(names@[0]@)) by {
            assert(names@[0]@[0] == 'l');
        }
        assert(not_an_address(names@[1]@)) by {
            assert(names@[1]@[0] == 'l');
        }
        let generated = self_signed(names);
        Self::from_generated(device_id, generated)
    }

    /// The identity of device `device_id` made of what the certificate generator gave:
    /// its certificate, key pair, the certificate's DER (fingerprinted) and the key
    /// pair's PKCS#8 DER; or the generator's error, as `Generation`.
    pub fn from_generated(
        device_id: u128,
        generated: Result<(Certificate, KeyPair, Vec<u8>, Vec<u8>), rcgen::Error>,
    ) -> (res: Result<DeviceIdentity, IdentityError>)
        ensures
            match generated {
                Ok((cert, key_pair, der, key_der)) => res matches Ok(id) && id.certificate() == cert
                    && id.key() == key_pair && id.id() == device_id && id.der_bytes() == der@
                    && id.key_der_bytes() == key_der@ && id.fingerprint_chars() == fingerprint_text(der@)
                    && id.fingerprint_chars().len() == 64,
                Err(e) => res matches Err(IdentityError::Generation(e2)) && e2 == e,
            },
    {
        match generated {
            Ok((cert, key_pair, der, key_der)) => {
                let fingerprint = CertFingerprint::from_der(der.as_slice());
                Ok(DeviceIdentity { cert, fingerprint, device_id, key_pair, key_der, der })
            },
            Err(e) => Err(IdentityError::Generation(e)),
        }
    }

    /// The DER encoding of the identity's certificate.
    pub fn cert_der(&self) -> (d: Vec<u8>)
        ensures
            d@ == self.der_bytes(),
    {
        self.der.clone()
    }

    /// The key pair the certificate was signed with.
    pub fn key_pair(&self) -> (kp: &KeyPair)
        ensures
            *kp == self.key(),
    {
        &self.key_pair
    }

    /// The TLS server setup of this identity: it speaks `TRANSFER_TLS_VERSION` (TLS
    /// 1.3) only, presents the identity's certificate with its key, and asks clients
    /// for no certificate. It succeeds exactly when the TLS library accepts that
    /// certificate with that key for that version; a refusal is passed on as `Tls`.
    pub fn server_config(&self) -> (r: Result<Arc<ServerConfig>, IdentityError>)
        ensures
            r is Ok <==> single_cert_accepted(self.der_bytes(), self.key_der_bytes(), TlsVersion::Tls13),
            r matches Err(e) ==> e is Tls,
    {
        match single_cert_server(TRANSFER_TLS_VERSION, self.der.clone(), self.key_der.clone()) {
            Ok(config) => Ok(config),
            Err(e) => Err(IdentityError::Tls(e)),
        }
    }
}

} // verus!
