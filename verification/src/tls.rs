//! TLS configuration: server and client configurations built from the PEM text of
//! certificates and private keys.
use vstd::prelude::*;
use std::sync::Arc;

verus! {

/// `std::io::Error`, the error of reading PEM text.
#[verifier::external_type_specification]
#[verifier::external_body]
pub struct ExIoError(std::io::Error);

/// `rustls::Error`, the error of building a configuration.
#[verifier::external_type_specification]
#[verifier::external_body]
pub struct ExRustlsError(rustls::Error);

/// `rustls::ServerConfig`, a server's TLS configuration.
#[verifier::external_type_specification]
#[verifier::external_body]
pub struct ExServerConfig(rustls::ServerConfig);

/// `rustls::ClientConfig`, a client's TLS configuration.
#[verifier::external_type_specification]
#[verifier::external_body]
pub struct ExClientConfig(rustls::ClientConfig);

/// `rustls::RootCertStore`, the trust anchors a client accepts.
#[verifier::external_type_specification]
#[verifier::external_body]
pub struct ExRootCertStore(rustls::RootCertStore);

/// Why a TLS configuration could not be built.
#[derive(Debug)]
pub enum TlsError {
    /// The PEM text could not be read.
    Pem(std::io::Error),
    /// The key file holds no PKCS#8 private key.
    NoPrivateKey,
    /// The certificate chain and the key do not make a server configuration.
    Certificate(rustls::Error),
    /// A certificate could not be made a trust anchor.
    RootCertificate(rustls::Error),
}

/// The DER certificates in PEM text, in order, or `None` where the text cannot be read.
pub uninterp spec fn spec_pem_certificates(pem: Seq<u8>) -> Option<Seq<Seq<u8>>>;

/// The DER PKCS#8 private keys in PEM text, in order, or `None` where the text cannot be
/// read.
pub uninterp spec fn spec_pem_pkcs8_keys(pem: Seq<u8>) -> Option<Seq<Seq<u8>>>;

/// A trust anchor as plain values: the subject, the subject public key info, and the name
/// constraints where the certificate has them (all DER).
pub type AnchorView = (Seq<u8>, Seq<u8>, Option<Seq<u8>>);

/// The trust anchor made from a DER certificate, or `None` where none can be made.
pub uninterp spec fn spec_trust_anchor_of(cert: Seq<u8>) -> Option<AnchorView>;

/// The trust anchors of a root store, in order.
pub uninterp spec fn spec_root_anchors(store: rustls::RootCertStore) -> Seq<AnchorView>;

/// The trust anchors that a client configuration verifies servers against.
pub uninterp spec fn spec_client_config_anchors(config: rustls::ClientConfig) -> Seq<AnchorView>;

/// Whether a client configuration has certificates to authenticate itself with.
pub uninterp spec fn spec_client_config_has_certs(config: rustls::ClientConfig) -> bool;

/// The certified key of a server configuration: the DER certificate chain that it presents
/// and the DER PKCS#8 private key that it signs with.
pub uninterp spec fn spec_server_certified_key(config: rustls::ServerConfig) -> (Seq<Seq<u8>>, Seq<u8>);

/// The DER certificate chain that a server configuration presents.
pub open spec fn spec_server_cert_chain(config: rustls::ServerConfig) -> Seq<Seq<u8>> {
    spec_server_certified_key(config).0
}

/// The DER PKCS#8 private key that a server configuration signs with.
pub open spec fn spec_server_private_key(config: rustls::ServerConfig) -> Seq<u8> {
    spec_server_certified_key(config).1
}

/// Whether a server configuration asks clients for a certificate.
pub uninterp spec fn spec_server_offers_client_auth(config: rustls::ServerConfig) -> bool;

/// Calls `rustls_pemfile::certs` on the PEM text and collects the certificates, stopping at
/// the first error, as DER bytes.
#[verifier::external_body]
fn pem_certificates(pem: &[u8]) -> (res: Result<Vec<Vec<u8>>, std::io::Error>)
    ensures
        res is Ok <==> spec_pem_certificates(pem@) is Some,
        res matches Ok(certs) ==> spec_pem_certificates(pem@) == Some(certs.deep_view()),
{
    let mut reader: &[u8] = pem;
    match rustls_pemfile::certs(&mut reader).collect::<Result<Vec<_>, _>>() {
        Ok(certs) => Ok(certs.into_iter().map(|c| c.to_vec()).collect()),
        Err(e) => Err(e),
    }
}

/// Calls `rustls_pemfile::pkcs8_private_keys` on the PEM text and collects the keys,
/// stopping at the first error, as DER bytes.
#[verifier::external_body]
fn pem_pkcs8_keys(pem: &[u8]) -> (res: Result<Vec<Vec<u8>>, std::io::Error>)
    ensures
        res is Ok <==> spec_pem_pkcs8_keys(pem@) is Some,
        res matches Ok(keys) ==> spec_pem_pkcs8_keys(pem@) == Some(keys.deep_view()),
{
    let mut reader: &[u8] = pem;
    match rustls_pemfile::pkcs8_private_keys(&mut reader).collect::<Result<Vec<_>, _>>() {
        Ok(keys) => Ok(keys.into_iter().map(|k| k.secret_pkcs8_der().to_vec()).collect()),
        Err(e) => Err(e),
    }
}

/// Calls `ServerConfig::builder().with_no_client_auth().with_single_cert` with the chain
/// (`CertificateDer::from` each) and the key (`PrivateKeyDer::from` a
/// `PrivatePkcs8KeyDer`). A configuration it builds presents the chain, signs with the key
/// loaded from these bytes, and asks no client for a certificate. Whether it succeeds is left
/// unsaid: the key is loaded by the process-level crypto provider, which another part of the
/// process may install, and loading an ECDSA key draws from the system's random source.
#[verifier::external_body]
fn server_config(chain: Vec<Vec<u8>>, key: Vec<u8>) -> (res: Result<rustls::ServerConfig, rustls::Error>)
    ensures
        res matches Ok(config) ==> spec_server_certified_key(config) == (chain.deep_view(), key@)
            && !spec_server_offers_client_auth(config),
{
    let chain = chain.into_iter().map(rustls::pki_types::CertificateDer::from).collect();
    let key = rustls::pki_types::PrivateKeyDer::from(rustls::pki_types::PrivatePkcs8KeyDer::from(key));
    rustls::ServerConfig::builder().with_no_client_auth().with_single_cert(chain, key)
}

/// Calls `RootCertStore::empty`: a store without trust anchors.
#[verifier::external_body]
fn root_store_empty() -> (store: rustls::RootCertStore)
    ensures
        spec_root_anchors(store) == Seq::<AnchorView>::empty(),
{
    rustls::RootCertStore::empty()
}

/// Calls `RootCertStore::add` with the certificate (`CertificateDer::from` its bytes): it
/// makes a trust anchor of it and appends it, or fails and leaves the store as it was.
#[verifier::external_body]
fn root_store_add(store: &mut rustls::RootCertStore, cert: &[u8]) -> (res: Result<(), rustls::Error>)
    ensures
        res is Ok <==> spec_trust_anchor_of(cert@) is Some,
        res is Ok ==> spec_root_anchors(*final(store)) == spec_root_anchors(*old(store)).push(
            spec_trust_anchor_of(cert@)->Some_0,
        ),
        res is Err ==> spec_root_anchors(*final(store)) == spec_root_anchors(*old(store)),
{
    store.add(rustls::pki_types::CertificateDer::from(cert.to_vec()))
}

/// Calls `ClientConfig::builder().with_root_certificates(store).with_no_client_auth()`: a
/// client configuration that verifies servers against exactly the store's trust anchors
/// and has no certificate of its own.
#[verifier::external_body]
fn client_config(store: rustls::RootCertStore) -> (config: rustls::ClientConfig)
    ensures
        spec_client_config_anchors(config) == spec_root_anchors(store),
        !spec_client_config_has_certs(config),
{
    rustls::ClientConfig::builder().with_root_certificates(store).with_no_client_auth()
}

/// The last of the keys, the one the server uses.
///
/// # Errors
///
/// [`TlsError::NoPrivateKey`] exactly when there is no key.
pub fn last_key(keys: Vec<Vec<u8>>) -> (res: Result<Vec<u8>, TlsError>)
    ensures
        keys@.len() == 0 <==> res is Err,
        res is Err ==> res matches Err(TlsError::NoPrivateKey),
        res matches Ok(k) ==> k@ == keys.deep_view().last(),
{
    let mut keys = keys;
    let ghost all = keys.deep_view();
    match keys.pop() {
        Some(k) => {
            assert(all.last() == k@);
            Ok(k)
        },
        None => Err(TlsError::NoPrivateKey),
    }
}

/// Builds the server configuration from the PEM text of the certificate chain and of the
/// private keys: it presents the chain, uses the last PKCS#8 key, and asks no client for a
/// certificate.
///
/// # Errors
///
/// [`TlsError::Pem`] if either text cannot be read (the certificates first),
/// [`TlsError::NoPrivateKey`] if the key text holds no PKCS#8 key,
/// [`TlsError::Certificate`] if the crypto provider refuses the chain and the key.
pub fn load_server_config(cert_pem: &[u8], key_pem: &[u8]) -> (res: Result<Arc<rustls::ServerConfig>, TlsError>)
    ensures
        match spec_pem_certificates(cert_pem@) {
            None => res matches Err(TlsError::Pem(_)),
            Some(chain) => match spec_pem_pkcs8_keys(key_pem@) {
                None => res matches Err(TlsError::Pem(_)),
                Some(keys) => if keys.len() == 0 {
                    res matches Err(TlsError::NoPrivateKey)
                } else {
                    ||| res matches Ok(config) && spec_server_cert_chain(*config) == chain
                        && spec_server_private_key(*config) == keys.last()
                        && !spec_server_offers_client_auth(*config)
                    ||| res matches Err(TlsError::Certificate(_))
                },
            },
        },
{
    let chain = match pem_certificates(cert_pem) {
        Ok(c) => c,
        Err(e) => return Err(TlsError::Pem(e)),
    };
    let keys = match pem_pkcs8_keys(key_pem) {
        Ok(k) => k,
        Err(e) => return Err(TlsError::Pem(e)),
    };
    let key = match last_key(keys) {
        Ok(k) => k,
        Err(e) => return Err(e),
    };
    match server_config(chain, key) {
        Ok(config) => Ok(Arc::new(config)),
        Err(e) => Err(TlsError::Certificate(e)),
    }
}

/// Whether every certificate can be made a trust anchor.
pub open spec fn all_trust_anchors_valid(certs: Seq<Seq<u8>>) -> bool {
    forall|i: int| 0 <= i < certs.len() ==> #[trigger] spec_trust_anchor_of(certs[i]) is Some
}

/// The trust anchors made from the certificates, in order.
pub open spec fn anchors_of(certs: Seq<Seq<u8>>) -> Seq<AnchorView> {
    certs.map_values(|c: Seq<u8>| spec_trust_anchor_of(c)->Some_0)
}

/// Builds the client configuration whose trust anchors are exactly those made from the
/// certificates in the PEM text, in order, and which has no certificate of its own.
///
/// # Errors
///
/// [`TlsError::Pem`] if the text cannot be read, [`TlsError::RootCertificate`] at the first
/// certificate that cannot be made a trust anchor.
pub fn load_client_config(cert_pem: &[u8]) -> (res: Result<Arc<rustls::ClientConfig>, TlsError>)
    ensures
        match spec_pem_certificates(cert_pem@) {
            None => res matches Err(TlsError::Pem(_)),
            Some(certs) => if all_trust_anchors_valid(certs) {
                res matches Ok(config) && spec_client_config_anchors(*config) == anchors_of(certs)
                    && !spec_client_config_has_certs(*config)
            } else {
                res matches Err(TlsError::RootCertificate(_))
            },
        },
{
    let certs = match pem_certificates(cert_pem) {
        Ok(c) => c,
        Err(e) => return Err(TlsError::Pem(e)),
    };
    let ghost all = certs.deep_view();
    let mut store = root_store_empty();
    assert(anchors_of(all.take(0)) =~= Seq::<AnchorView>::empty());
    let mut i: usize = 0;
    while i < certs.len()
        invariant
            i <= certs@.len(),
            all == certs.deep_view(),
            spec_pem_certificates(cert_pem@) == Some(all),
            spec_root_anchors(store) == anchors_of(all.take(i as int)),
            forall|j: int| 0 <= j < i ==> #[trigger] spec_trust_anchor_of(all[j]) is Some,
        decreases certs.len() - i,
    {
        let cert: &Vec<u8> = &certs[i];
        assert(cert@ == all[i as int]);
        match root_store_add(&mut store, cert.as_slice()) {
            Ok(()) => {},
            Err(e) => {
                assert(!all_trust_anchors_valid(all));
                return Err(TlsError::RootCertificate(e));
            },
        }
        i = i + 1;
        assert(anchors_of(all.take(i as int)) =~= anchors_of(all.take(i - 1)).push(
            spec_trust_anchor_of(all[i - 1])->Some_0,
        ));
    }
    let n = certs.len();
    assert(all.take(n as int) =~= all);
    assert(anchors_of(all.take(n as int)) =~= anchors_of(all));
    let config = client_config(store);
    Ok(Arc::new(config))
}

} // verus!
