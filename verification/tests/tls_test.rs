use ft::tls::{last_key, load_client_config, load_server_config, TlsError};

const BAD_CERT: &[u8] = b"-----BEGIN CERTIFICATE-----\n@@@not base64@@@\n-----END CERTIFICATE-----\n";
const NOT_A_CERT: &[u8] = b"-----BEGIN CERTIFICATE-----\nAAECAwQ=\n-----END CERTIFICATE-----\n";

#[test]
fn last_key_takes_the_last() {
    assert_eq!(last_key(vec![vec![1], vec![2, 3]]).unwrap(), vec![2, 3]);
    assert!(matches!(last_key(vec![]), Err(TlsError::NoPrivateKey)));
}

#[test]
fn server_config_without_key_is_refused() {
    assert!(matches!(load_server_config(b"", b""), Err(TlsError::NoPrivateKey)));
}

#[test]
fn unreadable_pem_is_refused() {
    assert!(matches!(load_server_config(BAD_CERT, b""), Err(TlsError::Pem(_))));
    assert!(matches!(load_server_config(b"", BAD_CERT), Err(TlsError::Pem(_))));
    assert!(matches!(load_client_config(BAD_CERT), Err(TlsError::Pem(_))));
}

#[test]
fn client_config_with_no_certificates_is_built() {
    assert!(load_client_config(b"").is_ok());
}

#[test]
fn invalid_root_certificate_is_refused() {
    assert!(matches!(load_client_config(NOT_A_CERT), Err(TlsError::RootCertificate(_))));
}
