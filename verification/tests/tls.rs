use fluvio_entry::tls::AcceptorPlan;
use fluvio_entry::tls::ClientAuth;
use fluvio_entry::tls::TlsConfig;
use fluvio_entry::tls::TlsError;
use openssl::asn1::Asn1Time;
use openssl::hash::MessageDigest;
use openssl::pkey::PKey;
use openssl::rsa::Rsa;
use openssl::x509::X509NameBuilder;
use openssl::x509::X509;
use std::io::Write;
use tempfile::NamedTempFile;

const SERVER_CERT: &str = "/certs/server.crt";
const SERVER_KEY: &str = "/certs/server.key";
const CA_CERT: &str = "/certs/ca.crt";

/// A self-signed certificate and its key, each in a file of its own.
struct OnDisk {
    cert: NamedTempFile,
    key: NamedTempFile,
}

impl OnDisk {
    fn cert(&self) -> &str {
        self.cert.path().to_str().unwrap()
    }

    fn key(&self) -> &str {
        self.key.path().to_str().unwrap()
    }
}

fn self_signed() -> OnDisk {
    let key = PKey::from_rsa(Rsa::generate(2048).unwrap()).unwrap();
    let mut name = X509NameBuilder::new().unwrap();
    name.append_entry_by_text("CN", "localhost").unwrap();
    let name = name.build();
    let mut builder = X509::builder().unwrap();
    builder.set_version(2).unwrap();
    builder.set_subject_name(&name).unwrap();
    builder.set_issuer_name(&name).unwrap();
    builder.set_pubkey(&key).unwrap();
    builder.set_not_before(&Asn1Time::days_from_now(0).unwrap()).unwrap();
    builder.set_not_after(&Asn1Time::days_from_now(1).unwrap()).unwrap();
    builder.sign(&key, MessageDigest::sha256()).unwrap();
    let mut cert = NamedTempFile::new().unwrap();
    cert.write_all(&builder.build().to_pem().unwrap()).unwrap();
    cert.flush().unwrap();
    let mut key_file = NamedTempFile::new().unwrap();
    key_file.write_all(&key.private_key_to_pem_pkcs8().unwrap()).unwrap();
    key_file.flush().unwrap();
    OnDisk { cert, key: key_file }
}

fn material(cert: Option<&str>, key: Option<&str>, ca: Option<&str>, client_cert: bool) -> TlsConfig {
    let mut config = TlsConfig::default();
    config.tls = true;
    config.server_cert = cert.map(str::to_string);
    config.server_key = key.map(str::to_string);
    config.ca_cert = ca.map(str::to_string);
    config.enable_client_cert = client_cert;
    config
}

#[test]
fn missing_server_cert_is_named() {
    let config = material(None, Some(SERVER_KEY), Some(CA_CERT), true);
    assert!(matches!(config.acceptor_plan(), Err(TlsError::MissingServerCert)));
    assert!(matches!(config.try_build_tls_acceptor(), Err(TlsError::MissingServerCert)));
}

#[test]
fn missing_server_key_is_named() {
    let config = material(Some(SERVER_CERT), None, Some(CA_CERT), true);
    assert!(matches!(config.acceptor_plan(), Err(TlsError::MissingServerKey)));
    assert!(matches!(config.try_build_tls_acceptor(), Err(TlsError::MissingServerKey)));
}

#[test]
fn missing_ca_cert_is_named_where_clients_show_a_certificate() {
    let config = material(Some(SERVER_CERT), Some(SERVER_KEY), None, true);
    assert!(matches!(config.acceptor_plan(), Err(TlsError::MissingCaCert)));
    assert!(matches!(config.try_build_tls_acceptor(), Err(TlsError::MissingCaCert)));
}

#[test]
fn missing_cert_is_reported_before_missing_key_and_ca() {
    let config = material(None, None, None, true);
    assert!(matches!(config.try_build_tls_acceptor(), Err(TlsError::MissingServerCert)));
    let config = material(Some(SERVER_CERT), None, None, true);
    assert!(matches!(config.try_build_tls_acceptor(), Err(TlsError::MissingServerKey)));
}

#[test]
fn empty_options_lack_the_server_cert() {
    assert!(matches!(
        TlsConfig::default().try_build_tls_acceptor(),
        Err(TlsError::MissingServerCert)
    ));
}

#[test]
fn anonymous_plan_needs_no_ca_cert() {
    let config = material(Some("/certs/server.crt"), Some("/certs/server.key"), None, false);
    let plan = config.acceptor_plan().unwrap();
    assert_eq!(plan.server_cert, "/certs/server.crt");
    assert_eq!(plan.server_key, "/certs/server.key");
    assert!(matches!(plan.client_auth, ClientAuth::Anonymous));
}

#[test]
fn anonymous_plan_ignores_a_ca_cert() {
    let config = material(Some("/certs/server.crt"), Some("/certs/server.key"), Some("/certs/ca.crt"), false);
    let plan = config.acceptor_plan().unwrap();
    assert!(matches!(plan.client_auth, ClientAuth::Anonymous));
}

#[test]
fn client_cert_plan_verifies_peers_against_the_ca_cert() {
    let config = material(Some("/certs/server.crt"), Some("/certs/server.key"), Some("/certs/ca.crt"), true);
    let plan = config.acceptor_plan().unwrap();
    assert_eq!(plan.server_cert, "/certs/server.crt");
    assert_eq!(plan.server_key, "/certs/server.key");
    match plan.client_auth {
        ClientAuth::VerifyPeer { ca_cert } => assert_eq!(ca_cert, "/certs/ca.crt"),
        other => panic!("unexpected client auth {:?}", other),
    }
}

#[test]
fn nul_in_a_needed_path_is_refused() {
    let config = material(Some("/certs/ser\0ver.crt"), Some("/certs/server.key"), None, false);
    assert!(matches!(config.try_build_tls_acceptor(), Err(TlsError::NulInPath)));
    let config = material(Some("/certs/server.crt"), Some("\0"), None, false);
    assert!(matches!(config.try_build_tls_acceptor(), Err(TlsError::NulInPath)));
    let config = material(Some("/certs/server.crt"), Some("/certs/server.key"), Some("/ca\0"), true);
    assert!(matches!(config.try_build_tls_acceptor(), Err(TlsError::NulInPath)));
}

#[test]
fn nul_in_a_path_that_is_not_needed_is_ignored() {
    let config = material(Some("/certs/server.crt"), Some("/certs/server.key"), Some("/ca\0"), false);
    assert!(config.acceptor_plan().is_ok());
}

#[test]
fn material_that_is_not_on_disk_is_refused_by_the_provider() {
    let config = material(
        Some("/nonexistent/server.crt"),
        Some("/nonexistent/server.key"),
        None,
        false,
    );
    assert!(matches!(config.try_build_tls_acceptor(), Err(TlsError::Provider(_))));
}

#[test]
fn ca_cert_that_is_not_on_disk_is_refused_by_the_provider() {
    let disk = self_signed();
    let config = material(Some(disk.cert()), Some(disk.key()), Some("/nonexistent/ca.crt"), true);
    assert!(matches!(config.try_build_tls_acceptor(), Err(TlsError::Provider(_))));
}

#[test]
fn key_of_another_certificate_is_refused_by_the_provider() {
    let disk = self_signed();
    let other = self_signed();
    let config = material(Some(disk.cert()), Some(other.key()), None, false);
    assert!(matches!(config.try_build_tls_acceptor(), Err(TlsError::Provider(_))));
}

#[test]
fn anonymous_acceptor_is_built_from_material_on_disk() {
    let disk = self_signed();
    let config = material(Some(disk.cert()), Some(disk.key()), None, false);
    assert!(config.try_build_tls_acceptor().is_ok());
}

#[test]
fn verifying_acceptor_is_built_where_ca_cert_is_supplied() {
    let disk = self_signed();
    let config = material(Some(disk.cert()), Some(disk.key()), Some(disk.cert()), true);
    let plan = config.acceptor_plan().unwrap();
    assert!(matches!(plan.client_auth, ClientAuth::VerifyPeer { .. }));
    assert!(plan.assemble().is_ok());
    assert!(config.try_build_tls_acceptor().is_ok());
}

#[test]
fn plan_is_assembled_as_the_options_are() {
    let disk = self_signed();
    let plan = AcceptorPlan {
        server_cert: disk.cert().to_string(),
        server_key: "/nonexistent/server.key".to_string(),
        client_auth: ClientAuth::Anonymous,
    };
    assert!(matches!(plan.assemble(), Err(TlsError::Provider(_))));
    let plan = AcceptorPlan {
        server_cert: disk.cert().to_string(),
        server_key: disk.key().to_string(),
        client_auth: ClientAuth::Anonymous,
    };
    assert!(plan.assemble().is_ok());
}

#[test]
fn tls_errors_say_what_is_missing() {
    assert_eq!(TlsError::MissingServerCert.message(), "missing server cert");
    assert_eq!(TlsError::MissingServerKey.message(), "missing server key");
    assert_eq!(TlsError::MissingCaCert.message(), "missing ca cert");
    assert_eq!(TlsError::NulInPath.message(), "path holds a NUL character");
    assert_eq!(TlsError::PeerVerification.message(), "acceptor does not check clients as asked");
}

#[test]
fn provider_errors_are_worded_by_the_provider() {
    let config = material(Some("/nonexistent/server.crt"), Some("/nonexistent/server.key"), None, false);
    let message = config.try_build_tls_acceptor().err().unwrap().message();
    assert!(!message.is_empty());
}

#[test]
fn finished_acceptor_is_confirmed_where_it_treats_clients_as_planned() {
    let disk = self_signed();
    let anonymous = material(Some(disk.cert()), Some(disk.key()), None, false).acceptor_plan().unwrap();
    let verifying =
        material(Some(disk.cert()), Some(disk.key()), Some(disk.cert()), true).acceptor_plan().unwrap();
    let acceptor = anonymous.assemble().unwrap();
    assert!(anonymous.confirm(acceptor.clone(), false).is_ok());
    assert!(verifying.confirm(acceptor, true).is_ok());
}

#[test]
fn finished_acceptor_is_refused_where_it_treats_clients_otherwise() {
    let disk = self_signed();
    let anonymous = material(Some(disk.cert()), Some(disk.key()), None, false).acceptor_plan().unwrap();
    let verifying =
        material(Some(disk.cert()), Some(disk.key()), Some(disk.cert()), true).acceptor_plan().unwrap();
    let acceptor = anonymous.assemble().unwrap();
    assert!(matches!(anonymous.confirm(acceptor.clone(), true), Err(TlsError::PeerVerification)));
    assert!(matches!(verifying.confirm(acceptor, false), Err(TlsError::PeerVerification)));
}

#[test]
fn built_acceptor_checks_clients_exactly_where_asked() {
    let disk = self_signed();
    let anonymous = material(Some(disk.cert()), Some(disk.key()), None, false)
        .try_build_tls_acceptor()
        .unwrap();
    assert!(!anonymous.0.context().verify_mode().contains(openssl::ssl::SslVerifyMode::PEER));
    let verifying = material(Some(disk.cert()), Some(disk.key()), Some(disk.cert()), true)
        .try_build_tls_acceptor()
        .unwrap();
    assert!(verifying.0.context().verify_mode().contains(openssl::ssl::SslVerifyMode::PEER));
}
