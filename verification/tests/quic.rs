use waterdrop::quic::{
    decide_trust, fingerprint_file, untrusted_message, verify_server_cert, QuicConnector, Trust,
};
use waterdrop::tls::{fingerprint_sha256, generate_self_signed_cert, load_or_generate_cert, CertFiles};

#[test]
fn given_same_server_cert_when_client_reconnects_then_tofu_succeeds() {
    let cert = generate_self_signed_cert(&["localhost"]).unwrap().cert_der;
    let mut store: Vec<String> = Vec::new();
    let (first, fingerprint) = verify_server_cert(&cert, &store);
    assert_eq!(first, Trust::FirstContact);
    store.push(fingerprint_file(&fingerprint));
    let (second, _) = verify_server_cert(&cert, &store);
    assert_eq!(second, Trust::Trusted);
}

#[test]
fn given_trusted_server_when_different_server_connects_then_tofu_rejects() {
    let trusted = generate_self_signed_cert(&["localhost"]).unwrap().cert_der;
    let other = generate_self_signed_cert(&["localhost"]).unwrap().cert_der;
    let store = vec![fingerprint_file(&fingerprint_sha256(&trusted))];
    let (decision, fingerprint) = verify_server_cert(&other, &store);
    assert_eq!(decision, Trust::Untrusted);
    assert_eq!(fingerprint, fingerprint_sha256(&other));
}

#[test]
fn given_persisted_cert_when_factory_recreated_then_same_cert_used() {
    let empty = CertFiles { cert: None, key: None };
    let (first, files) = load_or_generate_cert(empty, &["localhost"]).unwrap();
    let (second, _) = load_or_generate_cert(files.unwrap(), &["localhost"]).unwrap();
    assert_eq!(fingerprint_sha256(&first.cert_der), fingerprint_sha256(&second.cert_der));
}

#[test]
fn given_no_prior_trust_when_first_connect_then_fingerprint_file_created() {
    let (decision, fingerprint) = verify_server_cert(b"abc", &Vec::new());
    assert_eq!(decision, Trust::FirstContact);
    assert_eq!(
        fingerprint_file(&fingerprint),
        "ba7816bf8f01cfea414140de5dae2223b00361a396177a9cb410ff61f20015ad.fp"
    );
}

#[test]
fn only_fingerprint_files_count_as_earlier_contact() {
    let strangers = vec![".fp".to_string(), "notes.txt".to_string(), "fp".to_string()];
    assert_eq!(decide_trust("abc", &strangers), Trust::FirstContact);
    assert_eq!(decide_trust("abc", &vec!["x.fp".to_string()]), Trust::Untrusted);
    let both = vec!["x.fp".to_string(), "abc.fp".to_string()];
    assert_eq!(decide_trust("abc", &both), Trust::Trusted);
}

#[test]
fn refusal_names_the_fingerprint() {
    assert_eq!(
        untrusted_message("beef"),
        "TOFU: server certificate fingerprint beef is not trusted"
    );
}

#[test]
fn connector_keeps_its_trust_store() {
    let dir = std::path::PathBuf::from("/data/trusted");
    assert_eq!(QuicConnector::new(&dir).trust_store(), &dir);
}
