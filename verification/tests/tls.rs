use waterdrop::tls::{
    fingerprint_sha256, generate_self_signed_cert, load_cert_pair, load_or_generate_cert,
    save_cert_pair, CertError, CertFiles,
};

fn empty_dir() -> CertFiles {
    CertFiles { cert: None, key: None }
}

#[test]
fn given_valid_subjects_when_generating_cert_then_returns_non_empty_der() {
    let pair = generate_self_signed_cert(&["localhost"]).unwrap();
    assert!(!pair.cert_der.is_empty());
    assert!(!pair.private_key_pkcs8_der.is_empty());
}

#[test]
fn given_multiple_subjects_when_generating_cert_then_succeeds() {
    let pair = generate_self_signed_cert(&["localhost", "waterdrop.local"]).unwrap();
    assert!(!pair.cert_der.is_empty());
    let text = String::from_utf8_lossy(&pair.cert_der).to_string();
    assert!(text.contains("localhost"));
    assert!(text.contains("waterdrop.local"));
}

#[test]
fn given_two_calls_when_generating_certs_then_keys_differ() {
    let a = generate_self_signed_cert(&["localhost"]).unwrap();
    let b = generate_self_signed_cert(&["localhost"]).unwrap();
    assert_ne!(a.private_key_pkcs8_der, b.private_key_pkcs8_der);
}

#[test]
fn given_cert_der_when_fingerprinted_then_returns_64_hex_chars() {
    let pair = generate_self_signed_cert(&["localhost"]).unwrap();
    let fp = fingerprint_sha256(&pair.cert_der);
    assert_eq!(fp.len(), 64);
    assert!(fp.chars().all(|c| c.is_ascii_hexdigit()));
}

#[test]
fn given_same_cert_when_fingerprinted_twice_then_results_match() {
    let pair = generate_self_signed_cert(&["localhost"]).unwrap();
    let fp1 = fingerprint_sha256(&pair.cert_der);
    let fp2 = fingerprint_sha256(&pair.cert_der);
    assert_eq!(fp1, fp2);
}

#[test]
fn given_different_certs_when_fingerprinted_then_results_differ() {
    let a = generate_self_signed_cert(&["localhost"]).unwrap();
    let b = generate_self_signed_cert(&["localhost"]).unwrap();
    assert_ne!(
        fingerprint_sha256(&a.cert_der),
        fingerprint_sha256(&b.cert_der)
    );
}

#[test]
fn given_cert_pair_when_saved_and_loaded_then_round_trips() {
    let original = generate_self_signed_cert(&["localhost"]).unwrap();
    let files = save_cert_pair(&original);
    let loaded = load_cert_pair(files).unwrap().unwrap();
    assert_eq!(loaded.cert_der, original.cert_der);
    assert_eq!(loaded.private_key_pkcs8_der, original.private_key_pkcs8_der);
}

#[test]
fn given_empty_dir_when_loaded_then_returns_none() {
    let result = load_cert_pair(empty_dir()).unwrap();
    assert!(result.is_none());
}

#[test]
fn given_only_cert_file_when_loaded_then_returns_error() {
    let result = load_cert_pair(CertFiles { cert: Some(b"dummy".to_vec()), key: None });
    assert!(result.is_err());
    assert_eq!(
        result.unwrap_err().message("/certs"),
        "incomplete cert pair in /certs: cert.der exists=true, key.der exists=false"
    );
}

#[test]
fn given_only_key_file_when_loaded_then_returns_error() {
    let result = load_cert_pair(CertFiles { cert: None, key: Some(b"dummy".to_vec()) });
    assert!(result.is_err());
    assert_eq!(
        result.unwrap_err().message("/certs"),
        "incomplete cert pair in /certs: cert.der exists=false, key.der exists=true"
    );
}

#[test]
fn given_empty_dir_when_load_or_generate_then_generates_and_persists() {
    let (pair, written) = load_or_generate_cert(empty_dir(), &["localhost"]).unwrap();
    assert!(!pair.cert_der.is_empty());
    let files = written.unwrap();
    assert_eq!(files.cert.unwrap(), pair.cert_der);
    assert_eq!(files.key.unwrap(), pair.private_key_pkcs8_der);
}

#[test]
fn given_existing_cert_when_load_or_generate_then_reuses_it() {
    let (first, written) = load_or_generate_cert(empty_dir(), &["localhost"]).unwrap();
    let (second, again) = load_or_generate_cert(written.unwrap(), &["localhost"]).unwrap();
    assert_eq!(first.cert_der, second.cert_der);
    assert_eq!(first.private_key_pkcs8_der, second.private_key_pkcs8_der);
    assert!(again.is_none());
}

#[test]
fn half_a_pair_is_not_replaced() {
    let files = CertFiles { cert: Some(vec![1]), key: None };
    assert_eq!(
        load_or_generate_cert(files, &["localhost"]).unwrap_err(),
        CertError::Incomplete { cert_exists: true, key_exists: false }
    );
}

#[test]
fn unusable_subject_gives_no_certificate() {
    let error = generate_self_signed_cert(&["caf\u{e9}"]).unwrap_err();
    assert_eq!(error, CertError::GenerationFailed);
    assert_eq!(error.message("/certs"), "failed to generate self-signed certificate");
}

#[test]
fn fingerprint_is_the_sha256_digest_in_hexadecimal() {
    assert_eq!(
        fingerprint_sha256(b"abc"),
        "ba7816bf8f01cfea414140de5dae2223b00361a396177a9cb410ff61f20015ad"
    );
    assert_eq!(
        fingerprint_sha256(b""),
        "e3b0c44298fc1c149afbf4c8996fb92427ae41e4649b934ca495991b7852b855"
    );
}
