use landrop::security::identity::{CertFingerprint, DeviceIdentity, TlsVersion, TRANSFER_TLS_VERSION};
use landrop::security::pairing::{format_pin, PairingManager, PIN_LIFETIME_SECS};
use landrop::security::tofu::{TofuVerifier, VerifyError};
use landrop::security::trust_store::TrustStore;
use landrop::text::encode_hex;

#[test]
fn generates_stable_fingerprint_format() {
    let identity = DeviceIdentity::generate().unwrap();
    assert_eq!(identity.fingerprint.0.len(), 64);
}

#[test]
fn fingerprint_is_sha256_hex_of_der() {
    let identity = DeviceIdentity::generate().unwrap();
    let der = identity.cert_der();
    assert_eq!(CertFingerprint::from_der(&der).0, identity.fingerprint.0);
    assert!(identity.fingerprint.0.chars().all(|c| c.is_ascii_hexdigit() && !c.is_ascii_uppercase()));
}

#[test]
fn fingerprint_of_empty_input() {
    let fp = CertFingerprint::from_der(&[]);
    assert_eq!(fp.as_str(), "e3b0c44298fc1c149afbf4c8996fb92427ae41e4649b934ca495991b7852b855");
}

#[test]
fn identity_from_generated_certificate() {
    let ck = rcgen::generate_simple_self_signed(vec!["localhost".to_string()]).unwrap();
    let der = ck.cert.der().to_vec();
    let key_der = ck.key_pair.serialize_der();
    let identity = DeviceIdentity::from_generated(7, Ok((ck.cert, ck.key_pair, der.clone(), key_der))).unwrap();
    assert_eq!(identity.device_id, 7);
    assert_eq!(identity.cert_der(), der);
    assert_eq!(identity.fingerprint.0, CertFingerprint::from_der(&der).0);
    assert!(identity.server_config().is_ok());
    assert!(!identity.key_pair().serialize_der().is_empty());
    match DeviceIdentity::from_generated(8, Err(rcgen::Error::KeyGenerationUnavailable)) {
        Err(landrop::security::identity::IdentityError::Generation(rcgen::Error::KeyGenerationUnavailable)) => {}
        _ => panic!("expected a generation error"),
    }
}

#[test]
fn server_config_refuses_a_key_that_is_not_the_certificates() {
    let ck = rcgen::generate_simple_self_signed(vec!["localhost".to_string()]).unwrap();
    let other = rcgen::KeyPair::generate().unwrap();
    let der = ck.cert.der().to_vec();
    let identity = DeviceIdentity::from_generated(9, Ok((ck.cert, ck.key_pair, der, other.serialize_der()))).unwrap();
    assert!(identity.server_config().is_err());
}

#[test]
fn server_config_builds() {
    let identity = DeviceIdentity::generate().unwrap();
    assert!(identity.server_config().is_ok());
}

#[test]
fn encode_hex_examples() {
    assert_eq!(encode_hex(&[0x00, 0x0f, 0xa5, 0xff]), "000fa5ff");
    assert_eq!(encode_hex(&[]), "");
}

#[test]
fn pin_format() {
    for _ in 0..100 {
        let pin = PairingManager::generate_pin();
        assert_eq!(pin.len(), 6);
        assert!(pin.chars().all(|c| c.is_ascii_digit()));
    }
}

#[test]
fn format_pin_pads_with_zeros() {
    assert_eq!(format_pin(0), "000000");
    assert_eq!(format_pin(42), "000042");
    assert_eq!(format_pin(999_999), "999999");
}

#[test]
fn verify_correct_pin() {
    let mut mgr = PairingManager::new();
    let peer_id = uuid::Uuid::new_v4().as_u128();
    let pin = mgr.create_request(peer_id, "fp".into());
    assert!(mgr.verify_pin(peer_id, &pin));
}

#[test]
fn verify_wrong_pin() {
    let mut mgr = PairingManager::new();
    let peer_id = uuid::Uuid::new_v4().as_u128();
    mgr.create_request(peer_id, "fp".into());
    assert!(!mgr.verify_pin(peer_id, "000000"));
}

#[test]
fn verify_pin_of_other_length_fails() {
    let mut mgr = PairingManager::new();
    let pin = mgr.create_request(11, "fp".into());
    assert!(!mgr.verify_pin(11, &format!("{pin}0")));
    assert!(!mgr.verify_pin(11, &pin[..5]));
}

#[test]
fn verify_pin_of_unknown_peer_fails() {
    let mgr = PairingManager::default();
    assert!(!mgr.verify_pin(7, "123456"));
}

#[test]
fn completed_or_canceled_request_is_gone() {
    let mut mgr = PairingManager::new();
    let pin = mgr.create_request(1, "fp1".into());
    let done = mgr.complete_pairing(1).unwrap();
    assert_eq!(done.pin, pin);
    assert_eq!(done.peer_fingerprint, "fp1");
    assert!(!mgr.verify_pin(1, &pin));
    assert!(mgr.complete_pairing(1).is_none());
    let pin2 = mgr.create_request(2, "fp2".into());
    mgr.cancel_request(2);
    assert!(!mgr.verify_pin(2, &pin2));
}

#[test]
fn pin_expires_after_lifetime() {
    let mut mgr = PairingManager::new();
    let pin = mgr.create_request(3, "fp".into());
    let state = mgr.complete_pairing(3).unwrap();
    assert!(PairingManager::pin_accepted(&state, &pin, 0));
    assert!(PairingManager::pin_accepted(&state, &pin, PIN_LIFETIME_SECS - 1));
    assert!(!PairingManager::pin_accepted(&state, &pin, PIN_LIFETIME_SECS));
    assert_eq!(PIN_LIFETIME_SECS, 120);
}

#[test]
fn trust_store_records_and_forgets() {
    let mut store = TrustStore::with_path("/tmp/trust.json".into());
    assert_eq!(store.path(), "/tmp/trust.json");
    assert!(!store.contains(5));
    store.add_peer(5, "aa".into());
    assert!(store.contains(5));
    assert!(store.is_trusted(5, "aa"));
    assert!(!store.is_trusted(5, "bb"));
    assert!(!store.is_trusted(6, "aa"));
    store.add_peer(5, "bb".into());
    assert!(store.is_trusted(5, "bb"));
    assert!(!store.is_trusted(5, "aa"));
    store.remove_peer(5);
    assert!(!store.contains(5));
    assert_eq!(store.peers().len(), 0);
}

#[test]
fn tofu_accepts_any_certificate_without_hint() {
    let store = TrustStore::default();
    let mut v = TofuVerifier::new();
    assert!(v.verify_server_cert(&store, b"certificate").is_ok());
    assert_eq!(v.last_fingerprint().unwrap(), CertFingerprint::from_der(b"certificate").0);
}

#[test]
fn tofu_with_hint_accepts_only_paired_certificate() {
    let mut store = TrustStore::default();
    let paired = CertFingerprint::from_der(b"paired cert").0;
    store.add_peer(9, paired.clone());
    let mut v = TofuVerifier::new();
    v.set_peer_id_hint(9);
    assert!(v.verify_server_cert(&store, b"paired cert").is_ok());
    assert_eq!(v.last_fingerprint().unwrap(), paired);
    assert_eq!(v.verify_server_cert(&store, b"other cert"), Err(VerifyError::PeerNotTrusted));
    assert_eq!(v.last_fingerprint().unwrap(), CertFingerprint::from_der(b"other cert").0);
    let mut stranger = TofuVerifier::new();
    stranger.set_peer_id_hint(10);
    assert_eq!(stranger.verify_server_cert(&store, b"paired cert"), Err(VerifyError::PeerNotTrusted));
}

#[test]
fn transfers_use_tls13() {
    assert_eq!(TRANSFER_TLS_VERSION, TlsVersion::Tls13);
}
