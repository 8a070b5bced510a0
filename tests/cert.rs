use jwt_simple::prelude::{ECDSAP384PublicKeyLike, ES384PublicKey};
use openssl::nid::Nid;
use openssl::x509::X509;
use registry_auth::cert::{create_cert_from_pair, has_anchor_profile};
use registry_auth::state::InnerState;

fn published_key(state: &InnerState) -> (X509, ES384PublicKey) {
    let pem = create_cert_from_pair(state).unwrap();
    let cert = X509::from_pem(&pem).unwrap();
    let spki = cert.public_key().unwrap().public_key_to_pem().unwrap();
    let key = ES384PublicKey::from_pem(std::str::from_utf8(&spki).unwrap()).unwrap();
    (cert, key)
}

#[test]
fn certificate_names_own_url_and_is_self_signed() {
    let state = InnerState::new("https://auth.example.com".to_string(), "registry.example.com".to_string());
    let (cert, _) = published_key(&state);
    let cn = cert.subject_name().entries_by_nid(Nid::COMMONNAME).next().unwrap();
    assert_eq!(cn.data().as_utf8().unwrap().to_string(), "https://auth.example.com");
    let issuer = cert.issuer_name().entries_by_nid(Nid::COMMONNAME).next().unwrap();
    assert_eq!(issuer.data().as_utf8().unwrap().to_string(), "https://auth.example.com");
    assert_eq!(cert.version(), 2);
    assert!(cert.verify(&cert.public_key().unwrap()).unwrap());
}

#[test]
fn certificate_after_restart_rejects_earlier_tokens() {
    let before = InnerState::new("https://auth.example.com".to_string(), "registry.example.com".to_string());
    let (old_token, _) = before.create_docker_jwt("alice", "registry.example.com", vec![]).unwrap();
    let (_, old_key) = published_key(&before);
    assert!(old_key.verify_token::<serde_json::Value>(&old_token, None).is_ok());

    let after = InnerState::new("https://auth.example.com".to_string(), "registry.example.com".to_string());
    let (_, new_key) = published_key(&after);
    assert!(new_key.verify_token::<serde_json::Value>(&old_token, None).is_err());
    let (new_token, _) = after.create_docker_jwt("alice", "registry.example.com", vec![]).unwrap();
    assert!(new_key.verify_token::<serde_json::Value>(&new_token, None).is_ok());
}


#[test]
fn anchor_profile_is_read_back_from_the_pem() {
    let state = InnerState::new("https://auth.example.com".to_string(), "registry.example.com".to_string());
    let pem = create_cert_from_pair(&state).unwrap();
    let der = state.public_der().clone().unwrap();
    assert!(has_anchor_profile(&pem, "https://auth.example.com", &der));
    assert!(!has_anchor_profile(&pem, "https://other.example.com", &der));
    let other = InnerState::new("https://auth.example.com".to_string(), "registry.example.com".to_string());
    assert!(!has_anchor_profile(&pem, "https://auth.example.com", &other.public_der().clone().unwrap()));
    assert!(!has_anchor_profile(&b"not a certificate".to_vec(), "https://auth.example.com", &der));
}
