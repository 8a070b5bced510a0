use argon2::PasswordHasher;
use jwt_simple::prelude::{Audiences, ECDSAP384KeyPairLike, ECDSAP384PublicKeyLike};
use registry_auth::api::TokenQuery;
use registry_auth::claims::DockerClaims;
use registry_auth::extract::{repository_from, GithubExtractor, PermissionExtractor};
use registry_auth::permission::{Permission, PermissionType};
use registry_auth::scope::Scope;
use registry_auth::state::{authorize_request, check_bridge, InnerState};
use registry_auth::user::{verify_admin, User, UserPasswordHash, UserType};
use registry_auth::Error;

const OWN_URL: &str = "https://auth.example.com";
const REGISTRY: &str = "registry.example.com";

fn state() -> InnerState {
    InnerState::new(OWN_URL.to_string(), REGISTRY.to_string())
}

fn perm(subject: &str, permission: PermissionType) -> Permission {
    Permission { id: Some(1), subject: subject.to_string(), permission }
}

fn query(service: &str, scopes: &[&str]) -> TokenQuery {
    TokenQuery { service: service.to_string(), scope: scopes.iter().map(|s| s.to_string()).collect() }
}

fn hash_of(password: &str) -> String {
    let salt = argon2::password_hash::SaltString::generate(&mut argon2::password_hash::rand_core::OsRng);
    argon2::Argon2::default().hash_password(password.as_bytes(), &salt).unwrap().to_string()
}

#[test]
fn test_docker_jwt() {
    let state = state();
    let scope = Scope {
        kind: "repository".to_string(),
        name: "example/image".to_string(),
        actions: vec![PermissionType::Push],
    };
    let (jwt, expires_in) = state.create_docker_jwt("admin", "registry.example.com", vec![scope]).unwrap();
    assert_eq!(expires_in, 300);
    assert!(!jwt.is_empty());
}

#[test]
fn registry_token_decodes_to_its_claims() {
    let state = state();
    let perms = vec![perm("*", PermissionType::Pull), perm("example/image", PermissionType::Push)];
    let user = User { id: Some(7), name: "alice".to_string(), user_type: UserType::User };
    let q = query(REGISTRY, &["repository:example/image:pull,push", "repository:other:pull"]);
    let resp = state.issue_token(&user, &perms, &q).unwrap();
    assert_eq!(resp.expires_in, 300);
    let claims = state
        .jwt_key()
        .public_key()
        .verify_token::<serde_json::Value>(&resp.token, None)
        .unwrap();
    assert_eq!(claims.subject.as_deref(), Some("alice"));
    assert_eq!(claims.issuer.as_deref(), Some(OWN_URL));
    match claims.audiences {
        Some(Audiences::AsString(a)) => assert_eq!(a, REGISTRY),
        other => panic!("audience {other:?}"),
    }
    let lifetime = claims.expires_at.unwrap() - claims.issued_at.unwrap();
    assert_eq!(lifetime.as_secs(), 300);
    let expected: serde_json::Value = serde_json::from_str(
        r#"[{"type":"repository","name":"example/image","actions":["pull","push"]},
            {"type":"repository","name":"other","actions":["pull"]}]"#,
    )
    .unwrap();
    assert_eq!(claims.custom["access"], expected);
}

#[test]
fn wrong_service_is_unauthorized() {
    let state = state();
    let perms = vec![perm("*", PermissionType::Pull), perm("*", PermissionType::Push)];
    let user = User::new_user("admin".to_string());
    for scopes in [&["repository:x:pull"][..], &[][..]] {
        let r = state.issue_token(&user, &perms, &query("other.example.com", scopes));
        assert!(matches!(r, Err(Error::Unauthorized(_))));
    }
    let malformed = state.issue_token(&user, &perms, &query("other.example.com", &["repository:x:bogus"]));
    assert!(matches!(malformed, Err(Error::BadRequest(_))));
}

#[test]
fn token_request_errors() {
    let perms = vec![perm("a", PermissionType::Pull)];
    assert!(matches!(authorize_request(&perms, &query(REGISTRY, &["repository:a"]), REGISTRY), Err(Error::BadRequest(_))));
    assert!(matches!(authorize_request(&perms, &query(REGISTRY, &["repository:a:push"]), REGISTRY), Err(Error::Unauthorized(_))));
    let ok = authorize_request(&perms, &query(REGISTRY, &["repository:a:pull"]), REGISTRY).unwrap();
    assert_eq!(ok.len(), 1);
    assert_eq!(ok[0].name, "a");
    assert!(authorize_request(&perms, &query(REGISTRY, &[]), REGISTRY).unwrap().is_empty());
}

#[test]
fn identity_bridge_round_trip() {
    let state = state();
    let repo = repository_from(Some("org/repo".to_string())).unwrap();
    let GithubExtractor(repo) = repo;
    let idents = vec!["org/repo".to_string()];
    let ci = User { id: Some(2), name: "ci".to_string(), user_type: UserType::ServiceAccount };
    let other = User { id: Some(3), name: "other".to_string(), user_type: UserType::ServiceAccount };
    let token = state.identify(&ci, &idents, repo.as_str()).unwrap().accesstoken;
    let perms = vec![perm("org/repo", PermissionType::Push)];
    assert_eq!(state.get_permissions(&ci, &token, None, perms.clone()), Ok(perms.clone()));
    assert!(state.identify(&other, &idents, repo.as_str()).is_ok());
    assert!(matches!(state.get_permissions(&other, &token, None, perms.clone()), Err(Error::Unauthorized(_))));
    let claims = state.verify_jwt(&token).unwrap();
    assert_eq!(claims.svc_name, "ci");
    let raw = state.jwt_key().public_key().verify_token::<serde_json::Value>(&token, None).unwrap();
    assert_eq!(raw.custom["svc_name"], "ci");
    assert!(raw.subject.is_none() && raw.issuer.is_none() && raw.audiences.is_none());
    assert_eq!((raw.expires_at.unwrap() - raw.issued_at.unwrap()).as_secs(), 300);
}

#[test]
fn identity_bridge_rejections() {
    let state = state();
    let ci = User { id: Some(2), name: "ci".to_string(), user_type: UserType::ServiceAccount };
    let human = User::new_user("bob".to_string());
    let idents = vec!["org/one".to_string(), "org/two".to_string()];
    assert!(matches!(state.identify(&ci, &idents, "org/three"), Err(Error::Unauthorized(_))));
    assert!(matches!(check_bridge(&human, &idents, "org/one"), Err(Error::Unauthorized(_))));
    assert!(matches!(state.identify(&human, &vec![], "org/one"), Err(Error::Unauthorized(_))));
    assert_eq!(check_bridge(&ci, &idents, "org/two"), Ok(()));
    assert!(matches!(repository_from(None), Err(Error::Unauthorized(_))));
    assert!(matches!(GithubExtractor::from_key_set(None, "eyJ"), Err(Error::Unauthorized(_))));
}

#[test]
fn federated_token_against_empty_key_set() {
    let jwks = github_oidc::GithubJWKS { keys: vec![] };
    let forged = "eyJhbGciOiJSUzI1NiIsImtpZCI6ImsifQ.eyJyZXBvc2l0b3J5Ijoib3JnL3JlcG8ifQ.c2ln";
    assert!(matches!(GithubExtractor::from_key_set(Some(&jwks), forged), Err(Error::Unauthorized(_))));
    assert!(matches!(GithubExtractor::from_key_set(Some(&jwks), "not-a-jwt"), Err(Error::Unauthorized(_))));
}

#[test]
fn tokens_of_an_earlier_process_do_not_verify() {
    let before = state();
    let token = before.create_jwt("ci".to_string()).unwrap();
    assert!(before.verify_jwt(&token).is_ok());
    let after = state();
    assert!(matches!(after.verify_jwt(&token), Err(Error::Unauthorized(_))));
    assert!(matches!(after.verify_jwt("not a token"), Err(Error::Unauthorized(_))));
}

#[test]
fn human_password_path() {
    let state = state();
    let bob = User { id: Some(4), name: "bob".to_string(), user_type: UserType::User };
    let stored = UserPasswordHash { user_id: 4, pw_hash: hash_of("hunter2") };
    let perms = vec![perm("bob/app", PermissionType::Pull)];
    assert_eq!(state.get_permissions(&bob, "hunter2", Some(&stored), perms.clone()), Ok(perms.clone()));
    assert!(matches!(state.get_permissions(&bob, "hunter3", Some(&stored), perms.clone()), Err(Error::Unauthorized(_))));
    assert!(matches!(state.get_permissions(&bob, "hunter2", None, perms.clone()), Err(Error::BadRequest(_))));
    let broken = UserPasswordHash { user_id: 4, pw_hash: "not a phc string".to_string() };
    assert!(matches!(state.get_permissions(&bob, "hunter2", Some(&broken), perms.clone()), Err(Error::Opaque(_))));
}

#[test]
fn unknown_principal_is_unauthorized() {
    let state = state();
    let r = PermissionExtractor::resolve(&state, None, "pw", None, vec![]);
    assert!(matches!(r, Err(Error::Unauthorized(_))));
    let bob = User { id: Some(4), name: "bob".to_string(), user_type: UserType::User };
    let stored = UserPasswordHash { user_id: 4, pw_hash: hash_of("pw") };
    let ok = PermissionExtractor::resolve(&state, Some(bob.clone()), "pw", Some(&stored), vec![]).unwrap();
    assert_eq!(ok.user, bob);
}

#[test]
fn users_and_admin() {
    let u = User::new_user("bob".to_string());
    assert_eq!((u.id, u.user_type), (None, UserType::User));
    let s = User::new_service_account("ci".to_string());
    assert_eq!((s.name.as_str(), s.user_type), ("ci", UserType::ServiceAccount));
    assert_eq!(u.check_password_holder(), Ok(()));
    assert!(matches!(s.check_password_holder(), Err(Error::BadRequest(_))));
    assert_eq!(s.check_identifier_holder(), Ok(()));
    assert!(matches!(u.check_identifier_holder(), Err(Error::BadRequest(_))));
    assert!(matches!(u.stored_id(), Err(Error::Opaque(_))));
    assert_eq!(verify_admin(&User::new_user("admin".to_string())), Ok(()));
    assert!(matches!(verify_admin(&u), Err(Error::Unauthorized(_))));
}

#[test]
fn generated_passwords() {
    let pw = User::generate_password(32);
    assert_eq!(pw.chars().count(), 32);
    assert!(pw.chars().all(|c| c.is_ascii_alphanumeric()));
    assert_ne!(pw, User::generate_password(32));
}

#[test]
fn claims_json() {
    assert_eq!(DockerClaims { access: vec![] }.to_json(), "[]");
    let one = DockerClaims { access: vec![registry_auth::scope::Scope::parse_str("repository:a:pull").unwrap()] };
    assert_eq!(one.to_json(), r#"[{"type":"repository","name":"a","actions":["pull"]}]"#);
}
