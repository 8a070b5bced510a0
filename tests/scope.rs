use registry_auth::permission::{Permission, PermissionType};
use registry_auth::scope::{authorize_all, holds_action, Scope};
use registry_auth::Error;

fn perm(subject: &str, permission: PermissionType) -> Permission {
    Permission { id: None, subject: subject.to_string(), permission }
}

fn scope(input: &str) -> Scope {
    Scope::parse_str(input).unwrap()
}

#[test]
fn parses_full_scope() {
    let s = scope("repository:foo/bar:pull,push");
    assert_eq!(s.kind, "repository");
    assert_eq!(s.name, "foo/bar");
    assert_eq!(s.actions, vec![PermissionType::Pull, PermissionType::Push]);
}

#[test]
fn rejects_malformed_scopes() {
    for input in ["repository:foo:unknownaction", "repository::pull", "repository:foo:", ":foo:pull", "repository", "repository:foo", "repository:foo:,,", "repository:foo:pull,pul"] {
        match Scope::parse_str(input) {
            Err(Error::BadRequest(_)) => {}
            other => panic!("{input} gave {other:?}"),
        }
    }
}

#[test]
fn trims_and_skips_blank_actions() {
    let s = scope("registry:catalog: push , ,\tpull");
    assert_eq!(s.kind, "registry");
    assert_eq!(s.name, "catalog");
    assert_eq!(s.actions, vec![PermissionType::Push, PermissionType::Pull]);
}

#[test]
fn colon_after_name_belongs_to_actions() {
    assert!(matches!(Scope::parse_str("repository:a:pull:push"), Err(Error::BadRequest(_))));
}

#[test]
fn wildcard_pull_grants_pull_only() {
    let perms = vec![perm("*", PermissionType::Pull)];
    assert!(scope("repository:any:pull").is_authorized(&perms));
    assert!(!scope("repository:any:push").is_authorized(&perms));
    assert!(!scope("repository:any:pull,push").is_authorized(&perms));
}

#[test]
fn wildcard_and_exact_permissions_add_up() {
    let perms = vec![perm("*", PermissionType::Pull), perm("x", PermissionType::Push)];
    assert!(scope("repository:x:pull").is_authorized(&perms));
    assert!(scope("repository:x:push").is_authorized(&perms));
    assert!(scope("repository:x:pull,push").is_authorized(&perms));
    assert!(scope("repository:y:pull").is_authorized(&perms));
    assert!(!scope("repository:y:push").is_authorized(&perms));
}

#[test]
fn other_kinds_never_match() {
    let perms = vec![perm("*", PermissionType::Pull), perm("*", PermissionType::Push)];
    assert!(!scope("registry:x:pull").is_authorized(&perms));
}

#[test]
fn no_permissions_hold_nothing() {
    assert!(!holds_action(&vec![], "x", PermissionType::Pull));
    assert!(holds_action(&vec![perm("x", PermissionType::Pull)], "x", PermissionType::Pull));
    assert!(!holds_action(&vec![perm("xy", PermissionType::Pull)], "x", PermissionType::Pull));
}

#[test]
fn one_failing_scope_rejects_all() {
    let perms = vec![perm("a", PermissionType::Pull)];
    let ok = vec![scope("repository:a:pull")];
    let mixed = vec![scope("repository:a:pull"), scope("repository:b:pull")];
    assert_eq!(authorize_all(&ok, &perms), Ok(()));
    assert!(matches!(authorize_all(&mixed, &perms), Err(Error::Unauthorized(_))));
    assert_eq!(authorize_all(&vec![], &perms), Ok(()));
}

#[test]
fn action_names() {
    assert_eq!(PermissionType::from_actions("pull"), Ok(PermissionType::Pull));
    assert_eq!(PermissionType::from_actions("push"), Ok(PermissionType::Push));
    assert_eq!(PermissionType::from_actions("Pull"), Err(Error::BadRequest("Unknown action")));
    assert_eq!(PermissionType::from_actions(" pull"), Err(Error::BadRequest("Unknown action")));
    assert_eq!(PermissionType::from_actions(""), Err(Error::BadRequest("Unknown action")));
    assert_eq!(PermissionType::Pull.as_str(), "pull");
    assert_eq!(PermissionType::Push.as_str(), "push");
}

#[test]
fn error_statuses() {
    assert_eq!(Error::BadRequest("x").status(), 400);
    assert_eq!(Error::Unauthorized("x").status(), 401);
    assert_eq!(Error::NotFound("x").status(), 404);
    assert_eq!(Error::Opaque("x").status(), 500);
    assert_eq!(Error::NotFound("gone").message(), "gone");
}

#[test]
fn scope_json_is_exact() {
    let s = scope("repository:foo/bar:pull,push");
    assert_eq!(s.to_json(), r#"{"type":"repository","name":"foo/bar","actions":["pull","push"]}"#);
    let odd = Scope { kind: "repository".to_string(), name: "a\"b\\c\n".to_string(), actions: vec![] };
    assert_eq!(odd.to_json(), r#"{"type":"repository","name":"a\"b\\c\u000a","actions":[]}"#);
}
