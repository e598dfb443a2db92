use linklair::auth::auth;
use linklair::errors::AppError;
use linklair::models::{LoginRequest, RegisterRequest};
use linklair::password::{hash_password, verify_password};
use linklair::routes::{login, register};
use linklair::store::UserStore;
use linklair::token::{decode_jwt, generate_jwt};

const SECRET: &[u8] = b"test-fixture-secret";
const NOW: u64 = 1_700_000_000;

fn register_req(username: &str, email: &str, password: &str) -> RegisterRequest {
    RegisterRequest {
        username: username.to_string(),
        email: email.to_string(),
        password: password.to_string(),
    }
}

fn login_req(email: &str, password: &str) -> LoginRequest {
    LoginRequest { email: email.to_string(), password: password.to_string() }
}

#[test]
fn hash_then_verify_roundtrip() {
    let digest = hash_password("password123").unwrap();
    assert_eq!(verify_password("password123", &digest).unwrap(), true);
}

#[test]
fn verify_rejects_other_password() {
    let digest = hash_password("password123").unwrap();
    assert_eq!(verify_password("password124", &digest).unwrap(), false);
    assert_eq!(verify_password("", &digest).unwrap(), false);
}

#[test]
fn distinct_hashes_for_same_password() {
    let a = hash_password("password123").unwrap();
    let b = hash_password("password123").unwrap();
    assert_ne!(a, b);
    assert_eq!(verify_password("password123", &a).unwrap(), true);
    assert_eq!(verify_password("password123", &b).unwrap(), true);
}

#[test]
fn malformed_digest_is_internal_error() {
    let r = verify_password("password123", "not-a-phc-digest");
    assert!(matches!(r, Err(AppError::PasswordHashing)));
}

#[test]
fn token_validates_before_expiry_and_fails_after() {
    let token = generate_jwt(7, "alice", SECRET, NOW).unwrap();
    let exp = NOW + 86400;

    let claims = decode_jwt(&token, SECRET, exp - 1).unwrap();
    assert_eq!(claims.sub, 7);
    assert_eq!(claims.username, "alice");
    assert_eq!(claims.exp, exp);

    assert!(matches!(decode_jwt(&token, SECRET, exp), Err(AppError::Unauthorized)));
    assert!(matches!(decode_jwt(&token, SECRET, exp + 1), Err(AppError::Unauthorized)));
}

#[test]
fn token_fails_under_other_secret() {
    let token = generate_jwt(7, "alice", b"secret-one", NOW).unwrap();
    assert!(decode_jwt(&token, b"secret-one", NOW + 10).is_ok());
    assert!(matches!(decode_jwt(&token, b"secret-two", NOW + 10), Err(AppError::Unauthorized)));
}

#[test]
fn garbage_token_fails() {
    assert!(matches!(decode_jwt("", SECRET, NOW), Err(AppError::Unauthorized)));
    assert!(matches!(decode_jwt("a.b.c", SECRET, NOW), Err(AppError::Unauthorized)));
}

#[test]
fn register_assigns_ids_in_order() {
    let mut store = UserStore::new();
    let a = register(&mut store, &register_req("alice", "alice@x.com", "password123"), NOW)
        .unwrap();
    let b = register(&mut store, &register_req("bob", "bob@x.com", "password123"), NOW).unwrap();
    assert_eq!(a.id, 1);
    assert_eq!(b.id, 2);
    assert_eq!(a.username, "alice");
    assert_eq!(a.email, "alice@x.com");
}

#[test]
fn duplicate_email_conflicts() {
    let mut store = UserStore::new();
    register(&mut store, &register_req("alice", "alice@x.com", "password123"), NOW).unwrap();
    let r = register(&mut store, &register_req("someone", "alice@x.com", "password123"), NOW);
    assert!(matches!(r, Err(AppError::Conflict)));
    assert_eq!(store.users.len(), 1);
}

#[test]
fn duplicate_username_conflicts() {
    let mut store = UserStore::new();
    register(&mut store, &register_req("alice", "alice@x.com", "password123"), NOW).unwrap();
    let r = register(&mut store, &register_req("alice", "other@x.com", "password123"), NOW);
    assert!(matches!(r, Err(AppError::Conflict)));
}

#[test]
fn register_reports_each_bad_field() {
    let mut store = UserStore::new();
    let r = register(&mut store, &register_req("ab", "not-an-email", "short"), NOW);
    match r {
        Err(AppError::Validation(msgs)) => {
            assert_eq!(msgs.len(), 3);
            assert_eq!(msgs[0], "username must be at least 3 characters long");
            assert_eq!(msgs[1], "email must be a valid email");
            assert_eq!(msgs[2], "password must be at least 8 characters long");
        }
        _ => panic!("expected a validation failure"),
    }
    assert_eq!(store.users.len(), 0);
}

#[test]
fn email_syntax_edge_cases() {
    let mut store = UserStore::new();
    for bad in [
        "@x.com",
        "a@",
        "a@.com",
        "a@x.com.",
        "a@.x.com",
        "a b@x.com",
        "a@x@y.com",
        "a@-b.com",
        "a@b-.com",
        "a@b..com",
        "\u{e5}@x.com",
        "plain",
    ] {
        let r = register(&mut store, &register_req("alice", bad, "password123"), NOW);
        assert!(matches!(r, Err(AppError::Validation(_))), "accepted bad email {bad}");
    }
    for good in ["a@b", "a@b.c", "alice@x.com", "first.last@sub.domain.org", "user+tag@x.co", "a_b@x-y.com"] {
        let mut fresh = UserStore::new();
        let r = register(&mut fresh, &register_req("alice", good, "password123"), NOW);
        assert!(r.is_ok(), "rejected good email {good}");
    }
}

#[test]
fn exhausted_user_id_space_is_a_storage_error() {
    let mut store = UserStore { users: Vec::new(), next_id: i64::MAX };
    let r = register(&mut store, &register_req("alice", "alice@x.com", "password123"), NOW);
    assert!(matches!(r, Err(AppError::Database)));
    assert_eq!(store.users.len(), 0);
}

#[test]
fn login_unknown_email_is_unauthorized() {
    let store = UserStore::new();
    let r = login(&store, &login_req("ghost@x.com", "password123"), SECRET, NOW);
    assert!(matches!(r, Err(AppError::Unauthorized)));
}

#[test]
fn login_wrong_password_is_unauthorized() {
    let mut store = UserStore::new();
    register(&mut store, &register_req("alice", "alice@x.com", "password123"), NOW).unwrap();
    let r = login(&store, &login_req("alice@x.com", "wrongpass123"), SECRET, NOW);
    assert!(matches!(r, Err(AppError::Unauthorized)));
}

#[test]
fn login_issues_a_valid_token() {
    let mut store = UserStore::new();
    let created = register(&mut store, &register_req("alice", "alice@x.com", "password123"), NOW)
        .unwrap();
    let resp = login(&store, &login_req("alice@x.com", "password123"), SECRET, NOW).unwrap();
    let claims = decode_jwt(&resp.token, SECRET, NOW + 1).unwrap();
    assert_eq!(claims.sub, created.id);
    assert_eq!(claims.username, "alice");
    assert_eq!(claims.exp, NOW + 86400);
}

#[test]
fn auth_missing_or_malformed_header_is_unauthorized() {
    assert!(matches!(auth(None, SECRET, NOW), Err(AppError::Unauthorized)));
    assert!(matches!(auth(Some(""), SECRET, NOW), Err(AppError::Unauthorized)));
    assert!(matches!(auth(Some("Token abc"), SECRET, NOW), Err(AppError::Unauthorized)));
    assert!(matches!(auth(Some("Bearer "), SECRET, NOW), Err(AppError::Unauthorized)));
    assert!(matches!(auth(Some("bearer x.y.z"), SECRET, NOW), Err(AppError::Unauthorized)));
}

#[test]
fn auth_accepts_a_bearer_token() {
    let token = generate_jwt(3, "alice", SECRET, NOW).unwrap();
    let header = format!("Bearer {token}");
    let claims = auth(Some(&header), SECRET, NOW + 5).unwrap();
    assert_eq!(claims.sub, 3);
    assert_eq!(claims.username, "alice");
}
