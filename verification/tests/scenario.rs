//! The end-to-end walk through the service: register, fail a login, log in,
//! create a link with the issued token, follow the redirect, and list the
//! owner's links.

use linklair::auth::auth;
use linklair::errors::AppError;
use linklair::models::{CreateLinkRequest, LoginRequest, RegisterRequest};
use linklair::routes::{
    create_short_link, get_user_links, login, redirect_to_original, register,
};
use linklair::store::{LinkStore, UserStore};

const SECRET: &[u8] = b"scenario-secret";
const NOW: u64 = 1_700_000_000;

#[test]
fn full_walkthrough() {
    let mut users = UserStore::new();
    let mut links = LinkStore::new();

    // Register alice.
    let created = register(
        &mut users,
        &RegisterRequest {
            username: "alice".to_string(),
            email: "alice@x.com".to_string(),
            password: "password123".to_string(),
        },
        NOW,
    )
    .unwrap();
    assert_eq!(created.id, 1);
    assert_eq!(created.username, "alice");
    assert_eq!(created.email, "alice@x.com");

    // Login with the wrong password fails with the generic unauthorized error.
    let bad = login(
        &users,
        &LoginRequest { email: "alice@x.com".to_string(), password: "hunter2hunter2".to_string() },
        SECRET,
        NOW + 1,
    );
    match bad {
        Err(e @ AppError::Unauthorized) => assert_eq!(e.status_code(), 401),
        _ => panic!("expected unauthorized"),
    }

    // Login with the correct password yields a token.
    let session = login(
        &users,
        &LoginRequest { email: "alice@x.com".to_string(), password: "password123".to_string() },
        SECRET,
        NOW + 2,
    )
    .unwrap();

    // The token authenticates a link creation.
    let header = format!("Bearer {}", session.token);
    let claims = auth(Some(&header), SECRET, NOW + 3).unwrap();
    assert_eq!(claims.sub, 1);

    let resp = create_short_link(
        &mut links,
        &claims,
        &CreateLinkRequest { url: "https://example.com".to_string() },
        NOW + 4,
    )
    .unwrap();
    let code = resp.short_url.strip_prefix("http://localhost:8000/").unwrap();
    assert_eq!(code.len(), 8);

    // The redirect resolves to the original URL.
    assert_eq!(redirect_to_original(&links, code).unwrap(), "https://example.com");

    // The owner's listing holds exactly that link.
    let listed = get_user_links(&links, &claims);
    assert_eq!(listed.len(), 1);
    assert_eq!(listed[0].original_url, "https://example.com");
    assert_eq!(listed[0].short_code, code);
}

#[test]
fn expired_token_no_longer_authenticates() {
    let mut users = UserStore::new();
    register(
        &mut users,
        &RegisterRequest {
            username: "alice".to_string(),
            email: "alice@x.com".to_string(),
            password: "password123".to_string(),
        },
        NOW,
    )
    .unwrap();
    let session = login(
        &users,
        &LoginRequest { email: "alice@x.com".to_string(), password: "password123".to_string() },
        SECRET,
        NOW,
    )
    .unwrap();
    let header = format!("Bearer {}", session.token);
    assert!(auth(Some(&header), SECRET, NOW + 86399).is_ok());
    assert!(matches!(auth(Some(&header), SECRET, NOW + 86400), Err(AppError::Unauthorized)));
}
