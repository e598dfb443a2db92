use linklair::errors::AppError;
use linklair::models::{Claims, CreateLinkRequest};
use linklair::routes::{create_short_link, get_user_links, redirect_to_original};
use linklair::shortcode::generate_short_code;
use linklair::store::LinkStore;

const NOW: u64 = 1_700_000_000;

fn claims_for(sub: i64) -> Claims {
    Claims { sub, username: format!("user{sub}"), exp: NOW + 86400 }
}

fn link_req(url: &str) -> CreateLinkRequest {
    CreateLinkRequest { url: url.to_string() }
}

fn code_of(short_url: &str) -> String {
    short_url.strip_prefix("http://localhost:8000/").unwrap().to_string()
}

#[test]
fn generated_codes_have_fixed_length_and_alphabet() {
    for _ in 0..100 {
        let code = generate_short_code();
        assert_eq!(code.chars().count(), 8);
        for c in code.chars() {
            assert!(
                c.is_ascii_alphanumeric() || c == '_' || c == '-',
                "unexpected character {c}"
            );
        }
    }
}

#[test]
fn many_links_get_distinct_codes() {
    let mut store = LinkStore::new();
    let claims = claims_for(1);
    let mut codes: Vec<String> = Vec::new();
    for i in 0..50u64 {
        let resp = create_short_link(&mut store, &claims, &link_req("https://example.com"), NOW + i)
            .unwrap();
        codes.push(code_of(&resp.short_url));
    }
    assert_eq!(store.links.len(), 50);
    for i in 0..codes.len() {
        for j in (i + 1)..codes.len() {
            assert_ne!(codes[i], codes[j]);
        }
    }
}

#[test]
fn resolve_returns_the_created_url() {
    let mut store = LinkStore::new();
    let claims = claims_for(1);
    let resp = create_short_link(&mut store, &claims, &link_req("https://example.com/page"), NOW)
        .unwrap();
    let code = code_of(&resp.short_url);
    let url = redirect_to_original(&store, &code).unwrap();
    assert_eq!(url, "https://example.com/page");
}

#[test]
fn resolve_unknown_code_is_not_found() {
    let store = LinkStore::new();
    assert!(matches!(redirect_to_original(&store, "zzzzzzzz"), Err(AppError::NotFound)));
}

#[test]
fn invalid_url_is_rejected() {
    let mut store = LinkStore::new();
    let claims = claims_for(1);
    for bad in [
        "",
        "example.com",
        "ftp://example.com",
        "http://",
        "http:///x",
        "http://a b.com",
        "https://.",
        "http://:80",
        "http://?q",
    ] {
        let r = create_short_link(&mut store, &claims, &link_req(bad), NOW);
        assert!(matches!(r, Err(AppError::Validation(_))), "accepted bad url {bad}");
    }
    assert_eq!(store.links.len(), 0);
    for good in ["http://a", "https://example.com", "http://x.y/z?q=1"] {
        let r = create_short_link(&mut store, &claims, &link_req(good), NOW);
        assert!(r.is_ok(), "rejected good url {good}");
    }
}

#[test]
fn duplicate_supplied_code_conflicts() {
    let mut store = LinkStore::new();
    store.create_link("https://example.com", "abcd1234", Some(1), NOW).unwrap();
    let r = store.create_link("https://other.org", "abcd1234", Some(1), NOW + 1);
    assert!(matches!(r, Err(AppError::Conflict)));
    assert_eq!(store.links.len(), 1);
}

#[test]
fn owner_listing_is_newest_first_and_scoped() {
    let mut store = LinkStore::new();
    store.create_link("https://one.example", "code0001", Some(1), NOW).unwrap();
    store.create_link("https://other.example", "code0002", Some(2), NOW + 1).unwrap();
    store.create_link("https://two.example", "code0003", Some(1), NOW + 2).unwrap();
    store.create_link("https://unowned.example", "code0004", None, NOW + 3).unwrap();
    store.create_link("https://three.example", "code0005", Some(1), NOW + 4).unwrap();

    let listed = get_user_links(&store, &claims_for(1));
    assert_eq!(listed.len(), 3);
    assert_eq!(listed[0].original_url, "https://three.example");
    assert_eq!(listed[1].original_url, "https://two.example");
    assert_eq!(listed[2].original_url, "https://one.example");
    assert!(listed[0].created_at >= listed[1].created_at);
    assert!(listed[1].created_at >= listed[2].created_at);

    assert_eq!(get_user_links(&store, &claims_for(3)).len(), 0);
}

#[test]
fn exhausted_link_id_space_is_a_storage_error() {
    let mut store = LinkStore { links: Vec::new(), next_id: i64::MAX };
    let r = store.create_link("https://example.com", "abcd1234", Some(1), NOW);
    assert!(matches!(r, Err(AppError::Database)));
    assert_eq!(store.links.len(), 0);
}

#[test]
fn error_status_codes_match_the_taxonomy() {
    assert_eq!(AppError::Validation(vec![]).status_code(), 400);
    assert_eq!(AppError::Database.status_code(), 500);
    assert_eq!(AppError::NotFound.status_code(), 404);
    assert_eq!(AppError::Conflict.status_code(), 409);
    assert_eq!(AppError::Unauthorized.status_code(), 401);
    assert_eq!(AppError::PasswordHashing.status_code(), 500);
    assert_eq!(AppError::Jwt.status_code(), 500);
}

#[test]
fn error_messages_stay_generic() {
    assert_eq!(AppError::NotFound.message(), "Resource not found");
    assert_eq!(AppError::Conflict.message(), "Username or email already exists");
    assert_eq!(AppError::Unauthorized.message(), "Invalid credentials");
    assert_eq!(AppError::PasswordHashing.message(), "An internal error occurred");
    assert_eq!(AppError::Jwt.message(), "An internal error occurred");
    assert_eq!(AppError::Database.message(), "An internal database error occurred");
    assert_eq!(AppError::Validation(vec![]).message(), "Input validation failed");
}
