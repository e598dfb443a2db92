//! Data model: persisted entities, request bodies and response bodies.
//!
//! Timestamps are unix seconds. Identifiers are server-assigned, starting at 1.

use vstd::prelude::*;

verus! {

/// A registered account. Created only through registration and never mutated.
#[derive(Debug)]
pub struct User {
    pub id: i64,
    pub username: String,
    pub email: String,
    pub password_hash: String,
    pub created_at: u64,
}

impl Clone for User {
    fn clone(&self) -> (r: Self)
        ensures
            r == *self,
    {
        User {
            id: self.id,
            username: self.username.clone(),
            email: self.email.clone(),
            password_hash: self.password_hash.clone(),
            created_at: self.created_at,
        }
    }
}

/// A shortened link. The short code is unique across all links; `user_id`
/// is the owning account, or `None` for an unowned link.
#[derive(Debug)]
pub struct Link {
    pub id: i64,
    pub original_url: String,
    pub short_code: String,
    pub created_at: u64,
    pub user_id: Option<i64>,
}

impl Clone for Link {
    fn clone(&self) -> (r: Self)
        ensures
            r == *self,
    {
        Link {
            id: self.id,
            original_url: self.original_url.clone(),
            short_code: self.short_code.clone(),
            created_at: self.created_at,
            user_id: self.user_id,
        }
    }
}

/// The signed identity carried by a token: subject id, subject username,
/// and the absolute expiry timestamp in unix seconds.
#[derive(Debug)]
pub struct Claims {
    pub sub: i64,
    pub username: String,
    pub exp: u64,
}

impl Clone for Claims {
    fn clone(&self) -> (r: Self)
        ensures
            r == *self,
    {
        Claims { sub: self.sub, username: self.username.clone(), exp: self.exp }
    }
}

/// Body of a link-creation request.
#[derive(Debug)]
pub struct CreateLinkRequest {
    pub url: String,
}

/// Body of a successful link-creation response.
#[derive(Debug)]
pub struct LinkResponse {
    pub short_url: String,
}

/// Body of a registration request.
#[derive(Debug)]
pub struct RegisterRequest {
    pub username: String,
    pub email: String,
    pub password: String,
}

/// Body of a successful registration response. The password digest is never exposed.
#[derive(Debug)]
pub struct UserResponse {
    pub id: i64,
    pub username: String,
    pub email: String,
}

/// Body of a login request.
#[derive(Debug)]
pub struct LoginRequest {
    pub email: String,
    pub password: String,
}

/// Body of a successful login response.
#[derive(Debug)]
pub struct AuthResponse {
    pub token: String,
}

/// One owned link, as listed for its owner.
#[derive(Debug)]
pub struct UserLinkResponse {
    pub original_url: String,
    pub short_code: String,
    pub created_at: u64,
}

} // verus!
