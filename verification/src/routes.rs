//! The service operations behind each endpoint: registration, login,
//! link creation, owner listing and redirect resolution. Each takes the
//! store it works on, the configuration it needs (the signing secret) and
//! the current time explicitly; nothing reads ambient state.

use vstd::prelude::*;
use vstd::string::StringExecFns;

use crate::errors::AppError;
use crate::models::{
    AuthResponse, Claims, CreateLinkRequest, LinkResponse, LoginRequest, RegisterRequest,
    UserLinkResponse, UserResponse,
};
use crate::password::{hash_password, pwd_verify_outcome, verify_password};
use crate::shortcode::{generate_short_code, valid_code};
use crate::store::{
    has_code, has_email, has_username, latest_created, owner_links_desc, LinkStore, UserStore,
};
use crate::token::{generate_jwt, token_of, TOKEN_LIFETIME_SECS};
use crate::validate::{
    valid_email, valid_password, valid_url, valid_username, validate_create_link, validate_login,
    validate_register,
};

verus! {

/// Registers a new account: validates the request, hashes the password and
/// inserts the record. A duplicate username or email is a `Conflict`; the
/// response never carries the password digest.
pub fn register(store: &mut UserStore, req: &RegisterRequest, now: u64) -> (r: Result<
    UserResponse,
    AppError,
>)
    requires
        old(store).wf(),
    ensures
        final(store).wf(),
        ((r matches Err(e) && e matches AppError::Validation(_)) <==> !(valid_username(
            req.username@,
        ) && valid_email(req.email@) && valid_password(req.password@))),
        (r matches Err(_) ==> final(store).users@ == old(store).users@ && final(store).next_id
            == old(store).next_id),
        ((r matches Err(e) && e matches AppError::Conflict) ==> (has_username(
            old(store).users@,
            req.username@,
        ) || has_email(old(store).users@, req.email@))),
        (valid_username(req.username@) && valid_email(req.email@) && valid_password(req.password@)
            && (has_username(old(store).users@, req.username@) || has_email(
            old(store).users@,
            req.email@,
        )) ==> (r matches Err(e) && (e matches AppError::Conflict
            || e matches AppError::PasswordHashing))),
        (valid_username(req.username@) && valid_email(req.email@) && valid_password(req.password@)
            && !(has_username(old(store).users@, req.username@) || has_email(
            old(store).users@,
            req.email@,
        )) && old(store).next_id < i64::MAX ==> (r is Ok || r matches Err(
            AppError::PasswordHashing,
        ))),
        (r matches Ok(resp) ==> {
            let u = final(store).users@.last();
            &&& final(store).users@ == old(store).users@.push(u)
            &&& final(store).next_id == old(store).next_id + 1
            &&& !(has_username(old(store).users@, req.username@) || has_email(
                old(store).users@,
                req.email@,
            ))
            &&& u.id == old(store).next_id
            &&& u.username@ == req.username@
            &&& u.email@ == req.email@
            &&& u.created_at == now
            &&& pwd_verify_outcome(u.password_hash@, req.password@) == Ok::<bool, ()>(true)
            &&& resp.id == u.id
            &&& resp.username@ == req.username@
            &&& resp.email@ == req.email@
        }),
{
    validate_register(req)?;
    let digest = match hash_password(req.password.as_str()) {
        Ok(d) => d,
        Err(e) => {
            return Err(e);
        },
    };
    let user = match store.create_user(
        req.username.as_str(),
        req.email.as_str(),
        digest.as_str(),
        now,
    ) {
        Ok(u) => u,
        Err(e) => {
            return Err(e);
        },
    };
    Ok(UserResponse { id: user.id, username: user.username, email: user.email })
}

/// Logs an account in: on a known email and a matching password, issues a
/// token for the stored identity, expiring 24 hours after `now`. An unknown
/// email and a wrong password are the same `Unauthorized`.
pub fn login(store: &UserStore, req: &LoginRequest, secret: &[u8], now: u64) -> (r: Result<
    AuthResponse,
    AppError,
>)
    requires
        store.wf(),
        now + TOKEN_LIFETIME_SECS <= u64::MAX,
    ensures
        ((r matches Err(e) && e matches AppError::Validation(_)) <==> !valid_email(req.email@)),
        (valid_email(req.email@) && !has_email(store.users@, req.email@) ==> (r matches Err(e) && e
            matches AppError::Unauthorized)),
        (r is Ok ==> has_email(store.users@, req.email@)),
        (forall|i: int|
            0 <= i < store.users@.len() && (#[trigger] store.users@[i]).email@ == req.email@
                && valid_email(req.email@) ==> {
                let u = store.users@[i];
                match pwd_verify_outcome(u.password_hash@, req.password@) {
                    Ok(matched) => if matched {
                        r matches Ok(a) && a.token@ == token_of(
                            u.id as int,
                            u.username@,
                            now + TOKEN_LIFETIME_SECS,
                            secret@,
                        )
                    } else {
                        r matches Err(e) && e matches AppError::Unauthorized
                    },
                    Err(_) => r matches Err(e) && e matches AppError::PasswordHashing,
                }
            }),
{
    validate_login(req)?;
    let user = match store.find_user_by_email(req.email.as_str()) {
        Some(u) => u,
        None => {
            return Err(AppError::Unauthorized);
        },
    };
    proof {
        let i0 = choose|i0: int|
            0 <= i0 < store.users@.len() && #[trigger] store.users@[i0] == user && user.email@
                == req.email@;
        assert forall|i: int|
            0 <= i < store.users@.len() && (#[trigger] store.users@[i]).email@
                == req.email@ implies store.users@[i] == user by {
            if i != i0 {
                assert(store.users@[i].email@ != store.users@[i0].email@);
            }
        }
    }
    let matched = verify_password(req.password.as_str(), user.password_hash.as_str())?;
    if !matched {
        return Err(AppError::Unauthorized);
    }
    let token = generate_jwt(user.id, user.username.as_str(), secret, now)?;
    Ok(AuthResponse { token })
}

/// Creates a short link for the authenticated caller: validates the URL,
/// then draws random codes until one is free, bounded by a small fixed
/// number of attempts; exhausting them is a `Conflict`. The new link always
/// binds to the caller's identity.
pub fn create_short_link(
    store: &mut LinkStore,
    claims: &Claims,
    req: &CreateLinkRequest,
    now: u64,
) -> (r: Result<LinkResponse, AppError>)
    requires
        old(store).wf(),
        now >= latest_created(old(store).links@),
    ensures
        final(store).wf(),
        ((r matches Err(e) && e matches AppError::Validation(_)) <==> !valid_url(req.url@)),
        (r matches Err(_) ==> final(store).links@ == old(store).links@ && final(store).next_id
            == old(store).next_id),
        (r matches Err(e) ==> (e matches AppError::Validation(_) || e matches AppError::Conflict
            || e matches AppError::Database)),
        (old(store).links@.len() == 0 && valid_url(req.url@) && old(store).next_id < i64::MAX
            ==> r is Ok),
        (r matches Ok(resp) ==> {
            let l = final(store).links@.last();
            &&& valid_url(req.url@)
            &&& final(store).links@ == old(store).links@.push(l)
            &&& final(store).next_id == old(store).next_id + 1
            &&& l.id == old(store).next_id
            &&& l.original_url@ == req.url@
            &&& l.user_id == Some(claims.sub)
            &&& l.created_at == now
            &&& valid_code(l.short_code@)
            &&& !has_code(old(store).links@, l.short_code@)
            &&& resp.short_url@ == "http://localhost:8000/"@ + l.short_code@
        }),
{
    validate_create_link(req)?;
    let mut attempts: usize = 0;
    while attempts < 5
        invariant
            old(store).wf(),
            store.wf(),
            store.links@ == old(store).links@,
            store.next_id == old(store).next_id,
            now >= latest_created(old(store).links@),
            valid_url(req.url@),
            attempts > 0 ==> old(store).links@.len() > 0,
        decreases 5 - attempts,
    {
        let code = generate_short_code();
        match store.create_link(req.url.as_str(), code.as_str(), Some(claims.sub), now) {
            Ok(link) => {
                let short_url = String::from_str("http://localhost:8000/").concat(
                    link.short_code.as_str(),
                );
                return Ok(LinkResponse { short_url });
            },
            Err(e) => {
                match e {
                    AppError::Conflict => {
                        attempts += 1;
                    },
                    other => {
                        return Err(other);
                    },
                }
            },
        }
    }
    Err(AppError::Conflict)
}

/// Resolves a short code to its original URL, or `NotFound` for a code that
/// was never issued. No side effects.
pub fn redirect_to_original(store: &LinkStore, short_code: &str) -> (r: Result<String, AppError>)
    ensures
        (r is Ok <==> has_code(store.links@, short_code@)),
        (r matches Err(e) ==> e matches AppError::NotFound),
        (r matches Ok(url) ==> exists|i: int|
            0 <= i < store.links@.len() && (#[trigger] store.links@[i]).short_code@ == short_code@
                && store.links@[i].original_url@ == url@),
{
    match store.find_link_by_short_code(short_code) {
        Some(link) => Ok(link.original_url),
        None => Err(AppError::NotFound),
    }
}

/// Lists the authenticated caller's links, newest first; the empty list
/// when the caller has none.
pub fn get_user_links(store: &LinkStore, claims: &Claims) -> (r: Vec<UserLinkResponse>)
    requires
        store.wf(),
    ensures
        r@.len() == owner_links_desc(store.links@, claims.sub).len(),
        (forall|i: int|
            0 <= i < r@.len() ==> {
                let l = owner_links_desc(store.links@, claims.sub)[i];
                &&& (#[trigger] r@[i]).original_url@ == l.original_url@
                &&& r@[i].short_code@ == l.short_code@
                &&& r@[i].created_at == l.created_at
            }),
        (forall|i: int, j: int|
            0 <= i <= j < r@.len() ==> (#[trigger] r@[i]).created_at >= (
            #[trigger] r@[j]).created_at),
{
    let links = store.find_links_by_user_id(claims.sub);
    let n = links.len();
    let mut out: Vec<UserLinkResponse> = Vec::new();
    let mut i: usize = 0;
    while i < n
        invariant
            i <= n,
            n == links@.len(),
            out@.len() == i,
            forall|j: int|
                0 <= j < i ==> {
                    &&& (#[trigger] out@[j]).original_url@ == links@[j].original_url@
                    &&& out@[j].short_code@ == links@[j].short_code@
                    &&& out@[j].created_at == links@[j].created_at
                },
        decreases n - i,
    {
        let link = links[i].clone();
        out.push(
            UserLinkResponse {
                original_url: link.original_url,
                short_code: link.short_code,
                created_at: link.created_at,
            },
        );
        i += 1;
    }
    out
}

} // verus!
