//! The access gate in front of owner-scoped operations: it extracts the
//! bearer credential from the `Authorization` header value, validates it,
//! and hands back the authenticated claims. It runs to completion before
//! any guarded operation starts; on a missing or bad credential the
//! operation never sees the request.

use vstd::prelude::*;
use vstd::string::StrSliceExecFns;

use crate::errors::AppError;
use crate::models::Claims;
use crate::token::{decode_jwt, token_of};

verus! {

/// The token carried by an `Authorization` header value: the rest of the
/// value after a literal `Bearer ` prefix, or nothing.
pub open spec fn bearer_token(h: Seq<char>) -> Option<Seq<char>> {
    if h.len() >= 7 && h[0] == 'B' && h[1] == 'e' && h[2] == 'a' && h[3] == 'r' && h[4] == 'e'
        && h[5] == 'r' && h[6] == ' ' {
        Some(h.skip(7))
    } else {
        None
    }
}

/// Authenticates one request from its `Authorization` header value, under
/// `secret` at time `now`. Absence of the header, a value without a bearer
/// prefix, and a token that fails validation are all `Unauthorized`.
pub fn auth(header: Option<&str>, secret: &[u8], now: u64) -> (r: Result<Claims, AppError>)
    ensures
        r matches Err(e) ==> e matches AppError::Unauthorized,
        r matches Ok(c) ==> c.exp > now,
        (header is None ==> r is Err),
        (header matches Some(h) ==> (bearer_token(h@) is None ==> r is Err)),
        (header matches Some(h) ==> (bearer_token(h@) matches Some(tok) ==> (forall|
            s: i64,
            u: Seq<char>,
            e: u64,
        |
            tok == #[trigger] token_of(s as int, u, e as int, secret@) ==> if e > now {
                r matches Ok(c) && c.sub == s && c.username@ == u && c.exp == e
            } else {
                r is Err
            }))),
{
    let h = match header {
        Some(h) => h,
        None => {
            return Err(AppError::Unauthorized);
        },
    };
    let len = h.unicode_len();
    if !(len >= 7 && h.get_char(0) == 'B' && h.get_char(1) == 'e' && h.get_char(2) == 'a'
        && h.get_char(3) == 'r' && h.get_char(4) == 'e' && h.get_char(5) == 'r' && h.get_char(6)
        == ' ') {
        return Err(AppError::Unauthorized);
    }
    let token = h.substring_char(7, len);
    proof {
        assert(token@ =~= h@.skip(7));
    }
    decode_jwt(token, secret, now)
}

} // verus!
