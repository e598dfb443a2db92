//! Short-code allocation: fixed-length codes over the URL-safe alphabet.
//!
//! A code is 8 characters drawn from `A-Za-z0-9_-` by a cryptographically
//! strong random source. Collisions are possible by construction; callers
//! that persist a code must treat a uniqueness conflict as a signal to
//! regenerate and retry.

use vstd::prelude::*;

verus! {

/// Length of every generated short code.
pub const CODE_LEN: usize = 8;

/// A character of the URL-safe alphabet `A-Za-z0-9_-`.
pub open spec fn code_char(c: char) -> bool {
    ||| ('a' as u32) <= (c as u32) && (c as u32) <= ('z' as u32)
    ||| ('A' as u32) <= (c as u32) && (c as u32) <= ('Z' as u32)
    ||| ('0' as u32) <= (c as u32) && (c as u32) <= ('9' as u32)
    ||| c == '_'
    ||| c == '-'
}

/// A well-formed short code: exactly `CODE_LEN` URL-safe characters.
pub open spec fn valid_code(s: Seq<char>) -> bool {
    &&& s.len() == CODE_LEN
    &&& forall|i: int| 0 <= i < s.len() ==> code_char(#[trigger] s[i])
}

/// Relies on `nanoid::format` with `nanoid::alphabet::SAFE` and the default
/// secure random source: it returns exactly the requested number of symbols,
/// each drawn from that 64-character URL-safe alphabet. The result is
/// random, so nothing more is stated of it.
#[verifier::external_body]
fn nanoid_code() -> (r: String)
    ensures
        valid_code(r@),
{
    nanoid::format(nanoid::rngs::default, &nanoid::alphabet::SAFE, CODE_LEN)
}

/// Draws a fresh random short code. Distinct calls may collide; uniqueness
/// is the store's to enforce.
pub fn generate_short_code() -> (r: String)
    ensures
        valid_code(r@),
{
    nanoid_code()
}

} // verus!
