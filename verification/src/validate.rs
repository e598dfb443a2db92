//! Input validation: the syntactic rules for usernames, passwords, email
//! addresses and URLs, and the checkers that enforce them.
//!
//! The email rule follows the common HTML5-style check: an ASCII local part
//! over a fixed punctuation set, one `'@'`, and a domain of dot-separated
//! labels of letters, digits and hyphens, each label starting and ending
//! with a letter or digit. Label and overall length caps are deliberately
//! not enforced. The URL rule checks the scheme and the first character of
//! the host, deliberately nothing more of the host's syntax.

use vstd::prelude::*;
use vstd::string::{StrSliceExecFns, StringExecFns};

use crate::errors::AppError;
use crate::models::{CreateLinkRequest, LoginRequest, RegisterRequest};

verus! {

/// A username must be at least 3 characters long.
pub open spec fn valid_username(s: Seq<char>) -> bool {
    s.len() >= 3
}

/// A password must be at least 8 characters long.
pub open spec fn valid_password(s: Seq<char>) -> bool {
    s.len() >= 8
}

/// An ASCII letter or digit.
pub open spec fn alnum(c: char) -> bool {
    ||| ('a' as u32) <= (c as u32) && (c as u32) <= ('z' as u32)
    ||| ('A' as u32) <= (c as u32) && (c as u32) <= ('Z' as u32)
    ||| ('0' as u32) <= (c as u32) && (c as u32) <= ('9' as u32)
}

/// A character the local part of an email may hold.
pub open spec fn local_char(c: char) -> bool {
    ||| alnum(c)
    ||| c == '.' || c == '!' || c == '#' || c == '$' || c == '%' || c == '&' || c == '\''
    ||| c == '*' || c == '+' || c == '/' || c == '=' || c == '?' || c == '^' || c == '_'
    ||| c == '`' || c == '{' || c == '|' || c == '}' || c == '~' || c == '-'
}

/// The part before the `'@'`: non-empty, every character from the allowed set.
pub open spec fn valid_local(l: Seq<char>) -> bool {
    &&& l.len() >= 1
    &&& forall|k: int| 0 <= k < l.len() ==> local_char(#[trigger] l[k])
}

/// The part after the `'@'`: dot-separated labels of letters, digits and
/// hyphens, every label starting and ending with a letter or digit. A
/// single label (no dot at all) is allowed.
pub open spec fn valid_domain(d: Seq<char>) -> bool {
    &&& d.len() >= 1
    &&& alnum(d[0])
    &&& alnum(d[d.len() - 1])
    &&& forall|k: int|
        0 <= k < d.len() ==> (alnum(#[trigger] d[k]) || d[k] == '-' || d[k] == '.')
    &&& forall|k: int|
        0 <= k < d.len() && #[trigger] d[k] == '.' ==> 0 < k < d.len() - 1 && alnum(d[k - 1])
            && alnum(d[k + 1])
}

/// How many `'@'` characters a sequence holds.
pub open spec fn at_count(s: Seq<char>) -> int
    decreases s.len(),
{
    if s.len() == 0 {
        0
    } else {
        at_count(s.drop_last()) + if s.last() == '@' { 1int } else { 0int }
    }
}

/// Email syntax: exactly one `'@'`, a valid local part before it and a
/// valid domain after it.
pub open spec fn valid_email(s: Seq<char>) -> bool {
    &&& at_count(s) == 1
    &&& exists|i: int|
        0 < i < s.len() && s[i] == '@' && valid_local(s.take(i)) && valid_domain(s.skip(i + 1))
}

/// A character the host of a URL may start with: anything but a delimiter
/// that would leave the host empty.
pub open spec fn host_start(c: char) -> bool {
    c != '/' && c != '.' && c != ':' && c != '?' && c != '#'
}

/// URL syntax: an `http://` or `https://` scheme, a host that starts with a
/// plausible character, and no spaces.
pub open spec fn valid_url(s: Seq<char>) -> bool {
    &&& (scheme_http(s) || scheme_https(s))
    &&& forall|k: int| 0 <= k < s.len() ==> s[k] != ' '
}

/// `http://` followed by a plausible host start.
pub open spec fn scheme_http(s: Seq<char>) -> bool {
    &&& s.len() >= 8
    &&& s[0] == 'h' && s[1] == 't' && s[2] == 't' && s[3] == 'p'
    &&& s[4] == ':' && s[5] == '/' && s[6] == '/'
    &&& host_start(s[7])
}

/// `https://` followed by a plausible host start.
pub open spec fn scheme_https(s: Seq<char>) -> bool {
    &&& s.len() >= 9
    &&& s[0] == 'h' && s[1] == 't' && s[2] == 't' && s[3] == 'p' && s[4] == 's'
    &&& s[5] == ':' && s[6] == '/' && s[7] == '/'
    &&& host_start(s[8])
}

fn is_alnum(c: char) -> (r: bool)
    ensures
        r == alnum(c),
{
    let u = c as u32;
    (('a' as u32) <= u && u <= ('z' as u32)) || (('A' as u32) <= u && u <= ('Z' as u32)) || ((
    '0' as u32) <= u && u <= ('9' as u32))
}

fn is_local_char(c: char) -> (r: bool)
    ensures
        r == local_char(c),
{
    is_alnum(c) || c == '.' || c == '!' || c == '#' || c == '$' || c == '%' || c == '&'
        || c == '\'' || c == '*' || c == '+' || c == '/' || c == '=' || c == '?' || c == '^'
        || c == '_' || c == '`' || c == '{' || c == '|' || c == '}' || c == '~' || c == '-'
}

proof fn lemma_at_count_prefix(s: Seq<char>, i: int)
    requires
        0 <= i < s.len(),
    ensures
        at_count(s.take(i + 1)) == at_count(s.take(i)) + if s[i] == '@' { 1int } else { 0int },
    decreases s.len(),
{
    assert(s.take(i + 1).drop_last() =~= s.take(i));
    assert(s.take(i + 1).last() == s[i]);
}

proof fn lemma_at_count_nonneg(s: Seq<char>)
    ensures
        at_count(s) >= 0,
    decreases s.len(),
{
    if s.len() > 0 {
        lemma_at_count_nonneg(s.drop_last());
    }
}

proof fn lemma_at_count_at_least(s: Seq<char>, i: int)
    requires
        0 <= i < s.len(),
        s[i] == '@',
    ensures
        at_count(s) >= 1,
    decreases s.len(),
{
    if i == s.len() - 1 {
        lemma_at_count_nonneg(s.drop_last());
    } else {
        lemma_at_count_at_least(s.drop_last(), i);
        lemma_at_count_nonneg(s.drop_last());
    }
}

proof fn lemma_at_count_take_monotone(s: Seq<char>, i: int)
    requires
        0 <= i <= s.len(),
    ensures
        at_count(s) >= at_count(s.take(i)),
    decreases s.len() - i,
{
    if i < s.len() {
        lemma_at_count_prefix(s, i);
        lemma_at_count_take_monotone(s, i + 1);
        assert(s.take(s.len() as int) =~= s);
    } else {
        assert(s.take(i) =~= s);
    }
}

proof fn lemma_at_count_two(s: Seq<char>, i: int, j: int)
    requires
        0 <= i < j < s.len(),
        s[i] == '@',
        s[j] == '@',
    ensures
        at_count(s) >= 2,
    decreases s.len(),
{
    lemma_at_count_at_least(s, i);
    lemma_at_count_take_monotone(s, j + 1);
    lemma_at_count_prefix(s, j);
    lemma_at_count_at_least(s.take(j), i);
}

/// Checks the email syntax of `valid_email`.
pub fn check_email(s: &str) -> (r: bool)
    ensures
        r == valid_email(s@),
{
    let len = s.unicode_len();
    // Pass 1: count the '@' characters and remember where one stands.
    let mut i: usize = 0;
    let mut ats: usize = 0;
    let mut at_pos: usize = 0;
    proof {
        assert(s@.take(0) =~= Seq::<char>::empty());
    }
    while i < len
        invariant
            i <= len,
            len == s@.len(),
            ats == at_count(s@.take(i as int)),
            ats <= i,
            ats >= 1 ==> 0 <= at_pos < i && s@[at_pos as int] == '@',
        decreases len - i,
    {
        let c = s.get_char(i);
        proof {
            lemma_at_count_prefix(s@, i as int);
        }
        if c == '@' {
            ats = ats + 1;
            at_pos = i;
        }
        i += 1;
    }
    proof {
        assert(s@.take(len as int) =~= s@);
    }
    if ats != 1 {
        return false;
    }
    // The '@' at `at_pos` is the only one.
    proof {
        assert forall|ii: int| 0 <= ii < s@.len() && s@[ii] == '@' implies ii == at_pos by {
            if ii < at_pos {
                lemma_at_count_two(s@, ii, at_pos as int);
            } else if ii > at_pos {
                lemma_at_count_two(s@, at_pos as int, ii);
            }
        }
    }
    if at_pos == 0 {
        return false;
    }
    // The local part.
    let ghost l = s@.take(at_pos as int);
    let mut j: usize = 0;
    while j < at_pos
        invariant
            j <= at_pos,
            0 < at_pos < len,
            len == s@.len(),
            at_count(s@) == 1,
            s@[at_pos as int] == '@',
            forall|ii: int| 0 <= ii < s@.len() && #[trigger] s@[ii] == '@' ==> ii == at_pos,
            forall|k: int| 0 <= k < j ==> local_char(#[trigger] s@[k]),
        decreases at_pos - j,
    {
        if !is_local_char(s.get_char(j)) {
            proof {
                assert(s@.take(at_pos as int)[j as int] == s@[j as int]);
            }
            return false;
        }
        j += 1;
    }
    // The domain: non-empty, letter-or-digit ends, dots only between labels.
    let dstart = at_pos + 1;
    let ghost d = s@.skip(dstart as int);
    if dstart == len {
        return false;
    }
    if !is_alnum(s.get_char(dstart)) {
        proof {
            assert(d[0] == s@[dstart as int]);
        }
        return false;
    }
    if !is_alnum(s.get_char(len - 1)) {
        proof {
            assert(d[d.len() - 1] == s@[len - 1]);
        }
        return false;
    }
    let mut k: usize = dstart;
    while k < len
        invariant
            dstart <= k <= len,
            len == s@.len(),
            dstart == at_pos + 1,
            0 < at_pos < len,
            at_count(s@) == 1,
            s@[at_pos as int] == '@',
            forall|ii: int| 0 <= ii < s@.len() && #[trigger] s@[ii] == '@' ==> ii == at_pos,
            forall|m: int|
                dstart <= m < k ==> (alnum(#[trigger] s@[m]) || s@[m] == '-' || s@[m] == '.'),
            forall|m: int|
                dstart <= m < k && #[trigger] s@[m] == '.' ==> dstart < m && m < len - 1 && alnum(
                    s@[m - 1],
                ) && alnum(s@[m + 1]),
        decreases len - k,
    {
        let c = s.get_char(k);
        if !(is_alnum(c) || c == '-' || c == '.') {
            proof {
                assert(s@.skip(dstart as int)[k - dstart] == s@[k as int]);
            }
            return false;
        }
        if c == '.' {
            if k == dstart || k == len - 1 {
                proof {
                    assert(s@.skip(dstart as int)[k - dstart] == s@[k as int]);
                }
                return false;
            }
            if !is_alnum(s.get_char(k - 1)) || !is_alnum(s.get_char(k + 1)) {
                proof {
                    assert(s@.skip(dstart as int)[k - dstart] == s@[k as int]);
                    assert(s@.skip(dstart as int)[k - dstart - 1] == s@[k - 1]);
                    assert(s@.skip(dstart as int)[k - dstart + 1] == s@[k + 1]);
                }
                return false;
            }
        }
        k += 1;
    }
    proof {
        assert forall|m: int| 0 <= m < l.len() implies local_char(#[trigger] l[m]) by {
            assert(l[m] == s@[m]);
        }
        assert(valid_local(l));
        assert(alnum(d[0]) && alnum(d[d.len() - 1]));
        assert forall|m: int| 0 <= m < d.len() implies (alnum(#[trigger] d[m]) || d[m] == '-'
            || d[m] == '.') by {
            assert(d[m] == s@[dstart + m]);
        }
        assert forall|m: int| 0 <= m < d.len() && #[trigger] d[m] == '.' implies 0 < m < d.len()
            - 1 && alnum(d[m - 1]) && alnum(d[m + 1]) by {
            assert(d[m] == s@[dstart + m]);
            assert(d[m - 1] == s@[dstart + m - 1]);
            assert(d[m + 1] == s@[dstart + m + 1]);
        }
        assert(valid_domain(d));
        assert(0 < at_pos < s@.len() && s@[at_pos as int] == '@' && valid_local(
            s@.take(at_pos as int),
        ) && valid_domain(s@.skip(at_pos + 1)));
    }
    true
}

/// Checks the URL syntax of `valid_url`.
pub fn check_url(s: &str) -> (r: bool)
    ensures
        r == valid_url(s@),
{
    let len = s.unicode_len();
    let mut i: usize = 0;
    while i < len
        invariant
            i <= len,
            len == s@.len(),
            forall|k: int| 0 <= k < i ==> s@[k] != ' ',
        decreases len - i,
    {
        if s.get_char(i) == ' ' {
            return false;
        }
        i += 1;
    }
    if len >= 8 && s.get_char(0) == 'h' && s.get_char(1) == 't' && s.get_char(2) == 't'
        && s.get_char(3) == 'p' {
        if s.get_char(4) == ':' && s.get_char(5) == '/' && s.get_char(6) == '/' && is_host_start(
            s.get_char(7),
        ) {
            return true;
        }
        if len >= 9 && s.get_char(4) == 's' && s.get_char(5) == ':' && s.get_char(6) == '/'
            && s.get_char(7) == '/' && is_host_start(s.get_char(8)) {
            return true;
        }
    }
    false
}

fn is_host_start(c: char) -> (r: bool)
    ensures
        r == host_start(c),
{
    c != '/' && c != '.' && c != ':' && c != '?' && c != '#'
}

/// The field messages reported for a registration whose fields fail the rules.
pub open spec fn register_error_msgs(username: Seq<char>, email: Seq<char>, password: Seq<char>) -> Seq<
    Seq<char>,
> {
    (if !valid_username(username) {
        seq!["username must be at least 3 characters long"@]
    } else {
        Seq::empty()
    }) + (if !valid_email(email) {
        seq!["email must be a valid email"@]
    } else {
        Seq::empty()
    }) + (if !valid_password(password) {
        seq!["password must be at least 8 characters long"@]
    } else {
        Seq::empty()
    })
}

/// Validates a registration request; a failure lists one message per bad field.
pub fn validate_register(req: &RegisterRequest) -> (r: Result<(), AppError>)
    ensures
        r is Ok <==> valid_username(req.username@) && valid_email(req.email@) && valid_password(
            req.password@,
        ),
        r matches Err(e) ==> e matches AppError::Validation(msgs) && msgs@.map_values(
            |m: String| m@,
        ) == register_error_msgs(req.username@, req.email@, req.password@),
{
    let mut msgs: Vec<String> = Vec::new();
    if req.username.unicode_len() < 3 {
        msgs.push(String::from_str("username must be at least 3 characters long"));
    }
    if !check_email(req.email.as_str()) {
        msgs.push(String::from_str("email must be a valid email"));
    }
    if req.password.unicode_len() < 8 {
        msgs.push(String::from_str("password must be at least 8 characters long"));
    }
    if msgs.len() == 0 {
        Ok(())
    } else {
        proof {
            assert(msgs@.map_values(|m: String| m@) =~= register_error_msgs(
                req.username@,
                req.email@,
                req.password@,
            ));
        }
        Err(AppError::Validation(msgs))
    }
}

/// Validates a login request: the email must be well-formed.
pub fn validate_login(req: &LoginRequest) -> (r: Result<(), AppError>)
    ensures
        r is Ok <==> valid_email(req.email@),
        r matches Err(e) ==> e matches AppError::Validation(msgs) && msgs@.map_values(
            |m: String| m@,
        ) =~= seq!["email must be a valid email"@],
{
    if check_email(req.email.as_str()) {
        Ok(())
    } else {
        let mut msgs: Vec<String> = Vec::new();
        msgs.push(String::from_str("email must be a valid email"));
        proof {
            assert(msgs@.map_values(|m: String| m@) =~= seq!["email must be a valid email"@]);
        }
        Err(AppError::Validation(msgs))
    }
}

/// Validates a link-creation request: the URL must be well-formed.
pub fn validate_create_link(req: &CreateLinkRequest) -> (r: Result<(), AppError>)
    ensures
        r is Ok <==> valid_url(req.url@),
        r matches Err(e) ==> e matches AppError::Validation(msgs) && msgs@.map_values(
            |m: String| m@,
        ) =~= seq!["url must be a valid URL"@],
{
    if check_url(req.url.as_str()) {
        Ok(())
    } else {
        let mut msgs: Vec<String> = Vec::new();
        msgs.push(String::from_str("url must be a valid URL"));
        proof {
            assert(msgs@.map_values(|m: String| m@) =~= seq!["url must be a valid URL"@]);
        }
        Err(AppError::Validation(msgs))
    }
}

} // verus!
