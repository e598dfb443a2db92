//! The persistent state, modeled as in-memory stores with the same
//! constraints a relational store would enforce: server-assigned ascending
//! identifiers, globally unique usernames, emails and short codes, and
//! creation timestamps that never move backwards. Conflicting writes
//! surface as `Conflict`, exactly where a storage uniqueness violation
//! would.

use vstd::prelude::*;

use crate::errors::AppError;
use crate::models::{Link, User};
use crate::text::str_eq;

verus! {

/// Some user in `s` has this email.
pub open spec fn has_email(s: Seq<User>, email: Seq<char>) -> bool {
    exists|i: int| 0 <= i < s.len() && (#[trigger] s[i]).email@ == email
}

/// Some user in `s` has this username.
pub open spec fn has_username(s: Seq<User>, username: Seq<char>) -> bool {
    exists|i: int| 0 <= i < s.len() && (#[trigger] s[i]).username@ == username
}

/// Some link in `s` carries this short code.
pub open spec fn has_code(s: Seq<Link>, code: Seq<char>) -> bool {
    exists|i: int| 0 <= i < s.len() && (#[trigger] s[i]).short_code@ == code
}

/// The creation time of the newest link, or 0 for an empty store.
pub open spec fn latest_created(s: Seq<Link>) -> u64 {
    if s.len() == 0 {
        0
    } else {
        s.last().created_at
    }
}

/// The user records, in insertion order.
pub struct UserStore {
    pub users: Vec<User>,
    pub next_id: i64,
}

impl UserStore {
    /// Well-formedness: ids are assigned from 1 upwards and every stored id
    /// is below the next one to assign; usernames and emails are unique.
    pub open spec fn wf(&self) -> bool {
        &&& 1 <= self.next_id
        &&& forall|i: int|
            0 <= i < self.users@.len() ==> 1 <= (#[trigger] self.users@[i]).id < self.next_id
        &&& forall|i: int, j: int|
            0 <= i < j < self.users@.len() ==> (#[trigger] self.users@[i]).id
                != (#[trigger] self.users@[j]).id
        &&& forall|i: int, j: int|
            0 <= i < j < self.users@.len() ==> (#[trigger] self.users@[i]).username@
                != (#[trigger] self.users@[j]).username@
        &&& forall|i: int, j: int|
            0 <= i < j < self.users@.len() ==> (#[trigger] self.users@[i]).email@
                != (#[trigger] self.users@[j]).email@
    }

    /// An empty store.
    pub fn new() -> (s: Self)
        ensures
            s.wf(),
            s.users@.len() == 0,
            s.next_id == 1,
    {
        UserStore { users: Vec::new(), next_id: 1 }
    }

    /// Point lookup by email. With `wf`, at most one record can match.
    pub fn find_user_by_email(&self, email: &str) -> (r: Option<User>)
        ensures
            (r matches Some(u) ==> exists|i: int|
                0 <= i < self.users@.len() && #[trigger] self.users@[i] == u && u.email@ == email@),
            (r is None <==> !has_email(self.users@, email@)),
    {
        let n = self.users.len();
        let mut i: usize = 0;
        while i < n
            invariant
                i <= n,
                n == self.users@.len(),
                forall|j: int| 0 <= j < i ==> (#[trigger] self.users@[j]).email@ != email@,
            decreases n - i,
        {
            if str_eq(self.users[i].email.as_str(), email) {
                let u = self.users[i].clone();
                return Some(u);
            }
            i += 1;
        }
        None
    }

    /// Inserts a new user, enforcing the unique-key constraints: a duplicate
    /// username or email is a `Conflict` and leaves the store untouched; an
    /// exhausted id space is a storage failure. On success the new record
    /// carries the next id and the given creation time.
    pub fn create_user(&mut self, username: &str, email: &str, password_hash: &str, now: u64) -> (r:
        Result<User, AppError>)
        requires
            old(self).wf(),
        ensures
            final(self).wf(),
            (has_username(old(self).users@, username@) || has_email(old(self).users@, email@))
                <==> (r matches Err(e) && e matches AppError::Conflict),
            (r matches Err(e) && e matches AppError::Database) <==> (!(has_username(
                old(self).users@,
                username@,
            ) || has_email(old(self).users@, email@)) && old(self).next_id == i64::MAX),
            (r matches Err(_) ==> final(self).users@ == old(self).users@ && final(self).next_id
                == old(self).next_id),
            (r matches Ok(u) ==> {
                &&& u.id == old(self).next_id
                &&& u.username@ == username@
                &&& u.email@ == email@
                &&& u.password_hash@ == password_hash@
                &&& u.created_at == now
                &&& final(self).users@ == old(self).users@.push(u)
                &&& final(self).next_id == old(self).next_id + 1
            }),
            (r is Ok <==> !(has_username(old(self).users@, username@) || has_email(
                old(self).users@,
                email@,
            )) && old(self).next_id < i64::MAX),
    {
        let n = self.users.len();
        let mut i: usize = 0;
        while i < n
            invariant
                i <= n,
                n == self.users@.len(),
                *self == *old(self),
                old(self).wf(),
                forall|j: int|
                    0 <= j < i ==> (#[trigger] self.users@[j]).username@ != username@ && (
                    #[trigger] self.users@[j]).email@ != email@,
            decreases n - i,
        {
            if str_eq(self.users[i].username.as_str(), username) || str_eq(
                self.users[i].email.as_str(),
                email,
            ) {
                return Err(AppError::Conflict);
            }
            i += 1;
        }
        if self.next_id == i64::MAX {
            return Err(AppError::Database);
        }
        let user = User {
            id: self.next_id,
            username: username.to_owned(),
            email: email.to_owned(),
            password_hash: password_hash.to_owned(),
            created_at: now,
        };
        let out = user.clone();
        self.users.push(user);
        self.next_id = self.next_id + 1;
        Ok(out)
    }
}

/// The link records, in insertion order.
pub struct LinkStore {
    pub links: Vec<Link>,
    pub next_id: i64,
}

/// The links owned by `user_id`, newest first: the reverse of their
/// insertion order.
pub open spec fn owner_links_desc(s: Seq<Link>, user_id: i64) -> Seq<Link>
    decreases s.len(),
{
    if s.len() == 0 {
        Seq::empty()
    } else if s.last().user_id == Some(user_id) {
        seq![s.last()] + owner_links_desc(s.drop_last(), user_id)
    } else {
        owner_links_desc(s.drop_last(), user_id)
    }
}

impl LinkStore {
    /// Well-formedness: ids ascend from 1 and stay below the next id, short
    /// codes are unique, and creation times never decrease along insertion
    /// order (the storage clock is monotone).
    pub open spec fn wf(&self) -> bool {
        &&& 1 <= self.next_id
        &&& forall|i: int|
            0 <= i < self.links@.len() ==> 1 <= (#[trigger] self.links@[i]).id < self.next_id
        &&& forall|i: int, j: int|
            0 <= i < j < self.links@.len() ==> (#[trigger] self.links@[i]).short_code@
                != (#[trigger] self.links@[j]).short_code@
        &&& forall|i: int, j: int|
            0 <= i <= j < self.links@.len() ==> (#[trigger] self.links@[i]).created_at
                <= (#[trigger] self.links@[j]).created_at
    }

    /// An empty store.
    pub fn new() -> (s: Self)
        ensures
            s.wf(),
            s.links@.len() == 0,
            s.next_id == 1,
    {
        LinkStore { links: Vec::new(), next_id: 1 }
    }

    /// Point lookup by short code, no side effects. With `wf`, at most one
    /// record can match.
    pub fn find_link_by_short_code(&self, short_code: &str) -> (r: Option<Link>)
        ensures
            (r matches Some(l) ==> exists|i: int|
                0 <= i < self.links@.len() && #[trigger] self.links@[i] == l && l.short_code@
                    == short_code@),
            (r is None <==> !has_code(self.links@, short_code@)),
    {
        let n = self.links.len();
        let mut i: usize = 0;
        while i < n
            invariant
                i <= n,
                n == self.links@.len(),
                forall|j: int| 0 <= j < i ==> (#[trigger] self.links@[j]).short_code@ != short_code@,
            decreases n - i,
        {
            if str_eq(self.links[i].short_code.as_str(), short_code) {
                let l = self.links[i].clone();
                return Some(l);
            }
            i += 1;
        }
        None
    }

    /// Inserts a link under an already chosen short code, enforcing the
    /// unique-code constraint: a duplicate code is a `Conflict` (the signal
    /// to regenerate and retry) and leaves the store untouched.
    pub fn create_link(
        &mut self,
        original_url: &str,
        short_code: &str,
        user_id: Option<i64>,
        now: u64,
    ) -> (r: Result<Link, AppError>)
        requires
            old(self).wf(),
            now >= latest_created(old(self).links@),
        ensures
            final(self).wf(),
            (has_code(old(self).links@, short_code@) <==> (r matches Err(e) && e
                matches AppError::Conflict)),
            ((r matches Err(e) && e matches AppError::Database) <==> (!has_code(
                old(self).links@,
                short_code@,
            ) && old(self).next_id == i64::MAX)),
            (r matches Err(_) ==> final(self).links@ == old(self).links@ && final(self).next_id
                == old(self).next_id),
            (r matches Ok(l) ==> {
                &&& l.id == old(self).next_id
                &&& l.original_url@ == original_url@
                &&& l.short_code@ == short_code@
                &&& l.user_id == user_id
                &&& l.created_at == now
                &&& final(self).links@ == old(self).links@.push(l)
                &&& final(self).next_id == old(self).next_id + 1
            }),
            (r is Ok <==> !has_code(old(self).links@, short_code@) && old(self).next_id
                < i64::MAX),
    {
        let n = self.links.len();
        let mut i: usize = 0;
        while i < n
            invariant
                i <= n,
                n == self.links@.len(),
                *self == *old(self),
                old(self).wf(),
                forall|j: int| 0 <= j < i ==> (#[trigger] self.links@[j]).short_code@ != short_code@,
            decreases n - i,
        {
            if str_eq(self.links[i].short_code.as_str(), short_code) {
                return Err(AppError::Conflict);
            }
            i += 1;
        }
        if self.next_id == i64::MAX {
            return Err(AppError::Database);
        }
        let link = Link {
            id: self.next_id,
            original_url: original_url.to_owned(),
            short_code: short_code.to_owned(),
            created_at: now,
            user_id,
        };
        let out = link.clone();
        self.links.push(link);
        self.next_id = self.next_id + 1;
        Ok(out)
    }

    /// All links of one owner, newest first; the empty vector when the
    /// owner has none.
    pub fn find_links_by_user_id(&self, user_id: i64) -> (r: Vec<Link>)
        requires
            self.wf(),
        ensures
            r@ == owner_links_desc(self.links@, user_id),
            (forall|i: int, j: int|
                0 <= i <= j < r@.len() ==> (#[trigger] r@[i]).created_at >= (
                #[trigger] r@[j]).created_at),
    {
        let n = self.links.len();
        let mut out: Vec<Link> = Vec::new();
        let mut i: usize = n;
        proof {
            assert(self.links@.take(n as int) =~= self.links@);
        }
        while i > 0
            invariant
                i <= n,
                n == self.links@.len(),
                owner_links_desc(self.links@, user_id) =~= out@ + owner_links_desc(
                    self.links@.take(i as int),
                    user_id,
                ),
            decreases i,
        {
            proof {
                lemma_owner_links_step(self.links@, user_id, i as int);
            }
            i -= 1;
            if self.links[i].user_id.is_some() {
                let uid = self.links[i].user_id.unwrap();
                if uid == user_id {
                    let ghost prev = out@;
                    out.push(self.links[i].clone());
                    proof {
                        assert(out@ =~= prev + seq![self.links@[i as int]]);
                        assert(prev + (seq![self.links@[i as int]] + owner_links_desc(
                            self.links@.take(i as int),
                            user_id,
                        )) =~= out@ + owner_links_desc(self.links@.take(i as int), user_id));
                    }
                }
            }
        }
        proof {
            assert(self.links@.take(0) =~= Seq::<Link>::empty());
            assert(out@ + Seq::<Link>::empty() =~= out@);
            assert(out@ =~= owner_links_desc(self.links@, user_id));
            lemma_owner_links_sorted(self.links@, user_id);
        }
        out
    }
}

/// Peeling one element off the front of the remaining suffix: the links of
/// an owner among the first `i` records extend, by the record at `i - 1`
/// when it is the owner's, to the links among the first `i`.
proof fn lemma_owner_links_step(s: Seq<Link>, user_id: i64, i: int)
    requires
        0 < i <= s.len(),
    ensures
        owner_links_desc(s.take(i), user_id) == if s[i - 1].user_id == Some(user_id) {
            seq![s[i - 1]] + owner_links_desc(s.take(i - 1), user_id)
        } else {
            owner_links_desc(s.take(i - 1), user_id)
        },
        owner_links_desc(s.take(i), user_id).len() >= owner_links_desc(s.take(i - 1), user_id).len(),
        owner_links_desc(s.take(i), user_id).len() <= owner_links_desc(s.take(i - 1), user_id).len()
            + 1,
{
    let t = s.take(i);
    assert(t.last() == s[i - 1]);
    assert(t.drop_last() =~= s.take(i - 1));
}

/// Every element of `owner_links_desc(s, uid)` is an element of `s`.
proof fn lemma_owner_links_membership(s: Seq<Link>, user_id: i64)
    ensures
        forall|k: int|
            0 <= k < owner_links_desc(s, user_id).len() ==> exists|i: int|
                0 <= i < s.len() && s[i] == #[trigger] owner_links_desc(s, user_id)[k],
    decreases s.len(),
{
    if s.len() > 0 {
        lemma_owner_links_membership(s.drop_last(), user_id);
        let r = owner_links_desc(s, user_id);
        let rr = owner_links_desc(s.drop_last(), user_id);
        assert forall|k: int| 0 <= k < r.len() implies exists|i: int|
            0 <= i < s.len() && s[i] == #[trigger] r[k] by {
            if s.last().user_id == Some(user_id) {
                if k == 0 {
                    assert(s[s.len() - 1] == r[0]);
                } else {
                    let i = choose|i: int| 0 <= i < s.drop_last().len() && s.drop_last()[i] == rr[k
                        - 1];
                    assert(s[i] == r[k]);
                }
            } else {
                let i = choose|i: int| 0 <= i < s.drop_last().len() && s.drop_last()[i] == rr[k];
                assert(s[i] == r[k]);
            }
        }
    }
}

/// Law: emails are globally unique. A well-formed store holds at most one
/// user per email, so of any number of registration attempts with one
/// email, at most the first can have succeeded; every later one finds the
/// email present and receives `Conflict` (see `UserStore::create_user`).
pub proof fn lemma_email_unique(store: &UserStore, i: int, j: int)
    requires
        store.wf(),
        0 <= i < store.users@.len(),
        0 <= j < store.users@.len(),
        store.users@[i].email@ == store.users@[j].email@,
    ensures
        i == j,
{
    if i < j {
        assert(store.users@[i].email@ != store.users@[j].email@);
    } else if j < i {
        assert(store.users@[j].email@ != store.users@[i].email@);
    }
}

/// Law: usernames are globally unique, exactly as emails are.
pub proof fn lemma_username_unique(store: &UserStore, i: int, j: int)
    requires
        store.wf(),
        0 <= i < store.users@.len(),
        0 <= j < store.users@.len(),
        store.users@[i].username@ == store.users@[j].username@,
    ensures
        i == j,
{
    if i < j {
        assert(store.users@[i].username@ != store.users@[j].username@);
    } else if j < i {
        assert(store.users@[j].username@ != store.users@[i].username@);
    }
}

/// Law: short codes are globally unique. Any two distinct links of a
/// well-formed store carry distinct codes, so any number of successful
/// creations yields as many distinct codes (`LinkStore::create_link` keeps
/// the store well-formed and refuses a taken code).
pub proof fn lemma_short_codes_distinct(store: &LinkStore)
    requires
        store.wf(),
    ensures
        forall|i: int, j: int|
            0 <= i < j < store.links@.len() ==> (#[trigger] store.links@[i]).short_code@
                != (#[trigger] store.links@[j]).short_code@,
{
}

/// Law: a stored link is found by its own code. In a well-formed store the
/// link at `k` is the only one carrying its code, so resolving that code
/// yields exactly that link's original URL (see
/// `LinkStore::find_link_by_short_code` and `routes::redirect_to_original`).
pub proof fn lemma_created_link_resolves(store: &LinkStore, k: int)
    requires
        store.wf(),
        0 <= k < store.links@.len(),
    ensures
        has_code(store.links@, store.links@[k].short_code@),
        forall|i: int|
            0 <= i < store.links@.len() && (#[trigger] store.links@[i]).short_code@
                == store.links@[k].short_code@ ==> i == k,
{
    assert(has_code(store.links@, store.links@[k].short_code@));
    assert forall|i: int|
        0 <= i < store.links@.len() && (#[trigger] store.links@[i]).short_code@
            == store.links@[k].short_code@ implies i == k by {
        if i < k {
            assert(store.links@[i].short_code@ != store.links@[k].short_code@);
        } else if k < i {
            assert(store.links@[k].short_code@ != store.links@[i].short_code@);
        }
    }
}

/// When creation times never decrease along insertion order, the owner's
/// newest-first listing is sorted by creation time descending.
proof fn lemma_owner_links_sorted(s: Seq<Link>, user_id: i64)
    requires
        forall|i: int, j: int|
            0 <= i <= j < s.len() ==> (#[trigger] s[i]).created_at <= (#[trigger] s[j]).created_at,
    ensures
        forall|i: int, j: int|
            0 <= i <= j < owner_links_desc(s, user_id).len() ==> (#[trigger] owner_links_desc(
                s,
                user_id,
            )[i]).created_at >= (#[trigger] owner_links_desc(s, user_id)[j]).created_at,
    decreases s.len(),
{
    if s.len() > 0 {
        lemma_owner_links_sorted(s.drop_last(), user_id);
        lemma_owner_links_membership(s.drop_last(), user_id);
        let r = owner_links_desc(s, user_id);
        let rr = owner_links_desc(s.drop_last(), user_id);
        assert forall|i: int, j: int| 0 <= i <= j < r.len() implies (#[trigger] r[i]).created_at
            >= (#[trigger] r[j]).created_at by {
            if s.last().user_id == Some(user_id) {
                if i == 0 {
                    if j > 0 {
                        let m = choose|m: int|
                            0 <= m < s.drop_last().len() && s.drop_last()[m] == rr[j - 1];
                        assert(s[m].created_at <= s[s.len() - 1].created_at);
                    }
                } else {
                    assert(r[i] == rr[i - 1] && r[j] == rr[j - 1]);
                }
            } else {
                assert(r[i] == rr[i] && r[j] == rr[j]);
            }
        }
    }
}

} // verus!
