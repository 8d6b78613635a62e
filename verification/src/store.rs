use vstd::prelude::*;

use crate::models::DBToken;
use crate::models::NewPassword;
use crate::models::Password;
use crate::models::User;
use crate::text::contains_ci;
use crate::text::contains_ignore_case;

verus! {

broadcast use vstd::seq_lib::group_filter_ensures, vstd::prelude::Seq::lemma_filter_push;

/// Some stored user carries this id.
pub open spec fn has_user_id(users: Seq<User>, user_id: i32) -> bool {
    exists|j: int| 0 <= j < users.len() && (#[trigger] users[j]).id == user_id
}

/// Some stored user carries this e-mail.
pub open spec fn email_taken(users: Seq<User>, email: Seq<char>) -> bool {
    exists|j: int| 0 <= j < users.len() && (#[trigger] users[j]).email@ == email
}

/// Some session row carries this access-token identifier.
pub open spec fn has_access_token(tokens: Seq<DBToken>, uuid: Seq<char>) -> bool {
    exists|j: int| 0 <= j < tokens.len() && (#[trigger] tokens[j]).access_token@ == uuid
}

/// Some session row carries this refresh-token identifier.
pub open spec fn has_refresh_token(tokens: Seq<DBToken>, uuid: Seq<char>) -> bool {
    exists|j: int| 0 <= j < tokens.len() && (#[trigger] tokens[j]).refresh_token@ == uuid
}

/// Some session row carries this row id.
pub open spec fn has_token_id(tokens: Seq<DBToken>, token_id: i32) -> bool {
    exists|j: int| 0 <= j < tokens.len() && (#[trigger] tokens[j]).id == token_id
}

/// Some parameter record carries this row id and belongs to this user.
pub open spec fn has_password_id(rows: Seq<Password>, user_id: i32, password_id: i32) -> bool {
    exists|j: int|
        0 <= j < rows.len() && (#[trigger] rows[j]).id == password_id && rows[j].user_id == user_id
}

/// A parameter record is listed by a search for `user_id` with pattern
/// `pat` (`None` lists everything the user owns).
pub open spec fn listed(p: Password, user_id: i32, pat: Option<Seq<char>>) -> bool {
    p.user_id == user_id && match pat {
        Some(s) => contains_ci(p.site@, s),
        None => true,
    }
}

/// Filtering a sequence whose elements carry pairwise-distinct keys keeps
/// the keys pairwise distinct, and every surviving element is one of the
/// originals.
pub proof fn lemma_filter_distinct_keys<A, K>(s: Seq<A>, pred: spec_fn(A) -> bool, key: spec_fn(
    A,
) -> K)
    requires
        forall|i: int, j: int| 0 <= i < j < s.len() ==> key(#[trigger] s[i]) != key(
            #[trigger] s[j],
        ),
    ensures
        forall|i: int, j: int|
            0 <= i < j < s.filter(pred).len() ==> key(#[trigger] s.filter(pred)[i]) != key(
                #[trigger] s.filter(pred)[j],
            ),
        forall|a: int|
            0 <= a < s.filter(pred).len() ==> exists|b: int|
                0 <= b < s.len() && #[trigger] s.filter(pred)[a] == s[b],
    decreases s.len(),
{
    reveal(Seq::filter);
    if s.len() > 0 {
        let t = s.drop_last();
        lemma_filter_distinct_keys(t, pred, key);
        assert forall|a: int|
            0 <= a < s.filter(pred).len() implies exists|b: int|
            0 <= b < s.len() && #[trigger] s.filter(pred)[a] == s[b] by {
            if pred(s.last()) && a == s.filter(pred).len() - 1 {
                assert(s.filter(pred)[a] == s[s.len() - 1]);
            } else {
                let b = choose|b: int| 0 <= b < t.len() && #[trigger] t.filter(pred)[a] == t[b];
                assert(s.filter(pred)[a] == s[b]);
            }
        }
        if pred(s.last()) {
            assert forall|i: int, j: int|
                0 <= i < j < s.filter(pred).len() implies key(#[trigger] s.filter(pred)[i]) != key(
                #[trigger] s.filter(pred)[j],
            ) by {
                if j == s.filter(pred).len() - 1 {
                    let b = choose|b: int|
                        0 <= b < t.len() && #[trigger] t.filter(pred)[i] == t[b];
                    assert(key(s.filter(pred)[i]) == key(s[b]));
                    assert(s.filter(pred)[j] == s[s.len() - 1]);
                }
            }
        }
    }
}

/// The credential and parameter store, the library's model of the backing
/// database: three tables and their id counters.
pub struct Store {
    pub users: Vec<User>,
    pub tokens: Vec<DBToken>,
    pub passwords: Vec<Password>,
    pub next_user_id: i32,
    pub next_token_id: i32,
    pub next_password_id: i32,
}

impl Store {
    /// The store's standing invariant: row ids are unique and below their
    /// counter, e-mails are unique, and every session row and parameter
    /// record references an existing user.
    pub open spec fn wf(&self) -> bool {
        &&& forall|i: int, j: int|
            0 <= i < j < self.users@.len() ==> (#[trigger] self.users@[i]).id
                != (#[trigger] self.users@[j]).id
        &&& forall|i: int, j: int|
            0 <= i < j < self.users@.len() ==> (#[trigger] self.users@[i]).email@
                != (#[trigger] self.users@[j]).email@
        &&& forall|i: int|
            0 <= i < self.users@.len() ==> (#[trigger] self.users@[i]).id < self.next_user_id
        &&& forall|i: int, j: int|
            0 <= i < j < self.tokens@.len() ==> (#[trigger] self.tokens@[i]).id
                != (#[trigger] self.tokens@[j]).id
        &&& forall|i: int|
            0 <= i < self.tokens@.len() ==> (#[trigger] self.tokens@[i]).id < self.next_token_id
        &&& forall|i: int|
            0 <= i < self.tokens@.len() ==> has_user_id(
                self.users@,
                (#[trigger] self.tokens@[i]).user_id,
            )
        &&& forall|i: int, j: int|
            0 <= i < j < self.passwords@.len() ==> (#[trigger] self.passwords@[i]).id
                != (#[trigger] self.passwords@[j]).id
        &&& forall|i: int|
            0 <= i < self.passwords@.len() ==> (#[trigger] self.passwords@[i]).id
                < self.next_password_id
        &&& forall|i: int|
            0 <= i < self.passwords@.len() ==> has_user_id(
                self.users@,
                (#[trigger] self.passwords@[i]).user_id,
            )
    }

    /// An empty store; ids are handed out from 1, as the backing database
    /// numbers rows.
    pub fn new() -> (r: Store)
        ensures
            r.wf(),
            r.users@.len() == 0,
            r.tokens@.len() == 0,
            r.passwords@.len() == 0,
            r.next_user_id == 1,
            r.next_token_id == 1,
            r.next_password_id == 1,
    {
        Store {
            users: Vec::new(),
            tokens: Vec::new(),
            passwords: Vec::new(),
            next_user_id: 1,
            next_token_id: 1,
            next_password_id: 1,
        }
    }

    /// Index of the user carrying this e-mail, if any.
    pub fn find_user_index_by_email(&self, email: &String) -> (r: Option<usize>)
        ensures
            r matches Some(i) ==> i < self.users@.len() && self.users@[i as int].email@ == email@,
            r is None ==> !email_taken(self.users@, email@),
    {
        let mut i: usize = 0;
        while i < self.users.len()
            invariant
                i <= self.users@.len(),
                forall|j: int| 0 <= j < i ==> (#[trigger] self.users@[j]).email@ != email@,
            decreases self.users@.len() - i,
        {
            if self.users[i].email == *email {
                return Some(i);
            }
            i = i + 1;
        }
        None
    }

    /// Index of the user carrying this id, if any.
    pub fn find_user_index_by_id(&self, user_id: i32) -> (r: Option<usize>)
        ensures
            r matches Some(i) ==> i < self.users@.len() && self.users@[i as int].id == user_id,
            r is None ==> !has_user_id(self.users@, user_id),
    {
        let mut i: usize = 0;
        while i < self.users.len()
            invariant
                i <= self.users@.len(),
                forall|j: int| 0 <= j < i ==> (#[trigger] self.users@[j]).id != user_id,
            decreases self.users@.len() - i,
        {
            if self.users[i].id == user_id {
                return Some(i);
            }
            i = i + 1;
        }
        None
    }

    /// Insert a new user unless the e-mail is already taken; the row
    /// inserted or refused mirrors the unique-key insert of the backing
    /// database.
    pub fn insert_user(&mut self, email: &String, password_hash: &String) -> (inserted: bool)
        requires
            old(self).wf(),
            old(self).next_user_id < i32::MAX,
        ensures
            final(self).wf(),
            inserted <==> !email_taken(old(self).users@, email@),
            inserted ==> final(self).users@ == old(self).users@.push(
                (User { id: old(self).next_user_id, email: *email, password: *password_hash }),
            ) && final(self).next_user_id == old(self).next_user_id + 1,
            !inserted ==> *final(self) == *old(self),
            final(self).tokens@ == old(self).tokens@,
            final(self).passwords@ == old(self).passwords@,
            final(self).next_token_id == old(self).next_token_id,
            final(self).next_password_id == old(self).next_password_id,
            email_taken(final(self).users@, email@),
    {
        if self.find_user_index_by_email(email).is_some() {
            return false;
        }
        let row = User { id: self.next_user_id, email: email.clone(), password: password_hash.clone() };
        self.users.push(row);
        self.next_user_id = self.next_user_id + 1;
        proof {
            assert forall|i: int|
                0 <= i < self.tokens@.len() implies has_user_id(
                self.users@,
                (#[trigger] self.tokens@[i]).user_id,
            ) by {
                let j = choose|j: int|
                    0 <= j < old(self).users@.len() && (#[trigger] old(self).users@[j]).id
                        == self.tokens@[i].user_id;
                assert(self.users@[j] == old(self).users@[j]);
            }
            assert forall|i: int|
                0 <= i < self.passwords@.len() implies has_user_id(
                self.users@,
                (#[trigger] self.passwords@[i]).user_id,
            ) by {
                let j = choose|j: int|
                    0 <= j < old(self).users@.len() && (#[trigger] old(self).users@[j]).id
                        == self.passwords@[i].user_id;
                assert(self.users@[j] == old(self).users@[j]);
            }
            assert(self.users@[self.users@.len() - 1].email@ == email@);
        }
        true
    }

    /// Index of the first session row carrying this access-token
    /// identifier, as the backing database's lookup would return it.
    pub fn find_token_index_by_access(&self, uuid: &String) -> (r: Option<usize>)
        ensures
            r matches Some(i) ==> i < self.tokens@.len() && self.tokens@[i as int].access_token@
                == uuid@ && (forall|j: int|
                0 <= j < i ==> (#[trigger] self.tokens@[j]).access_token@ != uuid@),
            r is None ==> !has_access_token(self.tokens@, uuid@),
    {
        let mut i: usize = 0;
        while i < self.tokens.len()
            invariant
                i <= self.tokens@.len(),
                forall|j: int| 0 <= j < i ==> (#[trigger] self.tokens@[j]).access_token@ != uuid@,
            decreases self.tokens@.len() - i,
        {
            if self.tokens[i].access_token == *uuid {
                return Some(i);
            }
            i = i + 1;
        }
        None
    }

    /// Index of the first session row carrying this refresh-token
    /// identifier.
    pub fn find_token_index_by_refresh(&self, uuid: &String) -> (r: Option<usize>)
        ensures
            r matches Some(i) ==> i < self.tokens@.len() && self.tokens@[i as int].refresh_token@
                == uuid@ && (forall|j: int|
                0 <= j < i ==> (#[trigger] self.tokens@[j]).refresh_token@ != uuid@),
            r is None ==> !has_refresh_token(self.tokens@, uuid@),
    {
        let mut i: usize = 0;
        while i < self.tokens.len()
            invariant
                i <= self.tokens@.len(),
                forall|j: int| 0 <= j < i ==> (#[trigger] self.tokens@[j]).refresh_token@ != uuid@,
            decreases self.tokens@.len() - i,
        {
            if self.tokens[i].refresh_token == *uuid {
                return Some(i);
            }
            i = i + 1;
        }
        None
    }

    /// Insert one session row holding both session identifiers for this
    /// user, stamped `now`.
    pub fn insert_token(&mut self, user_id: i32, access_uuid: &String, refresh_uuid: &String, now: i64) -> (token_id: i32)
        requires
            old(self).wf(),
            old(self).next_token_id < i32::MAX,
            has_user_id(old(self).users@, user_id),
        ensures
            final(self).wf(),
            token_id == old(self).next_token_id,
            final(self).tokens@ == old(self).tokens@.push(
                (DBToken {
                    id: old(self).next_token_id,
                    user_id: user_id,
                    access_token: *access_uuid,
                    refresh_token: *refresh_uuid,
                    created: now,
                    modified: now,
                }),
            ),
            final(self).next_token_id == old(self).next_token_id + 1,
            final(self).users@ == old(self).users@,
            final(self).passwords@ == old(self).passwords@,
            final(self).next_user_id == old(self).next_user_id,
            final(self).next_password_id == old(self).next_password_id,
    {
        let token_id = self.next_token_id;
        let row = DBToken {
            id: token_id,
            user_id: user_id,
            access_token: access_uuid.clone(),
            refresh_token: refresh_uuid.clone(),
            created: now,
            modified: now,
        };
        self.tokens.push(row);
        self.next_token_id = self.next_token_id + 1;
        token_id
    }

    /// Overwrite both session identifiers of the row carrying `token_id`
    /// in place and bump its modification stamp: the rotation that makes
    /// the prior pair unreachable. Reports whether any row was hit, with
    /// no row hit standing for the backing database's `0 rows updated`.
    pub fn rotate_session(&mut self, token_id: i32, access_uuid: &String, refresh_uuid: &String, now: i64) -> (updated: bool)
        requires
            old(self).wf(),
        ensures
            final(self).wf(),
            updated <==> has_token_id(old(self).tokens@, token_id),
            final(self).tokens@.len() == old(self).tokens@.len(),
            forall|i: int|
                0 <= i < old(self).tokens@.len() && (#[trigger] old(self).tokens@[i]).id
                    != token_id ==> final(self).tokens@[i] == old(self).tokens@[i],
            forall|i: int|
                0 <= i < old(self).tokens@.len() && (#[trigger] old(self).tokens@[i]).id
                    == token_id ==> final(self).tokens@[i] == (DBToken {
                    id: token_id,
                    user_id: old(self).tokens@[i].user_id,
                    access_token: *access_uuid,
                    refresh_token: *refresh_uuid,
                    created: old(self).tokens@[i].created,
                    modified: now,
                }),
            final(self).users@ == old(self).users@,
            final(self).passwords@ == old(self).passwords@,
            final(self).next_user_id == old(self).next_user_id,
            final(self).next_token_id == old(self).next_token_id,
            final(self).next_password_id == old(self).next_password_id,
    {
        let mut i: usize = 0;
        while i < self.tokens.len()
            invariant
                *self == *old(self),
                old(self).wf(),
                i <= self.tokens@.len(),
                forall|j: int| 0 <= j < i ==> (#[trigger] self.tokens@[j]).id != token_id,
            decreases self.tokens@.len() - i,
        {
            if self.tokens[i].id == token_id {
                let row = DBToken {
                    id: token_id,
                    user_id: self.tokens[i].user_id,
                    access_token: access_uuid.clone(),
                    refresh_token: refresh_uuid.clone(),
                    created: self.tokens[i].created,
                    modified: now,
                };
                self.tokens.set(i, row);
                proof {
                    assert forall|k: int|
                        0 <= k < self.tokens@.len() implies (#[trigger] self.tokens@[k]).user_id
                        == old(self).tokens@[k].user_id && self.tokens@[k].id == old(self).tokens@[k].id by {
                        if k != i {
                            assert(self.tokens@[k] == old(self).tokens@[k]);
                        }
                    }
                    assert forall|a: int, b: int|
                        0 <= a < b < self.tokens@.len() implies (#[trigger] self.tokens@[a]).id
                        != (#[trigger] self.tokens@[b]).id by {
                        assert(old(self).tokens@[a].id != old(self).tokens@[b].id);
                    }
                    assert forall|k: int|
                        0 <= k < self.tokens@.len() implies has_user_id(
                        self.users@,
                        (#[trigger] self.tokens@[k]).user_id,
                    ) by {
                        assert(has_user_id(old(self).users@, old(self).tokens@[k].user_id));
                    }
                }
                return true;
            }
            i = i + 1;
        }
        false
    }

    /// Delete every session row belonging to this user, reporting how many
    /// went: the mass invalidation a password change triggers.
    pub fn invalidate_all(&mut self, user_id: i32) -> (count: usize)
        requires
            old(self).wf(),
        ensures
            final(self).wf(),
            final(self).tokens@ == old(self).tokens@.filter(
                |t: DBToken| t.user_id != user_id,
            ),
            count == old(self).tokens@.len() - final(self).tokens@.len(),
            final(self).users@ == old(self).users@,
            final(self).passwords@ == old(self).passwords@,
            final(self).next_user_id == old(self).next_user_id,
            final(self).next_token_id == old(self).next_token_id,
            final(self).next_password_id == old(self).next_password_id,
    {
        let ghost pred = |t: DBToken| t.user_id != user_id;
        let mut kept: Vec<DBToken> = Vec::new();
        let mut i: usize = 0;
        while i < self.tokens.len()
            invariant
                *self == *old(self),
                i <= self.tokens@.len(),
                kept@ == self.tokens@.subrange(0, i as int).filter(pred),
                pred == (|t: DBToken| t.user_id != user_id),
            decreases self.tokens@.len() - i,
        {
            proof {
                assert(self.tokens@.subrange(0, i + 1 as int) =~= self.tokens@.subrange(
                    0,
                    i as int,
                ).push(self.tokens@[i as int]));
            }
            if self.tokens[i].user_id != user_id {
                kept.push(self.tokens[i].clone());
            }
            i = i + 1;
        }
        proof {
            assert(self.tokens@.subrange(0, self.tokens@.len() as int) =~= self.tokens@);
        }
        let count = self.tokens.len() - kept.len();
        self.tokens = kept;
        proof {
            self.lemma_tokens_filter_wf(*old(self), pred);
        }
        count
    }

    /// Delete every session row of this user whose modification stamp is
    /// older than `min_modified`: the lazy sweep run after a login.
    pub fn purge_expired_tokens(&mut self, user_id: i32, min_modified: i64)
        requires
            old(self).wf(),
        ensures
            final(self).wf(),
            final(self).tokens@ == old(self).tokens@.filter(
                |t: DBToken| !(t.user_id == user_id && t.modified < min_modified),
            ),
            final(self).users@ == old(self).users@,
            final(self).passwords@ == old(self).passwords@,
            final(self).next_user_id == old(self).next_user_id,
            final(self).next_token_id == old(self).next_token_id,
            final(self).next_password_id == old(self).next_password_id,
    {
        let ghost pred = |t: DBToken| !(t.user_id == user_id && t.modified < min_modified);
        let mut kept: Vec<DBToken> = Vec::new();
        let mut i: usize = 0;
        while i < self.tokens.len()
            invariant
                *self == *old(self),
                i <= self.tokens@.len(),
                kept@ == self.tokens@.subrange(0, i as int).filter(pred),
                pred == (|t: DBToken| !(t.user_id == user_id && t.modified < min_modified)),
            decreases self.tokens@.len() - i,
        {
            proof {
                assert(self.tokens@.subrange(0, i + 1 as int) =~= self.tokens@.subrange(
                    0,
                    i as int,
                ).push(self.tokens@[i as int]));
            }
            if !(self.tokens[i].user_id == user_id && self.tokens[i].modified < min_modified) {
                kept.push(self.tokens[i].clone());
            }
            i = i + 1;
        }
        proof {
            assert(self.tokens@.subrange(0, self.tokens@.len() as int) =~= self.tokens@);
        }
        self.tokens = kept;
        proof {
            self.lemma_tokens_filter_wf(*old(self), pred);
        }
    }

    /// After replacing the token table with a filtered copy of itself, the
    /// store invariant still holds.
    proof fn lemma_tokens_filter_wf(self, pre: Store, pred: spec_fn(DBToken) -> bool)
        requires
            pre.wf(),
            self.users@ == pre.users@,
            self.passwords@ == pre.passwords@,
            self.tokens@ == pre.tokens@.filter(pred),
            self.next_user_id == pre.next_user_id,
            self.next_token_id == pre.next_token_id,
            self.next_password_id == pre.next_password_id,
        ensures
            self.wf(),
    {
        lemma_filter_distinct_keys(pre.tokens@, pred, |t: DBToken| t.id);
        assert forall|i: int|
            0 <= i < self.tokens@.len() implies (#[trigger] self.tokens@[i]).id
            < self.next_token_id && has_user_id(self.users@, self.tokens@[i].user_id) by {
            let b = choose|b: int|
                0 <= b < pre.tokens@.len() && #[trigger] pre.tokens@.filter(pred)[i]
                    == pre.tokens@[b];
            assert(self.tokens@[i] == pre.tokens@[b]);
        }
    }

    /// Replace the stored password hash of the user carrying `user_id`,
    /// reporting whether any row was hit.
    pub fn set_user_password(&mut self, user_id: i32, new_hash: &String) -> (updated: bool)
        requires
            old(self).wf(),
        ensures
            final(self).wf(),
            updated <==> has_user_id(old(self).users@, user_id),
            final(self).users@.len() == old(self).users@.len(),
            forall|i: int|
                0 <= i < old(self).users@.len() && (#[trigger] old(self).users@[i]).id != user_id
                    ==> final(self).users@[i] == old(self).users@[i],
            forall|i: int|
                0 <= i < old(self).users@.len() && (#[trigger] old(self).users@[i]).id == user_id
                    ==> final(self).users@[i] == (User {
                    id: user_id,
                    email: old(self).users@[i].email,
                    password: *new_hash,
                }),
            final(self).tokens@ == old(self).tokens@,
            final(self).passwords@ == old(self).passwords@,
            final(self).next_user_id == old(self).next_user_id,
            final(self).next_token_id == old(self).next_token_id,
            final(self).next_password_id == old(self).next_password_id,
    {
        let mut i: usize = 0;
        while i < self.users.len()
            invariant
                *self == *old(self),
                old(self).wf(),
                i <= self.users@.len(),
                forall|j: int| 0 <= j < i ==> (#[trigger] self.users@[j]).id != user_id,
            decreases self.users@.len() - i,
        {
            if self.users[i].id == user_id {
                let row = User {
                    id: user_id,
                    email: self.users[i].email.clone(),
                    password: new_hash.clone(),
                };
                self.users.set(i, row);
                proof {
                    assert forall|k: int|
                        0 <= k < self.users@.len() implies (#[trigger] self.users@[k]).id == old(self).users@[k].id && self.users@[k].email@ == old(self).users@[k].email@ by {
                        if k != i {
                            assert(self.users@[k] == old(self).users@[k]);
                        }
                    }
                    assert forall|a: int, b: int|
                        0 <= a < b < self.users@.len() implies (#[trigger] self.users@[a]).id
                        != (#[trigger] self.users@[b]).id && self.users@[a].email@
                        != self.users@[b].email@ by {
                        assert(old(self).users@[a].id != old(self).users@[b].id);
                        assert(old(self).users@[a].email@ != old(self).users@[b].email@);
                    }
                    assert forall|k: int|
                        0 <= k < self.tokens@.len() implies has_user_id(
                        self.users@,
                        (#[trigger] self.tokens@[k]).user_id,
                    ) by {
                        let j = choose|j: int|
                            0 <= j < old(self).users@.len() && (#[trigger] old(self).users@[j]).id == self.tokens@[k].user_id;
                        assert(self.users@[j].id == self.tokens@[k].user_id);
                    }
                    assert forall|k: int|
                        0 <= k < self.passwords@.len() implies has_user_id(
                        self.users@,
                        (#[trigger] self.passwords@[k]).user_id,
                    ) by {
                        let j = choose|j: int|
                            0 <= j < old(self).users@.len() && (#[trigger] old(self).users@[j]).id == self.passwords@[k].user_id;
                        assert(self.users@[j].id == self.passwords@[k].user_id);
                    }
                }
                return true;
            }
            i = i + 1;
        }
        false
    }

    /// Delete the user carrying `user_id` together with every session row
    /// and parameter record that referenced it, reporting whether the user
    /// existed.
    pub fn delete_user(&mut self, user_id: i32) -> (deleted: bool)
        requires
            old(self).wf(),
        ensures
            final(self).wf(),
            deleted <==> has_user_id(old(self).users@, user_id),
            final(self).users@ == old(self).users@.filter(|u: User| u.id != user_id),
            final(self).tokens@ == old(self).tokens@.filter(|t: DBToken| t.user_id != user_id),
            final(self).passwords@ == old(self).passwords@.filter(
                |p: Password| p.user_id != user_id,
            ),
            final(self).next_user_id == old(self).next_user_id,
            final(self).next_token_id == old(self).next_token_id,
            final(self).next_password_id == old(self).next_password_id,
    {
        let ghost upred = |u: User| u.id != user_id;
        let ghost tpred = |t: DBToken| t.user_id != user_id;
        let ghost ppred = |p: Password| p.user_id != user_id;
        let mut deleted = false;
        let mut kept_users: Vec<User> = Vec::new();
        let mut i: usize = 0;
        while i < self.users.len()
            invariant
                *self == *old(self),
                i <= self.users@.len(),
                kept_users@ == self.users@.subrange(0, i as int).filter(upred),
                upred == (|u: User| u.id != user_id),
                deleted <==> exists|j: int|
                    0 <= j < i && (#[trigger] self.users@[j]).id == user_id,
            decreases self.users@.len() - i,
        {
            proof {
                assert(self.users@.subrange(0, i + 1 as int) =~= self.users@.subrange(
                    0,
                    i as int,
                ).push(self.users@[i as int]));
            }
            if self.users[i].id != user_id {
                kept_users.push(self.users[i].clone());
            } else {
                deleted = true;
            }
            i = i + 1;
        }
        let mut kept_tokens: Vec<DBToken> = Vec::new();
        let mut i: usize = 0;
        while i < self.tokens.len()
            invariant
                *self == *old(self),
                i <= self.tokens@.len(),
                kept_tokens@ == self.tokens@.subrange(0, i as int).filter(tpred),
                tpred == (|t: DBToken| t.user_id != user_id),
            decreases self.tokens@.len() - i,
        {
            proof {
                assert(self.tokens@.subrange(0, i + 1 as int) =~= self.tokens@.subrange(
                    0,
                    i as int,
                ).push(self.tokens@[i as int]));
            }
            if self.tokens[i].user_id != user_id {
                kept_tokens.push(self.tokens[i].clone());
            }
            i = i + 1;
        }
        let mut kept_passwords: Vec<Password> = Vec::new();
        let mut i: usize = 0;
        while i < self.passwords.len()
            invariant
                *self == *old(self),
                i <= self.passwords@.len(),
                kept_passwords@ == self.passwords@.subrange(0, i as int).filter(ppred),
                ppred == (|p: Password| p.user_id != user_id),
            decreases self.passwords@.len() - i,
        {
            proof {
                assert(self.passwords@.subrange(0, i + 1 as int) =~= self.passwords@.subrange(
                    0,
                    i as int,
                ).push(self.passwords@[i as int]));
            }
            if self.passwords[i].user_id != user_id {
                kept_passwords.push(self.passwords[i].clone());
            }
            i = i + 1;
        }
        proof {
            assert(self.users@.subrange(0, self.users@.len() as int) =~= self.users@);
            assert(self.tokens@.subrange(0, self.tokens@.len() as int) =~= self.tokens@);
            assert(self.passwords@.subrange(0, self.passwords@.len() as int) =~= self.passwords@);
        }
        self.users = kept_users;
        self.tokens = kept_tokens;
        self.passwords = kept_passwords;
        proof {
            lemma_filter_distinct_keys(old(self).users@, upred, |u: User| u.id);
            lemma_filter_distinct_keys(old(self).users@, upred, |u: User| u.email@);
            lemma_filter_distinct_keys(old(self).tokens@, tpred, |t: DBToken| t.id);
            lemma_filter_distinct_keys(old(self).passwords@, ppred, |p: Password| p.id);
            assert forall|k: int|
                0 <= k < self.users@.len() implies (#[trigger] self.users@[k]).id
                < self.next_user_id by {
                let b = choose|b: int|
                    0 <= b < old(self).users@.len() && #[trigger] old(self).users@.filter(upred)[k]
                        == old(self).users@[b];
                assert(self.users@[k] == old(self).users@[b]);
            }
            assert forall|k: int|
                0 <= k < self.tokens@.len() implies (#[trigger] self.tokens@[k]).id
                < self.next_token_id && has_user_id(self.users@, self.tokens@[k].user_id) by {
                let b = choose|b: int|
                    0 <= b < old(self).tokens@.len() && #[trigger] old(self).tokens@.filter(
                        tpred,
                    )[k] == old(self).tokens@[b];
                assert(self.tokens@[k] == old(self).tokens@[b]);
                let j = choose|j: int|
                    0 <= j < old(self).users@.len() && (#[trigger] old(self).users@[j]).id == old(self).tokens@[b].user_id;
                assert(upred(old(self).users@[j]));
                assert(self.users@.contains(old(self).users@[j]));
                let m = choose|m: int|
                    0 <= m < self.users@.len() && self.users@[m] == old(self).users@[j];
                assert(self.users@[m].id == self.tokens@[k].user_id);
            }
            assert forall|k: int|
                0 <= k < self.passwords@.len() implies (#[trigger] self.passwords@[k]).id
                < self.next_password_id && has_user_id(
                self.users@,
                self.passwords@[k].user_id,
            ) by {
                let b = choose|b: int|
                    0 <= b < old(self).passwords@.len() && #[trigger] old(self).passwords@.filter(
                        ppred,
                    )[k] == old(self).passwords@[b];
                assert(self.passwords@[k] == old(self).passwords@[b]);
                let j = choose|j: int|
                    0 <= j < old(self).users@.len() && (#[trigger] old(self).users@[j]).id == old(self).passwords@[b].user_id;
                assert(upred(old(self).users@[j]));
                assert(self.users@.contains(old(self).users@[j]));
                let m = choose|m: int|
                    0 <= m < self.users@.len() && self.users@[m] == old(self).users@[j];
                assert(self.users@[m].id == self.passwords@[k].user_id);
            }
        }
        deleted
    }

    /// Insert one parameter record for this user, stamped `now`, and hand
    /// back a copy of the stored row.
    pub fn insert_password(&mut self, user_id: i32, entry: &NewPassword, now: i64) -> (row:
        Password)
        requires
            old(self).wf(),
            old(self).next_password_id < i32::MAX,
            has_user_id(old(self).users@, user_id),
        ensures
            final(self).wf(),
            row == (Password {
                id: old(self).next_password_id,
                user_id: user_id,
                login: entry.login,
                site: entry.site,
                uppercase: entry.uppercase,
                symbols: entry.symbols,
                lowercase: entry.lowercase,
                numbers: entry.numbers,
                counter: entry.counter,
                version: entry.version,
                length: entry.length,
                created: now,
                modified: now,
            }),
            final(self).passwords@ == old(self).passwords@.push(row),
            final(self).next_password_id == old(self).next_password_id + 1,
            final(self).users@ == old(self).users@,
            final(self).tokens@ == old(self).tokens@,
            final(self).next_user_id == old(self).next_user_id,
            final(self).next_token_id == old(self).next_token_id,
    {
        let row = Password {
            id: self.next_password_id,
            user_id: user_id,
            login: entry.login.clone(),
            site: entry.site.clone(),
            uppercase: entry.uppercase,
            symbols: entry.symbols,
            lowercase: entry.lowercase,
            numbers: entry.numbers,
            counter: entry.counter,
            version: entry.version,
            length: entry.length,
            created: now,
            modified: now,
        };
        self.passwords.push(row.clone());
        self.next_password_id = self.next_password_id + 1;
        row
    }

    /// Index of the parameter record carrying `password_id`, provided it
    /// belongs to `user_id`: a row of another user is as absent as no row.
    pub fn find_password_index(&self, user_id: i32, password_id: i32) -> (r: Option<usize>)
        ensures
            r matches Some(i) ==> i < self.passwords@.len() && self.passwords@[i as int].id
                == password_id && self.passwords@[i as int].user_id == user_id,
            r is None ==> !has_password_id(self.passwords@, user_id, password_id),
    {
        let mut i: usize = 0;
        while i < self.passwords.len()
            invariant
                i <= self.passwords@.len(),
                forall|j: int|
                    0 <= j < i ==> !((#[trigger] self.passwords@[j]).id == password_id
                        && self.passwords@[j].user_id == user_id),
            decreases self.passwords@.len() - i,
        {
            if self.passwords[i].id == password_id && self.passwords[i].user_id == user_id {
                return Some(i);
            }
            i = i + 1;
        }
        None
    }

    /// A copy of the parameter record carrying `password_id`, provided it
    /// belongs to `user_id`.
    pub fn get_password(&self, user_id: i32, password_id: i32) -> (r: Option<Password>)
        ensures
            r matches Some(p) ==> exists|i: int|
                0 <= i < self.passwords@.len() && #[trigger] self.passwords@[i] == p && p.id
                    == password_id && p.user_id == user_id,
            r is None <==> !has_password_id(self.passwords@, user_id, password_id),
    {
        match self.find_password_index(user_id, password_id) {
            Some(i) => {
                let p = self.passwords[i].clone();
                Some(p)
            },
            None => None,
        }
    }

    /// Overwrite the client-supplied fields of the record carrying
    /// `password_id` in place, provided it belongs to `user_id`, bumping
    /// its modification stamp. Reports whether any row was hit.
    pub fn update_password(&mut self, user_id: i32, password_id: i32, entry: &NewPassword, now: i64) -> (updated:
        bool)
        requires
            old(self).wf(),
        ensures
            final(self).wf(),
            updated <==> has_password_id(old(self).passwords@, user_id, password_id),
            final(self).passwords@.len() == old(self).passwords@.len(),
            forall|i: int|
                0 <= i < old(self).passwords@.len() && !((#[trigger] old(self).passwords@[i]).id == password_id && old(self).passwords@[i].user_id == user_id)
                    ==> final(self).passwords@[i] == old(self).passwords@[i],
            forall|i: int|
                0 <= i < old(self).passwords@.len() && (#[trigger] old(self).passwords@[i]).id
                    == password_id && old(self).passwords@[i].user_id == user_id ==> final(self).passwords@[i] == (Password {
                    id: password_id,
                    user_id: user_id,
                    login: entry.login,
                    site: entry.site,
                    uppercase: entry.uppercase,
                    symbols: entry.symbols,
                    lowercase: entry.lowercase,
                    numbers: entry.numbers,
                    counter: entry.counter,
                    version: entry.version,
                    length: entry.length,
                    created: old(self).passwords@[i].created,
                    modified: now,
                }),
            final(self).users@ == old(self).users@,
            final(self).tokens@ == old(self).tokens@,
            final(self).next_user_id == old(self).next_user_id,
            final(self).next_token_id == old(self).next_token_id,
            final(self).next_password_id == old(self).next_password_id,
    {
        let mut i: usize = 0;
        while i < self.passwords.len()
            invariant
                *self == *old(self),
                old(self).wf(),
                i <= self.passwords@.len(),
                forall|j: int|
                    0 <= j < i ==> !((#[trigger] self.passwords@[j]).id == password_id
                        && self.passwords@[j].user_id == user_id),
            decreases self.passwords@.len() - i,
        {
            if self.passwords[i].id == password_id && self.passwords[i].user_id == user_id {
                let row = Password {
                    id: password_id,
                    user_id: user_id,
                    login: entry.login.clone(),
                    site: entry.site.clone(),
                    uppercase: entry.uppercase,
                    symbols: entry.symbols,
                    lowercase: entry.lowercase,
                    numbers: entry.numbers,
                    counter: entry.counter,
                    version: entry.version,
                    length: entry.length,
                    created: self.passwords[i].created,
                    modified: now,
                };
                self.passwords.set(i, row);
                proof {
                    assert forall|k: int|
                        0 <= k < self.passwords@.len() implies (#[trigger] self.passwords@[k]).id
                        == old(self).passwords@[k].id && self.passwords@[k].user_id == old(self).passwords@[k].user_id by {
                        if k != i {
                            assert(self.passwords@[k] == old(self).passwords@[k]);
                        }
                    }
                    assert forall|a: int, b: int|
                        0 <= a < b < self.passwords@.len() implies (
                        #[trigger] self.passwords@[a]).id != (#[trigger] self.passwords@[b]).id by {
                        assert(old(self).passwords@[a].id != old(self).passwords@[b].id);
                    }
                    assert forall|k: int|
                        0 <= k < self.passwords@.len() implies has_user_id(
                        self.users@,
                        (#[trigger] self.passwords@[k]).user_id,
                    ) by {
                        assert(has_user_id(old(self).users@, old(self).passwords@[k].user_id));
                    }
                }
                return true;
            }
            i = i + 1;
        }
        false
    }

    /// Delete the parameter record carrying `password_id`, provided it
    /// belongs to `user_id`, reporting whether any row went.
    pub fn delete_password(&mut self, user_id: i32, password_id: i32) -> (deleted: bool)
        requires
            old(self).wf(),
        ensures
            final(self).wf(),
            deleted <==> has_password_id(old(self).passwords@, user_id, password_id),
            final(self).passwords@ == old(self).passwords@.filter(
                |p: Password| !(p.id == password_id && p.user_id == user_id),
            ),
            final(self).users@ == old(self).users@,
            final(self).tokens@ == old(self).tokens@,
            final(self).next_user_id == old(self).next_user_id,
            final(self).next_token_id == old(self).next_token_id,
            final(self).next_password_id == old(self).next_password_id,
    {
        let ghost pred = |p: Password| !(p.id == password_id && p.user_id == user_id);
        let mut deleted = false;
        let mut kept: Vec<Password> = Vec::new();
        let mut i: usize = 0;
        while i < self.passwords.len()
            invariant
                *self == *old(self),
                i <= self.passwords@.len(),
                kept@ == self.passwords@.subrange(0, i as int).filter(pred),
                pred == (|p: Password| !(p.id == password_id && p.user_id == user_id)),
                deleted <==> exists|j: int|
                    0 <= j < i && (#[trigger] self.passwords@[j]).id == password_id
                        && self.passwords@[j].user_id == user_id,
            decreases self.passwords@.len() - i,
        {
            proof {
                assert(self.passwords@.subrange(0, i + 1 as int) =~= self.passwords@.subrange(
                    0,
                    i as int,
                ).push(self.passwords@[i as int]));
            }
            if self.passwords[i].id == password_id && self.passwords[i].user_id == user_id {
                deleted = true;
            } else {
                kept.push(self.passwords[i].clone());
            }
            i = i + 1;
        }
        proof {
            assert(self.passwords@.subrange(0, self.passwords@.len() as int) =~= self.passwords@);
        }
        self.passwords = kept;
        proof {
            lemma_filter_distinct_keys(old(self).passwords@, pred, |p: Password| p.id);
            assert forall|k: int|
                0 <= k < self.passwords@.len() implies (#[trigger] self.passwords@[k]).id
                < self.next_password_id && has_user_id(
                self.users@,
                self.passwords@[k].user_id,
            ) by {
                let b = choose|b: int|
                    0 <= b < old(self).passwords@.len() && #[trigger] old(self).passwords@.filter(
                        pred,
                    )[k] == old(self).passwords@[b];
                assert(self.passwords@[k] == old(self).passwords@[b]);
            }
        }
        deleted
    }

    /// Every parameter record of this user whose site contains the
    /// pattern, case-insensitively; no pattern lists everything the user
    /// owns. Rows come back in storage order.
    pub fn list_passwords(&self, user_id: i32, search: Option<&String>) -> (r: Vec<Password>)
        ensures
            r@ == self.passwords@.filter(|p: Password| listed(p, user_id, pat_view(search))),
    {
        let ghost pred = |p: Password| listed(p, user_id, pat_view(search));
        let mut result: Vec<Password> = Vec::new();
        let mut i: usize = 0;
        while i < self.passwords.len()
            invariant
                i <= self.passwords@.len(),
                result@ == self.passwords@.subrange(0, i as int).filter(pred),
                pred == (|p: Password| listed(p, user_id, pat_view(search))),
            decreases self.passwords@.len() - i,
        {
            proof {
                assert(self.passwords@.subrange(0, i + 1 as int) =~= self.passwords@.subrange(
                    0,
                    i as int,
                ).push(self.passwords@[i as int]));
            }
            if self.passwords[i].user_id == user_id {
                let hit = match search {
                    Some(s) => contains_ignore_case(self.passwords[i].site.as_str(), s.as_str()),
                    None => true,
                };
                if hit {
                    result.push(self.passwords[i].clone());
                }
            }
            i = i + 1;
        }
        proof {
            assert(self.passwords@.subrange(0, self.passwords@.len() as int) =~= self.passwords@);
        }
        result
    }
}

/// The pattern a search argument stands for, seen as a sequence of
/// characters.
pub open spec fn pat_view(search: Option<&String>) -> Option<Seq<char>> {
    match search {
        Some(s) => Some(s@),
        None => None,
    }
}

} // verus!
