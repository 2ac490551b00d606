//! The identity store: one row per user identity, unique by email.
//!
//! This is the reference model of the persistent store the lifecycle runs
//! against: a sequence of rows with the store invariants (unique emails,
//! unique identifiers, paired token fields), and the atomic conditional
//! updates that token consumption relies on. Row-level atomicity is what the
//! lifecycle needs from any real store; here the operations are verified
//! against their contracts directly.
use vstd::prelude::*;
use crate::tokens::one_time_token_accepts;

verus! {

/// One user identity row.
pub struct User {
    /// Opaque unique identifier, immutable, assigned by the store at creation.
    pub id: u64,
    /// Unique across all rows; matched exactly (case-sensitive).
    pub email: String,
    /// The local credential; `None` for identities created by federation
    /// that never set a local password.
    pub password_hash: Option<String>,
    /// The federated identifier, once a provider is linked.
    pub google_id: Option<String>,
    /// True once email ownership is confirmed.
    pub is_verified: bool,
    pub verification_token: Option<String>,
    pub verification_token_expires_at: Option<u64>,
    pub reset_password_token: Option<String>,
    pub reset_password_expires_at: Option<u64>,
    pub created_at: u64,
    pub updated_at: u64,
}

impl User {
    /// Row invariant: each token field is present exactly together with its
    /// expiry, and a missing credential means the row was created by
    /// federation (it carries a federated identifier).
    pub open spec fn wf(self) -> bool {
        &&& (self.verification_token is Some <==> self.verification_token_expires_at is Some)
        &&& (self.reset_password_token is Some <==> self.reset_password_expires_at is Some)
        &&& (self.password_hash is None ==> self.google_id is Some)
    }

    /// An explicit deep copy whose result is known equal to the original.
    pub fn duplicate(&self) -> (r: User)
        ensures
            r == *self,
    {
        User {
            id: self.id,
            email: self.email.clone(),
            password_hash: clone_opt_string(&self.password_hash),
            google_id: clone_opt_string(&self.google_id),
            is_verified: self.is_verified,
            verification_token: clone_opt_string(&self.verification_token),
            verification_token_expires_at: self.verification_token_expires_at,
            reset_password_token: clone_opt_string(&self.reset_password_token),
            reset_password_expires_at: self.reset_password_expires_at,
            created_at: self.created_at,
            updated_at: self.updated_at,
        }
    }
}

/// Copies an optional string, preserving its value.
pub fn clone_opt_string(o: &Option<String>) -> (r: Option<String>)
    ensures
        r == *o,
{
    match o {
        Some(s) => Some(s.clone()),
        None => None,
    }
}

/// Some row holds this email.
pub open spec fn spec_has_email(s: Seq<User>, email: Seq<char>) -> bool {
    exists|i: int| 0 <= i < s.len() && (#[trigger] s[i]).email@ == email
}

/// The index of the row holding this email (unique when the store is
/// well-formed).
pub open spec fn spec_email_idx(s: Seq<User>, email: Seq<char>) -> int {
    choose|i: int| 0 <= i < s.len() && (#[trigger] s[i]).email@ == email
}

/// Some row holds this identifier.
pub open spec fn spec_has_id(s: Seq<User>, id: u64) -> bool {
    exists|i: int| 0 <= i < s.len() && (#[trigger] s[i]).id == id
}

/// The index of the row holding this identifier.
pub open spec fn spec_id_idx(s: Seq<User>, id: u64) -> int {
    choose|i: int| 0 <= i < s.len() && (#[trigger] s[i]).id == id
}

/// The row carries this verification token and it is unexpired at `now`
/// (strictly before its expiry).
pub open spec fn verification_matches(u: User, token: Seq<char>, now: u64) -> bool {
    match u.verification_token {
        Some(t) => match u.verification_token_expires_at {
            Some(e) => t@ == token && now < e,
            None => false,
        },
        None => false,
    }
}

/// The row after a successful verification: ownership confirmed, token pair
/// cleared.
pub open spec fn consume_verification_row(u: User, now: u64) -> User {
    User {
        is_verified: true,
        verification_token: None,
        verification_token_expires_at: None,
        updated_at: now,
        ..u
    }
}

/// The store after the atomic conditional update "verify by token": every
/// row whose unexpired verification token equals `token` is confirmed and
/// cleared; every other row is untouched.
pub open spec fn consume_verification_store(s: Seq<User>, token: Seq<char>, now: u64) -> Seq<
    User,
> {
    Seq::new(
        s.len(),
        |i: int|
            if verification_matches(s[i], token, now) {
                consume_verification_row(s[i], now)
            } else {
                s[i]
            },
    )
}

/// The row carries this reset token (whatever its expiry).
pub open spec fn reset_token_matches(u: User, token: Seq<char>) -> bool {
    match u.reset_password_token {
        Some(t) => t@ == token,
        None => false,
    }
}

/// The row carries this reset token and it is unexpired at `now`.
pub open spec fn reset_matches(u: User, token: Seq<char>, now: u64) -> bool {
    match u.reset_password_token {
        Some(t) => match u.reset_password_expires_at {
            Some(e) => t@ == token && now < e,
            None => false,
        },
        None => false,
    }
}

/// The row after a password reset lands: new credential, reset pair cleared.
pub open spec fn set_password_row(u: User, h: String, now: u64) -> User {
    User {
        password_hash: Some(h),
        reset_password_token: None,
        reset_password_expires_at: None,
        updated_at: now,
        ..u
    }
}

/// The store after the conditional update "set password by reset token".
pub open spec fn set_password_store(s: Seq<User>, token: Seq<char>, h: String, now: u64) -> Seq<
    User,
> {
    Seq::new(
        s.len(),
        |i: int|
            if reset_token_matches(s[i], token) {
                set_password_row(s[i], h, now)
            } else {
                s[i]
            },
    )
}

/// The row after a reset token is issued for it (overwriting any prior one).
pub open spec fn set_reset_row(u: User, token: String, expires_at: u64, now: u64) -> User {
    User {
        reset_password_token: Some(token),
        reset_password_expires_at: Some(expires_at),
        updated_at: now,
        ..u
    }
}

/// The store after the update "issue reset token by email".
pub open spec fn set_reset_store(
    s: Seq<User>,
    email: Seq<char>,
    token: String,
    expires_at: u64,
    now: u64,
) -> Seq<User> {
    Seq::new(
        s.len(),
        |i: int|
            if s[i].email@ == email {
                set_reset_row(s[i], token, expires_at, now)
            } else {
                s[i]
            },
    )
}

/// The in-memory identity store: the rows plus the next fresh identifier.
pub struct IdentityStore {
    pub users: Vec<User>,
    pub next_id: u64,
}

impl IdentityStore {
    /// Store invariant: every row is well-formed, identifiers were assigned
    /// below the high-water mark, and emails and identifiers are unique.
    pub open spec fn wf(self) -> bool {
        &&& (forall|i: int|
            0 <= i < self.users@.len() ==> (#[trigger] self.users@[i]).wf())
        &&& (forall|i: int|
            0 <= i < self.users@.len() ==> (#[trigger] self.users@[i]).id < self.next_id)
        &&& (forall|i: int, j: int|
            0 <= i < self.users@.len() && 0 <= j < self.users@.len() && i != j ==> (
            #[trigger] self.users@[i]).email@ != (#[trigger] self.users@[j]).email@)
        &&& (forall|i: int, j: int|
            0 <= i < self.users@.len() && 0 <= j < self.users@.len() && i != j ==> (
            #[trigger] self.users@[i]).id != (#[trigger] self.users@[j]).id)
    }

    /// An empty store.
    pub fn new() -> (r: IdentityStore)
        ensures
            r.wf(),
            r.users@ == Seq::<User>::empty(),
            r.next_id == 1,
    {
        IdentityStore { users: Vec::new(), next_id: 1 }
    }

    /// Law (email uniqueness): in a well-formed store, two rows holding the
    /// same email are the same row — successful registrations can never
    /// produce a duplicate.
    pub proof fn lemma_email_unique(self, i: int, j: int)
        requires
            self.wf(),
            0 <= i < self.users@.len(),
            0 <= j < self.users@.len(),
            self.users@[i].email@ == self.users@[j].email@,
        ensures
            i == j,
    {
    }

    /// Find-by-email: the index of the row holding the email, if any.
    pub fn find_by_email(&self, email: &String) -> (r: Option<usize>)
        ensures
            r matches Some(i) ==> i < self.users@.len() && self.users@[i as int].email@
                == email@,
            r is None ==> !spec_has_email(self.users@, email@),
    {
        let n = self.users.len();
        let mut i: usize = 0;
        while i < n
            invariant
                n == self.users@.len(),
                0 <= i <= n,
                forall|j: int| 0 <= j < i ==> (#[trigger] self.users@[j]).email@ != email@,
            decreases n - i,
        {
            let u = &self.users[i];
            if u.email.eq(email) {
                return Some(i);
            }
            i = i + 1;
        }
        None
    }

    /// Find-by-identifier: the index of the row holding the id, if any.
    pub fn find_by_id(&self, id: u64) -> (r: Option<usize>)
        ensures
            r matches Some(i) ==> i < self.users@.len() && self.users@[i as int].id == id,
            r is None ==> !spec_has_id(self.users@, id),
    {
        let n = self.users.len();
        let mut i: usize = 0;
        while i < n
            invariant
                n == self.users@.len(),
                0 <= i <= n,
                forall|j: int| 0 <= j < i ==> (#[trigger] self.users@[j]).id != id,
            decreases n - i,
        {
            let u = &self.users[i];
            if u.id == id {
                return Some(i);
            }
            i = i + 1;
        }
        None
    }

    /// A copy of the row at an index.
    pub fn get_user(&self, i: usize) -> (r: User)
        requires
            i < self.users@.len(),
        ensures
            r == self.users@[i as int],
    {
        let u = &self.users[i];
        u.duplicate()
    }

    /// The atomic conditional update behind email verification: confirm and
    /// clear every row whose unexpired verification token matches, in one
    /// step; the returned flag is the "rows affected" success signal.
    pub fn consume_verification(&mut self, token: &String, now: u64) -> (affected: bool)
        requires
            old(self).wf(),
        ensures
            final(self).wf(),
            final(self).next_id == old(self).next_id,
            final(self).users@ == consume_verification_store(old(self).users@, token@, now),
            affected <==> exists|i: int|
                0 <= i < old(self).users@.len() && verification_matches(
                    #[trigger] old(self).users@[i],
                    token@,
                    now,
                ),
    {
        let n = self.users.len();
        let mut i: usize = 0;
        let mut affected = false;
        while i < n
            invariant
                old(self).wf(),
                n == self.users@.len(),
                n == old(self).users@.len(),
                self.next_id == old(self).next_id,
                0 <= i <= n,
                forall|j: int|
                    0 <= j < i ==> self.users@[j] == consume_verification_store(
                        old(self).users@,
                        token@,
                        now,
                    )[j],
                forall|j: int| i <= j < n ==> self.users@[j] == old(self).users@[j],
                affected <==> exists|j: int|
                    0 <= j < i && verification_matches(
                        #[trigger] old(self).users@[j],
                        token@,
                        now,
                    ),
            decreases n - i,
        {
            let mut matched = false;
            let u = &self.users[i];
            if let Some(t) = &u.verification_token {
                if let Some(e) = u.verification_token_expires_at {
                    matched = t.eq(token) && now < e;
                }
            }
            if matched {
                let u = &mut self.users[i];
                u.is_verified = true;
                u.verification_token = None;
                u.verification_token_expires_at = None;
                u.updated_at = now;
                affected = true;
            }
            i = i + 1;
        }
        proof {
            assert(self.users@ =~= consume_verification_store(old(self).users@, token@, now));
            assert forall|a: int| 0 <= a < self.users@.len() implies (
            #[trigger] self.users@[a]).wf() && self.users@[a].id < self.next_id by {
                assert(old(self).users@[a].wf());
            }
            assert forall|a: int, b: int|
                0 <= a < self.users@.len() && 0 <= b < self.users@.len() && a != b implies (
            #[trigger] self.users@[a]).email@ != (#[trigger] self.users@[b]).email@ && self.users@[
                a
            ].id != self.users@[b].id by {
                assert(old(self).users@[a].email@ != old(self).users@[b].email@);
            }
        }
        affected
    }

    /// Whether some row could consume this reset token at `now` (unexpired,
    /// exact match).
    pub fn find_valid_reset(&self, token: &String, now: u64) -> (r: bool)
        ensures
            r <==> exists|i: int|
                0 <= i < self.users@.len() && reset_matches(
                    #[trigger] self.users@[i],
                    token@,
                    now,
                ),
    {
        let n = self.users.len();
        let mut i: usize = 0;
        while i < n
            invariant
                n == self.users@.len(),
                0 <= i <= n,
                forall|j: int|
                    0 <= j < i ==> !reset_matches(#[trigger] self.users@[j], token@, now),
            decreases n - i,
        {
            let u = &self.users[i];
            if let Some(t) = &u.reset_password_token {
                if let Some(e) = u.reset_password_expires_at {
                    if t.eq(token) && now < e {
                        return true;
                    }
                }
            }
            i = i + 1;
        }
        false
    }

    /// The conditional update behind a password reset: overwrite the
    /// credential and clear the pair on every row carrying the token.
    pub fn set_password_by_reset(&mut self, token: &String, new_hash: &String, now: u64)
        requires
            old(self).wf(),
        ensures
            final(self).wf(),
            final(self).next_id == old(self).next_id,
            final(self).users@ == set_password_store(old(self).users@, token@, *new_hash, now),
    {
        let n = self.users.len();
        let mut i: usize = 0;
        while i < n
            invariant
                old(self).wf(),
                n == self.users@.len(),
                n == old(self).users@.len(),
                self.next_id == old(self).next_id,
                0 <= i <= n,
                forall|j: int|
                    0 <= j < i ==> self.users@[j] == set_password_store(
                        old(self).users@,
                        token@,
                        *new_hash,
                        now,
                    )[j],
                forall|j: int| i <= j < n ==> self.users@[j] == old(self).users@[j],
            decreases n - i,
        {
            let mut matched = false;
            let u = &self.users[i];
            if let Some(t) = &u.reset_password_token {
                matched = t.eq(token);
            }
            if matched {
                let h = new_hash.clone();
                let u = &mut self.users[i];
                u.password_hash = Some(h);
                u.reset_password_token = None;
                u.reset_password_expires_at = None;
                u.updated_at = now;
            }
            i = i + 1;
        }
        proof {
            assert(self.users@ =~= set_password_store(old(self).users@, token@, *new_hash, now));
            assert forall|a: int| 0 <= a < self.users@.len() implies (
            #[trigger] self.users@[a]).wf() && self.users@[a].id < self.next_id by {
                assert(old(self).users@[a].wf());
            }
            assert forall|a: int, b: int|
                0 <= a < self.users@.len() && 0 <= b < self.users@.len() && a != b implies (
            #[trigger] self.users@[a]).email@ != (#[trigger] self.users@[b]).email@ && self.users@[
                a
            ].id != self.users@[b].id by {
                assert(old(self).users@[a].email@ != old(self).users@[b].email@);
            }
        }
    }

    /// The update behind a reset request: attach a fresh reset pair to the
    /// row holding the email (overwriting any prior pair); the returned flag
    /// is the "rows affected" signal that the email exists.
    pub fn set_reset_by_email(&mut self, email: &String, token: &String, expires_at: u64, now: u64) -> (affected:
        bool)
        requires
            old(self).wf(),
        ensures
            final(self).wf(),
            final(self).next_id == old(self).next_id,
            final(self).users@ == set_reset_store(old(self).users@, email@, *token, expires_at, now),
            affected <==> spec_has_email(old(self).users@, email@),
    {
        let n = self.users.len();
        let mut i: usize = 0;
        let mut affected = false;
        while i < n
            invariant
                old(self).wf(),
                n == self.users@.len(),
                n == old(self).users@.len(),
                self.next_id == old(self).next_id,
                0 <= i <= n,
                forall|j: int|
                    0 <= j < i ==> self.users@[j] == set_reset_store(
                        old(self).users@,
                        email@,
                        *token,
                        expires_at,
                        now,
                    )[j],
                forall|j: int| i <= j < n ==> self.users@[j] == old(self).users@[j],
                affected <==> exists|j: int|
                    0 <= j < i && (#[trigger] old(self).users@[j]).email@ == email@,
            decreases n - i,
        {
            let matched = {
                let u = &self.users[i];
                u.email.eq(email)
            };
            if matched {
                let t = token.clone();
                let u = &mut self.users[i];
                u.reset_password_token = Some(t);
                u.reset_password_expires_at = Some(expires_at);
                u.updated_at = now;
                affected = true;
            }
            i = i + 1;
        }
        proof {
            assert(self.users@ =~= set_reset_store(
                old(self).users@,
                email@,
                *token,
                expires_at,
                now,
            ));
            assert forall|a: int| 0 <= a < self.users@.len() implies (
            #[trigger] self.users@[a]).wf() && self.users@[a].id < self.next_id by {
                assert(old(self).users@[a].wf());
            }
            assert forall|a: int, b: int|
                0 <= a < self.users@.len() && 0 <= b < self.users@.len() && a != b implies (
            #[trigger] self.users@[a]).email@ != (#[trigger] self.users@[b]).email@ && self.users@[
                a
            ].id != self.users@[b].id by {
                assert(old(self).users@[a].email@ != old(self).users@[b].email@);
            }
        }
        affected
    }
}

/// The store's verification match is exactly the one-time-token consumption
/// rule applied to the stored pair.
pub proof fn lemma_verification_match_is_policy(u: User, token: Seq<char>, now: u64)
    ensures
        verification_matches(u, token, now) <==> (u.verification_token matches Some(t)
            && u.verification_token_expires_at matches Some(e) && one_time_token_accepts(
            t@,
            e,
            token,
            now,
        )),
{
}

/// The store's reset match is exactly the one-time-token consumption rule
/// applied to the stored pair.
pub proof fn lemma_reset_match_is_policy(u: User, token: Seq<char>, now: u64)
    ensures
        reset_matches(u, token, now) <==> (u.reset_password_token matches Some(t)
            && u.reset_password_expires_at matches Some(e) && one_time_token_accepts(
            t@,
            e,
            token,
            now,
        )),
{
}

/// Law (verification tokens are single-use): after a successful consumption,
/// no later consumption of the same token can succeed — the matching rows
/// were cleared, and rows that were already expired stay expired as the
/// clock moves forward.
pub proof fn lemma_verification_single_use(s: Seq<User>, token: Seq<char>, now1: u64, now2: u64)
    requires
        now1 <= now2,
    ensures
        !exists|i: int|
            0 <= i < consume_verification_store(s, token, now1).len() && verification_matches(
                #[trigger] consume_verification_store(s, token, now1)[i],
                token,
                now2,
            ),
{
    let post = consume_verification_store(s, token, now1);
    assert forall|i: int| 0 <= i < post.len() implies !verification_matches(
        #[trigger] post[i],
        token,
        now2,
    ) by {
        if verification_matches(s[i], token, now1) {
            assert(post[i].verification_token is None);
        }
    }
}

/// Law (reset tokens are single-use): a successful reset clears the pair on
/// every row carrying the token, so no row can consume it afterwards.
pub proof fn lemma_reset_single_use(s: Seq<User>, token: Seq<char>, h: String, now1: u64, now2: u64)
    ensures
        !exists|i: int|
            0 <= i < set_password_store(s, token, h, now1).len() && reset_matches(
                #[trigger] set_password_store(s, token, h, now1)[i],
                token,
                now2,
            ),
{
    let post = set_password_store(s, token, h, now1);
    assert forall|i: int| 0 <= i < post.len() implies !reset_matches(
        #[trigger] post[i],
        token,
        now2,
    ) by {
        if reset_token_matches(s[i], token) {
            assert(post[i].reset_password_token is None);
        }
    }
}

} // verus!
