use vstd::prelude::*;
use crate::errors::BackendError;
use crate::hasher::{
    argon2_check, check_reported, hash_password, hashable, verify_password, PasswordCheck,
};
use crate::user::{Credentials, User, UserRole};

verus! {

/// A user row as stored: the identity and its encoded password hash.
#[derive(Debug)]
pub struct StoredUser {
    pub user: User,
    pub password_hash: String,
}

impl Clone for StoredUser {
    fn clone(&self) -> (r: Self)
        ensures
            r == *self,
    {
        StoredUser { user: self.user.clone(), password_hash: self.password_hash.clone() }
    }
}

/// Some record in `recs` has email `e`.
pub open spec fn has_email(recs: Seq<StoredUser>, e: Seq<char>) -> bool {
    exists|i: int| 0 <= i < recs.len() && (#[trigger] recs[i]).user.email@ == e
}

/// Some record in `recs` has id `id`.
pub open spec fn has_id(recs: Seq<StoredUser>, id: i64) -> bool {
    exists|i: int| 0 <= i < recs.len() && (#[trigger] recs[i]).user.id == id
}

/// The password `password` is the one registered for the record at `i`.
pub open spec fn password_of(recs: Seq<StoredUser>, i: int, password: Seq<char>) -> bool {
    argon2_check(password, recs[i].password_hash@) == PasswordCheck::Match
}

/// The message key of a user that does not exist.
pub open spec fn user_entity() -> Seq<char> {
    "user"@
}

/// The failure that reports an unknown user.
pub open spec fn is_no_such_user(e: BackendError) -> bool {
    e matches BackendError::NotFound(m) && m@ == user_entity()
}

/// What authentication reports for a password checked against the row found
/// for an email, if one was found.
pub open spec fn authenticated(
    password: Seq<char>,
    found: Option<StoredUser>,
    r: Result<User, BackendError>,
) -> bool {
    match found {
        None => r matches Err(e) && is_no_such_user(e),
        Some(rec) => {
            let c = argon2_check(password, rec.password_hash@);
            if c == PasswordCheck::Match {
                r == Ok::<User, BackendError>(rec.user)
            } else {
                r is Err && check_reported(c, Err(r->Err_0))
            }
        },
    }
}

/// Decides an authentication attempt once the row for the submitted email
/// has been looked up: no row is an unknown user; otherwise the password is
/// verified against the stored hash and, on a match, the user (without the
/// hash) is returned.
pub fn authenticate_found(password: &str, found: Option<StoredUser>) -> (r: Result<User, BackendError>)
    ensures
        authenticated(password@, found, r),
{
    match found {
        None => Err(BackendError::NotFound("user".to_owned())),
        Some(rec) => {
            match verify_password(password, rec.password_hash.as_str()) {
                Ok(()) => Ok(rec.user),
                Err(e) => Err(e),
            }
        },
    }
}

/// An in-memory model of the user store: the users with their password
/// hashes, under the same uniqueness rules as the storage schema. The
/// directory operations are stated and tested over it; a server that keeps
/// users in a database performs the same steps there and shares the
/// decisions (`authenticate_found`, `hash_password`, `verify_password`).
///
/// Emails are unique and ids are unique; ids are handed out in increasing
/// order and never reused.
pub struct UserDirectory {
    records: Vec<StoredUser>,
    next_id: i64,
}

impl View for UserDirectory {
    type V = Seq<StoredUser>;

    closed spec fn view(&self) -> Seq<StoredUser> {
        self.records@
    }
}

impl UserDirectory {
    /// Well-formedness: unique emails, unique positive ids below the next id
    /// to hand out, which is one more than the number of users.
    pub closed spec fn wf(&self) -> bool {
        &&& self.next_id == self.records@.len() + 1
        &&& forall|i: int|
            0 <= i < self.records@.len() ==> 1 <= #[trigger] self.records@[i].user.id
                < self.next_id
        &&& forall|i: int, j: int|
            0 <= i < self.records@.len() && 0 <= j < self.records@.len() && i != j
                ==> #[trigger] self.records@[i].user.email@ != #[trigger] self.records@[j].user.email@
        &&& forall|i: int, j: int|
            0 <= i < self.records@.len() && 0 <= j < self.records@.len() && i != j
                ==> #[trigger] self.records@[i].user.id != #[trigger] self.records@[j].user.id
    }

    /// An id is left to hand out to one more user.
    pub open spec fn has_room(&self) -> bool {
        self@.len() + 1 < i64::MAX
    }

    /// An empty directory.
    pub fn new() -> (r: UserDirectory)
        ensures
            r.wf(),
            r@ == Seq::<StoredUser>::empty(),
    {
        UserDirectory { records: Vec::new(), next_id: 1 }
    }

    /// Number of users.
    pub fn len(&self) -> (r: usize)
        ensures
            r == self@.len(),
    {
        self.records.len()
    }

    /// Position of the record with email `email`, if any.
    fn position_of_email(&self, email: &String) -> (r: Option<usize>)
        requires
            self.wf(),
        ensures
            r matches Some(i) ==> i < self@.len() && self@[i as int].user.email@ == email@,
            r is None ==> !has_email(self@, email@),
    {
        let mut i: usize = 0;
        while i < self.records.len()
            invariant
                i <= self.records@.len(),
                forall|k: int| 0 <= k < i ==> (#[trigger] self.records@[k]).user.email@ != email@,
            decreases self.records@.len() - i,
        {
            if self.records[i].user.email == *email {
                return Some(i);
            }
            i = i + 1;
        }
        None
    }

    /// Position of the record with id `id`, if any.
    fn position_of_id(&self, id: i64) -> (r: Option<usize>)
        requires
            self.wf(),
        ensures
            r matches Some(i) ==> i < self@.len() && self@[i as int].user.id == id,
            r is None ==> !has_id(self@, id),
    {
        let mut i: usize = 0;
        while i < self.records.len()
            invariant
                i <= self.records@.len(),
                forall|k: int| 0 <= k < i ==> (#[trigger] self.records@[k]).user.id != id,
            decreases self.records@.len() - i,
        {
            if self.records[i].user.id == id {
                return Some(i);
            }
            i = i + 1;
        }
        None
    }

    /// The record for an email, compared exactly; absence is no error.
    pub fn find_by_email(&self, email: &String) -> (r: Option<StoredUser>)
        requires
            self.wf(),
        ensures
            r matches Some(rec) ==> exists|i: int|
                0 <= i < self@.len() && self@[i] == rec && rec.user.email@ == email@,
            r is None <==> !has_email(self@, email@),
    {
        match self.position_of_email(email) {
            Some(i) => Some(self.records[i].clone()),
            None => None,
        }
    }

    /// The user with id `id`, if it exists.
    pub fn find_by_id(&self, id: i64) -> (r: Option<User>)
        requires
            self.wf(),
        ensures
            r matches Some(u) ==> exists|i: int|
                0 <= i < self@.len() && self@[i].user == u && u.id == id,
            r is None <==> !has_id(self@, id),
    {
        match self.position_of_id(id) {
            Some(i) => Some(self.records[i].user.clone()),
            None => None,
        }
    }

    /// True when no account uses `email`.
    pub fn check_email(&self, email: &String) -> (r: bool)
        requires
            self.wf(),
        ensures
            r == !has_email(self@, email@),
    {
        self.position_of_email(email).is_none()
    }

    /// Registers a new user with role `User`: the password is hashed under a
    /// fresh salt and only the hash is kept. An email already in use fails
    /// with `DuplicateUser`, whatever else holds; a hashing failure, or no
    /// id left to hand out, is internal. On failure nothing changes.
    pub fn create_user(
        &mut self,
        email: String,
        password: String,
        now: i64,
        skey: [u8; 16],
    ) -> (r: Result<User, BackendError>)
        requires
            old(self).wf(),
        ensures
            final(self).wf(),
            !has_email(old(self)@, email@) && old(self).has_room() && hashable(password@) ==> r is Ok,
            has_email(old(self)@, email@) ==> r == Err::<User, BackendError>(
                BackendError::DuplicateUser,
            ),
            r matches Err(e) ==> e == BackendError::DuplicateUser || e
                == BackendError::InternalError,
            r == Err::<User, BackendError>(BackendError::DuplicateUser) ==> has_email(
                old(self)@,
                email@,
            ),
            r is Err ==> final(self)@ == old(self)@,
            r matches Ok(u) ==> {
                &&& !has_email(old(self)@, email@)
                &&& !has_id(old(self)@, u.id)
                &&& u.email@ == email@
                &&& u.role == UserRole::User
                &&& u.c_at == now
                &&& u.u_at == now
                &&& u.skey == skey
                &&& final(self)@.len() == old(self)@.len() + 1
                &&& final(self)@.drop_last() == old(self)@
                &&& final(self)@.last().user == u
                &&& password_of(final(self)@, old(self)@.len() as int, password@)
            },
    {
        if self.position_of_email(&email).is_some() {
            return Err(BackendError::DuplicateUser);
        }
        if self.next_id == i64::MAX {
            return Err(BackendError::InternalError);
        }
        let hash = match hash_password(password.as_str()) {
            Ok(h) => h,
            Err(_) => return Err(BackendError::InternalError),
        };
        let id = self.next_id;
        let user = User { id, email, c_at: now, u_at: now, role: UserRole::User, skey };
        let ghost before = self.records@;
        self.records.push(StoredUser { user: user.clone(), password_hash: hash });
        self.next_id = id + 1;
        assert(self.records@.drop_last() == before);
        assert forall|k: int| 0 <= k < before.len() implies (#[trigger] before[k]).user.id != id by {
            assert(1 <= before[k].user.id < id);
        }
        assert(!has_id(before, id));
        assert forall|i: int, j: int|
            0 <= i < self.records@.len() && 0 <= j < self.records@.len() && i != j
                implies #[trigger] self.records@[i].user.email@ != #[trigger] self.records@[j].user.email@ by {
            if i < before.len() && j < before.len() {
                assert(before[i] == self.records@[i] && before[j] == self.records@[j]);
            } else if i < before.len() {
                assert(before[i] == self.records@[i]);
            } else {
                assert(before[j] == self.records@[j]);
            }
        }
        assert forall|i: int, j: int|
            0 <= i < self.records@.len() && 0 <= j < self.records@.len() && i != j
                implies #[trigger] self.records@[i].user.id != #[trigger] self.records@[j].user.id by {
            if i < before.len() && j < before.len() {
                assert(before[i] == self.records@[i] && before[j] == self.records@[j]);
            } else if i < before.len() {
                assert(before[i] == self.records@[i]);
                assert(1 <= before[i].user.id < id);
            } else {
                assert(before[j] == self.records@[j]);
                assert(1 <= before[j].user.id < id);
            }
        }
        assert forall|i: int| 0 <= i < self.records@.len() implies 1 <= #[trigger] self.records@[i].user.id
            < self.next_id by {
            if i < before.len() {
                assert(before[i] == self.records@[i]);
            }
        }
        Ok(user)
    }

    /// Replaces the password hash of user `user` by a hash of `password`.
    /// The session-authentication secret is not rotated. An unknown user or
    /// a hashing failure is internal, and then nothing changes.
    pub fn set_user_password(&mut self, user: i64, password: &str) -> (r: Result<(), BackendError>)
        requires
            old(self).wf(),
        ensures
            final(self).wf(),
            has_id(old(self)@, user) && hashable(password@) ==> r is Ok,
            !has_id(old(self)@, user) ==> r == Err::<(), BackendError>(BackendError::InternalError),
            r matches Err(e) ==> e == BackendError::InternalError,
            r is Err ==> final(self)@ == old(self)@,
            r is Ok ==> exists|i: int|
                0 <= i < old(self)@.len() && old(self)@[i].user.id == user
                    && final(self)@ == old(self)@.update(i, final(self)@[i])
                    && final(self)@[i].user == old(self)@[i].user
                    && password_of(final(self)@, i, password@),
    {
        let i = match self.position_of_id(user) {
            Some(i) => i,
            None => return Err(BackendError::InternalError),
        };
        let hash = match hash_password(password) {
            Ok(h) => h,
            Err(_) => return Err(BackendError::InternalError),
        };
        let ghost before = self.records@;
        let rec = StoredUser { user: self.records[i].user.clone(), password_hash: hash };
        self.records.set(i, rec);
        assert forall|a: int, b: int|
            0 <= a < self.records@.len() && 0 <= b < self.records@.len() && a != b
                implies #[trigger] self.records@[a].user.email@ != #[trigger] self.records@[b].user.email@ by {
            assert(self.records@[a].user == before[a].user);
            assert(self.records@[b].user == before[b].user);
        }
        assert forall|a: int, b: int|
            0 <= a < self.records@.len() && 0 <= b < self.records@.len() && a != b
                implies #[trigger] self.records@[a].user.id != #[trigger] self.records@[b].user.id by {
            assert(self.records@[a].user == before[a].user);
            assert(self.records@[b].user == before[b].user);
        }
        assert forall|a: int| 0 <= a < self.records@.len() implies 1 <= #[trigger] self.records@[a].user.id
            < self.next_id by {
            assert(self.records@[a].user == before[a].user);
        }
        assert(self.records@ =~= before.update(i as int, self.records@[i as int]));
        assert(0 <= i < before.len() && before[i as int].user.id == user
            && self@ == before.update(i as int, self@[i as int])
            && self@[i as int].user == before[i as int].user
            && password_of(self@, i as int, password@));
        Ok(())
    }

    /// Checks `password` against the stored hash of user `user`; an unknown
    /// user is internal.
    pub fn validate_password(&self, user: i64, password: &str) -> (r: Result<(), BackendError>)
        requires
            self.wf(),
        ensures
            !has_id(self@, user) ==> r == Err::<(), BackendError>(BackendError::InternalError),
            has_id(self@, user) ==> exists|i: int|
                0 <= i < self@.len() && self@[i].user.id == user && check_reported(
                    argon2_check(password@, self@[i].password_hash@),
                    r,
                ),
    {
        match self.position_of_id(user) {
            Some(i) => verify_password(password, self.records[i].password_hash.as_str()),
            None => Err(BackendError::InternalError),
        }
    }

    /// Authenticates a credential pair: one lookup by email, then one
    /// password verification against the stored hash.
    pub fn authenticate(&self, creds: &Credentials) -> (r: Result<User, BackendError>)
        requires
            self.wf(),
        ensures
            !has_email(self@, creds.email@) ==> (r matches Err(e) && is_no_such_user(e)),
            forall|i: int|
                0 <= i < self@.len() && (#[trigger] self@[i]).user.email@ == creds.email@
                    ==> authenticated(creds.password@, Some(self@[i]), r),
    {
        let found = self.find_by_email(&creds.email);
        let r = authenticate_found(creds.password.as_str(), found);
        proof {
            assert forall|i: int|
                0 <= i < self@.len() && (#[trigger] self@[i]).user.email@ == creds.email@
                    implies authenticated(creds.password@, Some(self@[i]), r) by {
                assert(has_email(self@, creds.email@));
                let rec = found->Some_0;
                let j = choose|j: int|
                    0 <= j < self@.len() && self@[j] == rec && rec.user.email@ == creds.email@;
                assert(self.records@[i].user.email@ == self.records@[j].user.email@);
                assert(i == j);
            }
        }
        r
    }

    /// Replaces the session-authentication secret of user `user`, which
    /// invalidates every session bound to that user under the old secret.
    /// An unknown user is internal, and then nothing changes.
    pub fn rotate_session_key(&mut self, user: i64, skey: [u8; 16]) -> (r: Result<(), BackendError>)
        requires
            old(self).wf(),
        ensures
            final(self).wf(),
            r is Ok <==> has_id(old(self)@, user),
            r matches Err(e) ==> e == BackendError::InternalError && final(self)@ == old(self)@,
            r is Ok ==> exists|i: int|
                0 <= i < old(self)@.len() && old(self)@[i].user.id == user && final(self)@
                    == old(self)@.update(
                    i,
                    StoredUser {
                        user: User { skey, ..old(self)@[i].user },
                        password_hash: old(self)@[i].password_hash,
                    },
                ),
    {
        let i = match self.position_of_id(user) {
            Some(i) => i,
            None => return Err(BackendError::InternalError),
        };
        let ghost before = self.records@;
        let old_user = self.records[i].user.clone();
        let rec = StoredUser {
            user: User { skey, ..old_user },
            password_hash: self.records[i].password_hash.clone(),
        };
        self.records.set(i, rec);
        assert forall|a: int, b: int|
            0 <= a < self.records@.len() && 0 <= b < self.records@.len() && a != b
                implies #[trigger] self.records@[a].user.email@ != #[trigger] self.records@[b].user.email@ by {
            assert(self.records@[a].user.email == before[a].user.email);
            assert(self.records@[b].user.email == before[b].user.email);
        }
        assert forall|a: int, b: int|
            0 <= a < self.records@.len() && 0 <= b < self.records@.len() && a != b
                implies #[trigger] self.records@[a].user.id != #[trigger] self.records@[b].user.id by {
            assert(self.records@[a].user.id == before[a].user.id);
            assert(self.records@[b].user.id == before[b].user.id);
        }
        assert forall|a: int| 0 <= a < self.records@.len() implies 1 <= #[trigger] self.records@[a].user.id
            < self.next_id by {
            assert(self.records@[a].user.id == before[a].user.id);
        }
        assert(self@ == before.update(
            i as int,
            StoredUser {
                user: User { skey, ..before[i as int].user },
                password_hash: before[i as int].password_hash,
            },
        ));
        Ok(())
    }

    /// In a well-formed directory the record found for an email is the only
    /// one with that email.
    pub proof fn lemma_one_record_per_email(&self, i: int, rec: StoredUser)
        requires
            self.wf(),
            0 <= i < self@.len(),
            exists|j: int| 0 <= j < self@.len() && self@[j] == rec && rec.user.email@ == self@[i].user.email@,
        ensures
            self@[i] == rec,
    {
        let j = choose|j: int| 0 <= j < self@.len() && self@[j] == rec && rec.user.email@ == self@[i].user.email@;
        assert(self.records@[i].user.email@ == self.records@[j].user.email@);
    }

    /// A well-formed directory has no two records with one id.
    pub proof fn lemma_ids_unique(&self)
        requires
            self.wf(),
        ensures
            forall|i: int, j: int|
                0 <= i < self@.len() && 0 <= j < self@.len() && self@[i].user.id == self@[j].user.id
                    ==> i == j,
    {
    }
}

} // verus!
