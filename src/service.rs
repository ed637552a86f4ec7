use vstd::prelude::*;
use crate::directory::{
    authenticate_found, authenticated, has_email, has_id, is_no_such_user, password_of, StoredUser,
    UserDirectory,
};
use crate::errors::BackendError;
use crate::hasher::{argon2_check, check_reported, is_mismatch_error, PasswordCheck};
use crate::session::{
    login_spec, logout_spec, principal_of, resolved_session, Session, SESSION_INACTIVITY_SECS,
};
use crate::user::{ChangePassword, CheckEmail, Credentials, RegisterPayload, User, UserRole};
use crate::validation::{
    bad_email_key, bad_password_key, email_shape_ok, is_validation_error, password_length_ok,
};

verus! {

/// The directory's user for the id that `s` binds, if any.
pub open spec fn bound_user(recs: Seq<StoredUser>, s: Session) -> Option<User> {
    match s.user_id {
        Some(id) => if has_id(recs, id) {
            Some(recs[choose|i: int| 0 <= i < recs.len() && recs[i].user.id == id].user)
        } else {
            None
        },
        None => None,
    }
}

/// Ids are unique in `recs`.
pub open spec fn ids_unique(recs: Seq<StoredUser>) -> bool {
    forall|i: int, j: int|
        0 <= i < recs.len() && 0 <= j < recs.len() && recs[i].user.id == recs[j].user.id ==> i == j
}

/// The user that the request at `now` acts as, found through the session:
/// the bound user is fetched from the directory and the session validated
/// against it.
pub fn get_user_session(dir: &UserDirectory, session: &mut Session, now: i64) -> (r: Option<User>)
    requires
        dir.wf(),
        old(session).wf(),
    ensures
        ids_unique(dir@),
        r == principal_of(*old(session), bound_user(dir@, *old(session)), now),
        *final(session) == resolved_session(*old(session), bound_user(dir@, *old(session)), now),
        final(session).wf(),
{
    proof {
        dir.lemma_ids_unique();
    }
    let fetched = match session.user_id {
        Some(id) => dir.find_by_id(id),
        None => None,
    };
    proof {
        if let Some(id) = session.user_id {
            if fetched is Some {
                let u = fetched->Some_0;
                let i = choose|i: int| 0 <= i < dir@.len() && dir@[i].user == u && u.id == id;
                let j = choose|j: int| 0 <= j < dir@.len() && dir@[j].user.id == id;
                assert(dir@[i].user.id == dir@[j].user.id);
            }
        }
    }
    session.resolve(fetched, now)
}

/// Registers a new user after checking the email's shape and the password's
/// length; the created user has role `User`, and the response never carries
/// the hash.
pub fn submit_create_user(
    dir: &mut UserDirectory,
    payload: RegisterPayload,
    now: i64,
    skey: [u8; 16],
) -> (r: Result<User, BackendError>)
    requires
        old(dir).wf(),
    ensures
        final(dir).wf(),
        email_shape_ok(payload.email@) && password_length_ok(payload.password@) && !has_email(
            old(dir)@,
            payload.email@,
        ) && old(dir).has_room() ==> r is Ok,
        !email_shape_ok(payload.email@) ==> (r matches Err(e) && is_validation_error(e, bad_email_key())),
        email_shape_ok(payload.email@) && !password_length_ok(payload.password@) ==> (r matches Err(e)
            && is_validation_error(e, bad_password_key())),
        email_shape_ok(payload.email@) && password_length_ok(payload.password@) && has_email(
            old(dir)@,
            payload.email@,
        ) ==> r == Err::<
            User,
            BackendError,
        >(BackendError::DuplicateUser),
        r == Err::<User, BackendError>(BackendError::DuplicateUser) ==> has_email(
            old(dir)@,
            payload.email@,
        ),
        r matches Err(e) ==> e == BackendError::DuplicateUser || e == BackendError::InternalError
            || is_validation_error(e, bad_email_key()) || is_validation_error(e, bad_password_key()),
        r is Err ==> final(dir)@ == old(dir)@,
        r matches Ok(u) ==> {
            &&& email_shape_ok(payload.email@)
            &&& password_length_ok(payload.password@)
            &&& !has_email(old(dir)@, payload.email@)
            &&& u.email@ == payload.email@
            &&& u.role == UserRole::User
            &&& final(dir)@ == old(dir)@.push(final(dir)@.last())
            &&& final(dir)@.last().user == u
            &&& password_of(final(dir)@, old(dir)@.len() as int, payload.password@)
        },
{
    payload.validate()?;
    let r = dir.create_user(payload.email, payload.password, now, skey);
    proof {
        if r is Ok {
            assert(final(dir)@ =~= old(dir)@.push(final(dir)@.last()));
        }
    }
    r
}

/// Completes a login once the row for the submitted email has been looked
/// up: the password is checked against it and, on success, the session is
/// bound to the user; on failure the session is left as it was.
pub fn login_found(
    session: &mut Session,
    password: &str,
    found: Option<StoredUser>,
    now: i64,
) -> (r: Result<
    User,
    BackendError,
>)
    ensures
        authenticated(password@, found, r),
        r matches Ok(u) ==> *final(session) == login_spec(u, now),
        r is Err ==> *final(session) == *old(session),
{
    let user = authenticate_found(password, found)?;
    session.login(&user, now);
    Ok(user)
}

/// Logs a user in: the credentials are authenticated against the directory
/// and, on success, the session is bound to the user.
pub fn login_user(
    dir: &UserDirectory,
    session: &mut Session,
    payload: Credentials,
    now: i64,
) -> (r: Result<
    User,
    BackendError,
>)
    requires
        dir.wf(),
    ensures
        !has_email(dir@, payload.email@) ==> (r matches Err(e) && is_no_such_user(e)),
        forall|i: int|
            0 <= i < dir@.len() && (#[trigger] dir@[i]).user.email@ == payload.email@
                ==> authenticated(payload.password@, Some(dir@[i]), r),
        r matches Ok(u) ==> *final(session) == login_spec(u, now),
        r is Err ==> *final(session) == *old(session),
{
    let found = dir.find_by_email(&payload.email);
    let r = login_found(session, payload.password.as_str(), found, now);
    proof {
        assert forall|i: int|
            0 <= i < dir@.len() && (#[trigger] dir@[i]).user.email@ == payload.email@
                implies authenticated(payload.password@, Some(dir@[i]), r) by {
            dir.lemma_one_record_per_email(i, found->Some_0);
        }
    }
    r
}

/// Both passwords of a change request are of accepted length.
pub open spec fn change_lengths_ok(payload: ChangePassword) -> bool {
    password_length_ok(payload.old_password@) && password_length_ok(payload.new_password@)
}

/// Decides whether a password change may go on: only for the user that the
/// request acts as, and only with passwords of accepted length.
pub fn authorize_password_change(principal: Option<User>, payload: &ChangePassword) -> (r: Result<
    User,
    BackendError,
>)
    ensures
        principal is None ==> r == Err::<User, BackendError>(BackendError::Unauthorized),
        principal matches Some(u) ==> (change_lengths_ok(*payload) ==> r == Ok::<
            User,
            BackendError,
        >(u)) && (!change_lengths_ok(*payload) ==> (r matches Err(e) && is_validation_error(
            e,
            bad_password_key(),
        ))),
{
    let user = match principal {
        Some(u) => u,
        None => return Err(BackendError::Unauthorized),
    };
    payload.validate()?;
    Ok(user)
}

/// Replaces the logged-in user's password, after checking the old one.
/// An anonymous session (or one that no longer validates) is refused with
/// `Unauthorized`, passwords of the wrong length with a validation error.
/// The session-authentication secret is kept, so the session stays valid.
pub fn change_password(
    dir: &mut UserDirectory,
    session: &mut Session,
    payload: ChangePassword,
    now: i64,
) -> (r: Result<(), BackendError>)
    requires
        old(dir).wf(),
        old(session).wf(),
    ensures
        final(dir).wf(),
        final(session).wf(),
        *final(session) == resolved_session(*old(session), bound_user(old(dir)@, *old(session)), now),
        r is Err ==> final(dir)@ == old(dir)@,
        principal_of(*old(session), bound_user(old(dir)@, *old(session)), now) is None ==> r
            == Err::<(), BackendError>(BackendError::Unauthorized),
        principal_of(*old(session), bound_user(old(dir)@, *old(session)), now) matches Some(u)
            ==> {
            let i = choose|i: int| 0 <= i < old(dir)@.len() && old(dir)@[i].user.id == u.id;
            let c = argon2_check(payload.old_password@, old(dir)@[i].password_hash@);
            &&& !change_lengths_ok(payload) ==> (r matches Err(e) && is_validation_error(
                e,
                bad_password_key(),
            ))
            &&& change_lengths_ok(payload) && c != PasswordCheck::Match ==> check_reported(c, r)
            &&& change_lengths_ok(payload) && c == PasswordCheck::Match ==> r is Ok
            &&& r is Ok ==> final(dir)@ == old(dir)@.update(i, final(dir)@[i])
                && final(dir)@[i].user == old(dir)@[i].user && password_of(
                final(dir)@,
                i,
                payload.new_password@,
            )
        },
{
    let principal = get_user_session(dir, session, now);
    let user = authorize_password_change(principal, &payload)?;
    proof {
        let i = choose|i: int| 0 <= i < dir@.len() && dir@[i].user.id == user.id;
        assert(has_id(dir@, user.id));
        dir.lemma_ids_unique();
    }
    dir.validate_password(user.id, payload.old_password.as_str())?;
    dir.set_user_password(user.id, payload.new_password.as_str())
}

/// Logs the session's user out; the session persists, anonymous.
pub fn logout_user(session: &mut Session)
    ensures
        *final(session) == logout_spec(*old(session)),
        final(session).wf(),
{
    session.logout();
}

/// Logs the session's user out from the settings page; the same as
/// `logout_user`.
pub fn user_session_logout(session: &mut Session)
    ensures
        *final(session) == logout_spec(*old(session)),
        final(session).wf(),
{
    session.logout();
}

/// Whether an email address is still free, after checking its shape.
pub fn check_user_is_free(dir: &UserDirectory, payload: CheckEmail) -> (r: Result<bool, BackendError>)
    requires
        dir.wf(),
    ensures
        !email_shape_ok(payload.email@) ==> (r matches Err(e) && is_validation_error(e, bad_email_key())),
        email_shape_ok(payload.email@) ==> r == Ok::<bool, BackendError>(!has_email(dir@, payload.email@)),
{
    payload.validate()?;
    Ok(dir.check_email(&payload.email))
}

/// A user just created with a password is authenticated by that email and
/// password, and authentication returns exactly that user.
pub proof fn lemma_created_user_authenticates(
    before: Seq<StoredUser>,
    after: Seq<StoredUser>,
    u: User,
    password: Seq<char>,
    r: Result<User, BackendError>,
)
    requires
        after == before.push(after.last()),
        after.last().user == u,
        password_of(after, before.len() as int, password),
        forall|i: int|
            0 <= i < after.len() && (#[trigger] after[i]).user.email@ == u.email@ ==> authenticated(
                password,
                Some(after[i]),
                r,
            ),
    ensures
        r == Ok::<User, BackendError>(u),
{
    assert(after[before.len() as int] == after.last());
}

/// A password that argon2 reports as not matching the registered hash makes
/// authentication fail with the wrong-password error.
pub proof fn lemma_wrong_password_is_mismatch(
    recs: Seq<StoredUser>,
    i: int,
    wrong: Seq<char>,
    r: Result<User, BackendError>,
)
    requires
        0 <= i < recs.len(),
        argon2_check(wrong, recs[i].password_hash@) == PasswordCheck::Mismatch,
        authenticated(wrong, Some(recs[i]), r),
    ensures
        r matches Err(e) && is_mismatch_error(e),
{
}

/// A login leaves the session in a state that depends on the user and the
/// time alone, so a second login of the same user at the same time leaves
/// it as the first did: bound to that user once. Until the window has
/// passed, the session then acts as that user while the directory holds it
/// unchanged.
pub proof fn lemma_login_idempotent(u: User, t: i64, now: i64)
    ensures
        login_spec(u, t).user_id == Some(u.id),
        login_spec(u, t).wf(),
        t <= now <= t + SESSION_INACTIVITY_SECS ==> principal_of(login_spec(u, t), Some(u), now)
            == Some(u),
{
}

/// After a logout no request acts as a user; a later login at `t` binds the
/// user again, and a request within the window after it acts as that user
/// while the directory holds it unchanged.
pub proof fn lemma_logout_then_login(s: Session, u: User, fetched: Option<User>, t: i64, now: i64)
    ensures
        principal_of(logout_spec(s), fetched, now) is None,
        login_spec(u, t).user_id == Some(u.id),
        t <= now <= t + SESSION_INACTIVITY_SECS ==> principal_of(login_spec(u, t), Some(u), now)
            == Some(u),
{
}

/// An anonymous session acts as no user, whatever the directory holds, so
/// changing the password is refused on it.
pub proof fn lemma_anonymous_has_no_principal(s: Session, recs: Seq<StoredUser>, now: i64)
    requires
        s.user_id is None,
    ensures
        bound_user(recs, s) is None,
        principal_of(s, bound_user(recs, s), now) is None,
{
}

/// Rotating a user's secret ends every session bound to the user before:
/// such a session acts as no user, and the next request clears it.
pub proof fn lemma_rotated_secret_ends_sessions(u: User, skey: [u8; 16], t: i64, now: i64)
    requires
        skey != u.skey,
    ensures
        principal_of(login_spec(u, t), Some(User { skey, ..u }), now) is None,
        resolved_session(login_spec(u, t), Some(User { skey, ..u }), now).user_id is None,
{
}

} // verus!
