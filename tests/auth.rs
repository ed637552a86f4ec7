use authcore::authz::{PermissionCatalog, PermissionSet};
use authcore::directory::{authenticate_found, StoredUser, UserDirectory};
use authcore::errors::{BackendError, StateError};
use authcore::hasher::{hash_password, report_check, verify_password, PasswordCheck};
use authcore::service::{
    authorize_password_change, change_password, check_user_is_free, get_user_session,
    login_found, login_user, logout_user, submit_create_user, user_session_logout,
};
use authcore::session::{secrets_equal, Session, SESSION_INACTIVITY_SECS};
use authcore::user::{
    ChangePassword, CheckEmail, Credentials, RegisterPayload, User, UserPermission, UserRole,
};
use authcore::validation::{validate_email, validate_password};

const KEY_A: [u8; 16] = [1; 16];
const KEY_B: [u8; 16] = [2; 16];

fn register(dir: &mut UserDirectory, email: &str, password: &str, key: [u8; 16]) -> User {
    submit_create_user(
        dir,
        RegisterPayload { email: email.to_string(), password: password.to_string() },
        1000,
        key,
    )
    .expect("registration succeeds")
}

fn creds(email: &str, password: &str) -> Credentials {
    Credentials { email: email.to_string(), password: password.to_string(), next: None }
}

#[test]
fn role_names_round_trip() {
    for r in [UserRole::Admin, UserRole::Staff, UserRole::User, UserRole::Guest, UserRole::Naughty] {
        assert_eq!(UserRole::from_name(r.as_str()), Some(r));
    }
    assert_eq!(UserRole::User.as_str(), "user");
    assert_eq!(UserRole::from_name("Admin"), None);
    assert_eq!(UserRole::from_name(""), None);
}

#[test]
fn permission_names_round_trip() {
    for p in [
        UserPermission::DeleteUser,
        UserPermission::MarkAsNaughty,
        UserPermission::ProDemoteUser,
        UserPermission::EditUserPermissions,
        UserPermission::Read,
    ] {
        assert_eq!(UserPermission::from_name(p.as_str()), Some(p));
    }
    assert_eq!(UserPermission::ProDemoteUser.as_str(), "prodemoteuser");
    assert_eq!(UserPermission::from_name("write"), None);
}

#[test]
fn error_statuses_and_texts() {
    let cases = [
        (BackendError::AuthError("frm-password.invalid".to_string()), 401, "frm-password.invalid", "frm-password.invalid"),
        (BackendError::ValidationError("frm-email.err".to_string()), 400, "frm-email.err", "frm-email.err"),
        (BackendError::InternalError, 500, "unexpected", "std-err.internal"),
        (BackendError::NotFound("user".to_string()), 404, "user", "user.not-found"),
        (BackendError::Unauthorized, 401, "unauthorized", "unauthorized"),
        (BackendError::Forbidden, 403, "forbidden", "forbidden"),
        (BackendError::LoginRequired, 401, "unauthorized.login", "login.required"),
        (BackendError::UniqueConstraintViolation, 400, "duplicate", "duplicate"),
        (BackendError::DuplicateUser, 400, "duplicate user", "frm-email.duplicate"),
    ];
    for (e, status, text, key) in cases {
        assert_eq!(e.status_code(), status);
        assert_eq!(e.response_text(), text);
        assert_eq!(e.message(), key);
    }
    assert_eq!(StateError.status_code(), 500);
    assert_eq!(StateError.message(), "(internal) state error");
}

#[test]
fn db_errors_are_classified() {
    assert_eq!(
        BackendError::from_db_error(Some("23505"), Some("app_user_email_key")),
        BackendError::DuplicateUser
    );
    assert_eq!(
        BackendError::from_db_error(Some("23505"), Some("app_user_pkey")),
        BackendError::UniqueConstraintViolation
    );
    assert_eq!(BackendError::from_db_error(Some("23505"), None), BackendError::InternalError);
    assert_eq!(
        BackendError::from_db_error(Some("23503"), Some("app_user_email_key")),
        BackendError::InternalError
    );
    assert_eq!(BackendError::from_db_error(None, None), BackendError::InternalError);
}

#[test]
fn hash_then_verify_round_trip() {
    let h = hash_password("longenough1").expect("hashing succeeds");
    assert!(h.starts_with("$argon2id$"));
    assert_ne!(h, "longenough1");
    assert_eq!(verify_password("longenough1", &h), Ok(()));
    assert_eq!(
        verify_password("longenough2", &h),
        Err(BackendError::AuthError("frm-password.invalid".to_string()))
    );
}

#[test]
fn two_hashes_of_one_password_differ() {
    let a = hash_password("same-password").unwrap();
    let b = hash_password("same-password").unwrap();
    assert_ne!(a, b);
    assert_eq!(verify_password("same-password", &a), Ok(()));
    assert_eq!(verify_password("same-password", &b), Ok(()));
}

#[test]
fn malformed_hash_is_internal() {
    assert_eq!(verify_password("whatever1", "not a hash"), Err(BackendError::InternalError));
    assert_eq!(verify_password("whatever1", ""), Err(BackendError::InternalError));
}

#[test]
fn check_outcomes_are_reported() {
    assert_eq!(report_check(PasswordCheck::Match), Ok(()));
    assert_eq!(
        report_check(PasswordCheck::Mismatch),
        Err(BackendError::AuthError("frm-password.invalid".to_string()))
    );
    assert_eq!(report_check(PasswordCheck::Malformed), Err(BackendError::InternalError));
}

#[test]
fn email_and_password_validation() {
    assert_eq!(validate_email("a@b.com"), Ok(()));
    assert_eq!(
        validate_email("not-an-email"),
        Err(BackendError::ValidationError("frm-email.err".to_string()))
    );
    assert!(validate_email("").is_err());
    assert_eq!(validate_password("12345678"), Ok(()));
    assert_eq!(validate_password("1234567890123456"), Ok(()));
    assert_eq!(
        validate_password("1234567"),
        Err(BackendError::ValidationError("frm-password.err".to_string()))
    );
    assert!(validate_password("12345678901234567").is_err());
    // Characters are counted, not bytes.
    assert_eq!(validate_password("éééééééé"), Ok(()));
    let c = Credentials { email: "bad".to_string(), password: "short".to_string(), next: None };
    assert_eq!(c.validate(), Err(BackendError::ValidationError("frm-email.err".to_string())));
    let c = creds("a@b.com", "short");
    assert_eq!(c.validate(), Err(BackendError::ValidationError("frm-password.err".to_string())));
    let cp = ChangePassword { old_password: "longenough1".to_string(), new_password: "x".to_string() };
    assert!(cp.validate().is_err());
}

#[test]
fn permission_sets() {
    let mut s = PermissionSet::new();
    assert!(s.is_empty());
    s.insert(UserPermission::Read);
    s.insert(UserPermission::Read);
    assert!(s.contains(UserPermission::Read));
    assert!(!s.contains(UserPermission::DeleteUser));
    assert_eq!(s.to_vec(), vec![UserPermission::Read]);
}

#[test]
fn catalog_from_rows() {
    let rows = vec![
        (UserRole::Admin, UserPermission::DeleteUser),
        (UserRole::Admin, UserPermission::Read),
        (UserRole::Staff, UserPermission::Read),
        (UserRole::Admin, UserPermission::Read),
    ];
    let cat = PermissionCatalog::from_rows(&rows);
    assert!(cat.has(UserRole::Admin, UserPermission::DeleteUser));
    assert!(cat.has(UserRole::Admin, UserPermission::Read));
    assert!(!cat.has(UserRole::Admin, UserPermission::MarkAsNaughty));
    assert!(cat.has(UserRole::Staff, UserPermission::Read));
    assert!(!cat.has(UserRole::Staff, UserPermission::DeleteUser));
    assert_eq!(
        cat.permissions_for(UserRole::Admin).to_vec(),
        vec![UserPermission::DeleteUser, UserPermission::Read]
    );
    // A role without rows grants nothing.
    assert!(cat.permissions_for(UserRole::Guest).is_empty());
    for p in [UserPermission::DeleteUser, UserPermission::Read, UserPermission::EditUserPermissions] {
        assert!(!cat.has(UserRole::Guest, p));
    }
}

#[test]
fn user_permissions_go_by_role() {
    let cat = PermissionCatalog::from_rows(&vec![(UserRole::Staff, UserPermission::MarkAsNaughty)]);
    let staff = User { id: 1, email: "s@b.com".to_string(), c_at: 0, u_at: 0, role: UserRole::Staff, skey: KEY_A };
    let guest = User { role: UserRole::Guest, ..staff.clone() };
    assert!(cat.get_user_permissions(&staff).is_empty());
    assert_eq!(cat.get_group_permissions(&staff).to_vec(), vec![UserPermission::MarkAsNaughty]);
    assert_eq!(cat.get_all_permissions(&staff).to_vec(), vec![UserPermission::MarkAsNaughty]);
    assert!(cat.has_perm(&staff, UserPermission::MarkAsNaughty));
    assert!(!cat.has_perm(&guest, UserPermission::MarkAsNaughty));
    assert!(cat.get_all_permissions(&guest).is_empty());
}

#[test]
fn create_user_then_duplicate() {
    let mut dir = UserDirectory::new();
    let u = register(&mut dir, "a@b.com", "longenough1", KEY_A);
    assert_eq!(u.email, "a@b.com");
    assert_eq!(u.role, UserRole::User);
    assert_eq!(u.skey, KEY_A);
    assert_eq!(u.c_at, 1000);
    let again = submit_create_user(
        &mut dir,
        RegisterPayload { email: "a@b.com".to_string(), password: "another-one".to_string() },
        2000,
        KEY_B,
    );
    assert_eq!(again, Err(BackendError::DuplicateUser));
    assert_eq!(dir.len(), 1);
    let v = register(&mut dir, "c@d.com", "longenough2", KEY_B);
    assert_ne!(u.id, v.id);
    assert_eq!(dir.find_by_id(v.id), Some(v.clone()));
    assert_eq!(dir.find_by_id(999), None);
}

#[test]
fn registration_rejects_bad_email() {
    let mut dir = UserDirectory::new();
    let r = submit_create_user(
        &mut dir,
        RegisterPayload { email: "nope".to_string(), password: "longenough1".to_string() },
        0,
        KEY_A,
    );
    assert_eq!(r, Err(BackendError::ValidationError("frm-email.err".to_string())));
    assert_eq!(dir.len(), 0);
}

#[test]
fn email_availability() {
    let mut dir = UserDirectory::new();
    let free = CheckEmail { email: "a@b.com".to_string() };
    assert_eq!(check_user_is_free(&dir, free), Ok(true));
    register(&mut dir, "a@b.com", "longenough1", KEY_A);
    assert_eq!(check_user_is_free(&dir, CheckEmail { email: "a@b.com".to_string() }), Ok(false));
    assert_eq!(check_user_is_free(&dir, CheckEmail { email: "x@b.com".to_string() }), Ok(true));
    assert!(!dir.check_email(&"a@b.com".to_string()));
    assert_eq!(
        check_user_is_free(&dir, CheckEmail { email: "bad".to_string() }),
        Err(BackendError::ValidationError("frm-email.err".to_string()))
    );
}

#[test]
fn authenticate_outcomes() {
    let mut dir = UserDirectory::new();
    let u = register(&mut dir, "a@b.com", "longenough1", KEY_A);
    assert_eq!(dir.authenticate(&creds("a@b.com", "longenough1")), Ok(u));
    assert_eq!(
        dir.authenticate(&creds("a@b.com", "wrong")),
        Err(BackendError::AuthError("frm-password.invalid".to_string()))
    );
    assert_eq!(
        dir.authenticate(&creds("z@b.com", "longenough1")),
        Err(BackendError::NotFound("user".to_string()))
    );
}

#[test]
fn authenticate_found_row() {
    let user = User { id: 7, email: "a@b.com".to_string(), c_at: 0, u_at: 0, role: UserRole::User, skey: KEY_A };
    let hash = hash_password("longenough1").unwrap();
    let row = StoredUser { user: user.clone(), password_hash: hash };
    assert_eq!(authenticate_found("longenough1", Some(row.clone())), Ok(user));
    assert_eq!(
        authenticate_found("other-pass", Some(row)),
        Err(BackendError::AuthError("frm-password.invalid".to_string()))
    );
    assert_eq!(authenticate_found("x", None), Err(BackendError::NotFound("user".to_string())));
    let broken = StoredUser {
        user: User { id: 8, email: "b@b.com".to_string(), c_at: 0, u_at: 0, role: UserRole::User, skey: KEY_A },
        password_hash: "garbage".to_string(),
    };
    assert_eq!(authenticate_found("longenough1", Some(broken)), Err(BackendError::InternalError));
}

#[test]
fn login_wrong_then_right_password() {
    let mut dir = UserDirectory::new();
    let u = register(&mut dir, "a@b.com", "longenough1", KEY_A);
    let mut s = Session::new(1000);
    assert_eq!(
        login_user(&dir, &mut s, creds("a@b.com", "wrong"), 0),
        Err(BackendError::AuthError("frm-password.invalid".to_string()))
    );
    assert!(!s.is_authenticated());
    assert_eq!(get_user_session(&dir, &mut s, 1001), None);
    assert_eq!(login_user(&dir, &mut s, creds("a@b.com", "longenough1"), 0), Ok(u.clone()));
    assert!(s.is_authenticated());
    assert_eq!(get_user_session(&dir, &mut s, 1002), Some(u));
}

#[test]
fn login_twice_is_idempotent() {
    let mut dir = UserDirectory::new();
    let u = register(&mut dir, "a@b.com", "longenough1", KEY_A);
    let mut s = Session::new(0);
    s.login(&u, 0);
    let once = Session { user_id: s.user_id, auth_hash: s.auth_hash, last_activity: s.last_activity };
    s.login(&u, 0);
    assert_eq!(s, once);
    assert_eq!(s.user_id, Some(u.id));
}

#[test]
fn logout_then_login_again() {
    let mut dir = UserDirectory::new();
    let u = register(&mut dir, "a@b.com", "longenough1", KEY_A);
    let mut s = Session::new(0);
    login_user(&dir, &mut s, creds("a@b.com", "longenough1"), 0).unwrap();
    logout_user(&mut s);
    assert_eq!(get_user_session(&dir, &mut s, 10), None);
    assert_eq!(s.user_id, None);
    login_user(&dir, &mut s, creds("a@b.com", "longenough1"), 0).unwrap();
    assert_eq!(get_user_session(&dir, &mut s, 20), Some(u));
    user_session_logout(&mut s);
    assert!(!s.is_authenticated());
}

#[test]
fn session_expires_after_a_day_of_inactivity() {
    let mut dir = UserDirectory::new();
    let u = register(&mut dir, "a@b.com", "longenough1", KEY_A);
    let mut s = Session::new(0);
    s.login(&u, 0);
    assert!(!s.is_expired(SESSION_INACTIVITY_SECS));
    assert!(s.is_expired(SESSION_INACTIVITY_SECS + 1));
    // Activity slides the window.
    assert_eq!(get_user_session(&dir, &mut s, 80_000), Some(u.clone()));
    assert_eq!(get_user_session(&dir, &mut s, 160_000), Some(u));
    assert_eq!(get_user_session(&dir, &mut s, 160_000 + SESSION_INACTIVITY_SECS + 1), None);
    assert!(!s.is_authenticated());
}

#[test]
fn rotated_secret_invalidates_session() {
    let u = User { id: 3, email: "a@b.com".to_string(), c_at: 0, u_at: 0, role: UserRole::User, skey: KEY_A };
    let mut s = Session::new(0);
    s.login(&u, 0);
    let rotated = User { skey: KEY_B, ..u.clone() };
    assert_eq!(s.resolve(Some(rotated), 5), None);
    assert_eq!(s.user_id, None);
    s.login(&u, 0);
    assert_eq!(s.resolve(None, 6), None);
    assert_eq!(s.resolve(Some(u.clone()), 7), Some(u));
    assert!(secrets_equal(&KEY_A, &KEY_A));
    assert!(!secrets_equal(&KEY_A, &KEY_B));
}

#[test]
fn session_auth_hash_is_the_secret() {
    let u = User { id: 3, email: "a@b.com".to_string(), c_at: 0, u_at: 0, role: UserRole::User, skey: KEY_B };
    assert_eq!(u.session_auth_hash(), &KEY_B[..]);
    assert_eq!(u.id(), 3);
}

#[test]
fn change_password_requires_login() {
    let mut dir = UserDirectory::new();
    register(&mut dir, "a@b.com", "longenough1", KEY_A);
    let mut s = Session::new(0);
    let payload = ChangePassword { old_password: "longenough1".to_string(), new_password: "newpassword1".to_string() };
    assert_eq!(change_password(&mut dir, &mut s, payload, 1), Err(BackendError::Unauthorized));
}

#[test]
fn change_password_checks_old_and_keeps_session() {
    let mut dir = UserDirectory::new();
    let u = register(&mut dir, "a@b.com", "longenough1", KEY_A);
    let mut s = Session::new(0);
    login_user(&dir, &mut s, creds("a@b.com", "longenough1"), 0).unwrap();
    let bad = ChangePassword { old_password: "not-the-one".to_string(), new_password: "newpassword1".to_string() };
    assert_eq!(
        change_password(&mut dir, &mut s, bad, 1),
        Err(BackendError::AuthError("frm-password.invalid".to_string()))
    );
    let good = ChangePassword { old_password: "longenough1".to_string(), new_password: "newpassword1".to_string() };
    assert_eq!(change_password(&mut dir, &mut s, good, 2), Ok(()));
    assert!(dir.authenticate(&creds("a@b.com", "longenough1")).is_err());
    assert_eq!(dir.authenticate(&creds("a@b.com", "newpassword1")), Ok(u.clone()));
    // The secret is not rotated: the session stays valid.
    assert_eq!(get_user_session(&dir, &mut s, 3), Some(u));
}

#[test]
fn set_password_of_unknown_user_is_internal() {
    let mut dir = UserDirectory::new();
    assert_eq!(dir.set_user_password(42, "longenough1"), Err(BackendError::InternalError));
    assert_eq!(dir.validate_password(42, "longenough1"), Err(BackendError::InternalError));
}

#[test]
fn rotating_the_secret_ends_sessions() {
    let mut dir = UserDirectory::new();
    let u = register(&mut dir, "a@b.com", "longenough1", KEY_A);
    let mut s = Session::new(0);
    login_user(&dir, &mut s, creds("a@b.com", "longenough1"), 0).unwrap();
    assert_eq!(get_user_session(&dir, &mut s, 1), Some(u.clone()));
    assert_eq!(dir.rotate_session_key(u.id, KEY_B), Ok(()));
    assert_eq!(get_user_session(&dir, &mut s, 2), None);
    assert!(!s.is_authenticated());
    let fresh = login_user(&dir, &mut s, creds("a@b.com", "longenough1"), 0).unwrap();
    assert_eq!(fresh.skey, KEY_B);
    assert_eq!(get_user_session(&dir, &mut s, 3), Some(fresh));
    assert_eq!(dir.rotate_session_key(999, KEY_A), Err(BackendError::InternalError));
}

#[test]
fn change_password_checks_lengths() {
    let mut dir = UserDirectory::new();
    register(&mut dir, "a@b.com", "longenough1", KEY_A);
    let mut s = Session::new(0);
    login_user(&dir, &mut s, creds("a@b.com", "longenough1"), 0).unwrap();
    let short = ChangePassword { old_password: "longenough1".to_string(), new_password: "short".to_string() };
    assert_eq!(
        change_password(&mut dir, &mut s, short, 1),
        Err(BackendError::ValidationError("frm-password.err".to_string()))
    );
    let long = ChangePassword {
        old_password: "longenough1".to_string(),
        new_password: "much-too-long-password".to_string(),
    };
    assert_eq!(
        change_password(&mut dir, &mut s, long, 2),
        Err(BackendError::ValidationError("frm-password.err".to_string()))
    );
    // The stored password is unchanged.
    assert!(dir.authenticate(&creds("a@b.com", "longenough1")).is_ok());
}

#[test]
fn password_change_authorization() {
    let u = User { id: 3, email: "a@b.com".to_string(), c_at: 0, u_at: 0, role: UserRole::User, skey: KEY_A };
    let ok = ChangePassword { old_password: "longenough1".to_string(), new_password: "newpassword1".to_string() };
    assert_eq!(authorize_password_change(None, &ok), Err(BackendError::Unauthorized));
    assert_eq!(authorize_password_change(Some(u.clone()), &ok), Ok(u.clone()));
    let bad = ChangePassword { old_password: "1234567".to_string(), new_password: "newpassword1".to_string() };
    assert_eq!(
        authorize_password_change(Some(u), &bad),
        Err(BackendError::ValidationError("frm-password.err".to_string()))
    );
}

#[test]
fn login_with_found_row() {
    let user = User { id: 7, email: "a@b.com".to_string(), c_at: 0, u_at: 0, role: UserRole::User, skey: KEY_A };
    let row = StoredUser { user: user.clone(), password_hash: hash_password("longenough1").unwrap() };
    let mut s = Session::new(0);
    assert_eq!(
        login_found(&mut s, "wrong", Some(row.clone()), 5),
        Err(BackendError::AuthError("frm-password.invalid".to_string()))
    );
    assert_eq!(s, Session::new(0));
    assert_eq!(login_found(&mut s, "x", None, 5), Err(BackendError::NotFound("user".to_string())));
    assert_eq!(login_found(&mut s, "longenough1", Some(row), 5), Ok(user.clone()));
    assert_eq!(s.user_id, Some(7));
    assert_eq!(s.auth_hash, Some(KEY_A));
}

#[test]
fn permission_list_is_in_declaration_order() {
    let mut s = PermissionSet::new();
    s.insert(UserPermission::Read);
    s.insert(UserPermission::MarkAsNaughty);
    s.insert(UserPermission::DeleteUser);
    assert_eq!(
        s.to_vec(),
        vec![UserPermission::DeleteUser, UserPermission::MarkAsNaughty, UserPermission::Read]
    );
}

#[test]
fn registration_rejects_bad_password_length() {
    let mut dir = UserDirectory::new();
    for password in ["short", "1234567", "12345678901234567"] {
        let r = submit_create_user(
            &mut dir,
            RegisterPayload { email: "a@b.com".to_string(), password: password.to_string() },
            0,
            KEY_A,
        );
        assert_eq!(r, Err(BackendError::ValidationError("frm-password.err".to_string())));
    }
    assert_eq!(dir.len(), 0);
    // The email is checked first.
    let r = submit_create_user(
        &mut dir,
        RegisterPayload { email: "bad".to_string(), password: "short".to_string() },
        0,
        KEY_A,
    );
    assert_eq!(r, Err(BackendError::ValidationError("frm-email.err".to_string())));
    let p = RegisterPayload { email: "a@b.com".to_string(), password: "12345678".to_string() };
    assert_eq!(p.validate(), Ok(()));
}

#[test]
fn login_counts_as_activity() {
    let mut dir = UserDirectory::new();
    let u = register(&mut dir, "a@b.com", "longenough1", KEY_A);
    let mut s = Session::new(0);
    assert_eq!(get_user_session(&dir, &mut s, 0), None);
    assert_eq!(login_user(&dir, &mut s, creds("a@b.com", "longenough1"), 86_000), Ok(u.clone()));
    assert_eq!(s.last_activity, 86_000);
    assert_eq!(get_user_session(&dir, &mut s, 86_500), Some(u));
}

#[test]
fn hashes_name_argon2id_and_default_cost() {
    let h = hash_password("longenough1").unwrap();
    assert!(h.starts_with("$argon2id$v=19$m=19456,t=2,p=1$"));
    assert!(h.len() > "$argon2id$v=19$m=19456,t=2,p=1$".len());
}
