use vstd::prelude::*;
use argon2::password_hash::rand_core::OsRng;
use argon2::password_hash::{PasswordHash, PasswordHasher, PasswordVerifier, SaltString};
use argon2::Argon2;
use crate::errors::BackendError;

verus! {

/// password_hash's `Error`, the failure that hashing reports; every such
/// failure is internal here.
#[verifier::external_type_specification]
#[verifier::external_body]
pub struct ExHashError(argon2::password_hash::Error);

/// Outcome of checking a plain-text password against an encoded hash.
#[derive(Clone, Copy, Debug, PartialEq, Eq, Structural)]
pub enum PasswordCheck {
    /// The password produces the stored digest.
    Match,
    /// The hash parses and the password does not produce its digest (a
    /// PHC string without a salt or a digest is reported the same way).
    Mismatch,
    /// The stored hash cannot be parsed or names parameters that cannot be
    /// used: a data problem, not a user error.
    Malformed,
}

/// What argon2 reports when `password` is checked against the PHC string
/// `encoded`; it depends on the two strings alone.
pub uninterp spec fn argon2_check(password: Seq<char>, encoded: Seq<char>) -> PasswordCheck;

/// Passwords short enough for argon2 whatever their characters: argon2
/// refuses only a password of more than 0xFFFF_FFFF bytes, and a character
/// takes at most four bytes in UTF-8.
pub open spec fn hashable(password: Seq<char>) -> bool {
    4 * password.len() <= 0xFFFF_FFFF
}

/// The head of every hash made here: argon2id, version 19 (0x13), and
/// argon2's default cost (19 MiB of memory, two passes, one lane); the salt
/// and the digest follow.
pub open spec fn default_phc_prefix() -> Seq<char> {
    "$argon2id$v=19$m=19456,t=2,p=1$"@
}

/// Relies on `SaltString::generate` over the operating system's generator
/// (16 random bytes) and on `Argon2::hash_password` with the default
/// parameters. With such a salt hashing fails only for a password over
/// `MAX_PWD_LEN` bytes; on success the result is the self-describing PHC
/// string (`$argon2id$v=19$m=19456,t=2,p=1$<salt>$<digest>`, as
/// `PasswordHash`'s `Display` writes the default algorithm, version and
/// `Params`), which argon2's own check accepts for the same password (it
/// recomputes the digest under the parameters and salt the string records).
#[verifier::external_body]
fn argon2_hash(password: &str) -> (r: Result<String, argon2::password_hash::Error>)
    ensures
        hashable(password@) ==> r is Ok,
        r matches Ok(h) ==> argon2_check(password@, h@) == PasswordCheck::Match,
        r matches Ok(h) ==> default_phc_prefix().is_prefix_of(h@) && h@.len()
            > default_phc_prefix().len(),
{
    let salt = SaltString::generate(&mut OsRng);
    Argon2::default().hash_password(password.as_bytes(), &salt).map(|h| h.to_string())
}

/// Relies on `PasswordHash::new`, which parses the PHC string, and on
/// `Argon2::verify_password`, which recomputes the digest and compares it in
/// constant time; `Error::Password` is its report of a mismatch.
#[verifier::external_body]
fn argon2_verify(password: &str, encoded: &str) -> (r: PasswordCheck)
    ensures
        r == argon2_check(password@, encoded@),
{
    match PasswordHash::new(encoded) {
        Err(_) => PasswordCheck::Malformed,
        Ok(parsed) => match Argon2::default().verify_password(password.as_bytes(), &parsed) {
            Ok(()) => PasswordCheck::Match,
            Err(argon2::password_hash::Error::Password) => PasswordCheck::Mismatch,
            Err(_) => PasswordCheck::Malformed,
        },
    }
}

/// Message key of a wrong password.
pub open spec fn mismatch_key() -> Seq<char> {
    "frm-password.invalid"@
}

/// The failure that reports a wrong password.
pub open spec fn is_mismatch_error(e: BackendError) -> bool {
    e matches BackendError::AuthError(m) && m@ == mismatch_key()
}

/// How each outcome of a password check is reported: a mismatch as a
/// credential failure, a malformed hash as an internal one.
pub open spec fn check_reported(c: PasswordCheck, r: Result<(), BackendError>) -> bool {
    match c {
        PasswordCheck::Match => r is Ok,
        PasswordCheck::Mismatch => r matches Err(e) && is_mismatch_error(e),
        PasswordCheck::Malformed => r == Err::<(), BackendError>(BackendError::InternalError),
    }
}

/// Reports the outcome of a password check.
pub fn report_check(c: PasswordCheck) -> (r: Result<(), BackendError>)
    ensures
        check_reported(c, r),
{
    match c {
        PasswordCheck::Match => Ok(()),
        PasswordCheck::Mismatch => Err(BackendError::AuthError("frm-password.invalid".to_owned())),
        PasswordCheck::Malformed => Err(BackendError::InternalError),
    }
}

/// Hashes a plain-text password under a fresh random salt. The result is a
/// self-describing encoded hash that verifies against the same password.
/// Hashing succeeds for every password that argon2 accepts by length; a
/// failure is internal.
pub fn hash_password(password: &str) -> (r: Result<String, BackendError>)
    ensures
        hashable(password@) ==> r is Ok,
        r matches Ok(h) ==> argon2_check(password@, h@) == PasswordCheck::Match,
        r matches Ok(h) ==> default_phc_prefix().is_prefix_of(h@) && h@.len()
            > default_phc_prefix().len(),
        r matches Err(e) ==> e == BackendError::InternalError,
{
    match argon2_hash(password) {
        Ok(h) => Ok(h),
        Err(_) => Err(BackendError::InternalError),
    }
}

/// Verifies a plain-text password against a stored encoded hash.
pub fn verify_password(password: &str, password_hash: &str) -> (r: Result<(), BackendError>)
    ensures
        check_reported(argon2_check(password@, password_hash@), r),
{
    report_check(argon2_verify(password, password_hash))
}

/// Every hash that `hash_password` returns verifies against the password it
/// was made from.
pub proof fn lemma_hash_round_trip(password: Seq<char>, encoded: Seq<char>, r: Result<(), BackendError>)
    requires
        argon2_check(password, encoded) == PasswordCheck::Match,
        check_reported(argon2_check(password, encoded), r),
    ensures
        r is Ok,
{
}

} // verus!
