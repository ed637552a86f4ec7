use vstd::prelude::*;
use validator::ValidateEmail;
use vstd::string::StrSliceExecFns;
use crate::errors::BackendError;
use crate::user::{ChangePassword, CheckEmail, Credentials, RegisterPayload};

verus! {

/// Whether validator accepts `s` as an email address (the HTML5 shape, with
/// length limits on each part); it depends on the characters alone.
pub uninterp spec fn email_shape_ok(s: Seq<char>) -> bool;

/// Relies on validator's `ValidateEmail::validate_email`, which rejects an
/// empty string and one without an `@` before any other test.
#[verifier::external_body]
fn email_shape(s: &str) -> (r: bool)
    ensures
        r == email_shape_ok(s@),
        s@.len() == 0 ==> !r,
        !s@.contains('@') ==> !r,
{
    s.validate_email()
}

/// Fewest characters in a password.
pub const PASSWORD_MIN_CHARS: u64 = 8;

/// Most characters in a password.
pub const PASSWORD_MAX_CHARS: u64 = 16;

/// A password's length is within the accepted range.
pub open spec fn password_length_ok(p: Seq<char>) -> bool {
    PASSWORD_MIN_CHARS <= p.len() && p.len() <= PASSWORD_MAX_CHARS
}

/// Message key of a malformed email address.
pub open spec fn bad_email_key() -> Seq<char> {
    "frm-email.err"@
}

/// Message key of a password of the wrong length.
pub open spec fn bad_password_key() -> Seq<char> {
    "frm-password.err"@
}

/// The validation failure that carries `key`.
pub open spec fn is_validation_error(e: BackendError, key: Seq<char>) -> bool {
    e matches BackendError::ValidationError(m) && m@ == key
}

/// Checks the shape of an email address.
pub fn validate_email(email: &str) -> (r: Result<(), BackendError>)
    ensures
        r is Ok <==> email_shape_ok(email@),
        r matches Err(e) ==> is_validation_error(e, bad_email_key()),
{
    if email_shape(email) {
        Ok(())
    } else {
        Err(BackendError::ValidationError("frm-email.err".to_owned()))
    }
}

/// Checks the length of a password.
pub fn validate_password(password: &str) -> (r: Result<(), BackendError>)
    ensures
        r is Ok <==> password_length_ok(password@),
        r matches Err(e) ==> is_validation_error(e, bad_password_key()),
{
    let n = password.unicode_len() as u64;
    if PASSWORD_MIN_CHARS <= n && n <= PASSWORD_MAX_CHARS {
        Ok(())
    } else {
        Err(BackendError::ValidationError("frm-password.err".to_owned()))
    }
}

impl Credentials {
    /// A login attempt needs a well-formed email and a password of accepted
    /// length; the email is checked first.
    pub fn validate(&self) -> (r: Result<(), BackendError>)
        ensures
            r is Ok <==> email_shape_ok(self.email@) && password_length_ok(self.password@),
            r matches Err(e) ==> if email_shape_ok(self.email@) {
                is_validation_error(e, bad_password_key())
            } else {
                is_validation_error(e, bad_email_key())
            },
    {
        validate_email(self.email.as_str())?;
        validate_password(self.password.as_str())
    }
}

impl ChangePassword {
    /// Both the old and the new password must be of accepted length.
    pub fn validate(&self) -> (r: Result<(), BackendError>)
        ensures
            r is Ok <==> password_length_ok(self.old_password@) && password_length_ok(
                self.new_password@,
            ),
            r matches Err(e) ==> is_validation_error(e, bad_password_key()),
    {
        validate_password(self.old_password.as_str())?;
        validate_password(self.new_password.as_str())
    }
}

impl RegisterPayload {
    /// A registration needs a well-formed email address and a password of
    /// accepted length; the email is checked first.
    pub fn validate(&self) -> (r: Result<(), BackendError>)
        ensures
            r is Ok <==> email_shape_ok(self.email@) && password_length_ok(self.password@),
            r matches Err(e) ==> if email_shape_ok(self.email@) {
                is_validation_error(e, bad_password_key())
            } else {
                is_validation_error(e, bad_email_key())
            },
    {
        validate_email(self.email.as_str())?;
        validate_password(self.password.as_str())
    }
}

impl CheckEmail {
    /// An availability query needs a well-formed email address.
    pub fn validate(&self) -> (r: Result<(), BackendError>)
        ensures
            r is Ok <==> email_shape_ok(self.email@),
            r matches Err(e) ==> is_validation_error(e, bad_email_key()),
    {
        validate_email(self.email.as_str())
    }
}

} // verus!
