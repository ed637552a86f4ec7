use vstd::prelude::*;
use vstd::string::StringExecFns;
use crate::user::str_equal;

verus! {

/// Every failure of this core, by kind.
///
/// Variants that carry a string carry a message key, which the UI layer
/// renders localized; the internal cause is never carried here.
#[derive(Debug, PartialEq, Eq)]
pub enum BackendError {
    /// A credential-stage failure (wrong password).
    AuthError(String),
    /// Malformed input.
    ValidationError(String),
    /// Any unclassified storage, pool or hashing failure.
    InternalError,
    /// A referenced row is absent; carries the entity's name.
    NotFound(String),
    Unauthorized,
    Forbidden,
    LoginRequired,
    /// A uniqueness constraint other than the one on the email column.
    UniqueConstraintViolation,
    /// The email address is already registered.
    DuplicateUser,
}

/// HTTP status of a response that reports each kind of failure.
pub open spec fn status_of(e: BackendError) -> u16 {
    match e {
        BackendError::AuthError(_) => 401,
        BackendError::ValidationError(_) => 400,
        BackendError::InternalError => 500,
        BackendError::NotFound(_) => 404,
        BackendError::UniqueConstraintViolation => 400,
        BackendError::DuplicateUser => 400,
        BackendError::Unauthorized => 401,
        BackendError::LoginRequired => 401,
        BackendError::Forbidden => 403,
    }
}

/// Body of the response that reports a failure; internal failures are
/// generalized.
pub open spec fn response_text(e: BackendError) -> Seq<char> {
    match e {
        BackendError::AuthError(m) => m@,
        BackendError::ValidationError(m) => m@,
        BackendError::InternalError => "unexpected"@,
        BackendError::NotFound(m) => m@,
        BackendError::UniqueConstraintViolation => "duplicate"@,
        BackendError::DuplicateUser => "duplicate user"@,
        BackendError::Unauthorized => "unauthorized"@,
        BackendError::LoginRequired => "unauthorized.login"@,
        BackendError::Forbidden => "forbidden"@,
    }
}

/// The message key that describes a failure to the user.
pub open spec fn message_key(e: BackendError) -> Seq<char> {
    match e {
        BackendError::AuthError(m) => m@,
        BackendError::ValidationError(m) => m@,
        BackendError::InternalError => "std-err.internal"@,
        BackendError::NotFound(m) => m@ + ".not-found"@,
        BackendError::Unauthorized => "unauthorized"@,
        BackendError::Forbidden => "forbidden"@,
        BackendError::LoginRequired => "login.required"@,
        BackendError::UniqueConstraintViolation => "duplicate"@,
        BackendError::DuplicateUser => "frm-email.duplicate"@,
    }
}

/// SQLSTATE of a unique-constraint violation.
pub open spec fn unique_violation_code() -> Seq<char> {
    "23505"@
}

/// Name of the uniqueness constraint on the users' email column.
pub open spec fn email_constraint_name() -> Seq<char> {
    "app_user_email_key"@
}

/// How a storage failure is classified: a unique violation on the email
/// column is the one business-meaningful conflict; another unique violation
/// that names its constraint is a generic conflict; all else is internal.
pub open spec fn db_error_kind(
    sqlstate: Option<Seq<char>>,
    constraint: Option<Seq<char>>,
) -> BackendError {
    if sqlstate == Some(unique_violation_code()) && constraint is Some {
        if constraint == Some(email_constraint_name()) {
            BackendError::DuplicateUser
        } else {
            BackendError::UniqueConstraintViolation
        }
    } else {
        BackendError::InternalError
    }
}

pub open spec fn opt_str_view(o: Option<&str>) -> Option<Seq<char>> {
    match o {
        Some(s) => Some(s@),
        None => None,
    }
}

impl BackendError {
    /// HTTP status of the response that reports this failure.
    pub fn status_code(&self) -> (r: u16)
        ensures
            r == status_of(*self),
    {
        match self {
            BackendError::AuthError(_) => 401,
            BackendError::ValidationError(_) => 400,
            BackendError::InternalError => 500,
            BackendError::NotFound(_) => 404,
            BackendError::UniqueConstraintViolation => 400,
            BackendError::DuplicateUser => 400,
            BackendError::Unauthorized => 401,
            BackendError::LoginRequired => 401,
            BackendError::Forbidden => 403,
        }
    }

    /// Body of the response that reports this failure.
    pub fn response_text(&self) -> (r: String)
        ensures
            r@ == response_text(*self),
    {
        match self {
            BackendError::AuthError(m) => m.clone(),
            BackendError::ValidationError(m) => m.clone(),
            BackendError::InternalError => "unexpected".to_owned(),
            BackendError::NotFound(m) => m.clone(),
            BackendError::UniqueConstraintViolation => "duplicate".to_owned(),
            BackendError::DuplicateUser => "duplicate user".to_owned(),
            BackendError::Unauthorized => "unauthorized".to_owned(),
            BackendError::LoginRequired => "unauthorized.login".to_owned(),
            BackendError::Forbidden => "forbidden".to_owned(),
        }
    }

    /// The message key of this failure, as shown to the user.
    pub fn message(&self) -> (r: String)
        ensures
            r@ == message_key(*self),
    {
        match self {
            BackendError::AuthError(m) => m.clone(),
            BackendError::ValidationError(m) => m.clone(),
            BackendError::InternalError => "std-err.internal".to_owned(),
            BackendError::NotFound(m) => m.clone().concat(".not-found"),
            BackendError::Unauthorized => "unauthorized".to_owned(),
            BackendError::Forbidden => "forbidden".to_owned(),
            BackendError::LoginRequired => "login.required".to_owned(),
            BackendError::UniqueConstraintViolation => "duplicate".to_owned(),
            BackendError::DuplicateUser => "frm-email.duplicate".to_owned(),
        }
    }

    /// Classifies a storage failure from its SQLSTATE and the name of the
    /// constraint it reports, when it is a database error at all.
    pub fn from_db_error(sqlstate: Option<&str>, constraint: Option<&str>) -> (r: BackendError)
        ensures
            r == db_error_kind(opt_str_view(sqlstate), opt_str_view(constraint)),
    {
        let unique = match sqlstate {
            Some(code) => str_equal(code, "23505"),
            None => false,
        };
        proof {
            reveal_strlit("23505");
        }
        match constraint {
            Some(name) => {
                if !unique {
                    BackendError::InternalError
                } else if str_equal(name, "app_user_email_key") {
                    BackendError::DuplicateUser
                } else {
                    BackendError::UniqueConstraintViolation
                }
            },
            None => BackendError::InternalError,
        }
    }
}

/// The request's session could not be extracted from request state.
#[derive(Debug, PartialEq, Eq)]
pub struct StateError;

impl StateError {
    /// HTTP status of the response that reports this failure.
    pub fn status_code(&self) -> (r: u16)
        ensures
            r == 500,
    {
        500
    }

    /// Text of this failure.
    pub fn message(&self) -> (r: String)
        ensures
            r@ == "(internal) state error"@,
    {
        "(internal) state error".to_owned()
    }
}

} // verus!
