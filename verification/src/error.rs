use vstd::prelude::*;

verus! {

/// The error type of the database layer, carried through unchanged.
#[verifier::external_type_specification]
#[verifier::external_body]
pub struct ExSqlxError(sqlx::Error);

/// Errors that a handler answers with.
pub enum AppError {
    SqlxError(sqlx::Error),
    /// The note could not be written: it is locked by someone else, or the
    /// caller may not write it.
    Locked,
    /// 401: the identity is unknown, or the resource is not visible to it.
    Unauthorized,
    /// 403: the identity is known but lacks the permission.
    Forbidden,
    /// 409: someone else holds the lock.
    Conflict,
    Internal(String),
}

/// The `Display` text of a database error.
pub uninterp spec fn sqlx_error_message(e: sqlx::Error) -> Seq<char>;

/// Calls `sqlx::Error`'s `to_string` (its `Display`), which prints the error
/// from its fields alone.
#[verifier::external_body]
fn sqlx_error_text(e: &sqlx::Error) -> (res: String)
    ensures
        res@ == sqlx_error_message(*e),
{
    e.to_string()
}

pub open spec fn status_of(e: &AppError) -> u16 {
    match e {
        AppError::SqlxError(_) => 500,
        AppError::Locked => 409,
        AppError::Unauthorized => 401,
        AppError::Forbidden => 403,
        AppError::Conflict => 409,
        AppError::Internal(_) => 500,
    }
}

impl From<sqlx::Error> for AppError {
    fn from(err: sqlx::Error) -> (res: Self) {
        AppError::SqlxError(err)
    }
}

impl vstd::std_specs::convert::FromSpecImpl<sqlx::Error> for AppError {
    open spec fn obeys_from_spec() -> bool {
        true
    }

    open spec fn from_spec(v: sqlx::Error) -> AppError {
        AppError::SqlxError(v)
    }
}

/// A message becomes an internal error.
impl From<String> for AppError {
    fn from(message: String) -> (res: Self) {
        AppError::Internal(message)
    }
}

impl vstd::std_specs::convert::FromSpecImpl<String> for AppError {
    open spec fn obeys_from_spec() -> bool {
        true
    }

    open spec fn from_spec(v: String) -> AppError {
        AppError::Internal(v)
    }
}

impl AppError {
    /// The error that a failed step answering with `status` turns into.
    pub fn from_status(status: u16) -> (res: AppError)
        ensures
            status == 401 ==> res is Unauthorized,
            status == 403 ==> res is Forbidden,
            status == 409 ==> res is Conflict,
            status != 401 && status != 403 && status != 409 ==> (res matches AppError::Internal(m)
                && m@ == "An error occurred"@),
            status_of(&res) == (if status == 401 || status == 403 || status == 409 { status } else { 500 }),
    {
        if status == 401 {
            AppError::Unauthorized
        } else if status == 403 {
            AppError::Forbidden
        } else if status == 409 {
            AppError::Conflict
        } else {
            AppError::Internal(String::from_str("An error occurred"))
        }
    }

    /// The HTTP status and the message of the JSON body `{"error": message}`
    /// that this error is answered with.
    pub fn response_parts(self) -> (res: (u16, String))
        ensures
            res.0 == status_of(&self),
            self is Locked ==> res.1@ == "Note is locked"@,
            self is Unauthorized ==> res.1@ == "Unauthorized access"@,
            self is Forbidden ==> res.1@ == "You do not have permission to do this"@,
            self is Conflict ==> res.1@ == "This note is currently being edited by someone else"@,
            self matches AppError::Internal(m) ==> res.1@ == m@,
            self matches AppError::SqlxError(e) ==> res.1@ == sqlx_error_message(e),
    {
        match self {
            AppError::SqlxError(e) => (500, sqlx_error_text(&e)),
            AppError::Locked => (409, String::from_str("Note is locked")),
            AppError::Unauthorized => (401, String::from_str("Unauthorized access")),
            AppError::Forbidden => (403, String::from_str("You do not have permission to do this")),
            AppError::Conflict => (409, String::from_str("This note is currently being edited by someone else")),
            AppError::Internal(m) => (500, m),
        }
    }
}

} // verus!
