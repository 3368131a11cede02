use vstd::prelude::*;

verus! {

/// Relied on as an opaque value: a failure reported by the MongoDB driver.
#[verifier::external_type_specification]
#[verifier::external_body]
pub struct ExDriverError(mongodb::error::Error);

/// The errors a request can end in.
#[derive(Debug)]
pub enum AppError {
    InternalError,
    InvalidInput(String),
    Auth,
    NotFound(String),
    Forbidden(String),
    Database(mongodb::error::Error),
}

/// The HTTP status that answers each kind of error.
pub open spec fn status_of(e: AppError) -> u16 {
    match e {
        AppError::InternalError => 500,
        AppError::InvalidInput(_) => 400,
        AppError::Auth => 401,
        AppError::NotFound(_) => 404,
        AppError::Forbidden(_) => 403,
        AppError::Database(_) => 500,
    }
}

/// The message shown to the client for each kind of error: the one it
/// carries, or a fixed one that reveals nothing of the server.
pub open spec fn message_of(e: AppError) -> Seq<char> {
    match e {
        AppError::InternalError => "Internal Server Error"@,
        AppError::InvalidInput(m) => m@,
        AppError::Auth => "Unauthorized"@,
        AppError::NotFound(m) => m@,
        AppError::Forbidden(m) => m@,
        AppError::Database(_) => "Internal Server Error"@,
    }
}

/// Whether `e` is an invalid-input error with message `msg`.
pub open spec fn is_invalid_input(e: AppError, msg: Seq<char>) -> bool {
    e matches AppError::InvalidInput(m) && m@ == msg
}

/// Whether `e` is a not-found error with message `msg`.
pub open spec fn is_not_found(e: AppError, msg: Seq<char>) -> bool {
    e matches AppError::NotFound(m) && m@ == msg
}

/// Whether `e` is a forbidden error with message `msg`.
pub open spec fn is_forbidden(e: AppError, msg: Seq<char>) -> bool {
    e matches AppError::Forbidden(m) && m@ == msg
}

impl AppError {
    pub fn invalid_input(msg: &str) -> (r: Self)
        ensures
            is_invalid_input(r, msg@),
    {
        AppError::InvalidInput(String::from_str(msg))
    }

    pub fn not_found(msg: &str) -> (r: Self)
        ensures
            is_not_found(r, msg@),
    {
        AppError::NotFound(String::from_str(msg))
    }

    pub fn forbidden(msg: &str) -> (r: Self)
        ensures
            is_forbidden(r, msg@),
    {
        AppError::Forbidden(String::from_str(msg))
    }

    /// The HTTP status code of this error.
    pub fn status_code(&self) -> (r: u16)
        ensures
            r == status_of(*self),
    {
        match self {
            AppError::InternalError => 500,
            AppError::InvalidInput(_) => 400,
            AppError::Auth => 401,
            AppError::NotFound(_) => 404,
            AppError::Forbidden(_) => 403,
            AppError::Database(_) => 500,
        }
    }

    /// The message of this error, as shown to the client.
    pub fn message(&self) -> (r: String)
        ensures
            r@ == message_of(*self),
    {
        match self {
            AppError::InternalError => String::from_str("Internal Server Error"),
            AppError::InvalidInput(m) => m.clone(),
            AppError::Auth => String::from_str("Unauthorized"),
            AppError::NotFound(m) => m.clone(),
            AppError::Forbidden(m) => m.clone(),
            AppError::Database(_) => String::from_str("Internal Server Error"),
        }
    }
}

} // verus!
