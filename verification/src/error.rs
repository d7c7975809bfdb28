//! The API's error type and its mapping to HTTP status, wire code and
//! details.
use vstd::prelude::*;
use vstd::string::*;

verus! {

/// Every way a request can fail. `Internal` and `Database` carry the text of
/// the underlying failure; the HTTP layer builds them from its own errors.
#[derive(Debug)]
pub enum ApiError {
    Unauthenticated,
    Forbidden,
    NotFound,
    Validation { field: String, reason: String },
    Conflict,
    StaleWrite,
    RateLimited,
    FkViolation(String),
    CursorFilterMismatch,
    Internal(String),
    Sqlx(String),
}

/// Structured details attached to an error body.
#[derive(Debug)]
pub enum ErrorDetails {
    /// `{"field": .., "reason": ..}`
    Field { field: String, reason: String },
    /// `{"detail": ..}`
    Detail(String),
}

/// Whether `e` is the validation error for `field` with `reason`.
pub open spec fn is_validation(e: ApiError, field: Seq<char>, reason: Seq<char>) -> bool {
    e matches ApiError::Validation { field: f, reason: r } && f@ == field && r@ == reason
}

/// The HTTP status of each error.
pub open spec fn status_of(e: ApiError) -> u16 {
    match e {
        ApiError::Unauthenticated => 401,
        ApiError::Forbidden => 403,
        ApiError::NotFound => 404,
        ApiError::Validation { .. } => 400,
        ApiError::Conflict => 409,
        ApiError::StaleWrite => 409,
        ApiError::RateLimited => 429,
        ApiError::FkViolation(_) => 409,
        ApiError::CursorFilterMismatch => 400,
        ApiError::Internal(_) => 500,
        ApiError::Sqlx(_) => 500,
    }
}

/// The machine-readable code of each error.
pub open spec fn code_of(e: ApiError) -> Seq<char> {
    match e {
        ApiError::Unauthenticated => "UNAUTHENTICATED"@,
        ApiError::Forbidden => "FORBIDDEN"@,
        ApiError::NotFound => "NOT_FOUND"@,
        ApiError::Validation { .. } => "VALIDATION_ERROR"@,
        ApiError::Conflict => "CONFLICT"@,
        ApiError::StaleWrite => "STALE_WRITE"@,
        ApiError::RateLimited => "RATE_LIMITED"@,
        ApiError::FkViolation(_) => "FK_VIOLATION"@,
        ApiError::CursorFilterMismatch => "CURSOR_FILTER_MISMATCH"@,
        ApiError::Internal(_) => "INTERNAL"@,
        ApiError::Sqlx(_) => "INTERNAL"@,
    }
}

/// The human-readable message of each error.
pub open spec fn message_of(e: ApiError) -> Seq<char> {
    match e {
        ApiError::Unauthenticated => "unauthenticated"@,
        ApiError::Forbidden => "forbidden"@,
        ApiError::NotFound => "not found"@,
        ApiError::Validation { field, reason } => "validation: "@ + field@ + ": "@ + reason@,
        ApiError::Conflict => "conflict"@,
        ApiError::StaleWrite => "stale write"@,
        ApiError::RateLimited => "rate limited"@,
        ApiError::FkViolation(d) => "foreign key violation: "@ + d@,
        ApiError::CursorFilterMismatch => "cursor filter mismatch"@,
        ApiError::Internal(m) => m@,
        ApiError::Sqlx(m) => m@,
    }
}

/// A validation error for `field` with `reason`.
pub fn validation(field: &str, reason: &str) -> (e: ApiError)
    ensures
        is_validation(e, field@, reason@),
{
    ApiError::Validation { field: String::from_str(field), reason: String::from_str(reason) }
}

impl ApiError {
    /// HTTP status, wire code and optional details of this error.
    pub fn parts(&self) -> (r: (u16, &'static str, Option<ErrorDetails>))
        ensures
            r.0 == status_of(*self),
            r.1@ == code_of(*self),
            match *self {
                ApiError::Validation { field, reason } => r.2 matches Some(
                    ErrorDetails::Field { field: f, reason: rs },
                ) && f@ == field@ && rs@ == reason@,
                ApiError::FkViolation(d) => r.2 matches Some(ErrorDetails::Detail(x)) && x@ == d@,
                _ => r.2 is None,
            },
    {
        match self {
            ApiError::Unauthenticated => (401, "UNAUTHENTICATED", None),
            ApiError::Forbidden => (403, "FORBIDDEN", None),
            ApiError::NotFound => (404, "NOT_FOUND", None),
            ApiError::Validation { field, reason } => (
                400,
                "VALIDATION_ERROR",
                Some(ErrorDetails::Field { field: field.clone(), reason: reason.clone() }),
            ),
            ApiError::Conflict => (409, "CONFLICT", None),
            ApiError::StaleWrite => (409, "STALE_WRITE", None),
            ApiError::RateLimited => (429, "RATE_LIMITED", None),
            ApiError::FkViolation(d) => (409, "FK_VIOLATION", Some(ErrorDetails::Detail(d.clone()))),
            ApiError::CursorFilterMismatch => (400, "CURSOR_FILTER_MISMATCH", None),
            ApiError::Internal(_) => (500, "INTERNAL", None),
            ApiError::Sqlx(_) => (500, "INTERNAL", None),
        }
    }

    /// Whether the error is an internal one (logged by the HTTP layer).
    pub fn is_internal(&self) -> (r: bool)
        ensures
            r == (*self is Internal || *self is Sqlx),
    {
        match self {
            ApiError::Internal(_) | ApiError::Sqlx(_) => true,
            _ => false,
        }
    }

    /// The message shown to clients.
    pub fn message(&self) -> (m: String)
        ensures
            m@ == message_of(*self),
    {
        match self {
            ApiError::Unauthenticated => String::from_str("unauthenticated"),
            ApiError::Forbidden => String::from_str("forbidden"),
            ApiError::NotFound => String::from_str("not found"),
            ApiError::Validation { field, reason } => {
                let mut m = String::from_str("validation: ");
                m.append(field.as_str());
                m.append(": ");
                m.append(reason.as_str());
                m
            },
            ApiError::Conflict => String::from_str("conflict"),
            ApiError::StaleWrite => String::from_str("stale write"),
            ApiError::RateLimited => String::from_str("rate limited"),
            ApiError::FkViolation(d) => {
                let mut m = String::from_str("foreign key violation: ");
                m.append(d.as_str());
                m
            },
            ApiError::CursorFilterMismatch => String::from_str("cursor filter mismatch"),
            ApiError::Internal(inner) => inner.clone(),
            ApiError::Sqlx(inner) => inner.clone(),
        }
    }
}

} // verus!
