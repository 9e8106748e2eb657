//! Unified error of the HTTP handlers, answered as `{ "error": { "code", "message" } }`.
use vstd::prelude::*;
use vstd::string::*;

verus! {

/// Unified application error type that maps to JSON HTTP responses.
#[derive(Debug, Clone, PartialEq, Eq)]
pub enum AppError {
    /// 400 Bad Request
    BadRequest(String),
    /// 401 Unauthorized
    Unauthorized(String),
    /// 403 Forbidden
    Forbidden(String),
    /// 404 Not Found
    NotFound(String),
    /// 409 Conflict
    Conflict(String),
    /// 413 Payload Too Large
    PayloadTooLarge(String),
    /// 422 Unprocessable Entity (code `VALIDATION_ERROR`)
    UnprocessableEntity(String),
    /// 422 Unprocessable Entity with explicit error code
    Unprocessable(String, String),
    /// 500 Internal Server Error: the description is logged, never sent
    Internal(String),
}

/// HTTP status of each error.
pub open spec fn spec_status(e: AppError) -> u16 {
    match e {
        AppError::BadRequest(_) => 400,
        AppError::Unauthorized(_) => 401,
        AppError::Forbidden(_) => 403,
        AppError::NotFound(_) => 404,
        AppError::Conflict(_) => 409,
        AppError::PayloadTooLarge(_) => 413,
        AppError::UnprocessableEntity(_) | AppError::Unprocessable(_, _) => 422,
        AppError::Internal(_) => 500,
    }
}

/// Error code of each error.
pub open spec fn spec_code(e: AppError) -> Seq<char> {
    match e {
        AppError::BadRequest(_) => "BAD_REQUEST"@,
        AppError::Unauthorized(_) => "UNAUTHORIZED"@,
        AppError::Forbidden(_) => "FORBIDDEN"@,
        AppError::NotFound(_) => "NOT_FOUND"@,
        AppError::Conflict(_) => "CONFLICT"@,
        AppError::PayloadTooLarge(_) => "PAYLOAD_TOO_LARGE"@,
        AppError::UnprocessableEntity(_) => "VALIDATION_ERROR"@,
        AppError::Unprocessable(code, _) => code@,
        AppError::Internal(_) => "INTERNAL_ERROR"@,
    }
}

/// Message sent for each error; an internal error's description is never sent.
pub open spec fn spec_message(e: AppError) -> Seq<char> {
    match e {
        AppError::BadRequest(m) | AppError::Unauthorized(m) | AppError::Forbidden(m)
        | AppError::NotFound(m) | AppError::Conflict(m) | AppError::PayloadTooLarge(m)
        | AppError::UnprocessableEntity(m) | AppError::Unprocessable(_, m) => m@,
        AppError::Internal(_) => "An internal error occurred"@,
    }
}

impl AppError {
    /// The HTTP answer: status, error code and message.
    pub fn response_parts(&self) -> (r: (u16, String, String))
        ensures
            r.0 == spec_status(*self),
            r.1@ == spec_code(*self),
            r.2@ == spec_message(*self),
    {
        match self {
            AppError::BadRequest(m) => (400, String::from_str("BAD_REQUEST"), m.clone()),
            AppError::Unauthorized(m) => (401, String::from_str("UNAUTHORIZED"), m.clone()),
            AppError::Forbidden(m) => (403, String::from_str("FORBIDDEN"), m.clone()),
            AppError::NotFound(m) => (404, String::from_str("NOT_FOUND"), m.clone()),
            AppError::Conflict(m) => (409, String::from_str("CONFLICT"), m.clone()),
            AppError::PayloadTooLarge(m) => (413, String::from_str("PAYLOAD_TOO_LARGE"), m.clone()),
            AppError::UnprocessableEntity(m) => (422, String::from_str("VALIDATION_ERROR"), m.clone()),
            AppError::Unprocessable(code, m) => (422, code.clone(), m.clone()),
            AppError::Internal(_) => (
                500,
                String::from_str("INTERNAL_ERROR"),
                String::from_str("An internal error occurred"),
            ),
        }
    }
}

}
