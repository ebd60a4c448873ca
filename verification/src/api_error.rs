//! The errors the HTTP API answers with: each is a status code and a
//! message carried in an `ErrorBody`.
use crate::errors::{AdminError, AuthError, SessionError, UserError};
use vstd::prelude::*;

verus! {

/// The JSON body of an error answer.
pub struct ErrorBody {
    pub message: String,
}

impl ErrorBody {
    pub fn new(message: String) -> (b: ErrorBody)
        ensures
            b.message == message,
    {
        ErrorBody { message }
    }
}

/// An error answer of the API.
pub enum ApiError {
    BadRequest(String),
    Unauthorized(String),
    Forbidden(String),
    Conflict(String),
    InternalServerError(String),
    NotFound,
}

impl View for ApiError {
    /// The HTTP status code and the message of the error body.
    type V = (u16, Seq<char>);

    open spec fn view(&self) -> (u16, Seq<char>) {
        match self {
            ApiError::BadRequest(m) => (400, m@),
            ApiError::Unauthorized(m) => (401, m@),
            ApiError::Forbidden(m) => (403, m@),
            ApiError::Conflict(m) => (409, m@),
            ApiError::InternalServerError(m) => (500, m@),
            ApiError::NotFound => (404, "Not found"@),
        }
    }
}

/// How the API answers a failure of the authentication service.
pub open spec fn auth_error_answer(error: AuthError) -> (u16, Seq<char>) {
    match error {
        AuthError::Authentication => (401, "Unauthorized"@),
        AuthError::EmailAlreadyExists => (409, "user with that email already exists"@),
        AuthError::InvalidCredentials(_) => (401, "Invalid email or password"@),
        AuthError::Validation(_) => (401, "Invalid email or password"@),
        AuthError::Token(_) => (401, "Token error"@),
        AuthError::InvalidSession => (401, "Session error"@),
        _ => (500, "Internal server error"@),
    }
}

/// How the API answers a failure of the session service.
pub open spec fn session_error_answer(error: SessionError) -> (u16, Seq<char>) {
    match error {
        SessionError::NotFound => (404, "Not found"@),
        SessionError::Forbidden => (403, "Forbidden"@),
        _ => (500, "Internal server error"@),
    }
}

/// How the API answers a failure of the user service.
pub open spec fn user_error_answer(error: UserError) -> (u16, Seq<char>) {
    match error {
        UserError::NotFound => (404, "Not found"@),
        UserError::Validation(m) => (400, m@),
        _ => (500, "Internal server error"@),
    }
}

impl ApiError {
    /// The answer to a failure of the authentication service: bad
    /// credentials, tokens and sessions are unauthorized, a taken email is
    /// a conflict, anything else is an internal error.
    pub fn from_auth_error(error: AuthError) -> (r: ApiError)
        ensures
            r@ == auth_error_answer(error),
    {
        match error {
            AuthError::Authentication => ApiError::Unauthorized("Unauthorized".to_string()),
            AuthError::EmailAlreadyExists => ApiError::Conflict(
                "user with that email already exists".to_string(),
            ),
            AuthError::InvalidCredentials(_) | AuthError::Validation(_) => ApiError::Unauthorized(
                "Invalid email or password".to_string(),
            ),
            AuthError::UserRepo(_)
            | AuthError::SessionRepo(_)
            | AuthError::Hash(_)
            | AuthError::Unexpected(_)
            | AuthError::HashParse(_) => ApiError::InternalServerError(
                "Internal server error".to_string(),
            ),
            AuthError::Token(_) => ApiError::Unauthorized("Token error".to_string()),
            AuthError::InvalidSession => ApiError::Unauthorized("Session error".to_string()),
        }
    }

    /// The answer to a failure of the session service.
    pub fn from_session_error(error: SessionError) -> (r: ApiError)
        ensures
            r@ == session_error_answer(error),
    {
        match error {
            SessionError::NotFound => ApiError::NotFound,
            SessionError::Forbidden => ApiError::Forbidden("Forbidden".to_string()),
            SessionError::SessionRepo(_) | SessionError::Unexpected => ApiError::InternalServerError(
                "Internal server error".to_string(),
            ),
        }
    }

    /// The answer to a failure of the user service: a missing user is not
    /// found, a refused edit is a bad request, anything else is internal.
    pub fn from_user_error(error: UserError) -> (r: ApiError)
        ensures
            r@ == user_error_answer(error),
    {
        match error {
            UserError::NotFound => ApiError::NotFound,
            UserError::Validation(m) => ApiError::BadRequest(m),
            UserError::Repo(_) | UserError::Unexpected(_) => ApiError::InternalServerError(
                "Internal server error".to_string(),
            ),
        }
    }

    /// The answer to a failure of the admin service: always internal.
    pub fn from_admin_error(error: AdminError) -> (r: ApiError)
        ensures
            r@ == (500u16, "Internal server error"@),
    {
        match error {
            AdminError::Unexpected => ApiError::InternalServerError(
                "Internal server error".to_string(),
            ),
        }
    }

    /// The status code and body the error is answered with.
    pub fn into_response_parts(self) -> (r: (u16, ErrorBody))
        ensures
            (r.0, r.1.message@) == self@,
    {
        match self {
            ApiError::BadRequest(msg) => (400, ErrorBody::new(msg)),
            ApiError::InternalServerError(msg) => (500, ErrorBody::new(msg)),
            ApiError::Unauthorized(msg) => (401, ErrorBody::new(msg)),
            ApiError::Conflict(msg) => (409, ErrorBody::new(msg)),
            ApiError::Forbidden(msg) => (403, ErrorBody::new(msg)),
            ApiError::NotFound => (404, ErrorBody::new("Not found".to_string())),
        }
    }
}

/// No failure of the authentication service is answered with details of
/// the store or of hashing: every answer is one of five fixed messages,
/// and only a taken email, a bad login or token, or an internal failure is
/// reported.
pub proof fn law_auth_errors_hide_internals(error: AuthError)
    ensures
        auth_error_answer(error).0 == 401 || auth_error_answer(error).0 == 409
            || auth_error_answer(error) == (500u16, "Internal server error"@),
        auth_error_answer(error).0 == 401 ==> (auth_error_answer(error).1 == "Unauthorized"@
            || auth_error_answer(error).1 == "Invalid email or password"@
            || auth_error_answer(error).1 == "Token error"@ || auth_error_answer(error).1
            == "Session error"@),
{
}

/// An unknown email, a wrong password and a malformed login are answered
/// alike, whatever their messages: the client cannot tell them apart.
pub proof fn law_bad_logins_look_alike(unknown: String, wrong: String, malformed: String)
    ensures
        auth_error_answer(AuthError::InvalidCredentials(unknown)) == (
            401u16,
            "Invalid email or password"@,
        ),
        auth_error_answer(AuthError::InvalidCredentials(wrong))
            == auth_error_answer(AuthError::Validation(malformed)),
{
}

} // verus!
