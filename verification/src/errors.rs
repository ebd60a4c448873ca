//! Errors of the repositories and services, and how one layer's errors
//! become the next layer's.
use vstd::prelude::*;

verus! {

/// Failures of the user store.
pub enum UserRepositoryError {
    NotFound,
    Conflict,
    Unexpected(String),
}

/// Failures of the session store.
pub enum SessionRepositoryError {
    NotFound,
    Conflict,
    Unexpected(String),
}

/// What the database reported for a failed statement: a violated unique
/// constraint, or anything else with its description.
pub enum DbFailure {
    UniqueViolation,
    Other(String),
}

impl UserRepositoryError {
    /// A violated unique constraint is a conflict; anything else is
    /// unexpected and keeps its description.
    pub fn from_db_failure(failure: DbFailure) -> (e: UserRepositoryError)
        ensures
            match failure {
                DbFailure::UniqueViolation => e is Conflict,
                DbFailure::Other(msg) => e == UserRepositoryError::Unexpected(msg),
            },
    {
        match failure {
            DbFailure::UniqueViolation => UserRepositoryError::Conflict,
            DbFailure::Other(msg) => UserRepositoryError::Unexpected(msg),
        }
    }
}

impl SessionRepositoryError {
    /// A violated unique constraint is a conflict; anything else is
    /// unexpected and keeps its description.
    pub fn from_db_failure(failure: DbFailure) -> (e: SessionRepositoryError)
        ensures
            match failure {
                DbFailure::UniqueViolation => e is Conflict,
                DbFailure::Other(msg) => e == SessionRepositoryError::Unexpected(msg),
            },
    {
        match failure {
            DbFailure::UniqueViolation => SessionRepositoryError::Conflict,
            DbFailure::Other(msg) => SessionRepositoryError::Unexpected(msg),
        }
    }

    /// A delete that removed no row means the session did not exist.
    pub fn check_deleted(deleted: usize) -> (r: Result<(), SessionRepositoryError>)
        ensures
            deleted == 0 <==> r matches Err(SessionRepositoryError::NotFound),
            deleted != 0 <==> r is Ok,
    {
        if deleted == 0 {
            Err(SessionRepositoryError::NotFound)
        } else {
            Ok(())
        }
    }
}

/// Failures of the session service.
pub enum SessionError {
    NotFound,
    Forbidden,
    SessionRepo(SessionRepositoryError),
    Unexpected,
}

impl SessionError {
    /// A missing session stays "not found"; every other store failure is
    /// passed on as it is.
    pub fn from_repo(error: SessionRepositoryError) -> (e: SessionError)
        ensures
            match error {
                SessionRepositoryError::NotFound => e is NotFound,
                _ => e == SessionError::SessionRepo(error),
            },
    {
        match error {
            SessionRepositoryError::NotFound => SessionError::NotFound,
            SessionRepositoryError::Conflict => SessionError::SessionRepo(error),
            SessionRepositoryError::Unexpected(_) => SessionError::SessionRepo(error),
        }
    }
}

/// Failures of the token service.
pub enum TokenError {
    Unexpected(&'static str),
    InvalidToken(String),
}

/// Failures of the user service.
pub enum UserError {
    NotFound,
    Repo(UserRepositoryError),
    Unexpected(String),
    Validation(String),
}

/// Failures of the admin service.
pub enum AdminError {
    Unexpected,
}

/// Failures of the authentication service.
pub enum AuthError {
    Validation(String),
    InvalidCredentials(String),
    EmailAlreadyExists,
    UserRepo(UserRepositoryError),
    SessionRepo(SessionRepositoryError),
    /// Hashing a password failed; the hasher's description.
    Hash(String),
    /// A stored password hash could not be read; the parser's description.
    HashParse(String),
    Authentication,
    Unexpected(String),
    Token(TokenError),
    InvalidSession,
}

} // verus!
