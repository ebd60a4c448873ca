//! Reading and editing users, and granting administrator rights.
use crate::auth_service::AuthService;
use crate::crypto::{argon2_accepts, phc_parses};
use crate::errors::{AdminError, UserError, UserRepositoryError};
use crate::model::{UpdateUserCommand, UpdatedUser, User, UserType};
use crate::text::{is_blank, is_blank_text};
use vstd::prelude::*;

verus! {

/// Why an edit is refused before anything is hashed or stored, if it is.
pub open spec fn update_refusal(cmd: UpdateUserCommand) -> Option<Seq<char>> {
    if cmd.username is None && cmd.email is None && cmd.new_password is None && cmd.mfa is None {
        Some("no fields to update"@)
    } else if cmd.username matches Some(n) && is_blank(n@) {
        Some("username is empty"@)
    } else if cmd.email matches Some(e) && is_blank(e@) {
        Some("email is empty"@)
    } else if cmd.new_password matches Some(p) && is_blank(p@) {
        Some("password is empty"@)
    } else {
        None
    }
}

/// `updated` is `existing` with the edits of `cmd` applied: each field the
/// command names takes the new value (a new password as its hash), every
/// other field is kept.
pub open spec fn applies_update(existing: User, cmd: UpdateUserCommand, updated: UpdatedUser) -> bool {
    &&& updated.id == existing.uid
    &&& updated.name == match cmd.username {
        Some(n) => n,
        None => existing.uname,
    }
    &&& updated.email == match cmd.email {
        Some(e) => e,
        None => existing.email,
    }
    &&& match cmd.new_password {
        Some(p) => phc_parses(updated.password_hash@) && argon2_accepts(
            vstd::utf8::encode_utf8(p@),
            updated.password_hash@,
        ),
        None => updated.password_hash == existing.password_hash,
    }
    &&& updated.is_mfa_enabled == match cmd.mfa {
        Some(m) => m,
        None => existing.mfa,
    }
    &&& updated.role == existing.role
}

/// Reads and edits users.
pub struct UserService {
    pub auth_service: AuthService,
}

impl UserService {
    pub fn new(auth_service: AuthService) -> (s: UserService)
        ensures
            s.auth_service == auth_service,
    {
        UserService { auth_service }
    }

    /// The user the store found under an id; none found is "not found".
    pub fn get_user(found: Result<Option<User>, UserRepositoryError>) -> (r: Result<User, UserError>)
        ensures
            match found {
                Err(e) => r == Err::<User, UserError>(UserError::Repo(e)),
                Ok(None) => r matches Err(UserError::NotFound),
                Ok(Some(u)) => r == Ok::<User, UserError>(u),
            },
    {
        match found {
            Err(e) => Err(UserError::Repo(e)),
            Ok(None) => Err(UserError::NotFound),
            Ok(Some(u)) => Ok(u),
        }
    }

    /// The new state of a user after an edit. An edit that names no field,
    /// or sets a blank name, email or password, is refused; a new password
    /// is stored as its Argon2 hash.
    pub fn update_user(&self, existing: User, cmd: UpdateUserCommand) -> (r: Result<
        UpdatedUser,
        UserError,
    >)
        ensures
            match update_refusal(cmd) {
                Some(m) => r matches Err(UserError::Validation(v)) && v@ == m,
                None => {
                    &&& (r matches Ok(u) ==> applies_update(existing, cmd, u))
                    &&& (r matches Err(e) ==> cmd.new_password is Some && (e matches UserError::Validation(
                        v,
                    ) && v@ == "password is invalid"@))
                },
            },
    {
        if cmd.username.is_none() && cmd.email.is_none() && cmd.new_password.is_none()
            && cmd.mfa.is_none() {
            return Err(UserError::Validation("no fields to update".to_string()));
        }
        let name = match cmd.username {
            Some(name) => {
                if is_blank_text(name.as_str()) {
                    return Err(UserError::Validation("username is empty".to_string()));
                }
                name
            },
            None => existing.uname,
        };
        let email = match cmd.email {
            Some(email) => {
                if is_blank_text(email.as_str()) {
                    return Err(UserError::Validation("email is empty".to_string()));
                }
                email
            },
            None => existing.email,
        };
        let password_hash = match cmd.new_password {
            Some(password) => {
                if is_blank_text(password.as_str()) {
                    return Err(UserError::Validation("password is empty".to_string()));
                }
                match self.auth_service.hash_password(password.as_str()) {
                    Ok(h) => h,
                    Err(_) => {
                        return Err(UserError::Validation("password is invalid".to_string()));
                    },
                }
            },
            None => existing.password_hash,
        };
        let mfa = match cmd.mfa {
            Some(mfa) => mfa,
            None => existing.mfa,
        };
        Ok(
            UpdatedUser {
                id: existing.uid,
                name,
                email,
                password_hash,
                is_mfa_enabled: mfa,
                role: existing.role,
            },
        )
    }
}

/// Grants administrator rights.
pub struct AdminService {}

impl AdminService {
    pub fn new() -> (s: AdminService) {
        AdminService {  }
    }

    /// The change that makes a user an administrator: the role becomes
    /// `Admin`, every other field stays as stored.
    pub fn elevation(&self, user: User) -> (change: UpdatedUser)
        ensures
            change.id == user.uid,
            change.name == user.uname,
            change.email == user.email,
            change.password_hash == user.password_hash,
            change.is_mfa_enabled == user.mfa,
            change.role == UserType::Admin,
    {
        UpdatedUser {
            id: user.uid,
            name: user.uname,
            email: user.email,
            password_hash: user.password_hash,
            is_mfa_enabled: user.mfa,
            role: UserType::Admin,
        }
    }

    /// The outcome of storing an elevated user: any store failure is
    /// unexpected.
    pub fn elevate_user(&self, stored: Result<User, UserRepositoryError>) -> (r: Result<
        User,
        AdminError,
    >)
        ensures
            match stored {
                Ok(u) => r == Ok::<User, AdminError>(u),
                Err(_) => r matches Err(AdminError::Unexpected),
            },
    {
        match stored {
            Ok(u) => Ok(u),
            Err(_) => Err(AdminError::Unexpected),
        }
    }
}

/// An edit changes only what it names: every field the command leaves out
/// keeps its value.
pub proof fn law_update_keeps_unnamed_fields(existing: User, cmd: UpdateUserCommand, updated: UpdatedUser)
    requires
        applies_update(existing, cmd, updated),
    ensures
        updated.id == existing.uid,
        cmd.username is None ==> updated.name == existing.uname,
        cmd.email is None ==> updated.email == existing.email,
        cmd.new_password is None ==> updated.password_hash == existing.password_hash,
        cmd.mfa is None ==> updated.is_mfa_enabled == existing.mfa,
        updated.role == existing.role,
{
}

} // verus!
