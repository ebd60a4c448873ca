//! The domain: users, their roles, sessions, the claims an access token
//! carries, and what is known of an incoming request.
use crate::encoding::new_random_uuid;
use crate::ids::{SessionId, UserId};
use crate::instant::{is_instant, is_span, now_utc};
use crate::text::text_equals;
use vstd::prelude::*;

verus! {

/// The role a user has.
#[derive(Debug, Clone, Copy, PartialEq, Eq, Structural)]
pub enum UserType {
    Admin,
    Normal,
}

/// The role of a user as the persistence layer names it.
pub type UserRole = UserType;

/// The name under which a role is written.
pub open spec fn user_type_name(t: UserType) -> Seq<char> {
    match t {
        UserType::Admin => "admin"@,
        UserType::Normal => "normal"@,
    }
}

/// The role written under a name, if any.
pub open spec fn user_type_named(name: Seq<char>) -> Option<UserType> {
    if name == "admin"@ {
        Some(UserType::Admin)
    } else if name == "normal"@ {
        Some(UserType::Normal)
    } else {
        None
    }
}

impl UserType {
    /// The name of the role: `"admin"` or `"normal"`.
    pub fn as_str(&self) -> (s: &str)
        ensures
            s@ == user_type_name(*self),
    {
        match self {
            UserType::Admin => "admin",
            UserType::Normal => "normal",
        }
    }

    /// The role named by `value`; `Err("Unknown user type")` for any other
    /// text.
    pub fn try_from(value: &str) -> (r: Result<UserType, &'static str>)
        ensures
            match user_type_named(value@) {
                Some(t) => r == Ok::<UserType, &'static str>(t),
                None => r matches Err(msg) && msg@ == "Unknown user type"@,
            },
    {
        if text_equals(value, "admin") {
            Ok(UserType::Admin)
        } else if text_equals(value, "normal") {
            Ok(UserType::Normal)
        } else {
            Err("Unknown user type")
        }
    }
}

/// Reading the name of a role gives the role back.
pub proof fn law_user_type_name_round_trip(t: UserType)
    ensures
        user_type_named(user_type_name(t)) == Some(t),
{
    reveal_strlit("admin");
    reveal_strlit("normal");
    assert("admin"@ != "normal"@) by {
        assert("admin"@.len() != "normal"@.len());
    }
}

/// A registered user.
pub struct User {
    pub uid: UserId,
    pub uname: String,
    pub email: String,
    pub password_hash: String,
    /// Nanoseconds since the Unix epoch.
    pub created_at: i128,
    pub role: UserType,
    pub mfa: bool,
}

/// A user about to be stored; the store assigns id and creation time.
pub struct NewUser {
    pub name: String,
    pub email: String,
    pub password_hash: String,
    pub role: Option<UserType>,
}

/// The changes a user asks for; `None` leaves a field as it is.
pub struct UpdateUserCommand {
    pub username: Option<String>,
    pub email: Option<String>,
    pub new_password: Option<String>,
    pub mfa: Option<bool>,
}

/// The full new state of a user's editable fields.
pub struct UpdatedUser {
    pub id: UserId,
    pub name: String,
    pub email: String,
    pub password_hash: String,
    pub is_mfa_enabled: bool,
    pub role: UserType,
}

/// A login session, found again through the hash of its refresh token.
pub struct Session {
    pub id: SessionId,
    pub uid: UserId,
    pub token_hash: String,
    pub created_at: i128,
    pub expires_at: i128,
    pub last_seen_at: i128,
    pub revoked_at: Option<i128>,
    pub user_agent: Option<String>,
    pub ip_address: Option<String>,
}

/// A session about to be stored; the store assigns id and timestamps.
pub struct NewSession {
    pub uid: UserId,
    pub token_hash: String,
    pub expires_at: i128,
    pub revoked_at: Option<i128>,
    pub user_agent: Option<String>,
    pub ip_address: Option<String>,
}

/// A session may still be used at `now`: it was not revoked and its expiry
/// lies after `now`.
pub open spec fn session_is_live(s: Session, now: int) -> bool {
    s.revoked_at is None && s.expires_at > now
}

/// The two kinds of token handed out.
#[derive(Debug, Clone, Copy, PartialEq, Eq, Structural)]
pub enum TokenType {
    Access,
    Refresh,
}

/// What an access token states: who issued it, for whom (`sub`, the user's
/// id), for which session (`sid`), when it was issued and when it expires.
pub struct Claims {
    pub jti: u128,
    pub iss: String,
    pub sub: u128,
    pub iat: i128,
    pub exp: i128,
    pub aud: String,
    pub sid: u128,
    pub is_admin: bool,
}

impl Claims {
    /// Claims with the given identifier, issued at `now` and expiring
    /// `expires_in` nanoseconds later.
    pub fn issued_at(
        jti: u128,
        iss: String,
        sub: u128,
        sid: u128,
        aud: String,
        now: i128,
        expires_in: i128,
    ) -> (c: Claims)
        requires
            is_instant(now as int),
            is_span(expires_in as int),
        ensures
            c.jti == jti,
            c.iss == iss,
            c.sub == sub,
            c.sid == sid,
            c.aud == aud,
            c.iat == now,
            c.exp == now + expires_in,
            !c.is_admin,
    {
        Claims { jti, iss, sub, iat: now, exp: now + expires_in, aud, sid, is_admin: false }
    }

    /// Fresh claims: a random identifier, issued now, expiring `expires_in`
    /// nanoseconds later. No user is an administrator yet.
    pub fn new(iss: String, sub: u128, sid: u128, aud: String, expires_in: i128) -> (c: Claims)
        requires
            is_span(expires_in as int),
        ensures
            c.iss == iss,
            c.sub == sub,
            c.sid == sid,
            c.aud == aud,
            is_instant(c.iat as int),
            c.exp == c.iat + expires_in,
            !c.is_admin,
    {
        let now = now_utc();
        let jti = new_random_uuid();
        Claims::issued_at(jti, iss, sub, sid, aud, now, expires_in)
    }
}

/// What is known of the request being served.
pub struct RequestInfo {
    pub url: String,
    pub user_agent: Option<String>,
    pub ip: Option<String>,
}

} // verus!
