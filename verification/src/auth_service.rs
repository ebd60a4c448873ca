//! Registration, login, logout and access-token checks.
//!
//! The store is reached by the caller: each step here takes what the store
//! answered and says what to do next.
use crate::crypto::{
    argon2_accepts, check_password, hash_password_text, is_opaque_token, phc_parse_failure,
    phc_parses, token_digest, PasswordCheck, TokenHandler,
};
use crate::errors::{AuthError, SessionRepositoryError, TokenError, UserRepositoryError};
use crate::instant::{is_instant, now_utc, NANOS_PER_DAY, NANOS_PER_HOUR};
use crate::ids::SessionId;
use crate::model::{session_is_live, Claims, NewSession, NewUser, Session, User};
use crate::text::{is_blank, is_blank_text, text_equals};
use crate::claims_text::claims_text;
use crate::token_service::{
    SESSION_ABSOLUTE_LIFETIME, fresh_claims, hs256_claims_text, hs256_jwt, rotated_at, signed_as, RotatedRefreshToken,
    TokenService,
};
use vstd::prelude::*;

verus! {

/// The issuer written into, and required of, every access token.
pub const ISSUER_NAME: &'static str = "AUTH_SERVER";

/// A login session lasts 30 days unless refreshed.
pub const REFRESH_SESSION_LIFETIME: i128 = 30 * NANOS_PER_DAY;

/// An access token is valid for one hour.
pub const ACCESS_TOKEN_LIFETIME: i128 = NANOS_PER_HOUR;

/// The number of UTF-8 bytes of a text (what `str::len` counts).
pub open spec fn byte_len(s: Seq<char>) -> nat {
    vstd::utf8::encode_utf8(s).len()
}

/// Why a registration is refused before anything is stored, if it is.
pub open spec fn registration_refusal(email: Seq<char>, username: Seq<char>, password: Seq<char>) -> Option<
    Seq<char>,
> {
    if is_blank(email) {
        Some("Email is empty"@)
    } else if is_blank(username) {
        Some("Username is empty"@)
    } else if byte_len(password) < 8 {
        Some("Password is too short"@)
    } else {
        None
    }
}

/// Why a login is refused before the user is looked up, if it is.
pub open spec fn login_refusal(email: Seq<char>, password: Seq<char>) -> Option<Seq<char>> {
    if is_blank(email) {
        Some("Email is empty"@)
    } else if byte_len(password) < 8 {
        Some("Password is too short"@)
    } else {
        None
    }
}

/// A stored user lets `password` in: the stored hash is readable and
/// Argon2 accepts the password against it.
pub open spec fn password_matches(user: User, password: Seq<char>) -> bool {
    phc_parses(user.password_hash@) && argon2_accepts(
        vstd::utf8::encode_utf8(password),
        user.password_hash@,
    )
}

/// The lookup found the session, and it is live at `now`.
pub open spec fn live_session_found(
    lookup: Result<Option<Session>, SessionRepositoryError>,
    now: int,
) -> bool {
    lookup matches Ok(Some(s)) && session_is_live(s, now)
}

/// Whom an access token admits at `now`: the user and session its claims
/// name, when the claims were decoded, their session is live, they have not
/// expired and this server issued them; nobody otherwise.
pub open spec fn admitted(
    decoded: Result<Claims, TokenError>,
    lookup: Result<Option<Session>, SessionRepositoryError>,
    now: int,
) -> Option<(u128, u128)> {
    match decoded {
        Ok(c) => if live_session_found(lookup, now) && now <= c.exp && c.iss@ == ISSUER_NAME@ {
            Some((c.sub, c.sid))
        } else {
            None
        },
        Err(_) => None,
    }
}

/// The session a logout revokes: the one found under the refresh token,
/// and only when it is the session the verified access token names.
pub open spec fn logout_target(
    verified: Result<VerifyResult, AuthError>,
    found: Result<Option<Session>, SessionRepositoryError>,
) -> Option<SessionId> {
    match verified {
        Ok(v) => match found {
            Ok(Some(s)) => if s.id@ == v.sid {
                Some(s.id)
            } else {
                None
            },
            _ => None,
        },
        Err(_) => None,
    }
}

/// Claims this server issues for a session: by `ISSUER_NAME`, to the
/// session's user, naming the session, for `aud`, issued at an instant the
/// clock can show and expiring one hour later, not marking an administrator.
pub open spec fn issued_for(c: Claims, session: Session, aud: String) -> bool {
    &&& c.iss@ == ISSUER_NAME@
    &&& c.sub == session.uid@
    &&& c.sid == session.id@
    &&& c.aud == aud
    &&& is_instant(c.iat as int)
    &&& c.exp == c.iat + ACCESS_TOKEN_LIFETIME
    &&& !c.is_admin
}

/// `r` finishes a login with the access token for the claims `c`: the
/// token `jsonwebtoken` writes for their `claims_text` (which reads back as
/// that text), expiring with them, beside the user and the refresh token;
/// "invalid token" where no token could be written.
pub open spec fn logged_in_with(
    r: Result<LoginResult, AuthError>,
    c: Claims,
    user: User,
    refresh_token: String,
    refresh_expires_at: i128,
    access_secret: Seq<u8>,
) -> bool {
    match hs256_jwt(claims_text(c), access_secret) {
        Some(t) => r matches Ok(res) && res.user == user && res.access_token@ == t
            && res.access_expires_at == c.exp && res.refresh_token == refresh_token
            && res.refresh_expires_at == refresh_expires_at && hs256_claims_text(t, access_secret)
            == Some(claims_text(c)),
        None => r matches Err(AuthError::InvalidCredentials(m)) && m@ == "invalid token"@,
    }
}

/// What a login hands back: the user, a one-hour access token, and the
/// refresh token of the new session.
pub struct LoginResult {
    pub user: User,
    pub access_token: String,
    pub access_expires_at: i128,
    pub refresh_token: String,
    pub refresh_expires_at: i128,
}

/// Who an accepted access token speaks for.
pub struct VerifyResult {
    pub uid: u128,
    pub sid: u128,
}

/// A login whose credentials were accepted: the session to store and the
/// refresh token that will open it.
pub struct LoginPlan {
    pub user: User,
    pub refresh_token: String,
    pub refresh_expires_at: i128,
    pub session: NewSession,
}

/// The session a login at `now` stores for `user` with `refresh_token`:
/// the token's keyed hash, 30 days of life, not revoked.
pub open spec fn plans_session(
    plan: LoginPlan,
    user: User,
    refresh_token: Seq<char>,
    refresh_secret: Seq<u8>,
    now: int,
) -> bool {
    &&& plan.user == user
    &&& plan.refresh_token@ == refresh_token
    &&& plan.refresh_expires_at == now + REFRESH_SESSION_LIFETIME
    &&& plan.session.uid == user.uid
    &&& plan.session.token_hash@ == token_digest(refresh_token, refresh_secret)
    &&& plan.session.expires_at == plan.refresh_expires_at
    &&& plan.session.revoked_at is None
    &&& plan.session.user_agent is None
    &&& plan.session.ip_address is None
}

/// Authenticates users and keeps their sessions.
pub struct AuthService {
    pub token_service: TokenService,
}

impl AuthService {
    pub fn new(token_service: TokenService) -> (s: AuthService)
        ensures
            s.token_service == token_service,
    {
        AuthService { token_service }
    }

    /// Hashes a password for storage; a hash that comes back verifies
    /// against the password.
    pub fn hash_password(&self, password: &str) -> (r: Result<String, AuthError>)
        ensures
            r matches Ok(h) ==> phc_parses(h@) && argon2_accepts(
                vstd::utf8::encode_utf8(password@),
                h@,
            ),
            r matches Err(e) ==> e is Hash,
    {
        match hash_password_text(password) {
            Ok(h) => Ok(h),
            Err(msg) => Err(AuthError::Hash(msg)),
        }
    }

    /// Refuses a registration with a blank email or username, or a password
    /// of fewer than 8 bytes.
    pub fn validate_registration(email: &str, username: &str, password: &str) -> (r: Result<
        (),
        AuthError,
    >)
        ensures
            match registration_refusal(email@, username@, password@) {
                Some(m) => r matches Err(AuthError::Validation(v)) && v@ == m,
                None => r is Ok,
            },
    {
        if is_blank_text(email) {
            return Err(AuthError::Validation("Email is empty".to_string()));
        }
        if is_blank_text(username) {
            return Err(AuthError::Validation("Username is empty".to_string()));
        }
        if password.as_bytes().len() < 8 {
            return Err(AuthError::Validation("Password is too short".to_string()));
        }
        Ok(())
    }

    /// The user to store for a registration: the given name and email and
    /// an Argon2 hash of the password, the role left to the store.
    pub fn register(&self, email: String, username: String, password: String) -> (r: Result<
        NewUser,
        AuthError,
    >)
        ensures
            match registration_refusal(email@, username@, password@) {
                Some(m) => r matches Err(AuthError::Validation(v)) && v@ == m,
                None => {
                    &&& (r matches Ok(u) ==> {
                        &&& u.name == username
                        &&& u.email == email
                        &&& u.role is None
                        &&& phc_parses(u.password_hash@)
                        &&& argon2_accepts(vstd::utf8::encode_utf8(password@), u.password_hash@)
                    })
                    &&& (r matches Err(e) ==> e is Hash)
                },
            },
    {
        match AuthService::validate_registration(email.as_str(), username.as_str(), password.as_str()) {
            Err(e) => return Err(e),
            Ok(()) => {},
        }
        let password_hash = match self.hash_password(password.as_str()) {
            Ok(h) => h,
            Err(e) => return Err(e),
        };
        Ok(NewUser { name: username, email, password_hash, role: None })
    }

    /// The outcome of storing a registered user: an email that is already
    /// taken (the store's unique constraint) is answered as such, any other
    /// store failure is passed on.
    pub fn registration_stored(stored: Result<User, UserRepositoryError>) -> (r: Result<
        User,
        AuthError,
    >)
        ensures
            match stored {
                Ok(u) => r == Ok::<User, AuthError>(u),
                Err(UserRepositoryError::Conflict) => r matches Err(AuthError::EmailAlreadyExists),
                Err(e) => r == Err::<User, AuthError>(AuthError::UserRepo(e)),
            },
    {
        match stored {
            Ok(u) => Ok(u),
            Err(UserRepositoryError::Conflict) => Err(AuthError::EmailAlreadyExists),
            Err(e) => Err(AuthError::UserRepo(e)),
        }
    }

    /// Refuses a login with a blank email or a password of fewer than 8
    /// bytes, before the user is looked up.
    pub fn validate_login(email: &str, password: &str) -> (r: Result<(), AuthError>)
        ensures
            match login_refusal(email@, password@) {
                Some(m) => r matches Err(AuthError::Validation(v)) && v@ == m,
                None => r is Ok,
            },
    {
        if is_blank_text(email) {
            return Err(AuthError::Validation("Email is empty".to_string()));
        }
        if password.as_bytes().len() < 8 {
            return Err(AuthError::Validation("Password is too short".to_string()));
        }
        Ok(())
    }

    /// Checks a password against the user found under the email: no user
    /// and a wrong password are invalid credentials, an unreadable stored
    /// hash is a hash error.
    pub fn check_credentials(password: &str, lookup: Result<Option<User>, UserRepositoryError>) -> (r:
        Result<User, AuthError>)
        ensures
            match lookup {
                Err(e) => r == Err::<User, AuthError>(AuthError::UserRepo(e)),
                Ok(None) => r matches Err(AuthError::InvalidCredentials(m)) && m@
                    == "Email invalid"@,
                Ok(Some(u)) => if !phc_parses(u.password_hash@) {
                    r matches Err(AuthError::HashParse(m)) && phc_parse_failure(u.password_hash@) == Some(m@)
                } else if password_matches(u, password@) {
                    r == Ok::<User, AuthError>(u)
                } else {
                    r matches Err(AuthError::InvalidCredentials(m)) && m@
                        == "invalid email or password"@
                },
            },
    {
        let user = match lookup {
            Err(e) => return Err(AuthError::UserRepo(e)),
            Ok(None) => return Err(AuthError::InvalidCredentials("Email invalid".to_string())),
            Ok(Some(u)) => u,
        };
        match check_password(password, user.password_hash.as_str()) {
            PasswordCheck::Unreadable(msg) => Err(AuthError::HashParse(msg)),
            PasswordCheck::Rejected => Err(
                AuthError::InvalidCredentials("invalid email or password".to_string()),
            ),
            PasswordCheck::Accepted => Ok(user),
        }
    }

    /// The session a login at `now` opens for `user` with `refresh_token`.
    pub fn begin_session(user: User, refresh_token: String, refresh_secret: &[u8], now: i128) -> (plan:
        LoginPlan)
        requires
            is_instant(now as int),
        ensures
            plans_session(plan, user, refresh_token@, refresh_secret@, now as int),
            plan.refresh_token == refresh_token,
    {
        let refresh_token_hash = TokenHandler::hash_token(refresh_token.as_str(), refresh_secret);
        let refresh_expires_at = now + REFRESH_SESSION_LIFETIME;
        let session = NewSession {
            uid: user.uid,
            expires_at: refresh_expires_at,
            token_hash: refresh_token_hash,
            user_agent: None,
            ip_address: None,
            revoked_at: None,
        };
        LoginPlan { user, refresh_token, refresh_expires_at, session }
    }

    /// Logs in with the user found under `email`: the same refusals as
    /// `validate_login` and `check_credentials`, and for accepted
    /// credentials a new refresh token and the 30-day session it opens,
    /// starting now.
    pub fn login(
        &self,
        email: String,
        password: String,
        lookup: Result<Option<User>, UserRepositoryError>,
        refresh_secret: &[u8],
    ) -> (r: Result<LoginPlan, AuthError>)
        ensures
            match login_refusal(email@, password@) {
                Some(m) => r matches Err(AuthError::Validation(v)) && v@ == m,
                None => match lookup {
                    Err(e) => r == Err::<LoginPlan, AuthError>(AuthError::UserRepo(e)),
                    Ok(None) => r matches Err(AuthError::InvalidCredentials(m)) && m@
                        == "Email invalid"@,
                    Ok(Some(u)) => if !phc_parses(u.password_hash@) {
                        r matches Err(AuthError::HashParse(m)) && phc_parse_failure(u.password_hash@) == Some(m@)
                    } else if password_matches(u, password@) {
                        r matches Ok(plan) && is_opaque_token(plan.refresh_token@) && exists|
                            now: int,
                        |
                            is_instant(now) && #[trigger] plans_session(
                                plan,
                                u,
                                plan.refresh_token@,
                                refresh_secret@,
                                now,
                            )
                    } else {
                        r matches Err(AuthError::InvalidCredentials(m)) && m@
                            == "invalid email or password"@
                    },
                },
            },
    {
        match AuthService::validate_login(email.as_str(), password.as_str()) {
            Err(e) => return Err(e),
            Ok(()) => {},
        }
        let user = match AuthService::check_credentials(password.as_str(), lookup) {
            Err(e) => return Err(e),
            Ok(u) => u,
        };
        let refresh_token = self.token_service.generate_refresh_token();
        let now = now_utc();
        let plan = AuthService::begin_session(user, refresh_token, refresh_secret, now);
        Ok(plan)
    }

    /// The access token for a session: fresh claims issued by this server
    /// to the session's user for one hour, signed under `access_secret`.
    pub fn access_token_for(&self, session: &Session, aud: String, access_secret: &[u8]) -> (r:
        Result<(String, Claims), TokenError>)
        ensures
            exists|c: Claims|
                #[trigger] issued_for(c, *session, aud) && signed_as(r, c, access_secret@),
    {
        let iss = ISSUER_NAME.to_string();
        let ghost issuer = iss;
        let r = self.token_service.generate_access_token(
            iss,
            session.uid.as_uuid(),
            aud,
            session.id.as_uuid(),
            ACCESS_TOKEN_LIFETIME,
            access_secret,
        );
        proof {
            let c = choose|c: Claims|
                #[trigger] fresh_claims(
                    c,
                    issuer,
                    session.uid@,
                    session.id@,
                    aud,
                    ACCESS_TOKEN_LIFETIME,
                ) && signed_as(r, c, access_secret@);
            assert(issued_for(c, *session, aud));
        }
        r
    }

    /// Finishes a login for the session it stored: signs the access token
    /// for that session; a token that could not be made fails the login.
    pub fn complete_login(
        &self,
        user: User,
        refresh_token: String,
        refresh_expires_at: i128,
        session: &Session,
        aud: String,
        access_secret: &[u8],
    ) -> (r: Result<LoginResult, AuthError>)
        ensures
            exists|c: Claims|
                #[trigger] issued_for(c, *session, aud) && logged_in_with(
                    r,
                    c,
                    user,
                    refresh_token,
                    refresh_expires_at,
                    access_secret@,
                ),
    {
        let issued = self.access_token_for(session, aud, access_secret);
        let ghost c = choose|c: Claims|
            #[trigger] issued_for(c, *session, aud) && signed_as(issued, c, access_secret@);
        let r = match issued {
            Err(_) => Err(AuthError::InvalidCredentials("invalid token".to_string())),
            Ok((access_token, claims)) => Ok(
                LoginResult {
                    user,
                    access_token,
                    access_expires_at: claims.exp,
                    refresh_token,
                    refresh_expires_at,
                },
            ),
        };
        assert(issued_for(c, *session, aud) && logged_in_with(
            r,
            c,
            user,
            refresh_token,
            refresh_expires_at,
            access_secret@,
        ));
        r
    }

    /// The stored hash of the session that logging out with this refresh
    /// token deletes.
    pub fn logout(&self, refresh_token: &str, refresh_secret: &[u8]) -> (token_hash: String)
        ensures
            token_hash@ == token_digest(refresh_token@, refresh_secret@),
    {
        TokenHandler::hash_token(refresh_token, refresh_secret)
    }

    /// The session a logout revokes, following the access token first: an
    /// access token that does not verify refuses the logout with its error;
    /// a failed lookup of the refresh token's session is a store error; no
    /// such session, or one other than the access token's session, is an
    /// invalid session. Only the access token's own session is revoked.
    pub fn logout_session(
        verified: Result<VerifyResult, AuthError>,
        found: Result<Option<Session>, SessionRepositoryError>,
    ) -> (r: Result<SessionId, AuthError>)
        ensures
            match logout_target(verified, found) {
                Some(id) => r == Ok::<SessionId, AuthError>(id),
                None => r is Err,
            },
            match verified {
                Err(e) => r == Err::<SessionId, AuthError>(e),
                Ok(v) => match found {
                    Err(e) => r == Err::<SessionId, AuthError>(AuthError::SessionRepo(e)),
                    Ok(None) => r matches Err(AuthError::InvalidSession),
                    Ok(Some(s)) => s.id@ != v.sid ==> r matches Err(AuthError::InvalidSession),
                },
            },
    {
        let v = match verified {
            Err(e) => return Err(e),
            Ok(v) => v,
        };
        let session = match found {
            Err(e) => return Err(AuthError::SessionRepo(e)),
            Ok(None) => return Err(AuthError::InvalidSession),
            Ok(Some(s)) => s,
        };
        if session.id.as_uuid() != v.sid {
            return Err(AuthError::InvalidSession);
        }
        Ok(session.id)
    }

    /// Judges checked claims at `now`: a token that failed its checks is
    /// invalid; an expired one, or one from another issuer, does not
    /// authenticate.
    pub fn verify_claims(checked: Result<Claims, TokenError>, now: i128) -> (r: Result<
        VerifyResult,
        AuthError,
    >)
        ensures
            match checked {
                Err(_) => r matches Err(AuthError::InvalidCredentials(m)) && m@
                    == "invalid access token"@,
                Ok(c) => if now > c.exp || c.iss@ != ISSUER_NAME@ {
                    r matches Err(AuthError::Authentication)
                } else {
                    r matches Ok(v) && v.uid == c.sub && v.sid == c.sid
                },
            },
    {
        let claims = match checked {
            Err(_) => {
                return Err(AuthError::InvalidCredentials("invalid access token".to_string()));
            },
            Ok(c) => c,
        };
        if now > claims.exp {
            return Err(AuthError::Authentication);
        }
        if !text_equals(claims.iss.as_str(), ISSUER_NAME) {
            return Err(AuthError::Authentication);
        }
        Ok(VerifyResult { uid: claims.sub, sid: claims.sid })
    }

    /// Judges an access token at `now`: claims that could not be decoded,
    /// or whose session (looked up by their `sid`) is missing, revoked or
    /// expired, are an invalid token; an expired token or one from another
    /// issuer does not authenticate. Who is admitted is `admitted`.
    pub fn verify_token_at(
        &self,
        decoded: Result<Claims, TokenError>,
        session: Result<Option<Session>, SessionRepositoryError>,
        now: i128,
    ) -> (r: Result<VerifyResult, AuthError>)
        ensures
            match admitted(decoded, session, now as int) {
                Some((uid, sid)) => r matches Ok(v) && v.uid == uid && v.sid == sid,
                None => r is Err,
            },
            match decoded {
                Err(_) => r matches Err(AuthError::InvalidCredentials(m)) && m@
                    == "invalid access token"@,
                Ok(c) => if !live_session_found(session, now as int) {
                    r matches Err(AuthError::InvalidCredentials(m)) && m@ == "invalid access token"@
                } else if now > c.exp || c.iss@ != ISSUER_NAME@ {
                    r matches Err(AuthError::Authentication)
                } else {
                    r matches Ok(v) && v.uid == c.sub && v.sid == c.sid
                },
            },
    {
        let checked = match decoded {
            Err(e) => Err(e),
            Ok(c) => self.token_service.verify_access_token(c, session, now),
        };
        AuthService::verify_claims(checked, now)
    }

    /// `verify_token_at` at the current time: the outcome is the one
    /// `admitted` gives at some instant the clock can show.
    pub fn verify_token(
        &self,
        decoded: Result<Claims, TokenError>,
        session: Result<Option<Session>, SessionRepositoryError>,
    ) -> (r: Result<VerifyResult, AuthError>)
        ensures
            exists|now: int|
                is_instant(now) && match #[trigger] admitted(decoded, session, now) {
                    Some((uid, sid)) => r matches Ok(v) && v.uid == uid && v.sid == sid,
                    None => r is Err,
                },
            match decoded {
                Err(_) => r matches Err(AuthError::InvalidCredentials(m)) && m@
                    == "invalid access token"@,
                Ok(c) => {
                    &&& (!(session matches Ok(Some(_))) ==> (r matches Err(
                        AuthError::InvalidCredentials(m),
                    ) && m@ == "invalid access token"@))
                    &&& (c.iss@ != ISSUER_NAME@ ==> r is Err)
                },
            },
    {
        let now = now_utc();
        self.verify_token_at(decoded, session, now)
    }

    /// Opens a new refresh period for the session found under a refresh
    /// token's hash: no such session is an invalid session; a revoked or
    /// expired one is a token error; a live one is rotated for another 30
    /// days (never past its absolute lifetime).
    pub fn refresh_token(
        &self,
        found: Result<Option<Session>, SessionRepositoryError>,
        refresh_secret: &[u8],
    ) -> (r: Result<RotatedRefreshToken, AuthError>)
        requires
            found matches Ok(Some(s)) ==> is_instant(s.created_at as int),
        ensures
            match found {
                Err(e) => r == Err::<RotatedRefreshToken, AuthError>(AuthError::SessionRepo(e)),
                Ok(None) => r matches Err(AuthError::InvalidSession),
                Ok(Some(s)) => {
                    &&& (r matches Err(e) ==> e is Token)
                    &&& (r matches Ok(rt) ==> {
                        &&& rt.session.id == s.id
                        &&& rt.session.uid == s.uid
                        &&& rt.session.created_at == s.created_at
                        &&& rt.session.last_seen_at == s.last_seen_at
                        &&& rt.session.revoked_at == s.revoked_at
                        &&& rt.session.user_agent == s.user_agent
                        &&& rt.session.ip_address == s.ip_address
                        &&& is_opaque_token(rt.refresh_token@)
                        &&& rt.session.token_hash@ == token_digest(
                            rt.refresh_token@,
                            refresh_secret@,
                        )
                    })
                    &&& exists|now: int|
                        #[trigger] rotated_at(s, r, REFRESH_SESSION_LIFETIME as int, now)
                },
            },
    {
        let session = match found {
            Err(e) => return Err(AuthError::SessionRepo(e)),
            Ok(None) => return Err(AuthError::InvalidSession),
            Ok(Some(s)) => s,
        };
        let rotated = self.token_service.rotate_refresh_token(
            session,
            refresh_secret,
            REFRESH_SESSION_LIFETIME,
        );
        let ghost now = choose|now: int|
            #[trigger] rotated_at(session, rotated, REFRESH_SESSION_LIFETIME as int, now);
        let r = match rotated {
            Ok(rt) => Ok(rt),
            Err(e) => Err(AuthError::Token(e)),
        };
        assert(rotated_at(session, r, REFRESH_SESSION_LIFETIME as int, now));
        r
    }
}

/// Logging out with the refresh token of a login deletes exactly the
/// session that login stored: the hash `logout` looks for is the hash the
/// session was stored under.
pub proof fn law_logout_finds_login_session(
    plan: LoginPlan,
    user: User,
    refresh_secret: Seq<u8>,
    now: int,
    logout_hash: Seq<char>,
)
    requires
        plans_session(plan, user, plan.refresh_token@, refresh_secret, now),
        logout_hash == token_digest(plan.refresh_token@, refresh_secret),
    ensures
        plan.session.token_hash@ == logout_hash,
{
}

/// A logout revokes only the session of the access token it carries, and
/// only when the refresh token opens that very session.
pub proof fn law_logout_revokes_only_the_access_tokens_session(
    verified: Result<VerifyResult, AuthError>,
    found: Result<Option<Session>, SessionRepositoryError>,
)
    ensures
        logout_target(verified, found) matches Some(id) ==> {
            &&& verified matches Ok(v) && id@ == v.sid
            &&& found matches Ok(Some(s)) && s.id == id
        },
        verified is Err ==> logout_target(verified, found) is None,
{
}

/// A password that was registered lets its user in: the hash `register`
/// stores is accepted by `check_credentials` for the same password.
pub proof fn law_registered_password_is_accepted(new_user: NewUser, user: User, password: Seq<char>)
    requires
        phc_parses(new_user.password_hash@),
        argon2_accepts(vstd::utf8::encode_utf8(password), new_user.password_hash@),
        user.password_hash == new_user.password_hash,
    ensures
        password_matches(user, password),
{
}

/// A token issued for a session admits the session's user for as long as
/// the session is live and the token has not expired.
pub proof fn law_issued_token_admits_its_user(session: Session, aud: String, claims: Claims, now: int)
    requires
        issued_for(claims, session, aud),
        now <= claims.exp,
        session_is_live(session, now),
    ensures
        admitted(Ok(claims), Ok(Some(session)), now) == Some((session.uid@, session.id@)),
{
}

/// Once its session is revoked, or has expired, no token admits anyone.
pub proof fn law_dead_session_admits_nobody(
    decoded: Result<Claims, TokenError>,
    session: Session,
    now: int,
)
    requires
        session.revoked_at is Some || session.expires_at <= now,
    ensures
        admitted(decoded, Ok(Some(session)), now) is None,
{
}

/// A session a login plans at the instant `now` stays usable for exactly
/// thirty days from `now`: not revoked, unexpired at every instant from
/// `now` up to thirty days later, and expired from then on; it belongs to
/// the user who logged in and is found under the hash of the new token.
pub proof fn law_login_session_lasts_thirty_days_from_now(
    plan: LoginPlan,
    user: User,
    refresh_secret: Seq<u8>,
    now: int,
    t: int,
)
    requires
        plans_session(plan, user, plan.refresh_token@, refresh_secret, now),
    ensures
        plan.session.revoked_at is None,
        plan.session.uid == user.uid,
        plan.session.token_hash@ == token_digest(plan.refresh_token@, refresh_secret),
        now <= t < now + 30 * NANOS_PER_DAY ==> plan.session.expires_at > t,
        t >= now + 30 * NANOS_PER_DAY ==> plan.session.expires_at <= t,
        plan.refresh_expires_at == plan.session.expires_at,
{
}

/// A session that is live at `now` and judged at `now` is rotated, not
/// refused; its new expiry lies after `now`, thirty days ahead when the
/// ninety-day cap allows, at the cap otherwise, and never before it was.
pub proof fn law_live_session_is_rotated_at_now(
    session: Session,
    r: Result<RotatedRefreshToken, AuthError>,
    now: int,
)
    requires
        rotated_at(session, r, REFRESH_SESSION_LIFETIME as int, now),
        session_is_live(session, now),
        now < session.created_at + SESSION_ABSOLUTE_LIFETIME,
    ensures
        r matches Ok(rt) && rt.session.expires_at > now,
        r matches Ok(rt) && (now + 30 * NANOS_PER_DAY <= session.created_at + 90 * NANOS_PER_DAY
            ==> rt.session.expires_at == now + 30 * NANOS_PER_DAY),
        r matches Ok(rt) && rt.session.expires_at <= session.created_at + 90 * NANOS_PER_DAY,
{
}

/// An access token is accepted at `now` exactly when it was decoded, this
/// server issued it, it has not expired at `now` and its session is live at
/// `now`; then it speaks for the user and session its claims name.
pub proof fn law_token_admitted_at_now(
    claims: Claims,
    session: Session,
    now: int,
)
    ensures
        admitted(Ok(claims), Ok(Some(session)), now) is Some <==> (claims.iss@ == ISSUER_NAME@
            && now <= claims.exp && session.revoked_at is None && now < session.expires_at),
        admitted(Ok(claims), Ok(Some(session)), now) matches Some((uid, sid)) ==> uid
            == claims.sub && sid == claims.sid,
{
}

} // verus!
