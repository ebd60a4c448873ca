//! What the HTTP layer sends and receives, the cookies that carry the
//! tokens, and the checks a request passes before it is served.
use crate::api_error::ApiError;
use crate::config::AppConfig;
use crate::encoding::{uuid_hyphenated, uuid_to_string};
use crate::auth_service::{admitted, ISSUER_NAME};
use crate::errors::{SessionRepositoryError, TokenError};
use crate::ids::{SessionId, UserId};
use crate::instant::{instant_text, is_instant, is_valid_instant, now_utc, shown_instant};
use crate::model::{Claims, Session, UpdateUserCommand, User};
use crate::text::text_equals;
use vstd::prelude::*;

verus! {

/// A user as the API shows it.
pub struct UserResponseDTO {
    pub id: String,
    pub username: String,
    pub email: String,
    pub created_at: String,
    pub mfa_enabled: bool,
}

impl UserResponseDTO {
    /// Shows a user: the id in hyphenated form, the creation time as
    /// RFC 3339 text; the password hash is not shown.
    pub fn from_user(user: User) -> (dto: UserResponseDTO)
        requires
            is_instant(user.created_at as int),
        ensures
            dto.id@ == uuid_hyphenated(user.uid@),
            dto.username == user.uname,
            dto.email == user.email,
            dto.created_at@ == shown_instant(user.created_at),
            dto.mfa_enabled == user.mfa,
    {
        let created_at = instant_text(user.created_at);
        UserResponseDTO {
            id: uuid_to_string(user.uid.as_uuid()),
            username: user.uname,
            email: user.email,
            created_at,
            mfa_enabled: user.mfa,
        }
    }
}

/// A session as the API shows it.
pub struct SessionDTO {
    pub id: String,
    pub uid: String,
    pub created_at: String,
    pub expires_at: String,
    pub last_seen_at: String,
    pub revoked_at: Option<String>,
    pub user_agent: Option<String>,
    pub ip_address: Option<String>,
}

/// The instants of a session are all ones the `time` crate can hold.
pub open spec fn session_times_valid(s: Session) -> bool {
    &&& is_instant(s.created_at as int)
    &&& is_instant(s.expires_at as int)
    &&& is_instant(s.last_seen_at as int)
    &&& s.revoked_at matches Some(t) ==> is_instant(t as int)
}

/// `dto` shows `s`: ids in hyphenated form, instants as their shown text,
/// the client's details as they are; the token hash is not shown.
pub open spec fn shows_session(dto: SessionDTO, s: Session) -> bool {
    &&& dto.id@ == uuid_hyphenated(s.id@)
    &&& dto.uid@ == uuid_hyphenated(s.uid@)
    &&& dto.created_at@ == shown_instant(s.created_at)
    &&& dto.expires_at@ == shown_instant(s.expires_at)
    &&& dto.last_seen_at@ == shown_instant(s.last_seen_at)
    &&& match s.revoked_at {
        Some(t) => dto.revoked_at matches Some(r) && r@ == shown_instant(t),
        None => dto.revoked_at is None,
    }
    &&& dto.user_agent == s.user_agent
    &&& dto.ip_address == s.ip_address
}

/// Whether every instant of the session is one the `time` crate can hold.
pub fn session_times_checked(session: &Session) -> (b: bool)
    ensures
        b == session_times_valid(*session),
{
    let revoked_ok = match session.revoked_at {
        Some(t) => is_valid_instant(t),
        None => true,
    };
    is_valid_instant(session.created_at) && is_valid_instant(session.expires_at)
        && is_valid_instant(session.last_seen_at) && revoked_ok
}

impl SessionDTO {
    /// Shows a session: ids in hyphenated form, instants as RFC 3339 text;
    /// the token hash is not shown.
    pub fn from_session(session: Session) -> (dto: SessionDTO)
        requires
            session_times_valid(session),
        ensures
            shows_session(dto, session),
    {
        let revoked_at = match session.revoked_at {
            Some(t) => Some(instant_text(t)),
            None => None,
        };
        SessionDTO {
            id: uuid_to_string(session.id.as_uuid()),
            uid: uuid_to_string(session.uid.as_uuid()),
            created_at: instant_text(session.created_at),
            expires_at: instant_text(session.expires_at),
            last_seen_at: instant_text(session.last_seen_at),
            revoked_at,
            user_agent: session.user_agent,
            ip_address: session.ip_address,
        }
    }
}

/// The sessions of a list, shown in the same order.
pub fn sessions_to_dtos(sessions: Vec<Session>) -> (dtos: Vec<SessionDTO>)
    requires
        forall|k: int| 0 <= k < sessions@.len() ==> session_times_valid(#[trigger] sessions@[k]),
    ensures
        dtos@.len() == sessions@.len(),
        forall|k: int| 0 <= k < dtos@.len() ==> shows_session(#[trigger] dtos@[k], sessions@[k]),
{
    let mut dtos: Vec<SessionDTO> = Vec::new();
    for s in it: sessions.into_iter()
        invariant
            it.seq() == sessions@,
            dtos@.len() == it.index(),
            forall|k: int| 0 <= k < it.seq().len() ==> session_times_valid(#[trigger] it.seq()[k]),
            forall|k: int| 0 <= k < dtos@.len() ==> shows_session(#[trigger] dtos@[k], it.seq()[k]),
    {
        dtos.push(SessionDTO::from_session(s));
    }
    dtos
}

/// An edit of the requesting user's account.
pub struct UpdateUserRequest {
    pub username: Option<String>,
    pub email: Option<String>,
    pub password: Option<String>,
    pub mfa_enabled: Option<bool>,
}

impl UpdateUserRequest {
    /// The service command for this edit, field by field.
    pub fn into_command(self) -> (cmd: UpdateUserCommand)
        ensures
            cmd.username == self.username,
            cmd.email == self.email,
            cmd.new_password == self.password,
            cmd.mfa == self.mfa_enabled,
    {
        UpdateUserCommand {
            username: self.username,
            email: self.email,
            new_password: self.password,
            mfa: self.mfa_enabled,
        }
    }
}

/// Credentials sent to log in.
pub struct LoginDTO {
    pub email: String,
    pub password: String,
}

/// The answer to a successful login in its first form.
pub struct LoginResponseDTO {
    pub success: bool,
}

/// Names the session to end.
pub struct LogoutDTO {
    pub session_id: String,
}

/// The data of a new account.
pub struct RegisterDTO {
    pub username: String,
    pub email: String,
    pub password: String,
}

/// The authenticated user.
pub struct AuthMeResponseDTO {
    pub user: UserResponseDTO,
}

/// A plain success flag.
pub struct SuccessResponseDTO {
    pub success: bool,
}

/// An OAuth token request.
pub struct TokenRequest {
    pub grant_type: String,
    pub code: String,
    pub client_id: String,
    pub redirect_uri: String,
}

/// The user a client application's session belongs to.
pub struct TokenUser {
    pub id: u128,
    pub email: String,
}

/// The answer to an OAuth token request.
pub struct TokenResponse {
    pub app_session_token: String,
    pub user: TokenUser,
}

/// A client application that may ask for tokens, and the redirect URIs
/// registered for it.
pub struct RegisteredClient {
    pub client_id: String,
    pub redirect_uris: Vec<String>,
}

/// Some registered client has the id.
pub open spec fn client_known(clients: Seq<RegisteredClient>, client_id: Seq<char>) -> bool {
    exists|k: int| 0 <= k < clients.len() && (#[trigger] clients[k]).client_id@ == client_id
}

/// A client registered under the id has the redirect URI registered.
pub open spec fn redirect_registered(
    clients: Seq<RegisteredClient>,
    client_id: Seq<char>,
    redirect_uri: Seq<char>,
) -> bool {
    exists|k: int, m: int|
        0 <= k < clients.len() && clients[k].client_id@ == client_id && 0 <= m
            < clients[k].redirect_uris@.len() && (#[trigger] clients[k].redirect_uris@[m])@
            == redirect_uri
}

/// Accepts only the authorization-code grant, for a registered client and
/// one of its registered redirect URIs.
pub fn authorize(req: &TokenRequest, clients: &Vec<RegisteredClient>) -> (r: Result<(), ApiError>)
    ensures
        r is Ok <==> req.grant_type@ == "authorization_code"@ && redirect_registered(
            clients@,
            req.client_id@,
            req.redirect_uri@,
        ),
        req.grant_type@ != "authorization_code"@ ==> (r matches Err(e) && e@ == (
            400u16,
            "unsupported grant_type"@,
        )),
        req.grant_type@ == "authorization_code"@ && !client_known(clients@, req.client_id@) ==> (r matches Err(e)
            && e@ == (401u16, "unknown client_id"@)),
        req.grant_type@ == "authorization_code"@ && client_known(clients@, req.client_id@)
            && !redirect_registered(clients@, req.client_id@, req.redirect_uri@) ==> (r matches Err(e)
            && e@ == (400u16, "invalid redirect_uri"@)),
{
    if !text_equals(req.grant_type.as_str(), "authorization_code") {
        return Err(ApiError::BadRequest("unsupported grant_type".to_string()));
    }
    let mut known = false;
    let mut i: usize = 0;
    while i < clients.len()
        invariant
            req.grant_type@ == "authorization_code"@,
            i <= clients@.len(),
            known <==> exists|k: int|
                0 <= k < i && (#[trigger] clients@[k]).client_id@ == req.client_id@,
            forall|k: int, m: int|
                0 <= k < i && clients@[k].client_id@ == req.client_id@ && 0 <= m
                    < clients@[k].redirect_uris@.len() ==> (#[trigger] clients@[k].redirect_uris@[m])@
                    != req.redirect_uri@,
        decreases clients@.len() - i,
    {
        let client = &clients[i];
        if text_equals(client.client_id.as_str(), req.client_id.as_str()) {
            known = true;
            let mut j: usize = 0;
            while j < client.redirect_uris.len()
                invariant
                    i < clients@.len(),
                    *client == clients@[i as int],
                    client.client_id@ == req.client_id@,
                    known,
                    req.grant_type@ == "authorization_code"@,
                    forall|k: int, m: int|
                        0 <= k < i && clients@[k].client_id@ == req.client_id@ && 0 <= m
                            < clients@[k].redirect_uris@.len() ==> (#[trigger] clients@[k].redirect_uris@[m])@
                            != req.redirect_uri@,
                    j <= client.redirect_uris@.len(),
                    forall|m: int|
                        0 <= m < j ==> (#[trigger] client.redirect_uris@[m])@ != req.redirect_uri@,
                decreases client.redirect_uris@.len() - j,
            {
                if text_equals(client.redirect_uris[j].as_str(), req.redirect_uri.as_str()) {
                    assert(clients@[i as int].redirect_uris@[j as int]@ == req.redirect_uri@);
                    return Ok(());
                }
                j = j + 1;
            }
        }
        i = i + 1;
    }
    if !known {
        return Err(ApiError::Unauthorized("unknown client_id".to_string()));
    }
    Err(ApiError::BadRequest("invalid redirect_uri".to_string()))
}

/// The cookie that carries the access token.
pub const ACCESS_COOKIE_NAME: &'static str = "accessToken";

/// The cookie that carries the refresh token.
pub const REFRESH_COOKIE_NAME: &'static str = "refreshToken";

/// The `SameSite` policy of a cookie.
#[derive(Debug, Clone, Copy, PartialEq, Eq, Structural)]
pub enum SameSite {
    Strict,
    Lax,
    Unrestricted,
}

/// Settings shared by the authentication cookies.
pub struct CookieConfig {
    pub domain: Option<String>,
    pub secure: bool,
    pub same_site: SameSite,
    pub path: String,
}

/// A cookie to set, or to remove, on the client.
pub struct AuthCookie {
    pub name: String,
    pub value: String,
    pub path: Option<String>,
    pub http_only: Option<bool>,
    pub secure: Option<bool>,
    pub same_site: Option<SameSite>,
    /// Nanoseconds since the Unix epoch.
    pub expires_at: Option<i128>,
    /// The cookie is sent to delete the client's copy.
    pub removal: bool,
}

impl AuthCookie {
    /// A cookie with only a name and a value.
    pub fn new(name: &str, value: String) -> (c: AuthCookie)
        ensures
            c.name@ == name@,
            c.value == value,
            c.path is None,
            c.http_only is None,
            c.secure is None,
            c.same_site is None,
            c.expires_at is None,
            !c.removal,
    {
        AuthCookie {
            name: name.to_string(),
            value,
            path: None,
            http_only: None,
            secure: None,
            same_site: None,
            expires_at: None,
            removal: false,
        }
    }
}

/// The attributes every authentication cookie gets: the whole site, not
/// readable by scripts, sent only over HTTPS outside development, and
/// `SameSite=Lax`.
pub open spec fn guarded(c: AuthCookie, is_dev: bool) -> bool {
    &&& c.path matches Some(p) && p@ == "/"@
    &&& c.http_only == Some(true)
    &&& c.secure == Some(!is_dev)
    &&& c.same_site == Some(SameSite::Lax)
}

/// Makes a token cookie safe to send and sets when it expires.
pub fn configure_cookie(config: &AppConfig, expires_at: i128, cookie: &mut AuthCookie)
    ensures
        guarded(*final(cookie), config.is_dev),
        final(cookie).expires_at == Some(expires_at),
        final(cookie).name == old(cookie).name,
        final(cookie).value == old(cookie).value,
        final(cookie).removal == old(cookie).removal,
{
    cookie.path = Some("/".to_string());
    cookie.http_only = Some(true);
    cookie.secure = Some(!config.is_dev);
    cookie.same_site = Some(SameSite::Lax);
    cookie.expires_at = Some(expires_at);
}

/// Turns a token cookie into one that deletes the client's copy.
pub fn remove_cookie(config: &AppConfig, cookie_to_remove: &mut AuthCookie)
    ensures
        guarded(*final(cookie_to_remove), config.is_dev),
        final(cookie_to_remove).removal,
        final(cookie_to_remove).name == old(cookie_to_remove).name,
        final(cookie_to_remove).value == old(cookie_to_remove).value,
        final(cookie_to_remove).expires_at == old(cookie_to_remove).expires_at,
{
    cookie_to_remove.path = Some("/".to_string());
    cookie_to_remove.http_only = Some(true);
    cookie_to_remove.same_site = Some(SameSite::Lax);
    cookie_to_remove.secure = Some(!config.is_dev);
    cookie_to_remove.removal = true;
}

/// The session a user's revocation request deletes: the one found, when it
/// belongs to the requester.
pub open spec fn revocation_granted(found: Option<Session>, requester: UserId) -> Option<SessionId> {
    match found {
        Some(s) => if s.uid@ == requester@ {
            Some(s.id)
        } else {
            None
        },
        None => None,
    }
}

/// Decides a user's request to revoke one of the sessions: a session that
/// does not exist is not found, another user's session is forbidden; the
/// requester's own session is the one to delete.
pub fn revoke_my_session(found: Option<Session>, requester: UserId) -> (r: Result<SessionId, ApiError>)
    ensures
        match revocation_granted(found, requester) {
            Some(id) => r == Ok::<SessionId, ApiError>(id),
            None => r is Err,
        },
        match found {
            None => r matches Err(e) && e@ == (404u16, "Not found"@),
            Some(s) => if s.uid@ != requester@ {
                r matches Err(e) && e@ == (403u16, "Forbidden"@)
            } else {
                r == Ok::<SessionId, ApiError>(s.id)
            },
        },
{
    let session = match found {
        None => return Err(ApiError::NotFound),
        Some(s) => s,
    };
    if session.uid.as_uuid() != requester.as_uuid() {
        return Err(ApiError::Forbidden("Forbidden".to_string()));
    }
    Ok(session.id)
}

/// A user may only end sessions that are their own: whenever revocation
/// is granted, the session belongs to the requester.
pub proof fn law_only_own_sessions_are_revoked(found: Option<Session>, requester: UserId)
    ensures
        revocation_granted(found, requester) matches Some(id) ==> (found matches Some(s) && s.uid
            == requester && s.id == id),
{
}

/// The signed-in user of a request.
pub struct UserExtractor {
    pub user: User,
}

impl UserExtractor {
    /// The access token of the request's cookie; without one the request
    /// is unauthorized.
    pub fn access_token(cookie: Option<String>) -> (r: Result<String, ApiError>)
        ensures
            match cookie {
                Some(t) => r == Ok::<String, ApiError>(t),
                None => r matches Err(e) && e@ == (401u16, "unauthorized"@),
            },
    {
        match cookie {
            Some(t) => Ok(t),
            None => Err(ApiError::Unauthorized("unauthorized".to_string())),
        }
    }
}

/// An administrator's token at `now`: it admits its holder and its claims
/// mark the holder as administrator.
pub open spec fn admin_admitted(
    decoded: Result<Claims, TokenError>,
    session: Result<Option<Session>, SessionRepositoryError>,
    now: int,
) -> bool {
    &&& admitted(decoded, session, now) is Some
    &&& decoded matches Ok(c) && c.is_admin
}

/// A request made by an administrator.
pub struct AdminExtractor {}

impl AdminExtractor {
    /// The access token of the request's cookie; without one the request
    /// is unauthorized.
    pub fn access_token(cookie: Option<String>) -> (r: Result<String, ApiError>)
        ensures
            match cookie {
                Some(t) => r == Ok::<String, ApiError>(t),
                None => r matches Err(e) && e@ == (401u16, "Unauthorized"@),
            },
    {
        match cookie {
            Some(t) => Ok(t),
            None => Err(ApiError::Unauthorized("Unauthorized".to_string())),
        }
    }

    /// Admits the request at `now` only for an administrator's token: the
    /// token admits its holder (see `admitted`: live session, not expired,
    /// issued here) and its claims mark the holder as administrator.
    pub fn authorize_at(
        decoded: Result<Claims, TokenError>,
        session: Result<Option<Session>, SessionRepositoryError>,
        now: i128,
    ) -> (r: Result<AdminExtractor, ApiError>)
        ensures
            r is Ok <==> admin_admitted(decoded, session, now as int),
            r matches Err(e) ==> e@ == (403u16, "Forbidden"@),
    {
        let claims = match decoded {
            Ok(c) => c,
            Err(_) => return Err(ApiError::Forbidden("Forbidden".to_string())),
        };
        let live = match &session {
            Ok(Some(s)) => s.revoked_at.is_none() && s.expires_at > now,
            _ => false,
        };
        if !claims.is_admin || !live || now > claims.exp || !text_equals(
            claims.iss.as_str(),
            ISSUER_NAME,
        ) {
            return Err(ApiError::Forbidden("Forbidden".to_string()));
        }
        Ok(AdminExtractor {  })
    }

    /// `authorize_at` at the current time.
    pub fn authorize(
        decoded: Result<Claims, TokenError>,
        session: Result<Option<Session>, SessionRepositoryError>,
    ) -> (r: Result<AdminExtractor, ApiError>)
        ensures
            exists|now: int|
                is_instant(now) && (r is Ok <==> #[trigger] admin_admitted(decoded, session, now)),
            r matches Err(e) ==> e@ == (403u16, "Forbidden"@),
    {
        let now = now_utc();
        AdminExtractor::authorize_at(decoded, session, now)
    }
}

/// The user id an access token speaks for.
pub struct AuthSession {
    pub user_id: u128,
}

} // verus!
