use idp::api_error::{ApiError, ErrorBody};
use idp::config::{AppConfig, LogLevel};
use idp::errors::{AdminError, AuthError, SessionError, SessionRepositoryError, TokenError, UserError, UserRepositoryError};
use idp::ids::{SessionId, UserId};
use idp::model::{Claims, Session, User, UserType};
use idp::web::{
    authorize, configure_cookie, remove_cookie, revoke_my_session, sessions_to_dtos, AdminExtractor, AuthCookie,
    RegisteredClient, SameSite, SessionDTO, TokenRequest, UpdateUserRequest, UserExtractor, UserResponseDTO, ACCESS_COOKIE_NAME,
    REFRESH_COOKIE_NAME,
};

fn parts(e: ApiError) -> (u16, String) {
    let (status, body) = e.into_response_parts();
    (status, body.message)
}

fn config(is_dev: bool) -> AppConfig {
    AppConfig {
        server_addr: "0.0.0.0:8080".to_string(),
        database_url: "postgres://db".to_string(),
        is_dev,
        session_secret: b"s".to_vec(),
        refresh_secret: b"r".to_vec(),
        log_level: LogLevel::Info,
    }
}

fn session(uid: u128) -> Session {
    Session {
        id: SessionId::new(0x67e5504410b1426f9247bb680e5fe0c8),
        uid: UserId::new(uid),
        token_hash: "secret-hash".to_string(),
        created_at: 0,
        expires_at: 1_000_000_000,
        last_seen_at: 1_500_000_000,
        revoked_at: None,
        user_agent: Some("curl".to_string()),
        ip_address: None,
    }
}

#[test]
fn auth_errors_answer_without_internals() {
    assert_eq!(parts(ApiError::from_auth_error(AuthError::Authentication)), (401, "Unauthorized".to_string()));
    assert_eq!(
        parts(ApiError::from_auth_error(AuthError::EmailAlreadyExists)),
        (409, "user with that email already exists".to_string())
    );
    assert_eq!(
        parts(ApiError::from_auth_error(AuthError::Validation("Email is empty".to_string()))),
        (401, "Invalid email or password".to_string())
    );
    assert_eq!(
        parts(ApiError::from_auth_error(AuthError::InvalidCredentials("x".to_string()))),
        (401, "Invalid email or password".to_string())
    );
    assert_eq!(
        parts(ApiError::from_auth_error(AuthError::UserRepo(UserRepositoryError::Unexpected("db down".to_string())))),
        (500, "Internal server error".to_string())
    );
    assert_eq!(parts(ApiError::from_auth_error(AuthError::Hash("h".to_string()))).0, 500);
    assert_eq!(parts(ApiError::from_auth_error(AuthError::HashParse("h".to_string()))).0, 500);
    assert_eq!(parts(ApiError::from_auth_error(AuthError::Unexpected("u".to_string()))).0, 500);
    assert_eq!(parts(ApiError::from_auth_error(AuthError::SessionRepo(SessionRepositoryError::Conflict))).0, 500);
    assert_eq!(
        parts(ApiError::from_auth_error(AuthError::Token(TokenError::Unexpected("t")))),
        (401, "Token error".to_string())
    );
    assert_eq!(parts(ApiError::from_auth_error(AuthError::InvalidSession)), (401, "Session error".to_string()));
}

#[test]
fn session_user_and_admin_errors_have_their_answers() {
    assert_eq!(parts(ApiError::from_session_error(SessionError::NotFound)), (404, "Not found".to_string()));
    assert_eq!(parts(ApiError::from_session_error(SessionError::Forbidden)), (403, "Forbidden".to_string()));
    assert_eq!(parts(ApiError::from_session_error(SessionError::Unexpected)), (500, "Internal server error".to_string()));
    assert_eq!(parts(ApiError::from_user_error(UserError::NotFound)), (404, "Not found".to_string()));
    assert_eq!(
        parts(ApiError::from_user_error(UserError::Validation("email is empty".to_string()))),
        (400, "email is empty".to_string())
    );
    assert_eq!(parts(ApiError::from_user_error(UserError::Unexpected("x".to_string()))).0, 500);
    assert_eq!(parts(ApiError::from_admin_error(AdminError::Unexpected)), (500, "Internal server error".to_string()));
}

#[test]
fn every_error_answers_with_its_status_and_message() {
    assert_eq!(parts(ApiError::BadRequest("b".to_string())), (400, "b".to_string()));
    assert_eq!(parts(ApiError::Conflict("c".to_string())), (409, "c".to_string()));
    assert_eq!(parts(ApiError::Forbidden("f".to_string())), (403, "f".to_string()));
    assert_eq!(parts(ApiError::NotFound), (404, "Not found".to_string()));
    assert_eq!(ErrorBody::new("m".to_string()).message, "m");
}

#[test]
fn users_are_shown_without_their_password_hash() {
    let dto = UserResponseDTO::from_user(User {
        uid: UserId::new(0x67e5504410b1426f9247bb680e5fe0c8),
        uname: "carol".to_string(),
        email: "c@example.com".to_string(),
        password_hash: "hash".to_string(),
        created_at: 0,
        role: UserType::Admin,
        mfa: true,
    });
    assert_eq!(dto.id, "67e55044-10b1-426f-9247-bb680e5fe0c8");
    assert_eq!(dto.username, "carol");
    assert_eq!(dto.email, "c@example.com");
    assert_eq!(dto.created_at, "1970-01-01T00:00:00Z");
    assert!(dto.mfa_enabled);
}

#[test]
fn sessions_are_shown_with_rfc3339_times() {
    let dto = SessionDTO::from_session(session(1));
    assert_eq!(dto.id, "67e55044-10b1-426f-9247-bb680e5fe0c8");
    assert_eq!(dto.uid, "00000000-0000-0000-0000-000000000001");
    assert_eq!(dto.created_at, "1970-01-01T00:00:00Z");
    assert_eq!(dto.expires_at, "1970-01-01T00:00:01Z");
    assert_eq!(dto.last_seen_at, "1970-01-01T00:00:01.5Z");
    assert_eq!(dto.revoked_at, None);
    assert_eq!(dto.user_agent.as_deref(), Some("curl"));
    let mut revoked = session(1);
    revoked.revoked_at = Some(2_000_000_000);
    assert_eq!(SessionDTO::from_session(revoked).revoked_at.as_deref(), Some("1970-01-01T00:00:02Z"));
    let list = sessions_to_dtos(vec![session(1), session(2)]);
    assert_eq!(list.len(), 2);
    assert_eq!(list[1].uid, "00000000-0000-0000-0000-000000000002");
    assert_eq!(list[1].created_at, "1970-01-01T00:00:00Z");
    assert_eq!(list[1].expires_at, "1970-01-01T00:00:01Z");
    assert_eq!(list[1].last_seen_at, "1970-01-01T00:00:01.5Z");
    assert_eq!(list[0].user_agent.as_deref(), Some("curl"));
    assert_eq!(list[0].ip_address, None);
}

#[test]
fn an_edit_request_becomes_the_command() {
    let cmd = UpdateUserRequest {
        username: Some("n".to_string()),
        email: None,
        password: Some("p".to_string()),
        mfa_enabled: Some(false),
    }
    .into_command();
    assert_eq!(cmd.username.as_deref(), Some("n"));
    assert!(cmd.email.is_none());
    assert_eq!(cmd.new_password.as_deref(), Some("p"));
    assert_eq!(cmd.mfa, Some(false));
}

#[test]
fn only_the_authorization_code_grant_is_accepted() {
    let clients = vec![RegisteredClient {
        client_id: "app".to_string(),
        redirect_uris: vec!["https://app/cb".to_string()],
    }];
    let mut req = TokenRequest {
        grant_type: "authorization_code".to_string(),
        code: "c".to_string(),
        client_id: "app".to_string(),
        redirect_uri: "https://app/cb".to_string(),
    };
    assert!(authorize(&req, &clients).is_ok());
    req.grant_type = "password".to_string();
    assert_eq!(parts(authorize(&req, &clients).err().unwrap()), (400, "unsupported grant_type".to_string()));
}

#[test]
fn only_registered_clients_and_redirects_are_accepted() {
    let clients = vec![
        RegisteredClient { client_id: "other".to_string(), redirect_uris: vec!["https://app/cb".to_string()] },
        RegisteredClient {
            client_id: "app".to_string(),
            redirect_uris: vec!["https://app/a".to_string(), "https://app/cb".to_string()],
        },
    ];
    let mut req = TokenRequest {
        grant_type: "authorization_code".to_string(),
        code: "c".to_string(),
        client_id: "app".to_string(),
        redirect_uri: "https://app/cb".to_string(),
    };
    assert!(authorize(&req, &clients).is_ok());
    req.redirect_uri = "https://evil/cb".to_string();
    assert_eq!(parts(authorize(&req, &clients).err().unwrap()), (400, "invalid redirect_uri".to_string()));
    req.client_id = "unknown".to_string();
    assert_eq!(parts(authorize(&req, &clients).err().unwrap()), (401, "unknown client_id".to_string()));
    assert_eq!(parts(authorize(&req, &Vec::new()).err().unwrap()), (401, "unknown client_id".to_string()));
}

#[test]
fn token_cookies_are_guarded() {
    let mut c = AuthCookie::new(ACCESS_COOKIE_NAME, "jwt".to_string());
    configure_cookie(&config(false), 123, &mut c);
    assert_eq!(c.name, "accessToken");
    assert_eq!(c.value, "jwt");
    assert_eq!(c.path.as_deref(), Some("/"));
    assert_eq!(c.http_only, Some(true));
    assert_eq!(c.secure, Some(true));
    assert_eq!(c.same_site, Some(SameSite::Lax));
    assert_eq!(c.expires_at, Some(123));
    assert!(!c.removal);
    let mut d = AuthCookie::new(REFRESH_COOKIE_NAME, String::new());
    configure_cookie(&config(true), 5, &mut d);
    assert_eq!(d.secure, Some(false));
}

#[test]
fn removal_cookies_are_guarded_too() {
    let mut c = AuthCookie::new(REFRESH_COOKIE_NAME, String::new());
    remove_cookie(&config(false), &mut c);
    assert!(c.removal);
    assert_eq!(c.name, "refreshToken");
    assert_eq!(c.secure, Some(true));
    assert_eq!(c.http_only, Some(true));
    assert_eq!(c.same_site, Some(SameSite::Lax));
    assert_eq!(c.expires_at, None);
}

#[test]
fn users_revoke_only_their_own_sessions() {
    assert_eq!(
        revoke_my_session(Some(session(1)), UserId::new(1)).ok(),
        Some(SessionId::new(0x67e5504410b1426f9247bb680e5fe0c8))
    );
    assert_eq!(parts(revoke_my_session(Some(session(1)), UserId::new(2)).err().unwrap()), (403, "Forbidden".to_string()));
    assert_eq!(parts(revoke_my_session(None, UserId::new(1)).err().unwrap()), (404, "Not found".to_string()));
}

#[test]
fn requests_without_an_access_cookie_are_unauthorized() {
    assert_eq!(parts(UserExtractor::access_token(None).err().unwrap()), (401, "unauthorized".to_string()));
    assert_eq!(parts(AdminExtractor::access_token(None).err().unwrap()), (401, "Unauthorized".to_string()));
    assert_eq!(UserExtractor::access_token(Some("t".to_string())).ok().as_deref(), Some("t"));
    assert_eq!(AdminExtractor::access_token(Some("t".to_string())).ok().as_deref(), Some("t"));
}

#[test]
fn only_administrators_pass_the_admin_check() {
    let claims = |is_admin, exp| Claims {
        jti: 0,
        iss: "AUTH_SERVER".to_string(),
        sub: 1,
        iat: 0,
        exp,
        aud: String::new(),
        sid: 2,
        is_admin,
    };
    let live = || Ok(Some(session(1)));
    assert!(AdminExtractor::authorize_at(Ok(claims(true, 100)), live(), 50).is_ok());
    assert_eq!(
        parts(AdminExtractor::authorize_at(Ok(claims(false, 100)), live(), 50).err().unwrap()),
        (403, "Forbidden".to_string())
    );
    assert!(AdminExtractor::authorize_at(Ok(claims(true, 49)), live(), 50).is_err());
    assert!(AdminExtractor::authorize_at(Ok(claims(true, 100)), Ok(None), 50).is_err());
    let mut revoked = session(1);
    revoked.revoked_at = Some(10);
    assert!(AdminExtractor::authorize_at(Ok(claims(true, 100)), Ok(Some(revoked)), 50).is_err());
    assert!(AdminExtractor::authorize_at(Err(TokenError::InvalidToken(String::new())), live(), 50).is_err());
    assert!(AdminExtractor::authorize(Ok(claims(true, 0)), live()).is_err());
}
