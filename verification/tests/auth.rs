use idp::auth_service::{AuthService, VerifyResult, ISSUER_NAME, REFRESH_SESSION_LIFETIME};
use idp::crypto::TokenHandler;
use idp::errors::{AuthError, SessionRepositoryError, TokenError, UserRepositoryError};
use idp::ids::{SessionId, UserId};
use idp::instant::NANOS_PER_DAY;
use idp::model::{Claims, Session, User, UserType};
use idp::token_service::TokenService;

fn service() -> AuthService {
    AuthService::new(TokenService::new())
}

fn validation_message(r: Result<(), AuthError>) -> String {
    match r {
        Err(AuthError::Validation(m)) => m,
        _ => panic!("expected a validation error"),
    }
}

fn stored_user(password_hash: String) -> User {
    User {
        uid: UserId::new(7),
        uname: "alice".to_string(),
        email: "alice@example.com".to_string(),
        password_hash,
        created_at: 0,
        role: UserType::Normal,
        mfa: false,
    }
}

fn live_session(uid: u128) -> Session {
    Session {
        id: SessionId::new(99),
        uid: UserId::new(uid),
        token_hash: "h".to_string(),
        created_at: 0,
        expires_at: i128::MAX / 4,
        last_seen_at: 0,
        revoked_at: None,
        user_agent: None,
        ip_address: None,
    }
}

fn claims(iss: &str, exp: i128) -> Claims {
    Claims {
        jti: 1,
        iss: iss.to_string(),
        sub: 7,
        iat: 0,
        exp,
        aud: "app".to_string(),
        sid: 99,
        is_admin: false,
    }
}

#[test]
fn registration_refusals_come_in_order() {
    assert_eq!(validation_message(AuthService::validate_registration(" ", "", "")), "Email is empty");
    assert_eq!(
        validation_message(AuthService::validate_registration("a@b.c", "\t", "")),
        "Username is empty"
    );
    assert_eq!(
        validation_message(AuthService::validate_registration("a@b.c", "bob", "1234567")),
        "Password is too short"
    );
    assert!(AuthService::validate_registration("a@b.c", "bob", "12345678").is_ok());
}

#[test]
fn password_length_counts_utf8_bytes() {
    // Four characters, eight bytes.
    assert!(AuthService::validate_registration("a@b.c", "bob", "ääää").is_ok());
    assert!(AuthService::validate_login("a@b.c", "äää").is_err());
}

#[test]
fn login_refusals_come_before_the_lookup() {
    assert_eq!(validation_message(AuthService::validate_login("", "12345678")), "Email is empty");
    assert_eq!(validation_message(AuthService::validate_login("a@b.c", "short")), "Password is too short");
    assert!(AuthService::validate_login("a@b.c", "long enough").is_ok());
}

#[test]
fn registered_password_is_accepted_and_others_refused() {
    let svc = service();
    let new_user = svc
        .register("alice@example.com".to_string(), "alice".to_string(), "correct horse".to_string())
        .ok()
        .expect("registration");
    assert_eq!(new_user.name, "alice");
    assert_eq!(new_user.email, "alice@example.com");
    assert!(new_user.role.is_none());
    assert!(new_user.password_hash.starts_with("$argon2"));
    let user = stored_user(new_user.password_hash.clone());
    let ok = AuthService::check_credentials("correct horse", Ok(Some(user)));
    assert!(matches!(ok, Ok(u) if u.uname == "alice"));
    let user = stored_user(new_user.password_hash);
    match AuthService::check_credentials("wrong horse!", Ok(Some(user))) {
        Err(AuthError::InvalidCredentials(m)) => assert_eq!(m, "invalid email or password"),
        _ => panic!("expected invalid credentials"),
    }
}

#[test]
fn register_refuses_invalid_input() {
    let r = service().register("".to_string(), "bob".to_string(), "12345678".to_string());
    assert!(matches!(r, Err(AuthError::Validation(m)) if m == "Email is empty"));
}

#[test]
fn credential_check_reports_each_failure() {
    match AuthService::check_credentials("whatever1", Ok(None)) {
        Err(AuthError::InvalidCredentials(m)) => assert_eq!(m, "Email invalid"),
        _ => panic!("expected invalid credentials"),
    }
    assert!(matches!(
        AuthService::check_credentials("whatever1", Err(UserRepositoryError::Conflict)),
        Err(AuthError::UserRepo(UserRepositoryError::Conflict))
    ));
    assert!(matches!(
        AuthService::check_credentials("whatever1", Ok(Some(stored_user("not a hash".to_string())))),
        Err(AuthError::HashParse(_))
    ));
}

#[test]
fn login_plans_a_thirty_day_session_under_the_token_hash() {
    let svc = service();
    let hash = svc.hash_password("correct horse").ok().expect("hash");
    let plan = svc
        .login("alice@example.com".to_string(), "correct horse".to_string(), Ok(Some(stored_user(hash))), b"refresh-key")
        .ok()
        .expect("login");
    assert_eq!(plan.refresh_token.len(), 43);
    assert_eq!(plan.session.uid, UserId::new(7));
    assert_eq!(plan.session.token_hash, TokenHandler::hash_token(&plan.refresh_token, b"refresh-key"));
    assert_eq!(plan.session.expires_at, plan.refresh_expires_at);
    assert!(plan.session.revoked_at.is_none());
    // Logging out with that token targets exactly that session.
    assert_eq!(svc.logout(&plan.refresh_token, b"refresh-key"), plan.session.token_hash);
}

#[test]
fn begin_session_sets_expiry_thirty_days_ahead() {
    let plan = AuthService::begin_session(stored_user(String::new()), "tok".to_string(), b"k", 1_000);
    assert_eq!(plan.refresh_expires_at, 1_000 + 30 * NANOS_PER_DAY);
    assert_eq!(REFRESH_SESSION_LIFETIME, 30 * NANOS_PER_DAY);
    assert_eq!(plan.session.token_hash, TokenHandler::hash_token("tok", b"k"));
}

#[test]
fn access_tokens_are_issued_for_the_session() {
    let svc = service();
    let (token, c) = svc.access_token_for(&live_session(7), "app".to_string(), b"ak").ok().expect("issued");
    assert_eq!(c.iss, ISSUER_NAME);
    assert_eq!(c.sub, 7);
    assert_eq!(c.sid, 99);
    assert_eq!(c.aud, "app");
    assert_eq!(c.exp - c.iat, 3_600_000_000_000);
    assert!(!c.is_admin);
    assert_eq!(token.split('.').count(), 3);
}

#[test]
fn complete_login_carries_the_access_token_of_the_session() {
    let svc = service();
    let r = svc.complete_login(stored_user(String::new()), "rt".to_string(), 77, &live_session(7), "app".to_string(), b"ak");
    let res = r.ok().expect("login result");
    assert_eq!(res.access_token.split('.').count(), 3);
    assert_eq!(res.refresh_token, "rt");
    assert_eq!(res.refresh_expires_at, 77);
    assert_eq!(res.user.uid, UserId::new(7));
    assert!(res.access_expires_at > 0);
}

#[test]
fn token_of_a_live_session_is_accepted() {
    let svc = service();
    let r = svc.verify_token_at(Ok(claims(ISSUER_NAME, 10_000)), Ok(Some(live_session(7))), 5_000);
    let v = r.ok().expect("accepted");
    assert_eq!(v.uid, 7);
    assert_eq!(v.sid, 99);
}

#[test]
fn token_of_a_revoked_or_expired_session_is_refused() {
    let svc = service();
    let mut revoked = live_session(7);
    revoked.revoked_at = Some(1);
    let r = svc.verify_token_at(Ok(claims(ISSUER_NAME, 10_000)), Ok(Some(revoked)), 5_000);
    assert!(matches!(r, Err(AuthError::InvalidCredentials(m)) if m == "invalid access token"));
    let mut expired = live_session(7);
    expired.expires_at = 5_000;
    let r = svc.verify_token_at(Ok(claims(ISSUER_NAME, 10_000)), Ok(Some(expired)), 5_000);
    assert!(matches!(r, Err(AuthError::InvalidCredentials(_))));
    let r = svc.verify_token_at(Ok(claims(ISSUER_NAME, 10_000)), Ok(None), 5_000);
    assert!(matches!(r, Err(AuthError::InvalidCredentials(_))));
    let r = svc.verify_token_at(Ok(claims(ISSUER_NAME, 10_000)), Err(SessionRepositoryError::Conflict), 5_000);
    assert!(matches!(r, Err(AuthError::InvalidCredentials(_))));
}

#[test]
fn expired_token_or_foreign_issuer_does_not_authenticate() {
    let svc = service();
    let r = svc.verify_token_at(Ok(claims(ISSUER_NAME, 4_999)), Ok(Some(live_session(7))), 5_000);
    assert!(matches!(r, Err(AuthError::Authentication)));
    let r = svc.verify_token_at(Ok(claims("SOMEONE_ELSE", 10_000)), Ok(Some(live_session(7))), 5_000);
    assert!(matches!(r, Err(AuthError::Authentication)));
    let r = svc.verify_token_at(Ok(claims(ISSUER_NAME, 5_000)), Ok(Some(live_session(7))), 5_000);
    assert!(r.is_ok());
}

#[test]
fn undecodable_token_is_invalid() {
    let r = service().verify_token_at(Err(TokenError::InvalidToken("x".to_string())), Ok(None), 0);
    assert!(matches!(r, Err(AuthError::InvalidCredentials(m)) if m == "invalid access token"));
}

#[test]
fn verify_claims_checks_expiry_then_issuer() {
    let r = AuthService::verify_claims(Ok(claims(ISSUER_NAME, 10)), 11);
    assert!(matches!(r, Err(AuthError::Authentication)));
    let r = AuthService::verify_claims(Ok(claims(ISSUER_NAME, 10)), 10);
    assert!(r.is_ok());
}

#[test]
fn refresh_rotates_the_session_found() {
    let svc = service();
    let session = live_session(7);
    let rt = svc.refresh_token(Ok(Some(session)), b"rk").ok().expect("rotated");
    assert_eq!(rt.session.id, SessionId::new(99));
    assert_eq!(rt.session.token_hash, TokenHandler::hash_token(&rt.refresh_token, b"rk"));
    assert!(rt.session.expires_at <= 90 * NANOS_PER_DAY);
    assert!(matches!(svc.refresh_token(Ok(None), b"rk"), Err(AuthError::InvalidSession)));
    assert!(matches!(
        svc.refresh_token(Err(SessionRepositoryError::NotFound), b"rk"),
        Err(AuthError::SessionRepo(SessionRepositoryError::NotFound))
    ));
    let mut revoked = live_session(7);
    revoked.revoked_at = Some(0);
    assert!(matches!(
        svc.refresh_token(Ok(Some(revoked)), b"rk"),
        Err(AuthError::Token(TokenError::InvalidToken(_)))
    ));
}

#[test]
fn a_token_issued_for_a_session_admits_its_user() {
    let svc = service();
    let (_, c) = svc.access_token_for(&live_session(7), "app".to_string(), b"ak").ok().expect("issued");
    let now = c.iat;
    let r = svc.verify_token_at(Ok(c), Ok(Some(live_session(7))), now);
    let v = r.ok().expect("admitted");
    assert_eq!(v.uid, 7);
    assert_eq!(v.sid, 99);
}

#[test]
fn logging_out_with_the_refreshed_token_finds_the_refreshed_session() {
    let svc = service();
    let rt = svc.refresh_token(Ok(Some(live_session(7))), b"rk").ok().expect("rotated");
    assert_eq!(svc.logout(&rt.refresh_token, b"rk"), rt.session.token_hash);
    assert_ne!(svc.logout("an older token", b"rk"), rt.session.token_hash);
}

#[test]
fn verification_now_admits_a_live_session_token() {
    let svc = service();
    let r = svc.verify_token(Ok(claims(ISSUER_NAME, i128::MAX / 8)), Ok(Some(live_session(7))));
    assert_eq!(r.ok().map(|v| (v.uid, v.sid)), Some((7, 99)));
    let r = svc.verify_token(Ok(claims(ISSUER_NAME, 0)), Ok(Some(live_session(7))));
    assert!(matches!(r, Err(AuthError::Authentication)));
}

#[test]
fn logout_revokes_only_the_access_tokens_session() {
    let verified = |sid| Ok(VerifyResult { uid: 7, sid });
    let r = AuthService::logout_session(verified(99), Ok(Some(live_session(7))));
    assert_eq!(r.ok(), Some(SessionId::new(99)));
    let r = AuthService::logout_session(verified(98), Ok(Some(live_session(7))));
    assert!(matches!(r, Err(AuthError::InvalidSession)));
    let r = AuthService::logout_session(verified(99), Ok(None));
    assert!(matches!(r, Err(AuthError::InvalidSession)));
    let r = AuthService::logout_session(verified(99), Err(SessionRepositoryError::Conflict));
    assert!(matches!(r, Err(AuthError::SessionRepo(SessionRepositoryError::Conflict))));
    let r = AuthService::logout_session(Err(AuthError::Authentication), Ok(Some(live_session(7))));
    assert!(matches!(r, Err(AuthError::Authentication)));
}

#[test]
fn a_taken_email_is_reported_as_such() {
    assert!(matches!(
        AuthService::registration_stored(Err(UserRepositoryError::Conflict)),
        Err(AuthError::EmailAlreadyExists)
    ));
    assert!(matches!(
        AuthService::registration_stored(Err(UserRepositoryError::Unexpected("db".to_string()))),
        Err(AuthError::UserRepo(UserRepositoryError::Unexpected(m))) if m == "db"
    ));
    assert!(AuthService::registration_stored(Ok(stored_user(String::new()))).is_ok());
}

#[test]
fn refresh_of_an_expired_session_is_a_token_error() {
    let mut expired = live_session(7);
    expired.expires_at = 1;
    assert!(matches!(
        service().refresh_token(Ok(Some(expired)), b"rk"),
        Err(AuthError::Token(TokenError::InvalidToken(m))) if m == "Refresh Token invalid"
    ));
}

#[test]
fn refresh_keeps_the_sessions_client_details() {
    let mut session = live_session(7);
    session.user_agent = Some("curl".to_string());
    session.ip_address = Some("10.0.0.1".to_string());
    session.last_seen_at = 5;
    let rt = service().refresh_token(Ok(Some(session)), b"rk").ok().expect("rotated");
    assert_eq!(rt.session.user_agent.as_deref(), Some("curl"));
    assert_eq!(rt.session.ip_address.as_deref(), Some("10.0.0.1"));
    assert_eq!(rt.session.last_seen_at, 5);
    assert_eq!(rt.session.revoked_at, None);
}
