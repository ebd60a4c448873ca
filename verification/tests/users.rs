use idp::auth_service::AuthService;
use idp::errors::{AdminError, DbFailure, SessionError, SessionRepositoryError, UserError, UserRepositoryError};
use idp::ids::UserId;
use idp::model::{UpdateUserCommand, User, UserType};
use idp::token_service::TokenService;
use idp::user_service::{AdminService, UserService};

fn user() -> User {
    User {
        uid: UserId::new(3),
        uname: "bob".to_string(),
        email: "bob@example.com".to_string(),
        password_hash: "stored-hash".to_string(),
        created_at: 0,
        role: UserType::Normal,
        mfa: false,
    }
}

fn service() -> UserService {
    UserService::new(AuthService::new(TokenService::new()))
}

fn cmd(username: Option<&str>, email: Option<&str>, password: Option<&str>, mfa: Option<bool>) -> UpdateUserCommand {
    UpdateUserCommand {
        username: username.map(|s| s.to_string()),
        email: email.map(|s| s.to_string()),
        new_password: password.map(|s| s.to_string()),
        mfa,
    }
}

fn refusal(r: Result<idp::model::UpdatedUser, UserError>) -> String {
    match r {
        Err(UserError::Validation(m)) => m,
        _ => panic!("expected a validation error"),
    }
}

#[test]
fn an_edit_must_name_a_field() {
    assert_eq!(refusal(service().update_user(user(), cmd(None, None, None, None))), "no fields to update");
}

#[test]
fn blank_values_are_refused_in_field_order() {
    assert_eq!(refusal(service().update_user(user(), cmd(Some(" "), Some(""), None, None))), "username is empty");
    assert_eq!(refusal(service().update_user(user(), cmd(None, Some("\t"), Some(" "), None))), "email is empty");
    assert_eq!(refusal(service().update_user(user(), cmd(None, None, Some("  "), None))), "password is empty");
}

#[test]
fn an_edit_keeps_the_fields_it_does_not_name() {
    let u = service().update_user(user(), cmd(None, None, None, Some(true))).ok().expect("updated");
    assert_eq!(u.id, UserId::new(3));
    assert_eq!(u.name, "bob");
    assert_eq!(u.email, "bob@example.com");
    assert_eq!(u.password_hash, "stored-hash");
    assert!(u.is_mfa_enabled);
    assert_eq!(u.role, user().role);
}

#[test]
fn elevation_makes_an_administrator_and_keeps_the_rest() {
    let change = AdminService::new().elevation(user());
    assert_eq!(change.role, UserType::Admin);
    assert_eq!(change.id, UserId::new(3));
    assert_eq!(change.name, "bob");
    assert_eq!(change.email, "bob@example.com");
    assert_eq!(change.password_hash, "stored-hash");
    assert_eq!(change.is_mfa_enabled, user().mfa);
}

#[test]
fn an_edit_replaces_the_fields_it_names() {
    let u = service()
        .update_user(user(), cmd(Some("robert"), Some("r@example.com"), Some("new secret"), None))
        .ok()
        .expect("updated");
    assert_eq!(u.name, "robert");
    assert_eq!(u.email, "r@example.com");
    assert!(!u.is_mfa_enabled);
    assert!(u.password_hash.starts_with("$argon2"));
    let stored = User { password_hash: u.password_hash.clone(), ..user() };
    assert!(AuthService::check_credentials("new secret", Ok(Some(stored))).is_ok());
}

#[test]
fn get_user_reports_a_missing_user() {
    assert!(matches!(UserService::get_user(Ok(None)), Err(UserError::NotFound)));
    assert!(matches!(UserService::get_user(Err(UserRepositoryError::NotFound)), Err(UserError::Repo(_))));
    assert!(matches!(UserService::get_user(Ok(Some(user()))), Ok(u) if u.uname == "bob"));
}

#[test]
fn elevation_failures_are_unexpected() {
    let admin = AdminService::new();
    assert!(matches!(admin.elevate_user(Err(UserRepositoryError::Conflict)), Err(AdminError::Unexpected)));
    assert!(admin.elevate_user(Ok(user())).is_ok());
}

#[test]
fn store_failures_map_to_repository_errors() {
    assert!(matches!(UserRepositoryError::from_db_failure(DbFailure::UniqueViolation), UserRepositoryError::Conflict));
    assert!(matches!(
        UserRepositoryError::from_db_failure(DbFailure::Other("boom".to_string())),
        UserRepositoryError::Unexpected(m) if m == "boom"
    ));
    assert!(matches!(SessionRepositoryError::from_db_failure(DbFailure::UniqueViolation), SessionRepositoryError::Conflict));
    assert!(matches!(
        SessionRepositoryError::from_db_failure(DbFailure::Other("x".to_string())),
        SessionRepositoryError::Unexpected(m) if m == "x"
    ));
}

#[test]
fn a_delete_of_nothing_is_not_found() {
    assert!(matches!(SessionRepositoryError::check_deleted(0), Err(SessionRepositoryError::NotFound)));
    assert!(SessionRepositoryError::check_deleted(2).is_ok());
}

#[test]
fn session_store_errors_become_service_errors() {
    assert!(matches!(SessionError::from_repo(SessionRepositoryError::NotFound), SessionError::NotFound));
    assert!(matches!(
        SessionError::from_repo(SessionRepositoryError::Conflict),
        SessionError::SessionRepo(SessionRepositoryError::Conflict)
    ));
    assert!(matches!(
        SessionError::from_repo(SessionRepositoryError::Unexpected("u".to_string())),
        SessionError::SessionRepo(SessionRepositoryError::Unexpected(_))
    ));
}
