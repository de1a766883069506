use cycling_tracker::grpc::auth::{check_session_token, SessionAuthService};
use cycling_tracker::handler::redis::RedisHandler;
use cycling_tracker::handler::session::SessionHandler;
use cycling_tracker::handler::sqlite::SQLiteHandler;
use cycling_tracker::handler::user::UserHandler;
use cycling_tracker::status::{Code, Credentials, SignUpResult};

fn credentials() -> Credentials {
    Credentials { username: "User".to_string(), password: "Password".to_string() }
}

fn auth_service() -> SessionAuthService {
    SessionAuthService::new(
        UserHandler { sqlite_handler: SQLiteHandler::new() },
        SessionHandler { redis_handler: RedisHandler::new() },
    )
}

#[test]
fn test_check_session_token_valid() {
    let token = "Bearer session-token".to_string();

    let result = check_session_token(Some(&token));

    assert!(result.is_ok());
}

#[test]
fn test_check_session_token_invalid() {
    let token = "Bearer invalid-token".to_string();

    let result = check_session_token(Some(&token));

    assert!(result.is_err());
    assert_eq!(result.unwrap_err().code(), Code::Unauthenticated);
}

#[test]
fn test_check_session_token_no_token() {
    let result = check_session_token(None);

    assert!(result.is_err());
    assert_eq!(result.unwrap_err().code(), Code::Unauthenticated);
}

#[test]
fn grpc_test_check_session_token_valid() {
    let token = "Bearer session-token".to_string();

    let result = check_session_token(Some(&token));

    assert!(result.is_ok());
}

#[test]
fn grpc_test_check_session_token_invalid() {
    let token = "Bearer invalid-token".to_string();

    let result = check_session_token(Some(&token));

    assert!(result.is_err());
    assert_eq!(result.unwrap_err().code(), Code::Unauthenticated);
}

#[test]
fn grpc_test_check_session_token_no_token() {
    let result = check_session_token(None);

    assert!(result.is_err());
    assert_eq!(result.unwrap_err().code(), Code::Unauthenticated);
}

#[test]
fn test_new_user_login() {
    let mut auth = auth_service();

    let response = auth.sign_up(credentials()).expect("Failed to sign up");

    assert_eq!(response, SignUpResult { result: true });

    auth.login(credentials()).expect("Failed to login");
}

#[test]
fn test_user_already_exists() {
    let mut auth = auth_service();

    let response = auth.sign_up(credentials()).expect("Failed to sign up");

    assert_eq!(response, SignUpResult { result: true });

    let response = auth.sign_up(credentials()).expect_err("User created when it shouldn't have");

    assert_eq!(response.code(), Code::AlreadyExists);
}

#[test]
fn test_invalid_credentials() {
    let mut auth = auth_service();

    let response = auth.login(credentials()).expect_err("Login succeeded when it shouldn't have");

    assert_eq!(response.code(), Code::Unauthenticated);
}

#[test]
fn login_wrong_password_is_rejected() {
    let mut auth = auth_service();
    auth.sign_up(credentials()).expect("Failed to sign up");

    let wrong = Credentials { username: "User".to_string(), password: "WrongPassword".to_string() };
    let response = auth.login(wrong).expect_err("Login succeeded with the wrong password");

    assert_eq!(response.code(), Code::Unauthenticated);
    assert_eq!(response.message, "Invalid credentials");
}

#[test]
fn login_issues_token_bound_to_user() {
    let mut auth = auth_service();
    auth.sign_up(credentials()).expect("Failed to sign up");

    let session = auth.login(credentials()).expect("Failed to login");
    assert_eq!(session.token.len(), 36);

    let user = auth
        .session_handler
        .verify_session_token(Some(&session.token))
        .expect("Issued token should verify");
    assert_eq!(user, "User");
}

#[test]
fn issue_then_verify_returns_user() {
    let mut session = SessionHandler { redis_handler: RedisHandler::new() };

    let token = session.start("alice".to_string());
    assert_eq!(token.len(), 36);

    let user = session.verify_session_token(Some(&token)).expect("Fresh token should verify");
    assert_eq!(user, "alice");
}

#[test]
fn verify_unknown_token_is_invalid() {
    let session = SessionHandler { redis_handler: RedisHandler::new() };

    let token = "nonexistent-token".to_string();
    let err = session.verify_session_token(Some(&token)).unwrap_err();

    assert_eq!(err.code(), Code::Unauthenticated);
    assert_eq!(err.message, "Invalid session token");
}

#[test]
fn verify_missing_token_reason_is_distinct() {
    let session = SessionHandler { redis_handler: RedisHandler::new() };

    let err = session.verify_session_token(None).unwrap_err();

    assert_eq!(err.code(), Code::Unauthenticated);
    assert_eq!(err.message, "Session token not provided");
}

#[test]
fn token_lapses_after_ttl() {
    let mut session = SessionHandler { redis_handler: RedisHandler::new() };
    let token = session.start("alice".to_string());

    session.redis_handler.advance_clock(299);
    assert!(session.verify_session_token(Some(&token)).is_ok());

    session.redis_handler.advance_clock(1);
    assert!(session.verify_session_token(Some(&token)).is_err());
}

#[test]
fn set_key_overwrites_earlier_binding() {
    let mut store = RedisHandler::new();
    let key = "session-token".to_string();

    store.set_key(&key, &"user1".to_string(), None);
    store.set_key(&key, &"user2".to_string(), None);

    assert_eq!(store.get_key(&key), Some("user2".to_string()));
}

#[test]
fn get_key_unknown_is_none() {
    let store = RedisHandler::new();

    assert_eq!(store.get_key(&"missing".to_string()), None);
}
