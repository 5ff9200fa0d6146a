use auth_core::LoginPayload;
use auth_core::RegisterPayload;
use auth_core::ServiceError;
use auth_core::TOKEN_LIFETIME_SECS;
use auth_core::UserStore;
use auth_core::error_message;
use auth_core::login;
use auth_core::register;
use auth_core::status_code;
use auth_core::validate_jwt;

const SECRET: &str = "test-signing-secret";
const NOW: u64 = 1_700_000_000;

fn payload(email: &str, password: &str) -> RegisterPayload {
    RegisterPayload { email: email.to_string(), password: password.to_string() }
}

fn creds(email: &str, password: &str) -> LoginPayload {
    LoginPayload { email: email.to_string(), password: password.to_string() }
}

#[test]
fn register_then_login_end_to_end() {
    let mut store = UserStore::new();

    let registered = register(&mut store, payload("a@x.com", "pw123456"), NOW as i64).unwrap();
    assert_eq!(registered.email, "a@x.com");
    assert_eq!(registered.role, "user");
    assert_eq!(registered.created_at, Some(NOW as i64));
    assert_eq!(registered.id.len(), 36);

    let (token, user) = login(&store, SECRET, creds("a@x.com", "pw123456"), NOW).unwrap();
    assert_eq!(user.id, registered.id);
    assert_eq!(user.email, "a@x.com");
    assert_eq!(user.role, "user");

    let claims = validate_jwt(SECRET, &token, NOW).unwrap();
    assert_eq!(claims.sub, registered.id);
    assert_eq!(claims.exp, NOW + TOKEN_LIFETIME_SECS);

    let rejected = login(&store, SECRET, creds("a@x.com", "pw-wrong"), NOW);
    let err = rejected.unwrap_err();
    assert_eq!(err, ServiceError::Auth);
    assert_eq!(status_code(&err), 401);
}

#[test]
fn second_registration_of_same_email_conflicts() {
    let mut store = UserStore::new();
    register(&mut store, payload("a@x.com", "pw123456"), 1).unwrap();
    let second = register(&mut store, payload("a@x.com", "other-pw"), 2);
    let err = second.unwrap_err();
    assert_eq!(err, ServiceError::Conflict);
    assert_eq!(status_code(&err), 409);
    assert_eq!(error_message(&err), "email already registered");
    assert_eq!(store.len(), 1);
}

#[test]
fn unknown_email_and_wrong_password_are_indistinguishable() {
    let mut store = UserStore::new();
    register(&mut store, payload("a@x.com", "pw123456"), 1).unwrap();

    let unknown = login(&store, SECRET, creds("nobody@x.com", "pw123456"), NOW).unwrap_err();
    let wrong = login(&store, SECRET, creds("a@x.com", "pw-wrong"), NOW).unwrap_err();

    assert_eq!(unknown, wrong);
    assert_eq!(unknown, ServiceError::Auth);
    assert_eq!(error_message(&unknown), error_message(&wrong));
    assert_eq!(error_message(&unknown), "invalid credentials");
    assert_eq!(status_code(&unknown), status_code(&wrong));
    assert_eq!(status_code(&unknown), 401);
}

#[test]
fn registered_ids_are_distinct() {
    let mut store = UserStore::new();
    let first = register(&mut store, payload("a@x.com", "pw123456"), 1).unwrap();
    let second = register(&mut store, payload("b@x.com", "pw123456"), 2).unwrap();
    assert_ne!(first.id, second.id);
    assert_eq!(store.len(), 2);
}

#[test]
fn error_codes_and_messages_cover_the_taxonomy() {
    assert_eq!(status_code(&ServiceError::Conflict), 409);
    assert_eq!(status_code(&ServiceError::Auth), 401);
    assert_eq!(status_code(&ServiceError::NotFound), 404);
    assert_eq!(status_code(&ServiceError::Config), 500);
    assert_eq!(status_code(&ServiceError::Store), 500);
    assert_eq!(error_message(&ServiceError::Auth), "invalid credentials");
    assert_eq!(error_message(&ServiceError::Conflict), "email already registered");
    assert_eq!(error_message(&ServiceError::NotFound), "not found");
    assert_eq!(error_message(&ServiceError::Config), "server configuration error");
    assert_eq!(error_message(&ServiceError::Store), "internal server error");
}
