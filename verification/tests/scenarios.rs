use auth_service::data_stores::{BannedTokenStore, TwoFACodeStore, UserStore};
use auth_service::email_client::MockEmailClient;
use auth_service::hashmap_two_fa_code_store::HashmapTwoFACodeStore;
use auth_service::hashmap_user_store::HashmapUserStore;
use auth_service::hashset_banned_token_store::HashsetBannedTokenStore;
use auth_service::login::{login, LoginRequest, LoginResponse};
use auth_service::logout::logout;
use auth_service::signup::{signup, SignupRequest, SignupResponse};
use auth_service::token::TokenService;
use auth_service::verify_2fa::{verify_2fa, Verify2FARequest};
use auth_service::verify_token::{verify_token, TokenToBeVerified};
use auth_service::{AuthAPIError, Email};

struct App {
    user_store: HashmapUserStore,
    banned_token_store: HashsetBannedTokenStore,
    two_fa_code_store: HashmapTwoFACodeStore,
    email_client: MockEmailClient,
    token_service: TokenService,
    now: u64,
}

fn app() -> App {
    App {
        user_store: HashmapUserStore::default(),
        banned_token_store: HashsetBannedTokenStore::default(),
        two_fa_code_store: HashmapTwoFACodeStore::default(),
        email_client: MockEmailClient,
        token_service: TokenService::new("app-secret".to_string()),
        now: 1_700_000_000,
    }
}

fn do_signup(app: &mut App, email: &str, pw: &str, requires_2fa: bool) -> Result<SignupResponse, AuthAPIError> {
    signup(
        &mut app.user_store,
        SignupRequest { email: email.to_string(), password: pw.to_string(), requires_2fa },
    )
}

fn do_login(
    app: &mut App,
    email: &str,
    pw: &str,
) -> Result<(LoginResponse, Option<String>), AuthAPIError> {
    login(
        &app.user_store,
        &mut app.two_fa_code_store,
        &app.email_client,
        &app.token_service,
        LoginRequest { email: email.to_string(), password: pw.to_string() },
        app.now,
    )
}

#[test]
fn signup_then_login_without_second_factor_grants_session() {
    let mut app = app();
    let resp = do_signup(&mut app, "a@b.com", "password123", false).unwrap();
    assert_eq!(resp.message, "User created successfully!");

    let (response, cookie) = do_login(&mut app, "a@b.com", "password123").unwrap();
    assert!(matches!(response, LoginResponse::RegularAuth));
    let token = cookie.unwrap();
    assert!(!token.is_empty());

    let subject = app.token_service.validate(&token, app.now).unwrap();
    assert_eq!(subject, "a@b.com");
}

#[test]
fn signup_with_second_factor_then_verify_then_replay_is_rejected() {
    let mut app = app();
    do_signup(&mut app, "testuser@example.com", "password123", true).unwrap();

    let (response, cookie) = do_login(&mut app, "testuser@example.com", "password123").unwrap();
    assert!(cookie.is_none());
    let two_fa = match response {
        LoginResponse::TwoFactorAuth(t) => t,
        LoginResponse::RegularAuth => panic!("expected a second-factor response"),
    };
    assert_eq!(two_fa.message, "2FA required");
    assert!(!two_fa.login_attempt_id.is_empty());

    let stored_email = Email::parse("testuser@example.com".to_string()).unwrap();
    let (_, code) = app.two_fa_code_store.get_code(&stored_email).unwrap();

    let request = Verify2FARequest {
        email: "testuser@example.com".to_string(),
        login_attempt_id: two_fa.login_attempt_id.clone(),
        two_fa_code: code.as_ref().to_string(),
    };
    let session = verify_2fa(
        &mut app.two_fa_code_store,
        &app.token_service,
        Verify2FARequest {
            email: request.email.clone(),
            login_attempt_id: request.login_attempt_id.clone(),
            two_fa_code: request.two_fa_code.clone(),
        },
        app.now,
    )
    .unwrap();
    assert!(!session.is_empty());
    let subject = app.token_service.validate(&session, app.now).unwrap();
    assert_eq!(subject, "testuser@example.com");

    let replay = verify_2fa(&mut app.two_fa_code_store, &app.token_service, request, app.now);
    assert!(matches!(replay, Err(AuthAPIError::IncorrectCredentials)));
    assert_eq!(replay.unwrap_err().status_code(), 401);
}

#[test]
fn second_challenge_invalidates_the_first() {
    let mut app = app();
    do_signup(&mut app, "testuser@example.com", "password123", true).unwrap();

    let (first, _) = do_login(&mut app, "testuser@example.com", "password123").unwrap();
    let first = match first {
        LoginResponse::TwoFactorAuth(t) => t,
        LoginResponse::RegularAuth => panic!("expected a second-factor response"),
    };
    let stored_email = Email::parse("testuser@example.com".to_string()).unwrap();
    let (_, first_code) = app.two_fa_code_store.get_code(&stored_email).unwrap();
    let first_code = first_code.as_ref().to_string();

    // A second login overwrites the outstanding challenge.
    do_login(&mut app, "testuser@example.com", "password123").unwrap();

    let replay = verify_2fa(
        &mut app.two_fa_code_store,
        &app.token_service,
        Verify2FARequest {
            email: "testuser@example.com".to_string(),
            login_attempt_id: first.login_attempt_id,
            two_fa_code: first_code,
        },
        app.now,
    );
    assert!(matches!(replay, Err(AuthAPIError::IncorrectCredentials)));
}

#[test]
fn logout_revokes_the_session_token() {
    let mut app = app();
    do_signup(&mut app, "email@example.com", "password123", false).unwrap();
    let (_, cookie) = do_login(&mut app, "email@example.com", "password123").unwrap();
    let token = cookie.unwrap();

    logout(&app.token_service, &mut app.banned_token_store, Some(&token), app.now).unwrap();

    assert!(app.banned_token_store.token_exists(&token).unwrap());
    let check = verify_token(
        &app.token_service,
        &app.banned_token_store,
        TokenToBeVerified { token: token.clone() },
        app.now,
    );
    assert!(matches!(check, Err(AuthAPIError::InvalidToken)));
    assert_eq!(check.unwrap_err().status_code(), 401);
}

#[test]
fn logout_without_cookie_is_a_distinct_client_error() {
    let mut app = app();
    let missing = logout(&app.token_service, &mut app.banned_token_store, None, app.now);
    let missing = missing.unwrap_err();
    assert!(matches!(missing, AuthAPIError::MissingToken));
    assert_eq!(missing.status_code(), 400);
    assert_eq!(missing.message(), "Missing auth token");

    let invalid = logout(&app.token_service, &mut app.banned_token_store, Some("invalid"), app.now);
    let invalid = invalid.unwrap_err();
    assert!(matches!(invalid, AuthAPIError::InvalidToken));
    assert_eq!(invalid.status_code(), 401);
    assert_eq!(invalid.message(), "Invalid auth token");
}

#[test]
fn unknown_email_and_wrong_password_are_indistinguishable() {
    let mut app = app();
    do_signup(&mut app, "known@example.com", "password123", false).unwrap();

    let unknown = do_login(&mut app, "unknown@example.com", "password123").unwrap_err();
    let wrong = do_login(&mut app, "known@example.com", "wrongpassword").unwrap_err();

    assert_eq!(unknown.status_code(), wrong.status_code());
    assert_eq!(unknown.message(), wrong.message());
    assert_eq!(unknown.error_response().error, wrong.error_response().error);
    assert_eq!(unknown.status_code(), 401);
    assert_eq!(unknown.message(), "Incorrect credentials");
}

#[test]
fn signup_rejects_taken_address_and_bad_input() {
    let mut app = app();
    do_signup(&mut app, "a@b.com", "password123", false).unwrap();

    let taken = do_signup(&mut app, "a@b.com", "password123", true).unwrap_err();
    assert!(matches!(taken, AuthAPIError::UserAlreadyExists));
    assert_eq!(taken.status_code(), 409);

    let bad_email = do_signup(&mut app, "emailemail.com", "password123", false).unwrap_err();
    assert!(matches!(bad_email, AuthAPIError::InvalidCredentials));
    assert_eq!(bad_email.status_code(), 400);

    let short_password = do_signup(&mut app, "c@d.com", "pwd", false).unwrap_err();
    assert!(matches!(short_password, AuthAPIError::InvalidCredentials));

    let empty_email = do_signup(&mut app, "", "password123", false).unwrap_err();
    assert!(matches!(empty_email, AuthAPIError::InvalidCredentials));
}

#[test]
fn verify_2fa_rejects_malformed_and_unknown_input() {
    let mut app = app();
    let malformed = verify_2fa(
        &mut app.two_fa_code_store,
        &app.token_service,
        Verify2FARequest {
            email: "email@email.com".to_string(),
            login_attempt_id: "invalid_attempt_id".to_string(),
            two_fa_code: "two_fa_code".to_string(),
        },
        app.now,
    )
    .unwrap_err();
    assert!(matches!(malformed, AuthAPIError::InvalidCredentials));
    assert_eq!(malformed.status_code(), 400);
    assert_eq!(malformed.message(), "Invalid credentials");

    let bad_email = verify_2fa(
        &mut app.two_fa_code_store,
        &app.token_service,
        Verify2FARequest {
            email: "emailemail.com".to_string(),
            login_attempt_id: "1234567890".to_string(),
            two_fa_code: "123456".to_string(),
        },
        app.now,
    )
    .unwrap_err();
    assert!(matches!(bad_email, AuthAPIError::InvalidCredentials));

    // Well-formed but with no outstanding challenge.
    let attempt_id = auth_service::LoginAttemptId::default();
    let no_challenge = verify_2fa(
        &mut app.two_fa_code_store,
        &app.token_service,
        Verify2FARequest {
            email: "email@email.com".to_string(),
            login_attempt_id: attempt_id.as_ref().to_string(),
            two_fa_code: "123456".to_string(),
        },
        app.now,
    )
    .unwrap_err();
    assert!(matches!(no_challenge, AuthAPIError::IncorrectCredentials));
}

#[test]
fn addresses_are_case_normalized() {
    let mut app = app();
    do_signup(&mut app, "User@Example.COM", "password123", false).unwrap();
    let (_, cookie) = do_login(&mut app, "user@example.com", "password123").unwrap();
    let token = cookie.unwrap();
    let subject = app.token_service.validate(&token, app.now).unwrap();
    assert_eq!(subject, "user@example.com");
}
