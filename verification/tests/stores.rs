use auth_service::data_stores::{
    BannedTokenStore, TwoFACodeStore, TwoFACodeStoreError, UserStore, UserStoreError,
};
use auth_service::hashmap_two_fa_code_store::HashmapTwoFACodeStore;
use auth_service::hashmap_user_store::HashmapUserStore;
use auth_service::hashset_banned_token_store::HashsetBannedTokenStore;
use auth_service::{Email, LoginAttemptId, Password, TwoFACode, User};

fn email(s: &str) -> Email {
    Email::parse(s.to_string()).unwrap()
}

fn password(s: &str) -> Password {
    Password::parse(s.to_string()).unwrap()
}

#[test]
fn test_add_token() {
    let mut store = HashsetBannedTokenStore::default();
    let token = "test_token".to_string();

    let result = store.store_token(token.clone());

    assert!(result.is_ok());
    assert!(store.token_exists(&token).unwrap());
}

#[test]
fn test_contains_token() {
    let mut store = HashsetBannedTokenStore::default();
    let token = "test_token".to_string();
    store.store_token(token.clone()).unwrap();

    let result = store.token_exists(&token);

    assert!(result.unwrap());
}

#[test]
fn banned_store_does_not_contain_other_tokens() {
    let mut store = HashsetBannedTokenStore::default();
    store.store_token("one".to_string()).unwrap();
    assert!(!store.token_exists("two").unwrap());
}

#[test]
fn user_store_add_and_get() {
    let mut store = HashmapUserStore::default();
    let user = User {
        email: email("user@example.com"),
        password: password("password123"),
        requires_2fa: true,
    };
    store.add_user(user).unwrap();

    let fetched = store.get_user(&email("user@example.com")).unwrap();
    assert_eq!(fetched.email.as_ref(), "user@example.com");
    assert_eq!(fetched.password.as_ref(), "password123");
    assert!(fetched.requires_2fa);
}

#[test]
fn user_store_rejects_duplicate() {
    let mut store = HashmapUserStore::default();
    let make = || User {
        email: email("user@example.com"),
        password: password("password123"),
        requires_2fa: false,
    };
    store.add_user(make()).unwrap();
    assert_eq!(store.add_user(make()), Err(UserStoreError::UserAlreadyExists));
}

#[test]
fn user_store_validate_user() {
    let mut store = HashmapUserStore::default();
    store
        .add_user(User {
            email: email("user@example.com"),
            password: password("password123"),
            requires_2fa: false,
        })
        .unwrap();

    assert!(store.validate_user(&email("user@example.com"), &password("password123")).is_ok());
    assert_eq!(
        store.validate_user(&email("user@example.com"), &password("wrongpassword")),
        Err(UserStoreError::InvalidCredentials)
    );
    assert_eq!(
        store.validate_user(&email("other@example.com"), &password("password123")),
        Err(UserStoreError::UserNotFound)
    );
}

#[test]
fn two_fa_store_round_trip_and_removal() {
    let mut store = HashmapTwoFACodeStore::default();
    let id = LoginAttemptId::default();
    let code = TwoFACode::parse("123456".to_string()).unwrap();
    store
        .add_code(email("user@example.com"), id.clone(), code)
        .unwrap();

    let (got_id, got_code) = store.get_code(&email("user@example.com")).unwrap();
    assert_eq!(got_id.as_ref(), id.as_ref());
    assert_eq!(got_code.as_ref(), "123456");

    store.remove_code(&email("user@example.com")).unwrap();
    assert!(matches!(
        store.get_code(&email("user@example.com")),
        Err(TwoFACodeStoreError::LoginAttemptIdNotFound)
    ));
}

#[test]
fn two_fa_store_overwrites_previous_challenge() {
    let mut store = HashmapTwoFACodeStore::default();
    let first = LoginAttemptId::default();
    let second = LoginAttemptId::default();
    store
        .add_code(
            email("user@example.com"),
            first,
            TwoFACode::parse("111111".to_string()).unwrap(),
        )
        .unwrap();
    store
        .add_code(
            email("user@example.com"),
            second.clone(),
            TwoFACode::parse("222222".to_string()).unwrap(),
        )
        .unwrap();

    let (got_id, got_code) = store.get_code(&email("user@example.com")).unwrap();
    assert_eq!(got_id.as_ref(), second.as_ref());
    assert_eq!(got_code.as_ref(), "222222");
}
