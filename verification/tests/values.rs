use auth_service::challenge::ChallengeStore;
use auth_service::data_stores::TwoFACodeStoreError;
use auth_service::digits::{format_dec, format_hex, parse_dec_u64, pow10_u64, pow16_u64};
use auth_service::{Email, LoginAttemptId, Password, TwoFACode, ValidationError};

#[test]
fn decimal_formatting_exact_values() {
    assert_eq!(format_dec(42, 6), "000042");
    assert_eq!(format_dec(600, 20), "00000000000000000600");
    assert_eq!(format_dec(0, 1), "0");
    assert_eq!(format_dec(u64::MAX, 20), "18446744073709551615");
}

#[test]
fn hex_formatting_exact_values() {
    assert_eq!(format_hex(255, 4), "00ff");
    assert_eq!(format_hex(0xdead_beef, 8), "deadbeef");
    assert_eq!(format_hex(0, 16), "0000000000000000");
}

#[test]
fn decimal_parsing_round_trip_and_rejection() {
    assert_eq!(parse_dec_u64("000600"), Some(600));
    assert_eq!(parse_dec_u64(""), Some(0));
    assert_eq!(parse_dec_u64("18446744073709551615"), Some(u64::MAX));
    assert_eq!(parse_dec_u64("18446744073709551616"), None);
    assert_eq!(parse_dec_u64("12a4"), None);
}

#[test]
fn powers_exact_values() {
    assert_eq!(pow10_u64(0), 1);
    assert_eq!(pow10_u64(6), 1_000_000);
    assert_eq!(pow10_u64(19), 10_000_000_000_000_000_000);
    assert_eq!(pow16_u64(15), 0x1000_0000_0000_0000);
}

#[test]
fn email_validation_and_normalization() {
    assert!(Email::parse("a@b.com".to_string()).is_ok());
    assert_eq!(Email::parse("A@B.COM".to_string()).unwrap().as_ref(), "a@b.com");
    assert!(matches!(
        Email::parse("not-an-email".to_string()),
        Err(ValidationError::InvalidEmail)
    ));
    assert!(matches!(Email::parse(String::new()), Err(ValidationError::InvalidEmail)));
}

#[test]
fn password_minimum_length() {
    assert!(Password::parse("password".to_string()).is_ok());
    assert!(Password::parse("passwor".to_string()).is_err());
    assert!(Password::parse(String::new()).is_err());
}

#[test]
fn attempt_id_shape() {
    let id = LoginAttemptId::default();
    assert_eq!(id.as_ref().len(), 32);
    assert!(LoginAttemptId::parse(id.as_ref().to_string()).is_ok());
    assert!(matches!(
        LoginAttemptId::parse("invalid_attempt_id".to_string()),
        Err(ValidationError::InvalidLoginAttemptId)
    ));
    assert!(matches!(
        LoginAttemptId::parse("1234567890".to_string()),
        Err(ValidationError::InvalidLoginAttemptId)
    ));
}

#[test]
fn two_fa_code_shape() {
    let code = TwoFACode::default();
    assert_eq!(code.as_ref().len(), 6);
    assert!(code.as_ref().chars().all(|c| c.is_ascii_digit()));
    assert!(TwoFACode::parse("123456".to_string()).is_ok());
    assert!(matches!(
        TwoFACode::parse("123".to_string()),
        Err(ValidationError::InvalidTwoFACode)
    ));
    assert!(matches!(
        TwoFACode::parse("12345a".to_string()),
        Err(ValidationError::InvalidTwoFACode)
    ));
}

#[test]
fn challenge_store_serializes_pair_exactly() {
    let mut store = ChallengeStore::new();
    let email = Email::parse("user@example.com".to_string()).unwrap();
    let id = LoginAttemptId::default();
    let code = TwoFACode::parse("042099".to_string()).unwrap();
    let now: u64 = 10_000;

    store.add_code(&email, &id, &code, now);
    let (got_id, got_code) = store.get_code(&email, now).unwrap();
    assert_eq!(got_id.as_ref(), id.as_ref());
    assert_eq!(got_code.as_ref(), "042099");
}

#[test]
fn challenge_store_entries_expire() {
    let mut store = ChallengeStore::new();
    let email = Email::parse("user@example.com".to_string()).unwrap();
    let id = LoginAttemptId::default();
    let code = TwoFACode::parse("123456".to_string()).unwrap();
    let now: u64 = 10_000;

    store.add_code(&email, &id, &code, now);
    assert!(store.get_code(&email, now + 599).is_ok());
    assert!(matches!(
        store.get_code(&email, now + 600),
        Err(TwoFACodeStoreError::LoginAttemptIdNotFound)
    ));
}

#[test]
fn challenge_store_removal_is_permanent() {
    let mut store = ChallengeStore::new();
    let email = Email::parse("user@example.com".to_string()).unwrap();
    let id = LoginAttemptId::default();
    let code = TwoFACode::parse("123456".to_string()).unwrap();
    store.add_code(&email, &id, &code, 0);
    store.remove_code(&email);
    assert!(store.get_code(&email, 0).is_err());
}

#[test]
fn store_keys_are_namespaced() {
    let email = Email::parse("user@example.com".to_string()).unwrap();
    assert_eq!(auth_service::challenge::get_key(&email), "two_fa_code:user@example.com");
    assert_eq!(auth_service::revocation::get_key("tok"), "banned_token:tok");
}

#[test]
fn error_report_frames_message_and_cause() {
    let separator =
        "\n-----------------------------------------------------------------------------------\n";
    let e = auth_service::AuthAPIError::UnexpectedError("backing store unreachable".to_string());
    let report = auth_service::error::log_error_chain(&e);
    assert_eq!(
        report,
        format!("{separator}Unexpected error\nCaused by:\n\nbacking store unreachable{separator}")
    );
    let plain = auth_service::error::log_error_chain(&auth_service::AuthAPIError::MissingToken);
    assert_eq!(plain, format!("{separator}Missing auth token{separator}"));
}
