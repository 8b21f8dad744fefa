use auth_service::data_stores::{LoginAttemptId, TwoFACode};
use auth_service::email::Email;
use auth_service::password::{validate_password, Password};
use auth_service::user::User;

#[test]
fn email_empty_string_is_rejected() {
    let email = "".to_string();
    assert_eq!(
        Email::parse(email.clone()),
        Err("Invalid email: ".to_string() + &email)
    );
}

#[test]
fn email_missing_at_symbol_is_rejected() {
    let email = "test.com".to_string();
    assert_eq!(
        Email::parse(email.clone()),
        Err("Invalid email: ".to_string() + &email)
    );
}

#[test]
fn email_ordinary_address_is_accepted() {
    let email = Email::parse("test@example.com".to_string()).unwrap();
    assert_eq!(email.as_str(), "test@example.com");
}

#[test]
fn password_empty_string_is_rejected() {
    let empty_password = "".to_owned();

    let password = Password::parse(empty_password);

    assert_eq!(
        password,
        Err("Failed to parse string to a Password type".to_owned())
    );
}

#[test]
fn string_less_than_8_characters_is_rejected() {
    let password = "1234567".to_owned();
    assert!(Password::parse(password).is_err());
}

#[test]
fn password_of_8_characters_is_accepted() {
    assert!(validate_password("12345678"));
    assert!(!validate_password("1234567"));
    let password = Password::parse("password123".to_owned()).unwrap();
    assert_eq!(password.as_str(), "password123");
}

#[test]
fn two_fa_code_parses_exact_six_digits() {
    let code = TwoFACode::parse("123456".to_string()).unwrap();
    assert_eq!(code.as_str(), "123456");
    assert_eq!(
        TwoFACode::parse("12345".to_string()),
        Err("Invalid 2FA code".to_owned())
    );
    assert_eq!(
        TwoFACode::parse("1234567".to_string()),
        Err("Invalid 2FA code".to_owned())
    );
    assert_eq!(
        TwoFACode::parse("12345a".to_string()),
        Err("Invalid 2FA code".to_owned())
    );
    assert_eq!(
        TwoFACode::parse("012345".to_string()),
        Err("Invalid 2FA code".to_owned())
    );
    assert_eq!(
        TwoFACode::parse("099999".to_string()),
        Err("Invalid 2FA code".to_owned())
    );
    assert_eq!(
        TwoFACode::parse("999999".to_string()).unwrap().as_str(),
        "999999"
    );
    assert_eq!(
        TwoFACode::parse("100000".to_string()).unwrap().as_str(),
        "100000"
    );
}

#[test]
fn two_fa_code_default_is_six_random_digits() {
    let code = TwoFACode::default();
    let text = code.as_str();
    assert_eq!(text.len(), 6);
    assert!(text.chars().all(|c| c.is_ascii_digit()));
    assert_ne!(text.chars().next().unwrap(), '0');
    let reparsed = TwoFACode::parse(text.to_string()).unwrap();
    assert_eq!(reparsed, code);
}

#[test]
fn login_attempt_id_accepts_only_uuids() {
    let id = LoginAttemptId::parse("550e8400-e29b-41d4-a716-446655440000".to_string()).unwrap();
    assert_eq!(id.as_str(), "550e8400-e29b-41d4-a716-446655440000");
    assert_eq!(
        LoginAttemptId::parse("not-a-uuid".to_string()),
        Err("Invalid id".to_string())
    );
    assert_eq!(
        LoginAttemptId::parse("".to_string()),
        Err("Invalid id".to_string())
    );
}

#[test]
fn login_attempt_id_default_round_trips() {
    let id = LoginAttemptId::default();
    let reparsed = LoginAttemptId::parse(id.as_str().to_string()).unwrap();
    assert_eq!(reparsed, id);
}

#[test]
fn user_is_valid_after_construction() {
    let user = User::new(
        Email::parse("test@example.com".to_string()).unwrap(),
        Password::parse("password123".to_string()).unwrap(),
        true,
    );
    assert!(user.is_valid());
    assert!(user.requires_2fa);
}
