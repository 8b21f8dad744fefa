use auth_service::auth::{
    login, logout, signup, verify_2fa, verify_token, LoginRequest, LoginResponse, SignupRequest,
    Verify2FARequest,
};
use auth_service::data_stores::TwoFACodeStore;
use auth_service::email::Email;
use auth_service::email_client::MockEmailClient;
use auth_service::error::AuthAPIError;
use auth_service::hashmap_two_fa_code_store::HashmapTwoFACodeStore;
use auth_service::hashmap_user_store::HashmapUserStore;
use auth_service::hashset_banned_token_store::HashsetBannedTokenStore;

const NOW: u64 = 1_700_000_000;
const KEY: &[u8] = b"a-test-signing-key-0123456789";

fn signup_request(email: &str, password: &str, requires_2fa: bool) -> SignupRequest {
    SignupRequest {
        email: email.to_string(),
        password: password.to_string(),
        requires_2fa,
    }
}

#[test]
fn signup_login_verify_logout_round_trip() {
    let mut users = HashmapUserStore::new();
    let mut challenges = HashmapTwoFACodeStore::new();
    let mut banned = HashsetBannedTokenStore::new();
    let client = MockEmailClient;

    // Signup succeeds.
    let resp = signup(
        &mut users,
        signup_request("a@example.com", "password123", false),
    )
    .unwrap();
    assert_eq!(resp.message, "User created successfully");

    // Login with the same credentials succeeds directly with a credential.
    let request = LoginRequest {
        email: "a@example.com".to_string(),
        password: "password123".to_string(),
    };
    let (response, token) = login(&users, &mut challenges, &client, &request, NOW, KEY).unwrap();
    assert!(matches!(response, LoginResponse::RegularAuth));
    let token = token.expect("a direct login must carry a session credential");

    // The fresh token verifies and names the right subject.
    let subject = verify_token(&banned, &token, NOW, KEY).unwrap();
    assert_eq!(subject.as_str(), "a@example.com");

    // Logout revokes the token.
    logout(&mut banned, &token, NOW, KEY).unwrap();

    // The revoked token no longer verifies.
    assert_eq!(
        verify_token(&banned, &token, NOW, KEY),
        Err(AuthAPIError::InvalidToken)
    );
}

#[test]
fn two_factor_login_round_trip() {
    let mut users = HashmapUserStore::new();
    let mut challenges = HashmapTwoFACodeStore::new();
    let banned = HashsetBannedTokenStore::new();
    let client = MockEmailClient;

    signup(
        &mut users,
        signup_request("b@example.com", "password123", true),
    )
    .unwrap();

    // Login demands the second factor and carries no credential.
    let request = LoginRequest {
        email: "b@example.com".to_string(),
        password: "password123".to_string(),
    };
    let (response, token) = login(&users, &mut challenges, &client, &request, NOW, KEY).unwrap();
    assert!(token.is_none());
    let attempt_id = match response {
        LoginResponse::TwoFactorAuth(resp) => {
            assert_eq!(resp.message, "2FA required");
            resp.login_attempt_id
        }
        LoginResponse::RegularAuth => panic!("a 2FA account must not log in directly"),
    };

    // The challenge is pending; read the code the notifier would have sent.
    let email = Email::parse("b@example.com".to_string()).unwrap();
    let (stored_id, stored_code) = challenges.get_code(&email).unwrap();
    assert_eq!(stored_id.as_str(), attempt_id);
    let code = stored_code.as_str().to_string();

    // A wrong code is rejected and the challenge stays.
    let wrong_code = if code == "111111" { "222222" } else { "111111" };
    let bad = Verify2FARequest {
        email: "b@example.com".to_string(),
        login_attempt_id: attempt_id.clone(),
        code: wrong_code.to_string(),
    };
    assert_eq!(
        verify_2fa(&mut challenges, &bad, NOW, KEY),
        Err(AuthAPIError::IncorrectCredentials)
    );
    assert!(challenges.get_code(&email).is_ok());

    // The correct pair verifies and yields a working session token.
    let good = Verify2FARequest {
        email: "b@example.com".to_string(),
        login_attempt_id: attempt_id.clone(),
        code: code.clone(),
    };
    let token = verify_2fa(&mut challenges, &good, NOW, KEY).unwrap();
    let subject = verify_token(&banned, &token, NOW, KEY).unwrap();
    assert_eq!(subject.as_str(), "b@example.com");

    // The same verification replayed fails: the challenge was consumed.
    let replay = Verify2FARequest {
        email: "b@example.com".to_string(),
        login_attempt_id: attempt_id,
        code,
    };
    assert_eq!(
        verify_2fa(&mut challenges, &replay, NOW, KEY),
        Err(AuthAPIError::IncorrectCredentials)
    );
}

#[test]
fn second_login_supersedes_earlier_challenge() {
    let mut users = HashmapUserStore::new();
    let mut challenges = HashmapTwoFACodeStore::new();
    let client = MockEmailClient;

    signup(
        &mut users,
        signup_request("c@example.com", "password123", true),
    )
    .unwrap();
    let request = LoginRequest {
        email: "c@example.com".to_string(),
        password: "password123".to_string(),
    };

    let (first, _) = login(&users, &mut challenges, &client, &request, NOW, KEY).unwrap();
    let first_attempt = match first {
        LoginResponse::TwoFactorAuth(resp) => resp.login_attempt_id,
        LoginResponse::RegularAuth => panic!("a 2FA account must not log in directly"),
    };
    let email = Email::parse("c@example.com".to_string()).unwrap();
    let (_, first_code) = challenges.get_code(&email).unwrap();
    let first_code = first_code.as_str().to_string();

    // A second login overwrites the pending challenge.
    let (second, _) = login(&users, &mut challenges, &client, &request, NOW, KEY).unwrap();
    let second_attempt = match second {
        LoginResponse::TwoFactorAuth(resp) => resp.login_attempt_id,
        LoginResponse::RegularAuth => panic!("a 2FA account must not log in directly"),
    };
    assert_ne!(first_attempt, second_attempt);

    // The earlier attempt is rejected even with its correct code.
    let stale = Verify2FARequest {
        email: "c@example.com".to_string(),
        login_attempt_id: first_attempt,
        code: first_code,
    };
    assert_eq!(
        verify_2fa(&mut challenges, &stale, NOW, KEY),
        Err(AuthAPIError::IncorrectCredentials)
    );
}

#[test]
fn signup_rejects_invalid_input_and_duplicates() {
    let mut users = HashmapUserStore::new();

    // Malformed address.
    assert_eq!(
        signup(
            &mut users,
            signup_request("bad_email_at_example.com", "password123", false)
        )
        .unwrap_err(),
        AuthAPIError::InvalidCredentials
    );

    // Short password.
    assert_eq!(
        signup(&mut users, signup_request("foo@example.com", "psword", false)).unwrap_err(),
        AuthAPIError::InvalidCredentials
    );

    // First signup passes, the duplicate conflicts.
    signup(
        &mut users,
        signup_request("foo@example.com", "password123", false),
    )
    .unwrap();
    assert_eq!(
        signup(
            &mut users,
            signup_request("foo@example.com", "password123", true)
        )
        .unwrap_err(),
        AuthAPIError::UserAlreadyExists
    );
}

#[test]
fn login_rejects_invalid_input_and_wrong_credentials() {
    let mut users = HashmapUserStore::new();
    let mut challenges = HashmapTwoFACodeStore::new();
    let client = MockEmailClient;

    signup(
        &mut users,
        signup_request("d@example.com", "password123", false),
    )
    .unwrap();

    // Malformed inputs are a validation failure, not a credential failure.
    let bad_email = LoginRequest {
        email: "invalid_email".to_string(),
        password: "password123".to_string(),
    };
    assert_eq!(
        login(&users, &mut challenges, &client, &bad_email, NOW, KEY).unwrap_err(),
        AuthAPIError::InvalidCredentials
    );
    let short_password = LoginRequest {
        email: "d@example.com".to_string(),
        password: "invalid".to_string(),
    };
    assert_eq!(
        login(&users, &mut challenges, &client, &short_password, NOW, KEY).unwrap_err(),
        AuthAPIError::InvalidCredentials
    );

    // An unknown user and a wrong password end the same way.
    let unknown = LoginRequest {
        email: "wrong@email.com".to_string(),
        password: "password123".to_string(),
    };
    assert_eq!(
        login(&users, &mut challenges, &client, &unknown, NOW, KEY).unwrap_err(),
        AuthAPIError::IncorrectCredentials
    );
    let wrong_password = LoginRequest {
        email: "d@example.com".to_string(),
        password: "wrong-password".to_string(),
    };
    assert_eq!(
        login(&users, &mut challenges, &client, &wrong_password, NOW, KEY).unwrap_err(),
        AuthAPIError::IncorrectCredentials
    );
}

#[test]
fn verify_2fa_rejects_malformed_and_unknown_requests() {
    let mut challenges = HashmapTwoFACodeStore::new();

    // Malformed inputs.
    let malformed = Verify2FARequest {
        email: "e@example.com".to_string(),
        login_attempt_id: "not-a-uuid".to_string(),
        code: "123456".to_string(),
    };
    assert_eq!(
        verify_2fa(&mut challenges, &malformed, NOW, KEY),
        Err(AuthAPIError::InvalidCredentials)
    );

    // No pending challenge for the address.
    let unknown = Verify2FARequest {
        email: "e@example.com".to_string(),
        login_attempt_id: "550e8400-e29b-41d4-a716-446655440000".to_string(),
        code: "123456".to_string(),
    };
    assert_eq!(
        verify_2fa(&mut challenges, &unknown, NOW, KEY),
        Err(AuthAPIError::IncorrectCredentials)
    );
}

#[test]
fn logout_rejects_a_garbage_token() {
    let mut banned = HashsetBannedTokenStore::new();
    assert_eq!(
        logout(&mut banned, "not-a-token", NOW, KEY),
        Err(AuthAPIError::InvalidToken)
    );
}
