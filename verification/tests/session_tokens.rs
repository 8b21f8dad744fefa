use auth_service::email::Email;
use auth_service::token::{issue, validate, TokenError, TOKEN_TTL_SECONDS};

const NOW: u64 = 1_700_000_000;
const KEY: &[u8] = b"a-test-signing-key-0123456789";

fn subject() -> Email {
    Email::parse("subject@example.com".to_string()).unwrap()
}

#[test]
fn issued_token_has_the_fixed_layout() {
    let token = issue(&subject(), 1000, KEY);
    let chars: Vec<char> = token.chars().collect();

    // Sixty-four hex characters, a dot, nineteen digits, a dot, the address.
    assert_eq!(chars.len(), 64 + 1 + 19 + 1 + "subject@example.com".len());
    assert!(chars[..64]
        .iter()
        .all(|c| c.is_ascii_hexdigit() && !c.is_ascii_uppercase()));
    assert_eq!(chars[64], '.');
    // The expiry is the issue moment plus the validity window, zero-padded.
    let expiry: String = chars[65..84].iter().collect();
    assert_eq!(expiry, "0000000000000001600");
    assert_eq!(chars[84], '.');
    let email_part: String = chars[85..].iter().collect();
    assert_eq!(email_part, "subject@example.com");
}

#[test]
fn issued_token_validates_until_expiry() {
    let token = issue(&subject(), NOW, KEY);

    let at_once = validate(&token, NOW, KEY).unwrap();
    assert_eq!(at_once.as_str(), "subject@example.com");

    // Still valid at the last second of the window.
    assert!(validate(&token, NOW + TOKEN_TTL_SECONDS, KEY).is_ok());

    // One second past the window it is expired, whatever else holds.
    assert_eq!(
        validate(&token, NOW + TOKEN_TTL_SECONDS + 1, KEY),
        Err(TokenError::Expired)
    );
}

#[test]
fn token_signed_with_another_key_is_rejected() {
    let token = issue(&subject(), NOW, KEY);
    let other_key: &[u8] = b"a-different-signing-key";
    assert_eq!(
        validate(&token, NOW, other_key),
        Err(TokenError::BadSignature)
    );
}

#[test]
fn tampered_token_is_rejected() {
    let token = issue(&subject(), NOW, KEY);

    // Raising the expiry field invalidates the signature.
    let mut forged: Vec<char> = token.chars().collect();
    forged[65] = '9';
    let forged: String = forged.into_iter().collect();
    assert_eq!(validate(&forged, NOW, KEY), Err(TokenError::BadSignature));

    // Changing the subject invalidates the signature too.
    let swapped = token.replace("subject@example.com", "someone@example.com");
    assert_eq!(validate(&swapped, NOW, KEY), Err(TokenError::BadSignature));
}

#[test]
fn malformed_tokens_are_rejected() {
    assert_eq!(validate("", NOW, KEY), Err(TokenError::Malformed));
    assert_eq!(validate("jwt", NOW, KEY), Err(TokenError::Malformed));

    // Right length, wrong separators.
    let no_dots = "x".repeat(120);
    assert_eq!(validate(&no_dots, NOW, KEY), Err(TokenError::Malformed));

    // Dots in place but letters where the expiry digits belong.
    let bad_digits = format!("{}.{}.{}", "0".repeat(64), "x".repeat(19), "a@example.com");
    assert_eq!(validate(&bad_digits, NOW, KEY), Err(TokenError::Malformed));

    // Dots and digits in place, but no valid address after them.
    let bad_email = format!("{}.{}.{}", "0".repeat(64), "9".repeat(19), "not-an-email");
    assert_eq!(validate(&bad_email, NOW, KEY), Err(TokenError::Malformed));
}
