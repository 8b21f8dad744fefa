use vstd::prelude::*;

use crate::data_stores::{
    two_fa_code_ok, uuid_str_ok, BannedTokenStore, Challenge, LoginAttemptId, TwoFACode,
    TwoFACodeStore, TwoFACodeStoreError, UserStore, UserStoreError,
};
use crate::email::{email_ok, Email};
use crate::email_client::EmailClient;
use crate::error::AuthAPIError;
use crate::password::{password_ok, Password};
use crate::token::{issue, token_of, token_valid, tok_email, validate, TOKEN_TTL_SECONDS};
use crate::user::{User, UserModel};

verus! {

// ---------------------------------------------------------------------------
// Request and response payloads
// ---------------------------------------------------------------------------

/// A signup request: the candidate address and password, and whether the
/// account should demand a second factor at login.
#[derive(Debug)]
pub struct SignupRequest {
    pub email: String,
    pub password: String,
    pub requires_2fa: bool,
}

/// The confirmation returned by a successful signup.
#[derive(Debug)]
pub struct SignupResponse {
    pub message: String,
}

/// A login request: the claimed address and password.
#[derive(Debug)]
pub struct LoginRequest {
    pub email: String,
    pub password: String,
}

/// The payload returned when a login needs a second factor: the attempt
/// identifier the client must echo back together with the code.
#[derive(Debug)]
pub struct TwoFactorAuthResponse {
    pub message: String,
    pub login_attempt_id: String,
}

/// What a successful login returns: either a plain success, with the session
/// credential carried beside it, or a demand for the second factor.
#[derive(Debug)]
pub enum LoginResponse {
    RegularAuth,
    TwoFactorAuth(TwoFactorAuthResponse),
}

/// A two-factor verification request: the address, the attempt identifier
/// from the login response, and the code that was sent out of band.
#[derive(Debug)]
pub struct Verify2FARequest {
    pub email: String,
    pub login_attempt_id: String,
    pub code: String,
}

/// A token verification request.
#[derive(Debug)]
pub struct VerifyTokenRequest {
    pub token: String,
}

/// The body the transport layer sends with a failure response.
#[derive(Debug)]
pub struct ErrorResponse {
    pub error: String,
}

// ---------------------------------------------------------------------------
// The flows, modelled as functions of store state
// ---------------------------------------------------------------------------

/// How a signup can end.
pub ghost enum SignupOutcome {
    Created,
    InvalidInput,
    AlreadyExists,
}

/// What signup does to the user records: invalid inputs change nothing, a
/// taken address conflicts, and otherwise the record is added.
pub open spec fn signup_model(
    users: Map<Seq<char>, UserModel>,
    email: Seq<char>,
    password: Seq<char>,
    requires_2fa: bool,
) -> (Map<Seq<char>, UserModel>, SignupOutcome) {
    if !(email_ok(email) && password_ok(password)) {
        (users, SignupOutcome::InvalidInput)
    } else if users.contains_key(email) {
        (users, SignupOutcome::AlreadyExists)
    } else {
        (
            users.insert(email, (UserModel { email, password, requires_2fa })),
            SignupOutcome::Created,
        )
    }
}

/// How the credential check of a login can end.
pub ghost enum LoginCheck {
    InvalidInput,
    BadCredentials,
    Direct,
    NeedsTwoFA,
}

/// What a login decides from the user records alone: malformed inputs are
/// rejected locally; an unknown address and a wrong password end the same
/// way, so a caller cannot tell which half was wrong; a correct password
/// either finishes directly or demands the second factor.
pub open spec fn login_check(
    users: Map<Seq<char>, UserModel>,
    email: Seq<char>,
    password: Seq<char>,
) -> LoginCheck {
    if !(email_ok(email) && password_ok(password)) {
        LoginCheck::InvalidInput
    } else if !users.contains_key(email) {
        LoginCheck::BadCredentials
    } else if users[email].password != password {
        LoginCheck::BadCredentials
    } else if users[email].requires_2fa {
        LoginCheck::NeedsTwoFA
    } else {
        LoginCheck::Direct
    }
}

/// How a two-factor verification can end.
pub ghost enum TwoFAOutcome {
    InvalidInput,
    BadChallenge,
    Verified,
}

/// What a two-factor verification does to the challenges: malformed inputs
/// are rejected locally; a missing challenge and a mismatch on either the
/// attempt identifier or the code are rejected without consuming the
/// challenge; an exact match consumes it.
pub open spec fn verify_2fa_model(
    codes: Map<Seq<char>, Challenge>,
    email: Seq<char>,
    id: Seq<char>,
    code: Seq<char>,
) -> (Map<Seq<char>, Challenge>, TwoFAOutcome) {
    if !(email_ok(email) && uuid_str_ok(id) && two_fa_code_ok(code)) {
        (codes, TwoFAOutcome::InvalidInput)
    } else if !codes.contains_key(email) {
        (codes, TwoFAOutcome::BadChallenge)
    } else if codes[email] != (Challenge { id, code }) {
        (codes, TwoFAOutcome::BadChallenge)
    } else {
        (codes.remove(email), TwoFAOutcome::Verified)
    }
}

/// Whether a presented token authenticates against the revocation set: it
/// must be valid for the codec and not revoked.
pub open spec fn token_authenticates(
    tokens: Set<Seq<char>>,
    t: Seq<char>,
    now_secs: int,
    key: Seq<u8>,
) -> bool {
    token_valid(t, now_secs, key) && !tokens.contains(t)
}

// ---------------------------------------------------------------------------
// Signup
// ---------------------------------------------------------------------------

/// Registers a user: malformed inputs are rejected as `InvalidCredentials`
/// before any store call, a taken address conflicts, and otherwise the
/// record is added. A backend fault is reported as `UnexpectedError` with
/// the records unchanged, and can only occur on a backend that `may_fault`:
/// with the in-memory store, every outcome is decided by the inputs and the
/// records alone.
pub fn signup<U: UserStore>(user_store: &mut U, request: SignupRequest) -> (r: Result<
    SignupResponse,
    AuthAPIError,
>)
    ensures
        ({
            let m = signup_model(
                old(user_store).users(),
                request.email@,
                request.password@,
                request.requires_2fa,
            );
            match r {
                Ok(resp) => m.1 is Created && final(user_store).users() == m.0 && resp.message@
                    == "User created successfully"@,
                Err(AuthAPIError::InvalidCredentials) => m.1 is InvalidInput && final(user_store).users() == old(user_store).users(),
                Err(AuthAPIError::UserAlreadyExists) => m.1 is AlreadyExists && final(user_store).users() == old(user_store).users(),
                Err(AuthAPIError::UnexpectedError) => old(user_store).may_fault() && final(user_store).users() == old(user_store).users(),
                _ => false,
            }
        }),
        ({
            let m = signup_model(
                old(user_store).users(),
                request.email@,
                request.password@,
                request.requires_2fa,
            );
            m.1 is InvalidInput ==> r == Err::<SignupResponse, AuthAPIError>(
                AuthAPIError::InvalidCredentials,
            )
        }),
{
    let email = match Email::parse(request.email) {
        Ok(e) => e,
        Err(_) => {
            return Err(AuthAPIError::InvalidCredentials);
        },
    };
    let password = match Password::parse(request.password) {
        Ok(p) => p,
        Err(_) => {
            return Err(AuthAPIError::InvalidCredentials);
        },
    };
    let user = User::new(email, password, request.requires_2fa);
    match user_store.add_user(user) {
        Ok(()) => Ok(SignupResponse { message: "User created successfully".to_owned() }),
        Err(UserStoreError::UserAlreadyExists) => Err(AuthAPIError::UserAlreadyExists),
        Err(_) => Err(AuthAPIError::UnexpectedError),
    }
}

// ---------------------------------------------------------------------------
// Login
// ---------------------------------------------------------------------------

/// Logs a user in: malformed inputs are rejected as `InvalidCredentials`
/// before any store call; an unknown address and a wrong password end alike
/// as `IncorrectCredentials`; on a match the flow either issues a session
/// token at once or stores a fresh challenge (superseding any prior one for
/// this address), sends the code through the notifier and returns the
/// attempt identifier without any session credential. A notifier or backend
/// fault is reported as `UnexpectedError` and can only occur where one of
/// them `may_fault`; a challenge already written then stays, as writes are
/// not rolled back.
pub fn login<U: UserStore, T: TwoFACodeStore, E: EmailClient>(
    user_store: &U,
    two_fa_code_store: &mut T,
    email_client: &E,
    request: &LoginRequest,
    now_secs: u64,
    key: &[u8],
) -> (r: Result<(LoginResponse, Option<String>), AuthAPIError>)
    requires
        now_secs + TOKEN_TTL_SECONDS <= 9_999_999_999_999_999_999,
    ensures
        ({
            let chk = login_check(user_store.users(), request.email@, request.password@);
            match r {
                Ok(pair) => match pair {
                    (LoginResponse::RegularAuth, tok) => chk is Direct && final(two_fa_code_store).codes() == old(two_fa_code_store).codes() && match tok {
                        Some(t) => t@ == token_of(
                            request.email@,
                            now_secs + TOKEN_TTL_SECONDS,
                            key@,
                        ),
                        None => false,
                    },
                    (LoginResponse::TwoFactorAuth(resp), tok) => chk is NeedsTwoFA && tok is None
                        && uuid_str_ok(resp.login_attempt_id@) && resp.message@ == "2FA required"@
                        && exists|c: Seq<char>|
                        two_fa_code_ok(c) && final(two_fa_code_store).codes() == old(two_fa_code_store).codes().insert(
                            request.email@,
                            (Challenge { id: resp.login_attempt_id@, code: c }),
                        ),
                },
                Err(AuthAPIError::InvalidCredentials) => chk is InvalidInput && final(two_fa_code_store).codes() == old(two_fa_code_store).codes(),
                Err(AuthAPIError::IncorrectCredentials) => chk is BadCredentials && final(two_fa_code_store).codes() == old(two_fa_code_store).codes(),
                Err(AuthAPIError::UnexpectedError) => (user_store.may_fault() || old(two_fa_code_store).may_fault() || email_client.may_fail()) && (final(two_fa_code_store).codes() == old(two_fa_code_store).codes() || exists|ch: Challenge|
                    uuid_str_ok(ch.id) && two_fa_code_ok(ch.code) && final(two_fa_code_store).codes() == old(two_fa_code_store).codes().insert(request.email@, ch)),
                _ => false,
            }
        }),
        ({
            let chk = login_check(user_store.users(), request.email@, request.password@);
            chk is InvalidInput ==> r == Err::<(LoginResponse, Option<String>), AuthAPIError>(
                AuthAPIError::InvalidCredentials,
            )
        }),
{
    let password = match Password::parse(request.password.clone()) {
        Ok(p) => p,
        Err(_) => {
            return Err(AuthAPIError::InvalidCredentials);
        },
    };
    let email = match Email::parse(request.email.clone()) {
        Ok(e) => e,
        Err(_) => {
            return Err(AuthAPIError::InvalidCredentials);
        },
    };

    let user = match user_store.get_user(&email) {
        Ok(u) => u,
        Err(UserStoreError::UserNotFound) => {
            return Err(AuthAPIError::IncorrectCredentials);
        },
        Err(_) => {
            return Err(AuthAPIError::UnexpectedError);
        },
    };
    match user_store.validate_user(&email, &password) {
        Ok(()) => {},
        Err(UserStoreError::InvalidCredentials) | Err(UserStoreError::UserNotFound) => {
            return Err(AuthAPIError::IncorrectCredentials);
        },
        Err(_) => {
            return Err(AuthAPIError::UnexpectedError);
        },
    }

    if user.requires_2fa {
        let login_attempt_id = LoginAttemptId::default();
        let code = TwoFACode::default();
        let id_text = login_attempt_id.as_str().to_owned();
        if two_fa_code_store.add_code(email.clone(), login_attempt_id, code.clone()).is_err() {
            return Err(AuthAPIError::UnexpectedError);
        }
        if email_client.send_email(&email, "2FA code", code.as_str()).is_err() {
            return Err(AuthAPIError::UnexpectedError);
        }
        Ok(
            (
                LoginResponse::TwoFactorAuth(
                    TwoFactorAuthResponse {
                        message: "2FA required".to_owned(),
                        login_attempt_id: id_text,
                    },
                ),
                None,
            ),
        )
    } else {
        let token = issue(&email, now_secs, key);
        Ok((LoginResponse::RegularAuth, Some(token)))
    }
}

// ---------------------------------------------------------------------------
// Two-factor verification
// ---------------------------------------------------------------------------

/// Completes a two-factor login: malformed inputs are rejected as
/// `InvalidCredentials` before any store call; an exact match of both the
/// attempt identifier and the code against the pending challenge is
/// required; a match consumes the challenge exactly once and issues the
/// session token, while a mismatch leaves the challenge in place so the
/// user may retry. A backend fault is reported as `UnexpectedError` and can
/// only occur on a backend that `may_fault`.
pub fn verify_2fa<T: TwoFACodeStore>(
    two_fa_code_store: &mut T,
    request: &Verify2FARequest,
    now_secs: u64,
    key: &[u8],
) -> (r: Result<String, AuthAPIError>)
    requires
        now_secs + TOKEN_TTL_SECONDS <= 9_999_999_999_999_999_999,
    ensures
        ({
            let m = verify_2fa_model(
                old(two_fa_code_store).codes(),
                request.email@,
                request.login_attempt_id@,
                request.code@,
            );
            match r {
                Ok(token) => m.1 is Verified && final(two_fa_code_store).codes() == m.0 && token@
                    == token_of(request.email@, now_secs + TOKEN_TTL_SECONDS, key@),
                Err(AuthAPIError::InvalidCredentials) => m.1 is InvalidInput && final(two_fa_code_store).codes() == old(two_fa_code_store).codes(),
                Err(AuthAPIError::IncorrectCredentials) => m.1 is BadChallenge && final(two_fa_code_store).codes() == old(two_fa_code_store).codes(),
                Err(AuthAPIError::UnexpectedError) => old(two_fa_code_store).may_fault() && final(two_fa_code_store).codes() == old(two_fa_code_store).codes(),
                _ => false,
            }
        }),
        ({
            let m = verify_2fa_model(
                old(two_fa_code_store).codes(),
                request.email@,
                request.login_attempt_id@,
                request.code@,
            );
            m.1 is InvalidInput ==> r == Err::<String, AuthAPIError>(
                AuthAPIError::InvalidCredentials,
            )
        }),
{
    let email = match Email::parse(request.email.clone()) {
        Ok(e) => e,
        Err(_) => {
            return Err(AuthAPIError::InvalidCredentials);
        },
    };
    let login_attempt_id = match LoginAttemptId::parse(request.login_attempt_id.clone()) {
        Ok(a) => a,
        Err(_) => {
            return Err(AuthAPIError::InvalidCredentials);
        },
    };
    let code = match TwoFACode::parse(request.code.clone()) {
        Ok(c) => c,
        Err(_) => {
            return Err(AuthAPIError::InvalidCredentials);
        },
    };

    let stored = match two_fa_code_store.get_code(&email) {
        Ok(pair) => pair,
        Err(TwoFACodeStoreError::LoginAttemptIdNotFound) => {
            return Err(AuthAPIError::IncorrectCredentials);
        },
        Err(_) => {
            return Err(AuthAPIError::UnexpectedError);
        },
    };

    if !(stored.0 == login_attempt_id) || !(stored.1 == code) {
        return Err(AuthAPIError::IncorrectCredentials);
    }

    match two_fa_code_store.remove_code(&email) {
        Ok(()) => {},
        Err(_) => {
            return Err(AuthAPIError::UnexpectedError);
        },
    }

    Ok(issue(&email, now_secs, key))
}

// ---------------------------------------------------------------------------
// Token verification and logout
// ---------------------------------------------------------------------------

/// Checks a presented session token: it must validate against the secret and
/// the clock, and must not have been revoked. An invalid, expired or revoked
/// token ends the same way, as an unauthenticated request.
pub fn verify_token<B: BannedTokenStore>(
    banned_token_store: &B,
    token: &str,
    now_secs: u64,
    key: &[u8],
) -> (r: Result<Email, AuthAPIError>)
    ensures
        match r {
            Ok(e) => token_authenticates(
                banned_token_store.tokens(),
                token@,
                now_secs as int,
                key@,
            ) && e@ == tok_email(token@),
            Err(AuthAPIError::InvalidToken) => !token_authenticates(
                banned_token_store.tokens(),
                token@,
                now_secs as int,
                key@,
            ),
            Err(AuthAPIError::UnexpectedError) => banned_token_store.may_fault() && token_valid(
                token@,
                now_secs as int,
                key@,
            ),
            _ => false,
        },
{
    let email = match validate(token, now_secs, key) {
        Ok(e) => e,
        Err(_) => {
            return Err(AuthAPIError::InvalidToken);
        },
    };
    match banned_token_store.contains_token(token) {
        Ok(false) => Ok(email),
        Ok(true) => Err(AuthAPIError::InvalidToken),
        Err(_) => Err(AuthAPIError::UnexpectedError),
    }
}

/// Revokes a presented session token: the token must still validate, and is
/// then added to the revocation set, so every later `verify_token` with it
/// fails. Revoking the same token twice is not an error.
pub fn logout<B: BannedTokenStore>(
    banned_token_store: &mut B,
    token: &str,
    now_secs: u64,
    key: &[u8],
) -> (r: Result<(), AuthAPIError>)
    ensures
        match r {
            Ok(()) => token_valid(token@, now_secs as int, key@) && final(banned_token_store).tokens() == old(banned_token_store).tokens().insert(token@),
            Err(AuthAPIError::InvalidToken) => !token_valid(token@, now_secs as int, key@)
                && final(banned_token_store).tokens() == old(banned_token_store).tokens(),
            Err(AuthAPIError::UnexpectedError) => old(banned_token_store).may_fault()
                && token_valid(token@, now_secs as int, key@) && final(banned_token_store).tokens()
                == old(banned_token_store).tokens(),
            _ => false,
        },
{
    match validate(token, now_secs, key) {
        Ok(_) => {},
        Err(_) => {
            return Err(AuthAPIError::InvalidToken);
        },
    }
    match banned_token_store.add_token(token.to_owned()) {
        Ok(()) => Ok(()),
        Err(_) => Err(AuthAPIError::UnexpectedError),
    }
}

} // verus!
