use vstd::prelude::*;

use crate::auth::{signup_model, token_authenticates, verify_2fa_model};
use crate::data_stores::{pow10, two_fa_code_ok, uuid_str_ok, Challenge};
use crate::email::email_ok;
use crate::password::password_ok;
use crate::token::{lemma_token_roundtrip, tok_email, tok_exp, token_of};
use crate::user::UserModel;

verus! {

/// Whether the records hold exactly this credential for this address.
pub open spec fn credentials_match(
    users: Map<Seq<char>, UserModel>,
    email: Seq<char>,
    password: Seq<char>,
) -> bool {
    users.contains_key(email) && users[email].password == password
}

/// Uniqueness of addresses: once a signup with an address has been
/// accepted, every later signup with the same address and a well-formed
/// password reports a conflict and leaves the records unchanged.
pub proof fn lemma_signup_unique(
    users: Map<Seq<char>, UserModel>,
    email: Seq<char>,
    password: Seq<char>,
    requires_2fa: bool,
    password2: Seq<char>,
    requires_2fa2: bool,
)
    requires
        signup_model(users, email, password, requires_2fa).1 is Created,
        password_ok(password2),
    ensures
        ({
            let first = signup_model(users, email, password, requires_2fa);
            let second = signup_model(first.0, email, password2, requires_2fa2);
            second.1 is AlreadyExists && second.0 == first.0
        }),
{
}

/// Credential round-trip: after a signup with an address and password is
/// accepted, the stored credential matches that password and no other.
pub proof fn lemma_credential_roundtrip(
    users: Map<Seq<char>, UserModel>,
    email: Seq<char>,
    password: Seq<char>,
    requires_2fa: bool,
    other: Seq<char>,
)
    requires
        signup_model(users, email, password, requires_2fa).1 is Created,
        other != password,
    ensures
        credentials_match(signup_model(users, email, password, requires_2fa).0, email, password),
        !credentials_match(signup_model(users, email, password, requires_2fa).0, email, other),
{
}

/// A pending challenge is honoured: presenting exactly the stored attempt
/// identifier and code, all well-formed, verifies and consumes the challenge.
pub proof fn lemma_pending_challenge_verifies(
    codes: Map<Seq<char>, Challenge>,
    email: Seq<char>,
    id: Seq<char>,
    code: Seq<char>,
)
    requires
        email_ok(email),
        uuid_str_ok(id),
        two_fa_code_ok(code),
        codes.contains_key(email),
        codes[email] == (Challenge { id, code }),
    ensures
        verify_2fa_model(codes, email, id, code).1 is Verified,
        verify_2fa_model(codes, email, id, code).0 == codes.remove(email),
{
}

/// Two-factor consumption is exactly-once: after a verification for an
/// address succeeds, every further verification for that address — with the
/// same or any other identifier and code — fails and changes nothing, until
/// a new login stores a new challenge.
pub proof fn lemma_two_fa_exactly_once(
    codes: Map<Seq<char>, Challenge>,
    email: Seq<char>,
    id: Seq<char>,
    code: Seq<char>,
    id2: Seq<char>,
    code2: Seq<char>,
)
    requires
        verify_2fa_model(codes, email, id, code).1 is Verified,
    ensures
        ({
            let consumed = verify_2fa_model(codes, email, id, code).0;
            let again = verify_2fa_model(consumed, email, id2, code2);
            !(again.1 is Verified) && again.0 == consumed
        }),
{
}

/// Challenge supersession: a second two-factor login for the same address
/// overwrites the pending challenge, and the earlier attempt identifier is
/// then rejected even with its correct code. This holds whenever the fresh
/// identifier differs from the earlier one; only a random collision of the
/// two identifiers could fall outside it.
pub proof fn lemma_challenge_supersession(
    codes: Map<Seq<char>, Challenge>,
    email: Seq<char>,
    id1: Seq<char>,
    code1: Seq<char>,
    id2: Seq<char>,
    code2: Seq<char>,
)
    requires
        id1 != id2,
    ensures
        ({
            let superseded = codes.insert(email, (Challenge { id: id2, code: code2 }));
            let attempt = verify_2fa_model(superseded, email, id1, code1);
            !(attempt.1 is Verified) && attempt.0 == superseded
        }),
{
}

/// A freshly issued token authenticates: at any moment not past its expiry,
/// the token issued for an address is valid, names that address, and passes
/// the revocation check as long as it has not been revoked.
pub proof fn lemma_fresh_token_authenticates(
    tokens: Set<Seq<char>>,
    email: Seq<char>,
    exp: int,
    key: Seq<u8>,
    now: int,
)
    requires
        email_ok(email),
        0 <= exp < pow10(19),
        now <= exp,
        !tokens.contains(token_of(email, exp, key)),
    ensures
        token_authenticates(tokens, token_of(email, exp, key), now, key),
        tok_email(token_of(email, exp, key)) == email,
{
    lemma_token_roundtrip(email, exp, key, now);
}

/// A revoked token never authenticates again: once a token is in the
/// revocation set, the check fails whatever its signature and expiry say.
pub proof fn lemma_revoked_token_fails(
    tokens: Set<Seq<char>>,
    t: Seq<char>,
    now: int,
    key: Seq<u8>,
)
    ensures
        !token_authenticates(tokens.insert(t), t, now, key),
{
}

/// An expired token never authenticates, whatever the revocation set holds.
pub proof fn lemma_expired_token_fails(
    tokens: Set<Seq<char>>,
    t: Seq<char>,
    now: int,
    key: Seq<u8>,
)
    requires
        now > tok_exp(t),
    ensures
        !token_authenticates(tokens, t, now, key),
{
}

} // verus!
