use vstd::prelude::*;

use crate::email::Email;
use crate::password::Password;
use crate::strutil::push_char;
use crate::user::{User, UserModel};
use vstd::arithmetic::div_mod::{lemma_fundamental_div_mod, lemma_mod_bound};

verus! {

// ---------------------------------------------------------------------------
// Login attempt identifiers
// ---------------------------------------------------------------------------

/// Whether a string is a syntactically valid UUID, exactly as uuid's
/// `Uuid::parse_str` decides it. Acceptance is a pure function of the
/// characters, so the outcome can be given a name.
pub uninterp spec fn uuid_str_ok(s: Seq<char>) -> bool;

/// Relies on uuid's `Uuid::parse_str`: acceptance depends on the characters
/// alone.
#[verifier::external_body]
fn validate_uuid_str(s: &String) -> (r: bool)
    ensures
        r == uuid_str_ok(s@),
{
    uuid::Uuid::parse_str(s.as_str()).is_ok()
}

/// Relies on uuid's `Uuid::new_v4` and its `Display` form: a random UUID
/// rendered in the hyphenated textual form, which `Uuid::parse_str` accepts.
/// Nothing more is promised of a randomly minted identifier.
#[verifier::external_body]
fn mint_uuid_string() -> (r: String)
    ensures
        uuid_str_ok(r@),
{
    uuid::Uuid::new_v4().to_string()
}

/// An opaque random identifier minted per login attempt that requires a
/// second factor; syntactically a UUID in textual form.
#[derive(Debug)]
pub struct LoginAttemptId(String);

impl View for LoginAttemptId {
    type V = Seq<char>;

    closed spec fn view(&self) -> Seq<char> {
        self.0@
    }
}

impl LoginAttemptId {
    /// Wraps the string when it is a syntactically valid UUID; otherwise
    /// reports the failure.
    pub fn parse(id: String) -> (r: Result<Self, String>)
        ensures
            match r {
                Ok(a) => uuid_str_ok(id@) && a@ == id@,
                Err(m) => !uuid_str_ok(id@) && m@ == "Invalid id"@,
            },
    {
        if validate_uuid_str(&id) {
            Ok(LoginAttemptId(id))
        } else {
            Err("Invalid id".to_owned())
        }
    }

    /// The identifier's characters.
    pub fn as_str(&self) -> (r: &str)
        ensures
            r@ == self@,
    {
        self.0.as_str()
    }
}

impl Default for LoginAttemptId {
    /// Mints a fresh random identifier; it always round-trips through the
    /// UUID textual form.
    fn default() -> (r: Self)
        ensures
            uuid_str_ok(r@),
    {
        LoginAttemptId(mint_uuid_string())
    }
}

impl Clone for LoginAttemptId {
    fn clone(&self) -> (r: Self)
        ensures
            r@ == self@,
    {
        LoginAttemptId(self.0.clone())
    }
}

impl PartialEq for LoginAttemptId {
    fn eq(&self, other: &Self) -> (r: bool) {
        self.0 == other.0
    }
}

impl vstd::std_specs::cmp::PartialEqSpecImpl for LoginAttemptId {
    open spec fn obeys_eq_spec() -> bool {
        true
    }

    open spec fn eq_spec(&self, other: &Self) -> bool {
        self@ == other@
    }
}

// ---------------------------------------------------------------------------
// Two-factor codes
// ---------------------------------------------------------------------------

/// Ten to the given power.
pub open spec fn pow10(n: nat) -> int
    decreases n,
{
    if n == 0 {
        1
    } else {
        10 * pow10((n - 1) as nat)
    }
}

pub proof fn lemma_pow10_pos(n: nat)
    ensures
        pow10(n) >= 1,
    decreases n,
{
    if n > 0 {
        lemma_pow10_pos((n - 1) as nat);
    }
}

pub proof fn lemma_pow10_mono(a: nat, b: nat)
    requires
        a <= b,
    ensures
        pow10(a) <= pow10(b),
    decreases b,
{
    if a < b {
        lemma_pow10_mono(a, (b - 1) as nat);
        lemma_pow10_pos((b - 1) as nat);
    }
}

pub proof fn lemma_pow10_small()
    ensures
        pow10(5) == 100000,
        pow10(6) == 1000000,
{
    assert(pow10(0) == 1);
    assert(pow10(1) == 10);
    assert(pow10(2) == 100);
    assert(pow10(3) == 1000);
    assert(pow10(4) == 10000);
    assert(pow10(5) == 100000);
    assert(pow10(6) == 1000000);
}

pub proof fn lemma_pow10_wide()
    ensures
        pow10(18) == 1_000_000_000_000_000_000,
        pow10(19) == 10_000_000_000_000_000_000,
{
    lemma_pow10_small();
    assert(pow10(7) == 10_000_000);
    assert(pow10(8) == 100_000_000);
    assert(pow10(9) == 1_000_000_000);
    assert(pow10(10) == 10_000_000_000);
    assert(pow10(11) == 100_000_000_000);
    assert(pow10(12) == 1_000_000_000_000);
    assert(pow10(13) == 10_000_000_000_000);
    assert(pow10(14) == 100_000_000_000_000);
    assert(pow10(15) == 1_000_000_000_000_000);
    assert(pow10(16) == 10_000_000_000_000_000);
    assert(pow10(17) == 100_000_000_000_000_000);
    assert(pow10(18) == 1_000_000_000_000_000_000);
    assert(pow10(19) == 10_000_000_000_000_000_000);
}

/// The numeric value of a string of decimal digits, most significant first.
pub open spec fn dec_value(s: Seq<char>) -> int
    decreases s.len(),
{
    if s.len() == 0 {
        0
    } else {
        dec_value(s.drop_last()) * 10 + (s.last() as int - 48)
    }
}

/// True when every character of `s` is an ASCII decimal digit.
pub open spec fn all_digits(s: Seq<char>) -> bool {
    forall|i: int| 0 <= i < s.len() ==> 48 <= #[trigger] s[i] as int <= 57
}

/// A two-factor code is exactly six ASCII digits whose value lies in
/// [100000, 999999].
pub open spec fn two_fa_code_ok(s: Seq<char>) -> bool {
    s.len() == 6 && all_digits(s) && 100000 <= dec_value(s) <= 999999
}

/// Relies on rand's `random_range`: a value sampled from the given non-empty
/// range, so it lies within the range's bounds. Nothing more is promised of
/// a random draw.
#[verifier::external_body]
fn random_six_digit_value() -> (r: u32)
    ensures
        100000 <= r <= 999999,
{
    rand::random_range(100_000..=999_999u32)
}

/// The ASCII character for a single decimal digit.
fn digit_char(d: u32) -> (c: char)
    requires
        d <= 9,
    ensures
        c as int == 48 + d,
{
    ((48 + d) as u8) as char
}

/// Renders a value in [100000, 999999] as its six decimal digits.
fn code_chars(v: u32) -> (s: String)
    requires
        100000 <= v <= 999999,
    ensures
        two_fa_code_ok(s@),
        dec_value(s@) == v,
{
    let d5 = v % 10;
    let r1 = v / 10;
    let d4 = r1 % 10;
    let r2 = r1 / 10;
    let d3 = r2 % 10;
    let r3 = r2 / 10;
    let d2 = r3 % 10;
    let r4 = r3 / 10;
    let d1 = r4 % 10;
    let d0 = r4 / 10;
    proof {
        lemma_fundamental_div_mod(v as int, 10);
        lemma_fundamental_div_mod(r1 as int, 10);
        lemma_fundamental_div_mod(r2 as int, 10);
        lemma_fundamental_div_mod(r3 as int, 10);
        lemma_fundamental_div_mod(r4 as int, 10);
        lemma_mod_bound(v as int, 10);
        lemma_mod_bound(r1 as int, 10);
        lemma_mod_bound(r2 as int, 10);
        lemma_mod_bound(r3 as int, 10);
        lemma_mod_bound(r4 as int, 10);
    }
    assert(d0 <= 9 && d1 <= 9 && d2 <= 9 && d3 <= 9 && d4 <= 9 && d5 <= 9);

    let mut s = String::new();
    push_char(&mut s, digit_char(d0));
    push_char(&mut s, digit_char(d1));
    push_char(&mut s, digit_char(d2));
    push_char(&mut s, digit_char(d3));
    push_char(&mut s, digit_char(d4));
    push_char(&mut s, digit_char(d5));

    proof {
        let t = s@;
        let s0 = t.subrange(0, 0);
        let s1 = t.subrange(0, 1);
        let s2 = t.subrange(0, 2);
        let s3 = t.subrange(0, 3);
        let s4 = t.subrange(0, 4);
        let s5 = t.subrange(0, 5);
        assert(s1.drop_last() =~= s0 && s1.last() == t[0]);
        assert(s2.drop_last() =~= s1 && s2.last() == t[1]);
        assert(s3.drop_last() =~= s2 && s3.last() == t[2]);
        assert(s4.drop_last() =~= s3 && s4.last() == t[3]);
        assert(s5.drop_last() =~= s4 && s5.last() == t[4]);
        assert(t.drop_last() =~= s5 && t.last() == t[5]);
        assert(dec_value(s0) == 0);
        assert(dec_value(s1) == d0);
        assert(dec_value(s2) == d0 * 10 + d1);
        assert(dec_value(s3) == dec_value(s2) * 10 + d2);
        assert(dec_value(s4) == dec_value(s3) * 10 + d3);
        assert(dec_value(s5) == dec_value(s4) * 10 + d4);
        assert(dec_value(t) == dec_value(s5) * 10 + d5);
        assert(dec_value(t) == v);
    }
    s
}

/// A six-digit two-factor code; the only ways to obtain one are `parse` and
/// the random `default`.
#[derive(Debug)]
pub struct TwoFACode(String);

impl View for TwoFACode {
    type V = Seq<char>;

    closed spec fn view(&self) -> Seq<char> {
        self.0@
    }
}

impl TwoFACode {
    /// Wraps the string when it is exactly six decimal digits in range;
    /// otherwise reports the failure.
    pub fn parse(code: String) -> (r: Result<Self, String>)
        ensures
            match r {
                Ok(c) => two_fa_code_ok(code@) && c@ == code@,
                Err(m) => !two_fa_code_ok(code@) && m@ == "Invalid 2FA code"@,
            },
    {
        if code.as_str().unicode_len() != 6 {
            return Err("Invalid 2FA code".to_owned());
        }
        let mut v: u32 = 0;
        let mut i: usize = 0;
        while i < 6
            invariant
                code@.len() == 6,
                i <= 6,
                forall|j: int| 0 <= j < i ==> 48 <= #[trigger] code@[j] as int <= 57,
                v as int == dec_value(code@.subrange(0, i as int)),
                (v as int) < pow10(i as nat),
            decreases 6 - i,
        {
            let d = code.as_str().get_char(i) as u32;
            if d < 48 || d > 57 {
                assert(!all_digits(code@)) by {
                    assert(!(48 <= code@[i as int] as int <= 57));
                }
                return Err("Invalid 2FA code".to_owned());
            }
            proof {
                lemma_pow10_mono(i as nat, 5);
                lemma_pow10_small();
                assert(code@.subrange(0, (i + 1) as int).drop_last() =~= code@.subrange(
                    0,
                    i as int,
                ));
                assert(code@.subrange(0, (i + 1) as int).last() == code@[i as int]);
            }
            v = v * 10 + (d - 48);
            i += 1;
        }
        proof {
            assert(code@.subrange(0, 6) =~= code@);
        }
        if 100000 <= v && v <= 999999 {
            Ok(TwoFACode(code))
        } else {
            Err("Invalid 2FA code".to_owned())
        }
    }

    /// The code's characters.
    pub fn as_str(&self) -> (r: &str)
        ensures
            r@ == self@,
    {
        self.0.as_str()
    }
}

impl Default for TwoFACode {
    /// Draws a fresh uniformly random six-digit code.
    fn default() -> (r: Self)
        ensures
            two_fa_code_ok(r@),
    {
        TwoFACode(code_chars(random_six_digit_value()))
    }
}

impl Clone for TwoFACode {
    fn clone(&self) -> (r: Self)
        ensures
            r@ == self@,
    {
        TwoFACode(self.0.clone())
    }
}

impl PartialEq for TwoFACode {
    fn eq(&self, other: &Self) -> (r: bool) {
        self.0 == other.0
    }
}

impl vstd::std_specs::cmp::PartialEqSpecImpl for TwoFACode {
    open spec fn obeys_eq_spec() -> bool {
        true
    }

    open spec fn eq_spec(&self, other: &Self) -> bool {
        self@ == other@
    }
}

// ---------------------------------------------------------------------------
// Store capability sets
// ---------------------------------------------------------------------------

/// How a user-store operation can fail.
#[derive(Debug, PartialEq, Eq, Structural)]
pub enum UserStoreError {
    UserAlreadyExists,
    UserNotFound,
    InvalidCredentials,
    UnexpectedError,
}

/// How a revocation-store operation can fail.
#[derive(Debug, PartialEq, Eq, Structural)]
pub enum BannedTokenStoreError {
    UnexpectedError,
}

/// How a challenge-store operation can fail.
#[derive(Debug, PartialEq, Eq, Structural)]
pub enum TwoFACodeStoreError {
    LoginAttemptIdNotFound,
    UnexpectedError,
}

/// The server-held record of a pending two-factor verification: the attempt
/// identifier and the code, as character sequences.
pub ghost struct Challenge {
    pub id: Seq<char>,
    pub code: Seq<char>,
}

/// Owns the user records, keyed uniquely by e-mail address. A backend that
/// can fault says so through `may_fault`; every other outcome is pinned
/// down by the contract over the abstract map of records.
pub trait UserStore {
    /// The records held, as a map from e-mail characters to record content.
    /// Backends written outside the verified library inherit the default,
    /// arbitrary view, of which nothing is known.
    open spec fn users(&self) -> Map<Seq<char>, UserModel> {
        vstd::pervasive::arbitrary()
    }

    /// Whether a call on this backend can fail with `UnexpectedError` at
    /// all. The in-memory backend never does; backends written outside the
    /// verified library inherit the default, arbitrary answer.
    open spec fn may_fault(&self) -> bool {
        vstd::pervasive::arbitrary()
    }

    /// Adds the record when its address is not yet taken; the uniqueness
    /// check and the insertion are one atomic step.
    fn add_user(&mut self, user: User) -> (r: Result<(), UserStoreError>)
        ensures
            match r {
                Ok(()) => !old(self).users().contains_key(user@.email) && final(self).users()
                    == old(self).users().insert(user@.email, user@),
                Err(UserStoreError::UserAlreadyExists) => old(self).users().contains_key(user@.email)
                    && final(self).users() == old(self).users(),
                Err(UserStoreError::UnexpectedError) => old(self).may_fault() && final(self).users()
                    == old(self).users(),
                _ => false,
            },
    ;

    /// Looks a record up by address.
    fn get_user(&self, email: &Email) -> (r: Result<User, UserStoreError>)
        ensures
            match r {
                Ok(u) => self.users().contains_key(email@) && u@ == self.users()[email@],
                Err(UserStoreError::UserNotFound) => !self.users().contains_key(email@),
                Err(UserStoreError::UnexpectedError) => self.may_fault(),
                _ => false,
            },
    ;

    /// Checks a password against the stored credential for the address.
    fn validate_user(&self, email: &Email, password: &Password) -> (r: Result<
        (),
        UserStoreError,
    >)
        ensures
            match r {
                Ok(()) => self.users().contains_key(email@) && self.users()[email@].password
                    == password@,
                Err(UserStoreError::UserNotFound) => !self.users().contains_key(email@),
                Err(UserStoreError::InvalidCredentials) => self.users().contains_key(email@)
                    && self.users()[email@].password != password@,
                Err(UserStoreError::UnexpectedError) => self.may_fault(),
                _ => false,
            },
    ;
}

/// Owns the set of revoked session tokens. A backend that can fault says so
/// through `may_fault`; entries expire on their own no later than the
/// token's own validity window.
pub trait BannedTokenStore {
    /// The revoked tokens held, as a set of character sequences. Backends
    /// written outside the verified library inherit the default, arbitrary
    /// view, of which nothing is known.
    open spec fn tokens(&self) -> Set<Seq<char>> {
        vstd::pervasive::arbitrary()
    }

    /// Whether a call on this backend can fail with `UnexpectedError` at
    /// all. The in-memory backend never does; backends written outside the
    /// verified library inherit the default, arbitrary answer.
    open spec fn may_fault(&self) -> bool {
        vstd::pervasive::arbitrary()
    }

    /// Records the token as revoked; revoking twice is not an error.
    fn add_token(&mut self, token: String) -> (r: Result<(), BannedTokenStoreError>)
        ensures
            match r {
                Ok(()) => final(self).tokens() == old(self).tokens().insert(token@),
                Err(BannedTokenStoreError::UnexpectedError) => old(self).may_fault() && final(self).tokens() == old(self).tokens(),
            },
    ;

    /// Asks whether the token has been revoked.
    fn contains_token(&self, token: &str) -> (r: Result<bool, BannedTokenStoreError>)
        ensures
            match r {
                Ok(b) => b == self.tokens().contains(token@),
                Err(BannedTokenStoreError::UnexpectedError) => self.may_fault(),
            },
    ;
}

/// Owns the in-flight two-factor challenges, one per e-mail address. A
/// backend that can fault says so through `may_fault`; entries time out on
/// their own even if never consumed.
pub trait TwoFACodeStore {
    /// The challenges held, as a map from e-mail characters to the pending
    /// attempt identifier and code. Backends written outside the verified
    /// library inherit the default, arbitrary view, of which nothing is known.
    open spec fn codes(&self) -> Map<Seq<char>, Challenge> {
        vstd::pervasive::arbitrary()
    }

    /// Whether a call on this backend can fail with `UnexpectedError` at
    /// all. The in-memory backend never does; backends written outside the
    /// verified library inherit the default, arbitrary answer.
    open spec fn may_fault(&self) -> bool {
        vstd::pervasive::arbitrary()
    }

    /// Stores a challenge for the address, overwriting any prior one: only
    /// the newest attempt is valid.
    fn add_code(&mut self, email: Email, login_attempt_id: LoginAttemptId, code: TwoFACode) -> (r:
        Result<(), TwoFACodeStoreError>)
        ensures
            match r {
                Ok(()) => final(self).codes() == old(self).codes().insert(
                    email@,
                    (Challenge { id: login_attempt_id@, code: code@ }),
                ),
                Err(TwoFACodeStoreError::UnexpectedError) => old(self).may_fault() && final(self).codes() == old(self).codes(),
                _ => false,
            },
    ;

    /// Looks the pending challenge up by address.
    fn get_code(&self, email: &Email) -> (r: Result<
        (LoginAttemptId, TwoFACode),
        TwoFACodeStoreError,
    >)
        ensures
            match r {
                Ok(pair) => self.codes().contains_key(email@) && self.codes()[email@] == (Challenge {
                    id: pair.0@,
                    code: pair.1@,
                }),
                Err(TwoFACodeStoreError::LoginAttemptIdNotFound) => !self.codes().contains_key(
                    email@,
                ),
                Err(TwoFACodeStoreError::UnexpectedError) => self.may_fault(),
            },
    ;

    /// Removes the pending challenge for the address, if one is present.
    fn remove_code(&mut self, email: &Email) -> (r: Result<(), TwoFACodeStoreError>)
        ensures
            match r {
                Ok(()) => old(self).codes().contains_key(email@) && final(self).codes() == old(self).codes().remove(email@),
                Err(TwoFACodeStoreError::LoginAttemptIdNotFound) => !old(self).codes().contains_key(
                    email@,
                ) && final(self).codes() == old(self).codes(),
                Err(TwoFACodeStoreError::UnexpectedError) => old(self).may_fault() && final(self).codes() == old(self).codes(),
            },
    ;
}

} // verus!
