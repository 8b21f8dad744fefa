use vstd::prelude::*;

use crate::data_stores::{
    all_digits, dec_value, lemma_pow10_mono, lemma_pow10_wide, pow10,
};
use crate::email::{email_ok, Email};
use crate::strutil::push_char;
use vstd::arithmetic::div_mod::{lemma_fundamental_div_mod, lemma_mod_bound};
use vstd::utf8::encode_utf8;

verus! {

/// Seconds a freshly issued session token stays valid.
pub const TOKEN_TTL_SECONDS: u64 = 600;

/// What HMAC-SHA256 computes for a key and a message. The digest is a pure
/// function of its two arguments, so its outcome can be given a name.
pub uninterp spec fn mac_of(key: Seq<u8>, msg: Seq<u8>) -> Seq<u8>;

/// The authentication tag embedded in tokens: the HMAC-SHA256 digest, whose
/// thirty-two-byte length is made explicit so that the token layout is fixed.
pub open spec fn tag_of(key: Seq<u8>, msg: Seq<u8>) -> Seq<u8> {
    if mac_of(key, msg).len() == 32 {
        mac_of(key, msg)
    } else {
        Seq::new(32, |i: int| 0u8)
    }
}

/// Relies on hmac's `Hmac<Sha256>` (`new_from_slice`, `update`, `finalize`):
/// the digest depends on the key and message bytes alone, and HMAC-SHA256
/// produces exactly thirty-two bytes. HMAC accepts keys of any length, so
/// `new_from_slice` never fails.
#[verifier::external_body]
fn hmac_sha256(key: &[u8], msg: &[u8]) -> (r: Vec<u8>)
    ensures
        r@ == mac_of(key@, msg@),
        r@.len() == 32,
{
    let mut mac = <hmac::Hmac<sha2::Sha256> as hmac::KeyInit>::new_from_slice(key).expect(
        "HMAC accepts keys of any length",
    );
    hmac::Mac::update(&mut mac, msg);
    hmac::Mac::finalize(mac).into_bytes().to_vec()
}

/// The tag for a key and message; its length is known to be thirty-two.
fn tag_bytes(key: &[u8], msg: &[u8]) -> (r: Vec<u8>)
    ensures
        r@ == tag_of(key@, msg@),
        r@.len() == 32,
{
    hmac_sha256(key, msg)
}

/// The lower-case hex (or decimal) character for a value below sixteen.
pub open spec fn hex_char(d: int) -> char {
    if d < 10 {
        ((48 + d) as u8) as char
    } else {
        ((87 + d) as u8) as char
    }
}

/// The lower-case hex encoding of bytes, two characters per byte.
pub open spec fn hex_of(b: Seq<u8>) -> Seq<char>
    decreases b.len(),
{
    if b.len() == 0 {
        Seq::empty()
    } else {
        hex_of(b.drop_last()) + seq![
            hex_char(b.last() as int / 16),
            hex_char(b.last() as int % 16),
        ]
    }
}

pub proof fn lemma_hex_len(b: Seq<u8>)
    ensures
        hex_of(b).len() == 2 * b.len(),
    decreases b.len(),
{
    if b.len() > 0 {
        lemma_hex_len(b.drop_last());
    }
}

/// The character for a single hex digit.
fn hex_char_exec(d: u8) -> (c: char)
    requires
        d < 16,
    ensures
        c == hex_char(d as int),
{
    if d < 10 {
        (48 + d) as char
    } else {
        (87 + d) as char
    }
}

/// Appends the hex encoding of `data` to `s`.
fn append_hex(s: &mut String, data: &Vec<u8>)
    ensures
        final(s)@ == old(s)@ + hex_of(data@),
{
    let n = data.len();
    assert(data@.subrange(0, 0) =~= Seq::<u8>::empty());
    assert(s@ =~= s@ + hex_of(data@.subrange(0, 0)));
    let mut i: usize = 0;
    while i < n
        invariant
            i <= n,
            n == data@.len(),
            s@ == old(s)@ + hex_of(data@.subrange(0, i as int)),
        decreases n - i,
    {
        let b = data[i];
        proof {
            lemma_mod_bound(b as int, 16);
            lemma_fundamental_div_mod(b as int, 16);
        }
        push_char(s, hex_char_exec(b / 16));
        push_char(s, hex_char_exec(b % 16));
        proof {
            let pre = data@.subrange(0, i as int);
            let cur = data@.subrange(0, (i + 1) as int);
            assert(cur.drop_last() =~= pre);
            assert(cur.last() == data@[i as int]);
            assert(old(s)@ + hex_of(cur) =~= (old(s)@ + hex_of(pre)).push(
                hex_char(b as int / 16),
            ).push(hex_char(b as int % 16)));
        }
        i += 1;
    }
    proof {
        assert(data@.subrange(0, n as int) =~= data@);
    }
}

/// The fixed-width decimal rendering of a non-negative value: `n` digits,
/// zero-padded, most significant first.
pub open spec fn dec_pad(v: int, n: nat) -> Seq<char>
    decreases n,
{
    if n == 0 {
        Seq::empty()
    } else {
        dec_pad(v / 10, (n - 1) as nat).push(hex_char(v % 10))
    }
}

pub proof fn lemma_dec_pad(v: int, n: nat)
    requires
        0 <= v,
    ensures
        dec_pad(v, n).len() == n,
        all_digits(dec_pad(v, n)),
        v < pow10(n) ==> dec_value(dec_pad(v, n)) == v,
    decreases n,
{
    if n > 0 {
        lemma_fundamental_div_mod(v, 10);
        lemma_mod_bound(v, 10);
        assert(v / 10 >= 0) by (nonlinear_arith)
            requires
                v >= 0,
        ;
        lemma_dec_pad(v / 10, (n - 1) as nat);
        let rest = dec_pad(v / 10, (n - 1) as nat);
        let whole = dec_pad(v, n);
        assert(whole == rest.push(hex_char(v % 10)));
        assert(whole.drop_last() =~= rest);
        assert(whole.last() == hex_char(v % 10));
        assert(hex_char(v % 10) as int == 48 + v % 10);
        assert(forall|i: int| 0 <= i < whole.len() ==> 48 <= #[trigger] whole[i] as int <= 57);
        if v < pow10(n) {
            assert(pow10(n) == 10 * pow10((n - 1) as nat));
            assert(v / 10 < pow10((n - 1) as nat));
            assert(dec_value(whole) == dec_value(rest) * 10 + (whole.last() as int - 48));
        }
    }
}

/// Appends the `n`-digit zero-padded decimal rendering of `v` to `s`.
fn append_dec(s: &mut String, v: u64, n: usize)
    ensures
        final(s)@ == old(s)@ + dec_pad(v as int, n as nat),
    decreases n,
{
    if n == 0 {
        assert(s@ =~= s@ + dec_pad(v as int, 0));
    } else {
        append_dec(s, v / 10, n - 1);
        proof {
            lemma_mod_bound(v as int, 10);
        }
        push_char(s, hex_char_exec((v % 10) as u8));
        proof {
            assert(old(s)@ + dec_pad(v as int, n as nat) =~= (old(s)@ + dec_pad(
                v as int / 10,
                (n - 1) as nat,
            )).push(hex_char(v as int % 10)));
        }
    }
}

/// The signed part of a token: the expiry second as nineteen decimal digits,
/// a dot, then the subject's address.
pub open spec fn payload_of(email: Seq<char>, exp: int) -> Seq<char> {
    dec_pad(exp, 19) + seq!['.'] + email
}

/// A whole token: the hex tag over the payload, a dot, then the payload.
pub open spec fn token_of(email: Seq<char>, exp: int, key: Seq<u8>) -> Seq<char> {
    hex_of(tag_of(key, encode_utf8(payload_of(email, exp)))) + seq!['.'] + payload_of(email, exp)
}

/// Issues a session token for the address, valid for `TOKEN_TTL_SECONDS`
/// from `now_secs`, signed with the server's secret.
pub fn issue(email: &Email, now_secs: u64, key: &[u8]) -> (t: String)
    requires
        now_secs + TOKEN_TTL_SECONDS <= 9_999_999_999_999_999_999,
    ensures
        t@ == token_of(email@, now_secs + TOKEN_TTL_SECONDS, key@),
{
    let exp = now_secs + TOKEN_TTL_SECONDS;

    let mut payload = String::new();
    append_dec(&mut payload, exp, 19);
    push_char(&mut payload, '.');
    payload.append(email.as_str());
    proof {
        assert(payload@ =~= payload_of(email@, exp as int));
    }

    let payload_bytes = payload.as_str().as_bytes_vec();
    let tag = tag_bytes(key, payload_bytes.as_slice());

    let mut t = String::new();
    append_hex(&mut t, &tag);
    push_char(&mut t, '.');
    t.append(payload.as_str());
    proof {
        assert(t@ =~= token_of(email@, exp as int, key@));
    }
    t
}

// ---------------------------------------------------------------------------
// Validation
// ---------------------------------------------------------------------------

/// Why a presented token was rejected.
#[derive(Debug, PartialEq, Eq, Structural)]
pub enum TokenError {
    Malformed,
    Expired,
    BadSignature,
}

/// The expiry second a token claims.
pub open spec fn tok_exp(t: Seq<char>) -> int {
    dec_value(t.subrange(65, 84))
}

/// The subject address a token claims.
pub open spec fn tok_email(t: Seq<char>) -> Seq<char> {
    t.subrange(85, t.len() as int)
}

/// The signed part of a presented token: everything after the tag and its dot.
pub open spec fn tok_payload(t: Seq<char>) -> Seq<char> {
    t.subrange(65, t.len() as int)
}

/// The token has the fixed layout and carries a well-formed address:
/// sixty-four tag characters, a dot, nineteen digits, a dot, the address.
pub open spec fn token_shape_ok(t: Seq<char>) -> bool {
    &&& t.len() >= 85
    &&& t[64] == '.'
    &&& t[84] == '.'
    &&& all_digits(t.subrange(65, 84))
    &&& email_ok(tok_email(t))
}

/// The token's tag is the MAC of its payload under the server's secret.
pub open spec fn token_signed_ok(t: Seq<char>, key: Seq<u8>) -> bool {
    t.subrange(0, 64) == hex_of(tag_of(key, encode_utf8(tok_payload(t))))
}

/// A token is valid at a moment exactly when it has the right shape, its
/// signature verifies, and it has not yet expired.
pub open spec fn token_valid(t: Seq<char>, now_secs: int, key: Seq<u8>) -> bool {
    token_shape_ok(t) && token_signed_ok(t, key) && now_secs <= tok_exp(t)
}

/// Checks a presented token against the server's secret and the clock, and
/// returns the subject it certifies. Shape problems are reported before
/// signature problems, and those before expiry.
#[verifier::loop_isolation(false)]
pub fn validate(token: &str, now_secs: u64, key: &[u8]) -> (r: Result<Email, TokenError>)
    ensures
        match r {
            Ok(e) => token_valid(token@, now_secs as int, key@) && e@ == tok_email(token@),
            Err(TokenError::Malformed) => !token_shape_ok(token@),
            Err(TokenError::BadSignature) => token_shape_ok(token@) && !token_signed_ok(
                token@,
                key@,
            ),
            Err(TokenError::Expired) => token_shape_ok(token@) && token_signed_ok(token@, key@)
                && now_secs as int > tok_exp(token@),
        },
{
    let n = token.unicode_len();
    if n < 85 {
        return Err(TokenError::Malformed);
    }
    if token.get_char(64) != '.' {
        return Err(TokenError::Malformed);
    }
    if token.get_char(84) != '.' {
        return Err(TokenError::Malformed);
    }

    let digits = Ghost(token@.subrange(65, 84));
    let mut exp: u64 = 0;
    let mut i: usize = 65;
    while i < 84
        invariant
            65 <= i <= 84,
            forall|j: int| 65 <= j < i ==> 48 <= #[trigger] token@[j] as int <= 57,
            exp as int == dec_value(token@.subrange(65, i as int)),
            (exp as int) < pow10((i - 65) as nat),
        decreases 84 - i,
    {
        let d = token.get_char(i) as u32;
        if d < 48 || d > 57 {
            assert(!all_digits(digits@)) by {
                assert(digits@[i - 65] == token@[i as int]);
            }
            return Err(TokenError::Malformed);
        }
        proof {
            lemma_pow10_mono((i - 65) as nat, 18);
            lemma_pow10_wide();
            assert(token@.subrange(65, (i + 1) as int).drop_last() =~= token@.subrange(
                65,
                i as int,
            ));
            assert(token@.subrange(65, (i + 1) as int).last() == token@[i as int]);
        }
        exp = exp * 10 + (d - 48) as u64;
        i += 1;
    }
    assert(all_digits(digits@)) by {
        assert forall|k: int| 0 <= k < digits@.len() implies 48 <= #[trigger] digits@[k] as int
            <= 57 by {
            assert(digits@[k] == token@[65 + k]);
        }
    }

    let email_part = token.substring_char(85, n);
    let email = match Email::parse(email_part.to_owned()) {
        Ok(e) => e,
        Err(_) => {
            return Err(TokenError::Malformed);
        },
    };
    assert(token_shape_ok(token@));

    let payload = token.substring_char(65, n);
    let payload_bytes = payload.as_bytes_vec();
    let tag = tag_bytes(key, payload_bytes.as_slice());
    let mut expected = String::new();
    append_hex(&mut expected, &tag);
    proof {
        lemma_hex_len(tag@);
    }

    let mut j: usize = 0;
    while j < 64
        invariant
            j <= 64,
            forall|k: int| 0 <= k < j ==> token@[k] == expected@[k],
        decreases 64 - j,
    {
        if token.get_char(j) != expected.as_str().get_char(j) {
            assert(!token_signed_ok(token@, key@)) by {
                assert(token@.subrange(0, 64)[j as int] == token@[j as int]);
            }
            return Err(TokenError::BadSignature);
        }
        j += 1;
    }
    assert(token@.subrange(0, 64) =~= expected@);

    if now_secs > exp {
        return Err(TokenError::Expired);
    }
    Ok(email)
}

/// A freshly issued token validates and identifies the correct subject: at
/// any moment not past its expiry, the token built for an address is valid
/// under the same secret and carries exactly that address and expiry.
pub proof fn lemma_token_roundtrip(email: Seq<char>, exp: int, key: Seq<u8>, now: int)
    requires
        email_ok(email),
        0 <= exp < pow10(19),
        now <= exp,
    ensures
        token_valid(token_of(email, exp, key), now, key),
        tok_email(token_of(email, exp, key)) == email,
        tok_exp(token_of(email, exp, key)) == exp,
{
    let d = dec_pad(exp, 19);
    lemma_dec_pad(exp, 19);
    let payload = payload_of(email, exp);
    let tag = tag_of(key, encode_utf8(payload));
    let hex = hex_of(tag);
    lemma_hex_len(tag);
    let t = token_of(email, exp, key);
    assert(tag.len() == 32);
    assert(hex.len() == 64);
    assert(t.len() == 85 + email.len());
    assert(t[64] == '.');
    assert(t[84] == '.');
    assert(t.subrange(65, 84) =~= d);
    assert(t.subrange(85, t.len() as int) =~= email);
    assert(t.subrange(65, t.len() as int) =~= payload);
    assert(t.subrange(0, 64) =~= hex);
    assert(token_shape_ok(t));
    assert(token_signed_ok(t, key));
}

} // verus!
