use vstd::prelude::*;

use crate::email::Email;
use crate::password::Password;

verus! {

/// The mathematical content of a user record: the address and password as
/// character sequences, and whether a second factor is required.
pub ghost struct UserModel {
    pub email: Seq<char>,
    pub password: Seq<char>,
    pub requires_2fa: bool,
}

/// A registered user: the unique address, the stored credential, and whether
/// logins must complete a second factor.
#[derive(Debug)]
pub struct User {
    pub email: Email,
    pub password: Password,
    pub requires_2fa: bool,
}

impl View for User {
    type V = UserModel;

    open spec fn view(&self) -> UserModel {
        UserModel { email: self.email@, password: self.password@, requires_2fa: self.requires_2fa }
    }
}

/// True when the character `c` occurs in `s`.
fn str_contains_char(s: &str, c: char) -> (r: bool)
    ensures
        r == s@.contains(c),
{
    let n = s.unicode_len();
    let mut i: usize = 0;
    while i < n
        invariant
            n == s@.len(),
            i <= n,
            forall|j: int| 0 <= j < i ==> s@[j] != c,
        decreases n - i,
    {
        if s.get_char(i) == c {
            assert(s@.contains(c)) by {
                assert(s@[i as int] == c);
            }
            return true;
        }
        i += 1;
    }
    false
}

impl User {
    /// Assembles a record from already-validated parts.
    pub fn new(email: Email, password: Password, requires_2fa: bool) -> (r: Self)
        ensures
            r@ == (UserModel { email: email@, password: password@, requires_2fa }),
    {
        Self { email, password, requires_2fa }
    }

    /// Re-checks the basic shape of the record: a non-empty address that
    /// contains '@', and a password of at least eight characters. Both hold
    /// by construction, since the fields come from `parse`.
    pub fn is_valid(&self) -> (r: bool)
        ensures
            r == (self@.email.len() > 0 && self@.email.contains('@') && self@.password.len() >= 8),
    {
        if self.email.as_str().unicode_len() == 0 {
            return false;
        }

        if !str_contains_char(self.email.as_str(), '@') {
            return false;
        }

        if self.password.as_str().unicode_len() < 8 {
            return false;
        }
        true
    }
}

impl Clone for User {
    fn clone(&self) -> (r: Self)
        ensures
            r@ == self@,
    {
        User {
            email: self.email.clone(),
            password: self.password.clone(),
            requires_2fa: self.requires_2fa,
        }
    }
}

impl PartialEq for User {
    fn eq(&self, other: &Self) -> (r: bool) {
        self.email == other.email && self.password == other.password && self.requires_2fa
            == other.requires_2fa
    }
}

impl vstd::std_specs::cmp::PartialEqSpecImpl for User {
    open spec fn obeys_eq_spec() -> bool {
        true
    }

    open spec fn eq_spec(&self, other: &Self) -> bool {
        self@ == other@
    }
}

} // verus!
