use vstd::prelude::*;

verus! {

/// A password is accepted only when it is at least eight characters long.
pub open spec fn password_ok(s: Seq<char>) -> bool {
    s.len() >= 8
}

/// A password accepted at input time; the only way to obtain one is `parse`.
#[derive(Debug)]
pub struct Password(String);

impl View for Password {
    type V = Seq<char>;

    closed spec fn view(&self) -> Seq<char> {
        self.0@
    }
}

/// True when the candidate password meets the length rule.
pub fn validate_password(s: &str) -> (r: bool)
    ensures
        r == password_ok(s@),
{
    s.unicode_len() >= 8
}

impl Password {
    /// Wraps the string when it meets the length rule; otherwise reports the failure.
    pub fn parse(s: String) -> (r: Result<Self, String>)
        ensures
            match r {
                Ok(p) => password_ok(s@) && p@ == s@,
                Err(m) => !password_ok(s@) && m@ == "Failed to parse string to a Password type"@,
            },
    {
        if validate_password(s.as_str()) {
            Ok(Password(s))
        } else {
            Err("Failed to parse string to a Password type".to_owned())
        }
    }

    /// The password's characters, for comparison or hashing by a backend.
    pub fn as_str(&self) -> (r: &str)
        ensures
            r@ == self@,
    {
        self.0.as_str()
    }
}

impl Clone for Password {
    fn clone(&self) -> (r: Self)
        ensures
            r@ == self@,
    {
        Password(self.0.clone())
    }
}

impl PartialEq for Password {
    fn eq(&self, other: &Self) -> (r: bool) {
        self.0 == other.0
    }
}

impl vstd::std_specs::cmp::PartialEqSpecImpl for Password {
    open spec fn obeys_eq_spec() -> bool {
        true
    }

    open spec fn eq_spec(&self, other: &Self) -> bool {
        self@ == other@
    }
}

} // verus!
