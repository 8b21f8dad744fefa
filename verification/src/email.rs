use vstd::prelude::*;

verus! {

/// Whether a string is a syntactically valid e-mail address, exactly as the
/// `validator` crate's HTML5-style check decides it. The check is a pure
/// function of the characters, so its outcome can be given a name.
pub uninterp spec fn email_ok(s: Seq<char>) -> bool;

/// Relies on validator's `ValidateEmail::validate_email` for `String`: the
/// outcome depends on the characters alone; an empty string and a string
/// without '@' are rejected before any further checking.
#[verifier::external_body]
fn validate_email_str(s: &String) -> (r: bool)
    ensures
        r == email_ok(s@),
        s@.len() == 0 ==> !r,
        !s@.contains('@') ==> !r,
{
    validator::ValidateEmail::validate_email(s)
}

/// An e-mail address that passed syntax validation; the only way to obtain
/// one is `parse`. Addresses are compared by their exact string.
#[derive(Debug)]
pub struct Email(String);

impl View for Email {
    type V = Seq<char>;

    closed spec fn view(&self) -> Seq<char> {
        self.0@
    }
}

impl Email {
    /// Wraps the string when it is a valid address; otherwise reports the
    /// failure, echoing the rejected input.
    pub fn parse(email: String) -> (r: Result<Self, String>)
        ensures
            match r {
                Ok(e) => email_ok(email@) && e@ == email@,
                Err(m) => !email_ok(email@) && m@ == "Invalid email: "@ + email@,
            },
    {
        if validate_email_str(&email) {
            Ok(Email(email))
        } else {
            Err("Invalid email: ".to_owned().concat(email.as_str()))
        }
    }

    /// The address's characters.
    pub fn as_str(&self) -> (r: &str)
        ensures
            r@ == self@,
    {
        self.0.as_str()
    }

    /// The address as an owned string.
    pub fn to_owned_string(&self) -> (r: String)
        ensures
            r@ == self@,
    {
        self.0.clone()
    }
}

impl Clone for Email {
    fn clone(&self) -> (r: Self)
        ensures
            r@ == self@,
    {
        Email(self.0.clone())
    }
}

impl PartialEq for Email {
    fn eq(&self, other: &Self) -> (r: bool) {
        self.0 == other.0
    }
}

impl vstd::std_specs::cmp::PartialEqSpecImpl for Email {
    open spec fn obeys_eq_spec() -> bool {
        true
    }

    open spec fn eq_spec(&self, other: &Self) -> bool {
        self@ == other@
    }
}

} // verus!
