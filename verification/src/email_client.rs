use vstd::prelude::*;

use crate::email::Email;

verus! {

/// Sends the two-factor code to the user out of band. Concrete notifiers
/// are supplied by the embedding application; one that can fail to deliver
/// says so through `may_fail`.
pub trait EmailClient {
    /// Whether delivery through this notifier can fail at all. The mock
    /// never fails; notifiers written outside the verified library inherit
    /// the default, arbitrary answer.
    open spec fn may_fail(&self) -> bool {
        vstd::pervasive::arbitrary()
    }

    fn send_email(&self, email: &Email, subject: &str, content: &str) -> (r: Result<(), String>)
        ensures
            r is Err ==> self.may_fail(),
    ;
}

/// A notifier for tests and local runs: it delivers nothing and always
/// reports success.
#[derive(Default)]
pub struct MockEmailClient;

impl EmailClient for MockEmailClient {
    open spec fn may_fail(&self) -> bool {
        false
    }

    fn send_email(&self, email: &Email, subject: &str, content: &str) -> (r: Result<
        (),
        String,
    >)
        ensures
            r is Ok,
    {
        Ok(())
    }
}

} // verus!
