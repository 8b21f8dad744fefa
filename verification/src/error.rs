use vstd::prelude::*;

verus! {

/// The outcomes the authentication flows report to the transport layer.
/// Validation failures, wrong credentials, conflicts and server faults are
/// kept distinct so the transport can map them to distinct responses.
#[derive(Debug, PartialEq, Eq, Structural)]
pub enum AuthAPIError {
    UserAlreadyExists,
    UserNotFound,
    InvalidEmail,
    InvalidCredentials,
    IncorrectCredentials,
    InvalidToken,
    UnexpectedError,
}

} // verus!
