use vstd::prelude::*;

verus! {

/// Why a set of credentials was not accepted.
#[derive(Clone, Copy, Debug, PartialEq, Eq, Structural)]
pub enum AuthError {
    /// The username or the password does not match a stored account.
    InvalidCredentials,
    /// The check could not be carried out (the store failed).
    UnexpectedError,
}

} // verus!
