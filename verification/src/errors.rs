use vstd::prelude::*;

verus! {

/// A failure of the login flow itself; the user recovers by restarting login.
/// Infrastructure faults are not variants here: the in-process store cannot
/// become unreachable, and an exhausted random source aborts the request in
/// the generator itself.  A failed upstream revocation is deliberately no
/// error at all: logout destroys the session regardless.
#[derive(Clone, Copy, Debug, PartialEq, Eq, Structural)]
pub enum LoginError {
    /// The session holds no pending login pair: none was ever stored, the
    /// session expired, or the pair was already consumed by a callback.
    NoPendingLogin,
    /// The state echoed back by the authorization server does not equal the
    /// state stored in the session.
    StateMismatch,
    /// The token endpoint did not yield a usable token response.
    TokenExchangeFailed,
}

impl LoginError {
    /// The user-facing text is the same for every login-flow failure, so the
    /// response discloses nothing about the internal comparison.
    pub fn user_message(&self) -> (r: &'static str)
        ensures
            r@ == "login failed, please try again"@,
    {
        "login failed, please try again"
    }
}

} // verus!
