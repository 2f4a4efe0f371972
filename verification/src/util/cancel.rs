//! Cancellation signals.

use tokio_util::sync::CancellationToken;
use vstd::prelude::*;

verus! {

/// Cancellation signal shared by all clones of a token.
///
/// The value of a token is its identity: tokens that are cancelled together are equal. Whether a
/// token is cancelled can change at any time, and is not a part of its value.
#[verifier::external_type_specification]
#[verifier::external_body]
pub struct ExCancellationToken(CancellationToken);

/// `CancellationToken::new` makes a token of its own. Nothing is claimed of the result.
pub assume_specification[ CancellationToken::new ]() -> CancellationToken;

/// `CancellationToken::clone` hands out another handle to the same token: both are cancelled
/// together.
pub assume_specification[ <CancellationToken as Clone>::clone ](token: &CancellationToken) -> (res:
    CancellationToken)
    ensures
        res == *token,
;

/// `CancellationToken::is_cancelled` tells if the token is cancelled. A token that was cancelled
/// before stays so. Nothing else is claimed of the result, since any holder of a clone can cancel
/// the token from another thread.
#[verifier::external_body]
pub(crate) fn is_cancelled(token: &CancellationToken, evidence: Option<&Cancelled>) -> (res: bool)
    ensures
        evidence is Some && evidence->0@ == *token ==> res,
{
    let _ = evidence;
    token.is_cancelled()
}

/// The token was asked if it is cancelled, and has answered this way.
pub closed spec fn answers(token: CancellationToken, cancelled: bool) -> bool {
    exists|evidence: Option<&Cancelled>| #[trigger]
        call_ensures(is_cancelled, (&token, evidence), cancelled)
}

/// Asking a token gives an answer of that token.
pub(crate) proof fn lemma_answered(
    token: CancellationToken,
    evidence: Option<&Cancelled>,
    cancelled: bool,
)
    requires
        call_ensures(is_cancelled, (&token, evidence), cancelled),
    ensures
        answers(token, cancelled),
{
}

/// `CancellationToken::cancel` cancels the token and its clones. The result names the token that
/// was cancelled, and is made in no other way.
#[verifier::external_body]
pub(crate) fn cancel(token: &CancellationToken) -> (cancelled: Cancelled)
    ensures
        cancelled@ == *token,
{
    token.cancel();
    Cancelled { token: token.clone() }
}

/// Evidence that a token was cancelled, which cannot be undone.
#[derive(Debug)]
pub struct Cancelled {
    /// Token that was cancelled.
    token: CancellationToken,
}

impl View for Cancelled {
    type V = CancellationToken;

    closed spec fn view(&self) -> CancellationToken {
        self.token
    }
}

impl Cancelled {
    /// Token that was cancelled.
    #[must_use]
    pub fn token(&self) -> (token: &CancellationToken)
        ensures
            *token == self@,
    {
        &self.token
    }
}

/// An answer of a token is what that token has said when it was asked.
pub(crate) proof fn lemma_answer(token: CancellationToken, cancelled: bool)
    requires
        answers(token, cancelled),
    ensures
        exists|evidence: Option<&Cancelled>| #[trigger]
            call_ensures(is_cancelled, (&token, evidence), cancelled),
{
}

} // verus!
