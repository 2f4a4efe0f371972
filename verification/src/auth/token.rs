//! AAA - authentication token object.

use vstd::prelude::*;
use zeroize::Zeroize;

verus! {

/// `String::zeroize` overwrites the text with zeroes, and leaves the string empty. That the
/// memory was overwritten is not claimed, since it is not a part of the value.
#[verifier::external_body]
fn wipe(text: &mut String)
    ensures
        final(text)@ == Seq::<char>::empty(),
    opens_invariants none
    no_unwind
{
    text.zeroize();
}

/// Autoentication tokens to verify.
pub enum AuthToken {
    /// No verifiable tokens were provided.
    Absent,
    /// Token is verified externally, always accept.
    ExternallyVerified,
    /// Plaintext password to compare with auth data provider.
    PlainPassword(String),
}

/// Mathematical model of [`AuthToken`].
pub enum TokenView {
    /// No verifiable tokens were provided.
    Absent,
    /// Token is verified externally.
    ExternallyVerified,
    /// Plaintext password.
    PlainPassword(Seq<char>),
}

impl View for AuthToken {
    type V = TokenView;

    open spec fn view(&self) -> TokenView {
        match self {
            AuthToken::Absent => TokenView::Absent,
            AuthToken::ExternallyVerified => TokenView::ExternallyVerified,
            AuthToken::PlainPassword(password) => TokenView::PlainPassword(password@),
        }
    }
}

impl TokenView {
    /// Token without its secret.
    pub open spec fn wiped(self) -> TokenView {
        match self {
            TokenView::PlainPassword(_) => TokenView::PlainPassword(Seq::empty()),
            _ => self,
        }
    }

    /// Text that stands for the token in logs.
    pub open spec fn masked_text(self) -> Seq<char> {
        match self {
            TokenView::Absent => "Absent"@,
            TokenView::ExternallyVerified => "ExternallyVerified"@,
            TokenView::PlainPassword(_) => "PlainPassword(***)"@,
        }
    }
}

impl AuthToken {
    /// Format the token for logs, without its secret.
    #[must_use]
    pub fn masked(&self) -> (res: &'static str)
        ensures
            res@ == self@.masked_text(),
    {
        match self {
            AuthToken::Absent => "Absent",
            AuthToken::ExternallyVerified => "ExternallyVerified",
            AuthToken::PlainPassword(_) => "PlainPassword(***)",
        }
    }

    /// Overwrite the secret.
    pub fn zeroize(&mut self)
        ensures
            final(self)@ == old(self)@.wiped(),
        opens_invariants none
        no_unwind
    {
        match self {
            AuthToken::Absent | AuthToken::ExternallyVerified => {},
            AuthToken::PlainPassword(password) => wipe(password),
        }
    }
}

impl Drop for AuthToken {
    fn drop(&mut self)
        ensures
            final(self)@ == old(self)@.wiped(),
        opens_invariants none
        no_unwind
    {
        self.zeroize();
    }
}

impl Clone for AuthToken {
    fn clone(&self) -> (res: Self)
        ensures
            res@ == self@,
    {
        match self {
            AuthToken::Absent => AuthToken::Absent,
            AuthToken::ExternallyVerified => AuthToken::ExternallyVerified,
            AuthToken::PlainPassword(password) => AuthToken::PlainPassword(password.clone()),
        }
    }
}

impl Default for AuthToken {
    fn default() -> (res: Self)
        ensures
            res@ == TokenView::Absent,
    {
        AuthToken::Absent
    }
}

impl From<String> for AuthToken {
    fn from(item: String) -> (res: Self)
        ensures
            res@ == TokenView::PlainPassword(item@),
    {
        AuthToken::PlainPassword(item)
    }
}

impl vstd::std_specs::convert::FromSpecImpl<String> for AuthToken {
    open spec fn obeys_from_spec() -> bool {
        true
    }

    open spec fn from_spec(item: String) -> Self {
        AuthToken::PlainPassword(item)
    }
}

/// The text that stands for a token in logs gives nothing away about its secret: it is the same
/// for any two passwords, and does not change when the secret is overwritten.
pub proof fn lemma_masked_hides_secret(token: TokenView, left: Seq<char>, right: Seq<char>)
    ensures
        TokenView::PlainPassword(left).masked_text() == TokenView::PlainPassword(
            right,
        ).masked_text(),
        token.wiped().masked_text() == token.masked_text(),
{
}

/// Overwriting leaves no secret, however long it was, and does not change what kind of token it
/// is. A token without a secret stays as it is.
pub proof fn lemma_wiped(token: TokenView, password: Seq<char>)
    ensures
        TokenView::PlainPassword(password).wiped() == TokenView::PlainPassword(Seq::empty()),
        token is Absent <==> token.wiped() is Absent,
        token is ExternallyVerified <==> token.wiped() is ExternallyVerified,
        token.wiped().wiped() == token.wiped(),
{
}

/// A token made from a password holds that password, and so does its copy.
pub proof fn lemma_token_of_password(password: String, token: AuthToken, copy: AuthToken)
    requires
        call_ensures(<AuthToken as From<String>>::from, (password,), token),
        call_ensures(AuthToken::clone, (&token,), copy),
    ensures
        token@ == TokenView::PlainPassword(password@),
        copy@ == token@,
{
}

} // verus!
