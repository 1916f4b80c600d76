//! Credentials, kept as `secrecy` keeps them.
//!
//! A credential is wiped from memory when it is dropped and is not shown
//! when it is printed for debugging. The library reads it in two places:
//! to refuse an empty credential, and to build the authorization header.

use vstd::prelude::*;
use secrecy::ExposeSecret;

verus! {

/// A credential, held in a `secrecy::SecretString`.
#[verifier::external_body]
#[derive(Debug)]
pub struct Secret {
    inner: secrecy::SecretString,
}

/// The text of a credential.
pub uninterp spec fn secret_text(secret: Secret) -> Seq<char>;

/// `SecretString::from(String)`, which moves the text into a secret.
#[verifier::external_body]
fn seal(text: String) -> (secret: Secret)
    ensures
        secret_text(secret) == text@,
{
    Secret { inner: secrecy::SecretString::from(text) }
}

/// `ExposeSecret::expose_secret`, which lends the text of a secret.
#[verifier::external_body]
fn unseal(secret: &Secret) -> (text: &str)
    ensures
        text@ == secret_text(*secret),
{
    secret.inner.expose_secret()
}

impl Clone for Secret {
    /// `Clone` for `SecretString`: a second secret with the same text.
    #[verifier::external_body]
    fn clone(&self) -> (copy: Secret)
        ensures
            secret_text(copy) == secret_text(*self),
    {
        Secret { inner: self.inner.clone() }
    }
}

impl View for Secret {
    type V = Seq<char>;

    open spec fn view(&self) -> Seq<char> {
        secret_text(*self)
    }
}

impl Secret {
    /// Makes a credential of the given text.
    pub fn new(text: String) -> (secret: Secret)
        ensures
            secret@ == text@,
    {
        seal(text)
    }

    /// The text of the credential. This is the only way to read it.
    pub fn expose(&self) -> (text: &str)
        ensures
            text@ == self@,
    {
        unseal(self)
    }

    /// Whether the credential is the empty text.
    pub fn is_empty(&self) -> (empty: bool)
        ensures
            empty == (self@.len() == 0),
    {
        unseal(self).is_empty()
    }
}

} // verus!
