//! Authorization of outgoing calls.
//!
//! Every call carries the credential in an `authorization` header, in the
//! bearer form. The credential is read when the header is built and shown
//! nowhere else.

use vstd::prelude::*;
use crate::secret::Secret;
use crate::text::concat;

verus! {

/// Name of the header that carries the credential.
pub const AUTHORIZATION_HEADER: &'static str = "authorization";

/// The value of the authorization header for a credential.
pub open spec fn bearer_value(api_key: Seq<char>) -> Seq<char> {
    "Bearer "@ + api_key
}

/// Adds the credential to outgoing calls.
#[derive(Clone)]
pub struct AuthInterceptor {
    api_key: Secret,
}

impl View for AuthInterceptor {
    type V = Seq<char>;

    closed spec fn view(&self) -> Seq<char> {
        self.api_key@
    }
}

impl AuthInterceptor {
    /// An interceptor for the given credential.
    pub fn new(api_key: Secret) -> (interceptor: Self)
        ensures
            interceptor@ == api_key@,
    {
        AuthInterceptor { api_key }
    }

    /// The value of the authorization header: the word `Bearer`, a space,
    /// and the credential.
    pub fn header_value(&self) -> (value: String)
        ensures
            value@ == bearer_value(self@),
    {
        concat("Bearer ", self.api_key.expose())
    }
}

} // verus!
