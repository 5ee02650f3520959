//! The request-scoped identity token and the context that carries it.

use vstd::prelude::*;
use std::rc::Rc;

verus! {

/// The error returned for a request that is not authenticated.
#[derive(Debug)]
pub struct UnauthorizedError {
    message: String,
}

impl UnauthorizedError {
    /// The message of the error.
    pub closed spec fn message_text(&self) -> Seq<char> {
        self.message@
    }

    /// The generic error, which says nothing of the check that failed.
    pub fn default() -> (e: Self)
        ensures
            e.message_text() == "Not authorized"@,
    {
        UnauthorizedError { message: "Not authorized".to_owned() }
    }

    /// An error with the given message.
    pub fn new(message: &str) -> (e: Self)
        ensures
            e.message_text() == message@,
    {
        UnauthorizedError { message: message.to_owned() }
    }

    /// The message of the error.
    pub fn message(&self) -> (r: &str)
        ensures
            r@ == self.message_text(),
    {
        self.message.as_str()
    }
}

/// The identity resolved for a request, shared by every reader of the
/// request: each copy points to the same value.
pub struct AuthToken<U> {
    inner: Rc<U>,
}

impl<U> AuthToken<U> {
    /// The identity the token carries.
    pub closed spec fn identity(&self) -> Rc<U> {
        self.inner
    }

    /// A token over a resolved identity.
    pub fn new(user: Rc<U>) -> (t: Self)
        ensures
            t.identity() == user,
    {
        AuthToken { inner: user }
    }

    /// Another handle on the same identity.
    pub fn from_ref(token: &AuthToken<U>) -> (t: Self)
        ensures
            t.identity() == token.identity(),
    {
        AuthToken { inner: Rc::clone(&token.inner) }
    }

    /// The authenticated identity.
    pub fn get_authenticated_user(&self) -> (r: &U)
        ensures
            *r == *self.identity(),
    {
        &*self.inner
    }

    /// The shared handle on the identity.
    pub fn shared_user(&self) -> (r: Rc<U>)
        ensures
            r == self.identity(),
    {
        Rc::clone(&self.inner)
    }
}

/// The state of one request as it passes the handler chain: at most one
/// identity token, set at most once.
pub struct RequestContext<U> {
    token: Option<AuthToken<U>>,
}

impl<U> RequestContext<U> {
    /// The identity attached to the request, if any.
    pub closed spec fn identity(&self) -> Option<Rc<U>> {
        match self.token {
            Some(t) => Some(t.identity()),
            None => None,
        }
    }

    /// A context with no token.
    pub fn new() -> (c: Self)
        ensures
            c.identity() is None,
    {
        RequestContext { token: None }
    }

    /// Attaches the token; the slot must still be empty.
    pub(crate) fn insert_token(&mut self, token: AuthToken<U>)
        requires
            old(self).identity() is None,
        ensures
            final(self).identity() == Some(token.identity()),
    {
        self.token = Some(token);
    }

    /// Whether a token is attached.
    pub fn has_token(&self) -> (r: bool)
        ensures
            r == self.identity() is Some,
    {
        self.token.is_some()
    }

    /// Hands out the attached token, as a handler argument does: a handle on
    /// the one identity resolved for the request, or the generic
    /// unauthorized error when there is none.
    pub fn extract(&self) -> (r: Result<AuthToken<U>, UnauthorizedError>)
        ensures
            self.identity() matches Some(u) ==> (r matches Ok(t) && t.identity() == u),
            self.identity() is None ==> (r matches Err(e) && e.message_text() == "Not authorized"@),
    {
        match &self.token {
            Some(token) => Ok(AuthToken::from_ref(token)),
            None => Err(UnauthorizedError::default()),
        }
    }
}

} // verus!
