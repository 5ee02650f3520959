//! Per-client session state and the identity provider backed by it.
//!
//! The session is one structured value. Its fields change only through the
//! transitions below, so `user` and `ttl` are always written together.

use vstd::prelude::*;
use std::rc::Rc;

verus! {

/// What a session holds for its client: the authenticated identity, the
/// instant (in seconds) after which it expires, the identity that passed the
/// password check but still owes a second factor, and a second-factor secret
/// issued but not yet confirmed.
pub struct SessionState<U> {
    user: Option<Rc<U>>,
    ttl: Option<u64>,
    pending_primary_user: Option<Rc<U>>,
    pending_mfa_secret: Option<String>,
}

/// Whether the session has an expiry instant that lies before `now`.
pub open spec fn is_expired<U>(s: SessionState<U>, now: u64) -> bool {
    s.ttl() is Some && now > s.ttl().unwrap()
}

/// The identity a session authenticates at `now`: its user, unless the
/// session has expired.
pub open spec fn session_identity<U>(s: SessionState<U>, now: u64) -> Option<Rc<U>> {
    if is_expired(s, now) {
        None
    } else {
        s.user()
    }
}

/// The session after an expiry check at `now`: an expired one with a user
/// loses its user and its expiry instant; any other stays as it was.
pub open spec fn after_expiry_check<U>(s: SessionState<U>, now: u64) -> SessionState<U> {
    if s.user() is Some && is_expired(s, now) {
        s.without_user()
    } else {
        s
    }
}

impl<U> SessionState<U> {
    /// The authenticated identity, if any.
    pub closed spec fn user(&self) -> Option<Rc<U>> {
        self.user
    }

    /// The expiry instant, in seconds; none means no expiry is enforced.
    pub closed spec fn ttl(&self) -> Option<u64> {
        self.ttl
    }

    /// The identity that passed the password check and awaits its second
    /// factor.
    pub closed spec fn pending_primary_user(&self) -> Option<Rc<U>> {
        self.pending_primary_user
    }

    /// The second-factor secret issued to the client and not yet confirmed.
    pub closed spec fn pending_mfa_secret(&self) -> Option<Seq<char>> {
        match self.pending_mfa_secret {
            Some(s) => Some(s@),
            None => None,
        }
    }

    /// The same session without user and expiry instant.
    pub closed spec fn without_user(&self) -> SessionState<U> {
        SessionState { user: None, ttl: None, ..*self }
    }

    /// An empty session.
    pub fn new() -> (s: Self)
        ensures
            s.user() is None,
            s.ttl() is None,
            s.pending_primary_user() is None,
            s.pending_mfa_secret() is None,
    {
        SessionState { user: None, ttl: None, pending_primary_user: None, pending_mfa_secret: None }
    }

    /// A session with the given fields, as it was stored.
    pub fn restore(
        user: Option<U>,
        ttl: Option<u64>,
        pending_primary_user: Option<U>,
        pending_mfa_secret: Option<String>,
    ) -> (s: Self)
        ensures
            s.user() == (match user {
                Some(u) => Some(Rc::new(u)),
                None => None,
            }),
            s.ttl() == ttl,
            s.pending_primary_user() == (match pending_primary_user {
                Some(u) => Some(Rc::new(u)),
                None => None,
            }),
            pending_mfa_secret is None ==> s.pending_mfa_secret() is None,
            pending_mfa_secret matches Some(p) ==> s.pending_mfa_secret() == Some(p@),
    {
        let user = match user {
            Some(u) => Some(Rc::new(u)),
            None => None,
        };
        let pending_primary_user = match pending_primary_user {
            Some(u) => Some(Rc::new(u)),
            None => None,
        };
        SessionState { user, ttl, pending_primary_user, pending_mfa_secret }
    }

    /// Promotes `user` to the authenticated identity with no expiry; a
    /// pending login is over.
    pub fn set_user(&mut self, user: U)
        ensures
            final(self).user() == Some(Rc::new(user)),
            final(self).ttl() is None,
            final(self).pending_primary_user() is None,
            final(self).pending_mfa_secret() == old(self).pending_mfa_secret(),
    {
        self.user = Some(Rc::new(user));
        self.ttl = None;
        self.pending_primary_user = None;
    }

    /// Promotes `user` to the authenticated identity until `now + duration`
    /// seconds; a pending login is over.
    pub fn set_user_with_ttl(&mut self, user: U, now: u64, duration: u64)
        requires
            now + duration <= u64::MAX,
        ensures
            final(self).user() == Some(Rc::new(user)),
            final(self).ttl() == Some((now + duration) as u64),
            final(self).pending_primary_user() is None,
            final(self).pending_mfa_secret() == old(self).pending_mfa_secret(),
    {
        self.promote(Rc::new(user), now, duration);
    }

    /// Makes a shared identity the authenticated one until `now + duration`.
    fn promote(&mut self, user: Rc<U>, now: u64, duration: u64)
        requires
            now + duration <= u64::MAX,
        ensures
            final(self).user() == Some(user),
            final(self).ttl() == Some((now + duration) as u64),
            final(self).pending_primary_user() is None,
            final(self).pending_mfa_secret() == old(self).pending_mfa_secret(),
    {
        self.user = Some(user);
        self.ttl = Some(now + duration);
        self.pending_primary_user = None;
    }

    /// Records that `user` passed the password check and owes a second
    /// factor; the session authenticates nobody meanwhile.
    pub fn begin_mfa_login(&mut self, user: U)
        ensures
            final(self).user() is None,
            final(self).ttl() is None,
            final(self).pending_primary_user() == Some(Rc::new(user)),
            final(self).pending_mfa_secret() == old(self).pending_mfa_secret(),
    {
        self.user = None;
        self.ttl = None;
        self.pending_primary_user = Some(Rc::new(user));
    }

    /// Completes a pending login: the identity that passed the password
    /// check becomes the authenticated one until `now + duration`.
    pub(crate) fn complete_mfa_login(&mut self, now: u64, duration: u64)
        requires
            old(self).pending_primary_user() is Some,
            now + duration <= u64::MAX,
        ensures
            final(self).user() == old(self).pending_primary_user(),
            final(self).ttl() == Some((now + duration) as u64),
            final(self).pending_primary_user() is None,
            final(self).pending_mfa_secret() == old(self).pending_mfa_secret(),
    {
        let pending = self.pending_primary_user.take();
        match pending {
            Some(user) => self.promote(user, now, duration),
            None => {},
        }
    }

    /// Keeps a freshly issued second-factor secret until it is confirmed.
    pub fn begin_enrollment(&mut self, secret: String)
        ensures
            final(self).pending_mfa_secret() == Some(secret@),
            final(self).user() == old(self).user(),
            final(self).ttl() == old(self).ttl(),
            final(self).pending_primary_user() == old(self).pending_primary_user(),
    {
        self.pending_mfa_secret = Some(secret);
    }

    /// Forgets the issued second-factor secret.
    pub(crate) fn clear_pending_mfa_secret(&mut self)
        ensures
            final(self).pending_mfa_secret() is None,
            final(self).user() == old(self).user(),
            final(self).ttl() == old(self).ttl(),
            final(self).pending_primary_user() == old(self).pending_primary_user(),
    {
        self.pending_mfa_secret = None;
    }

    /// Ends the session: nothing is left in it.
    pub fn logout(&mut self)
        ensures
            final(self).user() is None,
            final(self).ttl() is None,
            final(self).pending_primary_user() is None,
            final(self).pending_mfa_secret() is None,
    {
        self.user = None;
        self.ttl = None;
        self.pending_primary_user = None;
        self.pending_mfa_secret = None;
    }

    /// The authenticated identity, if any, without an expiry check.
    pub fn get_user(&self) -> (r: Option<Rc<U>>)
        ensures
            r == self.user(),
    {
        match &self.user {
            Some(u) => Some(Rc::clone(u)),
            None => None,
        }
    }

    /// The expiry instant, if any.
    pub fn get_ttl(&self) -> (r: Option<u64>)
        ensures
            r == self.ttl(),
    {
        self.ttl
    }

    /// The identity that awaits its second factor, if any.
    pub fn get_pending_primary_user(&self) -> (r: Option<Rc<U>>)
        ensures
            r == self.pending_primary_user(),
    {
        match &self.pending_primary_user {
            Some(u) => Some(Rc::clone(u)),
            None => None,
        }
    }

    /// Whether a login awaits its second factor.
    pub fn has_pending_login(&self) -> (r: bool)
        ensures
            r == self.pending_primary_user() is Some,
    {
        self.pending_primary_user.is_some()
    }

    /// The issued second-factor secret that awaits confirmation, if any.
    pub fn get_pending_mfa_secret(&self) -> (r: Option<&String>)
        ensures
            self.pending_mfa_secret() is None ==> r is None,
            self.pending_mfa_secret() matches Some(s) ==> (r matches Some(t) && t@ == s),
    {
        self.pending_mfa_secret.as_ref()
    }

    /// Returns the identity the session authenticates at `now`. A session
    /// without a user is left alone; one whose user has expired loses user
    /// and expiry instant.
    pub fn resolve_user(&mut self, now: u64) -> (r: Option<Rc<U>>)
        ensures
            r == session_identity(*old(self), now),
            *final(self) == after_expiry_check(*old(self), now),
    {
        if self.user.is_none() {
            return None;
        }
        let expired = match self.ttl {
            Some(t) => now > t,
            None => false,
        };
        if expired {
            self.user = None;
            self.ttl = None;
            return None;
        }
        match &self.user {
            Some(u) => Some(Rc::clone(u)),
            None => None,
        }
    }
}

/// Resolves the identity of a request, for the authentication middleware.
/// Implementations may read and update the client's session.
pub trait GetAuthenticatedUserFromRequest<U> {
    /// The identity of the request at `now` (seconds), or `Err` when it has
    /// none.
    fn get_authenticated_user(&self, session: &mut SessionState<U>, now: u64) -> Result<Rc<U>, ()>;
}

/// The provider that reads the identity from the session, with expiry.
#[derive(Clone, Copy)]
pub struct GetUserFromSession;

impl GetUserFromSession {
    /// The session's identity at `now`: `Err` when it has none or has
    /// expired; an expired session loses its user and its expiry instant,
    /// and any other session stays as it was.
    pub fn resolve<U>(&self, session: &mut SessionState<U>, now: u64) -> (r: Result<Rc<U>, ()>)
        ensures
            r == match session_identity(*old(session), now) {
                Some(u) => Ok::<Rc<U>, ()>(u),
                None => Err(()),
            },
            *final(session) == after_expiry_check(*old(session), now),
            is_expired(*old(session), now) ==> r is Err,
            old(session).user() is Some && is_expired(*old(session), now) ==> (final(session).user() is None
                && final(session).ttl() is None),
            old(session).user() is None ==> (r is Err && *final(session) == *old(session)),
            !is_expired(*old(session), now) ==> *final(session) == *old(session),
            final(session).pending_primary_user() == old(session).pending_primary_user(),
            final(session).pending_mfa_secret() == old(session).pending_mfa_secret(),
    {
        match session.resolve_user(now) {
            Some(u) => Ok(u),
            None => Err(()),
        }
    }
}

impl<U> GetAuthenticatedUserFromRequest<U> for GetUserFromSession {
    /// The session's identity at `now`, as `resolve` gives it: `Err` when
    /// the session has no user or has expired, and an expired session loses
    /// its user and expiry instant; any other session stays as it was.
    fn get_authenticated_user(&self, session: &mut SessionState<U>, now: u64) -> (r: Result<
        Rc<U>,
        (),
    >)
        ensures
            r == match session_identity(*old(session), now) {
                Some(u) => Ok::<Rc<U>, ()>(u),
                None => Err(()),
            },
            *final(session) == after_expiry_check(*old(session), now),
            is_expired(*old(session), now) ==> r is Err,
            old(session).user() is Some && is_expired(*old(session), now) ==> (final(session).user() is None
                && final(session).ttl() is None),
            old(session).user() is None ==> (r is Err && *final(session) == *old(session)),
            !is_expired(*old(session), now) ==> *final(session) == *old(session),
            final(session).pending_primary_user() == old(session).pending_primary_user(),
            final(session).pending_mfa_secret() == old(session).pending_mfa_secret(),
    {
        self.resolve(session, now)
    }
}

/// A session whose user was set at `now` for `duration` seconds
/// authenticates that user at every instant up to `now + duration`, and
/// nobody after it.
pub proof fn lemma_login_lifetime<U>(s: SessionState<U>, user: Rc<U>, now: u64, duration: u64, t: u64)
    requires
        now + duration <= u64::MAX,
        s.user() == Some(user),
        s.ttl() == Some((now + duration) as u64),
    ensures
        t <= now + duration ==> session_identity(s, t) == Some(user),
        t > now + duration ==> session_identity(s, t) is None && after_expiry_check(s, t).user() is None
            && after_expiry_check(s, t).ttl() is None,
{
}

} // verus!
