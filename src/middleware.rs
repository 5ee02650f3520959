//! The interception stage in front of the request handlers.

use vstd::prelude::*;
use std::rc::Rc;
use vstd::string::StringSliceAdditionalSpecFns;
use crate::path_matcher::{requires_auth, PathMatcher};
use crate::session::{
    after_expiry_check, is_expired, session_identity, GetAuthenticatedUserFromRequest, GetUserFromSession,
    SessionState,
};
use crate::token::{AuthToken, RequestContext, UnauthorizedError};

verus! {

/// Whether a request may go on to the handlers: when its path needs no
/// authentication, or when an identity was resolved for it.
pub open spec fn admitted<U>(protected: bool, resolved: Option<Rc<U>>) -> bool {
    !protected || resolved is Some
}

/// Attaches a resolved identity to the request, or rejects the request when
/// resolution failed.
pub fn attach_or_reject<U>(ctx: &mut RequestContext<U>, resolved: Result<Rc<U>, ()>) -> (r: Result<
    (),
    UnauthorizedError,
>)
    requires
        old(ctx).identity() is None,
    ensures
        resolved matches Ok(u) ==> (r is Ok && final(ctx).identity() == Some(u)),
        resolved is Err ==> (r matches Err(e) && e.message_text() == "Not authorized"@
            && final(ctx).identity() is None),
{
    match resolved {
        Ok(user) => {
            ctx.insert_token(AuthToken::new(user));
            Ok(())
        },
        Err(_) => Err(UnauthorizedError::default()),
    }
}

/// Gates requests: a path that the matcher classifies as protected passes
/// only with an identity from the provider, which is then attached to the
/// request.
pub struct AuthMiddleware<P> {
    auth_provider: Rc<P>,
    path_matcher: Rc<PathMatcher>,
}

impl<P> AuthMiddleware<P> {
    /// The matcher that classifies paths.
    pub closed spec fn matcher(&self) -> PathMatcher {
        *self.path_matcher
    }

    /// The matcher holds its patterns compiled.
    pub open spec fn wf(&self) -> bool {
        self.matcher().wf()
    }

    /// Whether the middleware asks the provider for a request to `path`.
    pub open spec fn protects(&self, path: &str) -> bool {
        requires_auth(self.matcher().is_exclusion(), self.matcher().patterns(), path.spec_bytes())
    }

    /// A middleware over a provider and a matcher; both are shared, never
    /// changed, by all the requests it handles.
    pub fn new(auth_provider: P, path_matcher: PathMatcher) -> (m: Self)
        requires
            path_matcher.wf(),
        ensures
            m.wf(),
            m.matcher() == path_matcher,
    {
        AuthMiddleware { auth_provider: Rc::new(auth_provider), path_matcher: Rc::new(path_matcher) }
    }

    /// Handles one request to `path` at `now` (seconds). A public path goes
    /// on untouched and the provider is not asked. A protected one goes on
    /// only when the provider resolves an identity, which is then attached
    /// to the request; else it is rejected with the generic error.
    pub fn call<U>(
        &self,
        path: &str,
        session: &mut SessionState<U>,
        now: u64,
        ctx: &mut RequestContext<U>,
    ) -> (r: Result<(), UnauthorizedError>) where P: GetAuthenticatedUserFromRequest<U>
        requires
            self.wf(),
            old(ctx).identity() is None,
        ensures
            !self.protects(path) ==> (r is Ok && *final(ctx) == *old(ctx) && *final(session)
                == *old(session)),
            self.protects(path) ==> (r is Ok <==> final(ctx).identity() is Some),
            r matches Err(e) ==> e.message_text() == "Not authorized"@,
    {
        if self.path_matcher.matches(path) {
            let resolved = self.auth_provider.get_authenticated_user(session, now);
            attach_or_reject(ctx, resolved)
        } else {
            Ok(())
        }
    }
}

impl AuthMiddleware<GetUserFromSession> {
    /// Handles one request to `path` at `now` (seconds) with the session
    /// provider. A public path goes on and the session is not read. A
    /// protected one goes on exactly when the session authenticates an
    /// identity at `now`, which is then attached to the request; an expired
    /// session loses its user and expiry instant and the request is
    /// rejected.
    pub fn call_with_session<U>(
        &self,
        path: &str,
        session: &mut SessionState<U>,
        now: u64,
        ctx: &mut RequestContext<U>,
    ) -> (r: Result<(), UnauthorizedError>)
        requires
            self.wf(),
            old(ctx).identity() is None,
        ensures
            r is Ok <==> admitted(self.protects(path), session_identity(*old(session), now)),
            !self.protects(path) ==> (*final(ctx) == *old(ctx) && *final(session) == *old(session)),
            self.protects(path) ==> (final(ctx).identity() == session_identity(*old(session), now)
                && *final(session) == after_expiry_check(*old(session), now)),
            final(session).pending_primary_user() == old(session).pending_primary_user(),
            final(session).pending_mfa_secret() == old(session).pending_mfa_secret(),
            r matches Err(e) ==> e.message_text() == "Not authorized"@,
    {
        if self.path_matcher.matches(path) {
            let resolved = self.auth_provider.resolve(session, now);
            attach_or_reject(ctx, resolved)
        } else {
            Ok(())
        }
    }
}

/// With the session provider, a protected request from a session that
/// authenticates nobody at `now` (no user, or an expired one) is rejected.
pub proof fn lemma_unauthenticated_session_rejected<U>(s: SessionState<U>, now: u64)
    requires
        s.user() is None || is_expired(s, now),
    ensures
        session_identity(s, now) is None,
        !admitted(true, session_identity(s, now)),
{
}

/// A login that awaits its second factor gives no access: a session with a
/// pending account but no user is rejected on every protected path, and
/// the check leaves it as it was.
pub proof fn lemma_pending_login_rejected<U>(s: SessionState<U>, now: u64)
    requires
        s.user() is None,
    ensures
        !admitted(true, session_identity(s, now)),
        after_expiry_check(s, now) == s,
{
}

} // verus!
