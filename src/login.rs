//! The login flow: password check against the stored hash, then either a
//! full session or a pending login that owes a second factor.

use vstd::prelude::*;
use std::rc::Rc;
use std::sync::Arc;
use vstd::string::StringSliceAdditionalSpecFns;
use crate::domain::{Credentials, User};
use crate::errors::{QueryUserError, UserUpdateError};
use crate::mfa::{code_accepted, complete_enrollment, complete_mfa_login, factor_id, MfaError};
use crate::session::SessionState;

verus! {

/// Whether a password matches a stored hash in PHC string form.
pub uninterp spec fn password_hash_accepts(password: Seq<u8>, hash: Seq<char>) -> bool;

/// Relies on argon2: `PasswordHash::new` parses the stored PHC string and
/// `Argon2::verify_password` recomputes the hash of the password with the
/// parameters and salt found there; the outcome depends on the password and
/// the stored string alone. A string that does not parse matches nothing.
#[verifier::external_body]
fn password_matches(password: &str, hash: &str) -> (r: bool)
    ensures
        r == password_hash_accepts(password.spec_bytes(), hash@),
{
    match argon2::PasswordHash::new(hash) {
        Ok(parsed) => argon2::PasswordVerifier::verify_password(
            &argon2::Argon2::default(),
            password.as_bytes(),
            &parsed,
        ).is_ok(),
        Err(_) => false,
    }
}

/// The store of accounts and credentials, which the application provides.
pub trait UserApi {
    fn find_by_email(&self, email: &str) -> Result<User, QueryUserError>;

    fn find_by_id(&self, user_id: i32) -> Result<User, QueryUserError>;

    /// Saves an account with a plain-text password, which the store hashes.
    fn save_user_with_credentials(&self, user: User, password: &str) -> Result<User, UserUpdateError>;

    /// Saves credentials whose password is already hashed.
    fn save_credentials(&self, credentials: Credentials) -> Result<Credentials, UserUpdateError>;

    fn find_credentials_by_user_id(&self, user_id: i32) -> Result<Credentials, QueryUserError>;
}

/// Checks a password for an account.
pub trait AuthenticationApi {
    fn is_password_correct(&self, user: &User, password: &str) -> bool;
}

/// How a login attempt ended.
#[derive(Debug, Clone, Copy, PartialEq, Eq, Structural)]
pub enum LoginOutcome {
    /// The session now authenticates the account.
    Success,
    /// The password was right; the account owes a second factor.
    MfaRequired,
    /// Unknown account or wrong password; which of them is not told.
    Failed,
}

/// Whether looked-up credentials accept the password.
pub open spec fn credentials_accept(
    credentials: Result<Credentials, QueryUserError>,
    password: Seq<u8>,
) -> bool {
    credentials matches Ok(c) && password_hash_accepts(password, c.password@)
}

/// How a login ends, from whether the account was found, its credentials
/// and the submitted password.
pub open spec fn login_outcome(
    user_found: bool,
    credentials: Result<Credentials, QueryUserError>,
    password: Seq<u8>,
) -> LoginOutcome {
    if !user_found || !credentials_accept(credentials, password) {
        LoginOutcome::Failed
    } else if credentials.unwrap().mfa_config is Some {
        LoginOutcome::MfaRequired
    } else {
        LoginOutcome::Success
    }
}

/// Whether the looked-up credentials accept the password.
pub fn password_correct_for(credentials: &Result<Credentials, QueryUserError>, password: &str) -> (r:
    bool)
    ensures
        r == credentials_accept(*credentials, password.spec_bytes()),
{
    match credentials {
        Ok(c) => password_matches(password, c.password.as_str()),
        Err(_) => false,
    }
}

/// The account of a login, from the account and credentials looked up for
/// it: the account when both were found and the credentials accept the
/// password, else none, whichever check failed.
pub fn user_if_accepted(
    user: Result<User, QueryUserError>,
    credentials: &Result<Credentials, QueryUserError>,
    password: &str,
) -> (r: Option<User>)
    ensures
        r is Some <==> (user is Ok && credentials_accept(*credentials, password.spec_bytes())),
        r matches Some(u) ==> user == Ok::<User, QueryUserError>(u),
{
    match user {
        Ok(u) => {
            if password_correct_for(credentials, password) {
                Some(u)
            } else {
                None
            }
        },
        Err(_) => None,
    }
}

/// The second factor of an account, from its looked-up credentials: the
/// factor's id or none, and the not-found error when the lookup failed.
pub fn factor_lookup(credentials: &Result<Credentials, QueryUserError>) -> (r: Result<
    Option<String>,
    MfaError,
>)
    ensures
        credentials is Err ==> r == Err::<Option<String>, MfaError>(MfaError::NotFound),
        credentials matches Ok(c) ==> (c.mfa_config is None ==> r == Ok::<Option<String>, MfaError>(
            None,
        )),
        credentials matches Ok(c) ==> (c.mfa_config matches Some(m) ==> (r matches Ok(Some(id))
            && id@ == m.mfa_id@)),
{
    match credentials {
        Ok(c) => Ok(factor_id(c)),
        Err(_) => Err(MfaError::NotFound),
    }
}

/// Whether an account must pass a second factor, from its looked-up
/// credentials: when a factor is configured, and, failing closed, when the
/// lookup failed.
pub fn factor_required(credentials: &Result<Credentials, QueryUserError>) -> (r: bool)
    ensures
        r == match credentials {
            Ok(c) => c.mfa_config is Some,
            Err(_) => true,
        },
{
    match credentials {
        Ok(c) => c.mfa_config.is_some(),
        Err(_) => true,
    }
}

/// Ends a login attempt with the records looked up for it. A wrong password
/// or a missing record fails and leaves the session alone. An account with
/// a second factor becomes the pending login; any other becomes the
/// session's user until `now + duration`.
pub fn finish_login(
    session: &mut SessionState<User>,
    user: Result<User, QueryUserError>,
    credentials: &Result<Credentials, QueryUserError>,
    password: &str,
    now: u64,
    duration: u64,
) -> (r: LoginOutcome)
    requires
        now + duration <= u64::MAX,
    ensures
        r == login_outcome(user is Ok, *credentials, password.spec_bytes()),
        r == LoginOutcome::Failed ==> *final(session) == *old(session),
        r == LoginOutcome::Success ==> (user matches Ok(u) && final(session).user() == Some(
            Rc::new(u),
        ) && final(session).ttl() == Some((now + duration) as u64)
            && final(session).pending_primary_user() is None),
        r == LoginOutcome::MfaRequired ==> (user matches Ok(u) && final(session).user() is None
            && final(session).ttl() is None && final(session).pending_primary_user() == Some(
            Rc::new(u),
        )),
{
    let account = match user {
        Ok(u) => u,
        Err(_) => {
            return LoginOutcome::Failed;
        },
    };
    if !password_correct_for(credentials, password) {
        return LoginOutcome::Failed;
    }
    let has_factor = match credentials {
        Ok(c) => c.mfa_config.is_some(),
        Err(_) => false,
    };
    if has_factor {
        session.begin_mfa_login(account);
        LoginOutcome::MfaRequired
    } else {
        session.set_user_with_ttl(account, now, duration);
        LoginOutcome::Success
    }
}

/// Why credentials could not be confirmed with a second factor.
#[derive(Debug)]
pub enum EnrollmentError {
    /// The second-factor step failed.
    Mfa(MfaError),
    /// The store could not save the confirmed secret.
    Store(UserUpdateError),
}

/// Checks logins against the store.
pub struct AuthenticationService<A> {
    user_api: Arc<A>,
}

impl<A: UserApi> AuthenticationService<A> {
    /// A service over a store.
    pub fn new(user_api: Arc<A>) -> (s: Self)
        ensures
            s.user_api() == user_api,
    {
        AuthenticationService { user_api }
    }

    /// The store.
    pub closed spec fn user_api(&self) -> Arc<A> {
        self.user_api
    }

    /// The account with this email, if the password matches its stored
    /// hash; `None` for an unknown account or a wrong password alike. The
    /// answer for the records the store gives is `user_if_accepted`'s.
    pub fn load_user(&self, email: &str, password: &str) -> (r: Option<User>)
        ensures
            r is Some ==> exists|c: Credentials|
                credentials_accept(Ok::<Credentials, QueryUserError>(c), password.spec_bytes()),
    {
        let user = self.user_api.find_by_email(email);
        let credentials = match &user {
            Ok(u) => self.user_api.find_credentials_by_user_id(u.id),
            Err(_) => Err(QueryUserError::new("account not found")),
        };
        let r = user_if_accepted(user, &credentials, password);
        proof {
            if r is Some {
                let c = credentials->Ok_0;
                assert(credentials_accept(Ok::<Credentials, QueryUserError>(c), password.spec_bytes()));
            }
        }
        r
    }

    /// A login attempt at `now` (seconds) whose session, on success, lasts
    /// `duration` seconds. Whatever the store answers, a failed attempt
    /// leaves the session alone, and a login that owes a second factor
    /// authenticates nobody yet.
    pub fn attempt_login(
        &self,
        email: &str,
        password: &str,
        session: &mut SessionState<User>,
        now: u64,
        duration: u64,
    ) -> (r: LoginOutcome)
        requires
            now + duration <= u64::MAX,
        ensures
            r == LoginOutcome::Failed ==> *final(session) == *old(session),
            r == LoginOutcome::Success ==> (final(session).user() is Some && final(session).ttl()
                == Some((now + duration) as u64) && final(session).pending_primary_user() is None),
            r == LoginOutcome::MfaRequired ==> (final(session).user() is None
                && final(session).ttl() is None && final(session).pending_primary_user() is Some),
    {
        let user = self.user_api.find_by_email(email);
        let credentials = match &user {
            Ok(u) => self.user_api.find_credentials_by_user_id(u.id),
            Err(_) => Err(QueryUserError::new("account not found")),
        };
        finish_login(session, user, &credentials, password, now, duration)
    }
}

impl<A: UserApi> AuthenticationApi for AuthenticationService<A> {
    /// Whether the password matches the hash stored for the account; false
    /// when the store has no credentials for it.
    fn is_password_correct(&self, user: &User, password: &str) -> (r: bool)
        ensures
            r ==> exists|c: Credentials|
                credentials_accept(Ok::<Credentials, QueryUserError>(c), password.spec_bytes()),
    {
        let credentials = self.user_api.find_credentials_by_user_id(user.id);
        let r = password_correct_for(&credentials, password);
        proof {
            if r {
                let c = credentials->Ok_0;
                assert(credentials_accept(Ok::<Credentials, QueryUserError>(c), password.spec_bytes()));
            }
        }
        r
    }
}

/// Runs the second factor against the store.
pub struct HandleMfaRequestImpl<A> {
    user_api: Arc<A>,
}

impl<A: UserApi> HandleMfaRequestImpl<A> {
    /// A handler over a store.
    pub fn new(user_api: Arc<A>) -> (s: Self)
        ensures
            s.user_api() == user_api,
    {
        HandleMfaRequestImpl { user_api }
    }

    /// The store.
    pub closed spec fn user_api(&self) -> Arc<A> {
        self.user_api
    }

    /// The id of the account's second factor; `None` when it has none, and
    /// the not-found error when the store has no credentials for it.
    pub fn mfa_id_by_user(&self, user: &User) -> (r: Result<Option<String>, MfaError>)
        ensures
            r matches Err(e) ==> e == MfaError::NotFound,
    {
        let credentials = self.user_api.find_credentials_by_user_id(user.id);
        factor_lookup(&credentials)
    }

    /// Whether the account must pass a second factor at login; true when
    /// the store fails, so that a storage failure never skips the factor.
    pub fn is_condition_met(&self, user: &User) -> bool {
        let credentials = self.user_api.find_credentials_by_user_id(user.id);
        factor_required(&credentials)
    }

    /// The second step of a login at `now` (seconds): checks the code
    /// against the secret stored for the pending account. Whatever the store
    /// answers, the session is unchanged on error and authenticates the
    /// pending account until `now + duration` on success.
    pub fn verify_login_code(
        &self,
        session: &mut SessionState<User>,
        code: &str,
        time_skew_steps: u64,
        now: u64,
        duration: u64,
    ) -> (r: Result<(), MfaError>)
        requires
            now + duration <= u64::MAX,
        ensures
            old(session).pending_primary_user() is None ==> r == Err::<(), MfaError>(
                MfaError::NoPendingLogin,
            ),
            old(session).pending_primary_user() is Some ==> r != Err::<(), MfaError>(
                MfaError::NoPendingLogin,
            ),
            r is Err ==> *final(session) == *old(session),
            r is Ok ==> (final(session).user() == old(session).pending_primary_user()
                && final(session).user() is Some && final(session).ttl() == Some(
                (now + duration) as u64,
            ) && final(session).pending_primary_user() is None),
    {
        let credentials = match session.get_pending_primary_user() {
            Some(user) => self.user_api.find_credentials_by_user_id(user.id),
            None => Err(QueryUserError::new("no pending login")),
        };
        complete_mfa_login(session, &credentials, code, time_skew_steps, now, duration)
    }

    /// Confirms the secret issued to the session for the account with a
    /// code, then saves it. Whatever the store answers, nothing is saved
    /// when the code does not verify or no secret was issued, and the
    /// session then keeps its secret for another try.
    pub fn confirm_enrollment<U>(
        &self,
        user_id: i32,
        session: &mut SessionState<U>,
        code: &str,
        time_skew_steps: u64,
        now: u64,
    ) -> (r: Result<(), EnrollmentError>)
        ensures
            r matches Err(EnrollmentError::Mfa(MfaError::VerificationFailed)) ==> *final(session)
                == *old(session),
            r matches Err(EnrollmentError::Mfa(MfaError::NoPendingSecret)) ==> *final(session)
                == *old(session),
            r is Ok ==> final(session).pending_mfa_secret() is None,
            r is Ok ==> (old(session).pending_mfa_secret() matches Some(s) && code_accepted(
                s,
                code@,
                time_skew_steps,
                now,
            )),
            old(session).pending_mfa_secret() is None ==> r is Err,
            r matches Err(EnrollmentError::Mfa(MfaError::NotFound)) ==> *final(session)
                == *old(session),
    {
        let mut credentials = match self.user_api.find_credentials_by_user_id(user_id) {
            Ok(c) => c,
            Err(_) => {
                return Err(EnrollmentError::Mfa(MfaError::NotFound));
            },
        };
        match complete_enrollment(session, &mut credentials, code, time_skew_steps, now) {
            Ok(()) => {},
            Err(e) => {
                return Err(EnrollmentError::Mfa(e));
            },
        }
        match self.user_api.save_credentials(credentials) {
            Ok(_) => Ok(()),
            Err(e) => Err(EnrollmentError::Store(e)),
        }
    }
}

} // verus!
