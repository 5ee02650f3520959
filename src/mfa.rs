//! The second factor: time-based one-time codes, enrollment of a secret,
//! and the second step of a login.

use vstd::prelude::*;
use crate::domain::{Credentials, Mfa, User};
use crate::session::SessionState;
use crate::encoding::{ascii_text, percent_encode_text, percent_encoded};
use vstd::string::{StringExecFns, StringSliceAdditionalSpecFns};
use vstd::utf8::encode_utf8;

verus! {

/// Length of a time slice, in seconds.
pub const TIME_STEP: u64 = 30;

/// Number of characters of a freshly issued secret.
pub const SECRET_LENGTH: u8 = 32;

/// The id under which the authenticator factor is stored.
pub const AUTHENTICATOR_ID: &'static str = "TOTP_MFA";

/// The code of the authenticator app for a base32 secret in a time slice
/// (a Unix time divided by the step), or none when the secret is not
/// usable.
pub uninterp spec fn authenticator_code(secret: Seq<char>, time_slice: u64) -> Option<Seq<char>>;

/// Relies on google_authenticator's GoogleAuthenticator::get_code, with six
/// digits: for a time slice other than zero the code depends on the secret
/// and the slice alone; an error (secret of bad length or not base32)
/// becomes none.
#[verifier::external_body]
fn code_in_slice(secret: &str, time_slice: u64) -> (r: Option<String>)
    requires
        time_slice > 0,
    ensures
        r is None <==> authenticator_code(secret@, time_slice) is None,
        r matches Some(c) ==> authenticator_code(secret@, time_slice) == Some(c@),
{
    google_authenticator::GoogleAuthenticator::new().get_code(secret, time_slice).ok()
}

/// Whether a character belongs to the base32 alphabet: `A` to `Z` and `2`
/// to `7`.
pub open spec fn is_base32_char(c: char) -> bool {
    ('A' <= c && c <= 'Z') || ('2' <= c && c <= '7')
}

/// Relies on google_authenticator's GoogleAuthenticator::create_secret: a
/// random secret of `length` characters, each drawn from the base32
/// alphabet (five random bits index `A`..`Z`, `2`..`7`).
#[verifier::external_body]
fn create_secret(length: u8) -> (r: String)
    ensures
        r@.len() == length,
        forall|i: int| 0 <= i < r@.len() ==> #[trigger] is_base32_char(r@[i]),
{
    google_authenticator::GoogleAuthenticator::new().create_secret(length)
}

/// The SVG image of the QR code that carries `data`, drawn at least
/// `min_size` pixels wide and high, or none when the data does not fit a QR
/// code.
pub uninterp spec fn qr_svg(data: Seq<u8>, min_size: u32) -> Option<Seq<char>>;

/// Relies on qrcode: `QrCode::new` encodes the bytes (error correction
/// level M, smallest version that fits, else an error), and the SVG
/// renderer with `min_dimensions` draws it; the image depends on the data
/// and the size alone.
#[verifier::external_body]
fn render_qr_svg(data: &str, min_size: u32) -> (r: Option<String>)
    requires
        min_size <= 4096,
    ensures
        r is None <==> qr_svg(data.spec_bytes(), min_size) is None,
        r matches Some(image) ==> qr_svg(data.spec_bytes(), min_size) == Some(image@),
{
    match qrcode::QrCode::new(data.as_bytes()) {
        Ok(code) => Some(
            code.render::<qrcode::render::svg::Color>().min_dimensions(min_size, min_size).build(),
        ),
        Err(_) => None,
    }
}

/// The smallest width and height, in pixels, of a provisioning image.
pub const QR_MIN_SIZE: u32 = 200;

/// The time slice of an instant.
pub open spec fn time_slice_of(now: u64) -> int {
    now as int / TIME_STEP as int
}

/// Whether `code` is the code of `secret` in the slice.
pub open spec fn code_in_slice_is(secret: Seq<char>, code: Seq<char>, slice: int) -> bool {
    0 < slice <= u64::MAX && authenticator_code(secret, slice as u64) == Some(code)
}

/// Whether `code` is accepted at `now`: it is the code of `secret` in a time
/// slice at most `skew` slices away from the current one.
pub open spec fn code_accepted(secret: Seq<char>, code: Seq<char>, skew: u64, now: u64) -> bool {
    exists|slice: int|
        time_slice_of(now) - skew <= slice <= time_slice_of(now) + skew && #[trigger] code_in_slice_is(
            secret,
            code,
            slice,
        )
}

/// Checks a submitted code against a secret at `now` (seconds), allowing
/// codes up to `time_skew_steps` slices before or after the current one.
pub fn verify_code(secret: &str, code: &str, time_skew_steps: u64, now: u64) -> (r: bool)
    ensures
        r == code_accepted(secret@, code@, time_skew_steps, now),
{
    let current = now / TIME_STEP;
    let low = if current > time_skew_steps {
        current - time_skew_steps
    } else {
        1
    };
    let high = if current <= u64::MAX - time_skew_steps {
        current + time_skew_steps
    } else {
        u64::MAX
    };
    if low > high {
        return false;
    }
    let submitted = code.to_owned();
    let mut slice = low;
    loop
        invariant
            low <= slice <= high,
            submitted@ == code@,
            low == (if current > time_skew_steps { current - time_skew_steps } else { 1 }),
            current == time_slice_of(now),
            high as int == (if current <= u64::MAX - time_skew_steps {
                current + time_skew_steps
            } else {
                u64::MAX as int
            }),
            forall|s: int| low <= s < slice ==> !#[trigger] code_in_slice_is(secret@, code@, s),
        ensures
            forall|s: int| low <= s <= high ==> !#[trigger] code_in_slice_is(secret@, code@, s),
        decreases high - slice,
    {
        let found = code_in_slice(secret, slice);
        match found {
            Some(c) => {
                if c == submitted {
                    assert(code_in_slice_is(secret@, code@, slice as int));
                    return true;
                }
            },
            None => {},
        }
        if slice == high {
            break;
        }
        slice = slice + 1;
    }
    false
}

/// The code of a secret in the current slice is accepted, whatever the
/// tolerated skew.
pub proof fn lemma_current_code_accepted(secret: Seq<char>, code: Seq<char>, skew: u64, now: u64)
    requires
        now >= TIME_STEP,
        authenticator_code(secret, (now / TIME_STEP) as u64) == Some(code),
    ensures
        code_accepted(secret, code, skew, now),
{
    assert(code_in_slice_is(secret, code, time_slice_of(now)));
}

/// Without skew, a code is accepted exactly when it is the code of the
/// current slice.
pub proof fn lemma_no_skew_only_current(secret: Seq<char>, code: Seq<char>, now: u64)
    ensures
        code_accepted(secret, code, 0, now) <==> code_in_slice_is(secret, code, time_slice_of(now)),
{
    if code_accepted(secret, code, 0, now) {
        let s = choose|s: int|
            time_slice_of(now) - 0 <= s <= time_slice_of(now) + 0 && #[trigger] code_in_slice_is(
                secret,
                code,
                s,
            );
        assert(s == time_slice_of(now));
    }
}

/// The code of the previous slice is accepted with a skew of one slice;
/// without skew it is accepted only if it is also the current code.
pub proof fn lemma_previous_code(secret: Seq<char>, code: Seq<char>, now: u64)
    requires
        now >= 2 * TIME_STEP,
        authenticator_code(secret, (now / TIME_STEP - 1) as u64) == Some(code),
    ensures
        code_accepted(secret, code, 1, now),
        code_accepted(secret, code, 0, now) <==> authenticator_code(
            secret,
            (now / TIME_STEP) as u64,
        ) == Some(code),
{
    assert(code_in_slice_is(secret, code, time_slice_of(now) - 1));
    lemma_no_skew_only_current(secret, code, now);
}

/// Why a second-factor step failed.
#[derive(Debug, PartialEq, Eq, Structural)]
pub enum MfaError {
    /// The account's credentials could not be found.
    NotFound,
    /// The account has no second-factor secret.
    NoSecretConfigured,
    /// The session holds no issued secret to confirm.
    NoPendingSecret,
    /// The session holds no login that awaits a second factor.
    NoPendingLogin,
    /// The submitted code is not valid.
    VerificationFailed,
}

impl MfaError {
    /// The HTTP status that answers the error: 400 when there is nothing to
    /// confirm or the credentials are missing, 401 otherwise.
    pub fn status_code(&self) -> (r: u16)
        ensures
            r == (match self {
                MfaError::NotFound | MfaError::NoPendingSecret => 400u16,
                _ => 401u16,
            }),
    {
        match self {
            MfaError::NotFound | MfaError::NoPendingSecret => 400,
            _ => 401,
        }
    }
}

/// A freshly issued secret, the URI that carries it to an authenticator
/// app, and that URI drawn as a scannable QR code in SVG.
pub struct Challenge {
    pub secret: String,
    pub provisioning_uri: String,
    pub qr_svg: Option<String>,
}

/// The key URI of a secret for an authenticator app:
/// `otpauth://totp/<issuer>%3A<account>?secret=<secret>&issuer=<issuer>`,
/// with issuer and account percent-encoded.
pub open spec fn provisioning_uri(issuer: Seq<u8>, account: Seq<u8>, secret: Seq<char>) -> Seq<char> {
    "otpauth://totp/"@ + ascii_text(percent_encoded(issuer)) + "%3A"@ + ascii_text(
        percent_encoded(account),
    ) + "?secret="@ + secret + "&issuer="@ + ascii_text(percent_encoded(issuer))
}

/// Issues a fresh secret to the session for enrollment, with the URI that
/// lets an authenticator app take it. The secret is kept in the session
/// only, until a code confirms it; nothing else in the session changes.
pub fn issue_challenge<U>(session: &mut SessionState<U>, issuer: &str, account: &str) -> (c:
    Challenge)
    ensures
        c.secret@.len() == SECRET_LENGTH,
        forall|i: int| 0 <= i < c.secret@.len() ==> #[trigger] is_base32_char(c.secret@[i]),
        c.provisioning_uri@ == provisioning_uri(issuer.spec_bytes(), account.spec_bytes(), c.secret@),
        c.qr_svg is None <==> qr_svg(encode_utf8(c.provisioning_uri@), QR_MIN_SIZE) is None,
        c.qr_svg matches Some(image) ==> qr_svg(encode_utf8(c.provisioning_uri@), QR_MIN_SIZE)
            == Some(image@),
        final(session).pending_mfa_secret() == Some(c.secret@),
        final(session).user() == old(session).user(),
        final(session).ttl() == old(session).ttl(),
        final(session).pending_primary_user() == old(session).pending_primary_user(),
{
    let secret = create_secret(SECRET_LENGTH);
    let issuer_label = percent_encode_text(issuer);
    let account_label = percent_encode_text(account);
    let mut uri = String::new();
    uri.append("otpauth://totp/");
    uri.append(issuer_label.as_str());
    uri.append("%3A");
    uri.append(account_label.as_str());
    uri.append("?secret=");
    uri.append(secret.as_str());
    uri.append("&issuer=");
    uri.append(issuer_label.as_str());
    let image = render_qr_svg(uri.as_str(), QR_MIN_SIZE);
    session.begin_enrollment(secret.clone());
    Challenge { secret, provisioning_uri: uri, qr_svg: image }
}

/// The id of the second factor configured in the credentials, if any.
pub fn factor_id(credentials: &Credentials) -> (r: Option<String>)
    ensures
        credentials.mfa_config is None ==> r is None,
        credentials.mfa_config matches Some(m) ==> (r matches Some(id) && id@ == m.mfa_id@),
{
    match &credentials.mfa_config {
        Some(m) => Some(m.mfa_id.clone()),
        None => None,
    }
}

/// The confirmed secret of the credentials' second factor, if any.
pub open spec fn stored_secret(credentials: Credentials) -> Option<Seq<char>> {
    match credentials.mfa_config {
        Some(m) => match m.secret {
            Some(s) => Some(s@),
            None => None,
        },
        None => None,
    }
}

/// The credentials after confirming `secret` for the authenticator factor.
pub open spec fn enrolled(old_credentials: Credentials, new_credentials: Credentials, secret: Seq<char>) -> bool {
    &&& new_credentials.id == old_credentials.id
    &&& new_credentials.password == old_credentials.password
    &&& new_credentials.user_id == old_credentials.user_id
    &&& stored_secret(new_credentials) == Some(secret)
    &&& new_credentials.mfa_config matches Some(m) && m.mfa_id@ == AUTHENTICATOR_ID@
}

/// Confirms the secret issued to the session with a code. The secret is
/// written into the credentials only when the code verifies; then the
/// session forgets it. On any error the credentials and the session stay as
/// they were, so the client may try again.
pub fn complete_enrollment<U>(
    session: &mut SessionState<U>,
    credentials: &mut Credentials,
    code: &str,
    time_skew_steps: u64,
    now: u64,
) -> (r: Result<(), MfaError>)
    ensures
        old(session).pending_mfa_secret() is None ==> r == Err::<(), MfaError>(
            MfaError::NoPendingSecret,
        ),
        old(session).pending_mfa_secret() matches Some(s) ==> (r is Ok <==> code_accepted(
            s,
            code@,
            time_skew_steps,
            now,
        )),
        r is Err ==> (*final(credentials) == *old(credentials) && *final(session) == *old(session)),
        old(session).pending_mfa_secret() matches Some(s) && !code_accepted(
            s,
            code@,
            time_skew_steps,
            now,
        ) ==> r == Err::<(), MfaError>(MfaError::VerificationFailed),
        r is Err ==> (r == Err::<(), MfaError>(MfaError::NoPendingSecret) || r == Err::<(), MfaError>(
            MfaError::VerificationFailed,
        )),
        r is Ok ==> (old(session).pending_mfa_secret() matches Some(s) && enrolled(
            *old(credentials),
            *final(credentials),
            s,
        ) && final(session).pending_mfa_secret() is None
            && final(session).user() == old(session).user()
            && final(session).ttl() == old(session).ttl()
            && final(session).pending_primary_user() == old(session).pending_primary_user()),
{
    let accepted = match session.get_pending_mfa_secret() {
        None => {
            return Err(MfaError::NoPendingSecret);
        },
        Some(secret) => {
            if verify_code(secret.as_str(), code, time_skew_steps, now) {
                Some(Mfa::with_secret(AUTHENTICATOR_ID, secret.as_str()))
            } else {
                None
            }
        },
    };
    match accepted {
        Some(mfa) => {
            credentials.set_mfa(mfa);
            session.clear_pending_mfa_secret();
            Ok(())
        },
        None => Err(MfaError::VerificationFailed),
    }
}

/// Completes a login that awaits its second factor, with the credentials
/// looked up for the pending account. When the code verifies against the
/// stored secret, the pending account becomes the session's user until
/// `now + duration`; on any error the session stays as it was.
pub fn complete_mfa_login(
    session: &mut SessionState<User>,
    credentials: &Result<Credentials, crate::errors::QueryUserError>,
    code: &str,
    time_skew_steps: u64,
    now: u64,
    duration: u64,
) -> (r: Result<(), MfaError>)
    requires
        now + duration <= u64::MAX,
    ensures
        r == mfa_login_outcome(
            old(session).pending_primary_user() is Some,
            *credentials,
            code@,
            time_skew_steps,
            now,
        ),
        r is Err ==> *final(session) == *old(session),
        r is Ok ==> (final(session).user() == old(session).pending_primary_user()
            && final(session).ttl() == Some((now + duration) as u64)
            && final(session).pending_primary_user() is None
            && final(session).pending_mfa_secret() == old(session).pending_mfa_secret()),
{
    if !session.has_pending_login() {
        return Err(MfaError::NoPendingLogin);
    }
    let creds = match credentials {
        Ok(c) => c,
        Err(_) => {
            return Err(MfaError::NotFound);
        },
    };
    let secret = match &creds.mfa_config {
        Some(m) => match &m.secret {
            Some(s) => s,
            None => {
                return Err(MfaError::NoSecretConfigured);
            },
        },
        None => {
            return Err(MfaError::NoSecretConfigured);
        },
    };
    if !verify_code(secret.as_str(), code, time_skew_steps, now) {
        return Err(MfaError::VerificationFailed);
    }
    session.complete_mfa_login(now, duration);
    Ok(())
}

/// The result of the second step of a login: no pending login, missing
/// credentials, no stored secret, or a code that is not accepted fail, in
/// that order of checks.
pub open spec fn mfa_login_outcome(
    pending: bool,
    credentials: Result<Credentials, crate::errors::QueryUserError>,
    code: Seq<char>,
    skew: u64,
    now: u64,
) -> Result<(), MfaError> {
    if !pending {
        Err(MfaError::NoPendingLogin)
    } else {
        match credentials {
            Err(_) => Err(MfaError::NotFound),
            Ok(c) => match stored_secret(c) {
                None => Err(MfaError::NoSecretConfigured),
                Some(s) => if code_accepted(s, code, skew, now) {
                    Ok(())
                } else {
                    Err(MfaError::VerificationFailed)
                },
            },
        }
    }
}

} // verus!
