use auth_lib::domain::{Credentials, Mfa, User};
use auth_lib::errors::QueryUserError;
use auth_lib::mfa::{
    complete_enrollment, complete_mfa_login, factor_id, issue_challenge, verify_code, MfaError, AUTHENTICATOR_ID,
    SECRET_LENGTH,
};
use auth_lib::session::SessionState;
use google_authenticator::GoogleAuthenticator;

const SECRET: &str = "I3VFM3JKMNDJCDH5BMBEEQAW6KJ6NOE3";
const NOW: u64 = 1_523_610_659;

fn code(slice: u64) -> String {
    GoogleAuthenticator::new().get_code(SECRET, slice).unwrap()
}

fn wrong_code(now: u64, skew: u64) -> String {
    let window: Vec<String> = ((now / 30 - skew)..=(now / 30 + skew)).map(code).collect();
    (0..1_000_000u32).map(|n| format!("{:06}", n)).find(|c| !window.contains(c)).unwrap()
}

#[test]
fn current_code_verifies() {
    let current = code(NOW / 30);
    assert!(verify_code(SECRET, &current, 0, NOW));
    assert!(verify_code(SECRET, &current, 1, NOW));
    assert!(verify_code(SECRET, &current, 5, NOW));
}

#[test]
fn wrong_code_does_not_verify() {
    let wrong = wrong_code(NOW, 1);
    assert!(!verify_code(SECRET, &wrong, 1, NOW));
    assert!(!verify_code(SECRET, "", 1, NOW));
    assert!(!verify_code(SECRET, "not-a-code", 1, NOW));
}

#[test]
fn previous_step_code_needs_skew_one() {
    let previous = code(NOW / 30 - 1);
    assert_ne!(previous, code(NOW / 30));
    assert!(verify_code(SECRET, &previous, 1, NOW));
    assert!(!verify_code(SECRET, &previous, 0, NOW));
    let next = code(NOW / 30 + 1);
    assert!(verify_code(SECRET, &next, 1, NOW));
    let far = code(NOW / 30 - 2);
    assert!(!verify_code(SECRET, &far, 1, NOW));
    assert!(verify_code(SECRET, &far, 2, NOW));
}

#[test]
fn unusable_secret_never_verifies() {
    assert!(!verify_code("short", "123456", 3, NOW));
    assert!(!verify_code("", "", 3, NOW));
}

#[test]
fn verification_near_time_zero_and_huge_skew() {
    assert!(!verify_code(SECRET, "123456", 0, 10));
    let first = code(1);
    assert!(verify_code(SECRET, &first, 1, 10));
    assert!(verify_code(SECRET, &code(NOW / 30), u64::MAX, NOW));
}

#[test]
fn enrollment_with_correct_code_writes_secret_once_verified() {
    let mut session: SessionState<User> = SessionState::new();
    session.begin_enrollment(SECRET.to_owned());
    let mut creds = Credentials::new(4, "hash".to_owned(), 9);
    let result = complete_enrollment(&mut session, &mut creds, &code(NOW / 30), 0, NOW);
    assert_eq!(result, Ok(()));
    let mfa = creds.mfa_config.as_ref().unwrap();
    assert_eq!(mfa.mfa_id, AUTHENTICATOR_ID);
    assert_eq!(mfa.secret.as_deref(), Some(SECRET));
    assert_eq!(creds.password, "hash");
    assert_eq!(creds.user_id, 9);
    assert!(session.get_pending_mfa_secret().is_none());
}

#[test]
fn enrollment_with_wrong_code_writes_nothing() {
    let mut session: SessionState<User> = SessionState::new();
    session.begin_enrollment(SECRET.to_owned());
    let mut creds = Credentials::new(4, "hash".to_owned(), 9);
    let result = complete_enrollment(&mut session, &mut creds, &wrong_code(NOW, 0), 0, NOW);
    assert_eq!(result, Err(MfaError::VerificationFailed));
    assert!(creds.mfa_config.is_none());
    assert_eq!(session.get_pending_mfa_secret().unwrap(), SECRET);
}

#[test]
fn enrollment_without_issued_secret_is_refused() {
    let mut session: SessionState<User> = SessionState::new();
    let mut creds = Credentials::new(4, "hash".to_owned(), 9);
    let result = complete_enrollment(&mut session, &mut creds, &code(NOW / 30), 0, NOW);
    assert_eq!(result, Err(MfaError::NoPendingSecret));
    assert!(creds.mfa_config.is_none());
}

#[test]
fn enrollment_keeps_existing_factor_on_failure() {
    let mut session: SessionState<User> = SessionState::new();
    session.begin_enrollment(SECRET.to_owned());
    let mut creds = Credentials::new(4, "hash".to_owned(), 9);
    creds.set_mfa(Mfa::with_secret("OLD", "OLDSECRET"));
    assert!(complete_enrollment(&mut session, &mut creds, &wrong_code(NOW, 1), 1, NOW).is_err());
    assert_eq!(creds.mfa_config.as_ref().unwrap().mfa_id, "OLD");
}

fn pending_session() -> SessionState<User> {
    let mut session = SessionState::new();
    session.begin_mfa_login(User::new(1, "a@b".to_owned(), "A".to_owned()));
    session
}

fn creds_with_secret(secret: Option<&str>) -> Result<Credentials, QueryUserError> {
    let mut creds = Credentials::new(1, "hash".to_owned(), 1);
    match secret {
        Some(s) => creds.set_mfa(Mfa::with_secret(AUTHENTICATOR_ID, s)),
        None => creds.set_mfa(Mfa::new(AUTHENTICATOR_ID)),
    }
    Ok(creds)
}

#[test]
fn mfa_login_promotes_pending_user_on_correct_code() {
    let mut session = pending_session();
    let result = complete_mfa_login(&mut session, &creds_with_secret(Some(SECRET)), &code(NOW / 30), 1, NOW, 600);
    assert_eq!(result, Ok(()));
    assert_eq!(session.get_user().unwrap().id, 1);
    assert_eq!(session.get_ttl(), Some(NOW + 600));
    assert!(!session.has_pending_login());
}

#[test]
fn mfa_login_errors_leave_session_unchanged() {
    let mut session = pending_session();
    let wrong = wrong_code(NOW, 1);
    assert_eq!(
        complete_mfa_login(&mut session, &creds_with_secret(Some(SECRET)), &wrong, 1, NOW, 600),
        Err(MfaError::VerificationFailed)
    );
    assert_eq!(
        complete_mfa_login(&mut session, &creds_with_secret(None), &code(NOW / 30), 1, NOW, 600),
        Err(MfaError::NoSecretConfigured)
    );
    assert_eq!(
        complete_mfa_login(&mut session, &Err(QueryUserError::new("x")), &code(NOW / 30), 1, NOW, 600),
        Err(MfaError::NotFound)
    );
    assert!(session.get_user().is_none());
    assert!(session.has_pending_login());
    let mut empty: SessionState<User> = SessionState::new();
    assert_eq!(
        complete_mfa_login(&mut empty, &creds_with_secret(Some(SECRET)), &code(NOW / 30), 1, NOW, 600),
        Err(MfaError::NoPendingLogin)
    );
}

#[test]
fn status_codes_of_mfa_errors() {
    assert_eq!(MfaError::NoPendingSecret.status_code(), 400);
    assert_eq!(MfaError::NotFound.status_code(), 400);
    assert_eq!(MfaError::VerificationFailed.status_code(), 401);
    assert_eq!(MfaError::NoSecretConfigured.status_code(), 401);
    assert_eq!(MfaError::NoPendingLogin.status_code(), 401);
}

#[test]
fn factor_id_of_credentials() {
    let mut creds = Credentials::new(1, "h".to_owned(), 1);
    assert_eq!(factor_id(&creds), None);
    creds.set_mfa(Mfa::new("MFA_ID"));
    assert_eq!(factor_id(&creds), Some("MFA_ID".to_owned()));
}

#[test]
fn challenge_issues_secret_into_session_only() {
    let mut session: SessionState<User> = SessionState::new();
    let challenge = issue_challenge(&mut session, "MyActivities", "test@example.org");
    assert_eq!(challenge.secret.len(), SECRET_LENGTH as usize);
    assert!(challenge.secret.chars().all(|c| c.is_ascii_uppercase() || ('2'..='7').contains(&c)));
    assert_eq!(session.get_pending_mfa_secret().unwrap(), &challenge.secret);
    assert_eq!(
        challenge.provisioning_uri,
        format!("otpauth://totp/MyActivities%3Atest%40example.org?secret={}&issuer=MyActivities", challenge.secret)
    );
    assert!(session.get_user().is_none());
    let svg = challenge.qr_svg.as_ref().unwrap();
    assert!(svg.contains("<svg"));
    assert_ne!(svg, &challenge.provisioning_uri);
    let code_now = GoogleAuthenticator::new().get_code(&challenge.secret, NOW / 30).unwrap();
    assert!(verify_code(&challenge.secret, &code_now, 0, NOW));
}

#[test]
fn mfa_constructors_keep_fields() {
    let m = Mfa::with_secret("MFA_ID", "asecret");
    assert_eq!(m.mfa_id, "MFA_ID");
    assert_eq!(m.secret.unwrap(), "asecret");
    assert!(Mfa::new("X").secret.is_none());
}

#[test]
fn enrollment_with_previous_step_code_fails_without_skew() {
    let mut session: SessionState<User> = SessionState::new();
    session.begin_enrollment(SECRET.to_owned());
    let mut creds = Credentials::new(4, "hash".to_owned(), 9);
    let previous = code(NOW / 30 - 1);
    assert_eq!(complete_enrollment(&mut session, &mut creds, &previous, 0, NOW), Err(MfaError::VerificationFailed));
    assert_eq!(MfaError::VerificationFailed.status_code(), 401);
    assert!(creds.mfa_config.is_none());
    assert_eq!(session.get_pending_mfa_secret().unwrap(), SECRET);
    assert_eq!(complete_enrollment(&mut session, &mut creds, &previous, 1, NOW), Ok(()));
}
