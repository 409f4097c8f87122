use io_sasl::coroutine::{SaslCoroutine, SaslCoroutineState, SaslResume, SaslYield};
use io_sasl::login::{SaslAuthLogin, SaslAuthLoginError};
use io_sasl::mechanism::{SaslLogin, SaslMechanism};

fn login_creds() -> SaslLogin {
    SaslLogin {
        username: "alice".to_string(),
        password: "pencil".to_string(),
    }
}

fn login_respond(auth: &mut SaslAuthLogin, arg: SaslResume<'_>) -> Vec<u8> {
    match auth.resume(arg) {
        SaslCoroutineState::Yielded(SaslYield::Respond(bytes)) => bytes,
        state => panic!("expected Respond, got {state:?}"),
    }
}

#[test]
fn exchange_sequences_username_then_password() {
    let mut auth = SaslAuthLogin::new(login_creds());

    assert_eq!(login_respond(&mut auth, SaslResume::Start), b"alice");
    assert_eq!(login_respond(&mut auth, SaslResume::Challenge(b"Password:")), b"pencil");
}

#[test]
fn login_peer_finished_completes_ok() {
    let mut auth = SaslAuthLogin::new(login_creds());

    let _ = login_respond(&mut auth, SaslResume::Start);
    let _ = login_respond(&mut auth, SaslResume::Challenge(b"Password:"));

    assert!(matches!(
        auth.resume(SaslResume::PeerFinished),
        SaslCoroutineState::Complete(Ok(())),
    ));
}

#[test]
fn peer_finished_after_the_username_completes_ok() {
    let mut auth = SaslAuthLogin::new(login_creds());

    let _ = login_respond(&mut auth, SaslResume::Start);

    assert!(matches!(
        auth.resume(SaslResume::PeerFinished),
        SaslCoroutineState::Complete(Ok(())),
    ));
}

#[test]
fn login_extra_challenge_completes_err() {
    let mut auth = SaslAuthLogin::new(login_creds());

    let _ = login_respond(&mut auth, SaslResume::Start);
    let _ = login_respond(&mut auth, SaslResume::Challenge(b"Password:"));

    assert!(matches!(
        auth.resume(SaslResume::Challenge(b"Password:")),
        SaslCoroutineState::Complete(Err(SaslAuthLoginError::UnexpectedChallenge)),
    ));
}

#[test]
fn login_names_itself_and_describes_its_failure() {
    let auth = SaslAuthLogin::new(login_creds());

    assert_eq!(auth.mechanism(), SaslMechanism::Login);
    assert_eq!(
        SaslAuthLoginError::UnexpectedChallenge.to_string(),
        "SASL LOGIN failed: unexpected challenge after the password",
    );
}
