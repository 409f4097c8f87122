use io_sasl::coroutine::{SaslCoroutine, SaslCoroutineState, SaslResume, SaslYield};
use io_sasl::mechanism::SaslMechanism;
use io_sasl::rfc4422::external::{SaslExternal, SaslExternalCreds, SaslExternalError};

fn external_respond(auth: &mut SaslExternal, arg: SaslResume<'_>) -> Vec<u8> {
    match auth.resume(arg) {
        SaslCoroutineState::Yielded(SaslYield::Respond(bytes)) => bytes,
        state => panic!("expected Respond, got {state:?}"),
    }
}

#[test]
fn start_responds_with_the_authorization_identity() {
    let creds = SaslExternalCreds {
        authzid: Some("alice@localhost".to_string()),
    };
    let mut auth = SaslExternal::new(creds);

    assert_eq!(external_respond(&mut auth, SaslResume::Start), b"alice@localhost");
}

#[test]
fn start_responds_empty_without_authorization_identity() {
    let mut auth = SaslExternal::new(SaslExternalCreds { authzid: None });

    assert!(external_respond(&mut auth, SaslResume::Start).is_empty());
}

#[test]
fn external_peer_finished_completes_ok() {
    let mut auth = SaslExternal::new(SaslExternalCreds { authzid: None });

    let _ = external_respond(&mut auth, SaslResume::Start);

    assert!(matches!(
        auth.resume(SaslResume::PeerFinished),
        SaslCoroutineState::Complete(Ok(())),
    ));
}

#[test]
fn external_extra_challenge_completes_err() {
    let mut auth = SaslExternal::new(SaslExternalCreds { authzid: None });

    let _ = external_respond(&mut auth, SaslResume::Start);

    assert!(matches!(
        auth.resume(SaslResume::Challenge(b"")),
        SaslCoroutineState::Complete(Err(SaslExternalError::UnexpectedChallenge)),
    ));
}

#[test]
fn external_names_itself_and_describes_its_failure() {
    let auth = SaslExternal::new(SaslExternalCreds { authzid: None });

    assert_eq!(auth.mechanism(), SaslMechanism::External);
    assert_eq!(
        SaslExternalError::UnexpectedChallenge.to_string(),
        "SASL EXTERNAL failed: unexpected challenge after the authorization identity",
    );
}

#[test]
fn external_peer_finishing_before_the_identity_completes_ok() {
    let mut auth = SaslExternal::new(SaslExternalCreds {
        authzid: Some("alice".to_string()),
    });

    assert!(matches!(
        auth.resume(SaslResume::PeerFinished),
        SaslCoroutineState::Complete(Ok(())),
    ));
}

#[test]
fn external_a_challenge_before_start_is_answered_with_the_identity() {
    let mut auth = SaslExternal::new(SaslExternalCreds {
        authzid: Some("bob".to_string()),
    });

    assert_eq!(external_respond(&mut auth, SaslResume::Challenge(b"")), b"bob");
    assert!(matches!(
        auth.resume(SaslResume::Challenge(b"again")),
        SaslCoroutineState::Complete(Err(SaslExternalError::UnexpectedChallenge)),
    ));
}
