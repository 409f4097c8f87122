use io_sasl::coroutine::{SaslCoroutine, SaslCoroutineState, SaslResume, SaslYield};
use io_sasl::mechanism::SaslMechanism;
use io_sasl::xoauth2::{SaslXoauth2, SaslXoauth2Creds, SaslXoauth2Error};

fn xoauth2_creds() -> SaslXoauth2Creds {
    SaslXoauth2Creds {
        username: "someuser@example.com".to_string(),
        token: "vF9dft4qmT".to_string(),
    }
}

fn xoauth2_respond(auth: &mut SaslXoauth2, arg: SaslResume<'_>) -> Vec<u8> {
    match auth.resume(arg) {
        SaslCoroutineState::Yielded(SaslYield::Respond(bytes)) => bytes,
        state => panic!("expected Respond, got {state:?}"),
    }
}

#[test]
fn start_responds_with_the_documented_payload() {
    let mut auth = SaslXoauth2::new(xoauth2_creds());

    let payload = xoauth2_respond(&mut auth, SaslResume::Start);

    assert_eq!(payload, b"user=someuser@example.com\x01auth=Bearer vF9dft4qmT\x01\x01");
}

#[test]
fn xoauth2_peer_finished_completes_ok() {
    let mut auth = SaslXoauth2::new(xoauth2_creds());

    let _ = xoauth2_respond(&mut auth, SaslResume::Start);

    assert!(matches!(
        auth.resume(SaslResume::PeerFinished),
        SaslCoroutineState::Complete(Ok(())),
    ));
}

#[test]
fn xoauth2_error_challenge_is_acknowledged_then_fails_with_the_json() {
    let mut auth = SaslXoauth2::new(xoauth2_creds());
    let json = br#"{"status":"401","schemes":"bearer mac"}"#;

    let _ = xoauth2_respond(&mut auth, SaslResume::Start);

    assert!(xoauth2_respond(&mut auth, SaslResume::Challenge(json)).is_empty());

    let SaslCoroutineState::Complete(Err(err)) = auth.resume(SaslResume::PeerFinished) else {
        panic!("expected Complete(Err)");
    };
    let SaslXoauth2Error::Rejected(reported) = err else {
        panic!("expected SaslXoauth2Error::Rejected, got {err:?}");
    };
    assert_eq!(reported.as_bytes(), json);
}

#[test]
fn xoauth2_extra_challenge_completes_err() {
    let mut auth = SaslXoauth2::new(xoauth2_creds());
    let json = br#"{"status":"401"}"#;

    let _ = xoauth2_respond(&mut auth, SaslResume::Start);
    let _ = xoauth2_respond(&mut auth, SaslResume::Challenge(json));

    assert!(matches!(
        auth.resume(SaslResume::Challenge(json)),
        SaslCoroutineState::Complete(Err(SaslXoauth2Error::UnexpectedChallenge)),
    ));
}

#[test]
fn xoauth2_names_itself_and_describes_its_failures() {
    let auth = SaslXoauth2::new(xoauth2_creds());

    assert_eq!(auth.mechanism(), SaslMechanism::XOAuth2);
    assert_eq!(
        SaslXoauth2Error::Rejected("{}".to_string()).to_string(),
        "SASL XOAUTH2 failed: server rejected the token: {}",
    );
    assert_eq!(SaslXoauth2Error::UnexpectedChallenge.to_string(), "SASL XOAUTH2 failed: unexpected challenge");
}

#[test]
fn xoauth2_a_challenge_before_the_token_is_refused() {
    let mut auth = SaslXoauth2::new(xoauth2_creds());

    assert!(matches!(
        auth.resume(SaslResume::Challenge(b"{}")),
        SaslCoroutineState::Complete(Err(SaslXoauth2Error::UnexpectedChallenge)),
    ));
}
