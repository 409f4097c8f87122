use io_sasl::coroutine::{SaslCoroutine, SaslCoroutineState, SaslResume, SaslYield};
use io_sasl::mechanism::SaslMechanism;
use io_sasl::rfc7628::oauthbearer::{SaslOauthbearer, SaslOauthbearerCreds, SaslOauthbearerError};

fn oauthbearer_creds() -> SaslOauthbearerCreds {
    SaslOauthbearerCreds {
        username: "user@example.com".to_string(),
        host: "server.example.com".to_string(),
        port: 143,
        token: "vF9dft4qmT".to_string(),
    }
}

fn oauthbearer_respond(auth: &mut SaslOauthbearer, arg: SaslResume<'_>) -> Vec<u8> {
    match auth.resume(arg) {
        SaslCoroutineState::Yielded(SaslYield::Respond(bytes)) => bytes,
        state => panic!("expected Respond, got {state:?}"),
    }
}

#[test]
fn start_responds_with_the_rfc_7628_example_payload() {
    let mut auth = SaslOauthbearer::new(oauthbearer_creds());

    let payload = oauthbearer_respond(&mut auth, SaslResume::Start);

    assert_eq!(
        payload,
        b"n,a=user@example.com,\x01host=server.example.com\x01port=143\x01auth=Bearer vF9dft4qmT\x01\x01",
    );
}

#[test]
fn oauthbearer_peer_finished_completes_ok() {
    let mut auth = SaslOauthbearer::new(oauthbearer_creds());

    let _ = oauthbearer_respond(&mut auth, SaslResume::Start);

    assert!(matches!(
        auth.resume(SaslResume::PeerFinished),
        SaslCoroutineState::Complete(Ok(())),
    ));
}

#[test]
fn oauthbearer_error_challenge_is_acknowledged_then_fails_with_the_json() {
    let mut auth = SaslOauthbearer::new(oauthbearer_creds());
    let json = br#"{"status":"invalid_token","scope":"example"}"#;

    let _ = oauthbearer_respond(&mut auth, SaslResume::Start);

    assert_eq!(oauthbearer_respond(&mut auth, SaslResume::Challenge(json)), [0x01]);

    let SaslCoroutineState::Complete(Err(err)) = auth.resume(SaslResume::PeerFinished) else {
        panic!("expected Complete(Err)");
    };
    let SaslOauthbearerError::Rejected(reported) = err else {
        panic!("expected SaslOauthbearerError::Rejected, got {err:?}");
    };
    assert_eq!(reported.as_bytes(), json);
}

#[test]
fn oauthbearer_extra_challenge_completes_err() {
    let mut auth = SaslOauthbearer::new(oauthbearer_creds());
    let json = br#"{"status":"invalid_token"}"#;

    let _ = oauthbearer_respond(&mut auth, SaslResume::Start);
    let _ = oauthbearer_respond(&mut auth, SaslResume::Challenge(json));

    assert!(matches!(
        auth.resume(SaslResume::Challenge(json)),
        SaslCoroutineState::Complete(Err(SaslOauthbearerError::UnexpectedChallenge)),
    ));
}

#[test]
fn oauthbearer_names_itself_and_describes_its_failures() {
    let auth = SaslOauthbearer::new(oauthbearer_creds());

    assert_eq!(auth.mechanism(), SaslMechanism::OAuthBearer);
    assert_eq!(
        SaslOauthbearerError::Rejected("{}".to_string()).to_string(),
        "SASL OAUTHBEARER failed: server rejected the token: {}",
    );
    assert_eq!(
        SaslOauthbearerError::UnexpectedChallenge.to_string(),
        "SASL OAUTHBEARER failed: unexpected challenge",
    );
}

#[test]
fn oauthbearer_a_port_is_written_in_decimal() {
    let mut auth = SaslOauthbearer::new(SaslOauthbearerCreds {
        port: 65535,
        ..oauthbearer_creds()
    });

    let payload = oauthbearer_respond(&mut auth, SaslResume::Start);

    assert!(payload.windows(11).any(|w| w == b"\x01port=65535"));

    let mut auth = SaslOauthbearer::new(SaslOauthbearerCreds {
        port: 0,
        ..oauthbearer_creds()
    });

    let payload = oauthbearer_respond(&mut auth, SaslResume::Start);

    assert!(payload.windows(8).any(|w| w == b"\x01port=0\x01"));
}

#[test]
fn oauthbearer_a_json_that_is_not_utf8_is_kept_lossily() {
    let mut auth = SaslOauthbearer::new(oauthbearer_creds());

    let _ = oauthbearer_respond(&mut auth, SaslResume::Start);
    let _ = oauthbearer_respond(&mut auth, SaslResume::Challenge(&[b'{', 0xff, b'}']));

    let SaslCoroutineState::Complete(Err(SaslOauthbearerError::Rejected(reported))) =
        auth.resume(SaslResume::PeerFinished)
    else {
        panic!("expected the rejection");
    };
    assert_eq!(reported, "{\u{fffd}}");
}

#[test]
fn oauthbearer_the_authorization_identity_is_escaped_in_the_header() {
    let mut auth = SaslOauthbearer::new(SaslOauthbearerCreds {
        username: "a,b=c".to_string(),
        host: "h".to_string(),
        port: 1,
        token: "t".to_string(),
    });

    assert_eq!(
        oauthbearer_respond(&mut auth, SaslResume::Start),
        b"n,a=a=2Cb=3Dc,\x01host=h\x01port=1\x01auth=Bearer t\x01\x01",
    );
}
