use io_sasl::coroutine::{SaslCoroutine, SaslCoroutineState, SaslResume, SaslYield};
use io_sasl::mechanism::SaslMechanism;
use io_sasl::rfc5801::gs2_krb5::{SaslGs2Krb5, SaslGs2Krb5Creds, SaslGs2Krb5Error};
use io_sasl::rfc5801::{SaslGs2ChannelBinding, SaslGs2ChannelBindingKind};

fn gs2_krb5_creds(channel_binding: SaslGs2ChannelBinding) -> SaslGs2Krb5Creds {
    SaslGs2Krb5Creds {
        token: b"first token".to_vec(),
        authzid: None,
        channel_binding,
    }
}

fn gs2_krb5_respond(auth: &mut SaslGs2Krb5, arg: SaslResume<'_>) -> Vec<u8> {
    match auth.resume(arg) {
        SaslCoroutineState::Yielded(SaslYield::Respond(bytes)) => bytes,
        state => panic!("expected Respond, got {state:?}"),
    }
}

#[test]
fn start_responds_with_the_header_and_the_initial_token() {
    let mut auth = SaslGs2Krb5::new(gs2_krb5_creds(SaslGs2ChannelBinding::Unsupported));

    assert_eq!(gs2_krb5_respond(&mut auth, SaslResume::Start), b"n,,first token");
}

#[test]
fn the_authorization_identity_rides_in_the_header() {
    let mut auth = SaslGs2Krb5::new(SaslGs2Krb5Creds {
        authzid: Some("alice".to_string()),
        ..gs2_krb5_creds(SaslGs2ChannelBinding::Unsupported)
    });

    assert_eq!(gs2_krb5_respond(&mut auth, SaslResume::Start), b"n,a=alice,first token");
}

#[test]
fn a_bound_exchange_says_so_in_its_header_and_in_its_name() {
    let bound = SaslGs2ChannelBinding::Bound {
        kind: SaslGs2ChannelBindingKind::TlsExporter,
        data: b"binding".to_vec(),
    };
    let mut auth = SaslGs2Krb5::new(gs2_krb5_creds(bound));

    assert_eq!(auth.mechanism(), SaslMechanism::Gs2Krb5Plus);
    assert_eq!(
        gs2_krb5_respond(&mut auth, SaslResume::Start),
        b"p=tls-exporter,,first token"
    );
}

#[test]
fn gs2_krb5_a_client_supporting_binding_without_using_it_says_so() {
    let mut auth = SaslGs2Krb5::new(gs2_krb5_creds(SaslGs2ChannelBinding::Unused));

    assert_eq!(auth.mechanism(), SaslMechanism::Gs2Krb5);
    assert_eq!(gs2_krb5_respond(&mut auth, SaslResume::Start), b"y,,first token");
}

#[test]
fn every_later_token_is_relayed_verbatim() {
    let mut auth = SaslGs2Krb5::new(gs2_krb5_creds(SaslGs2ChannelBinding::Unsupported));

    let _ = gs2_krb5_respond(&mut auth, SaslResume::Start);

    for token in [&b"second"[..], b"third", b""] {
        assert_eq!(gs2_krb5_respond(&mut auth, SaslResume::Challenge(token)), token);
    }
}

#[test]
fn gs2_krb5_peer_finished_completes_ok() {
    let mut auth = SaslGs2Krb5::new(gs2_krb5_creds(SaslGs2ChannelBinding::Unsupported));

    let _ = gs2_krb5_respond(&mut auth, SaslResume::Start);

    assert!(matches!(
        auth.resume(SaslResume::PeerFinished),
        SaslCoroutineState::Complete(Ok(())),
    ));
}

#[test]
fn a_resume_out_of_order_completes_err() {
    let mut auth = SaslGs2Krb5::new(gs2_krb5_creds(SaslGs2ChannelBinding::Unsupported));

    assert!(matches!(
        auth.resume(SaslResume::Challenge(b"token")),
        SaslCoroutineState::Complete(Err(SaslGs2Krb5Error::OutOfOrder)),
    ));

    let mut auth = SaslGs2Krb5::new(gs2_krb5_creds(SaslGs2ChannelBinding::Unsupported));

    let _ = gs2_krb5_respond(&mut auth, SaslResume::Start);

    assert!(matches!(
        auth.resume(SaslResume::Start),
        SaslCoroutineState::Complete(Err(SaslGs2Krb5Error::OutOfOrder)),
    ));
}

#[test]
fn gs2_krb5_describes_its_failure() {
    assert_eq!(SaslGs2Krb5Error::OutOfOrder.to_string(), "SASL GS2-KRB5 failed: resumed out of order");
}

#[test]
fn gs2_krb5_the_header_escapes_the_identity_before_the_token() {
    let mut auth = SaslGs2Krb5::new(SaslGs2Krb5Creds {
        authzid: Some("a,b".to_string()),
        ..gs2_krb5_creds(SaslGs2ChannelBinding::Unused)
    });

    assert_eq!(gs2_krb5_respond(&mut auth, SaslResume::Start), b"y,a=a=2Cb,first token");
}
