use io_sasl::coroutine::{SaslCoroutine, SaslCoroutineState, SaslResume, SaslYield};
use io_sasl::mechanism::SaslMechanism;
use io_sasl::rfc4752::gssapi::{
    SaslGssapi, SaslGssapiCreds, SaslGssapiError, SaslGssapiSecurityLayer,
    SaslGssapiSecurityLayerChoice, SaslGssapiSecurityLayerOffer,
};

fn gssapi_creds() -> SaslGssapiCreds {
    SaslGssapiCreds {
        token: b"first token".to_vec(),
    }
}

fn gssapi_respond(auth: &mut SaslGssapi, arg: SaslResume<'_>) -> Vec<u8> {
    match auth.resume(arg) {
        SaslCoroutineState::Yielded(SaslYield::Respond(bytes)) => bytes,
        state => panic!("expected Respond, got {state:?}"),
    }
}

#[test]
fn start_responds_with_the_initial_token() {
    let mut auth = SaslGssapi::new(gssapi_creds());

    assert_eq!(gssapi_respond(&mut auth, SaslResume::Start), b"first token");
}

#[test]
fn every_input_is_relayed_verbatim() {
    let mut auth = SaslGssapi::new(gssapi_creds());

    let _ = gssapi_respond(&mut auth, SaslResume::Start);

    for token in [&b"second"[..], b"third", b"fourth", b""] {
        assert_eq!(gssapi_respond(&mut auth, SaslResume::Challenge(token)), token);
    }
}

#[test]
fn gssapi_peer_finished_completes_ok() {
    let mut auth = SaslGssapi::new(gssapi_creds());

    let _ = gssapi_respond(&mut auth, SaslResume::Start);

    assert!(matches!(
        auth.resume(SaslResume::PeerFinished),
        SaslCoroutineState::Complete(Ok(())),
    ));
}

#[test]
fn input_before_the_initial_token_completes_err() {
    let mut auth = SaslGssapi::new(gssapi_creds());

    assert!(matches!(
        auth.resume(SaslResume::Challenge(b"token")),
        SaslCoroutineState::Complete(Err(SaslGssapiError::OutOfOrder)),
    ));
}

#[test]
fn a_second_start_completes_err() {
    let mut auth = SaslGssapi::new(gssapi_creds());

    let _ = gssapi_respond(&mut auth, SaslResume::Start);

    assert!(matches!(
        auth.resume(SaslResume::Start),
        SaslCoroutineState::Complete(Err(SaslGssapiError::OutOfOrder)),
    ));
}

#[test]
fn the_security_layer_offer_reads_its_four_octets() {
    let offer = SaslGssapiSecurityLayerOffer::parse(&[7, 1, 0, 0]).expect("a valid offer");

    assert_eq!(
        offer.layers,
        [
            SaslGssapiSecurityLayer::NoLayer,
            SaslGssapiSecurityLayer::Integrity,
            SaslGssapiSecurityLayer::Confidentiality,
        ],
    );
    assert_eq!(offer.max_message_size, 0x01_0000);

    let offer = SaslGssapiSecurityLayerOffer::parse(&[1, 0, 0, 0]).expect("a valid offer");

    assert_eq!(offer.layers, [SaslGssapiSecurityLayer::NoLayer]);
    assert_eq!(offer.max_message_size, 0);
}

#[test]
fn a_malformed_security_layer_offer_completes_err() {
    assert!(matches!(
        SaslGssapiSecurityLayerOffer::parse(&[1, 0, 0]),
        Err(SaslGssapiError::TruncatedSecurityLayerOffer),
    ));

    assert!(matches!(
        SaslGssapiSecurityLayerOffer::parse(&[]),
        Err(SaslGssapiError::TruncatedSecurityLayerOffer),
    ));

    assert!(matches!(
        SaslGssapiSecurityLayerOffer::parse(&[8, 0, 0, 0]),
        Err(SaslGssapiError::UnknownSecurityLayerOffer),
    ));
}

#[test]
fn the_choice_answers_with_the_same_four_octets_and_the_identity() {
    let choice = SaslGssapiSecurityLayerChoice {
        layer: SaslGssapiSecurityLayer::NoLayer,
        max_message_size: 0x01_0000,
        authzid: Some("alice".to_string()),
    };

    assert_eq!(choice.to_bytes(), b"\x01\x01\x00\x00alice");

    let choice = SaslGssapiSecurityLayerChoice {
        layer: SaslGssapiSecurityLayer::Confidentiality,
        max_message_size: 0,
        authzid: None,
    };

    assert_eq!(choice.to_bytes(), [4, 0, 0, 0]);
}

#[test]
fn a_size_larger_than_the_format_is_truncated_to_it() {
    let choice = SaslGssapiSecurityLayerChoice {
        layer: SaslGssapiSecurityLayer::Integrity,
        max_message_size: u32::MAX,
        authzid: None,
    };

    assert_eq!(choice.to_bytes(), [2, 0xff, 0xff, 0xff]);
}

#[test]
fn gssapi_each_layer_occupies_its_own_bit() {
    assert_eq!(SaslGssapiSecurityLayer::NoLayer.bit(), 1);
    assert_eq!(SaslGssapiSecurityLayer::Integrity.bit(), 2);
    assert_eq!(SaslGssapiSecurityLayer::Confidentiality.bit(), 4);
}

#[test]
fn gssapi_the_offer_reads_the_size_big_endian_and_ignores_trailing_octets() {
    let offer = SaslGssapiSecurityLayerOffer::parse(&[0xfe, 0x12, 0x34, 0x56, 0x99]).expect("a valid offer");

    assert_eq!(
        offer.layers,
        [SaslGssapiSecurityLayer::Integrity, SaslGssapiSecurityLayer::Confidentiality],
    );
    assert_eq!(offer.max_message_size, 0x12_3456);
}

#[test]
fn gssapi_a_choice_reads_back_as_an_offer_of_its_layer() {
    let choice = SaslGssapiSecurityLayerChoice {
        layer: SaslGssapiSecurityLayer::Integrity,
        max_message_size: 0x00ab_cdef,
        authzid: Some("carol".to_string()),
    };

    let offer = SaslGssapiSecurityLayerOffer::parse(&choice.to_bytes()).expect("a valid offer");

    assert_eq!(offer.layers, [SaslGssapiSecurityLayer::Integrity]);
    assert_eq!(offer.max_message_size, 0x00ab_cdef);
}

#[test]
fn gssapi_names_itself_and_describes_its_failures() {
    let auth = SaslGssapi::new(gssapi_creds());

    assert_eq!(auth.mechanism(), SaslMechanism::Gssapi);
    assert_eq!(SaslGssapiError::OutOfOrder.to_string(), "SASL GSSAPI failed: resumed out of order");
    assert_eq!(
        SaslGssapiError::TruncatedSecurityLayerOffer.to_string(),
        "SASL GSSAPI failed: truncated security layer offer",
    );
    assert_eq!(
        SaslGssapiError::UnknownSecurityLayerOffer.to_string(),
        "SASL GSSAPI failed: security layer offer carries no known layer",
    );
}
