use io_sasl::coroutine::{SaslCoroutine, SaslCoroutineState, SaslResume, SaslYield};
use io_sasl::mechanism::SaslMechanism;
use io_sasl::rfc5802::{SaslScramChannelBinding, SaslScramChannelBindingKind, SaslScramCreds};
use io_sasl::scram_sha_512::SaslScramSha512;

const SHA512_CLIENT_NONCE: &[u8] = b"rOprNGfwEbeRWgbNEkqO";
const SHA512_CLIENT_FIRST: &str = "n,,n=user,r=rOprNGfwEbeRWgbNEkqO";
const SHA512_SERVER_FIRST: &str =
    "r=rOprNGfwEbeRWgbNEkqO%hvYDpWUa2RaTCAfuxFIlj)hNlF$k0,s=W22ZaJ0SNY7soEsUEjb6gQ==,i=4096";
const SHA512_CLIENT_FINAL: &str = "c=biws,r=rOprNGfwEbeRWgbNEkqO%hvYDpWUa2RaTCAfuxFIlj)hNlF$k0,p=gMGXRcevScNtxZ6/8lQYpGtnsNAc3mGcmNomv+xnoOMw+3R2xNJdMNnzMlTN8PPC6wdp6dybEmDYXYTxwnYPJQ==";
const SHA512_SERVER_FINAL: &str = "v=ZQnYEgWQMFmmsM8aQMF0nDDCy/AgCzkwk8CmMZYcMg0vSVlKDanekLtifDSeVGT4+5ZxXnJq199RVG2rR7N7Zw==";

fn sha512_creds() -> SaslScramCreds {
    SaslScramCreds {
        username: "user".to_string(),
        password: "pencil".to_string(),
        nonce: SHA512_CLIENT_NONCE.to_vec(),
        channel_binding: SaslScramChannelBinding::Unsupported,
    }
}

fn sha512_respond(auth: &mut SaslScramSha512, arg: SaslResume<'_>) -> Vec<u8> {
    match auth.resume(arg) {
        SaslCoroutineState::Yielded(SaslYield::Respond(bytes)) => bytes,
        state => panic!("expected Respond, got {state:?}"),
    }
}

#[test]
fn exchange_matches_the_derived_test_vector() {
    let mut auth = SaslScramSha512::new(sha512_creds());

    assert_eq!(sha512_respond(&mut auth, SaslResume::Start), SHA512_CLIENT_FIRST.as_bytes());

    let client_final = sha512_respond(&mut auth, SaslResume::Challenge(SHA512_SERVER_FIRST.as_bytes()));
    assert_eq!(client_final, SHA512_CLIENT_FINAL.as_bytes());

    let ack = sha512_respond(&mut auth, SaslResume::Challenge(SHA512_SERVER_FINAL.as_bytes()));
    assert!(ack.is_empty());

    assert!(matches!(
        auth.resume(SaslResume::PeerFinished),
        SaslCoroutineState::Complete(Ok(())),
    ));
}

#[test]
fn scram_sha_512_the_profile_answers_to_both_names_it_is_registered_under() {
    let plain = SaslScramSha512::new(sha512_creds());

    assert_eq!(plain.mechanism(), SaslMechanism::ScramSha512);

    let bound = SaslScramSha512::new(SaslScramCreds {
        channel_binding: SaslScramChannelBinding::Bound {
            kind: SaslScramChannelBindingKind::TlsExporter,
            data: b"binding".to_vec(),
        },
        ..sha512_creds()
    });

    assert_eq!(bound.mechanism(), SaslMechanism::ScramSha512Plus);
}
