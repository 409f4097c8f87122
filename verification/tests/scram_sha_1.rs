use io_sasl::coroutine::{SaslCoroutine, SaslCoroutineState, SaslResume, SaslYield};
use io_sasl::mechanism::SaslMechanism;
use io_sasl::rfc5802::scram_sha_1::SaslScramSha1;
use io_sasl::rfc5802::{SaslScramChannelBinding, SaslScramChannelBindingKind, SaslScramCreds};

const SHA1_CLIENT_NONCE: &[u8] = b"fyko+d2lbbFgONRv9qkxdawL";
const SHA1_CLIENT_FIRST: &str = "n,,n=user,r=fyko+d2lbbFgONRv9qkxdawL";
const SHA1_SERVER_FIRST: &str = "r=fyko+d2lbbFgONRv9qkxdawL3rfcNHYJY1ZVvWVs7j,s=QSXCR+Q6sek8bf92,i=4096";
const SHA1_CLIENT_FINAL: &str = "c=biws,r=fyko+d2lbbFgONRv9qkxdawL3rfcNHYJY1ZVvWVs7j,p=v0X8v3Bz2T0CJGbJQyF0X+HI4Ts=";
const SHA1_SERVER_FINAL: &str = "v=rmF9pqV8S7suAoZWja4dJRkFsKQ=";

fn sha1_creds() -> SaslScramCreds {
    SaslScramCreds {
        username: "user".to_string(),
        password: "pencil".to_string(),
        nonce: SHA1_CLIENT_NONCE.to_vec(),
        channel_binding: SaslScramChannelBinding::Unsupported,
    }
}

fn sha1_respond(auth: &mut SaslScramSha1, arg: SaslResume<'_>) -> Vec<u8> {
    match auth.resume(arg) {
        SaslCoroutineState::Yielded(SaslYield::Respond(bytes)) => bytes,
        state => panic!("expected Respond, got {state:?}"),
    }
}

#[test]
fn exchange_matches_the_rfc_5802_test_vector() {
    let mut auth = SaslScramSha1::new(sha1_creds());

    assert_eq!(sha1_respond(&mut auth, SaslResume::Start), SHA1_CLIENT_FIRST.as_bytes());

    let client_final = sha1_respond(&mut auth, SaslResume::Challenge(SHA1_SERVER_FIRST.as_bytes()));
    assert_eq!(client_final, SHA1_CLIENT_FINAL.as_bytes());

    let ack = sha1_respond(&mut auth, SaslResume::Challenge(SHA1_SERVER_FINAL.as_bytes()));
    assert!(ack.is_empty());

    assert!(matches!(
        auth.resume(SaslResume::PeerFinished),
        SaslCoroutineState::Complete(Ok(())),
    ));
}

#[test]
fn scram_sha_1_the_profile_answers_to_both_names_it_is_registered_under() {
    let plain = SaslScramSha1::new(sha1_creds());

    assert_eq!(plain.mechanism(), SaslMechanism::ScramSha1);

    let bound = SaslScramSha1::new(SaslScramCreds {
        channel_binding: SaslScramChannelBinding::Bound {
            kind: SaslScramChannelBindingKind::TlsExporter,
            data: b"binding".to_vec(),
        },
        ..sha1_creds()
    });

    assert_eq!(bound.mechanism(), SaslMechanism::ScramSha1Plus);
}
