use io_sasl::coroutine::{SaslCoroutine, SaslCoroutineState, SaslResume, SaslYield};
use io_sasl::mechanism::SaslMechanism;
use io_sasl::rfc7677::scram_sha_256::{SaslAuthScramSha256, SaslAuthScramSha256Error, SaslScramSha256};

const SHA256_CLIENT_NONCE: &[u8] = b"rOprNGfwEbeRWgbNEkqO";
const SHA256_CLIENT_FIRST: &str = "n,,n=user,r=rOprNGfwEbeRWgbNEkqO";
const SHA256_SERVER_FIRST: &str =
    "r=rOprNGfwEbeRWgbNEkqO%hvYDpWUa2RaTCAfuxFIlj)hNlF$k0,s=W22ZaJ0SNY7soEsUEjb6gQ==,i=4096";
const SHA256_CLIENT_FINAL: &str = "c=biws,r=rOprNGfwEbeRWgbNEkqO%hvYDpWUa2RaTCAfuxFIlj)hNlF$k0,p=dHzbZapWIk4jUhN+Ute9ytag9zjfMHgsqmmiz7AndVQ=";
const SHA256_SERVER_FINAL: &str = "v=6rriTRBi23WpRR/wtup+mMhUZUn/dB5nLTJRsjl95G4=";

fn sha256_creds() -> SaslScramSha256 {
    SaslScramSha256 {
        username: "user".to_string(),
        password: "pencil".to_string(),
        nonce: SHA256_CLIENT_NONCE.to_vec(),
    }
}

fn sha256_respond(auth: &mut SaslAuthScramSha256, arg: SaslResume<'_>) -> Vec<u8> {
    match auth.resume(arg) {
        SaslCoroutineState::Yielded(SaslYield::Respond(bytes)) => bytes,
        state => panic!("expected Respond, got {state:?}"),
    }
}

#[test]
fn exchange_matches_the_rfc_7677_test_vector() {
    let mut auth = SaslAuthScramSha256::new(sha256_creds());

    assert_eq!(sha256_respond(&mut auth, SaslResume::Start), SHA256_CLIENT_FIRST.as_bytes());

    let client_final = sha256_respond(&mut auth, SaslResume::Challenge(SHA256_SERVER_FIRST.as_bytes()));
    assert_eq!(client_final, SHA256_CLIENT_FINAL.as_bytes());

    let ack = sha256_respond(&mut auth, SaslResume::Challenge(SHA256_SERVER_FINAL.as_bytes()));
    assert!(ack.is_empty());

    assert!(matches!(
        auth.resume(SaslResume::PeerFinished),
        SaslCoroutineState::Complete(Ok(())),
    ));
}

#[test]
fn scram_sha_256_peer_finished_before_verification_completes_err() {
    let mut auth = SaslAuthScramSha256::new(sha256_creds());

    let _ = sha256_respond(&mut auth, SaslResume::Start);
    let _ = sha256_respond(&mut auth, SaslResume::Challenge(SHA256_SERVER_FIRST.as_bytes()));

    assert!(matches!(
        auth.resume(SaslResume::PeerFinished),
        SaslCoroutineState::Complete(Err(SaslAuthScramSha256Error::ServerSignatureNotVerified)),
    ));
}

#[test]
fn scram_sha_256_server_nonce_not_extending_the_client_nonce_completes_err() {
    let mut auth = SaslAuthScramSha256::new(sha256_creds());

    let _ = sha256_respond(&mut auth, SaslResume::Start);

    let server_first = "r=someOtherNonce,s=W22ZaJ0SNY7soEsUEjb6gQ==,i=4096";

    assert!(matches!(
        auth.resume(SaslResume::Challenge(server_first.as_bytes())),
        SaslCoroutineState::Complete(Err(SaslAuthScramSha256Error::NonceMismatch)),
    ));
}

#[test]
fn scram_sha_256_tampered_server_signature_completes_err() {
    let mut auth = SaslAuthScramSha256::new(sha256_creds());

    let _ = sha256_respond(&mut auth, SaslResume::Start);
    let _ = sha256_respond(&mut auth, SaslResume::Challenge(SHA256_SERVER_FIRST.as_bytes()));

    let server_final = "v=AAAAAAAAAAAAAAAAAAAAAAAAAAAAAAAAAAAAAAAAAAA=";

    assert!(matches!(
        auth.resume(SaslResume::Challenge(server_final.as_bytes())),
        SaslCoroutineState::Complete(Err(SaslAuthScramSha256Error::ServerSignatureMismatch)),
    ));
}

#[test]
fn scram_sha_256_server_error_completes_err() {
    let mut auth = SaslAuthScramSha256::new(sha256_creds());

    let _ = sha256_respond(&mut auth, SaslResume::Start);
    let _ = sha256_respond(&mut auth, SaslResume::Challenge(SHA256_SERVER_FIRST.as_bytes()));

    let SaslCoroutineState::Complete(Err(err)) = auth.resume(SaslResume::Challenge(b"e=invalid-proof"))
    else {
        panic!("expected Complete(Err)");
    };
    let SaslAuthScramSha256Error::ServerError(reported) = err else {
        panic!("expected SaslAuthScramSha256Error::ServerError, got {err:?}");
    };
    assert_eq!(reported, "invalid-proof");
}

#[test]
fn scram_sha_256_username_separators_are_escaped() {
    let creds = SaslScramSha256 {
        username: "a=b,c".to_string(),
        password: "pencil".to_string(),
        nonce: SHA256_CLIENT_NONCE.to_vec(),
    };
    let mut auth = SaslAuthScramSha256::new(creds);

    let client_first = sha256_respond(&mut auth, SaslResume::Start);
    let client_first = String::from_utf8(client_first).expect("utf8 client-first-message");

    assert_eq!(client_first, "n,,n=a=3Db=2Cc,r=rOprNGfwEbeRWgbNEkqO");
}

#[test]
fn scram_sha_256_runs_under_the_plain_name_and_names_its_failures() {
    let auth = SaslAuthScramSha256::new(sha256_creds());

    assert_eq!(auth.mechanism(), SaslMechanism::ScramSha256);
    assert_eq!(
        SaslAuthScramSha256Error::ServerError("invalid-proof".to_string()).to_string(),
        "SASL SCRAM-SHA-256 failed: server error: invalid-proof",
    );
    assert_eq!(
        SaslAuthScramSha256Error::NonceMismatch.to_string(),
        "SASL SCRAM-SHA-256 failed: server nonce does not start with client nonce",
    );
}

#[test]
fn scram_sha_256_a_wrong_password_changes_the_proof_and_fails_the_signature() {
    let mut auth = SaslAuthScramSha256::new(SaslScramSha256 {
        password: "pencils".to_string(),
        ..sha256_creds()
    });

    let _ = sha256_respond(&mut auth, SaslResume::Start);
    let client_final = sha256_respond(&mut auth, SaslResume::Challenge(SHA256_SERVER_FIRST.as_bytes()));

    assert_ne!(client_final, SHA256_CLIENT_FINAL.as_bytes());
    assert!(matches!(
        auth.resume(SaslResume::Challenge(SHA256_SERVER_FINAL.as_bytes())),
        SaslCoroutineState::Complete(Err(SaslAuthScramSha256Error::ServerSignatureMismatch)),
    ));
}

#[test]
fn scram_sha_256_the_password_is_prepared_before_the_key_is_derived() {
    let mut auth = SaslAuthScramSha256::new(SaslScramSha256 {
        password: "pen\u{00ad}cil".to_string(),
        ..sha256_creds()
    });

    assert_eq!(sha256_respond(&mut auth, SaslResume::Start), SHA256_CLIENT_FIRST.as_bytes());

    let client_final = sha256_respond(&mut auth, SaslResume::Challenge(SHA256_SERVER_FIRST.as_bytes()));
    assert_eq!(client_final, SHA256_CLIENT_FINAL.as_bytes());
}

#[test]
fn scram_sha_256_the_username_is_prepared_before_it_is_escaped() {
    let mut auth = SaslAuthScramSha256::new(SaslScramSha256 {
        username: "us\u{00ad}er".to_string(),
        ..sha256_creds()
    });

    assert_eq!(sha256_respond(&mut auth, SaslResume::Start), SHA256_CLIENT_FIRST.as_bytes());
}

#[test]
fn scram_sha_256_credentials_saslprep_refuses_fail_the_start() {
    let mut auth = SaslAuthScramSha256::new(SaslScramSha256 {
        password: "pen\u{e000}cil".to_string(),
        ..sha256_creds()
    });

    let SaslCoroutineState::Complete(Err(err)) = auth.resume(SaslResume::Start) else {
        panic!("a password carrying a private use character was accepted");
    };
    assert!(matches!(err, SaslAuthScramSha256Error::InvalidCredentials(_)));
    assert_eq!(err.to_string(), "SASL SCRAM-SHA-256 failed: SASLprep failed: prohibited character U+E000");
}
