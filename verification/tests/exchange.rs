use io_sasl::coroutine::{SaslCoroutine, SaslCoroutineState, SaslResume, SaslYield};
use io_sasl::login::{SaslAuthLogin, SaslAuthLoginError};
use io_sasl::mechanism::{SaslAnonymous, SaslLogin, SaslMechanism, SaslPlain};
use io_sasl::rfc2195::cram_md5::SaslCramMd5Error;
use io_sasl::rfc4422::external::{SaslExternal, SaslExternalCreds, SaslExternalError};
use io_sasl::rfc4505::anonymous::{SaslAuthAnonymous, SaslAuthAnonymousError};
use io_sasl::rfc4616::plain::{SaslAuthPlain, SaslAuthPlainError};
use io_sasl::rfc5802::scram_sha_1::SaslScramSha1;
use io_sasl::rfc5802::{SaslScram, SaslScramChannelBinding, SaslScramChannelBindingKind, SaslScramCreds, SaslScramError};
use io_sasl::rfc7628::oauthbearer::{SaslOauthbearer, SaslOauthbearerCreds, SaslOauthbearerError};
use io_sasl::rfc7677::scram_sha_256::Sha256;
use io_sasl::scram_sha_512::SaslScramSha512;
use io_sasl::xoauth2::{SaslXoauth2, SaslXoauth2Creds, SaslXoauth2Error};

/// An error rendered to the message a protocol crate surfaces.
trait Describe {
    fn describe(&self) -> String;
}

impl Describe for SaslAuthAnonymousError {
    fn describe(&self) -> String {
        self.to_string()
    }
}

impl Describe for SaslExternalError {
    fn describe(&self) -> String {
        self.to_string()
    }
}

impl Describe for SaslAuthLoginError {
    fn describe(&self) -> String {
        self.to_string()
    }
}

impl Describe for SaslAuthPlainError {
    fn describe(&self) -> String {
        self.to_string()
    }
}

impl Describe for SaslOauthbearerError {
    fn describe(&self) -> String {
        self.to_string()
    }
}

impl Describe for SaslXoauth2Error {
    fn describe(&self) -> String {
        self.to_string()
    }
}

impl Describe for SaslScramError {
    fn describe(&self) -> String {
        self.to_string()
    }
}

impl Describe for SaslCramMd5Error {
    fn describe(&self) -> String {
        self.to_string()
    }
}

/// One mechanism driven through the object-safe half of its contract.
trait SaslExchange {
    fn tag(&self) -> SaslMechanism;

    fn step(&mut self, arg: SaslResume<'_>) -> SaslCoroutineState<SaslYield, Result<(), String>>;
}

impl<M> SaslExchange for M
where
    M: SaslCoroutine,
    M::Error: Describe,
{
    fn tag(&self) -> SaslMechanism {
        self.mechanism()
    }

    fn step(&mut self, arg: SaslResume<'_>) -> SaslCoroutineState<SaslYield, Result<(), String>> {
        match self.resume(arg) {
            SaslCoroutineState::Yielded(yielded) => SaslCoroutineState::Yielded(yielded),
            SaslCoroutineState::Complete(completed) => {
                SaslCoroutineState::Complete(completed.map_err(|err| err.describe()))
            }
        }
    }
}

#[derive(Debug)]
enum Expect {
    Responds(&'static [u8]),
    CompletesOk,
}

type Exchange = (Box<dyn SaslExchange>, Vec<(SaslResume<'static>, Expect)>);

const EXTRA_CHALLENGES: usize = 3;

const CLIENT_NONCE: &[u8] = b"rOprNGfwEbeRWgbNEkqO";
const CLIENT_FIRST: &[u8] = b"n,,n=user,r=rOprNGfwEbeRWgbNEkqO";
const SERVER_FIRST: &[u8] =
    b"r=rOprNGfwEbeRWgbNEkqO%hvYDpWUa2RaTCAfuxFIlj)hNlF$k0,s=W22ZaJ0SNY7soEsUEjb6gQ==,i=4096";
const CLIENT_FINAL: &[u8] = b"c=biws,r=rOprNGfwEbeRWgbNEkqO%hvYDpWUa2RaTCAfuxFIlj)hNlF$k0,p=dHzbZapWIk4jUhN+Ute9ytag9zjfMHgsqmmiz7AndVQ=";
const SERVER_FINAL: &[u8] = b"v=6rriTRBi23WpRR/wtup+mMhUZUn/dB5nLTJRsjl95G4=";
const SHA512_CLIENT_FINAL: &[u8] = b"c=biws,r=rOprNGfwEbeRWgbNEkqO%hvYDpWUa2RaTCAfuxFIlj)hNlF$k0,p=gMGXRcevScNtxZ6/8lQYpGtnsNAc3mGcmNomv+xnoOMw+3R2xNJdMNnzMlTN8PPC6wdp6dybEmDYXYTxwnYPJQ==";
const SHA512_SERVER_FINAL: &[u8] =
    b"v=ZQnYEgWQMFmmsM8aQMF0nDDCy/AgCzkwk8CmMZYcMg0vSVlKDanekLtifDSeVGT4+5ZxXnJq199RVG2rR7N7Zw==";
const BOUND_CLIENT_FIRST: &[u8] = b"p=tls-exporter,,n=user,r=rOprNGfwEbeRWgbNEkqO";
const BOUND_CLIENT_FINAL: &[u8] = b"c=cD10bHMtZXhwb3J0ZXIsLAABAgMEBQYH,r=rOprNGfwEbeRWgbNEkqO%hvYDpWUa2RaTCAfuxFIlj)hNlF$k0,p=QAd7eifevIt6X/f2Cv9W4HLXcFLw7OayX8dQ2scckyI=";
const BOUND_SERVER_FINAL: &[u8] = b"v=8dbpxwe4DaC4ESpY8u6aAvFeP2ks9+LClF/ADCxyWOE=";
const SHA1_CLIENT_NONCE: &[u8] = b"fyko+d2lbbFgONRv9qkxdawL";
const SHA1_CLIENT_FIRST: &[u8] = b"n,,n=user,r=fyko+d2lbbFgONRv9qkxdawL";
const SHA1_SERVER_FIRST: &[u8] = b"r=fyko+d2lbbFgONRv9qkxdawL3rfcNHYJY1ZVvWVs7j,s=QSXCR+Q6sek8bf92,i=4096";
const SHA1_CLIENT_FINAL: &[u8] = b"c=biws,r=fyko+d2lbbFgONRv9qkxdawL3rfcNHYJY1ZVvWVs7j,p=v0X8v3Bz2T0CJGbJQyF0X+HI4Ts=";
const SHA1_SERVER_FINAL: &[u8] = b"v=rmF9pqV8S7suAoZWja4dJRkFsKQ=";

fn authenticates_the_server(mechanism: SaslMechanism) -> bool {
    match mechanism {
        SaslMechanism::Anonymous => false,
        SaslMechanism::CramMd5 => false,
        SaslMechanism::External => false,
        SaslMechanism::Gssapi => false,
        SaslMechanism::Gs2Krb5 => false,
        SaslMechanism::Gs2Krb5Plus => false,
        SaslMechanism::Login => false,
        SaslMechanism::Plain => false,
        SaslMechanism::OAuthBearer => false,
        SaslMechanism::XOAuth2 => false,
        SaslMechanism::ScramSha1 => true,
        SaslMechanism::ScramSha1Plus => true,
        SaslMechanism::ScramSha256 => true,
        SaslMechanism::ScramSha256Plus => true,
        SaslMechanism::ScramSha512 => true,
        SaslMechanism::ScramSha512Plus => true,
    }
}

fn scram_creds(nonce: &[u8], channel_binding: SaslScramChannelBinding) -> SaslScramCreds {
    SaslScramCreds {
        username: "user".to_string(),
        password: "pencil".to_string(),
        nonce: nonce.to_vec(),
        channel_binding,
    }
}

fn scram_script(
    client_first: &'static [u8],
    server_first: &'static [u8],
    client_final: &'static [u8],
    server_final: &'static [u8],
) -> Vec<(SaslResume<'static>, Expect)> {
    vec![
        (SaslResume::Start, Expect::Responds(client_first)),
        (SaslResume::Challenge(server_first), Expect::Responds(client_final)),
        (SaslResume::Challenge(server_final), Expect::Responds(b"")),
        (SaslResume::PeerFinished, Expect::CompletesOk),
    ]
}

fn exchanges() -> Vec<Exchange> {
    let anonymous = SaslAnonymous {
        message: Some("alice@localhost".to_string()),
    };
    let login = SaslLogin {
        username: "alice".to_string(),
        password: "pencil".to_string(),
    };
    let plain = SaslPlain {
        authzid: None,
        authcid: "alice".to_string(),
        passwd: "pencil".to_string(),
    };
    let oauthbearer = SaslOauthbearerCreds {
        username: "user@example.com".to_string(),
        host: "server.example.com".to_string(),
        port: 143,
        token: "vF9dft4qmT".to_string(),
    };
    let xoauth2 = SaslXoauth2Creds {
        username: "someuser@example.com".to_string(),
        token: "vF9dft4qmT".to_string(),
    };
    let external = SaslExternalCreds {
        authzid: Some("alice@localhost".to_string()),
    };
    let bound = SaslScramChannelBinding::Bound {
        kind: SaslScramChannelBindingKind::TlsExporter,
        data: (0..8).collect(),
    };

    vec![
        (
            Box::new(SaslAuthAnonymous::new(anonymous)),
            vec![
                (SaslResume::Start, Expect::Responds(b"alice@localhost")),
                (SaslResume::PeerFinished, Expect::CompletesOk),
            ],
        ),
        (
            Box::new(SaslExternal::new(external)),
            vec![
                (SaslResume::Start, Expect::Responds(b"alice@localhost")),
                (SaslResume::PeerFinished, Expect::CompletesOk),
            ],
        ),
        (
            Box::new(SaslAuthLogin::new(login)),
            vec![
                (SaslResume::Start, Expect::Responds(b"alice")),
                (SaslResume::Challenge(b"Password:"), Expect::Responds(b"pencil")),
                (SaslResume::PeerFinished, Expect::CompletesOk),
            ],
        ),
        (
            Box::new(SaslAuthPlain::new(plain)),
            vec![
                (SaslResume::Start, Expect::Responds(b"\0alice\0pencil")),
                (SaslResume::PeerFinished, Expect::CompletesOk),
            ],
        ),
        (
            Box::new(SaslOauthbearer::new(oauthbearer)),
            vec![
                (
                    SaslResume::Start,
                    Expect::Responds(
                        b"n,a=user@example.com,\x01host=server.example.com\x01port=143\x01auth=Bearer vF9dft4qmT\x01\x01",
                    ),
                ),
                (SaslResume::PeerFinished, Expect::CompletesOk),
            ],
        ),
        (
            Box::new(SaslXoauth2::new(xoauth2)),
            vec![
                (
                    SaslResume::Start,
                    Expect::Responds(b"user=someuser@example.com\x01auth=Bearer vF9dft4qmT\x01\x01"),
                ),
                (SaslResume::PeerFinished, Expect::CompletesOk),
            ],
        ),
        (
            Box::new(SaslScram::<Sha256>::new(scram_creds(CLIENT_NONCE, SaslScramChannelBinding::Unsupported))),
            scram_script(CLIENT_FIRST, SERVER_FIRST, CLIENT_FINAL, SERVER_FINAL),
        ),
        (
            Box::new(SaslScramSha512::new(scram_creds(CLIENT_NONCE, SaslScramChannelBinding::Unsupported))),
            scram_script(CLIENT_FIRST, SERVER_FIRST, SHA512_CLIENT_FINAL, SHA512_SERVER_FINAL),
        ),
        (
            Box::new(SaslScram::<Sha256>::new(scram_creds(CLIENT_NONCE, bound))),
            scram_script(BOUND_CLIENT_FIRST, SERVER_FIRST, BOUND_CLIENT_FINAL, BOUND_SERVER_FINAL),
        ),
        (
            Box::new(SaslScramSha1::new(scram_creds(SHA1_CLIENT_NONCE, SaslScramChannelBinding::Unsupported))),
            scram_script(SHA1_CLIENT_FIRST, SHA1_SERVER_FIRST, SHA1_CLIENT_FINAL, SHA1_SERVER_FINAL),
        ),
    ]
}

fn mechanisms() -> impl Iterator<Item = Box<dyn SaslExchange>> {
    exchanges().into_iter().map(|(mechanism, _)| mechanism)
}

#[test]
fn every_mechanism_answers_start_with_an_initial_response() {
    for mut mechanism in mechanisms() {
        let name = mechanism.tag().as_str();

        match mechanism.step(SaslResume::Start) {
            SaslCoroutineState::Yielded(SaslYield::Respond(_)) => {}
            state => panic!("{name} has no initial response: {state:?}"),
        }
    }
}

#[test]
fn every_exchange_yields_the_payloads_its_specification_defines() {
    for (mut mechanism, script) in exchanges() {
        let name = mechanism.tag().as_str();

        for (arg, expected) in script {
            let step = mechanism.step(arg);

            match (&step, &expected) {
                (SaslCoroutineState::Yielded(SaslYield::Respond(payload)), Expect::Responds(bytes)) => {
                    assert_eq!(payload, bytes, "{name} sent an unexpected payload");
                }
                (SaslCoroutineState::Complete(Ok(())), Expect::CompletesOk) => {}
                _ => panic!("{name} was expected to {expected:?}, got {step:?}"),
            }
        }
    }
}

#[test]
fn peer_finished_completes_ok_unless_the_server_is_still_unproven() {
    for mut mechanism in mechanisms() {
        let tag = mechanism.tag();
        let name = tag.as_str();

        let _ = mechanism.step(SaslResume::Start);

        match mechanism.step(SaslResume::PeerFinished) {
            SaslCoroutineState::Complete(Ok(())) => {
                assert!(
                    !authenticates_the_server(tag),
                    "{name} accepted an exchange that ended before it verified the server"
                );
            }
            SaslCoroutineState::Complete(Err(err)) => {
                assert!(
                    authenticates_the_server(tag),
                    "{name} refused an exchange it had nothing left to verify: {err}"
                );
            }
            state => panic!("{name} did not complete on PeerFinished: {state:?}"),
        }
    }
}

#[test]
fn scram_refuses_every_exchange_ending_before_the_server_proved_itself() {
    for sent in 0..3 {
        let mut auth =
            SaslScram::<Sha256>::new(scram_creds(CLIENT_NONCE, SaslScramChannelBinding::Unsupported));

        let prefix = [SaslResume::Start, SaslResume::Challenge(SERVER_FIRST)];

        for arg in prefix.into_iter().take(sent) {
            let _ = auth.resume(arg);
        }

        let completed = auth.resume(SaslResume::PeerFinished);
        let refused = matches!(
            completed,
            SaslCoroutineState::Complete(Err(SaslScramError::ServerSignatureNotVerified)),
        );

        assert!(
            refused,
            "scram-sha-256 accepted an exchange ended after {sent} of its own messages: {completed:?}"
        );
    }
}

#[test]
fn an_extra_challenge_after_the_exchange_completes_unexpected_challenge() {
    for (mut mechanism, script) in exchanges() {
        let name = mechanism.tag().as_str();

        for (arg, _) in script {
            let _ = mechanism.step(arg);
        }

        let mut failure = None;

        for _ in 0..EXTRA_CHALLENGES {
            match mechanism.step(SaslResume::Challenge(b"{}")) {
                SaslCoroutineState::Yielded(_) => continue,
                SaslCoroutineState::Complete(Ok(())) => {
                    panic!("{name} answered a stray challenge with success")
                }
                SaslCoroutineState::Complete(Err(err)) => {
                    failure = Some(err);
                    break;
                }
            }
        }

        let err = failure.unwrap_or_else(|| panic!("{name} never refused the stray challenges"));

        assert!(
            err.contains("unexpected challenge"),
            "{name} refused the stray challenge for another reason: {err}"
        );
    }
}
