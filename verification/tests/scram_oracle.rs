//! SCRAM-SHA-256 driven through scripted server messages, every
//! acceptance checked against a server signature computed here, from
//! the RFC 5802 primitives and the bytes the mechanism was watched
//! sending, outside the thing being checked.

use base64::engine::general_purpose::STANDARD;
use base64::Engine;
use hmac::{Hmac, Mac};
use io_sasl::coroutine::{SaslCoroutine, SaslCoroutineState, SaslResume, SaslYield};
use io_sasl::rfc5802::{SaslScram, SaslScramChannelBinding, SaslScramCreds, SaslScramError};
use io_sasl::rfc7677::scram_sha_256::Sha256;

/// The largest iteration count the scripts derive.
const MAX_ITERATIONS: u32 = 1024;

/// What the server says next.
enum Step {
    /// Arbitrary bytes where a server message belongs.
    Raw(Vec<u8>),
    /// A well-formed server-first-message the oracle assembles.
    ServerFirst {
        extension: String,
        salt: Vec<u8>,
        iterations: u8,
    },
    /// The server-final-message carrying the signature the oracle
    /// computed itself, the only one that may be accepted.
    ServerFinal,
    /// The peer ended the exchange.
    PeerFinished,
}

/// The credentials and the server's side of an exchange.
struct Script {
    username: String,
    password: String,
    nonce: Vec<u8>,
    steps: Vec<Step>,
}

/// The exchange as the oracle sees it from outside the mechanism.
struct Oracle {
    password: String,
    client_first_bare: String,
    client_nonce: String,
    server_final: Option<Vec<u8>>,
    verified: bool,
}

/// HMAC-SHA-256 as RFC 5802 uses it: `HMAC(key, data)`.
fn hmac_sha256(key: &[u8], data: &[u8]) -> Vec<u8> {
    let mut mac = <Hmac<sha2::Sha256> as Mac>::new_from_slice(key).expect("HMAC accepts any key length");
    mac.update(data);
    mac.finalize().into_bytes().to_vec()
}

/// Whether a challenge is cheap enough to feed.
fn affordable(challenge: &[u8]) -> bool {
    let Ok(challenge) = std::str::from_utf8(challenge) else {
        return true;
    };

    challenge
        .split(',')
        .filter_map(|field| field.strip_prefix("i="))
        .filter_map(|iterations| iterations.parse::<u32>().ok())
        .all(|iterations| iterations <= MAX_ITERATIONS)
}

impl Oracle {
    fn new(password: &str, client_first: &[u8]) -> Self {
        let client_first = std::str::from_utf8(client_first).expect("the client-first-message is UTF-8");
        let bare = client_first
            .strip_prefix("n,,")
            .expect("the client-first-message carries the GS2 header of a client without channel binding");
        let (_, nonce) = bare.split_once(",r=").expect("the client-first-message carries a nonce");

        Self {
            password: password.to_string(),
            client_first_bare: bare.to_string(),
            client_nonce: nonce.to_string(),
            server_final: None,
            verified: false,
        }
    }

    fn server_first(&self, extension: &str, salt: &[u8], iterations: u8) -> Vec<u8> {
        let nonce = &self.client_nonce;
        let salt = STANDARD.encode(salt);
        let iterations = u32::from(iterations);

        format!("r={nonce}{extension},s={salt},i={iterations}").into_bytes()
    }

    fn server_final(&self) -> Vec<u8> {
        self.server_final.clone().unwrap_or_default()
    }

    fn responded(&mut self, challenge: &[u8], payload: &[u8]) {
        if payload.is_empty() {
            assert_eq!(
                Some(challenge),
                self.server_final.as_deref(),
                "the mechanism verified a server signature that is not the one RFC 5802 computes",
            );

            self.verified = true;
            return;
        }

        self.server_final = self
            .server_signature(challenge, payload)
            .map(|signature| format!("v={signature}").into_bytes());
    }

    fn completed(&self, completed: Result<(), SaslScramError>) {
        if completed.is_err() {
            return;
        }

        assert!(
            self.verified,
            "the mechanism completed an exchange in which no server signature was ever verified",
        );
    }

    fn server_signature(&self, server_first: &[u8], client_final: &[u8]) -> Option<String> {
        let server_first = std::str::from_utf8(server_first).ok()?;
        let client_final = std::str::from_utf8(client_final).ok()?;
        let (without_proof, _) = client_final.rsplit_once(",p=")?;

        let mut salt = None;
        let mut iterations = None;

        for field in server_first.split(',') {
            if let Some(s) = field.strip_prefix("s=") {
                salt = STANDARD.decode(s).ok();
            } else if let Some(i) = field.strip_prefix("i=") {
                iterations = i.parse::<u32>().ok();
            }
        }

        let client_first_bare = &self.client_first_bare;
        let auth_message = format!("{client_first_bare},{server_first},{without_proof}");

        let mut salted_password = [0u8; 32];
        let password = self.password.as_bytes();
        pbkdf2::pbkdf2_hmac::<sha2::Sha256>(password, &salt?, iterations?, &mut salted_password);

        let server_key = hmac_sha256(&salted_password, b"Server Key");

        Some(STANDARD.encode(hmac_sha256(&server_key, auth_message.as_bytes())))
    }
}

impl Script {
    /// Drives the mechanism through the scripted server messages,
    /// checking every acceptance against the oracle's own arithmetic,
    /// and reports whether the exchange ended in success.
    fn run(&self) -> bool {
        let creds = SaslScramCreds {
            username: self.username.clone(),
            password: self.password.clone(),
            nonce: self.nonce.clone(),
            channel_binding: SaslScramChannelBinding::Unsupported,
        };

        let mut auth = SaslScram::<Sha256>::new(creds);

        let started = auth.resume(SaslResume::Start);

        let SaslCoroutineState::Yielded(SaslYield::Respond(client_first)) = started else {
            panic!("SCRAM-SHA-256 answered Start with {started:?} instead of a response");
        };

        let mut oracle = Oracle::new(&self.password, &client_first);

        for step in &self.steps {
            let challenge = match step {
                Step::Raw(bytes) => bytes.clone(),
                Step::ServerFirst {
                    extension,
                    salt,
                    iterations,
                } => oracle.server_first(extension, salt, *iterations),
                Step::ServerFinal => oracle.server_final(),
                Step::PeerFinished => {
                    return match auth.resume(SaslResume::PeerFinished) {
                        SaslCoroutineState::Complete(completed) => {
                            let ok = completed.is_ok();
                            oracle.completed(completed);
                            ok
                        }
                        state => panic!("PeerFinished did not end the exchange: {state:?}"),
                    };
                }
            };

            if !affordable(&challenge) {
                return false;
            }

            match auth.resume(SaslResume::Challenge(&challenge)) {
                SaslCoroutineState::Yielded(SaslYield::Respond(payload)) => oracle.responded(&challenge, &payload),
                SaslCoroutineState::Yielded(SaslYield::AwaitChallenge) => {}
                SaslCoroutineState::Complete(completed) => {
                    let ok = completed.is_ok();
                    oracle.completed(completed);
                    return ok;
                }
            }
        }

        false
    }
}

fn oracle_script(steps: Vec<Step>) -> Script {
    Script {
        username: "user".to_string(),
        password: "pencil".to_string(),
        nonce: b"rOprNGfwEbeRWgbNEkqO".to_vec(),
        steps,
    }
}

fn oracle_server_first() -> Step {
    Step::ServerFirst {
        extension: "%hvYDpWUa2RaTCAfuxFIlj)hNlF$k0".to_string(),
        salt: b"salty salt".to_vec(),
        iterations: 7,
    }
}

#[test]
fn scram_oracle_accepts_the_signature_it_computed_itself() {
    let script = oracle_script(vec![oracle_server_first(), Step::ServerFinal, Step::PeerFinished]);

    assert!(script.run());
}

#[test]
fn scram_oracle_sees_no_success_without_the_server_final_message() {
    let script = oracle_script(vec![oracle_server_first(), Step::PeerFinished]);

    assert!(!script.run());

    let script = oracle_script(vec![Step::PeerFinished]);

    assert!(!script.run());
}

#[test]
fn scram_oracle_sees_a_forged_signature_refused() {
    let forged = format!("v={}", STANDARD.encode([0u8; 32])).into_bytes();
    let script = oracle_script(vec![oracle_server_first(), Step::Raw(forged), Step::ServerFinal, Step::PeerFinished]);

    assert!(!script.run());
}

#[test]
fn scram_oracle_sees_garbage_answered_or_refused_never_accepted() {
    let raws: Vec<Vec<u8>> = vec![
        vec![],
        vec![0xff, 0xfe],
        b"r=,s=,i=".to_vec(),
        b"e=other-error".to_vec(),
        b"v=".to_vec(),
        b"r=rOprNGfwEbeRWgbNEkqO,s=AAAA,i=0".to_vec(),
    ];

    for raw in raws {
        let script = oracle_script(vec![Step::Raw(raw.clone()), Step::Raw(raw), Step::PeerFinished]);

        assert!(!script.run());
    }
}

#[test]
fn scram_oracle_holds_for_a_username_with_separators_and_an_odd_nonce() {
    let script = Script {
        username: "a=b,c".to_string(),
        password: "p\u{00e4}ss".to_string(),
        nonce: vec![b'x', 0xff, b'y'],
        steps: vec![
            Step::ServerFirst {
                extension: "srv".to_string(),
                salt: vec![0, 1, 2, 3],
                iterations: 1,
            },
            Step::ServerFinal,
            Step::PeerFinished,
        ],
    };

    assert!(script.run());
}
