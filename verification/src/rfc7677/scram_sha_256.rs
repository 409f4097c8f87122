//! The SCRAM-SHA-256 mechanism (RFC 7677), the SHA-256 profile of the
//! SCRAM family (RFC 5802).
//!
//! Four steps, the last of which is the point of the mechanism: the
//! client proves it knows the password without sending it, and the
//! server proves the same in return. An exchange ending before the
//! server signature was verified is a failure, which is why
//! [`SaslResume::PeerFinished`] arriving early completes
//! [`SaslAuthScramSha256Error::ServerSignatureNotVerified`].
//!
//! [`SaslAuthScramSha256`] runs the exchange without channel binding:
//! the client advertises `n` in its GS2 header, so the
//! client-final-message carries `c=biws`, the base64 of that header.
//! The bound `-PLUS` exchange is `SaslScram<Sha256>` from
//! [`crate::rfc5802`], whose credentials carry the binding.
//!
//! The last response is an empty acknowledgement of the server-final
//! message. A protocol whose framing already ended the exchange feeds
//! that message as a challenge and then drops the empty response rather
//! than writing it.

use hmac::Mac;
use sha2::Digest;
use vstd::prelude::*;

use crate::text::{concat, owned};
use crate::mechanism::SaslMechanism;
use crate::rfc4013::SaslPrepError;
use crate::coroutine::{step_view, SaslCoroutine, SaslCoroutineState, SaslResume, SaslYield};
use crate::rfc5802::{
    spec_scram_initial, spec_scram_step, SaslScram, SaslScramChannelBinding, SaslScramCreds,
    SaslScramDigest, SaslScramError, SaslScramErrorView, SaslScramView,
};

verus! {

/// What PBKDF2-HMAC-SHA-256 derives, 32 bytes long.
pub uninterp spec fn spec_pbkdf2_hmac_sha256(password: Seq<u8>, salt: Seq<u8>, rounds: u32) -> Seq<u8>;

/// What HMAC-SHA-256 computes.
pub uninterp spec fn spec_hmac_sha256(key: Seq<u8>, data: Seq<u8>) -> Seq<u8>;

/// What SHA-256 computes.
pub uninterp spec fn spec_sha256(data: Seq<u8>) -> Seq<u8>;

/// `pbkdf2::pbkdf2_hmac_array::<sha2::Sha256, 32>`: the 32-byte key
/// PBKDF2-HMAC-SHA-256 derives from the password, the salt and the
/// round count.
#[verifier::external_body]
fn pbkdf2_hmac_sha256(password: &[u8], salt: &[u8], rounds: u32) -> (key: Vec<u8>)
    ensures
        key@ == spec_pbkdf2_hmac_sha256(password@, salt@, rounds),
        key@.len() == 32,
{
    pbkdf2::pbkdf2_hmac_array::<::sha2::Sha256, 32>(password, salt, rounds).to_vec()
}

/// `hmac::Hmac::<sha2::Sha256>`, keyed with `key` and fed `data`: the
/// 32-byte HMAC-SHA-256. Keying accepts a key of any length.
#[verifier::external_body]
fn hmac_sha256(key: &[u8], data: &[u8]) -> (mac: Vec<u8>)
    ensures
        mac@ == spec_hmac_sha256(key@, data@),
        mac@.len() == 32,
{
    <hmac::Hmac<::sha2::Sha256> as Mac>::new_from_slice(key).expect("HMAC accepts any key length").chain_update(
        data,
    ).finalize().into_bytes().to_vec()
}

/// `sha2::Sha256::digest`: the 32-byte SHA-256 of the data.
#[verifier::external_body]
fn sha256_digest(data: &[u8]) -> (digest: Vec<u8>)
    ensures
        digest@ == spec_sha256(data@),
        digest@.len() == 32,
{
    ::sha2::Sha256::digest(data).to_vec()
}

/// The SHA-256 digest, as the SCRAM-SHA-256 profile runs it.
pub struct Sha256;

impl SaslScramDigest for Sha256 {
    open spec fn spec_mechanism() -> SaslMechanism {
        SaslMechanism::ScramSha256
    }

    open spec fn spec_mechanism_plus() -> SaslMechanism {
        SaslMechanism::ScramSha256Plus
    }

    open spec fn spec_pbkdf2(password: Seq<u8>, salt: Seq<u8>, rounds: u32) -> Seq<u8> {
        spec_pbkdf2_hmac_sha256(password, salt, rounds)
    }

    open spec fn spec_hmac(key: Seq<u8>, data: Seq<u8>) -> Seq<u8> {
        spec_hmac_sha256(key, data)
    }

    open spec fn spec_hash(data: Seq<u8>) -> Seq<u8> {
        spec_sha256(data)
    }

    fn mechanism() -> (m: SaslMechanism) {
        SaslMechanism::ScramSha256
    }

    fn mechanism_plus() -> (m: SaslMechanism) {
        SaslMechanism::ScramSha256Plus
    }

    fn pbkdf2(password: &[u8], salt: &[u8], rounds: u32) -> (key: Vec<u8>) {
        pbkdf2_hmac_sha256(password, salt, rounds)
    }

    fn hmac(key: &[u8], data: &[u8]) -> (mac: Vec<u8>) {
        hmac_sha256(key, data)
    }

    fn hash(data: &[u8]) -> (digest: Vec<u8>) {
        sha256_digest(data)
    }
}

/// Failure causes of the SCRAM-SHA-256 exchange.
#[derive(Clone, Debug)]
pub enum SaslAuthScramSha256Error {
    /// A server message was not valid UTF-8.
    InvalidEncoding,
    /// The server-first-message carried no `r=` nonce.
    MissingNonce,
    /// The server-first-message carried no `s=` salt.
    MissingSalt,
    /// The server-first-message carried no `i=` iteration count.
    MissingIterations,
    /// The `i=` iteration count did not parse as an integer.
    InvalidIterationCount,
    /// A base64 value in a server message failed to decode.
    InvalidBase64,
    /// The server nonce did not extend the client nonce, so the server
    /// is replaying another exchange.
    NonceMismatch,
    /// The server-final-message carried neither `v=` nor `e=`.
    InvalidServerFinal,
    /// The server-final-message reported an `e=` error.
    ServerError(String),
    /// The `v=` signature did not match the locally computed one, so
    /// the server does not know the password.
    ServerSignatureMismatch,
    /// The peer ended the exchange before the server proved itself.
    ServerSignatureNotVerified,
    /// The mechanism was resumed with a challenge it does not expect,
    /// or out of order.
    UnexpectedChallenge,
    /// SASLprep refused the username or the password.
    InvalidCredentials(SaslPrepError),
}

impl View for SaslAuthScramSha256Error {
    type V = SaslScramErrorView;

    open spec fn view(&self) -> SaslScramErrorView {
        match self {
            SaslAuthScramSha256Error::InvalidEncoding => SaslScramErrorView::InvalidEncoding,
            SaslAuthScramSha256Error::MissingNonce => SaslScramErrorView::MissingNonce,
            SaslAuthScramSha256Error::MissingSalt => SaslScramErrorView::MissingSalt,
            SaslAuthScramSha256Error::MissingIterations => SaslScramErrorView::MissingIterations,
            SaslAuthScramSha256Error::InvalidIterationCount => SaslScramErrorView::InvalidIterationCount,
            SaslAuthScramSha256Error::InvalidBase64 => SaslScramErrorView::InvalidBase64,
            SaslAuthScramSha256Error::NonceMismatch => SaslScramErrorView::NonceMismatch,
            SaslAuthScramSha256Error::InvalidServerFinal => SaslScramErrorView::InvalidServerFinal,
            SaslAuthScramSha256Error::ServerError(text) => SaslScramErrorView::ServerError(text@),
            SaslAuthScramSha256Error::ServerSignatureMismatch => SaslScramErrorView::ServerSignatureMismatch,
            SaslAuthScramSha256Error::ServerSignatureNotVerified => SaslScramErrorView::ServerSignatureNotVerified,
            SaslAuthScramSha256Error::UnexpectedChallenge => SaslScramErrorView::UnexpectedChallenge,
            SaslAuthScramSha256Error::InvalidCredentials(e) => SaslScramErrorView::InvalidCredentials(*e),
        }
    }
}

impl SaslAuthScramSha256Error {
    /// The message describing the failure.
    pub open spec fn spec_message(&self) -> Seq<char> {
        match self {
            SaslAuthScramSha256Error::InvalidEncoding => "SASL SCRAM-SHA-256 failed: invalid server message encoding"@,
            SaslAuthScramSha256Error::MissingNonce => "SASL SCRAM-SHA-256 failed: server-first-message missing nonce"@,
            SaslAuthScramSha256Error::MissingSalt => "SASL SCRAM-SHA-256 failed: server-first-message missing salt"@,
            SaslAuthScramSha256Error::MissingIterations => "SASL SCRAM-SHA-256 failed: server-first-message missing iteration count"@,
            SaslAuthScramSha256Error::InvalidIterationCount => "SASL SCRAM-SHA-256 failed: invalid iteration count"@,
            SaslAuthScramSha256Error::InvalidBase64 => "SASL SCRAM-SHA-256 failed: invalid base64 in server message"@,
            SaslAuthScramSha256Error::NonceMismatch => "SASL SCRAM-SHA-256 failed: server nonce does not start with client nonce"@,
            SaslAuthScramSha256Error::InvalidServerFinal => "SASL SCRAM-SHA-256 failed: invalid server-final-message"@,
            SaslAuthScramSha256Error::ServerError(text) => "SASL SCRAM-SHA-256 failed: server error: "@ + text@,
            SaslAuthScramSha256Error::ServerSignatureMismatch => "SASL SCRAM-SHA-256 failed: server signature mismatch"@,
            SaslAuthScramSha256Error::ServerSignatureNotVerified => "SASL SCRAM-SHA-256 failed: exchange ended before the server signature was verified"@,
            SaslAuthScramSha256Error::UnexpectedChallenge => "SASL SCRAM-SHA-256 failed: unexpected challenge"@,
            SaslAuthScramSha256Error::InvalidCredentials(e) => "SASL SCRAM-SHA-256 failed: "@ + e.spec_message(),
        }
    }

    /// The message describing the failure, as the error's display text.
    pub fn to_string(&self) -> (message: String)
        ensures
            message@ == self.spec_message(),
    {
        match self {
            SaslAuthScramSha256Error::InvalidEncoding => owned("SASL SCRAM-SHA-256 failed: invalid server message encoding"),
            SaslAuthScramSha256Error::MissingNonce => owned("SASL SCRAM-SHA-256 failed: server-first-message missing nonce"),
            SaslAuthScramSha256Error::MissingSalt => owned("SASL SCRAM-SHA-256 failed: server-first-message missing salt"),
            SaslAuthScramSha256Error::MissingIterations => owned("SASL SCRAM-SHA-256 failed: server-first-message missing iteration count"),
            SaslAuthScramSha256Error::InvalidIterationCount => owned("SASL SCRAM-SHA-256 failed: invalid iteration count"),
            SaslAuthScramSha256Error::InvalidBase64 => owned("SASL SCRAM-SHA-256 failed: invalid base64 in server message"),
            SaslAuthScramSha256Error::NonceMismatch => owned("SASL SCRAM-SHA-256 failed: server nonce does not start with client nonce"),
            SaslAuthScramSha256Error::InvalidServerFinal => owned("SASL SCRAM-SHA-256 failed: invalid server-final-message"),
            SaslAuthScramSha256Error::ServerError(text) => concat("SASL SCRAM-SHA-256 failed: server error: ", text.as_str()),
            SaslAuthScramSha256Error::ServerSignatureMismatch => owned("SASL SCRAM-SHA-256 failed: server signature mismatch"),
            SaslAuthScramSha256Error::ServerSignatureNotVerified => owned("SASL SCRAM-SHA-256 failed: exchange ended before the server signature was verified"),
            SaslAuthScramSha256Error::UnexpectedChallenge => owned("SASL SCRAM-SHA-256 failed: unexpected challenge"),
            SaslAuthScramSha256Error::InvalidCredentials(e) => {
                let reason = e.to_string();
                concat("SASL SCRAM-SHA-256 failed: ", reason.as_str())
            },
        }
    }
}

/// The same failure, named by this mechanism.
fn from_family(err: SaslScramError) -> (mapped: SaslAuthScramSha256Error)
    ensures
        mapped@ == err@,
{
    match err {
        SaslScramError::InvalidEncoding => SaslAuthScramSha256Error::InvalidEncoding,
        SaslScramError::MissingNonce => SaslAuthScramSha256Error::MissingNonce,
        SaslScramError::MissingSalt => SaslAuthScramSha256Error::MissingSalt,
        SaslScramError::MissingIterations => SaslAuthScramSha256Error::MissingIterations,
        SaslScramError::InvalidIterationCount => SaslAuthScramSha256Error::InvalidIterationCount,
        SaslScramError::InvalidBase64 => SaslAuthScramSha256Error::InvalidBase64,
        SaslScramError::NonceMismatch => SaslAuthScramSha256Error::NonceMismatch,
        SaslScramError::InvalidServerFinal => SaslAuthScramSha256Error::InvalidServerFinal,
        SaslScramError::ServerError(text) => SaslAuthScramSha256Error::ServerError(text),
        SaslScramError::ServerSignatureMismatch => SaslAuthScramSha256Error::ServerSignatureMismatch,
        SaslScramError::ServerSignatureNotVerified => SaslAuthScramSha256Error::ServerSignatureNotVerified,
        SaslScramError::UnexpectedChallenge => SaslAuthScramSha256Error::UnexpectedChallenge,
        SaslScramError::InvalidCredentials(e) => SaslAuthScramSha256Error::InvalidCredentials(e),
    }
}

/// SCRAM-SHA-256 mechanism credentials (RFC 7677, RFC 5802).
///
/// Salted password-based scheme; the password never leaves the client,
/// and the struct has no `Debug` so that it cannot reach a log either.
#[derive(Clone)]
pub struct SaslScramSha256 {
    /// The account username.
    pub username: String,
    /// The password, never sent on the wire.
    pub password: String,
    /// The client nonce, printable ASCII without commas.
    ///
    /// RFC 5802 section 5.1 recommends at least 18 bytes of
    /// cryptographic randomness; the caller supplies it, since an
    /// I/O-free coroutine cannot generate randomness.
    pub nonce: Vec<u8>,
}

/// The family credentials these credentials run as: no channel binding.
pub open spec fn spec_family_creds(creds: SaslScramSha256) -> SaslScramCreds {
    SaslScramCreds {
        username: creds.username,
        password: creds.password,
        nonce: creds.nonce,
        channel_binding: SaslScramChannelBinding::Unsupported,
    }
}

/// I/O-free SASL SCRAM-SHA-256 mechanism, without channel binding.
pub struct SaslAuthScramSha256 {
    scram: SaslScram<Sha256>,
}

impl View for SaslAuthScramSha256 {
    type V = SaslScramView;

    closed spec fn view(&self) -> SaslScramView {
        self.scram@
    }
}

impl SaslAuthScramSha256 {
    /// Builds the mechanism from its credentials, whose nonce the
    /// caller supplied.
    ///
    /// An I/O-free mechanism cannot generate randomness itself, so the
    /// caller owns that decision and the exchange stays
    /// deterministically testable.
    pub fn new(creds: SaslScramSha256) -> (auth: Self)
        ensures
            auth@ == spec_scram_initial::<Sha256>(spec_family_creds(creds)),
    {
        let family = SaslScramCreds {
            username: creds.username,
            password: creds.password,
            nonce: creds.nonce,
            channel_binding: SaslScramChannelBinding::Unsupported,
        };
        SaslAuthScramSha256 { scram: SaslScram::new(family) }
    }
}

impl SaslCoroutine for SaslAuthScramSha256 {
    type Error = SaslAuthScramSha256Error;

    fn mechanism(&self) -> (m: SaslMechanism)
        ensures
            m == self@.mechanism,
    {
        self.scram.mechanism()
    }

    fn resume(&mut self, arg: SaslResume<'_>) -> (state: SaslCoroutineState<SaslYield, Result<(), SaslAuthScramSha256Error>>)
        ensures
            (final(self)@, step_view(state)) == spec_scram_step::<Sha256>(old(self)@, arg),
    {
        match self.scram.resume(arg) {
            SaslCoroutineState::Yielded(request) => SaslCoroutineState::Yielded(request),
            SaslCoroutineState::Complete(Ok(())) => SaslCoroutineState::Complete(Ok(())),
            SaslCoroutineState::Complete(Err(err)) => SaslCoroutineState::Complete(Err(from_family(err))),
        }
    }
}

} // verus!
