//! The CRAM-MD5 mechanism (RFC 2195).
//!
//! The one mechanism here the server speaks first in. It sends a
//! challenge, conventionally a message-id built from a timestamp and
//! the server name, and the client answers with its username, a space,
//! and the HMAC-MD5 of that challenge keyed by its shared secret, in
//! lowercase hexadecimal. The secret never travels.
//!
//! It is a legacy mechanism kept for servers that offer nothing better:
//! the server has to store a plaintext-equivalent secret, and MD5 is
//! long past retirement, even though HMAC-MD5 is not broken by the
//! collision attacks that killed the bare hash.
//!
//! Being server-first is what a protocol crate has to notice: the
//! mechanism answers its first resume with [`SaslYield::AwaitChallenge`],
//! so there is no initial response to inline.

use hmac::Mac;
use vstd::prelude::*;
use vstd::utf8::*;

use crate::coroutine::{step_view, SaslCoroutine, SaslCoroutineState, SaslResume, SaslStep, SaslYield};
use crate::mechanism::SaslMechanism;
use crate::text::{owned, hex_lower, push_bytes, spec_hex_lower, spec_unhex, lemma_hex_lower_reads_back};

verus! {

broadcast use vstd::string::group_string_axioms;

/// Failure causes of the CRAM-MD5 exchange.
#[derive(Clone, Copy, Debug, PartialEq, Eq, Structural)]
pub enum SaslCramMd5Error {
    /// The mechanism was resumed with a challenge it does not expect,
    /// or out of order.
    UnexpectedChallenge,
}

impl View for SaslCramMd5Error {
    type V = SaslCramMd5Error;

    open spec fn view(&self) -> SaslCramMd5Error {
        *self
    }
}

impl SaslCramMd5Error {
    /// The message describing the failure.
    pub open spec fn spec_message(&self) -> Seq<char> {
        match self {
            SaslCramMd5Error::UnexpectedChallenge => "SASL CRAM-MD5 failed: unexpected challenge after the keyed digest"@,
        }
    }

    /// The message describing the failure, as the error's display text.
    pub fn to_string(&self) -> (message: String)
        ensures
            message@ == self.spec_message(),
    {
        match self {
            SaslCramMd5Error::UnexpectedChallenge => owned("SASL CRAM-MD5 failed: unexpected challenge after the keyed digest"),
        }
    }
}

/// CRAM-MD5 mechanism credentials (RFC 2195).
///
/// The secret keys an HMAC rather than travelling, but the server holds
/// it in a form it can key the same HMAC with, so it is as sensitive as
/// a password; the struct has no `Debug` so that it cannot reach a log.
#[derive(Clone)]
pub struct SaslCramMd5Creds {
    /// The account username.
    pub username: String,
    /// The shared secret keying the digest.
    pub secret: String,
}

/// What HMAC-MD5 computes.
pub uninterp spec fn spec_hmac_md5(key: Seq<u8>, data: Seq<u8>) -> Seq<u8>;

/// `hmac::Hmac::<md5::Md5>`, keyed with `key` and fed `data`: the
/// 16-byte HMAC-MD5. Keying accepts a key of any length.
#[verifier::external_body]
fn hmac_md5(key: &[u8], data: &[u8]) -> (mac: Vec<u8>)
    ensures
        mac@ == spec_hmac_md5(key@, data@),
        mac@.len() == 16,
{
    <hmac::Hmac<md5::Md5> as Mac>::new_from_slice(key).expect("HMAC accepts any key length").chain_update(
        data,
    ).finalize().into_bytes().to_vec()
}

/// The response to a challenge: the username, a space, and the keyed
/// digest in lowercase hexadecimal.
pub open spec fn spec_cram_md5_response(creds: SaslCramMd5Creds, challenge: Seq<u8>) -> Seq<u8> {
    encode_utf8(creds.username@) + seq![0x20u8] + spec_hex_lower(
        spec_hmac_md5(encode_utf8(creds.secret@), challenge),
    )
}

/// Where a CRAM-MD5 exchange stands.
#[derive(Clone, Copy, Debug, PartialEq, Eq, Structural)]
pub enum State {
    /// Nothing has been exchanged yet.
    AwaitChallenge,
    /// The server challenge is awaited.
    SendDigest,
    /// The keyed digest was sent.
    Done,
}

/// What one resume of a CRAM-MD5 exchange yields or completes with: a
/// wait for the server's challenge on start, the keyed digest answering
/// it, success whenever the peer ends the exchange, a refusal of
/// anything out of order.
pub open spec fn spec_cram_md5_step(creds: SaslCramMd5Creds, state: State, arg: SaslResume) -> (State, SaslStep<SaslCramMd5Error>) {
    match (state, arg) {
        (_, SaslResume::PeerFinished) => (state, SaslStep::Succeed),
        (State::AwaitChallenge, SaslResume::Start) => (State::SendDigest, SaslStep::AwaitChallenge),
        (State::SendDigest, SaslResume::Challenge(challenge)) => (
            State::Done,
            SaslStep::Respond(spec_cram_md5_response(creds, challenge@)),
        ),
        (_, _) => (state, SaslStep::Fail(SaslCramMd5Error::UnexpectedChallenge)),
    }
}

/// I/O-free SASL CRAM-MD5 mechanism.
pub struct SaslCramMd5 {
    creds: SaslCramMd5Creds,
    state: State,
}

impl SaslCramMd5 {
    /// The credentials the mechanism answers with.
    pub closed spec fn creds(&self) -> SaslCramMd5Creds {
        self.creds
    }

    /// Where the exchange stands.
    pub closed spec fn state(&self) -> State {
        self.state
    }

    /// Builds the mechanism from its credentials.
    pub fn new(creds: SaslCramMd5Creds) -> (auth: Self)
        ensures
            auth.creds() == creds,
            auth.state() == State::AwaitChallenge,
    {
        SaslCramMd5 { creds, state: State::AwaitChallenge }
    }

    /// The response to a challenge: the username, a space, and the
    /// keyed digest in lowercase hexadecimal.
    fn digest(&self, challenge: &[u8]) -> (response: Vec<u8>)
        ensures
            response@ == spec_cram_md5_response(self.creds, challenge@),
    {
        let mac = hmac_md5(self.creds.secret.as_str().as_bytes(), challenge);
        let mut response: Vec<u8> = Vec::new();
        push_bytes(&mut response, self.creds.username.as_str().as_bytes());
        response.push(0x20);
        let hex = hex_lower(mac.as_slice());
        push_bytes(&mut response, hex.as_slice());
        response
    }
}

impl SaslCoroutine for SaslCramMd5 {
    type Error = SaslCramMd5Error;

    fn mechanism(&self) -> (m: SaslMechanism)
        ensures
            m == SaslMechanism::CramMd5,
    {
        SaslMechanism::CramMd5
    }

    fn resume(&mut self, arg: SaslResume<'_>) -> (state: SaslCoroutineState<SaslYield, Result<(), SaslCramMd5Error>>)
        ensures
            final(self).creds() == old(self).creds(),
            (final(self).state(), step_view(state)) == spec_cram_md5_step(old(self).creds(), old(self).state(), arg),
    {
        match (self.state, arg) {
            (_, SaslResume::PeerFinished) => SaslCoroutineState::Complete(Ok(())),
            // NOTE: the only server-first mechanism here, so the first
            // resume asks for the challenge instead of answering with
            // an initial response.
            (State::AwaitChallenge, SaslResume::Start) => {
                self.state = State::SendDigest;
                SaslCoroutineState::Yielded(SaslYield::AwaitChallenge)
            },
            (State::SendDigest, SaslResume::Challenge(challenge)) => {
                let response = self.digest(challenge);
                self.state = State::Done;
                SaslCoroutineState::Yielded(SaslYield::Respond(response))
            },
            (_, _) => SaslCoroutineState::Complete(Err(SaslCramMd5Error::UnexpectedChallenge)),
        }
    }
}

/// The edges of a CRAM-MD5 exchange: the one server-first mechanism, a
/// fresh exchange answers its first resume by waiting for the challenge
/// instead of responding, the challenge is answered with the keyed
/// digest, the peer ending the exchange completes it successfully
/// wherever it stands and nothing else does, and a challenge before the
/// exchange started or after the digest went out is refused as
/// unexpected.
pub proof fn lemma_cram_md5_edges(creds: SaslCramMd5Creds, state: State, arg: SaslResume, challenge: &[u8])
    ensures
        spec_cram_md5_step(creds, State::AwaitChallenge, SaslResume::Start) == (
            State::SendDigest,
            SaslStep::<SaslCramMd5Error>::AwaitChallenge,
        ),
        spec_cram_md5_step(creds, State::SendDigest, SaslResume::Challenge(challenge)) == (
            State::Done,
            SaslStep::<SaslCramMd5Error>::Respond(spec_cram_md5_response(creds, challenge@)),
        ),
        spec_cram_md5_step(creds, state, SaslResume::PeerFinished) == (state, SaslStep::<SaslCramMd5Error>::Succeed),
        spec_cram_md5_step(creds, state, arg).1 is Succeed ==> arg is PeerFinished,
        spec_cram_md5_step(creds, State::AwaitChallenge, SaslResume::Challenge(challenge)).1 == SaslStep::Fail(
            SaslCramMd5Error::UnexpectedChallenge,
        ),
        spec_cram_md5_step(creds, State::Done, SaslResume::Challenge(challenge)).1 == SaslStep::Fail(
            SaslCramMd5Error::UnexpectedChallenge,
        ),
{
}

/// The answer to a server challenge is the username, one space, and
/// lowercase hexadecimal that reads back as the HMAC-MD5 of exactly that
/// challenge keyed by the whole UTF-8 secret, no prefix or other part of
/// it: 32 hexadecimal digits, since the digest is 16 bytes.
pub proof fn lemma_cram_md5_answer_is_keyed_by_the_whole_secret(creds: SaslCramMd5Creds, challenge: &[u8])
    ensures
        ({
            let step = spec_cram_md5_step(creds, State::SendDigest, SaslResume::Challenge(challenge));
            let user = encode_utf8(creds.username@);
            let mac = spec_hmac_md5(encode_utf8(creds.secret@), challenge@);
            step.1 is Respond && {
                let r = step.1->Respond_0;
                &&& r.take(user.len() as int) == user
                &&& r[user.len() as int] == 0x20u8
                &&& spec_unhex(r.skip(user.len() as int + 1)) == mac
                &&& r.len() == user.len() + 1 + 2 * mac.len()
            }
        }),
{
    let user = encode_utf8(creds.username@);
    let mac = spec_hmac_md5(encode_utf8(creds.secret@), challenge@);
    let r = spec_cram_md5_response(creds, challenge@);
    lemma_hex_lower_reads_back(mac);
    assert(r.take(user.len() as int) =~= user);
    assert(r.skip(user.len() as int + 1) =~= spec_hex_lower(mac));
}

} // verus!
