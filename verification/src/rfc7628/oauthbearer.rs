//! The OAUTHBEARER mechanism (RFC 7628).
//!
//! One message made of a GS2 header naming the authorization identity,
//! then the `host`, `port` and `auth=Bearer <token>` key/value pairs,
//! separated and terminated by `%x01` control characters (RFC 7628
//! section 3.1). The host and port describe the server being contacted
//! and let it detect a token replayed against another service.
//!
//! A rejected token is not answered by an error status: the server
//! sends a JSON error as a challenge, and the client must reply with a
//! single `%x01` so the server can end the exchange (RFC 7628 section
//! 3.2.3). The mechanism answers that challenge, then fails with the
//! JSON the server sent.

use vstd::prelude::*;
use vstd::utf8::*;

use crate::coroutine::{step_view, SaslCoroutine, SaslCoroutineState, SaslResume, SaslStep, SaslYield};
use crate::mechanism::SaslMechanism;
use crate::rfc5801::{spec_gs2_header, SaslGs2ChannelBinding};
use crate::text::{
    all_digits, concat, owned, decimal, push_bytes, spec_decimal, spec_parse_u32, spec_utf8_lossy, string_from_utf8_lossy,
    lemma_parse_u32_reads_decimal, lemma_decimal_reads_back,
};

verus! {

broadcast use vstd::string::group_string_axioms;

/// Failure causes of the OAUTHBEARER exchange.
#[derive(Clone, Debug)]
pub enum SaslOauthbearerError {
    /// The server rejected the token, describing why in a JSON
    /// challenge.
    Rejected(String),
    /// The mechanism was resumed with a challenge it does not expect,
    /// or out of order.
    UnexpectedChallenge,
}

/// [`SaslOauthbearerError`] with the JSON as characters.
pub enum SaslOauthbearerErrorView {
    Rejected(Seq<char>),
    UnexpectedChallenge,
}

impl View for SaslOauthbearerError {
    type V = SaslOauthbearerErrorView;

    open spec fn view(&self) -> SaslOauthbearerErrorView {
        match self {
            SaslOauthbearerError::Rejected(json) => SaslOauthbearerErrorView::Rejected(json@),
            SaslOauthbearerError::UnexpectedChallenge => SaslOauthbearerErrorView::UnexpectedChallenge,
        }
    }
}

impl SaslOauthbearerError {
    /// The message describing the failure.
    pub open spec fn spec_message(&self) -> Seq<char> {
        match self {
            SaslOauthbearerError::Rejected(text) => "SASL OAUTHBEARER failed: server rejected the token: "@ + text@,
            SaslOauthbearerError::UnexpectedChallenge => "SASL OAUTHBEARER failed: unexpected challenge"@,
        }
    }

    /// The message describing the failure, as the error's display text.
    pub fn to_string(&self) -> (message: String)
        ensures
            message@ == self.spec_message(),
    {
        match self {
            SaslOauthbearerError::Rejected(text) => concat("SASL OAUTHBEARER failed: server rejected the token: ", text.as_str()),
            SaslOauthbearerError::UnexpectedChallenge => owned("SASL OAUTHBEARER failed: unexpected challenge"),
        }
    }
}

/// OAUTHBEARER mechanism credentials (RFC 7628).
///
/// `host` and `port` are sent verbatim and should match the server
/// being contacted. The struct has no `Debug` so that the token cannot
/// reach a log.
#[derive(Clone)]
pub struct SaslOauthbearerCreds {
    /// The account username.
    pub username: String,
    /// The server host, sent verbatim.
    pub host: String,
    /// The server port, sent verbatim.
    pub port: u16,
    /// The OAuth 2.0 access token.
    pub token: String,
}

/// Where an OAUTHBEARER exchange stands.
pub enum Stage {
    /// The token is still to be sent.
    Start,
    /// The token was sent.
    Responded,
    /// The server rejected the token with this JSON, which was
    /// acknowledged.
    Rejected(Seq<char>),
}

/// `n,a=<user>,^Ahost=<host>^Aport=<port>^Aauth=Bearer <token>^A^A`,
/// where `^A` is the `%x01` separator and `n,a=<user>,` the GS2 header
/// naming the user as authorization identity, escaped as GS2 escapes it.
pub open spec fn spec_oauthbearer_payload(creds: SaslOauthbearerCreds) -> Seq<u8> {
    encode_utf8(spec_gs2_header(SaslGs2ChannelBinding::Unsupported, Some(creds.username@))) + seq![0x01u8]
        + encode_utf8("host="@)
        + encode_utf8(creds.host@) + seq![0x01u8] + encode_utf8("port="@) + spec_decimal(
        creds.port as nat,
    ) + seq![0x01u8] + encode_utf8("auth=Bearer "@) + encode_utf8(creds.token@) + seq![0x01u8, 0x01u8]
}

/// What one resume of an OAUTHBEARER exchange yields or completes
/// with: the token on start, a `%x01` acknowledging the server's JSON
/// error, then the failure carrying that JSON; success when the peer
/// ends the exchange without having rejected the token.
pub open spec fn spec_oauthbearer_step(creds: SaslOauthbearerCreds, stage: Stage, arg: SaslResume) -> (Stage, SaslStep<SaslOauthbearerErrorView>) {
    match (stage, arg) {
        (Stage::Start, SaslResume::Start) => (Stage::Responded, SaslStep::Respond(spec_oauthbearer_payload(creds))),
        (Stage::Responded, SaslResume::Challenge(json)) => (
            Stage::Rejected(spec_utf8_lossy(json@)),
            SaslStep::Respond(seq![0x01u8]),
        ),
        (Stage::Rejected(json), SaslResume::PeerFinished) => (stage, SaslStep::Fail(SaslOauthbearerErrorView::Rejected(json))),
        (_, SaslResume::PeerFinished) => (stage, SaslStep::Succeed),
        (_, _) => (stage, SaslStep::Fail(SaslOauthbearerErrorView::UnexpectedChallenge)),
    }
}

enum State {
    Start,
    Responded,
    Rejected(String),
}

/// I/O-free SASL OAUTHBEARER mechanism.
pub struct SaslOauthbearer {
    creds: SaslOauthbearerCreds,
    state: State,
}

impl SaslOauthbearer {
    /// The credentials the mechanism sends.
    pub closed spec fn creds(&self) -> SaslOauthbearerCreds {
        self.creds
    }

    /// Where the exchange stands.
    pub closed spec fn stage(&self) -> Stage {
        match self.state {
            State::Start => Stage::Start,
            State::Responded => Stage::Responded,
            State::Rejected(json) => Stage::Rejected(json@),
        }
    }

    /// Builds the mechanism from its credentials.
    pub fn new(creds: SaslOauthbearerCreds) -> (auth: Self)
        ensures
            auth.creds() == creds,
            auth.stage() == Stage::Start,
    {
        SaslOauthbearer { creds, state: State::Start }
    }
}

impl SaslCoroutine for SaslOauthbearer {
    type Error = SaslOauthbearerError;

    fn mechanism(&self) -> (m: SaslMechanism)
        ensures
            m == SaslMechanism::OAuthBearer,
    {
        SaslMechanism::OAuthBearer
    }

    fn resume(&mut self, arg: SaslResume<'_>) -> (state: SaslCoroutineState<SaslYield, Result<(), SaslOauthbearerError>>)
        ensures
            final(self).creds() == old(self).creds(),
            (final(self).stage(), step_view(state)) == spec_oauthbearer_step(old(self).creds(), old(self).stage(), arg),
            arg matches SaslResume::Challenge(json) ==> (old(self).stage() == Stage::Responded && valid_utf8(json@)
                ==> final(self).stage() == Stage::Rejected(decode_utf8(json@))),
    {
        match (&self.state, arg) {
            (State::Start, SaslResume::Start) => {
                let mut payload: Vec<u8> = Vec::new();
                let header = SaslGs2ChannelBinding::Unsupported.header(Some(self.creds.username.as_str()));
                push_bytes(&mut payload, header.as_str().as_bytes());
                payload.push(0x01);
                push_bytes(&mut payload, "host=".as_bytes());
                push_bytes(&mut payload, self.creds.host.as_str().as_bytes());
                payload.push(0x01);
                push_bytes(&mut payload, "port=".as_bytes());
                let port = decimal(self.creds.port as u32);
                push_bytes(&mut payload, port.as_slice());
                payload.push(0x01);
                push_bytes(&mut payload, "auth=Bearer ".as_bytes());
                push_bytes(&mut payload, self.creds.token.as_str().as_bytes());
                payload.push(0x01);
                payload.push(0x01);
                self.state = State::Responded;
                assert(payload@ =~= spec_oauthbearer_payload(self.creds));
                SaslCoroutineState::Yielded(SaslYield::Respond(payload))
            },
            (State::Responded, SaslResume::Challenge(json)) => {
                let json = string_from_utf8_lossy(json);
                self.state = State::Rejected(json);
                let mut ack: Vec<u8> = Vec::new();
                ack.push(0x01);
                SaslCoroutineState::Yielded(SaslYield::Respond(ack))
            },
            (State::Rejected(json), SaslResume::PeerFinished) => {
                let json = json.clone();
                SaslCoroutineState::Complete(Err(SaslOauthbearerError::Rejected(json)))
            },
            (_, SaslResume::PeerFinished) => SaslCoroutineState::Complete(Ok(())),
            (_, _) => SaslCoroutineState::Complete(Err(SaslOauthbearerError::UnexpectedChallenge)),
        }
    }
}

/// The edges of an OAUTHBEARER exchange: a fresh exchange answers its
/// first resume with the bearer message as its initial response; the
/// peer ending the exchange completes it successfully unless the server
/// rejected the token, in which case it fails with the server's JSON;
/// nothing but the peer ending the exchange completes it successfully;
/// and of two challenges arriving after the token went out, the first
/// is read as the server's error and acknowledged with a single `%x01`,
/// the second is refused as unexpected.
pub proof fn lemma_oauthbearer_edges(creds: SaslOauthbearerCreds, stage: Stage, arg: SaslResume, first: &[u8], second: &[u8])
    ensures
        spec_oauthbearer_step(creds, Stage::Start, SaslResume::Start) == (
            Stage::Responded,
            SaslStep::<SaslOauthbearerErrorView>::Respond(spec_oauthbearer_payload(creds)),
        ),
        spec_oauthbearer_step(creds, stage, SaslResume::PeerFinished).1 == (match stage {
            Stage::Rejected(json) => SaslStep::Fail(SaslOauthbearerErrorView::Rejected(json)),
            _ => SaslStep::<SaslOauthbearerErrorView>::Succeed,
        }),
        spec_oauthbearer_step(creds, stage, arg).1 is Succeed ==> arg is PeerFinished,
        spec_oauthbearer_step(creds, Stage::Responded, SaslResume::Challenge(first)) == (
            Stage::Rejected(spec_utf8_lossy(first@)),
            SaslStep::<SaslOauthbearerErrorView>::Respond(seq![0x01u8]),
        ),
        spec_oauthbearer_step(creds, Stage::Rejected(spec_utf8_lossy(first@)), SaslResume::Challenge(second)).1
            == SaslStep::Fail(SaslOauthbearerErrorView::UnexpectedChallenge),
{
}

/// The bearer message's `port=` pair carries the port in decimal digits,
/// closed by a `%x01`, that parse back as the very port number.
pub proof fn lemma_oauthbearer_port_reads_back(creds: SaslOauthbearerCreds)
    ensures
        exists|head: Seq<u8>, digits: Seq<u8>, tail: Seq<u8>|
            {
                &&& spec_oauthbearer_payload(creds) == head + encode_utf8("port="@) + digits + seq![0x01u8] + tail
                &&& digits.len() > 0
                &&& all_digits(digits)
                &&& spec_parse_u32(digits) == Some(creds.port as u32)
            },
{
    let head = encode_utf8(spec_gs2_header(SaslGs2ChannelBinding::Unsupported, Some(creds.username@))) + seq![0x01u8]
        + encode_utf8("host="@) + encode_utf8(creds.host@) + seq![0x01u8];
    let digits = spec_decimal(creds.port as nat);
    let tail = encode_utf8("auth=Bearer "@) + encode_utf8(creds.token@) + seq![0x01u8, 0x01u8];
    lemma_decimal_reads_back(creds.port as nat);
    lemma_parse_u32_reads_decimal(creds.port as u32);
    assert(spec_oauthbearer_payload(creds) =~= head + encode_utf8("port="@) + digits + seq![0x01u8] + tail);
}

} // verus!
