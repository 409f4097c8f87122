//! The XOAUTH2 mechanism (Google XOAUTH2, pre-standard).
//!
//! One message carrying `user=<username>` and `auth=Bearer <token>`,
//! separated and terminated by `%x01` control characters. It predates
//! and was superseded by OAUTHBEARER (RFC 7628), but Google and
//! Microsoft still speak it.
//!
//! A rejected token is not answered by an error status: the server
//! sends a JSON error as a challenge and waits for one more client
//! response before ending the exchange. Google documents that response
//! as empty, unlike OAUTHBEARER's single `%x01`, so the mechanism
//! answers the JSON challenge with an empty payload and then fails with
//! the JSON the server sent.

use vstd::prelude::*;
use vstd::utf8::*;

use crate::coroutine::{step_view, SaslCoroutine, SaslCoroutineState, SaslResume, SaslStep, SaslYield};
use crate::mechanism::SaslMechanism;
use crate::text::{concat, owned, push_bytes, spec_utf8_lossy, string_from_utf8_lossy};

verus! {

broadcast use vstd::string::group_string_axioms;

/// Failure causes of the XOAUTH2 exchange.
#[derive(Clone, Debug)]
pub enum SaslXoauth2Error {
    /// The server rejected the token, describing why in a JSON
    /// challenge.
    Rejected(String),
    /// The mechanism was resumed with a challenge it does not expect,
    /// or out of order.
    UnexpectedChallenge,
}

/// [`SaslXoauth2Error`] with the JSON as characters.
pub enum SaslXoauth2ErrorView {
    Rejected(Seq<char>),
    UnexpectedChallenge,
}

impl View for SaslXoauth2Error {
    type V = SaslXoauth2ErrorView;

    open spec fn view(&self) -> SaslXoauth2ErrorView {
        match self {
            SaslXoauth2Error::Rejected(json) => SaslXoauth2ErrorView::Rejected(json@),
            SaslXoauth2Error::UnexpectedChallenge => SaslXoauth2ErrorView::UnexpectedChallenge,
        }
    }
}

impl SaslXoauth2Error {
    /// The message describing the failure.
    pub open spec fn spec_message(&self) -> Seq<char> {
        match self {
            SaslXoauth2Error::Rejected(text) => "SASL XOAUTH2 failed: server rejected the token: "@ + text@,
            SaslXoauth2Error::UnexpectedChallenge => "SASL XOAUTH2 failed: unexpected challenge"@,
        }
    }

    /// The message describing the failure, as the error's display text.
    pub fn to_string(&self) -> (message: String)
        ensures
            message@ == self.spec_message(),
    {
        match self {
            SaslXoauth2Error::Rejected(text) => concat("SASL XOAUTH2 failed: server rejected the token: ", text.as_str()),
            SaslXoauth2Error::UnexpectedChallenge => owned("SASL XOAUTH2 failed: unexpected challenge"),
        }
    }
}

/// XOAUTH2 mechanism credentials.
///
/// Pre-standard OAuth 2.0 SASL scheme; same shape as OAUTHBEARER minus
/// the host and port fields. The struct has no `Debug` so that the
/// token cannot reach a log.
#[derive(Clone)]
pub struct SaslXoauth2Creds {
    /// The account username.
    pub username: String,
    /// The OAuth 2.0 access token.
    pub token: String,
}

/// Where an XOAUTH2 exchange stands.
pub enum Stage {
    /// The token is still to be sent.
    SendToken,
    /// The token was sent.
    Done,
    /// The server rejected the token with this JSON, which was
    /// acknowledged.
    Fail(Seq<char>),
}

/// `user=<username>^Aauth=Bearer <token>^A^A`, where `^A` is the
/// `%x01` separator.
pub open spec fn spec_xoauth2_payload(creds: SaslXoauth2Creds) -> Seq<u8> {
    encode_utf8("user="@) + encode_utf8(creds.username@) + seq![0x01u8] + encode_utf8("auth=Bearer "@)
        + encode_utf8(creds.token@) + seq![0x01u8, 0x01u8]
}

/// What one resume of an XOAUTH2 exchange yields or completes with: the
/// token on start, an empty response acknowledging the server's JSON
/// error, then the failure carrying that JSON; success when the peer
/// ends the exchange without having rejected the token.
pub open spec fn spec_xoauth2_step(creds: SaslXoauth2Creds, stage: Stage, arg: SaslResume) -> (Stage, SaslStep<SaslXoauth2ErrorView>) {
    match (stage, arg) {
        (Stage::SendToken, SaslResume::Start) => (Stage::Done, SaslStep::Respond(spec_xoauth2_payload(creds))),
        (Stage::Done, SaslResume::Challenge(json)) => (Stage::Fail(spec_utf8_lossy(json@)), SaslStep::Respond(seq![])),
        (Stage::Fail(json), SaslResume::PeerFinished) => (stage, SaslStep::Fail(SaslXoauth2ErrorView::Rejected(json))),
        (_, SaslResume::PeerFinished) => (stage, SaslStep::Succeed),
        (_, _) => (stage, SaslStep::Fail(SaslXoauth2ErrorView::UnexpectedChallenge)),
    }
}

enum State {
    SendToken,
    Done,
    Fail(String),
}

/// I/O-free SASL XOAUTH2 mechanism.
pub struct SaslXoauth2 {
    creds: SaslXoauth2Creds,
    state: State,
}

impl SaslXoauth2 {
    /// The credentials the mechanism sends.
    pub closed spec fn creds(&self) -> SaslXoauth2Creds {
        self.creds
    }

    /// Where the exchange stands.
    pub closed spec fn stage(&self) -> Stage {
        match self.state {
            State::SendToken => Stage::SendToken,
            State::Done => Stage::Done,
            State::Fail(json) => Stage::Fail(json@),
        }
    }

    /// Builds the mechanism from its credentials.
    pub fn new(creds: SaslXoauth2Creds) -> (auth: Self)
        ensures
            auth.creds() == creds,
            auth.stage() == Stage::SendToken,
    {
        SaslXoauth2 { creds, state: State::SendToken }
    }
}

impl SaslCoroutine for SaslXoauth2 {
    type Error = SaslXoauth2Error;

    fn mechanism(&self) -> (m: SaslMechanism)
        ensures
            m == SaslMechanism::XOAuth2,
    {
        SaslMechanism::XOAuth2
    }

    fn resume(&mut self, arg: SaslResume<'_>) -> (state: SaslCoroutineState<SaslYield, Result<(), SaslXoauth2Error>>)
        ensures
            final(self).creds() == old(self).creds(),
            (final(self).stage(), step_view(state)) == spec_xoauth2_step(old(self).creds(), old(self).stage(), arg),
            arg matches SaslResume::Challenge(json) ==> (old(self).stage() == Stage::Done && valid_utf8(json@)
                ==> final(self).stage() == Stage::Fail(decode_utf8(json@))),
    {
        match (&self.state, arg) {
            (State::SendToken, SaslResume::Start) => {
                let mut payload: Vec<u8> = Vec::new();
                push_bytes(&mut payload, "user=".as_bytes());
                push_bytes(&mut payload, self.creds.username.as_str().as_bytes());
                payload.push(0x01);
                push_bytes(&mut payload, "auth=Bearer ".as_bytes());
                push_bytes(&mut payload, self.creds.token.as_str().as_bytes());
                payload.push(0x01);
                payload.push(0x01);
                self.state = State::Done;
                assert(payload@ =~= spec_xoauth2_payload(self.creds));
                SaslCoroutineState::Yielded(SaslYield::Respond(payload))
            },
            (State::Done, SaslResume::Challenge(json)) => {
                let json = string_from_utf8_lossy(json);
                self.state = State::Fail(json);
                SaslCoroutineState::Yielded(SaslYield::Respond(Vec::new()))
            },
            (State::Fail(json), SaslResume::PeerFinished) => {
                let json = json.clone();
                SaslCoroutineState::Complete(Err(SaslXoauth2Error::Rejected(json)))
            },
            (_, SaslResume::PeerFinished) => SaslCoroutineState::Complete(Ok(())),
            (_, _) => SaslCoroutineState::Complete(Err(SaslXoauth2Error::UnexpectedChallenge)),
        }
    }
}

/// The edges of an XOAUTH2 exchange: a fresh exchange answers its first
/// resume with the token message as its initial response; the peer
/// ending the exchange completes it successfully unless the server
/// rejected the token, in which case it fails with the server's JSON;
/// nothing but the peer ending the exchange completes it successfully;
/// and of two challenges arriving after the token went out, the first
/// is read as the server's error and acknowledged with an empty
/// response, the second is refused as unexpected.
pub proof fn lemma_xoauth2_edges(creds: SaslXoauth2Creds, stage: Stage, arg: SaslResume, first: &[u8], second: &[u8])
    ensures
        spec_xoauth2_step(creds, Stage::SendToken, SaslResume::Start) == (
            Stage::Done,
            SaslStep::<SaslXoauth2ErrorView>::Respond(spec_xoauth2_payload(creds)),
        ),
        spec_xoauth2_step(creds, stage, SaslResume::PeerFinished).1 == (match stage {
            Stage::Fail(json) => SaslStep::Fail(SaslXoauth2ErrorView::Rejected(json)),
            _ => SaslStep::<SaslXoauth2ErrorView>::Succeed,
        }),
        spec_xoauth2_step(creds, stage, arg).1 is Succeed ==> arg is PeerFinished,
        spec_xoauth2_step(creds, Stage::Done, SaslResume::Challenge(first)) == (
            Stage::Fail(spec_utf8_lossy(first@)),
            SaslStep::<SaslXoauth2ErrorView>::Respond(Seq::<u8>::empty()),
        ),
        spec_xoauth2_step(creds, Stage::Fail(spec_utf8_lossy(first@)), SaslResume::Challenge(second)).1 == SaslStep::Fail(
            SaslXoauth2ErrorView::UnexpectedChallenge,
        ),
{
}

} // verus!
