//! The EXTERNAL mechanism (RFC 4422 appendix A).
//!
//! One message, no secret and no computation: the client names the
//! identity it wants to act as, or sends nothing and lets the server
//! derive it from what the outer channel already proved, typically a
//! TLS client certificate.
//!
//! The mechanism transmits no credential of its own, which is the whole
//! point: it says the authentication happened somewhere else. An empty
//! authorization identity is the usual case and the one a server can
//! always answer.

use vstd::prelude::*;
use vstd::slice::slice_to_vec;
use vstd::utf8::*;

use crate::coroutine::{step_view, SaslCoroutine, SaslCoroutineState, SaslResume, SaslStep, SaslYield};
use crate::mechanism::SaslMechanism;
use crate::text::{opt_string_chars, owned};

verus! {

broadcast use vstd::string::group_string_axioms;

/// Failure causes of the EXTERNAL exchange.
#[derive(Clone, Copy, Debug, PartialEq, Eq, Structural)]
pub enum SaslExternalError {
    /// The mechanism was resumed with a challenge it does not expect,
    /// or out of order.
    UnexpectedChallenge,
}

impl View for SaslExternalError {
    type V = SaslExternalError;

    open spec fn view(&self) -> SaslExternalError {
        *self
    }
}

impl SaslExternalError {
    /// The message describing the failure.
    pub open spec fn spec_message(&self) -> Seq<char> {
        match self {
            SaslExternalError::UnexpectedChallenge => "SASL EXTERNAL failed: unexpected challenge after the authorization identity"@,
        }
    }

    /// The message describing the failure, as the error's display text.
    pub fn to_string(&self) -> (message: String)
        ensures
            message@ == self.spec_message(),
    {
        match self {
            SaslExternalError::UnexpectedChallenge => owned("SASL EXTERNAL failed: unexpected challenge after the authorization identity"),
        }
    }
}

/// EXTERNAL mechanism credentials (RFC 4422 appendix A).
///
/// Carries no secret, since the outer channel is what authenticates:
/// the only thing to say is which identity to act as, and saying
/// nothing asks the server to use the one the channel proved.
#[derive(Clone, Debug)]
pub struct SaslExternalCreds {
    /// The optional authorization identity, sent as UTF-8.
    pub authzid: Option<String>,
}

/// Where an EXTERNAL exchange stands.
#[derive(Clone, Copy, Debug, PartialEq, Eq, Structural)]
pub enum State {
    /// The authorization identity is still to be sent.
    SendAuthzid,
    /// The authorization identity was sent.
    Done,
}

/// An identity as it is sent: its UTF-8, empty when absent.
pub open spec fn spec_identity_bytes(authzid: Option<Seq<char>>) -> Seq<u8> {
    match authzid {
        Some(authzid) => encode_utf8(authzid),
        None => seq![],
    }
}

/// What one resume of an EXTERNAL exchange yields or completes with,
/// and the identity left behind: the identity while it is unsent, success
/// whenever the peer ends the exchange, a refusal of any challenge
/// after the identity.
pub open spec fn spec_external_step(authzid: Option<Seq<char>>, state: State, arg: SaslResume) -> (Option<Seq<char>>, State, SaslStep<SaslExternalError>) {
    if arg is PeerFinished {
        (authzid, state, SaslStep::Succeed)
    } else if state == State::SendAuthzid {
        (None, State::Done, SaslStep::Respond(spec_identity_bytes(authzid)))
    } else {
        (authzid, state, SaslStep::Fail(SaslExternalError::UnexpectedChallenge))
    }
}

/// I/O-free SASL EXTERNAL mechanism.
pub struct SaslExternal {
    creds: SaslExternalCreds,
    state: State,
}

impl SaslExternal {
    /// The authorization identity, until it is sent.
    pub closed spec fn authzid(&self) -> Option<Seq<char>> {
        opt_string_chars(self.creds.authzid)
    }

    /// Where the exchange stands.
    pub closed spec fn state(&self) -> State {
        self.state
    }

    /// Builds the mechanism from its optional authorization identity.
    pub fn new(creds: SaslExternalCreds) -> (auth: Self)
        ensures
            auth.authzid() == opt_string_chars(creds.authzid),
            auth.state() == State::SendAuthzid,
    {
        SaslExternal { creds, state: State::SendAuthzid }
    }
}

impl SaslCoroutine for SaslExternal {
    type Error = SaslExternalError;

    fn mechanism(&self) -> (m: SaslMechanism)
        ensures
            m == SaslMechanism::External,
    {
        SaslMechanism::External
    }

    fn resume(&mut self, arg: SaslResume<'_>) -> (state: SaslCoroutineState<SaslYield, Result<(), SaslExternalError>>)
        ensures
            (final(self).authzid(), final(self).state(), step_view(state)) == spec_external_step(
                old(self).authzid(),
                old(self).state(),
                arg,
            ),
    {
        if let SaslResume::PeerFinished = arg {
            return SaslCoroutineState::Complete(Ok(()));
        }
        match self.state {
            State::SendAuthzid => {
                let payload = match self.creds.authzid.take() {
                    Some(authzid) => slice_to_vec(authzid.as_str().as_bytes()),
                    None => Vec::new(),
                };
                self.state = State::Done;
                SaslCoroutineState::Yielded(SaslYield::Respond(payload))
            },
            State::Done => SaslCoroutineState::Complete(Err(SaslExternalError::UnexpectedChallenge)),
        }
    }
}

/// The edges of an EXTERNAL exchange: a fresh exchange answers its
/// first resume with the authorization identity as its initial
/// response, the peer ending the exchange completes it successfully
/// wherever it stands, nothing else completes it successfully, and once
/// the identity went out every further challenge is refused as
/// unexpected.
pub proof fn lemma_external_edges(authzid: Option<Seq<char>>, state: State, arg: SaslResume, challenge: &[u8])
    ensures
        spec_external_step(authzid, State::SendAuthzid, SaslResume::Start) == (
            None::<Seq<char>>,
            State::Done,
            SaslStep::<SaslExternalError>::Respond(spec_identity_bytes(authzid)),
        ),
        spec_external_step(authzid, state, SaslResume::PeerFinished).2 == SaslStep::<SaslExternalError>::Succeed,
        spec_external_step(authzid, state, arg).2 is Succeed ==> arg is PeerFinished,
        spec_external_step(authzid, State::Done, SaslResume::Challenge(challenge)).2 == SaslStep::Fail(
            SaslExternalError::UnexpectedChallenge,
        ),
{
}

} // verus!
