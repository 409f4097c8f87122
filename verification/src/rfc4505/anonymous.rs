//! The ANONYMOUS mechanism (RFC 4505).
//!
//! One message, no secret: the client sends an optional trace token
//! the server may log, and the server ends the exchange. The token is
//! UTF-8 and at most 255 characters, and an absent token is sent as an
//! empty response.

use vstd::prelude::*;
use vstd::slice::slice_to_vec;
use vstd::utf8::*;

use crate::coroutine::{step_view, SaslCoroutine, SaslCoroutineState, SaslResume, SaslStep, SaslYield};
use crate::mechanism::{SaslAnonymous, SaslMechanism};
use crate::text::{opt_string_chars, owned};

verus! {

broadcast use vstd::string::group_string_axioms;

/// Failure causes of the ANONYMOUS exchange.
#[derive(Clone, Copy, Debug, PartialEq, Eq, Structural)]
pub enum SaslAuthAnonymousError {
    /// The mechanism was resumed with a challenge it does not expect,
    /// or out of order.
    UnexpectedChallenge,
}

impl View for SaslAuthAnonymousError {
    type V = SaslAuthAnonymousError;

    open spec fn view(&self) -> SaslAuthAnonymousError {
        *self
    }
}

impl SaslAuthAnonymousError {
    /// The message describing the failure.
    pub open spec fn spec_message(&self) -> Seq<char> {
        match self {
            SaslAuthAnonymousError::UnexpectedChallenge => "SASL ANONYMOUS failed: unexpected challenge after the trace token"@,
        }
    }

    /// The message describing the failure, as the error's display text.
    pub fn to_string(&self) -> (message: String)
        ensures
            message@ == self.spec_message(),
    {
        match self {
            SaslAuthAnonymousError::UnexpectedChallenge => owned("SASL ANONYMOUS failed: unexpected challenge after the trace token"),
        }
    }
}

/// Where an ANONYMOUS exchange stands.
#[derive(Clone, Copy, Debug, PartialEq, Eq, Structural)]
pub enum State {
    /// The trace token is still to be sent.
    Start,
    /// The trace token was sent.
    Responded,
}

/// A token as it is sent: its UTF-8, empty when absent.
pub open spec fn spec_token_bytes(token: Option<Seq<char>>) -> Seq<u8> {
    match token {
        Some(token) => encode_utf8(token),
        None => seq![],
    }
}

/// What one resume of an ANONYMOUS exchange yields or completes with,
/// and the token left behind: the token while it is unsent, success
/// whenever the peer ends the exchange, a refusal of any challenge
/// after the token.
pub open spec fn spec_anonymous_step(message: Option<Seq<char>>, state: State, arg: SaslResume) -> (Option<Seq<char>>, State, SaslStep<SaslAuthAnonymousError>) {
    if arg is PeerFinished {
        (message, state, SaslStep::Succeed)
    } else if state == State::Start {
        (None, State::Responded, SaslStep::Respond(spec_token_bytes(message)))
    } else {
        (message, state, SaslStep::Fail(SaslAuthAnonymousError::UnexpectedChallenge))
    }
}

/// I/O-free SASL ANONYMOUS mechanism.
pub struct SaslAuthAnonymous {
    creds: SaslAnonymous,
    state: State,
}

impl SaslAuthAnonymous {
    /// The trace token, until it is sent.
    pub closed spec fn message(&self) -> Option<Seq<char>> {
        opt_string_chars(self.creds.message)
    }

    /// Where the exchange stands.
    pub closed spec fn state(&self) -> State {
        self.state
    }

    /// Builds the mechanism from its optional trace token.
    pub fn new(creds: SaslAnonymous) -> (auth: Self)
        ensures
            auth.message() == opt_string_chars(creds.message),
            auth.state() == State::Start,
    {
        SaslAuthAnonymous { creds, state: State::Start }
    }
}

impl SaslCoroutine for SaslAuthAnonymous {
    type Error = SaslAuthAnonymousError;

    fn mechanism(&self) -> (m: SaslMechanism)
        ensures
            m == SaslMechanism::Anonymous,
    {
        SaslMechanism::Anonymous
    }

    fn resume(&mut self, arg: SaslResume<'_>) -> (state: SaslCoroutineState<SaslYield, Result<(), SaslAuthAnonymousError>>)
        ensures
            (final(self).message(), final(self).state(), step_view(state)) == spec_anonymous_step(
                old(self).message(),
                old(self).state(),
                arg,
            ),
    {
        if let SaslResume::PeerFinished = arg {
            return SaslCoroutineState::Complete(Ok(()));
        }
        match self.state {
            State::Start => {
                let trace = match self.creds.message.take() {
                    Some(message) => slice_to_vec(message.as_str().as_bytes()),
                    None => Vec::new(),
                };
                self.state = State::Responded;
                SaslCoroutineState::Yielded(SaslYield::Respond(trace))
            },
            State::Responded => SaslCoroutineState::Complete(Err(SaslAuthAnonymousError::UnexpectedChallenge)),
        }
    }
}

/// The edges of an ANONYMOUS exchange: a fresh exchange answers its
/// first resume with the trace token as its initial response, the peer
/// ending the exchange completes it successfully wherever it stands,
/// nothing else completes it successfully, and once the token went out
/// every further challenge is refused as unexpected.
pub proof fn lemma_anonymous_edges(message: Option<Seq<char>>, state: State, arg: SaslResume, challenge: &[u8])
    ensures
        spec_anonymous_step(message, State::Start, SaslResume::Start) == (
            None::<Seq<char>>,
            State::Responded,
            SaslStep::<SaslAuthAnonymousError>::Respond(spec_token_bytes(message)),
        ),
        spec_anonymous_step(message, state, SaslResume::PeerFinished).2 == SaslStep::<SaslAuthAnonymousError>::Succeed,
        spec_anonymous_step(message, state, arg).2 is Succeed ==> arg is PeerFinished,
        spec_anonymous_step(message, State::Responded, SaslResume::Challenge(challenge)).2 == SaslStep::Fail(
            SaslAuthAnonymousError::UnexpectedChallenge,
        ),
{
}

} // verus!
