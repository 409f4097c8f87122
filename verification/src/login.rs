//! The LOGIN mechanism (draft-murchison-sasl-login, never
//! standardised).
//!
//! Two cleartext prompts, username then password, each answered by one
//! response. The mechanism is obsolete but still the only one some
//! servers offer, and like PLAIN it belongs on a TLS-protected
//! connection only.
//!
//! The mechanism sees a single challenge, the password prompt. The
//! username prompt is the implicit empty challenge whose answer is the
//! initial response, so the protocol crate feeds only the second
//! prompt. The prompts are human-readable filler the mechanism ignores,
//! the step alone being what matters.

use vstd::prelude::*;
use vstd::slice::slice_to_vec;
use vstd::utf8::*;

use crate::coroutine::{step_view, SaslCoroutine, SaslCoroutineState, SaslResume, SaslStep, SaslYield};
use crate::text::owned;
use crate::mechanism::{SaslLogin, SaslMechanism};

verus! {

broadcast use vstd::string::group_string_axioms;

/// Failure causes of the LOGIN exchange.
#[derive(Clone, Copy, Debug, PartialEq, Eq, Structural)]
pub enum SaslAuthLoginError {
    /// The mechanism was resumed with a challenge it does not expect,
    /// or out of order.
    UnexpectedChallenge,
}

impl View for SaslAuthLoginError {
    type V = SaslAuthLoginError;

    open spec fn view(&self) -> SaslAuthLoginError {
        *self
    }
}

impl SaslAuthLoginError {
    /// The message describing the failure.
    pub open spec fn spec_message(&self) -> Seq<char> {
        match self {
            SaslAuthLoginError::UnexpectedChallenge => "SASL LOGIN failed: unexpected challenge after the password"@,
        }
    }

    /// The message describing the failure, as the error's display text.
    pub fn to_string(&self) -> (message: String)
        ensures
            message@ == self.spec_message(),
    {
        match self {
            SaslAuthLoginError::UnexpectedChallenge => owned("SASL LOGIN failed: unexpected challenge after the password"),
        }
    }
}

/// Where a LOGIN exchange stands.
#[derive(Clone, Copy, Debug, PartialEq, Eq, Structural)]
pub enum State {
    /// The username is still to be sent.
    Start,
    /// The username was sent; the password prompt is awaited.
    SentUsername,
    /// Both answers were sent.
    SentPassword,
}

/// What one resume of a LOGIN exchange yields or completes with: the
/// username first, the password on the next prompt, success whenever
/// the peer ends the exchange, a refusal of any prompt after the
/// password.
pub open spec fn spec_login_step(creds: SaslLogin, state: State, arg: SaslResume) -> (State, SaslStep<SaslAuthLoginError>) {
    if arg is PeerFinished {
        (state, SaslStep::Succeed)
    } else {
        match state {
            State::Start => (State::SentUsername, SaslStep::Respond(encode_utf8(creds.username@))),
            State::SentUsername => (State::SentPassword, SaslStep::Respond(encode_utf8(creds.password@))),
            State::SentPassword => (state, SaslStep::Fail(SaslAuthLoginError::UnexpectedChallenge)),
        }
    }
}

/// I/O-free SASL LOGIN mechanism.
pub struct SaslAuthLogin {
    creds: SaslLogin,
    state: State,
}

impl SaslAuthLogin {
    /// The credentials the mechanism sends.
    pub closed spec fn creds(&self) -> SaslLogin {
        self.creds
    }

    /// Where the exchange stands.
    pub closed spec fn state(&self) -> State {
        self.state
    }

    /// Builds the mechanism from its credentials.
    pub fn new(creds: SaslLogin) -> (auth: Self)
        ensures
            auth.creds() == creds,
            auth.state() == State::Start,
    {
        SaslAuthLogin { creds, state: State::Start }
    }
}

impl SaslCoroutine for SaslAuthLogin {
    type Error = SaslAuthLoginError;

    fn mechanism(&self) -> (m: SaslMechanism)
        ensures
            m == SaslMechanism::Login,
    {
        SaslMechanism::Login
    }

    fn resume(&mut self, arg: SaslResume<'_>) -> (state: SaslCoroutineState<SaslYield, Result<(), SaslAuthLoginError>>)
        ensures
            final(self).creds() == old(self).creds(),
            (final(self).state(), step_view(state)) == spec_login_step(old(self).creds(), old(self).state(), arg),
    {
        if let SaslResume::PeerFinished = arg {
            return SaslCoroutineState::Complete(Ok(()));
        }
        match self.state {
            State::Start => {
                let username = slice_to_vec(self.creds.username.as_str().as_bytes());
                self.state = State::SentUsername;
                SaslCoroutineState::Yielded(SaslYield::Respond(username))
            },
            State::SentUsername => {
                let password = slice_to_vec(self.creds.password.as_str().as_bytes());
                self.state = State::SentPassword;
                SaslCoroutineState::Yielded(SaslYield::Respond(password))
            },
            State::SentPassword => SaslCoroutineState::Complete(Err(SaslAuthLoginError::UnexpectedChallenge)),
        }
    }
}

/// The edges of a LOGIN exchange: a fresh exchange answers its first
/// resume with the username as its initial response, the peer ending the
/// exchange completes it successfully wherever it stands, nothing else
/// completes it successfully, and once the password went out every
/// further challenge is refused as unexpected.
pub proof fn lemma_login_edges(creds: SaslLogin, state: State, arg: SaslResume, challenge: &[u8])
    ensures
        spec_login_step(creds, State::Start, SaslResume::Start) == (
            State::SentUsername,
            SaslStep::<SaslAuthLoginError>::Respond(encode_utf8(creds.username@)),
        ),
        spec_login_step(creds, state, SaslResume::PeerFinished) == (state, SaslStep::<SaslAuthLoginError>::Succeed),
        spec_login_step(creds, state, arg).1 is Succeed ==> arg is PeerFinished,
        spec_login_step(creds, State::SentPassword, SaslResume::Challenge(challenge)).1 == SaslStep::Fail(
            SaslAuthLoginError::UnexpectedChallenge,
        ),
{
}

} // verus!
