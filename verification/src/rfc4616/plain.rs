//! The PLAIN mechanism (RFC 4616).
//!
//! One message carrying `authzid NUL authcid NUL passwd`, where the
//! authorization identity is usually empty, so the payload commonly
//! starts with a NUL. The authentication identity and the password are
//! run through SASLprep first. The password travels in the clear, which
//! is why the mechanism belongs on a TLS-protected connection only.

use vstd::prelude::*;
use vstd::utf8::*;

use crate::coroutine::{step_view, SaslCoroutine, SaslCoroutineState, SaslResume, SaslStep, SaslYield};
use crate::mechanism::{SaslMechanism, SaslPlain};
use crate::rfc4013::{saslprep, spec_saslprep, SaslPrepError};
use crate::text::{concat, owned, opt_string_chars, push_bytes};

verus! {

broadcast use vstd::string::group_string_axioms;

/// Failure causes of the PLAIN exchange.
#[derive(Clone, Copy, Debug, PartialEq, Eq, Structural)]
pub enum SaslAuthPlainError {
    /// The mechanism was resumed with a challenge it does not expect,
    /// or out of order.
    UnexpectedChallenge,
    /// SASLprep refused the authentication identity or the password.
    InvalidCredentials(SaslPrepError),
}

impl View for SaslAuthPlainError {
    type V = SaslAuthPlainError;

    open spec fn view(&self) -> SaslAuthPlainError {
        *self
    }
}

impl SaslAuthPlainError {
    /// The message describing the failure.
    pub open spec fn spec_message(&self) -> Seq<char> {
        match self {
            SaslAuthPlainError::UnexpectedChallenge => "SASL PLAIN failed: unexpected challenge after the credentials"@,
            SaslAuthPlainError::InvalidCredentials(e) => "SASL PLAIN failed: "@ + e.spec_message(),
        }
    }

    /// The message describing the failure, as the error's display text.
    pub fn to_string(&self) -> (message: String)
        ensures
            message@ == self.spec_message(),
    {
        match self {
            SaslAuthPlainError::UnexpectedChallenge => owned("SASL PLAIN failed: unexpected challenge after the credentials"),
            SaslAuthPlainError::InvalidCredentials(e) => {
                let reason = e.to_string();
                concat("SASL PLAIN failed: ", reason.as_str())
            },
        }
    }
}

/// Where a PLAIN exchange stands.
#[derive(Clone, Copy, Debug, PartialEq, Eq, Structural)]
pub enum State {
    /// The credentials are still to be sent.
    Start,
    /// The credentials were sent.
    Responded,
}

/// `authzid NUL authcid NUL passwd`, each as UTF-8, the authorization
/// identity empty when absent, the authentication identity and the
/// password as SASLprep prepares them; or the refusal of the first of
/// the two that SASLprep refuses.
pub open spec fn spec_plain_payload(creds: SaslPlain) -> Result<Seq<u8>, SaslPrepError> {
    let authzid = match opt_string_chars(creds.authzid) {
        Some(authzid) => authzid,
        None => Seq::<char>::empty(),
    };
    match (spec_saslprep(creds.authcid@), spec_saslprep(creds.passwd@)) {
        (Err(e), _) => Err(e),
        (Ok(_), Err(e)) => Err(e),
        (Ok(authcid), Ok(passwd)) => Ok(
            encode_utf8(authzid) + seq![0u8] + encode_utf8(authcid) + seq![0u8] + encode_utf8(passwd),
        ),
    }
}

/// What one resume of a PLAIN exchange yields or completes with: the
/// prepared credentials while they are unsent, or the refusal of
/// credentials SASLprep refuses; success whenever the peer ends the
/// exchange; a refusal of anything after the credentials.
pub open spec fn spec_plain_step(creds: SaslPlain, state: State, arg: SaslResume) -> (State, SaslStep<SaslAuthPlainError>) {
    if arg is PeerFinished {
        (state, SaslStep::Succeed)
    } else if state == State::Start {
        match spec_plain_payload(creds) {
            Ok(payload) => (State::Responded, SaslStep::Respond(payload)),
            Err(e) => (state, SaslStep::Fail(SaslAuthPlainError::InvalidCredentials(e))),
        }
    } else {
        (state, SaslStep::Fail(SaslAuthPlainError::UnexpectedChallenge))
    }
}

/// I/O-free SASL PLAIN mechanism.
pub struct SaslAuthPlain {
    creds: SaslPlain,
    state: State,
}

impl SaslAuthPlain {
    /// The credentials the mechanism sends.
    pub closed spec fn creds(&self) -> SaslPlain {
        self.creds
    }

    /// Where the exchange stands.
    pub closed spec fn state(&self) -> State {
        self.state
    }

    /// Builds the mechanism from its credentials.
    pub fn new(creds: SaslPlain) -> (auth: Self)
        ensures
            auth.creds() == creds,
            auth.state() == State::Start,
    {
        SaslAuthPlain { creds, state: State::Start }
    }
}

impl SaslCoroutine for SaslAuthPlain {
    type Error = SaslAuthPlainError;

    fn mechanism(&self) -> (m: SaslMechanism)
        ensures
            m == SaslMechanism::Plain,
    {
        SaslMechanism::Plain
    }

    fn resume(&mut self, arg: SaslResume<'_>) -> (state: SaslCoroutineState<SaslYield, Result<(), SaslAuthPlainError>>)
        ensures
            final(self).creds() == old(self).creds(),
            (final(self).state(), step_view(state)) == spec_plain_step(old(self).creds(), old(self).state(), arg),
    {
        if let SaslResume::PeerFinished = arg {
            return SaslCoroutineState::Complete(Ok(()));
        }
        match self.state {
            State::Start => {
                let authcid = match saslprep(self.creds.authcid.as_str()) {
                    Ok(authcid) => authcid,
                    Err(e) => return SaslCoroutineState::Complete(Err(SaslAuthPlainError::InvalidCredentials(e))),
                };
                let passwd = match saslprep(self.creds.passwd.as_str()) {
                    Ok(passwd) => passwd,
                    Err(e) => return SaslCoroutineState::Complete(Err(SaslAuthPlainError::InvalidCredentials(e))),
                };
                let mut payload: Vec<u8> = Vec::new();
                if let Some(authzid) = &self.creds.authzid {
                    push_bytes(&mut payload, authzid.as_str().as_bytes());
                }
                payload.push(0);
                push_bytes(&mut payload, authcid.as_str().as_bytes());
                payload.push(0);
                push_bytes(&mut payload, passwd.as_str().as_bytes());
                self.state = State::Responded;
                proof {
                    reveal_strlit("");
                    assert(encode_utf8(Seq::<char>::empty()) =~= Seq::<u8>::empty());
                    let authzid = match opt_string_chars(self.creds.authzid) {
                        Some(authzid) => authzid,
                        None => Seq::<char>::empty(),
                    };
                    assert(payload@ =~= encode_utf8(authzid) + seq![0u8] + encode_utf8(authcid@) + seq![0u8]
                        + encode_utf8(passwd@));
                }
                SaslCoroutineState::Yielded(SaslYield::Respond(payload))
            },
            State::Responded => SaslCoroutineState::Complete(Err(SaslAuthPlainError::UnexpectedChallenge)),
        }
    }
}

/// The edges of a PLAIN exchange: a fresh exchange answers its first
/// resume with the prepared credentials as its initial response, or
/// fails with the refusal of credentials SASLprep refuses; the peer ending
/// the exchange completes it successfully wherever it stands, nothing
/// else completes it successfully, and once the credentials went out
/// every further challenge is refused as unexpected.
pub proof fn lemma_plain_edges(creds: SaslPlain, state: State, arg: SaslResume, challenge: &[u8])
    ensures
        spec_plain_step(creds, State::Start, SaslResume::Start) == (match spec_plain_payload(creds) {
            Ok(payload) => (State::Responded, SaslStep::<SaslAuthPlainError>::Respond(payload)),
            Err(e) => (State::Start, SaslStep::Fail(SaslAuthPlainError::InvalidCredentials(e))),
        }),
        spec_plain_step(creds, state, SaslResume::PeerFinished) == (state, SaslStep::<SaslAuthPlainError>::Succeed),
        spec_plain_step(creds, state, arg).1 is Succeed ==> arg is PeerFinished,
        spec_plain_step(creds, State::Responded, SaslResume::Challenge(challenge)).1 == SaslStep::Fail(
            SaslAuthPlainError::UnexpectedChallenge,
        ),
{
}

} // verus!
