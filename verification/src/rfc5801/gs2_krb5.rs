//! The GS2-KRB5 mechanism (RFC 5801), Kerberos through the GS2 bridge.
//!
//! The same Kerberos exchange as [`crate::rfc4752::gssapi`] and the
//! same relay: the tokens come from a security context this crate
//! cannot host, so the caller advances that context between two
//! resumes and this mechanism carries the SASL half. What GS2 adds is
//! the header the client prefixes to its first token, naming the
//! authorization identity and stating whether the exchange is bound to
//! the channel underneath, which gives Kerberos the `-PLUS` name and
//! the downgrade detection SCRAM already had.
//!
//! The caller owes it the first token, obtained from its context before
//! the exchange starts, and the channel binding it passed to that
//! context. Then, for every peer message, the caller feeds that message
//! to its context and resumes with what the context produced. The
//! mechanism cannot tell when the context is established and verifies
//! nothing: mutual authentication lives inside the tokens.

use vstd::prelude::*;
use vstd::slice::slice_to_vec;
use vstd::utf8::*;

use crate::coroutine::{step_view, SaslCoroutine, SaslCoroutineState, SaslResume, SaslStep, SaslYield};
use crate::mechanism::SaslMechanism;
use crate::rfc5801::{spec_gs2_header, SaslGs2ChannelBinding};
use crate::text::{owned, push_bytes, opt_string_chars};

verus! {

broadcast use vstd::string::group_string_axioms;

/// Failure causes of the GS2-KRB5 exchange.
///
/// One variant, about ordering rather than content: a relay cannot
/// judge a token it is not equipped to read.
#[derive(Clone, Copy, Debug, PartialEq, Eq, Structural)]
pub enum SaslGs2Krb5Error {
    /// The mechanism was resumed out of order: input before the initial
    /// token went out, or a fresh start in the middle of the exchange.
    OutOfOrder,
}

impl View for SaslGs2Krb5Error {
    type V = SaslGs2Krb5Error;

    open spec fn view(&self) -> SaslGs2Krb5Error {
        *self
    }
}

impl SaslGs2Krb5Error {
    /// The message describing the failure.
    pub open spec fn spec_message(&self) -> Seq<char> {
        match self {
            SaslGs2Krb5Error::OutOfOrder => "SASL GS2-KRB5 failed: resumed out of order"@,
        }
    }

    /// The message describing the failure, as the error's display text.
    pub fn to_string(&self) -> (message: String)
        ensures
            message@ == self.spec_message(),
    {
        match self {
            SaslGs2Krb5Error::OutOfOrder => owned("SASL GS2-KRB5 failed: resumed out of order"),
        }
    }
}

/// GS2-KRB5 mechanism credentials (RFC 5801).
///
/// The Kerberos credential stays in the caller's cache; what travels
/// here is the first token its context produced, plus what this crate
/// needs to write the header around it.
#[derive(Clone, Debug)]
pub struct SaslGs2Krb5Creds {
    /// The first GSS-API token, produced by the caller's security
    /// context before the exchange starts.
    pub token: Vec<u8>,
    /// The optional authorization identity, escaped into the header.
    pub authzid: Option<String>,
    /// The channel binding, which picks between `GS2-KRB5` and
    /// `GS2-KRB5-PLUS` and which the caller also passed to its own
    /// context.
    pub channel_binding: SaslGs2ChannelBinding,
}

/// Where a GS2-KRB5 exchange stands.
#[derive(Clone, Copy, Debug, PartialEq, Eq, Structural)]
pub enum State {
    /// The header and the first token are still to be sent.
    SendFirstToken,
    /// Every later token is relayed as it comes.
    RelayToken,
}

/// The abstract state of a GS2-KRB5 exchange.
pub struct SaslGs2Krb5View {
    /// The first token, until it is sent.
    pub token: Seq<u8>,
    /// The authorization identity.
    pub authzid: Option<Seq<char>>,
    /// The channel binding.
    pub channel_binding: SaslGs2ChannelBinding,
    /// The name the exchange runs under.
    pub mechanism: SaslMechanism,
    /// Where the exchange stands.
    pub state: State,
}

/// The state a GS2-KRB5 exchange starts in: `GS2-KRB5-PLUS` when
/// bound, `GS2-KRB5` otherwise.
pub open spec fn spec_gs2_krb5_initial(creds: SaslGs2Krb5Creds) -> SaslGs2Krb5View {
    SaslGs2Krb5View {
        token: creds.token@,
        authzid: opt_string_chars(creds.authzid),
        channel_binding: creds.channel_binding,
        mechanism: if creds.channel_binding is Bound {
            SaslMechanism::Gs2Krb5Plus
        } else {
            SaslMechanism::Gs2Krb5
        },
        state: State::SendFirstToken,
    }
}

/// What one resume of a GS2-KRB5 exchange yields or completes with: the
/// header and first token on start, every later token verbatim, success
/// whenever the peer ends the exchange.
pub open spec fn spec_gs2_krb5_step(m: SaslGs2Krb5View, arg: SaslResume) -> (SaslGs2Krb5View, SaslStep<SaslGs2Krb5Error>) {
    match (m.state, arg) {
        (_, SaslResume::PeerFinished) => (m, SaslStep::Succeed),
        (State::SendFirstToken, SaslResume::Start) => (
            SaslGs2Krb5View { token: seq![], state: State::RelayToken, ..m },
            SaslStep::Respond(encode_utf8(spec_gs2_header(m.channel_binding, m.authzid)) + m.token),
        ),
        (State::RelayToken, SaslResume::Challenge(token)) => (m, SaslStep::Respond(token@)),
        (_, _) => (m, SaslStep::Fail(SaslGs2Krb5Error::OutOfOrder)),
    }
}

/// I/O-free SASL GS2-KRB5 mechanism, relaying the tokens of a security
/// context the caller holds.
pub struct SaslGs2Krb5 {
    creds: SaslGs2Krb5Creds,
    mechanism: SaslMechanism,
    state: State,
}

impl View for SaslGs2Krb5 {
    type V = SaslGs2Krb5View;

    closed spec fn view(&self) -> SaslGs2Krb5View {
        SaslGs2Krb5View {
            token: self.creds.token@,
            authzid: opt_string_chars(self.creds.authzid),
            channel_binding: self.creds.channel_binding,
            mechanism: self.mechanism,
            state: self.state,
        }
    }
}

impl SaslGs2Krb5 {
    /// Builds the mechanism from the first token of the caller's
    /// security context and the binding that context used.
    pub fn new(creds: SaslGs2Krb5Creds) -> (auth: Self)
        ensures
            auth@ == spec_gs2_krb5_initial(creds),
    {
        let mechanism = if creds.channel_binding.is_bound() {
            SaslMechanism::Gs2Krb5Plus
        } else {
            SaslMechanism::Gs2Krb5
        };
        SaslGs2Krb5 { creds, mechanism, state: State::SendFirstToken }
    }
}

impl SaslCoroutine for SaslGs2Krb5 {
    type Error = SaslGs2Krb5Error;

    fn mechanism(&self) -> (m: SaslMechanism)
        ensures
            m == self@.mechanism,
    {
        self.mechanism
    }

    fn resume(&mut self, arg: SaslResume<'_>) -> (state: SaslCoroutineState<SaslYield, Result<(), SaslGs2Krb5Error>>)
        ensures
            (final(self)@, step_view(state)) == spec_gs2_krb5_step(old(self)@, arg),
    {
        match (self.state, arg) {
            (_, SaslResume::PeerFinished) => SaslCoroutineState::Complete(Ok(())),
            (State::SendFirstToken, SaslResume::Start) => {
                let authzid = match &self.creds.authzid {
                    Some(authzid) => Some(authzid.as_str()),
                    None => None,
                };
                let header = self.creds.channel_binding.header(authzid);
                let mut payload: Vec<u8> = Vec::new();
                push_bytes(&mut payload, header.as_str().as_bytes());
                payload.append(&mut self.creds.token);
                self.state = State::RelayToken;
                proof {
                    assert(self@ == SaslGs2Krb5View { token: seq![], state: State::RelayToken, ..old(self)@ });
                }
                SaslCoroutineState::Yielded(SaslYield::Respond(payload))
            },
            (State::RelayToken, SaslResume::Challenge(token)) => {
                SaslCoroutineState::Yielded(SaslYield::Respond(slice_to_vec(token)))
            },
            (_, _) => SaslCoroutineState::Complete(Err(SaslGs2Krb5Error::OutOfOrder)),
        }
    }
}

/// A bound exchange runs under `GS2-KRB5-PLUS`, any other under
/// `GS2-KRB5`.
pub proof fn lemma_gs2_krb5_name_follows_binding(creds: SaslGs2Krb5Creds)
    ensures
        (spec_gs2_krb5_initial(creds).mechanism == SaslMechanism::Gs2Krb5Plus) == (creds.channel_binding is Bound),
{
}

/// The edges of a GS2-KRB5 relay: a fresh exchange answers its first
/// resume with the GS2 header followed by the first token, the header
/// opening that message and no other, every later token is relayed
/// exactly as the caller's context produced it, the peer ending the
/// exchange completes it successfully wherever it stands and nothing
/// else does, and a resume out of order fails as such.
pub proof fn lemma_gs2_krb5_edges(creds: SaslGs2Krb5Creds, m: SaslGs2Krb5View, arg: SaslResume, next: &[u8])
    ensures
        spec_gs2_krb5_step(spec_gs2_krb5_initial(creds), SaslResume::Start).1 == SaslStep::<SaslGs2Krb5Error>::Respond(
            encode_utf8(spec_gs2_header(creds.channel_binding, opt_string_chars(creds.authzid))) + creds.token@,
        ),
        spec_gs2_krb5_step(spec_gs2_krb5_initial(creds), SaslResume::Start).0.state == State::RelayToken,
        m.state == State::RelayToken ==> spec_gs2_krb5_step(m, SaslResume::Challenge(next)) == (
            m,
            SaslStep::<SaslGs2Krb5Error>::Respond(next@),
        ),
        spec_gs2_krb5_step(m, SaslResume::PeerFinished) == (m, SaslStep::<SaslGs2Krb5Error>::Succeed),
        spec_gs2_krb5_step(m, arg).1 is Succeed ==> arg is PeerFinished,
        m.state == State::SendFirstToken ==> spec_gs2_krb5_step(m, SaslResume::Challenge(next)).1 == SaslStep::Fail(
            SaslGs2Krb5Error::OutOfOrder,
        ),
        m.state == State::RelayToken ==> spec_gs2_krb5_step(m, SaslResume::Start).1 == SaslStep::Fail(
            SaslGs2Krb5Error::OutOfOrder,
        ),
{
}

} // verus!
