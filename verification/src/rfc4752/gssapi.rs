//! The GSSAPI mechanism (RFC 4752), as far as a crate that performs no
//! I/O can carry it.
//!
//! Its messages are GSS-API tokens produced by a Kerberos
//! implementation that reads a credential cache and talks to a KDC, so
//! the coroutine is a relay: it holds the SASL half of the mechanism,
//! the name, the initial response and the sequencing, while the caller
//! holds the security context.
//!
//! The caller owes it the first token, in [`SaslGssapiCreds::token`],
//! and then, for every peer message, the token its context produced in
//! answer. The relay cannot tell when the context is established and
//! verifies nothing, mutual authentication living inside the tokens.
//!
//! What it does carry is the one message of the exchange that is SASL
//! rather than GSS: the four octets of RFC 4752 section 3.1, a bitmask
//! of security layers and a maximum message size, with an authorization
//! identity after them. Those octets travel wrapped, so
//! [`SaslGssapiSecurityLayerOffer::parse`] reads the plaintext the
//! caller unwrapped, and [`SaslGssapiSecurityLayerChoice::to_bytes`]
//! assembles the plaintext it wraps in return.

use vstd::prelude::*;
use vstd::slice::slice_to_vec;
use vstd::utf8::*;

use crate::coroutine::{step_view, SaslCoroutine, SaslCoroutineState, SaslResume, SaslStep, SaslYield};
use crate::mechanism::SaslMechanism;
use crate::text::{owned, opt_string_chars, push_bytes};

verus! {

broadcast use vstd::string::group_string_axioms;

/// Failure causes of the GSSAPI exchange.
///
/// Ordering and shape, never content: a relay cannot judge a token it
/// is not equipped to read.
#[derive(Clone, Copy, Debug, PartialEq, Eq, Structural)]
pub enum SaslGssapiError {
    /// The mechanism was resumed out of order: input before the initial
    /// token went out, or a fresh start in the middle of the exchange.
    OutOfOrder,
    /// The security layer offer was shorter than the four octets
    /// RFC 4752 section 3.1 gives it.
    TruncatedSecurityLayerOffer,
    /// The server offered no security layer this client could pick, its
    /// bitmask carrying none of the three defined bits.
    UnknownSecurityLayerOffer,
}

impl View for SaslGssapiError {
    type V = SaslGssapiError;

    open spec fn view(&self) -> SaslGssapiError {
        *self
    }
}

impl SaslGssapiError {
    /// The message describing the failure.
    pub open spec fn spec_message(&self) -> Seq<char> {
        match self {
            SaslGssapiError::OutOfOrder => "SASL GSSAPI failed: resumed out of order"@,
            SaslGssapiError::TruncatedSecurityLayerOffer => "SASL GSSAPI failed: truncated security layer offer"@,
            SaslGssapiError::UnknownSecurityLayerOffer => "SASL GSSAPI failed: security layer offer carries no known layer"@,
        }
    }

    /// The message describing the failure, as the error's display text.
    pub fn to_string(&self) -> (message: String)
        ensures
            message@ == self.spec_message(),
    {
        match self {
            SaslGssapiError::OutOfOrder => owned("SASL GSSAPI failed: resumed out of order"),
            SaslGssapiError::TruncatedSecurityLayerOffer => owned("SASL GSSAPI failed: truncated security layer offer"),
            SaslGssapiError::UnknownSecurityLayerOffer => owned("SASL GSSAPI failed: security layer offer carries no known layer"),
        }
    }
}

/// A security layer the server offers over the authenticated
/// connection (RFC 4752 section 3.1).
#[derive(Clone, Copy, Debug, PartialEq, Eq, Structural)]
pub enum SaslGssapiSecurityLayer {
    /// No layer: the connection continues in clear once authenticated,
    /// which is the usual choice under TLS.
    NoLayer,
    /// Every later message is wrapped with integrity protection.
    Integrity,
    /// Every later message is wrapped with confidentiality protection.
    Confidentiality,
}

/// The bit a layer occupies in the bitmask octet.
pub open spec fn layer_bit(layer: SaslGssapiSecurityLayer) -> u8 {
    match layer {
        SaslGssapiSecurityLayer::NoLayer => 1,
        SaslGssapiSecurityLayer::Integrity => 2,
        SaslGssapiSecurityLayer::Confidentiality => 4,
    }
}

impl SaslGssapiSecurityLayer {
    /// The bit this layer occupies in the bitmask octet.
    pub fn bit(&self) -> (bit: u8)
        ensures
            bit == layer_bit(*self),
    {
        match self {
            Self::NoLayer => 1,
            Self::Integrity => 2,
            Self::Confidentiality => 4,
        }
    }
}

/// What the server offers once the context is established: the layers
/// it supports, and the largest message it will accept.
#[derive(Clone, Debug)]
pub struct SaslGssapiSecurityLayerOffer {
    /// The layers the server said it supports.
    pub layers: Vec<SaslGssapiSecurityLayer>,
    /// The largest message the server is willing to receive, zero when
    /// it offers no layer needing one.
    pub max_message_size: u32,
}

/// The layers a bitmask offers, in the order the bits are defined.
pub open spec fn spec_offered_layers(mask: u8) -> Seq<SaslGssapiSecurityLayer> {
    (if mask & 1 != 0 { seq![SaslGssapiSecurityLayer::NoLayer] } else { seq![] }) + (if mask & 2 != 0 {
        seq![SaslGssapiSecurityLayer::Integrity]
    } else {
        seq![]
    }) + (if mask & 4 != 0 { seq![SaslGssapiSecurityLayer::Confidentiality] } else { seq![] })
}

/// The three octets of a maximum message size, most significant first.
pub open spec fn spec_size_value(high: u8, middle: u8, low: u8) -> u32 {
    ((high as u32) * 65536 + (middle as u32) * 256 + (low as u32)) as u32
}

/// What the four octets of an offer say: the layers of the bitmask and
/// the size after it. Octets beyond the fourth are ignored.
pub open spec fn spec_parse_offer(unwrapped: Seq<u8>) -> Result<(Seq<SaslGssapiSecurityLayer>, u32), SaslGssapiError> {
    if unwrapped.len() < 4 {
        Err(SaslGssapiError::TruncatedSecurityLayerOffer)
    } else if spec_offered_layers(unwrapped[0]).len() == 0 {
        Err(SaslGssapiError::UnknownSecurityLayerOffer)
    } else {
        Ok((spec_offered_layers(unwrapped[0]), spec_size_value(unwrapped[1], unwrapped[2], unwrapped[3])))
    }
}

impl SaslGssapiSecurityLayerOffer {
    /// Parses the four octets of RFC 4752 section 3.1: a bitmask of
    /// layers, then the maximum message size in network byte order.
    pub fn parse(unwrapped: &[u8]) -> (offer: Result<Self, SaslGssapiError>)
        ensures
            match spec_parse_offer(unwrapped@) {
                Ok((layers, size)) => offer matches Ok(o) && o.layers@ == layers && o.max_message_size == size,
                Err(e) => offer matches Err(err) && err == e,
            },
    {
        if unwrapped.len() < 4 {
            return Err(SaslGssapiError::TruncatedSecurityLayerOffer);
        }
        let mask = unwrapped[0];
        let mut layers: Vec<SaslGssapiSecurityLayer> = Vec::new();
        if mask & SaslGssapiSecurityLayer::NoLayer.bit() != 0 {
            layers.push(SaslGssapiSecurityLayer::NoLayer);
        }
        if mask & SaslGssapiSecurityLayer::Integrity.bit() != 0 {
            layers.push(SaslGssapiSecurityLayer::Integrity);
        }
        if mask & SaslGssapiSecurityLayer::Confidentiality.bit() != 0 {
            layers.push(SaslGssapiSecurityLayer::Confidentiality);
        }
        assert(layers@ =~= spec_offered_layers(mask));
        if layers.len() == 0 {
            return Err(SaslGssapiError::UnknownSecurityLayerOffer);
        }
        let high = unwrapped[1];
        let middle = unwrapped[2];
        let low = unwrapped[3];
        let max_message_size = (high as u32) << 16 | (middle as u32) << 8 | (low as u32);
        assert(max_message_size == spec_size_value(high, middle, low)) by (bit_vector)
            requires
                max_message_size == (high as u32) << 16 | (middle as u32) << 8 | (low as u32),
        ;
        Ok(SaslGssapiSecurityLayerOffer { layers, max_message_size })
    }
}

/// What the client answers the offer with: the one layer it picked, the
/// largest message it will accept in turn, and who it wants to act as.
#[derive(Clone, Debug)]
pub struct SaslGssapiSecurityLayerChoice {
    /// The layer the client picked, which SHOULD be one the offer
    /// carried.
    pub layer: SaslGssapiSecurityLayer,
    /// The largest message the client is willing to receive.
    pub max_message_size: u32,
    /// The optional authorization identity, sent as UTF-8 after the
    /// four octets.
    pub authzid: Option<String>,
}

/// The size a choice announces: its own, capped to the three octets the
/// format gives it.
pub open spec fn spec_announced_size(size: u32) -> u32 {
    if size < 0xff_ffff { size } else { 0xff_ffff }
}

/// The plaintext of a choice: the layer bit, the capped size in three
/// octets, then the authorization identity as UTF-8.
pub open spec fn spec_choice_bytes(choice: SaslGssapiSecurityLayerChoice) -> Seq<u8> {
    let size = spec_announced_size(choice.max_message_size);
    seq![layer_bit(choice.layer), (size >> 16) as u8, (size >> 8) as u8, size as u8] + match choice.authzid {
        Some(authzid) => encode_utf8(authzid@),
        None => seq![],
    }
}

impl SaslGssapiSecurityLayerChoice {
    /// Assembles the plaintext of the client's answer, the same four
    /// octets as the offer followed by the authorization identity.
    ///
    /// The size is capped to the three octets the format gives it,
    /// since a client asking for more than 16 MiB per message cannot
    /// say so in this exchange.
    pub fn to_bytes(&self) -> (bytes: Vec<u8>)
        ensures
            bytes@ == spec_choice_bytes(*self),
    {
        let size = if self.max_message_size < 0xff_ffff { self.max_message_size } else { 0xff_ffff };
        let mut bytes: Vec<u8> = Vec::new();
        bytes.push(self.layer.bit());
        bytes.push((size >> 16) as u8);
        bytes.push((size >> 8) as u8);
        bytes.push(size as u8);
        if let Some(authzid) = &self.authzid {
            push_bytes(&mut bytes, authzid.as_str().as_bytes());
        }
        assert(bytes@ =~= spec_choice_bytes(*self));
        bytes
    }
}

/// The offer a choice's four octets read back as: the one layer it
/// picked, and the size it announced.
pub proof fn lemma_choice_reads_back_as_offer(choice: SaslGssapiSecurityLayerChoice)
    ensures
        spec_parse_offer(spec_choice_bytes(choice)) == Ok::<(Seq<SaslGssapiSecurityLayer>, u32), SaslGssapiError>(
            (seq![choice.layer], spec_announced_size(choice.max_message_size)),
        ),
{
    let bytes = spec_choice_bytes(choice);
    let size = spec_announced_size(choice.max_message_size);
    assert(bytes[0] == layer_bit(choice.layer));
    assert(spec_offered_layers(1) =~= seq![SaslGssapiSecurityLayer::NoLayer]) by {
        assert(1u8 & 1u8 != 0 && 1u8 & 2u8 == 0 && 1u8 & 4u8 == 0) by (bit_vector);
    }
    assert(spec_offered_layers(2) =~= seq![SaslGssapiSecurityLayer::Integrity]) by {
        assert(2u8 & 1u8 == 0 && 2u8 & 2u8 != 0 && 2u8 & 4u8 == 0) by (bit_vector);
    }
    assert(spec_offered_layers(4) =~= seq![SaslGssapiSecurityLayer::Confidentiality]) by {
        assert(4u8 & 1u8 == 0 && 4u8 & 2u8 == 0 && 4u8 & 4u8 != 0) by (bit_vector);
    }
    assert(spec_size_value((size >> 16) as u8, (size >> 8) as u8, size as u8) == size) by (bit_vector)
        requires
            size <= 0xff_ffff,
    ;
}

/// A choice's octets announce the size it was given, cut to the largest
/// the three size octets can carry: any size up to 0xFFFFFF reads back
/// as itself, a larger one as 0xFFFFFF.
pub proof fn lemma_choice_announces_its_size(choice: SaslGssapiSecurityLayerChoice)
    ensures
        spec_parse_offer(spec_choice_bytes(choice)) == Ok::<(Seq<SaslGssapiSecurityLayer>, u32), SaslGssapiError>(
            (
                seq![choice.layer],
                if choice.max_message_size <= 0xff_ffff {
                    choice.max_message_size
                } else {
                    0xff_ffffu32
                },
            ),
        ),
{
    lemma_choice_reads_back_as_offer(choice);
}

/// GSSAPI mechanism credentials (RFC 4752).
///
/// The Kerberos credential stays in the caller's cache, and what
/// travels here is the first token its context produced.
#[derive(Clone, Debug)]
pub struct SaslGssapiCreds {
    /// The first GSS-API token, produced by the caller's security
    /// context before the exchange starts.
    pub token: Vec<u8>,
}

/// Where a GSSAPI exchange stands.
#[derive(Clone, Copy, Debug, PartialEq, Eq, Structural)]
pub enum State {
    /// The first token is still to be sent.
    SendFirstToken,
    /// Every later token is relayed as it comes.
    RelayToken,
}

/// What one resume of a GSSAPI exchange yields or completes with: the
/// first token on start, every later token verbatim, success whenever
/// the peer ends the exchange.
pub open spec fn spec_gssapi_step(token: Seq<u8>, state: State, arg: SaslResume) -> (Seq<u8>, State, SaslStep<SaslGssapiError>) {
    match (state, arg) {
        (_, SaslResume::PeerFinished) => (token, state, SaslStep::Succeed),
        (State::SendFirstToken, SaslResume::Start) => (seq![], State::RelayToken, SaslStep::Respond(token)),
        (State::RelayToken, SaslResume::Challenge(next)) => (token, state, SaslStep::Respond(next@)),
        (_, _) => (token, state, SaslStep::Fail(SaslGssapiError::OutOfOrder)),
    }
}

/// I/O-free SASL GSSAPI mechanism, relaying the tokens of a security
/// context the caller holds.
pub struct SaslGssapi {
    creds: SaslGssapiCreds,
    state: State,
}

impl SaslGssapi {
    /// The first token, until it is sent.
    pub closed spec fn token(&self) -> Seq<u8> {
        self.creds.token@
    }

    /// Where the exchange stands.
    pub closed spec fn state(&self) -> State {
        self.state
    }

    /// Builds the mechanism from the first token of the caller's
    /// security context.
    pub fn new(creds: SaslGssapiCreds) -> (auth: Self)
        ensures
            auth.token() == creds.token@,
            auth.state() == State::SendFirstToken,
    {
        SaslGssapi { creds, state: State::SendFirstToken }
    }
}

impl SaslCoroutine for SaslGssapi {
    type Error = SaslGssapiError;

    fn mechanism(&self) -> (m: SaslMechanism)
        ensures
            m == SaslMechanism::Gssapi,
    {
        SaslMechanism::Gssapi
    }

    fn resume(&mut self, arg: SaslResume<'_>) -> (state: SaslCoroutineState<SaslYield, Result<(), SaslGssapiError>>)
        ensures
            (final(self).token(), final(self).state(), step_view(state)) == spec_gssapi_step(
                old(self).token(),
                old(self).state(),
                arg,
            ),
    {
        match (self.state, arg) {
            (_, SaslResume::PeerFinished) => SaslCoroutineState::Complete(Ok(())),
            (State::SendFirstToken, SaslResume::Start) => {
                let token = self.creds.token.split_off(0);
                self.state = State::RelayToken;
                assert(self.creds.token@ =~= seq![]);
                assert(token@ =~= old(self).creds.token@);
                SaslCoroutineState::Yielded(SaslYield::Respond(token))
            },
            (State::RelayToken, SaslResume::Challenge(token)) => {
                SaslCoroutineState::Yielded(SaslYield::Respond(slice_to_vec(token)))
            },
            (_, _) => SaslCoroutineState::Complete(Err(SaslGssapiError::OutOfOrder)),
        }
    }
}

/// The edges of a GSSAPI relay: a fresh exchange answers its first
/// resume with the first token as its initial response, every later
/// token is relayed exactly as the caller's context produced it, the
/// peer ending the exchange completes it successfully wherever it
/// stands and nothing else does, and a resume out of order (a challenge
/// before the first token, a second start) fails as such.
pub proof fn lemma_gssapi_edges(token: Seq<u8>, state: State, arg: SaslResume, next: &[u8])
    ensures
        spec_gssapi_step(token, State::SendFirstToken, SaslResume::Start) == (
            Seq::<u8>::empty(),
            State::RelayToken,
            SaslStep::<SaslGssapiError>::Respond(token),
        ),
        spec_gssapi_step(token, State::RelayToken, SaslResume::Challenge(next)) == (
            token,
            State::RelayToken,
            SaslStep::<SaslGssapiError>::Respond(next@),
        ),
        spec_gssapi_step(token, state, SaslResume::PeerFinished).2 == SaslStep::<SaslGssapiError>::Succeed,
        spec_gssapi_step(token, state, arg).2 is Succeed ==> arg is PeerFinished,
        spec_gssapi_step(token, State::SendFirstToken, SaslResume::Challenge(next)).2 == SaslStep::Fail(
            SaslGssapiError::OutOfOrder,
        ),
        spec_gssapi_step(token, State::RelayToken, SaslResume::Start).2 == SaslStep::Fail(SaslGssapiError::OutOfOrder),
{
}

} // verus!
