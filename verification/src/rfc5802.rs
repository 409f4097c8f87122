//! The SCRAM family (RFC 5802), shared by every digest profile.
//!
//! Four steps, the last of which is the point of the family. The client
//! sends a client-first-message naming the user and a nonce, the server
//! answers with its own nonce, a salt and an iteration count, the client
//! proves it knows the password without sending it, and the server
//! proves the same in return. That last proof is mutual authentication:
//! an exchange ending before the server signature was verified is a
//! failure, not a success, which is why [`SaslResume::PeerFinished`]
//! arriving early completes [`SaslScramError::ServerSignatureNotVerified`].
//!
//! Everything digest-agnostic lives here, in [`SaslScram`]; a profile
//! module adds the digest and the two names the profile is registered
//! under, through [`SaslScramDigest`].
//!
//! Every profile is registered twice, plain and `-PLUS`, and the
//! difference is entirely in the GS2 header of the client-first-message
//! and in the `c=` field that repeats it. The binding material itself is
//! supplied with the credentials, exactly as the client nonce is.
//!
//! Only the intra-message base64 of RFC 5802 lives here, the `s=` salt,
//! the `c=` channel binding and the `p=` proof. Transport-level base64
//! stays with the protocol crate.

use core::marker::PhantomData;

use base64::engine::general_purpose::STANDARD;
use base64::Engine;
use vstd::prelude::*;
use vstd::slice::{slice_subrange, slice_to_vec};
use vstd::utf8::*;

use crate::coroutine::{step_view, SaslCoroutine, SaslCoroutineState, SaslResume, SaslStep, SaslYield};
use crate::mechanism::SaslMechanism;
use crate::rfc4013::{saslprep, spec_saslprep, SaslPrepError};
use crate::rfc5801::{escape, spec_escape};
use crate::text::{concat, owned, 
    has_prefix, is_utf8, parse_u32, push_bytes, spec_parse_u32, spec_split,
    spec_utf8_lossy, split, string_from_utf8, string_from_utf8_lossy, views,
};

pub mod scram_sha_1;

verus! {

broadcast use vstd::string::group_string_axioms;

/// Failure causes of a SCRAM exchange, whatever the profile.
#[derive(Clone, Debug)]
pub enum SaslScramError {
    /// A server message was not valid UTF-8.
    InvalidEncoding,
    /// The server-first-message carried no `r=` nonce.
    MissingNonce,
    /// The server-first-message carried no `s=` salt.
    MissingSalt,
    /// The server-first-message carried no `i=` iteration count.
    MissingIterations,
    /// The `i=` iteration count did not parse as an integer.
    InvalidIterationCount,
    /// A base64 value in a server message failed to decode.
    InvalidBase64,
    /// The server nonce did not extend the client nonce, so the server
    /// is replaying another exchange.
    NonceMismatch,
    /// The server-final-message carried neither `v=` nor `e=`.
    InvalidServerFinal,
    /// The server-final-message reported an `e=` error.
    ServerError(String),
    /// The `v=` signature did not match the locally computed one, so
    /// the server does not know the password.
    ServerSignatureMismatch,
    /// The peer ended the exchange before the server proved itself.
    ///
    /// The variant exists so that mutual authentication cannot be
    /// skipped by omission: a protocol that accepts its own success
    /// reply without ever feeding the server-final-message back gets a
    /// failure rather than a silent half-verified success.
    ServerSignatureNotVerified,
    /// The mechanism was resumed with a challenge it does not expect,
    /// or out of order.
    UnexpectedChallenge,
    /// SASLprep refused the username or the password.
    InvalidCredentials(SaslPrepError),
}

/// [`SaslScramError`] with the text of a server error as characters.
pub enum SaslScramErrorView {
    InvalidEncoding,
    MissingNonce,
    MissingSalt,
    MissingIterations,
    InvalidIterationCount,
    InvalidBase64,
    NonceMismatch,
    InvalidServerFinal,
    ServerError(Seq<char>),
    ServerSignatureMismatch,
    ServerSignatureNotVerified,
    UnexpectedChallenge,
    InvalidCredentials(SaslPrepError),
}

impl View for SaslScramError {
    type V = SaslScramErrorView;

    open spec fn view(&self) -> SaslScramErrorView {
        match self {
            SaslScramError::InvalidEncoding => SaslScramErrorView::InvalidEncoding,
            SaslScramError::MissingNonce => SaslScramErrorView::MissingNonce,
            SaslScramError::MissingSalt => SaslScramErrorView::MissingSalt,
            SaslScramError::MissingIterations => SaslScramErrorView::MissingIterations,
            SaslScramError::InvalidIterationCount => SaslScramErrorView::InvalidIterationCount,
            SaslScramError::InvalidBase64 => SaslScramErrorView::InvalidBase64,
            SaslScramError::NonceMismatch => SaslScramErrorView::NonceMismatch,
            SaslScramError::InvalidServerFinal => SaslScramErrorView::InvalidServerFinal,
            SaslScramError::ServerError(text) => SaslScramErrorView::ServerError(text@),
            SaslScramError::ServerSignatureMismatch => SaslScramErrorView::ServerSignatureMismatch,
            SaslScramError::ServerSignatureNotVerified => SaslScramErrorView::ServerSignatureNotVerified,
            SaslScramError::UnexpectedChallenge => SaslScramErrorView::UnexpectedChallenge,
            SaslScramError::InvalidCredentials(e) => SaslScramErrorView::InvalidCredentials(*e),
        }
    }
}

impl SaslScramError {
    /// The message describing the failure.
    pub open spec fn spec_message(&self) -> Seq<char> {
        match self {
            SaslScramError::InvalidEncoding => "SASL SCRAM failed: invalid server message encoding"@,
            SaslScramError::MissingNonce => "SASL SCRAM failed: server-first-message missing nonce"@,
            SaslScramError::MissingSalt => "SASL SCRAM failed: server-first-message missing salt"@,
            SaslScramError::MissingIterations => "SASL SCRAM failed: server-first-message missing iteration count"@,
            SaslScramError::InvalidIterationCount => "SASL SCRAM failed: invalid iteration count"@,
            SaslScramError::InvalidBase64 => "SASL SCRAM failed: invalid base64 in server message"@,
            SaslScramError::NonceMismatch => "SASL SCRAM failed: server nonce does not start with client nonce"@,
            SaslScramError::InvalidServerFinal => "SASL SCRAM failed: invalid server-final-message"@,
            SaslScramError::ServerError(text) => "SASL SCRAM failed: server error: "@ + text@,
            SaslScramError::ServerSignatureMismatch => "SASL SCRAM failed: server signature mismatch"@,
            SaslScramError::ServerSignatureNotVerified => "SASL SCRAM failed: exchange ended before the server signature was verified"@,
            SaslScramError::UnexpectedChallenge => "SASL SCRAM failed: unexpected challenge"@,
            SaslScramError::InvalidCredentials(e) => "SASL SCRAM failed: "@ + e.spec_message(),
        }
    }

    /// The message describing the failure, as the error's display text.
    pub fn to_string(&self) -> (message: String)
        ensures
            message@ == self.spec_message(),
    {
        match self {
            SaslScramError::InvalidEncoding => owned("SASL SCRAM failed: invalid server message encoding"),
            SaslScramError::MissingNonce => owned("SASL SCRAM failed: server-first-message missing nonce"),
            SaslScramError::MissingSalt => owned("SASL SCRAM failed: server-first-message missing salt"),
            SaslScramError::MissingIterations => owned("SASL SCRAM failed: server-first-message missing iteration count"),
            SaslScramError::InvalidIterationCount => owned("SASL SCRAM failed: invalid iteration count"),
            SaslScramError::InvalidBase64 => owned("SASL SCRAM failed: invalid base64 in server message"),
            SaslScramError::NonceMismatch => owned("SASL SCRAM failed: server nonce does not start with client nonce"),
            SaslScramError::InvalidServerFinal => owned("SASL SCRAM failed: invalid server-final-message"),
            SaslScramError::ServerError(text) => concat("SASL SCRAM failed: server error: ", text.as_str()),
            SaslScramError::ServerSignatureMismatch => owned("SASL SCRAM failed: server signature mismatch"),
            SaslScramError::ServerSignatureNotVerified => owned("SASL SCRAM failed: exchange ended before the server signature was verified"),
            SaslScramError::UnexpectedChallenge => owned("SASL SCRAM failed: unexpected challenge"),
            SaslScramError::InvalidCredentials(e) => {
                let reason = e.to_string();
                concat("SASL SCRAM failed: ", reason.as_str())
            },
        }
    }
}

/// The channel binding an exchange runs with, which is also what picks
/// between a profile's two registered names.
///
/// RFC 5802 section 6 makes the middle case mandatory rather than
/// cosmetic: a client that supports channel binding and does not use it
/// says so, so that a server supporting it too can see that its `-PLUS`
/// name was stripped in flight and abort.
#[derive(Clone, Debug)]
pub enum SaslScramChannelBinding {
    /// The client does not support channel binding, the `n` flag.
    Unsupported,
    /// The client supports channel binding but the server never
    /// advertised the `-PLUS` name, the `y` flag.
    Unused,
    /// Channel binding is in use, the `p` flag.
    Bound {
        /// Which binding the data was extracted from.
        kind: SaslScramChannelBindingKind,
        /// The binding material, extracted from the TLS session by the
        /// caller.
        data: Vec<u8>,
    },
}

/// The channel bindings a TLS connection can offer.
#[derive(Clone, Copy, Debug, PartialEq, Eq, Structural)]
pub enum SaslScramChannelBindingKind {
    /// The TLS 1.3 exporter binding (RFC 9266).
    TlsExporter,
    /// The finished-message binding of TLS 1.2 and below (RFC 5929
    /// section 3).
    TlsUnique,
    /// The server-certificate binding (RFC 5929 section 4).
    TlsServerEndPoint,
}

/// The name a channel binding is registered under with IANA.
pub open spec fn scram_binding_name(kind: SaslScramChannelBindingKind) -> Seq<char> {
    match kind {
        SaslScramChannelBindingKind::TlsExporter => "tls-exporter"@,
        SaslScramChannelBindingKind::TlsUnique => "tls-unique"@,
        SaslScramChannelBindingKind::TlsServerEndPoint => "tls-server-end-point"@,
    }
}

impl SaslScramChannelBindingKind {
    /// The binding name as registered with IANA and written in the GS2
    /// header.
    pub fn as_str(&self) -> (name: &'static str)
        ensures
            name@ == scram_binding_name(*self),
    {
        match self {
            Self::TlsExporter => "tls-exporter",
            Self::TlsUnique => "tls-unique",
            Self::TlsServerEndPoint => "tls-server-end-point",
        }
    }
}

/// SCRAM credentials, shared by every profile.
///
/// The username and the password are run through SASLprep before use.
/// The password is never sent on the wire, and the struct has no
/// `Debug` so that it cannot reach a log either.
#[derive(Clone)]
pub struct SaslScramCreds {
    /// The account username.
    pub username: String,
    /// The password, never sent on the wire.
    pub password: String,
    /// The client nonce, printable ASCII without commas.
    ///
    /// RFC 5802 section 5.1 recommends at least 18 bytes of
    /// cryptographic randomness. It sits with the credentials because
    /// an I/O-free coroutine cannot generate randomness.
    pub nonce: Vec<u8>,
    /// The channel binding, which picks between the profile's plain and
    /// `-PLUS` names.
    pub channel_binding: SaslScramChannelBinding,
}

/// A digest a SCRAM profile is built on, with the two names that
/// profile is registered under.
///
/// A profile module implements it for its digest and is then one type
/// alias long. The spec functions name what the digest computes; each
/// implementation ties them to the outside function that computes it.
pub trait SaslScramDigest {
    /// The name the profile is registered under without channel
    /// binding.
    spec fn spec_mechanism() -> SaslMechanism;

    /// The name the profile is registered under with channel binding.
    spec fn spec_mechanism_plus() -> SaslMechanism;

    /// PBKDF2 over HMAC with this digest, one digest long.
    spec fn spec_pbkdf2(password: Seq<u8>, salt: Seq<u8>, rounds: u32) -> Seq<u8>;

    /// HMAC with this digest.
    spec fn spec_hmac(key: Seq<u8>, data: Seq<u8>) -> Seq<u8>;

    /// The digest itself.
    spec fn spec_hash(data: Seq<u8>) -> Seq<u8>;

    /// The name the profile is registered under without channel
    /// binding.
    fn mechanism() -> (m: SaslMechanism)
        ensures
            m == Self::spec_mechanism(),
    ;

    /// The name the profile is registered under with channel binding.
    fn mechanism_plus() -> (m: SaslMechanism)
        ensures
            m == Self::spec_mechanism_plus(),
    ;

    /// `Hi(password, salt, rounds)` of RFC 5802.
    fn pbkdf2(password: &[u8], salt: &[u8], rounds: u32) -> (key: Vec<u8>)
        ensures
            key@ == Self::spec_pbkdf2(password@, salt@, rounds),
    ;

    /// `HMAC(key, data)` of RFC 5802.
    fn hmac(key: &[u8], data: &[u8]) -> (mac: Vec<u8>)
        ensures
            mac@ == Self::spec_hmac(key@, data@),
    ;

    /// `H(data)` of RFC 5802.
    fn hash(data: &[u8]) -> (digest: Vec<u8>)
        ensures
            digest@ == Self::spec_hash(data@),
    ;
}

/// The digit of the standard base64 alphabet (RFC 4648 section 4)
/// standing for a six-bit value: `A`-`Z`, `a`-`z`, `0`-`9`, `+`, `/`.
pub open spec fn base64_digit(v: u8) -> u8 {
    if v < 26 {
        (0x41 + v) as u8
    } else if v < 52 {
        (0x61 + v - 26) as u8
    } else if v < 62 {
        (0x30 + v - 52) as u8
    } else if v == 62 {
        0x2bu8
    } else {
        0x2fu8
    }
}

/// Standard padded base64 (RFC 4648 section 4): each group of three
/// bytes becomes four digits, and a final group of one or two bytes is
/// padded with `=` to four.
pub open spec fn spec_base64_encode(data: Seq<u8>) -> Seq<u8>
    decreases data.len(),
{
    if data.len() == 0 {
        seq![]
    } else if data.len() == 1 {
        let a = data[0];
        seq![base64_digit(a >> 2u8), base64_digit((a & 3u8) << 4u8), 0x3du8, 0x3du8]
    } else if data.len() == 2 {
        let a = data[0];
        let b = data[1];
        seq![base64_digit(a >> 2u8), base64_digit(((a & 3u8) << 4u8) | (b >> 4u8)), base64_digit((b & 15u8) << 2u8), 0x3du8]
    } else {
        let a = data[0];
        let b = data[1];
        let c = data[2];
        seq![
            base64_digit(a >> 2u8),
            base64_digit(((a & 3u8) << 4u8) | (b >> 4u8)),
            base64_digit(((b & 15u8) << 2u8) | (c >> 6u8)),
            base64_digit(c & 63u8),
        ] + spec_base64_encode(data.skip(3))
    }
}

/// What a canonical decoder makes of a text: the data whose encoding it
/// is, or `None` where it is no encoding at all.
pub open spec fn spec_base64_decode(text: Seq<u8>) -> Option<Seq<u8>> {
    if exists|d: Seq<u8>| spec_base64_encode(d) == text {
        Some(choose|d: Seq<u8>| spec_base64_encode(d) == text)
    } else {
        None
    }
}

/// Different six-bit values have different digits, none of them `=`.
proof fn lemma_base64_digit(v: u8, w: u8)
    requires
        v < 64,
        w < 64,
    ensures
        base64_digit(v) != 0x3d,
        base64_digit(v) == base64_digit(w) ==> v == w,
{
}

/// Different data have different encodings.
pub proof fn lemma_base64_encode_injective(a: Seq<u8>, b: Seq<u8>)
    requires
        spec_base64_encode(a) == spec_base64_encode(b),
    ensures
        a == b,
    decreases a.len(),
{
    let ea = spec_base64_encode(a);
    let eb = spec_base64_encode(b);
    if a.len() == 0 || b.len() == 0 {
        if a.len() != 0 {
            assert(ea.len() >= 4);
        }
        if b.len() != 0 {
            assert(eb.len() >= 4);
        }
        assert(a =~= b);
        return;
    }
    let (a0, b0) = (a[0], b[0]);
    assert(a0 >> 2u8 < 64 && (a0 & 3u8) << 4u8 < 64) by (bit_vector);
    assert(b0 >> 2u8 < 64 && (b0 & 3u8) << 4u8 < 64) by (bit_vector);
    lemma_base64_digit(a0 >> 2u8, b0 >> 2u8);
    if a.len() >= 2 {
        let a1 = a[1];
        assert(((a0 & 3u8) << 4u8) | (a1 >> 4u8) < 64 && (a1 & 15u8) << 2u8 < 64) by (bit_vector);
        if a.len() >= 3 {
            let a2 = a[2];
            assert(((a1 & 15u8) << 2u8) | (a2 >> 6u8) < 64 && a2 & 63u8 < 64) by (bit_vector);
        }
    }
    if b.len() >= 2 {
        let b1 = b[1];
        assert(((b0 & 3u8) << 4u8) | (b1 >> 4u8) < 64 && (b1 & 15u8) << 2u8 < 64) by (bit_vector);
        if b.len() >= 3 {
            let b2 = b[2];
            assert(((b1 & 15u8) << 2u8) | (b2 >> 6u8) < 64 && b2 & 63u8 < 64) by (bit_vector);
        }
    }
    if a.len() >= 3 && b.len() >= 3 {
        let (a1, a2, b1, b2) = (a[1], a[2], b[1], b[2]);
        let va = (a0 >> 2u8, ((a0 & 3u8) << 4u8) | (a1 >> 4u8), ((a1 & 15u8) << 2u8) | (a2 >> 6u8), a2 & 63u8);
        let vb = (b0 >> 2u8, ((b0 & 3u8) << 4u8) | (b1 >> 4u8), ((b1 & 15u8) << 2u8) | (b2 >> 6u8), b2 & 63u8);
        assert(ea[0] == eb[0] && ea[1] == eb[1] && ea[2] == eb[2] && ea[3] == eb[3]);
        lemma_base64_digit(va.1, vb.1);
        lemma_base64_digit(va.2, vb.2);
        lemma_base64_digit(va.3, vb.3);
        assert(a0 == b0 && a1 == b1 && a2 == b2) by (bit_vector)
            requires
                a0 >> 2u8 == b0 >> 2u8,
                ((a0 & 3u8) << 4u8) | (a1 >> 4u8) == ((b0 & 3u8) << 4u8) | (b1 >> 4u8),
                ((a1 & 15u8) << 2u8) | (a2 >> 6u8) == ((b1 & 15u8) << 2u8) | (b2 >> 6u8),
                a2 & 63u8 == b2 & 63u8,
        ;
        assert(ea.skip(4) =~= spec_base64_encode(a.skip(3)));
        assert(eb.skip(4) =~= spec_base64_encode(b.skip(3)));
        lemma_base64_encode_injective(a.skip(3), b.skip(3));
        assert(a =~= seq![a0, a1, a2] + a.skip(3));
        assert(b =~= seq![b0, b1, b2] + b.skip(3));
    } else if a.len() >= 3 || b.len() >= 3 {
        // One side carries a digit where the other pads.
        assert(ea[3] == eb[3]);
        if a.len() >= 3 {
            let (a1, a2) = (a[1], a[2]);
            lemma_base64_digit(a2 & 63u8, a2 & 63u8);
        } else {
            let (b1, b2) = (b[1], b[2]);
            lemma_base64_digit(b2 & 63u8, b2 & 63u8);
        }
    } else if a.len() == 1 && b.len() == 1 {
        assert(ea[1] == eb[1]);
        lemma_base64_digit((a0 & 3u8) << 4u8, (b0 & 3u8) << 4u8);
        assert(a0 == b0) by (bit_vector)
            requires
                a0 >> 2u8 == b0 >> 2u8,
                (a0 & 3u8) << 4u8 == (b0 & 3u8) << 4u8,
        ;
        assert(a =~= b);
    } else if a.len() == 2 && b.len() == 2 {
        let (a1, b1) = (a[1], b[1]);
        assert(ea[1] == eb[1] && ea[2] == eb[2]);
        lemma_base64_digit(((a0 & 3u8) << 4u8) | (a1 >> 4u8), ((b0 & 3u8) << 4u8) | (b1 >> 4u8));
        lemma_base64_digit((a1 & 15u8) << 2u8, (b1 & 15u8) << 2u8);
        assert(a0 == b0 && a1 == b1) by (bit_vector)
            requires
                a0 >> 2u8 == b0 >> 2u8,
                ((a0 & 3u8) << 4u8) | (a1 >> 4u8) == ((b0 & 3u8) << 4u8) | (b1 >> 4u8),
                (a1 & 15u8) << 2u8 == (b1 & 15u8) << 2u8,
        ;
        assert(a =~= b);
    } else {
        // One byte against two: the third digit pads on one side only.
        assert(ea[2] == eb[2]);
        if a.len() == 2 {
            let a1 = a[1];
            lemma_base64_digit((a1 & 15u8) << 2u8, (a1 & 15u8) << 2u8);
        } else {
            let b1 = b[1];
            lemma_base64_digit((b1 & 15u8) << 2u8, (b1 & 15u8) << 2u8);
        }
    }
}

/// A text encoding some data decodes to exactly that data.
pub proof fn lemma_base64_decode_encode(data: Seq<u8>)
    ensures
        spec_base64_decode(spec_base64_encode(data)) == Some(data),
{
    let text = spec_base64_encode(data);
    assert(spec_base64_encode(data) == text);
    let d = choose|d: Seq<u8>| spec_base64_encode(d) == text;
    lemma_base64_encode_injective(d, data);
}

/// `base64::engine::general_purpose::STANDARD.encode`, as bytes: the
/// standard alphabet, padded.
#[verifier::external_body]
fn base64_encode(data: &[u8]) -> (text: Vec<u8>)
    ensures
        text@ == spec_base64_encode(data@),
{
    STANDARD.encode(data).into_bytes()
}

/// `base64::engine::general_purpose::STANDARD.decode`, its error
/// reduced to `None`. The engine requires canonical padding and refuses
/// trailing bits, so it accepts exactly the texts that are the encoding
/// of some data, and returns that data.
#[verifier::external_body]
fn base64_decode(text: &[u8]) -> (data: Option<Vec<u8>>)
    ensures
        match data {
            Some(d) => spec_base64_encode(d@) == text@,
            None => forall|d: Seq<u8>| spec_base64_encode(d) != text@,
        },
{
    STANDARD.decode(text).ok()
}

/// Decodes standard padded base64, refusing any text that is not the
/// encoding of some data.
fn decode_base64(text: &[u8]) -> (data: Option<Vec<u8>>)
    ensures
        match spec_base64_decode(text@) {
            Some(d) => data matches Some(v) && v@ == d,
            None => data is None,
        },
{
    let data = base64_decode(text);
    proof {
        if data is Some {
            lemma_base64_decode_encode(data->0@);
        }
    }
    data
}

/// Where a SCRAM exchange stands.
#[derive(Clone, Copy, Debug, PartialEq, Eq, Structural)]
pub enum State {
    /// The client-first-message is still to be sent.
    SendClientFirst,
    /// The server-first-message is awaited, to be answered with the
    /// client-final-message.
    SendClientFinal,
    /// The server-final-message is awaited, to be verified.
    Acknowledge,
    /// The server proved itself.
    Done,
}

/// The abstract state of a SCRAM exchange.
pub struct SaslScramView {
    /// The password, as UTF-8.
    pub password: Seq<u8>,
    /// The client nonce, as UTF-8.
    pub client_nonce: Seq<u8>,
    /// The client-first-message without its GS2 header.
    pub client_first_bare: Seq<u8>,
    /// The GS2 header opening the client-first-message.
    pub gs2_header: Seq<u8>,
    /// The base64 of the GS2 header and binding data, the `c=` value.
    pub cbind_input: Seq<u8>,
    /// The name the exchange runs under.
    pub mechanism: SaslMechanism,
    /// The server signature the server-final-message must carry.
    pub expected_server_signature: Seq<u8>,
    /// Where the exchange stands.
    pub state: State,
    /// The refusal SASLprep gave the username or the password, which
    /// the exchange fails with as soon as it starts.
    pub refused: Option<SaslPrepError>,
}

/// The GS2 header of a SCRAM exchange: the flag and an empty
/// authorization identity.
pub open spec fn spec_scram_gs2_header(cb: SaslScramChannelBinding) -> Seq<u8> {
    match cb {
        SaslScramChannelBinding::Unsupported => seq![0x6eu8, 0x2cu8, 0x2cu8],
        SaslScramChannelBinding::Unused => seq![0x79u8, 0x2cu8, 0x2cu8],
        SaslScramChannelBinding::Bound { kind, .. } => seq![0x70u8, 0x3du8] + encode_utf8(
            scram_binding_name(kind),
        ) + seq![0x2cu8, 0x2cu8],
    }
}

/// The binding material, empty unless the exchange is bound.
pub open spec fn spec_scram_binding_data(cb: SaslScramChannelBinding) -> Seq<u8> {
    match cb {
        SaslScramChannelBinding::Bound { data, .. } => data@,
        _ => seq![],
    }
}

/// The client nonce as it travels: the credential bytes read as UTF-8,
/// ill-formed sequences replaced.
pub open spec fn spec_client_nonce(creds: SaslScramCreds) -> Seq<u8> {
    encode_utf8(spec_utf8_lossy(creds.nonce@))
}

/// The string SASLprep prepared, empty where it refused its input (an
/// exchange whose credentials were refused never sends either).
pub open spec fn spec_prepared_or_empty(prepared: Result<Seq<char>, SaslPrepError>) -> Seq<char> {
    match prepared {
        Ok(p) => p,
        Err(_) => Seq::<char>::empty(),
    }
}

/// The refusal SASLprep gives the credentials: the username's, else
/// the password's, else none.
pub open spec fn spec_scram_refusal(creds: SaslScramCreds) -> Option<SaslPrepError> {
    match (spec_saslprep(creds.username@), spec_saslprep(creds.password@)) {
        (Err(e), _) => Some(e),
        (Ok(_), Err(e)) => Some(e),
        (Ok(_), Ok(_)) => None,
    }
}

/// `n=<escaped username>,r=<client nonce>`, the username as SASLprep
/// prepares it.
pub open spec fn spec_client_first_bare(creds: SaslScramCreds) -> Seq<u8> {
    seq![0x6eu8, 0x3du8] + encode_utf8(spec_escape(spec_prepared_or_empty(spec_saslprep(creds.username@))))
        + seq![0x2cu8, 0x72u8, 0x3du8] + spec_client_nonce(creds)
}

/// The state a SCRAM exchange starts in, built from its credentials.
pub open spec fn spec_scram_initial<D: SaslScramDigest>(creds: SaslScramCreds) -> SaslScramView {
    let cb = creds.channel_binding;
    SaslScramView {
        password: encode_utf8(spec_prepared_or_empty(spec_saslprep(creds.password@))),
        client_nonce: spec_client_nonce(creds),
        client_first_bare: spec_client_first_bare(creds),
        gs2_header: spec_scram_gs2_header(cb),
        cbind_input: spec_base64_encode(spec_scram_gs2_header(cb) + spec_scram_binding_data(cb)),
        mechanism: if cb is Bound {
            D::spec_mechanism_plus()
        } else {
            D::spec_mechanism()
        },
        expected_server_signature: seq![],
        state: State::SendClientFirst,
        refused: spec_scram_refusal(creds),
    }
}

/// The fields gathered from a server-first-message so far: the last
/// `r=` nonce, the last decoded `s=` salt and the last `i=` count.
pub type ScramScan = (Option<Seq<u8>>, Option<Seq<u8>>, Option<u32>);

/// What one field of a server-first-message adds to the scan, or the
/// failure it stops it with.
pub open spec fn spec_scan_field(acc: ScramScan, field: Seq<u8>) -> Result<ScramScan, SaslScramErrorView> {
    if has_prefix(field, seq![0x72u8, 0x3du8]) {
        Ok((Some(field.skip(2)), acc.1, acc.2))
    } else if has_prefix(field, seq![0x73u8, 0x3du8]) {
        match spec_base64_decode(field.skip(2)) {
            Some(salt) => Ok((acc.0, Some(salt), acc.2)),
            None => Err(SaslScramErrorView::InvalidBase64),
        }
    } else if has_prefix(field, seq![0x69u8, 0x3du8]) {
        match spec_parse_u32(field.skip(2)) {
            Some(i) => Ok((acc.0, acc.1, Some(i))),
            None => Err(SaslScramErrorView::InvalidIterationCount),
        }
    } else {
        Ok(acc)
    }
}

/// The scan of the fields of a server-first-message, left to right,
/// stopping at the first field that fails.
pub open spec fn spec_scan_fields(fields: Seq<Seq<u8>>) -> Result<ScramScan, SaslScramErrorView>
    decreases fields.len(),
{
    if fields.len() == 0 {
        Ok((None, None, None))
    } else {
        match spec_scan_fields(fields.drop_last()) {
            Err(e) => Err(e),
            Ok(acc) => spec_scan_field(acc, fields.last()),
        }
    }
}

/// The `r=` prefix of a nonce field.
pub open spec fn nonce_prefix() -> Seq<u8> {
    seq![0x72u8, 0x3du8]
}

/// The `s=` prefix of a salt field.
pub open spec fn salt_prefix() -> Seq<u8> {
    seq![0x73u8, 0x3du8]
}

/// The `i=` prefix of an iteration count field.
pub open spec fn iterations_prefix() -> Seq<u8> {
    seq![0x69u8, 0x3du8]
}

/// The `k`-th field is the last of `fields` carrying `prefix`.
pub open spec fn is_last_with(fields: Seq<Seq<u8>>, prefix: Seq<u8>, k: int) -> bool {
    &&& 0 <= k < fields.len()
    &&& has_prefix(fields[k], prefix)
    &&& forall|l: int| k < l < fields.len() ==> !has_prefix(#[trigger] fields[l], prefix)
}

/// No field of `fields` carries `prefix`.
pub open spec fn none_with(fields: Seq<Seq<u8>>, prefix: Seq<u8>) -> bool {
    forall|l: int| 0 <= l < fields.len() ==> !has_prefix(#[trigger] fields[l], prefix)
}

/// The scan of a server-first-message, stated field by field: a failed
/// scan failed at a field every earlier one of which scanned, and a
/// successful one holds, of each of `r=`, `s=` and `i=`, the value of
/// the last field carrying it (decoded from base64 for the salt, parsed
/// for the count), or nothing where no field carries it.
pub proof fn lemma_scan_fields_field_by_field(fields: Seq<Seq<u8>>)
    ensures
        spec_scan_fields(fields) matches Err(e) ==> exists|k: int|
            #![trigger fields[k]]
            {
                &&& 0 <= k < fields.len()
                &&& spec_scan_fields(fields.take(k)) matches Ok(acc)
                &&& spec_scan_field(acc, fields[k]) == Err::<ScramScan, SaslScramErrorView>(e)
            },
        spec_scan_fields(fields) matches Ok((nonce, salt, iterations)) ==> {
            &&& (nonce is None <==> none_with(fields, nonce_prefix()))
            &&& (nonce matches Some(v) ==> exists|k: int| #[trigger] is_last_with(fields, nonce_prefix(), k) && v == fields[k].skip(2))
            &&& (salt is None <==> none_with(fields, salt_prefix()))
            &&& (salt matches Some(v) ==> exists|k: int| #[trigger] is_last_with(fields, salt_prefix(), k)
                && spec_base64_decode(fields[k].skip(2)) == Some(v))
            &&& (iterations is None <==> none_with(fields, iterations_prefix()))
            &&& (iterations matches Some(v) ==> exists|k: int| #[trigger] is_last_with(fields, iterations_prefix(), k)
                && spec_parse_u32(fields[k].skip(2)) == Some(v))
        },
    decreases fields.len(),
{
    if fields.len() > 0 {
        let prefix = fields.drop_last();
        let last = fields.last();
        let n = fields.len() - 1;
        lemma_scan_fields_field_by_field(prefix);
        assert(fields.take(n) =~= prefix);
        assert forall|l: int| 0 <= l < n implies #[trigger] fields[l] == prefix[l] by {}
        let r = nonce_prefix();
        let sp = salt_prefix();
        let ip = iterations_prefix();
        assert(has_prefix(last, r) ==> last[0] == 0x72u8) by {
            if has_prefix(last, r) {
                assert(last.take(2)[0] == last[0]);
            }
        }
        assert(has_prefix(last, sp) ==> last[0] == 0x73u8) by {
            if has_prefix(last, sp) {
                assert(last.take(2)[0] == last[0]);
            }
        }
        assert(has_prefix(last, ip) ==> last[0] == 0x69u8) by {
            if has_prefix(last, ip) {
                assert(last.take(2)[0] == last[0]);
            }
        }
        match spec_scan_fields(prefix) {
            Err(e) => {
                let k = choose|k: int|
                    #![trigger prefix[k]]
                    {
                        &&& 0 <= k < prefix.len()
                        &&& spec_scan_fields(prefix.take(k)) matches Ok(acc)
                        &&& spec_scan_field(acc, prefix[k]) == Err::<ScramScan, SaslScramErrorView>(e)
                    };
                assert(prefix.take(k) =~= fields.take(k));
                assert(fields[k] == prefix[k]);
            },
            Ok(acc) => {
                match spec_scan_field(acc, last) {
                    Err(e) => {
                        assert(fields[n] == last);
                    },
                    Ok(next) => {
                        let (nonce, salt, iterations) = acc;
                        if let Some(v) = nonce {
                            let k = choose|k: int| #[trigger] is_last_with(prefix, r, k) && v == prefix[k].skip(2);
                            if !has_prefix(last, r) {
                                assert(is_last_with(fields, r, k));
                            }
                        }
                        if has_prefix(last, r) {
                            assert(is_last_with(fields, r, n));
                        }
                        if let Some(v) = salt {
                            let k = choose|k: int| #[trigger] is_last_with(prefix, sp, k) && spec_base64_decode(prefix[k].skip(2)) == Some(v);
                            if !has_prefix(last, sp) {
                                assert(is_last_with(fields, sp, k));
                            }
                        }
                        if has_prefix(last, sp) {
                            assert(is_last_with(fields, sp, n));
                        }
                        if let Some(v) = iterations {
                            let k = choose|k: int| #[trigger] is_last_with(prefix, ip, k) && spec_parse_u32(prefix[k].skip(2)) == Some(v);
                            if !has_prefix(last, ip) {
                                assert(is_last_with(fields, ip, k));
                            }
                        }
                        if has_prefix(last, ip) {
                            assert(is_last_with(fields, ip, n));
                        }
                    },
                }
            },
        }
    }
}

/// The nonce, salt and iteration count a server-first-message carries.
pub open spec fn spec_parse_server_first(server_first: Seq<u8>) -> Result<(Seq<u8>, Seq<u8>, u32), SaslScramErrorView> {
    if !valid_utf8(server_first) {
        Err(SaslScramErrorView::InvalidEncoding)
    } else {
        match spec_scan_fields(spec_split(server_first, 0x2cu8)) {
            Err(e) => Err(e),
            Ok((nonce, salt, iterations)) => {
                if nonce is None {
                    Err(SaslScramErrorView::MissingNonce)
                } else if salt is None {
                    Err(SaslScramErrorView::MissingSalt)
                } else if iterations is None {
                    Err(SaslScramErrorView::MissingIterations)
                } else {
                    Ok((nonce->0, salt->0, iterations->0))
                }
            },
        }
    }
}

/// `a XOR b`, as long as `a`, over the bytes both have.
pub open spec fn spec_xor(a: Seq<u8>, b: Seq<u8>) -> Seq<u8> {
    Seq::new(a.len(), |i: int| if i < b.len() { a[i] ^ b[i] } else { a[i] })
}

/// The label keying the client key, `Client Key`.
pub open spec fn client_key_label() -> Seq<u8> {
    seq![0x43u8, 0x6cu8, 0x69u8, 0x65u8, 0x6eu8, 0x74u8, 0x20u8, 0x4bu8, 0x65u8, 0x79u8]
}

/// The label keying the server key, `Server Key`.
pub open spec fn server_key_label() -> Seq<u8> {
    seq![0x53u8, 0x65u8, 0x72u8, 0x76u8, 0x65u8, 0x72u8, 0x20u8, 0x4bu8, 0x65u8, 0x79u8]
}

/// `c=<cbind input>,r=<server nonce>`.
pub open spec fn spec_client_final_without_proof(m: SaslScramView, nonce: Seq<u8>) -> Seq<u8> {
    seq![0x63u8, 0x3du8] + m.cbind_input + seq![0x2cu8, 0x72u8, 0x3du8] + nonce
}

/// `client-first-message-bare , server-first-message ,
/// client-final-message-without-proof`, the message both proofs sign.
pub open spec fn spec_auth_message(m: SaslScramView, server_first: Seq<u8>, nonce: Seq<u8>) -> Seq<u8> {
    m.client_first_bare + seq![0x2cu8] + server_first + seq![0x2cu8] + spec_client_final_without_proof(
        m,
        nonce,
    )
}

/// The client-final-message answering a server-first-message, and the
/// server signature to expect in return (RFC 5802 section 3).
pub open spec fn spec_client_final<D: SaslScramDigest>(m: SaslScramView, server_first: Seq<u8>) -> Result<(Seq<u8>, Seq<u8>), SaslScramErrorView> {
    match spec_parse_server_first(server_first) {
        Err(e) => Err(e),
        Ok((nonce, salt, iterations)) => {
            if !m.client_nonce.is_prefix_of(nonce) {
                Err(SaslScramErrorView::NonceMismatch)
            } else {
                let auth_message = spec_auth_message(m, server_first, nonce);
                let salted_password = D::spec_pbkdf2(m.password, salt, iterations);
                let client_key = D::spec_hmac(salted_password, client_key_label());
                let stored_key = D::spec_hash(client_key);
                let client_signature = D::spec_hmac(stored_key, auth_message);
                let client_proof = spec_xor(client_key, client_signature);
                let server_key = D::spec_hmac(salted_password, server_key_label());
                let server_signature = D::spec_hmac(server_key, auth_message);
                Ok((
                    spec_client_final_without_proof(m, nonce) + seq![0x2cu8, 0x70u8, 0x3du8]
                        + spec_base64_encode(client_proof),
                    server_signature,
                ))
            }
        },
    }
}

/// The verdict on a server-final-message: its `e=` error, or whether
/// its `v=` signature is the expected one. The decoder accepting only
/// canonical base64, a signature it accepts is one the `v=` text is the
/// encoding of.
pub open spec fn spec_verify_server_final(expected: Seq<u8>, server_final: Seq<u8>) -> Result<(), SaslScramErrorView> {
    if !valid_utf8(server_final) {
        Err(SaslScramErrorView::InvalidEncoding)
    } else if has_prefix(server_final, seq![0x65u8, 0x3du8]) {
        Err(SaslScramErrorView::ServerError(decode_utf8(server_final.skip(2))))
    } else if !has_prefix(server_final, seq![0x76u8, 0x3du8]) {
        Err(SaslScramErrorView::InvalidServerFinal)
    } else {
        match spec_base64_decode(server_final.skip(2)) {
            None => Err(SaslScramErrorView::InvalidBase64),
            Some(signature) => if signature == expected && spec_base64_encode(signature) == server_final.skip(2) {
                Ok(())
            } else {
                Err(SaslScramErrorView::ServerSignatureMismatch)
            },
        }
    }
}

/// What one resume of a SCRAM exchange yields or completes with, and
/// the state it leaves behind (RFC 5802 section 5).
pub open spec fn spec_scram_step<D: SaslScramDigest>(m: SaslScramView, arg: SaslResume) -> (SaslScramView, SaslStep<SaslScramErrorView>) {
    match (m.state, arg) {
        (State::SendClientFirst, SaslResume::Start) => match m.refused {
            Some(e) => (m, SaslStep::Fail(SaslScramErrorView::InvalidCredentials(e))),
            None => (SaslScramView { state: State::SendClientFinal, ..m }, SaslStep::Respond(m.gs2_header + m.client_first_bare)),
        },
        (State::SendClientFinal, SaslResume::Challenge(server_first)) => match spec_client_final::<D>(m, server_first@) {
            Ok((message, signature)) => (
                SaslScramView { state: State::Acknowledge, expected_server_signature: signature, ..m },
                SaslStep::Respond(message),
            ),
            Err(e) => (m, SaslStep::Fail(e)),
        },
        (State::Acknowledge, SaslResume::Challenge(server_final)) => match spec_verify_server_final(m.expected_server_signature, server_final@) {
            Ok(()) => (SaslScramView { state: State::Done, ..m }, SaslStep::Respond(seq![])),
            Err(e) => (m, SaslStep::Fail(e)),
        },
        (State::Done, SaslResume::PeerFinished) => (m, SaslStep::Succeed),
        (_, SaslResume::PeerFinished) => (m, SaslStep::Fail(SaslScramErrorView::ServerSignatureNotVerified)),
        (_, _) => (m, SaslStep::Fail(SaslScramErrorView::UnexpectedChallenge)),
    }
}

/// I/O-free SASL SCRAM mechanism, in the profile of its digest.
///
/// Reach for it through a profile alias rather than directly:
/// [`scram_sha_1::SaslScramSha1`], or `SaslScram` over
/// [`crate::rfc7677::scram_sha_256::Sha256`] or
/// [`crate::scram_sha_512::Sha512`].
pub struct SaslScram<D> {
    password: String,
    client_nonce: Vec<u8>,
    client_first_bare: Vec<u8>,
    gs2_header: Vec<u8>,
    cbind_input: Vec<u8>,
    mechanism: SaslMechanism,
    expected_server_signature: Vec<u8>,
    state: State,
    refused: Option<SaslPrepError>,
    digest: PhantomData<D>,
}

impl<D: SaslScramDigest> View for SaslScram<D> {
    type V = SaslScramView;

    closed spec fn view(&self) -> SaslScramView {
        SaslScramView {
            password: encode_utf8(self.password@),
            client_nonce: self.client_nonce@,
            client_first_bare: self.client_first_bare@,
            gs2_header: self.gs2_header@,
            cbind_input: self.cbind_input@,
            mechanism: self.mechanism,
            expected_server_signature: self.expected_server_signature@,
            state: self.state,
            refused: self.refused,
        }
    }
}

} // verus!

verus! {

/// Whether `prefix` opens `s`, as `str::starts_with` compares them.
fn starts_with(s: &[u8], prefix: &[u8]) -> (opens: bool)
    ensures
        opens == prefix@.is_prefix_of(s@),
{
    if prefix.len() > s.len() {
        return false;
    }
    let mut i: usize = 0;
    while i < prefix.len()
        invariant
            prefix.len() <= s.len(),
            i <= prefix.len(),
            forall|j: int| 0 <= j < i ==> prefix@[j] == s@[j],
        decreases prefix.len() - i,
    {
        if prefix[i] != s[i] {
            return false;
        }
        i = i + 1;
    }
    true
}

/// Whether `field` opens with the two bytes `a` and `b`.
fn opens_with(field: &[u8], a: u8, b: u8) -> (opens: bool)
    ensures
        opens == has_prefix(field@, seq![a, b]),
{
    let opens = field.len() >= 2 && field[0] == a && field[1] == b;
    proof {
        if field@.len() >= 2 {
            assert(opens == (field@.take(2) =~= seq![a, b]));
        }
    }
    opens
}

/// The view of an optional vector.
pub open spec fn opt_view(v: Option<Vec<u8>>) -> Option<Seq<u8>> {
    match v {
        Some(v) => Some(v@),
        None => None,
    }
}

/// A failed scan of a prefix of the fields is the failed scan of all
/// of them.
proof fn lemma_scan_failure_sticks(fields: Seq<Seq<u8>>, n: int)
    requires
        0 <= n <= fields.len(),
        spec_scan_fields(fields.take(n)) is Err,
    ensures
        spec_scan_fields(fields) == spec_scan_fields(fields.take(n)),
    decreases fields.len() - n,
{
    if n < fields.len() {
        assert(fields.take(n + 1).drop_last() =~= fields.take(n));
        lemma_scan_failure_sticks(fields, n + 1);
    } else {
        assert(fields.take(n) =~= fields);
    }
}

/// Scans the fields of a server-first-message for its nonce, salt and
/// iteration count, stopping at the first one that fails.
fn scan_fields(fields: &Vec<Vec<u8>>) -> (scan: Result<(Option<Vec<u8>>, Option<Vec<u8>>, Option<u32>), SaslScramError>)
    ensures
        match spec_scan_fields(views(fields@)) {
            Ok((nonce, salt, iterations)) => scan matches Ok((n, s, i)) && opt_view(n) == nonce
                && opt_view(s) == salt && i == iterations,
            Err(e) => scan matches Err(err) && err@ == e,
        },
{
    let ghost all = views(fields@);
    let mut nonce: Option<Vec<u8>> = None;
    let mut salt: Option<Vec<u8>> = None;
    let mut iterations: Option<u32> = None;
    let mut k: usize = 0;
    while k < fields.len()
        invariant
            k <= fields.len(),
            all == views(fields@),
            spec_scan_fields(all.take(k as int)) == Ok::<ScramScan, SaslScramErrorView>(
                (opt_view(nonce), opt_view(salt), iterations),
            ),
        decreases fields.len() - k,
    {
        let field = &fields[k];
        let ghost acc = (opt_view(nonce), opt_view(salt), iterations);
        proof {
            assert(all.take(k + 1).drop_last() =~= all.take(k as int));
            assert(all.take(k + 1).last() == field@);
        }
        if opens_with(field.as_slice(), 0x72u8, 0x3du8) {
            let rest = slice_subrange(field.as_slice(), 2, field.len());
            nonce = Some(slice_to_vec(rest));
        } else if opens_with(field.as_slice(), 0x73u8, 0x3du8) {
            let rest = slice_subrange(field.as_slice(), 2, field.len());
            match decode_base64(rest) {
                Some(decoded) => {
                    salt = Some(decoded);
                },
                None => {
                    proof {
                        lemma_scan_failure_sticks(all, k + 1);
                        assert(all.take(fields@.len() as int) =~= all);
                    }
                    return Err(SaslScramError::InvalidBase64);
                },
            }
        } else if opens_with(field.as_slice(), 0x69u8, 0x3du8) {
            let rest = slice_subrange(field.as_slice(), 2, field.len());
            match parse_u32(rest) {
                Some(i) => {
                    iterations = Some(i);
                },
                None => {
                    proof {
                        lemma_scan_failure_sticks(all, k + 1);
                        assert(all.take(fields@.len() as int) =~= all);
                    }
                    return Err(SaslScramError::InvalidIterationCount);
                },
            }
        }
        proof {
            assert(field@.skip(2) =~= field@.subrange(2, field@.len() as int));
        }
        k = k + 1;
    }
    assert(all.take(k as int) =~= all);
    Ok((nonce, salt, iterations))
}

/// Whether two byte strings are equal, compared in constant time so a
/// wrong signature leaks nothing about how much of it matched.
fn constant_time_eq(a: &[u8], b: &[u8]) -> (equal: bool)
    ensures
        equal == (a@ == b@),
{
    if a.len() != b.len() {
        return false;
    }
    let mut diff: u8 = 0;
    let mut i: usize = 0;
    while i < a.len()
        invariant
            a.len() == b.len(),
            i <= a.len(),
            (diff == 0) == (forall|j: int| 0 <= j < i ==> a@[j] == b@[j]),
        decreases a.len() - i,
    {
        let x = a[i];
        let y = b[i];
        let d = diff;
        let next = d | (x ^ y);
        assert((next == 0) == (d == 0 && x == y)) by (bit_vector)
            requires
                next == d | (x ^ y),
        ;
        diff = next;
        i = i + 1;
    }
    proof {
        if diff == 0 {
            assert(a@ =~= b@);
        }
    }
    diff == 0
}

impl<D: SaslScramDigest> SaslScram<D> {
    /// Builds the mechanism from its credentials, whose nonce and
    /// channel binding the caller supplied.
    ///
    /// An I/O-free mechanism can neither generate randomness nor ask a
    /// TLS session what it exported, so the caller owns both decisions
    /// and the exchange stays deterministically testable.
    pub fn new(creds: SaslScramCreds) -> (scram: Self)
        ensures
            scram@ == spec_scram_initial::<D>(creds),
            valid_utf8(creds.nonce@) ==> scram@.client_nonce == creds.nonce@,
    {
        let ghost spec_creds = creds;
        let nonce_text = string_from_utf8_lossy(creds.nonce.as_slice());
        let client_nonce = slice_to_vec(nonce_text.as_str().as_bytes());
        proof {
            if valid_utf8(creds.nonce@) {
                decode_utf8_encode_utf8(creds.nonce@);
            }
        }

        let (username, username_refused) = match saslprep(creds.username.as_str()) {
            Ok(username) => (username, None),
            Err(e) => (String::new(), Some(e)),
        };
        let (password, password_refused) = match saslprep(creds.password.as_str()) {
            Ok(password) => (password, None),
            Err(e) => (String::new(), Some(e)),
        };
        let refused = if username_refused.is_some() {
            username_refused
        } else {
            password_refused
        };
        let escaped = escape(username.as_str());
        let mut client_first_bare: Vec<u8> = Vec::new();
        client_first_bare.push(0x6eu8);
        client_first_bare.push(0x3du8);
        push_bytes(&mut client_first_bare, escaped.as_str().as_bytes());
        client_first_bare.push(0x2cu8);
        client_first_bare.push(0x72u8);
        client_first_bare.push(0x3du8);
        push_bytes(&mut client_first_bare, client_nonce.as_slice());

        let mut gs2_header: Vec<u8> = Vec::new();
        let mechanism;
        match &creds.channel_binding {
            SaslScramChannelBinding::Unsupported => {
                gs2_header.push(0x6eu8);
                mechanism = D::mechanism();
            },
            SaslScramChannelBinding::Unused => {
                gs2_header.push(0x79u8);
                mechanism = D::mechanism();
            },
            SaslScramChannelBinding::Bound { kind, .. } => {
                gs2_header.push(0x70u8);
                gs2_header.push(0x3du8);
                push_bytes(&mut gs2_header, kind.as_str().as_bytes());
                mechanism = D::mechanism_plus();
            },
        }
        gs2_header.push(0x2cu8);
        gs2_header.push(0x2cu8);

        let mut cbind: Vec<u8> = slice_to_vec(gs2_header.as_slice());
        if let SaslScramChannelBinding::Bound { data, .. } = &creds.channel_binding {
            push_bytes(&mut cbind, data.as_slice());
        }
        let cbind_input = base64_encode(cbind.as_slice());

        let scram = SaslScram {
            password,
            client_nonce,
            client_first_bare,
            gs2_header,
            cbind_input,
            mechanism,
            expected_server_signature: Vec::new(),
            state: State::SendClientFirst,
            refused,
            digest: PhantomData,
        };
        proof {
            assert(scram@.client_first_bare =~= spec_client_first_bare(spec_creds));
            assert(scram@.gs2_header =~= spec_scram_gs2_header(spec_creds.channel_binding));
            assert(cbind@ =~= spec_scram_gs2_header(spec_creds.channel_binding)
                + spec_scram_binding_data(spec_creds.channel_binding));
        }
        scram
    }

    /// Parses the server-first-message and computes the
    /// client-final-message, remembering the server signature to
    /// expect in return.
    fn client_final(&mut self, server_first: &[u8]) -> (message: Result<Vec<u8>, SaslScramError>)
        ensures
            match spec_client_final::<D>(old(self)@, server_first@) {
                Ok((msg, signature)) => message matches Ok(m) && m@ == msg
                    && final(self)@ == SaslScramView { expected_server_signature: signature, ..old(self)@ },
                Err(e) => message matches Err(err) && err@ == e && final(self)@ == old(self)@,
            },
    {
        if !is_utf8(server_first) {
            return Err(SaslScramError::InvalidEncoding);
        }
        let fields = split(server_first, 0x2cu8);
        let (nonce, salt, iterations) = match scan_fields(&fields) {
            Ok(scan) => scan,
            Err(e) => return Err(e),
        };
        let nonce = match nonce {
            Some(nonce) => nonce,
            None => return Err(SaslScramError::MissingNonce),
        };
        let salt = match salt {
            Some(salt) => salt,
            None => return Err(SaslScramError::MissingSalt),
        };
        let iterations = match iterations {
            Some(iterations) => iterations,
            None => return Err(SaslScramError::MissingIterations),
        };
        if !starts_with(nonce.as_slice(), self.client_nonce.as_slice()) {
            return Err(SaslScramError::NonceMismatch);
        }

        let mut without_proof: Vec<u8> = Vec::new();
        without_proof.push(0x63u8);
        without_proof.push(0x3du8);
        push_bytes(&mut without_proof, self.cbind_input.as_slice());
        without_proof.push(0x2cu8);
        without_proof.push(0x72u8);
        without_proof.push(0x3du8);
        push_bytes(&mut without_proof, nonce.as_slice());

        let mut auth_message: Vec<u8> = slice_to_vec(self.client_first_bare.as_slice());
        auth_message.push(0x2cu8);
        push_bytes(&mut auth_message, server_first);
        auth_message.push(0x2cu8);
        push_bytes(&mut auth_message, without_proof.as_slice());

        let client_label: Vec<u8> = vec![0x43u8, 0x6cu8, 0x69u8, 0x65u8, 0x6eu8, 0x74u8, 0x20u8, 0x4bu8, 0x65u8, 0x79u8];
        let server_label: Vec<u8> = vec![0x53u8, 0x65u8, 0x72u8, 0x76u8, 0x65u8, 0x72u8, 0x20u8, 0x4bu8, 0x65u8, 0x79u8];

        let salted_password = D::pbkdf2(self.password.as_str().as_bytes(), salt.as_slice(), iterations);
        let client_key = D::hmac(salted_password.as_slice(), client_label.as_slice());
        let stored_key = D::hash(client_key.as_slice());
        let client_signature = D::hmac(stored_key.as_slice(), auth_message.as_slice());

        let mut client_proof = client_key;
        let ghost key = client_proof@;
        let mut i: usize = 0;
        while i < client_proof.len() && i < client_signature.len()
            invariant
                i <= client_proof.len(),
                client_proof@.len() == key.len(),
                forall|j: int| 0 <= j < key.len() ==> #[trigger] client_proof@[j] == if j < i {
                    spec_xor(key, client_signature@)[j]
                } else {
                    key[j]
                },
            decreases client_proof.len() - i,
        {
            let x = client_proof[i] ^ client_signature[i];
            client_proof.set(i, x);
            i = i + 1;
        }
        assert(client_proof@ =~= spec_xor(key, client_signature@));

        let server_key = D::hmac(salted_password.as_slice(), server_label.as_slice());
        self.expected_server_signature = D::hmac(server_key.as_slice(), auth_message.as_slice());

        let proof_text = base64_encode(client_proof.as_slice());
        let mut message = without_proof;
        message.push(0x2cu8);
        message.push(0x70u8);
        message.push(0x3du8);
        push_bytes(&mut message, proof_text.as_slice());

        proof {
            let m = old(self)@;
            assert(without_proof@.len() >= 0);
            assert(client_label@ =~= client_key_label());
            assert(server_label@ =~= server_key_label());
            assert(auth_message@ =~= spec_auth_message(m, server_first@, nonce@));
            assert(message@ =~= spec_client_final_without_proof(m, nonce@) + seq![0x2cu8, 0x70u8, 0x3du8]
                + spec_base64_encode(client_proof@));
            assert(spec_parse_server_first(server_first@) == Ok::<(Seq<u8>, Seq<u8>, u32), SaslScramErrorView>((nonce@, salt@, iterations)));
            assert(self@ =~~= SaslScramView { expected_server_signature: self@.expected_server_signature, ..old(self)@ });
        }
        Ok(message)
    }
}


/// Past two ASCII bytes, a well-formed UTF-8 message is still
/// well-formed.
pub proof fn lemma_utf8_after_ascii_pair(bytes: Seq<u8>)
    requires
        valid_utf8(bytes),
        bytes.len() >= 2,
        bytes[0] < 0x80,
        bytes[1] < 0x80,
    ensures
        valid_utf8(bytes.skip(2)),
{
    reveal_with_fuel(valid_utf8, 3);
    let tail = pop_first_scalar(bytes);
    assert(length_of_first_scalar(bytes) == 1);
    assert(tail =~= bytes.skip(1));
    assert(length_of_first_scalar(tail) == 1);
    assert(pop_first_scalar(tail) =~= bytes.skip(2));
}

impl<D: SaslScramDigest> SaslScram<D> {
    /// Checks the server-final-message against the signature computed
    /// while building the client-final-message.
    fn verify_server_final(&self, server_final: &[u8]) -> (verdict: Result<(), SaslScramError>)
        ensures
            match spec_verify_server_final(self@.expected_server_signature, server_final@) {
                Ok(()) => verdict is Ok,
                Err(e) => verdict matches Err(err) && err@ == e,
            },
    {
        if !is_utf8(server_final) {
            return Err(SaslScramError::InvalidEncoding);
        }
        let rest = if server_final.len() >= 2 { slice_subrange(server_final, 2, server_final.len()) } else { server_final };
        proof {
            if server_final@.len() >= 2 {
                assert(rest@ =~= server_final@.skip(2));
            }
        }
        if opens_with(server_final, 0x65u8, 0x3du8) {
            proof {
                lemma_utf8_after_ascii_pair(server_final@);
            }
            let text = match string_from_utf8(rest) {
                Some(text) => text,
                None => return Err(SaslScramError::InvalidEncoding),
            };
            return Err(SaslScramError::ServerError(text));
        }
        if !opens_with(server_final, 0x76u8, 0x3du8) {
            return Err(SaslScramError::InvalidServerFinal);
        }
        let signature = match decode_base64(rest) {
            Some(signature) => signature,
            None => return Err(SaslScramError::InvalidBase64),
        };
        if !constant_time_eq(signature.as_slice(), self.expected_server_signature.as_slice()) {
            return Err(SaslScramError::ServerSignatureMismatch);
        }
        Ok(())
    }
}

impl<D: SaslScramDigest> SaslCoroutine for SaslScram<D> {
    type Error = SaslScramError;

    fn mechanism(&self) -> (m: SaslMechanism)
        ensures
            m == self@.mechanism,
    {
        self.mechanism
    }

    fn resume(&mut self, arg: SaslResume<'_>) -> (state: SaslCoroutineState<SaslYield, Result<(), SaslScramError>>)
        ensures
            (final(self)@, step_view(state)) == spec_scram_step::<D>(old(self)@, arg),
    {
        match (self.state, arg) {
            (State::SendClientFirst, SaslResume::Start) => {
                if let Some(e) = self.refused {
                    return SaslCoroutineState::Complete(Err(SaslScramError::InvalidCredentials(e)));
                }
                let mut client_first = slice_to_vec(self.gs2_header.as_slice());
                push_bytes(&mut client_first, self.client_first_bare.as_slice());
                self.state = State::SendClientFinal;
                SaslCoroutineState::Yielded(SaslYield::Respond(client_first))
            },
            (State::SendClientFinal, SaslResume::Challenge(server_first)) => {
                match self.client_final(server_first) {
                    Ok(client_final) => {
                        self.state = State::Acknowledge;
                        SaslCoroutineState::Yielded(SaslYield::Respond(client_final))
                    },
                    Err(err) => SaslCoroutineState::Complete(Err(err)),
                }
            },
            (State::Acknowledge, SaslResume::Challenge(server_final)) => {
                match self.verify_server_final(server_final) {
                    Ok(()) => {
                        self.state = State::Done;
                        SaslCoroutineState::Yielded(SaslYield::Respond(Vec::new()))
                    },
                    Err(err) => SaslCoroutineState::Complete(Err(err)),
                }
            },
            (State::Done, SaslResume::PeerFinished) => SaslCoroutineState::Complete(Ok(())),
            (_, SaslResume::PeerFinished) => SaslCoroutineState::Complete(
                Err(SaslScramError::ServerSignatureNotVerified),
            ),
            (_, _) => SaslCoroutineState::Complete(Err(SaslScramError::UnexpectedChallenge)),
        }
    }
}


/// The state an exchange is left in after being resumed with each of
/// `args` in turn.
pub open spec fn spec_scram_run<D: SaslScramDigest>(m: SaslScramView, args: Seq<SaslResume>) -> SaslScramView
    decreases args.len(),
{
    if args.len() == 0 {
        m
    } else {
        spec_scram_step::<D>(spec_scram_run::<D>(m, args.drop_last()), args.last()).0
    }
}

/// The `k`-th resume of `args` fed the exchange a server-final-message
/// whose signature verified.
pub open spec fn spec_server_proved_at<D: SaslScramDigest>(m: SaslScramView, args: Seq<SaslResume>, k: int) -> bool {
    let before = spec_scram_run::<D>(m, args.take(k));
    &&& 0 <= k < args.len()
    &&& before.state == State::Acknowledge
    &&& args[k] matches SaslResume::Challenge(server_final)
    &&& spec_verify_server_final(before.expected_server_signature, server_final@) is Ok
}

/// An exchange that has not reached `Done` gets there only through a
/// server-final-message whose signature verified.
proof fn lemma_done_only_after_server_proof<D: SaslScramDigest>(m: SaslScramView, args: Seq<SaslResume>)
    requires
        m.state != State::Done,
        spec_scram_run::<D>(m, args).state == State::Done,
    ensures
        exists|k: int| spec_server_proved_at::<D>(m, args, k),
    decreases args.len(),
{
    let prefix = args.drop_last();
    let k = args.len() - 1;
    if spec_scram_run::<D>(m, prefix).state == State::Done {
        lemma_done_only_after_server_proof::<D>(m, prefix);
        let j = choose|j: int| spec_server_proved_at::<D>(m, prefix, j);
        assert(prefix.take(j) =~= args.take(j));
        assert(spec_server_proved_at::<D>(m, args, j));
    } else {
        assert(args.take(k) =~= prefix);
        assert(spec_server_proved_at::<D>(m, args, k));
    }
}

/// The `j`-th resume of `args` fed the exchange a server-first-message,
/// and the server signature computed in answer to it is the one still
/// expected once all of `args` are resumed.
pub open spec fn spec_signature_set_at<D: SaslScramDigest>(m: SaslScramView, args: Seq<SaslResume>, j: int) -> bool {
    let before = spec_scram_run::<D>(m, args.take(j));
    &&& 0 <= j < args.len()
    &&& before.state == State::SendClientFinal
    &&& args[j] matches SaslResume::Challenge(server_first)
    &&& spec_client_final::<D>(before, server_first@) matches Ok((_, signature))
    &&& spec_scram_run::<D>(m, args).expected_server_signature == signature
}

/// An exchange that has not yet answered a server-first-message expects,
/// once it awaits or has verified the server-final-message, the
/// signature computed in answer to one it was fed.
proof fn lemma_signature_set_earlier<D: SaslScramDigest>(m: SaslScramView, args: Seq<SaslResume>)
    requires
        m.state == State::SendClientFirst || m.state == State::SendClientFinal,
        spec_scram_run::<D>(m, args).state == State::Acknowledge || spec_scram_run::<D>(m, args).state == State::Done,
    ensures
        exists|j: int| spec_signature_set_at::<D>(m, args, j),
    decreases args.len(),
{
    if args.len() > 0 {
        let prefix = args.drop_last();
        let k = args.len() - 1;
        let before = spec_scram_run::<D>(m, prefix);
        if before.state == State::Acknowledge || before.state == State::Done {
            lemma_signature_set_earlier::<D>(m, prefix);
            let j = choose|j: int| spec_signature_set_at::<D>(m, prefix, j);
            assert(prefix.take(j) =~= args.take(j));
            assert(prefix[j] == args[j]);
            assert(spec_signature_set_at::<D>(m, args, j));
        } else {
            assert(args.take(k) =~= prefix);
            assert(spec_signature_set_at::<D>(m, args, k));
        }
    }
}

/// Mutual authentication cannot be skipped: whatever sequence of
/// resumes a SCRAM exchange is driven through, it completes
/// successfully only on `PeerFinished`, and only after an earlier
/// resume fed it a server-final-message whose signature matched the
/// one computed from the password. That message is exactly `v=`
/// followed by the base64 of the server signature, `HMAC(HMAC(
/// SaltedPassword, "Server Key"), AuthMessage)`, computed in answer to
/// a server-first-message fed to an earlier resume still.
pub proof fn lemma_scram_success_requires_server_proof<D: SaslScramDigest>(
    creds: SaslScramCreds,
    args: Seq<SaslResume>,
    last: SaslResume,
)
    requires
        spec_scram_step::<D>(spec_scram_run::<D>(spec_scram_initial::<D>(creds), args), last).1 is Succeed,
    ensures
        last is PeerFinished,
        exists|k: int| spec_server_proved_at::<D>(spec_scram_initial::<D>(creds), args, k),
        exists|j: int, k: int|
            #![trigger args[j], args[k]]
            {
                &&& 0 <= j < k < args.len()
                &&& spec_scram_run::<D>(spec_scram_initial::<D>(creds), args.take(j)).state == State::SendClientFinal
                &&& args[j] matches SaslResume::Challenge(server_first)
                &&& spec_client_final::<D>(
                    spec_scram_run::<D>(spec_scram_initial::<D>(creds), args.take(j)),
                    server_first@,
                ) matches Ok((_, signature))
                &&& args[k] matches SaslResume::Challenge(server_final)
                &&& server_final@ == seq![0x76u8, 0x3du8] + spec_base64_encode(signature)
            },
{
    let m = spec_scram_initial::<D>(creds);
    lemma_done_only_after_server_proof::<D>(m, args);
    let k = choose|k: int| spec_server_proved_at::<D>(m, args, k);
    let before = spec_scram_run::<D>(m, args.take(k));
    let server_final = args[k]->Challenge_0;
    let expected = before.expected_server_signature;
    assert(server_final@ =~= seq![0x76u8, 0x3du8] + spec_base64_encode(expected)) by {
        assert(server_final@.take(2) =~= seq![0x76u8, 0x3du8]);
        assert(server_final@ =~= server_final@.take(2) + server_final@.skip(2));
    }
    let pre = args.take(k);
    lemma_signature_set_earlier::<D>(m, pre);
    let j = choose|j: int| spec_signature_set_at::<D>(m, pre, j);
    assert(pre.take(j) =~= args.take(j));
    assert(pre[j] == args[j]);
    assert(args[j] == args[j] && args[k] == args[k]);
}

/// A fresh SCRAM exchange answers its first resume with the
/// client-first-message as its initial response: the GS2 header, then
/// `n=` with the escaped username as SASLprep prepared it and `,r=` with
/// the client nonce; credentials SASLprep refuses fail it instead.
pub proof fn lemma_scram_start_responds<D: SaslScramDigest>(creds: SaslScramCreds)
    ensures
        spec_scram_refusal(creds) is None ==> spec_scram_step::<D>(spec_scram_initial::<D>(creds), SaslResume::Start).1
            == SaslStep::<SaslScramErrorView>::Respond(
            spec_scram_gs2_header(creds.channel_binding) + spec_client_first_bare(creds),
        ),
        spec_scram_refusal(creds) is None ==> spec_scram_step::<D>(spec_scram_initial::<D>(creds), SaslResume::Start).0.state
            == State::SendClientFinal,
        spec_scram_refusal(creds) matches Some(e) ==> spec_scram_step::<D>(spec_scram_initial::<D>(creds), SaslResume::Start).1
            == SaslStep::<SaslScramErrorView>::Fail(SaslScramErrorView::InvalidCredentials(e)),
{
}

/// The GS2 header the client-first-message opens with comes back, the
/// binding material after it, base64-encoded in the `c=` field that
/// opens the client-final-message, and so inside the message both
/// proofs are computed over: a flag rewritten in flight does not
/// survive the proof.
pub proof fn lemma_scram_header_repeated_in_client_final<D: SaslScramDigest>(
    creds: SaslScramCreds,
    server_first: Seq<u8>,
)
    requires
        spec_client_final::<D>(spec_scram_initial::<D>(creds), server_first) is Ok,
    ensures
        ({
            let cb = creds.channel_binding;
            let repeated = seq![0x63u8, 0x3du8] + spec_base64_encode(spec_scram_gs2_header(cb) + spec_scram_binding_data(cb));
            let (message, _) = spec_client_final::<D>(spec_scram_initial::<D>(creds), server_first)->Ok_0;
            &&& has_prefix(message, repeated)
            &&& spec_parse_server_first(server_first) matches Ok((nonce, _, _)) && has_prefix(
                spec_auth_message(spec_scram_initial::<D>(creds), server_first, nonce).skip(
                    (spec_client_first_bare(creds).len() + server_first.len() + 2) as int,
                ),
                repeated,
            )
        }),
{
    let cb = creds.channel_binding;
    let m = spec_scram_initial::<D>(creds);
    let repeated = seq![0x63u8, 0x3du8] + spec_base64_encode(spec_scram_gs2_header(cb) + spec_scram_binding_data(cb));
    let (message, _) = spec_client_final::<D>(m, server_first)->Ok_0;
    let (nonce, _, _) = spec_parse_server_first(server_first)->Ok_0;
    let without_proof = spec_client_final_without_proof(m, nonce);
    assert(message.take(repeated.len() as int) =~= repeated);
    let auth = spec_auth_message(m, server_first, nonce);
    assert(auth.skip((spec_client_first_bare(creds).len() + server_first.len() + 2) as int) =~= without_proof);
    assert(without_proof.take(repeated.len() as int) =~= repeated);
}

/// The peer ending the exchange completes it successfully exactly when
/// the server signature was verified, and with
/// `ServerSignatureNotVerified` otherwise.
pub proof fn lemma_scram_peer_finished<D: SaslScramDigest>(m: SaslScramView)
    ensures
        spec_scram_step::<D>(m, SaslResume::PeerFinished).1 == (if m.state == State::Done {
            SaslStep::<SaslScramErrorView>::Succeed
        } else {
            SaslStep::Fail(SaslScramErrorView::ServerSignatureNotVerified)
        }),
        spec_scram_step::<D>(m, SaslResume::PeerFinished).0 == m,
{
}

/// A challenge arriving after the server proved itself is refused as
/// unexpected.
pub proof fn lemma_scram_extra_challenge<D: SaslScramDigest>(m: SaslScramView, challenge: &[u8])
    requires
        m.state == State::Done,
    ensures
        spec_scram_step::<D>(m, SaslResume::Challenge(challenge)).1 == SaslStep::Fail(
            SaslScramErrorView::UnexpectedChallenge,
        ),
{
}

/// An unbound exchange repeats its header alone in the `c=` field:
/// `biws`, the base64 of `n,,`, for a client without channel binding,
/// and `eSws`, the base64 of `y,,`, for one supporting it unused.
pub proof fn lemma_scram_unbound_binding_field<D: SaslScramDigest>(creds: SaslScramCreds)
    ensures
        creds.channel_binding is Unsupported ==> spec_scram_initial::<D>(creds).cbind_input == seq![0x62u8, 0x69u8, 0x77u8, 0x73u8],
        creds.channel_binding is Unused ==> spec_scram_initial::<D>(creds).cbind_input == seq![0x65u8, 0x53u8, 0x77u8, 0x73u8],
{
    let n = seq![0x6eu8, 0x2cu8, 0x2cu8];
    let y = seq![0x79u8, 0x2cu8, 0x2cu8];
    assert(n.skip(3) =~= Seq::<u8>::empty());
    assert(y.skip(3) =~= Seq::<u8>::empty());
    assert(0x6eu8 >> 2u8 == 27u8 && ((0x6eu8 & 3u8) << 4u8) | (0x2cu8 >> 4u8) == 34u8 && ((0x2cu8 & 15u8) << 2u8)
        | (0x2cu8 >> 6u8) == 48u8 && 0x2cu8 & 63u8 == 44u8 && 0x79u8 >> 2u8 == 30u8 && ((0x79u8 & 3u8) << 4u8) | (
    0x2cu8 >> 4u8) == 18u8) by (bit_vector);
    assert(n.len() == 3 && n[0] == 0x6eu8 && n[1] == 0x2cu8 && n[2] == 0x2cu8);
    assert(y.len() == 3 && y[0] == 0x79u8 && y[1] == 0x2cu8 && y[2] == 0x2cu8);
    assert(spec_base64_encode(Seq::<u8>::empty()) =~= Seq::<u8>::empty());
    assert(base64_digit(27) == 0x62u8 && base64_digit(34) == 0x69u8 && base64_digit(48) == 0x77u8);
    assert(base64_digit(44) == 0x73u8 && base64_digit(30) == 0x65u8 && base64_digit(18) == 0x53u8);
    assert(spec_base64_encode(n) == seq![base64_digit(27), base64_digit(34), base64_digit(48), base64_digit(44)]
        + spec_base64_encode(n.skip(3)));
    assert(spec_base64_encode(n) =~= seq![0x62u8, 0x69u8, 0x77u8, 0x73u8]);
    assert(spec_base64_encode(y) == seq![base64_digit(30), base64_digit(18), base64_digit(48), base64_digit(44)]
        + spec_base64_encode(y.skip(3)));
    assert(spec_base64_encode(y) =~= seq![0x65u8, 0x53u8, 0x77u8, 0x73u8]);
    assert(seq![0x6eu8, 0x2cu8, 0x2cu8] + Seq::<u8>::empty() =~= seq![0x6eu8, 0x2cu8, 0x2cu8]);
    assert(seq![0x79u8, 0x2cu8, 0x2cu8] + Seq::<u8>::empty() =~= seq![0x79u8, 0x2cu8, 0x2cu8]);
}

/// The channel binding picks the name: a bound exchange runs under the
/// profile's `-PLUS` name, any other under its plain one.
pub proof fn lemma_scram_name_follows_binding<D: SaslScramDigest>(creds: SaslScramCreds)
    ensures
        creds.channel_binding is Bound ==> spec_scram_initial::<D>(creds).mechanism == D::spec_mechanism_plus(),
        !(creds.channel_binding is Bound) ==> spec_scram_initial::<D>(creds).mechanism == D::spec_mechanism(),
{
}

} // verus!
