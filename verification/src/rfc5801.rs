//! The GS2 bridge (RFC 5801), which is two things at once.
//!
//! It carries GSS-API mechanisms into SASL under `GS2-` names, which is
//! what [`gs2_krb5`] is, and it defines the header those mechanisms
//! prefix to their first token. That header is the piece SCRAM borrowed
//! wholesale, so [`SaslGs2ChannelBinding`] lives here: it names the
//! three cases a client can be in.
//!
//! The flag opening the header answers one question, whether the
//! exchange is bound to the channel underneath it, and the third case
//! is the one implementations forget. A client that supports binding
//! and sees no `-PLUS` name advertised sends `y`, not `n`, so a server
//! that does support binding can tell that its offer was stripped in
//! flight and abort (RFC 5802 section 6).
//!
//! The binding material itself stays with the caller, since extracting
//! it means asking a TLS session what it exported. This module
//! assembles the header around it.

use vstd::prelude::*;
use vstd::string::StringExecFns;
use vstd::std_specs::iter::IteratorSpec;
use vstd::utf8::*;

use crate::text::{push_bytes, string_push};

pub mod gs2_krb5;

verus! {

broadcast use vstd::string::group_string_axioms;

/// The escaping a GS2 header and a SCRAM message apply to a name:
/// `=` becomes `=3D`, `,` becomes `=2C`, every other character stays.
pub open spec fn spec_escape(cs: Seq<char>) -> Seq<char>
    decreases cs.len(),
{
    if cs.len() == 0 {
        seq![]
    } else {
        spec_escape(cs.drop_last()) + spec_escape_char(cs.last())
    }
}

/// The escaped form of a single character.
pub open spec fn spec_escape_char(c: char) -> Seq<char> {
    if c == '=' {
        seq!['=', '3', 'D']
    } else if c == ',' {
        seq!['=', '2', 'C']
    } else {
        seq![c]
    }
}

/// Escaping leaves no comma behind, so the commas framing a GS2 header
/// or a SCRAM message are the only ones in it.
pub proof fn lemma_escape_has_no_comma(cs: Seq<char>)
    ensures
        forall|i: int| 0 <= i < spec_escape(cs).len() ==> spec_escape(cs)[i] != ',',
    decreases cs.len(),
{
    if cs.len() > 0 {
        lemma_escape_has_no_comma(cs.drop_last());
        let a = spec_escape(cs.drop_last());
        let b = spec_escape_char(cs.last());
        assert(spec_escape(cs) == a + b);
        assert forall|i: int| 0 <= i < (a + b).len() implies (a + b)[i] != ',' by {
            if i >= a.len() {
                assert((a + b)[i] == b[i - a.len()]);
            }
        }
    }
}

/// Undoes the escaping, left to right: `=3D` becomes `=`, `=2C` becomes
/// `,`, every other character stays.
pub open spec fn spec_unescape(cs: Seq<char>) -> Seq<char>
    decreases cs.len(),
{
    if cs.len() == 0 {
        seq![]
    } else if cs.len() >= 3 && cs[0] == '=' && cs[1] == '3' && cs[2] == 'D' {
        seq!['='] + spec_unescape(cs.skip(3))
    } else if cs.len() >= 3 && cs[0] == '=' && cs[1] == '2' && cs[2] == 'C' {
        seq![','] + spec_unescape(cs.skip(3))
    } else {
        seq![cs[0]] + spec_unescape(cs.skip(1))
    }
}

/// Escaping a concatenation escapes each part.
proof fn lemma_escape_append(a: Seq<char>, b: Seq<char>)
    ensures
        spec_escape(a + b) == spec_escape(a) + spec_escape(b),
    decreases b.len(),
{
    if b.len() == 0 {
        assert(a + b =~= a);
        assert(spec_escape(a) + spec_escape(b) =~= spec_escape(a));
    } else {
        lemma_escape_append(a, b.drop_last());
        assert((a + b).drop_last() =~= a + b.drop_last());
        assert((a + b).last() == b.last());
        assert(spec_escape(a) + spec_escape(b) =~= spec_escape(a) + spec_escape(b.drop_last())
            + spec_escape_char(b.last()));
    }
}

/// Unescaping gives back the name that was escaped, so two different
/// names never escape to the same text.
pub proof fn lemma_unescape_escape(cs: Seq<char>)
    ensures
        spec_unescape(spec_escape(cs)) == cs,
    decreases cs.len(),
{
    if cs.len() > 0 {
        let c = cs[0];
        let rest = cs.skip(1);
        assert(cs =~= seq![c] + rest);
        lemma_escape_append(seq![c], rest);
        assert(seq![c].drop_last() =~= Seq::<char>::empty());
        assert(seq![c].last() == c);
        assert(spec_escape(Seq::<char>::empty()) =~= Seq::<char>::empty());
        assert(spec_escape(seq![c]) =~= spec_escape(Seq::<char>::empty()) + spec_escape_char(c));
        assert(spec_escape(seq![c]) =~= spec_escape_char(c));
        lemma_unescape_escape(rest);
        let e = spec_escape(rest);
        let x = spec_escape_char(c) + e;
        assert(spec_escape(cs) == x);
        if c == '=' || c == ',' {
            assert(x.skip(3) =~= e);
        } else {
            assert(x.skip(1) =~= e);
        }
        assert(spec_unescape(x) =~= cs);
    }
}

/// The channel binding an exchange runs with, which is also what picks
/// between a mechanism's plain and `-PLUS` names.
#[derive(Clone, Debug)]
pub enum SaslGs2ChannelBinding {
    /// The client does not support channel binding, the `n` flag.
    Unsupported,
    /// The client supports channel binding but the server never
    /// advertised the `-PLUS` name, the `y` flag.
    Unused,
    /// Channel binding is in use, the `p` flag.
    Bound {
        /// Which binding the data was extracted from.
        kind: SaslGs2ChannelBindingKind,
        /// The binding material, extracted from the TLS session by the
        /// caller.
        data: Vec<u8>,
    },
}

impl Default for SaslGs2ChannelBinding {
    /// No channel binding support, the `n` flag.
    fn default() -> (binding: Self)
        ensures
            binding is Unsupported,
    {
        SaslGs2ChannelBinding::Unsupported
    }
}

/// The channel bindings a TLS connection can offer.
#[derive(Clone, Copy, Debug, PartialEq, Eq, Structural)]
pub enum SaslGs2ChannelBindingKind {
    /// The TLS 1.3 exporter binding (RFC 9266), the only one defined
    /// for that version and the one to prefer where both exist.
    TlsExporter,
    /// The finished-message binding of TLS 1.2 and below (RFC 5929
    /// section 3).
    TlsUnique,
    /// The server-certificate binding (RFC 5929 section 4), which
    /// survives a terminating proxy holding the same certificate.
    TlsServerEndPoint,
}

/// The name a channel binding is registered under with IANA.
pub open spec fn gs2_binding_name(kind: SaslGs2ChannelBindingKind) -> Seq<char> {
    match kind {
        SaslGs2ChannelBindingKind::TlsExporter => "tls-exporter"@,
        SaslGs2ChannelBindingKind::TlsUnique => "tls-unique"@,
        SaslGs2ChannelBindingKind::TlsServerEndPoint => "tls-server-end-point"@,
    }
}

impl SaslGs2ChannelBindingKind {
    /// The binding name as registered with IANA and written in the GS2
    /// header.
    pub fn as_str(&self) -> (name: &'static str)
        ensures
            name@ == gs2_binding_name(*self),
    {
        match self {
            Self::TlsExporter => "tls-exporter",
            Self::TlsUnique => "tls-unique",
            Self::TlsServerEndPoint => "tls-server-end-point",
        }
    }
}

/// The flag opening a GS2 header: `n`, `y`, or `p=` and the binding
/// name.
pub open spec fn spec_gs2_flag(cb: SaslGs2ChannelBinding) -> Seq<char> {
    match cb {
        SaslGs2ChannelBinding::Unsupported => seq!['n'],
        SaslGs2ChannelBinding::Unused => seq!['y'],
        SaslGs2ChannelBinding::Bound { kind, .. } => seq!['p', '='] + gs2_binding_name(kind),
    }
}

/// The GS2 header (RFC 5801 section 4): the flag, a comma, the escaped
/// authorization identity behind `a=` when there is one, a comma.
pub open spec fn spec_gs2_header(cb: SaslGs2ChannelBinding, authzid: Option<Seq<char>>) -> Seq<char> {
    spec_gs2_flag(cb) + seq![','] + match authzid {
        None => Seq::<char>::empty(),
        Some(a) => seq!['a', '='] + spec_escape(a),
    } + seq![',']
}

/// The binding material, empty unless the exchange is bound.
pub open spec fn spec_gs2_binding_data(cb: SaslGs2ChannelBinding) -> Seq<u8> {
    match cb {
        SaslGs2ChannelBinding::Bound { data, .. } => data@,
        _ => seq![],
    }
}

/// The characters of an optional string slice.
pub open spec fn opt_chars(s: Option<&str>) -> Option<Seq<char>> {
    match s {
        Some(s) => Some(s@),
        None => None,
    }
}

impl SaslGs2ChannelBinding {
    /// Whether the exchange is bound, and so runs under the `-PLUS`
    /// name of its mechanism.
    pub fn is_bound(&self) -> (bound: bool)
        ensures
            bound == (*self is Bound),
    {
        match self {
            Self::Bound { .. } => true,
            _ => false,
        }
    }

    /// The GS2 header opening the exchange: the flag, then the
    /// authorization identity when there is one, both comma-terminated.
    ///
    /// The identity is escaped as RFC 5801 section 4 asks, `=` as `=3D`
    /// and `,` as `=2C`, so that the commas framing the header stay
    /// unambiguous.
    pub fn header(&self, authzid: Option<&str>) -> (header: String)
        ensures
            header@ == spec_gs2_header(*self, opt_chars(authzid)),
    {
        let mut header = String::new();
        match self {
            Self::Unsupported => string_push(&mut header, 'n'),
            Self::Unused => string_push(&mut header, 'y'),
            Self::Bound { kind, .. } => {
                string_push(&mut header, 'p');
                string_push(&mut header, '=');
                header.append(kind.as_str());
            },
        }
        string_push(&mut header, ',');
        if let Some(authzid) = authzid {
            string_push(&mut header, 'a');
            string_push(&mut header, '=');
            let escaped = escape(authzid);
            header.append(escaped.as_str());
        }
        string_push(&mut header, ',');
        assert(header@ =~= spec_gs2_header(*self, opt_chars(authzid)));
        header
    }

    /// The bytes a mechanism repeats the header over: the header
    /// itself, followed by the binding material when there is any.
    ///
    /// SCRAM base64-encodes this into its `c=` field, so that the flag
    /// the server read arrives again inside a message the client proof
    /// is computed over and cannot have been rewritten in between.
    pub fn cbind_input(&self, authzid: Option<&str>) -> (input: Vec<u8>)
        ensures
            input@ == encode_utf8(spec_gs2_header(*self, opt_chars(authzid))) + spec_gs2_binding_data(*self),
    {
        let header = self.header(authzid);
        let mut input: Vec<u8> = Vec::new();
        push_bytes(&mut input, header.as_str().as_bytes());
        if let Self::Bound { data, .. } = self {
            push_bytes(&mut input, data.as_slice());
        }
        assert(input@ =~= encode_utf8(spec_gs2_header(*self, opt_chars(authzid))) + spec_gs2_binding_data(*self));
        input
    }
}

/// Escapes the separators a GS2 header and a SCRAM message frame their
/// fields with, `=` as `=3D` and `,` as `=2C`.
pub(crate) fn escape(name: &str) -> (escaped: String)
    ensures
        escaped@ == spec_escape(name@),
{
    let mut escaped = String::new();
    let mut chars = name.chars();
    let ghost mut done: Seq<char> = seq![];
    loop
        invariant
            name@ == done + chars.remaining(),
            escaped@ == spec_escape(done),
            chars.decrease() is Some,
        ensures
            escaped@ == spec_escape(name@),
        decreases chars.decrease()->0,
    {
        match chars.next() {
            Some(c) => {
                let ghost prev = done;
                proof {
                    done = done.push(c);
                    assert(done.drop_last() =~= prev);
                }
                if c == '=' {
                    escaped.append("=3D");
                } else if c == ',' {
                    escaped.append("=2C");
                } else {
                    string_push(&mut escaped, c);
                }
                proof {
                    reveal_strlit("=3D");
                    reveal_strlit("=2C");
                }
            },
            None => {
                assert(done + chars.remaining() =~= done);
                break;
            },
        }
    }
    escaped
}

} // verus!
