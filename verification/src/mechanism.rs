//! The SASL vocabulary: the tag naming a mechanism, the credentials of
//! the mechanisms that take a plain identity and secret, and the closed
//! set pairing a tag with the credentials of one.

use vstd::prelude::*;

use crate::rfc2195::cram_md5::SaslCramMd5Creds;
use crate::rfc4422::external::SaslExternalCreds;
use crate::rfc4752::gssapi::SaslGssapiCreds;
use crate::rfc5801::gs2_krb5::SaslGs2Krb5Creds;
use crate::rfc5802::SaslScramCreds;
use crate::rfc7628::oauthbearer::SaslOauthbearerCreds;
use crate::xoauth2::SaslXoauth2Creds;

verus! {

/// Tag identifying a SASL mechanism without its credentials.
///
/// The tag stays complete whatever the library runs, since a consumer
/// reading a server capability list has to recognise the name of a
/// mechanism it cannot run in order to report it as unsupported.
#[derive(Clone, Copy, Debug, PartialEq, Eq, Structural)]
pub enum SaslMechanism {
    /// The ANONYMOUS mechanism (RFC 4505).
    Anonymous,
    /// The CRAM-MD5 mechanism (RFC 2195).
    CramMd5,
    /// The EXTERNAL mechanism (RFC 4422 appendix A).
    External,
    /// The GSSAPI mechanism, Kerberos V5 (RFC 4752).
    Gssapi,
    /// The GS2-KRB5 mechanism, Kerberos V5 through the GS2 bridge
    /// (RFC 5801).
    Gs2Krb5,
    /// The GS2-KRB5 mechanism with channel binding (RFC 5801).
    Gs2Krb5Plus,
    /// The legacy LOGIN mechanism.
    Login,
    /// The PLAIN mechanism (RFC 4616).
    Plain,
    /// The OAUTHBEARER mechanism (RFC 7628).
    OAuthBearer,
    /// The pre-standard Google XOAUTH2 mechanism.
    XOAuth2,
    /// The SCRAM-SHA-1 mechanism (RFC 5802).
    ScramSha1,
    /// The SCRAM-SHA-1 mechanism with channel binding (RFC 5802).
    ScramSha1Plus,
    /// The SCRAM-SHA-256 mechanism (RFC 7677).
    ScramSha256,
    /// The SCRAM-SHA-256 mechanism with channel binding (RFC 7677).
    ScramSha256Plus,
    /// The SCRAM-SHA-512 mechanism (draft-melnikov-scram-sha-512).
    ScramSha512,
    /// The SCRAM-SHA-512 mechanism with channel binding
    /// (draft-melnikov-scram-sha-512).
    ScramSha512Plus,
}

/// The name a mechanism is registered under with IANA.
pub open spec fn mechanism_name(m: SaslMechanism) -> Seq<char> {
    match m {
        SaslMechanism::Anonymous => "ANONYMOUS"@,
        SaslMechanism::CramMd5 => "CRAM-MD5"@,
        SaslMechanism::External => "EXTERNAL"@,
        SaslMechanism::Gssapi => "GSSAPI"@,
        SaslMechanism::Gs2Krb5 => "GS2-KRB5"@,
        SaslMechanism::Gs2Krb5Plus => "GS2-KRB5-PLUS"@,
        SaslMechanism::Login => "LOGIN"@,
        SaslMechanism::Plain => "PLAIN"@,
        SaslMechanism::OAuthBearer => "OAUTHBEARER"@,
        SaslMechanism::XOAuth2 => "XOAUTH2"@,
        SaslMechanism::ScramSha1 => "SCRAM-SHA-1"@,
        SaslMechanism::ScramSha1Plus => "SCRAM-SHA-1-PLUS"@,
        SaslMechanism::ScramSha256 => "SCRAM-SHA-256"@,
        SaslMechanism::ScramSha256Plus => "SCRAM-SHA-256-PLUS"@,
        SaslMechanism::ScramSha512 => "SCRAM-SHA-512"@,
        SaslMechanism::ScramSha512Plus => "SCRAM-SHA-512-PLUS"@,
    }
}

impl SaslMechanism {
    /// The mechanism name as registered with IANA and written on the
    /// wire.
    pub fn as_str(&self) -> (name: &'static str)
        ensures
            name@ == mechanism_name(*self),
    {
        match self {
            Self::Anonymous => "ANONYMOUS",
            Self::CramMd5 => "CRAM-MD5",
            Self::External => "EXTERNAL",
            Self::Gssapi => "GSSAPI",
            Self::Gs2Krb5 => "GS2-KRB5",
            Self::Gs2Krb5Plus => "GS2-KRB5-PLUS",
            Self::Login => "LOGIN",
            Self::Plain => "PLAIN",
            Self::OAuthBearer => "OAUTHBEARER",
            Self::XOAuth2 => "XOAUTH2",
            Self::ScramSha1 => "SCRAM-SHA-1",
            Self::ScramSha1Plus => "SCRAM-SHA-1-PLUS",
            Self::ScramSha256 => "SCRAM-SHA-256",
            Self::ScramSha256Plus => "SCRAM-SHA-256-PLUS",
            Self::ScramSha512 => "SCRAM-SHA-512",
            Self::ScramSha512Plus => "SCRAM-SHA-512-PLUS",
        }
    }
}

/// No two mechanisms are registered under the same name, so the name a
/// protocol crate writes on the wire identifies the mechanism it runs.
pub proof fn lemma_mechanism_names_are_distinct(a: SaslMechanism, b: SaslMechanism)
    ensures
        mechanism_name(a) == mechanism_name(b) ==> a == b,
{
    reveal_strlit("ANONYMOUS");
    reveal_strlit("CRAM-MD5");
    reveal_strlit("EXTERNAL");
    reveal_strlit("GSSAPI");
    reveal_strlit("GS2-KRB5");
    reveal_strlit("GS2-KRB5-PLUS");
    reveal_strlit("LOGIN");
    reveal_strlit("PLAIN");
    reveal_strlit("OAUTHBEARER");
    reveal_strlit("XOAUTH2");
    reveal_strlit("SCRAM-SHA-1");
    reveal_strlit("SCRAM-SHA-1-PLUS");
    reveal_strlit("SCRAM-SHA-256");
    reveal_strlit("SCRAM-SHA-256-PLUS");
    reveal_strlit("SCRAM-SHA-512");
    reveal_strlit("SCRAM-SHA-512-PLUS");
    if mechanism_name(a) == mechanism_name(b) && a != b {
        let (x, y) = (mechanism_name(a), mechanism_name(b));
        assert(x.len() == y.len());
        assert(false) by {
            if x.len() >= 12 {
                assert(x[10] != y[10] || x[11] != y[11] || x[12] != y[12] || x.len() != y.len()
                    || x[x.len() - 1] != y[y.len() - 1] || x[5] != y[5] || x[9] != y[9]);
            } else {
                assert(x[0] != y[0] || x[1] != y[1] || x[2] != y[2] || x[3] != y[3] || x[4] != y[4]
                    || x[5] != y[5]);
            }
        }
    }
}

/// ANONYMOUS mechanism credentials (RFC 4505): an optional trace token
/// the server may log.
#[derive(Clone, Debug)]
pub struct SaslAnonymous {
    /// The optional trace token, UTF-8 and at most 255 characters.
    pub message: Option<String>,
}

/// PLAIN mechanism credentials (RFC 4616).
///
/// The password travels in the clear, so the mechanism belongs on a
/// TLS-protected connection only; the struct has no `Debug` so that
/// the password cannot reach a log.
#[derive(Clone)]
pub struct SaslPlain {
    /// The optional authorization identity, usually absent.
    pub authzid: Option<String>,
    /// The authentication identity.
    pub authcid: String,
    /// The password.
    pub passwd: String,
}

/// LOGIN mechanism credentials (draft-murchison-sasl-login).
///
/// Both answers travel in the clear; the struct has no `Debug` so that
/// the password cannot reach a log.
#[derive(Clone)]
pub struct SaslLogin {
    /// The account username.
    pub username: String,
    /// The password.
    pub password: String,
}

/// SASL credentials for a single authentication mechanism.
///
/// The `-PLUS` mechanisms have no variant of their own. A SCRAM profile
/// is one exchange registered under two names, and which name it runs
/// under follows from the channel binding the credentials carry, so the
/// variant names the profile and the credentials name the binding.
#[derive(Clone)]
pub enum Sasl {
    /// ANONYMOUS credentials.
    Anonymous(SaslAnonymous),
    /// CRAM-MD5 credentials.
    CramMd5(SaslCramMd5Creds),
    /// EXTERNAL credentials.
    External(SaslExternalCreds),
    /// GSSAPI credentials.
    Gssapi(SaslGssapiCreds),
    /// GS2-KRB5 credentials, plain or `-PLUS`.
    Gs2Krb5(SaslGs2Krb5Creds),
    /// LOGIN credentials.
    Login(SaslLogin),
    /// PLAIN credentials.
    Plain(SaslPlain),
    /// OAUTHBEARER credentials.
    Oauthbearer(SaslOauthbearerCreds),
    /// XOAUTH2 credentials.
    Xoauth2(SaslXoauth2Creds),
    /// SCRAM-SHA-1 credentials, plain or `-PLUS`.
    ScramSha1(SaslScramCreds),
    /// SCRAM-SHA-256 credentials, plain or `-PLUS`.
    ScramSha256(SaslScramCreds),
    /// SCRAM-SHA-512 credentials, plain or `-PLUS`.
    ScramSha512(SaslScramCreds),
}

impl From<SaslAnonymous> for Sasl {
    fn from(sasl: SaslAnonymous) -> (wrapped: Self) {
        Sasl::Anonymous(sasl)
    }
}

impl vstd::std_specs::convert::FromSpecImpl<SaslAnonymous> for Sasl {
    open spec fn obeys_from_spec() -> bool {
        true
    }

    open spec fn from_spec(sasl: SaslAnonymous) -> Self {
        Sasl::Anonymous(sasl)
    }
}

impl From<SaslCramMd5Creds> for Sasl {
    fn from(sasl: SaslCramMd5Creds) -> (wrapped: Self) {
        Sasl::CramMd5(sasl)
    }
}

impl vstd::std_specs::convert::FromSpecImpl<SaslCramMd5Creds> for Sasl {
    open spec fn obeys_from_spec() -> bool {
        true
    }

    open spec fn from_spec(sasl: SaslCramMd5Creds) -> Self {
        Sasl::CramMd5(sasl)
    }
}

impl From<SaslExternalCreds> for Sasl {
    fn from(sasl: SaslExternalCreds) -> (wrapped: Self) {
        Sasl::External(sasl)
    }
}

impl vstd::std_specs::convert::FromSpecImpl<SaslExternalCreds> for Sasl {
    open spec fn obeys_from_spec() -> bool {
        true
    }

    open spec fn from_spec(sasl: SaslExternalCreds) -> Self {
        Sasl::External(sasl)
    }
}

impl From<SaslGssapiCreds> for Sasl {
    fn from(sasl: SaslGssapiCreds) -> (wrapped: Self) {
        Sasl::Gssapi(sasl)
    }
}

impl vstd::std_specs::convert::FromSpecImpl<SaslGssapiCreds> for Sasl {
    open spec fn obeys_from_spec() -> bool {
        true
    }

    open spec fn from_spec(sasl: SaslGssapiCreds) -> Self {
        Sasl::Gssapi(sasl)
    }
}

impl From<SaslGs2Krb5Creds> for Sasl {
    fn from(sasl: SaslGs2Krb5Creds) -> (wrapped: Self) {
        Sasl::Gs2Krb5(sasl)
    }
}

impl vstd::std_specs::convert::FromSpecImpl<SaslGs2Krb5Creds> for Sasl {
    open spec fn obeys_from_spec() -> bool {
        true
    }

    open spec fn from_spec(sasl: SaslGs2Krb5Creds) -> Self {
        Sasl::Gs2Krb5(sasl)
    }
}

impl From<SaslLogin> for Sasl {
    fn from(sasl: SaslLogin) -> (wrapped: Self) {
        Sasl::Login(sasl)
    }
}

impl vstd::std_specs::convert::FromSpecImpl<SaslLogin> for Sasl {
    open spec fn obeys_from_spec() -> bool {
        true
    }

    open spec fn from_spec(sasl: SaslLogin) -> Self {
        Sasl::Login(sasl)
    }
}

impl From<SaslPlain> for Sasl {
    fn from(sasl: SaslPlain) -> (wrapped: Self) {
        Sasl::Plain(sasl)
    }
}

impl vstd::std_specs::convert::FromSpecImpl<SaslPlain> for Sasl {
    open spec fn obeys_from_spec() -> bool {
        true
    }

    open spec fn from_spec(sasl: SaslPlain) -> Self {
        Sasl::Plain(sasl)
    }
}

impl From<SaslOauthbearerCreds> for Sasl {
    fn from(sasl: SaslOauthbearerCreds) -> (wrapped: Self) {
        Sasl::Oauthbearer(sasl)
    }
}

impl vstd::std_specs::convert::FromSpecImpl<SaslOauthbearerCreds> for Sasl {
    open spec fn obeys_from_spec() -> bool {
        true
    }

    open spec fn from_spec(sasl: SaslOauthbearerCreds) -> Self {
        Sasl::Oauthbearer(sasl)
    }
}

impl From<SaslXoauth2Creds> for Sasl {
    fn from(sasl: SaslXoauth2Creds) -> (wrapped: Self) {
        Sasl::Xoauth2(sasl)
    }
}

impl vstd::std_specs::convert::FromSpecImpl<SaslXoauth2Creds> for Sasl {
    open spec fn obeys_from_spec() -> bool {
        true
    }

    open spec fn from_spec(sasl: SaslXoauth2Creds) -> Self {
        Sasl::Xoauth2(sasl)
    }
}

// NOTE: the three SCRAM profiles share one credential struct, so there
// is no From impl for it: the profile is the caller's choice, and an
// impl would have to guess which of the three variants it meant.

} // verus!
