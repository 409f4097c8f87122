//! The blocking command surface a protocol crate implements once, and
//! inherits every mechanism from.
//!
//! Driving a mechanism is the same loop everywhere: name it on the
//! wire, resume it, write what it asks for, read what the peer says,
//! hand that back, stop when it completes. What differs between
//! protocols is the framing on either side of the loop, which is the
//! part the loop delegates anyway. So the loop is the one method an
//! implementation writes, [`SaslClient::run`], and every mechanism
//! arrives as a default body calling it with that mechanism.
//!
//! This adds no I/O to the library: the implementation brings its own
//! transport, and the failure type is the implementation's too, since
//! it is what holds both kinds of failure, its framing errors and the
//! mechanism's.

use vstd::prelude::*;

use crate::coroutine::SaslCoroutine;
use crate::login::{SaslAuthLogin, SaslAuthLoginError};
use crate::mechanism::{SaslAnonymous, SaslLogin, SaslPlain};
use crate::rfc2195::cram_md5::{SaslCramMd5, SaslCramMd5Creds, SaslCramMd5Error};
use crate::rfc4422::external::{SaslExternal, SaslExternalCreds, SaslExternalError};
use crate::rfc4505::anonymous::{SaslAuthAnonymous, SaslAuthAnonymousError};
use crate::rfc4616::plain::{SaslAuthPlain, SaslAuthPlainError};
use crate::rfc4752::gssapi::{SaslGssapi, SaslGssapiCreds, SaslGssapiError};
use crate::rfc5801::gs2_krb5::{spec_gs2_krb5_initial, SaslGs2Krb5, SaslGs2Krb5Creds, SaslGs2Krb5Error};
use crate::rfc5802::scram_sha_1::{SaslScramSha1, Sha1};
use crate::rfc5802::{spec_scram_initial, SaslScram, SaslScramCreds, SaslScramError};
use crate::rfc7628::oauthbearer::{SaslOauthbearer, SaslOauthbearerCreds, SaslOauthbearerError};
use crate::rfc7677::scram_sha_256::Sha256;
use crate::scram_sha_512::{SaslScramSha512, Sha512};
use crate::text::opt_string_chars;
use crate::xoauth2::{SaslXoauth2, SaslXoauth2Creds, SaslXoauth2Error};

verus! {

/// Blocking SASL command surface: implement [`SaslClient::run`] and
/// inherit every mechanism.
///
/// What `run` owes each mechanism is the loop around it: open the
/// exchange with the name [`SaslCoroutine::mechanism`] reports, resume
/// first with `SaslResume::Start` and then always with the answer to the
/// previous yield, write what a `Respond` carries, read on
/// `AwaitChallenge`, resume with the decoded challenge or with
/// `PeerFinished` once the peer's own success reply ended the exchange,
/// and return on completion, converting a mechanism failure through
/// `From`.
pub trait SaslClient {
    /// The failure type the implementation reports, carrying its own
    /// framing errors and, through `From`, the failures of the
    /// mechanisms it runs.
    type Error;

    /// Whether running `mechanism` from the driver `before` may leave the
    /// driver as `after` and return `result`: what the implementation
    /// says of its own exchange loop. An implementation that says
    /// nothing of it allows every outcome.
    closed spec fn runs<C>(before: &Self, after: &Self, mechanism: C, result: Result<(), Self::Error>) -> bool {
        true
    }

    /// Runs one authentication exchange to completion, answering the
    /// mechanism's reads and writes against the transport; what it leaves
    /// and returns is an outcome [`SaslClient::runs`] allows.
    ///
    /// Every other method hands this one a freshly built mechanism, in the
    /// state its constructor promises, and returns what it returned.
    fn run<C>(&mut self, mechanism: C) -> (result: Result<(), Self::Error>) where
        C: SaslCoroutine,
        Self::Error: From<C::Error>,
        ensures
            Self::runs(old(self), final(self), mechanism, result),
    ;

    /// `ANONYMOUS`: the optional trace token identifying an
    /// unauthenticated user.
    fn anonymous(&mut self, creds: SaslAnonymous) -> (result: Result<(), Self::Error>) where
        Self::Error: From<SaslAuthAnonymousError>,
        ensures
            exists|m: SaslAuthAnonymous|
                {
                    &&& m.message() == opt_string_chars(creds.message)
                    &&& m.state() == crate::rfc4505::anonymous::State::Start
                    &&& #[trigger] Self::runs(old(self), final(self), m, result)
                },
    {
        let mechanism = SaslAuthAnonymous::new(creds);
        let ghost handed = mechanism;
        let result = self.run(mechanism);
        assert(Self::runs(old(self), self, handed, result));
        result
    }

    /// `CRAM-MD5`: the keyed digest answering the server's challenge.
    /// The one server-first mechanism, so the command goes out bare.
    fn cram_md5(&mut self, creds: SaslCramMd5Creds) -> (result: Result<(), Self::Error>) where
        Self::Error: From<SaslCramMd5Error>,
        ensures
            exists|m: SaslCramMd5|
                {
                    &&& m.creds() == creds
                    &&& m.state() == crate::rfc2195::cram_md5::State::AwaitChallenge
                    &&& #[trigger] Self::runs(old(self), final(self), m, result)
                },
    {
        let mechanism = SaslCramMd5::new(creds);
        let ghost handed = mechanism;
        let result = self.run(mechanism);
        assert(Self::runs(old(self), self, handed, result));
        result
    }

    /// `EXTERNAL`: the optional authorization identity, the outer
    /// channel being what authenticates.
    fn external(&mut self, creds: SaslExternalCreds) -> (result: Result<(), Self::Error>) where
        Self::Error: From<SaslExternalError>,
        ensures
            exists|m: SaslExternal|
                {
                    &&& m.authzid() == opt_string_chars(creds.authzid)
                    &&& m.state() == crate::rfc4422::external::State::SendAuthzid
                    &&& #[trigger] Self::runs(old(self), final(self), m, result)
                },
    {
        let mechanism = SaslExternal::new(creds);
        let ghost handed = mechanism;
        let result = self.run(mechanism);
        assert(Self::runs(old(self), self, handed, result));
        result
    }

    /// `GSSAPI`: the Kerberos tokens, relayed. The caller advances its
    /// own security context between resumes.
    fn gssapi(&mut self, creds: SaslGssapiCreds) -> (result: Result<(), Self::Error>) where
        Self::Error: From<SaslGssapiError>,
        ensures
            exists|m: SaslGssapi|
                {
                    &&& m.token() == creds.token@
                    &&& m.state() == crate::rfc4752::gssapi::State::SendFirstToken
                    &&& #[trigger] Self::runs(old(self), final(self), m, result)
                },
    {
        let mechanism = SaslGssapi::new(creds);
        let ghost handed = mechanism;
        let result = self.run(mechanism);
        assert(Self::runs(old(self), self, handed, result));
        result
    }

    /// `GS2-KRB5`, or `-PLUS` when the credentials carry a channel
    /// binding: the GS2 header, then the Kerberos tokens, relayed.
    fn gs2_krb5(&mut self, creds: SaslGs2Krb5Creds) -> (result: Result<(), Self::Error>) where
        Self::Error: From<SaslGs2Krb5Error>,
        ensures
            exists|m: SaslGs2Krb5|
                {
                    &&& m@ == spec_gs2_krb5_initial(creds)
                    &&& #[trigger] Self::runs(old(self), final(self), m, result)
                },
    {
        let mechanism = SaslGs2Krb5::new(creds);
        let ghost handed = mechanism;
        let result = self.run(mechanism);
        assert(Self::runs(old(self), self, handed, result));
        result
    }

    /// `LOGIN`: the username, then the password, each answering a
    /// cleartext prompt. The channel must be TLS-protected.
    fn login(&mut self, creds: SaslLogin) -> (result: Result<(), Self::Error>) where
        Self::Error: From<SaslAuthLoginError>,
        ensures
            exists|m: SaslAuthLogin|
                {
                    &&& m.creds() == creds
                    &&& m.state() == crate::login::State::Start
                    &&& #[trigger] Self::runs(old(self), final(self), m, result)
                },
    {
        let mechanism = SaslAuthLogin::new(creds);
        let ghost handed = mechanism;
        let result = self.run(mechanism);
        assert(Self::runs(old(self), self, handed, result));
        result
    }

    /// `PLAIN`: the NUL-separated authorization identity,
    /// authentication identity and password. The channel must be
    /// TLS-protected.
    fn plain(&mut self, creds: SaslPlain) -> (result: Result<(), Self::Error>) where
        Self::Error: From<SaslAuthPlainError>,
        ensures
            exists|m: SaslAuthPlain|
                {
                    &&& m.creds() == creds
                    &&& m.state() == crate::rfc4616::plain::State::Start
                    &&& #[trigger] Self::runs(old(self), final(self), m, result)
                },
    {
        let mechanism = SaslAuthPlain::new(creds);
        let ghost handed = mechanism;
        let result = self.run(mechanism);
        assert(Self::runs(old(self), self, handed, result));
        result
    }

    /// `OAUTHBEARER`: the bearer token message, and the acknowledgement
    /// a rejected token needs before the failure can be reported.
    fn oauthbearer(&mut self, creds: SaslOauthbearerCreds) -> (result: Result<(), Self::Error>) where
        Self::Error: From<SaslOauthbearerError>,
        ensures
            exists|m: SaslOauthbearer|
                {
                    &&& m.creds() == creds
                    &&& m.stage() == crate::rfc7628::oauthbearer::Stage::Start
                    &&& #[trigger] Self::runs(old(self), final(self), m, result)
                },
    {
        let mechanism = SaslOauthbearer::new(creds);
        let ghost handed = mechanism;
        let result = self.run(mechanism);
        assert(Self::runs(old(self), self, handed, result));
        result
    }

    /// `XOAUTH2`: the username and bearer token, and the
    /// acknowledgement a rejected token needs.
    fn xoauth2(&mut self, creds: SaslXoauth2Creds) -> (result: Result<(), Self::Error>) where
        Self::Error: From<SaslXoauth2Error>,
        ensures
            exists|m: SaslXoauth2|
                {
                    &&& m.creds() == creds
                    &&& m.stage() == crate::xoauth2::Stage::SendToken
                    &&& #[trigger] Self::runs(old(self), final(self), m, result)
                },
    {
        let mechanism = SaslXoauth2::new(creds);
        let ghost handed = mechanism;
        let result = self.run(mechanism);
        assert(Self::runs(old(self), self, handed, result));
        result
    }

    /// `SCRAM-SHA-1`, or `-PLUS` when the credentials carry a channel
    /// binding. The legacy profile of the family.
    fn scram_sha_1(&mut self, creds: SaslScramCreds) -> (result: Result<(), Self::Error>) where
        Self::Error: From<SaslScramError>,
        ensures
            exists|m: SaslScramSha1|
                {
                    &&& m@ == spec_scram_initial::<Sha1>(creds)
                    &&& #[trigger] Self::runs(old(self), final(self), m, result)
                },
    {
        let mechanism = SaslScramSha1::new(creds);
        let ghost handed = mechanism;
        let result = self.run(mechanism);
        assert(Self::runs(old(self), self, handed, result));
        result
    }

    /// `SCRAM-SHA-256`, or `-PLUS` when the credentials carry a channel
    /// binding. The exchange ends only once the server proved itself.
    fn scram_sha_256(&mut self, creds: SaslScramCreds) -> (result: Result<(), Self::Error>) where
        Self::Error: From<SaslScramError>,
        ensures
            exists|m: SaslScram<Sha256>|
                {
                    &&& m@ == spec_scram_initial::<Sha256>(creds)
                    &&& #[trigger] Self::runs(old(self), final(self), m, result)
                },
    {
        let mechanism = SaslScram::<Sha256>::new(creds);
        let ghost handed = mechanism;
        let result = self.run(mechanism);
        assert(Self::runs(old(self), self, handed, result));
        result
    }

    /// `SCRAM-SHA-512`, or `-PLUS` when the credentials carry a channel
    /// binding. The exchange ends only once the server proved itself.
    fn scram_sha_512(&mut self, creds: SaslScramCreds) -> (result: Result<(), Self::Error>) where
        Self::Error: From<SaslScramError>,
        ensures
            exists|m: SaslScramSha512|
                {
                    &&& m@ == spec_scram_initial::<Sha512>(creds)
                    &&& #[trigger] Self::runs(old(self), final(self), m, result)
                },
    {
        let mechanism = SaslScramSha512::new(creds);
        let ghost handed = mechanism;
        let result = self.run(mechanism);
        assert(Self::runs(old(self), self, handed, result));
        result
    }
}

} // verus!
