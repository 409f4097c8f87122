//! The SCRAM-SHA-1 profile (RFC 5802), the first one registered.
//!
//! The exchange, the failure type and the credentials are the family's,
//! in [`crate::rfc5802`]; this module adds the digest and the two names
//! the profile is registered under, `SCRAM-SHA-1` and
//! `SCRAM-SHA-1-PLUS`.
//!
//! SHA-1 is broken for collision resistance, which SCRAM does not rest
//! on: the exchange uses HMAC-SHA-1 and PBKDF2-HMAC-SHA-1, neither of
//! which the published collisions break. It is still the weakest
//! profile of the three and exists for servers that never enabled
//! another.

use hmac::Mac;
use sha1::Digest;
use vstd::prelude::*;

use crate::mechanism::SaslMechanism;
use crate::rfc5802::{SaslScram, SaslScramDigest};

verus! {

/// What PBKDF2-HMAC-SHA-1 derives, 20 bytes long.
pub uninterp spec fn spec_pbkdf2_hmac_sha1(password: Seq<u8>, salt: Seq<u8>, rounds: u32) -> Seq<u8>;

/// What HMAC-SHA-1 computes.
pub uninterp spec fn spec_hmac_sha1(key: Seq<u8>, data: Seq<u8>) -> Seq<u8>;

/// What SHA-1 computes.
pub uninterp spec fn spec_sha1(data: Seq<u8>) -> Seq<u8>;

/// `pbkdf2::pbkdf2_hmac_array::<sha1::Sha1, 20>`: the 20-byte key
/// PBKDF2-HMAC-SHA-1 derives from the password, the salt and the
/// round count.
#[verifier::external_body]
fn pbkdf2_hmac_sha1(password: &[u8], salt: &[u8], rounds: u32) -> (key: Vec<u8>)
    ensures
        key@ == spec_pbkdf2_hmac_sha1(password@, salt@, rounds),
        key@.len() == 20,
{
    pbkdf2::pbkdf2_hmac_array::<::sha1::Sha1, 20>(password, salt, rounds).to_vec()
}

/// `hmac::Hmac::<sha1::Sha1>`, keyed with `key` and fed `data`: the
/// 20-byte HMAC-SHA-1. Keying accepts a key of any length.
#[verifier::external_body]
fn hmac_sha1(key: &[u8], data: &[u8]) -> (mac: Vec<u8>)
    ensures
        mac@ == spec_hmac_sha1(key@, data@),
        mac@.len() == 20,
{
    <hmac::Hmac<::sha1::Sha1> as Mac>::new_from_slice(key).expect("HMAC accepts any key length").chain_update(
        data,
    ).finalize().into_bytes().to_vec()
}

/// `sha1::Sha1::digest`: the 20-byte SHA-1 of the data.
#[verifier::external_body]
fn sha1_digest(data: &[u8]) -> (digest: Vec<u8>)
    ensures
        digest@ == spec_sha1(data@),
        digest@.len() == 20,
{
    ::sha1::Sha1::digest(data).to_vec()
}

/// The SHA-1 digest, as the SCRAM-SHA-1 profile runs it.
pub struct Sha1;

impl SaslScramDigest for Sha1 {
    open spec fn spec_mechanism() -> SaslMechanism {
        SaslMechanism::ScramSha1
    }

    open spec fn spec_mechanism_plus() -> SaslMechanism {
        SaslMechanism::ScramSha1Plus
    }

    open spec fn spec_pbkdf2(password: Seq<u8>, salt: Seq<u8>, rounds: u32) -> Seq<u8> {
        spec_pbkdf2_hmac_sha1(password, salt, rounds)
    }

    open spec fn spec_hmac(key: Seq<u8>, data: Seq<u8>) -> Seq<u8> {
        spec_hmac_sha1(key, data)
    }

    open spec fn spec_hash(data: Seq<u8>) -> Seq<u8> {
        spec_sha1(data)
    }

    fn mechanism() -> (m: SaslMechanism) {
        SaslMechanism::ScramSha1
    }

    fn mechanism_plus() -> (m: SaslMechanism) {
        SaslMechanism::ScramSha1Plus
    }

    fn pbkdf2(password: &[u8], salt: &[u8], rounds: u32) -> (key: Vec<u8>) {
        pbkdf2_hmac_sha1(password, salt, rounds)
    }

    fn hmac(key: &[u8], data: &[u8]) -> (mac: Vec<u8>) {
        hmac_sha1(key, data)
    }

    fn hash(data: &[u8]) -> (digest: Vec<u8>) {
        sha1_digest(data)
    }
}

/// I/O-free SASL SCRAM-SHA-1 mechanism.
pub type SaslScramSha1 = SaslScram<Sha1>;

} // verus!
