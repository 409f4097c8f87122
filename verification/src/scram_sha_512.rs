//! The SCRAM-SHA-512 profile (draft-melnikov-scram-sha-512), which
//! never became an RFC.
//!
//! The exchange, the failure type and the credentials are the family's,
//! in [`crate::rfc5802`]; this module adds the digest and the two names
//! the profile is registered under, `SCRAM-SHA-512` and
//! `SCRAM-SHA-512-PLUS`. Both are in the IANA SASL mechanism registry,
//! which is what a server advertises against.

use hmac::Mac;
use sha2::Digest;
use vstd::prelude::*;

use crate::mechanism::SaslMechanism;
use crate::rfc5802::{SaslScram, SaslScramDigest};

verus! {

/// What PBKDF2-HMAC-SHA-512 derives, 64 bytes long.
pub uninterp spec fn spec_pbkdf2_hmac_sha512(password: Seq<u8>, salt: Seq<u8>, rounds: u32) -> Seq<u8>;

/// What HMAC-SHA-512 computes.
pub uninterp spec fn spec_hmac_sha512(key: Seq<u8>, data: Seq<u8>) -> Seq<u8>;

/// What SHA-512 computes.
pub uninterp spec fn spec_sha512(data: Seq<u8>) -> Seq<u8>;

/// `pbkdf2::pbkdf2_hmac_array::<sha2::Sha512, 64>`: the 64-byte key
/// PBKDF2-HMAC-SHA-512 derives from the password, the salt and the
/// round count.
#[verifier::external_body]
fn pbkdf2_hmac_sha512(password: &[u8], salt: &[u8], rounds: u32) -> (key: Vec<u8>)
    ensures
        key@ == spec_pbkdf2_hmac_sha512(password@, salt@, rounds),
        key@.len() == 64,
{
    pbkdf2::pbkdf2_hmac_array::<::sha2::Sha512, 64>(password, salt, rounds).to_vec()
}

/// `hmac::Hmac::<sha2::Sha512>`, keyed with `key` and fed `data`: the
/// 64-byte HMAC-SHA-512. Keying accepts a key of any length.
#[verifier::external_body]
fn hmac_sha512(key: &[u8], data: &[u8]) -> (mac: Vec<u8>)
    ensures
        mac@ == spec_hmac_sha512(key@, data@),
        mac@.len() == 64,
{
    <hmac::Hmac<::sha2::Sha512> as Mac>::new_from_slice(key).expect("HMAC accepts any key length").chain_update(
        data,
    ).finalize().into_bytes().to_vec()
}

/// `sha2::Sha512::digest`: the 64-byte SHA-512 of the data.
#[verifier::external_body]
fn sha512_digest(data: &[u8]) -> (digest: Vec<u8>)
    ensures
        digest@ == spec_sha512(data@),
        digest@.len() == 64,
{
    ::sha2::Sha512::digest(data).to_vec()
}

/// The SHA-512 digest, as the SCRAM-SHA-512 profile runs it.
pub struct Sha512;

impl SaslScramDigest for Sha512 {
    open spec fn spec_mechanism() -> SaslMechanism {
        SaslMechanism::ScramSha512
    }

    open spec fn spec_mechanism_plus() -> SaslMechanism {
        SaslMechanism::ScramSha512Plus
    }

    open spec fn spec_pbkdf2(password: Seq<u8>, salt: Seq<u8>, rounds: u32) -> Seq<u8> {
        spec_pbkdf2_hmac_sha512(password, salt, rounds)
    }

    open spec fn spec_hmac(key: Seq<u8>, data: Seq<u8>) -> Seq<u8> {
        spec_hmac_sha512(key, data)
    }

    open spec fn spec_hash(data: Seq<u8>) -> Seq<u8> {
        spec_sha512(data)
    }

    fn mechanism() -> (m: SaslMechanism) {
        SaslMechanism::ScramSha512
    }

    fn mechanism_plus() -> (m: SaslMechanism) {
        SaslMechanism::ScramSha512Plus
    }

    fn pbkdf2(password: &[u8], salt: &[u8], rounds: u32) -> (key: Vec<u8>) {
        pbkdf2_hmac_sha512(password, salt, rounds)
    }

    fn hmac(key: &[u8], data: &[u8]) -> (mac: Vec<u8>) {
        hmac_sha512(key, data)
    }

    fn hash(data: &[u8]) -> (digest: Vec<u8>) {
        sha512_digest(data)
    }
}

/// I/O-free SASL SCRAM-SHA-512 mechanism.
pub type SaslScramSha512 = SaslScram<Sha512>;

} // verus!
