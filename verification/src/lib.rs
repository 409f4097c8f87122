//! I/O-free SASL mechanisms, verified.

pub mod client;
pub mod coroutine;
pub mod login;
pub mod mechanism;
pub mod rfc2195;
pub mod rfc4013;
pub mod rfc4422;
pub mod rfc4505;
pub mod rfc4616;
pub mod rfc4752;
pub mod rfc5801;
pub mod rfc5802;
pub mod rfc7628;
pub mod rfc7677;
pub mod scram_sha_512;
pub mod text;
pub mod xoauth2;
