//! The OAUTHBEARER mechanism (RFC 7628).

pub mod oauthbearer;
