//! The GSSAPI mechanism (RFC 4752).

pub mod gssapi;
