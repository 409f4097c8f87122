//! The ANONYMOUS mechanism (RFC 4505).

pub mod anonymous;
