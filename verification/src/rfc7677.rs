//! SCRAM-SHA-256 (RFC 7677).

pub mod scram_sha_256;
