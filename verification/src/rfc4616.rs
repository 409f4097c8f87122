//! The PLAIN mechanism (RFC 4616).

pub mod plain;
