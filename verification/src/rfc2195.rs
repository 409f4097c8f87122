//! The CRAM-MD5 mechanism (RFC 2195).

pub mod cram_md5;
