//! The SASL framework (RFC 4422) and the mechanism it defines itself.

pub mod external;
