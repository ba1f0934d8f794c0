//! Transport bindings of protocol messages.
pub mod decoding;
