//! SAML 2.0 message model: a generic XML tree, typed schema elements bound to
//! it, and the decoder for the HTTP redirect binding.
pub mod error;
pub mod xml;
pub mod schema;
pub mod encryption;
pub mod signature;
pub mod binding;
pub mod util;
