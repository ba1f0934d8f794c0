//! XML Signature elements that encrypted content refers to.
pub mod key_info;
pub mod transform;
