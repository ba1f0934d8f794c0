//! XML Encryption elements.
pub mod carried_key_name;
pub mod cipher_data;
pub mod cipher_reference;
pub mod cipher_value;
pub mod encrypted_data;
pub mod encrypted_key;
pub mod encrypted_method;
pub mod encryption_properties;
pub mod encryption_property;
pub mod key_size;
pub mod oaep_params;
pub mod reference_list;
pub mod transforms;
