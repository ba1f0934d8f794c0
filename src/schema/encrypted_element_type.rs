use vstd::prelude::*;

use crate::encryption::encrypted_data::EncryptedData;
use crate::encryption::encrypted_key::EncryptedKey;
use crate::schema::encrypted_assertion::EncryptedAssertion;
use crate::schema::encrypted_id::EncryptedID;

verus! {

/// An element that carries encrypted data and the keys to decrypt it.
pub trait EncryptedElementType {
    fn encrypted_data(&self) -> &EncryptedData;

    fn set_encrypted_data(&mut self, value: EncryptedData);

    fn encrypted_keys(&self) -> &Vec<EncryptedKey>;

    fn set_encrypted_keys(&mut self, value: Vec<EncryptedKey>);
}

impl EncryptedElementType for EncryptedID {
    fn encrypted_data(&self) -> &EncryptedData {
        &self.encrypted_data
    }

    fn set_encrypted_data(&mut self, value: EncryptedData) {
        self.encrypted_data = value;
    }

    fn encrypted_keys(&self) -> &Vec<EncryptedKey> {
        &self.encrypted_keys
    }

    fn set_encrypted_keys(&mut self, value: Vec<EncryptedKey>) {
        self.encrypted_keys = value;
    }
}

impl EncryptedElementType for EncryptedAssertion {
    fn encrypted_data(&self) -> &EncryptedData {
        &self.encrypted_data
    }

    fn set_encrypted_data(&mut self, value: EncryptedData) {
        self.encrypted_data = value;
    }

    fn encrypted_keys(&self) -> &Vec<EncryptedKey> {
        &self.encrypted_keys
    }

    fn set_encrypted_keys(&mut self, value: Vec<EncryptedKey>) {
        self.encrypted_keys = value;
    }
}

} // verus!
