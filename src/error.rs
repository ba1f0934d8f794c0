use vstd::prelude::*;

verus! {

/// Failure kinds of the library.
#[derive(Debug)]
pub enum SAMLError {
    /// Malformed transport encoding: bad base64, bad DEFLATE stream, bad XML
    /// syntax, or a missing parameter.
    MessageDecodingError(String),
    /// Well-formed XML that breaks a schema element's contract.
    UnmarshallingError(String),
}

impl SAMLError {
    pub fn unmarshalling(msg: &str) -> (r: SAMLError)
        ensures
            r is UnmarshallingError,
            r->UnmarshallingError_0@ == msg@,
    {
        SAMLError::UnmarshallingError(msg.to_owned())
    }

    pub fn decoding(msg: &str) -> (r: SAMLError)
        ensures
            r is MessageDecodingError,
            r->MessageDecodingError_0@ == msg@,
    {
        SAMLError::MessageDecodingError(msg.to_owned())
    }

    /// The diagnostic text carried by the error.
    pub fn message(&self) -> (r: &String)
        ensures
            r == (match self {
                SAMLError::MessageDecodingError(m) => m,
                SAMLError::UnmarshallingError(m) => m,
            }),
    {
        match self {
            SAMLError::MessageDecodingError(m) => m,
            SAMLError::UnmarshallingError(m) => m,
        }
    }
}

} // verus!
