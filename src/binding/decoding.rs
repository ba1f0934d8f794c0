use vstd::prelude::*;

use crate::error::SAMLError;
use crate::schema::authn_request::AuthnRequest;
use crate::schema::response::Response;
use crate::xml::reader::parsed;
use crate::xml::XmlObject;
use base64::Engine;

verus! {

/// The bytes that a text denotes in the standard base64 alphabet, with
/// padding, when it is valid base64.
pub uninterp spec fn base64_decoded(text: Seq<char>) -> Option<Seq<u8>>;

/// The bytes that a raw DEFLATE stream expands to, when the stream is valid.
pub uninterp spec fn inflated(data: Seq<u8>) -> Option<Seq<u8>>;

/// Relies on base64's `STANDARD` engine: `decode` gives the bytes of valid
/// base64 text and an error otherwise.
#[verifier::external_body]
fn decode_base64(text: &str) -> (r: Option<Vec<u8>>)
    ensures
        match r {
            Some(b) => base64_decoded(text@) == Some(b@),
            None => base64_decoded(text@) is None,
        },
{
    base64::engine::general_purpose::STANDARD.decode(text).ok()
}

/// Relies on inflate's `inflate_bytes`: expands a raw DEFLATE stream, or
/// reports an error for a corrupt one.
#[verifier::external_body]
fn inflate(data: &[u8]) -> (r: Option<Vec<u8>>)
    ensures
        match r {
            Some(b) => inflated(data@) == Some(b@),
            None => inflated(data@) is None,
        },
{
    inflate::inflate_bytes(data).ok()
}

/// The value of the last parameter named `k`.
pub open spec fn param(params: Seq<(String, String)>, k: Seq<char>) -> Option<Seq<char>>
    decreases params.len(),
{
    if params.len() == 0 {
        None
    } else if params.last().0@ == k {
        Some(params.last().1@)
    } else {
        param(params.drop_last(), k)
    }
}

/// The XML text that a transport-encoded message carries: base64, then
/// DEFLATE.
pub open spec fn message_bytes(encoded: Seq<char>) -> Option<Seq<u8>> {
    match base64_decoded(encoded) {
        Some(b) => inflated(b),
        None => None,
    }
}

/// Looks a parameter up; later entries override earlier ones.
pub fn find_param<'a>(params: &'a Vec<(String, String)>, k: &str) -> (r: Option<&'a String>)
    ensures
        match r {
            Some(v) => param(params@, k@) == Some(v@),
            None => param(params@, k@) is None,
        },
{
    let mut found: Option<&String> = None;
    let mut i: usize = 0;
    while i < params.len()
        invariant
            0 <= i <= params.len(),
            match found {
                Some(v) => param(params@.take(i as int), k@) == Some(v@),
                None => param(params@.take(i as int), k@) is None,
            },
        decreases params.len() - i,
    {
        proof {
            assert(params@.take(i + 1).drop_last() =~= params@.take(i as int));
        }
        if crate::schema::values::name_is(&params[i].0, k) {
            found = Some(&params[i].1);
        }
        i = i + 1;
    }
    proof {
        assert(params@.take(i as int) =~= params@);
    }
    found
}

/// Turns a transport-encoded message into its XML tree: base64-decodes,
/// inflates and parses it, with a decoding error at the first stage that fails.
pub fn decode_message(encoded: &String) -> (r: Result<XmlObject, SAMLError>)
    ensures
        r is Ok <==> message_bytes(encoded@) is Some && parsed(message_bytes(encoded@)->0) is Some,
        r is Ok ==> r->Ok_0@ == parsed(message_bytes(encoded@)->0)->0,
        r is Err ==> r->Err_0 is MessageDecodingError,
        message_bytes(encoded@) is Some && parsed(message_bytes(encoded@)->0) is None
            ==> r->Err_0->MessageDecodingError_0@ == "invalid xml format"@,
{
    let compressed = match decode_base64(encoded.as_str()) {
        Some(b) => b,
        None => {
            return Err(SAMLError::decoding("invalid base64 encoding"));
        },
    };
    let xml = match inflate(compressed.as_slice()) {
        Some(b) => b,
        None => {
            return Err(SAMLError::decoding("invalid deflate stream"));
        },
    };
    match XmlObject::parse_xml(xml.as_slice()) {
        Ok(tree) => Ok(tree),
        Err(_) => Err(SAMLError::decoding("invalid xml format")),
    }
}

/// Decodes an authentication request from the parameters of the HTTP
/// redirect binding. Only `SAMLRequest` is read: its absence, a bad transport
/// encoding or malformed XML is a decoding error, and a document that is not
/// a valid request is an unmarshalling error. `SAMLEncoding` is not
/// consulted: DEFLATE is the only encoding that is read.
pub fn decode_request(params: &Vec<(String, String)>) -> (r: Result<AuthnRequest, SAMLError>)
    ensures
        param(params@, "SAMLRequest"@) is None ==> r is Err && r->Err_0 is MessageDecodingError,
        param(params@, "SAMLRequest"@) is Some ==> ({
            let enc = param(params@, "SAMLRequest"@)->0;
            if message_bytes(enc) is None {
                r is Err && r->Err_0 is MessageDecodingError
            } else if parsed(message_bytes(enc)->0) is None {
                &&& r is Err && r->Err_0 is MessageDecodingError
                &&& r->Err_0->MessageDecodingError_0@ == "invalid xml format"@
            } else {
                let tree = parsed(message_bytes(enc)->0)->0;
                &&& (r is Ok <==> AuthnRequest::valid_node(tree))
                &&& (r is Ok ==> r->Ok_0.matches(tree))
                &&& (r is Err ==> r->Err_0 is UnmarshallingError)
            }
        }),
{
    let encoded = match find_param(params, "SAMLRequest") {
        Some(v) => v,
        None => {
            return Err(SAMLError::decoding("saml message cannot be null"));
        },
    };
    let tree = match decode_message(encoded) {
        Ok(t) => t,
        Err(e) => {
            return Err(e);
        },
    };
    AuthnRequest::try_from_xml(&tree)
}

/// Decodes a response from the parameters of the HTTP redirect binding.
/// Only `SAMLResponse` is read; failures are reported as for requests.
pub fn decode_response(params: &Vec<(String, String)>) -> (r: Result<Response, SAMLError>)
    ensures
        param(params@, "SAMLResponse"@) is None ==> r is Err && r->Err_0 is MessageDecodingError,
        param(params@, "SAMLResponse"@) is Some ==> ({
            let enc = param(params@, "SAMLResponse"@)->0;
            if message_bytes(enc) is None {
                r is Err && r->Err_0 is MessageDecodingError
            } else if parsed(message_bytes(enc)->0) is None {
                &&& r is Err && r->Err_0 is MessageDecodingError
                &&& r->Err_0->MessageDecodingError_0@ == "invalid xml format"@
            } else {
                let tree = parsed(message_bytes(enc)->0)->0;
                &&& (r is Ok <==> Response::valid_node(tree))
                &&& (r is Ok ==> r->Ok_0.matches(tree))
                &&& (r is Err ==> r->Err_0 is UnmarshallingError)
            }
        }),
{
    let encoded = match find_param(params, "SAMLResponse") {
        Some(v) => v,
        None => {
            return Err(SAMLError::decoding("saml message cannot be null"));
        },
    };
    let tree = match decode_message(encoded) {
        Ok(t) => t,
        Err(e) => {
            return Err(e);
        },
    };
    Response::try_from_xml(&tree)
}

} // verus!
