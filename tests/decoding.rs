use saml2::binding::decoding::{decode_request, decode_response};
use saml2::error::SAMLError;

const MINIMAL_REQUEST: &str = "ZY7BCgIhFEV/RdxbGoLxGAcGZjNQm4oW7WQSEvQ5+RT6/KRtcFb33MUZyKW4wdTqCy/+3TxV9kkRCX7C8lYQsqNAgC55grrCdTqf4LCTsJVc85ojZ8tseXgKbZTi7O4LhYyW909XRM0vSNVh7ZNUWkgjlLlJBR19fPBx2P9njF8=";
const UNCLOSED_REQUEST: &str = "HcnBCsIwDIDhVym5T1oZTIIVBrsM9KLiwVsZBQdtMpsU9vgW4T99/1lCThuOVT90j98aRc2eEwn+h4daCDnIKkghR0Fd8DHerng8WNwKKy+cwMyThx3MKxZZmTy021CkxplEA2kj6/rODp0bntZhqz+94fID";
const MINIMAL_RESPONSE: &str = "fZBBa8MwDIX/SvA9cTwCGSIJjO1SaC9L6WE34wgWsC1j2dCfXzeltL0UBEKP7+khDaydDfCLHMgzVmdnPcMmjiJHD6R5ZfDaIUMyMH8d9vDRtBAiJTJkxZPlvUMzY0wreVHtfkYRVen+HnykUaxL3fWqyCeMXLhRFFuBmDPuPCftU5Fa1dVtX6v+2Coo1X3+iWm4xsNGxuk/pcAg5bqEBs/aBYuNITfIZ2i4HT4nnTK/Tt+0YHXSNuP7g3ijYc7GILOQ0y3hsVS+Pne6AA==";
const UNKNOWN_VERSION: &str = "ZY6xCsIwEEB/JdzemtRC5WgKBZeCLioObqEELCSXmrtAP9/iKrzpveX17GJYcSzyppv/FM+ithiI8RcslEyYHC+M5KJnlBnv4/WCTa1xzUnSnAKo6WxhA/X0mZdEFo613iVz8ROxOBILjTZtpbvKdA9tcKc9vWDoD/8Dwxc=";
const BAD_INSTANT: &str = "ZY1BCsJADAC/suQBVjyGbqHgpaAXBe+hBizsJnWThfb3Ll57nYGZ3iinFcfqH3nwt7J52HISw7+IUIugki2GQpkNfcbneL/h5XTGtajrrAnCdI2wQXhxsUUlQrMNmlWexJzEI+wtzeVNOwx9d7wOPw==";
const BAD_BOOLEAN: &str = "ZY7BCsIwEAV/Jey9mkqhsjSFQhEKelHx4C2WBQvNpmYTqH9v6FV4p5nDvEasmxfsUnzzlT6JJKrVzSy4CQMpMHorkyBbR4JxxFt3OeNhp3EJPvrRz6CG3sAK6kFBJs8Gss1QJNHAEi3HjHRZFbouyvquS8yrjk9QJx9G2uoGnP2+CNpm//+p/QE=";
const MISSING_ID: &str = "ZY2xCsIwEEB/JWSvJlKoHG2hY0EXFQe3UA4sJHdt7gJ+vsFVeNN7w+slpLjBVPRNN9wLippPiiTwC4MtmYCDrAIUEgroAvfpeoHTwcGWWXnhaM0Ts6xMg63amlmk4EyigbQq59vGdY3vHs5DpT2/7Ngf/8/jFw==";

fn params(key: &str, value: &str) -> Vec<(String, String)> {
    vec![(key.to_string(), value.to_string())]
}

fn is_decoding_error<T>(r: &Result<T, SAMLError>) -> bool {
    matches!(r, Err(SAMLError::MessageDecodingError(_)))
}

fn is_unmarshalling_error<T>(r: &Result<T, SAMLError>) -> bool {
    matches!(r, Err(SAMLError::UnmarshallingError(_)))
}

#[test]
fn we_can_decode_base64_encode_inflate_saml_message() {
    let messages = "fVNLj5swEL6vtP8BcQ8YNo9iJanSpI9IaYIC7aGXyrWHxhK2qW1203/fgc1uUqnlhGx/j/lmhrljqm7oqvUnfYRfLTgfnFWtHe0fFmFrNTXMSUc1U+Co57RYfd7RNCK0scYbburw/u7KGaYw58B6aTRytptFeNi/3x0+bvff35BsRmYVIQ+ETQQh05TwTGSiymbVNJ2xCjLBeTpG3lewDhUWIQriMbfmUQqwezRbhEUeeAzRyTvXwlY7z7RHLEnGIzIbJdMyfaCTlI4n3xC0QazUzPd6J+8bGsdSNBGcmWpqiLhRcVEcCrCPkkPUnJpnxz73O6mF1D+HE/94Bjn6qSzzUX4oSlRYvbRhbbRrFdiLwZfj7rUM93cVApRJYhSDc1fGW8ZduLy/m3c9p31WuxxiKvBMMM868jy+ZV1EGtp1cLvJTS357+CDsYr5/2dLoqS/kWJU9VAKisl6JYQF57qMdW2e1haYx7F420IYxFevy7KB6FcP2+Dh7IO1UQ2z0nXTwAjcXyPe4tY17tERquXgqnHKOxxe5/h5MlZ0gwOOpqVl2jXG+ksn/imOzvFAsTfvt7/P8g8=";
    let mut params: Vec<(String, String)> = Vec::new();
    params.push(("SAMLRequest".to_string(), messages.to_string()));
    let result = decode_request(&params);
    assert!(result.is_ok());
}

#[test]
fn we_can_decode_base64_encode_inflate_saml_resposne() {
    // An empty payload inflates to no document at all, which is not well-formed XML.
    let message = "";
    let mut params: Vec<(String, String)> = Vec::new();
    params.push(("SAMLResponse".to_string(), message.to_string()));
    let result = decode_response(&params);
    assert!(is_decoding_error(&result));
}

#[test]
fn decoded_request_carries_its_fields() {
    let messages = "fVNLj5swEL6vtP8BcQ8YNo9iJanSpI9IaYIC7aGXyrWHxhK2qW1203/fgc1uUqnlhGx/j/lmhrljqm7oqvUnfYRfLTgfnFWtHe0fFmFrNTXMSUc1U+Co57RYfd7RNCK0scYbburw/u7KGaYw58B6aTRytptFeNi/3x0+bvff35BsRmYVIQ+ETQQh05TwTGSiymbVNJ2xCjLBeTpG3lewDhUWIQriMbfmUQqwezRbhEUeeAzRyTvXwlY7z7RHLEnGIzIbJdMyfaCTlI4n3xC0QazUzPd6J+8bGsdSNBGcmWpqiLhRcVEcCrCPkkPUnJpnxz73O6mF1D+HE/94Bjn6qSzzUX4oSlRYvbRhbbRrFdiLwZfj7rUM93cVApRJYhSDc1fGW8ZduLy/m3c9p31WuxxiKvBMMM868jy+ZV1EGtp1cLvJTS357+CDsYr5/2dLoqS/kWJU9VAKisl6JYQF57qMdW2e1haYx7F420IYxFevy7KB6FcP2+Dh7IO1UQ2z0nXTwAjcXyPe4tY17tERquXgqnHKOxxe5/h5MlZ0gwOOpqVl2jXG+ksn/imOzvFAsTfvt7/P8g8=";
    let request = decode_request(&params("SAMLRequest", messages)).unwrap();
    assert_eq!(request.id, "ONELOGIN_809707f0030a5d00620c9d9df97f627afe9dcc24");
    assert_eq!(request.provider_name.as_deref(), Some("SP test"));
    assert_eq!(request.destination.as_deref(), Some("http://idp.example.com/SSOService.php"));
    assert_eq!(request.issuer.as_ref().unwrap().value.as_deref(), Some("http://sp.example.com/demo1/metadata.php"));
    let policy = request.name_id_policy.as_ref().unwrap();
    assert_eq!(policy.format.as_deref(), Some("urn:oasis:names:tc:SAML:1.1:nameid-format:emailAddress"));
    assert_eq!(policy.allows_create.as_deref(), Some("true"));
    let context = request.requested_authn_context.as_ref().unwrap();
    assert_eq!(context.comparison.as_ref().unwrap().to_string(), "exact");
    assert_eq!(context.authn_context_class_refs.len(), 1);
    assert_eq!(
        context.authn_context_class_refs[0].value.as_deref(),
        Some("urn:oasis:names:tc:SAML:2.0:ac:classes:PasswordProtectedTransport")
    );
    assert_eq!(request.issue_instant.seconds, 1405554765);
}

#[test]
fn minimal_request_decodes_with_exact_values() {
    let request = decode_request(&params("SAMLRequest", MINIMAL_REQUEST)).unwrap();
    assert_eq!(request.id, "id-4711");
    assert_eq!(request.version.get_major_version(), 2);
    assert_eq!(request.version.get_minor_version(), 0);
    assert_eq!(request.version.to_string(), "2.0");
    assert_eq!(request.issue_instant.seconds, 1405558908);
    assert_eq!(request.issue_instant.nanos, 0);
    assert_eq!(request.issue_instant.to_rfc3339(), "2014-07-17T01:01:48+00:00");
    assert!(request.issuer.is_none());
    assert!(request.force_authn.is_none());
}

#[test]
fn request_without_message_parameter_fails() {
    let result = decode_request(&params("RelayState", "abc"));
    assert!(is_decoding_error(&result));
    let result = decode_request(&Vec::new());
    assert!(is_decoding_error(&result));
}

#[test]
fn request_decoder_ignores_response_parameter() {
    let result = decode_request(&params("SAMLResponse", MINIMAL_REQUEST));
    assert!(is_decoding_error(&result));
}

#[test]
fn request_with_invalid_base64_fails() {
    let result = decode_request(&params("SAMLRequest", "not-valid-base64!!"));
    assert!(is_decoding_error(&result));
}

#[test]
fn request_with_corrupt_deflate_stream_fails() {
    let result = decode_request(&params("SAMLRequest", "/////w=="));
    assert!(is_decoding_error(&result));
}

#[test]
fn request_with_unclosed_tag_fails_as_invalid_xml() {
    let result = decode_request(&params("SAMLRequest", UNCLOSED_REQUEST));
    match result {
        Err(SAMLError::MessageDecodingError(m)) => assert!(m.contains("invalid xml format")),
        _ => panic!("expected a decoding error"),
    }
}

#[test]
fn request_with_unknown_version_fails_to_unmarshal() {
    let result = decode_request(&params("SAMLRequest", UNKNOWN_VERSION));
    assert!(is_unmarshalling_error(&result));
}

#[test]
fn request_with_bad_instant_fails_to_unmarshal() {
    let result = decode_request(&params("SAMLRequest", BAD_INSTANT));
    assert!(is_unmarshalling_error(&result));
}

#[test]
fn request_with_bad_boolean_fails_to_unmarshal() {
    let result = decode_request(&params("SAMLRequest", BAD_BOOLEAN));
    assert!(is_unmarshalling_error(&result));
}

#[test]
fn request_without_id_fails_to_unmarshal() {
    let result = decode_request(&params("SAMLRequest", MISSING_ID));
    assert!(is_unmarshalling_error(&result));
}

#[test]
fn later_parameter_overrides_earlier_one() {
    let mut p = params("SAMLRequest", "not-valid-base64!!");
    p.push(("SAMLRequest".to_string(), MINIMAL_REQUEST.to_string()));
    assert!(decode_request(&p).is_ok());
}

#[test]
fn minimal_response_decodes() {
    let response = decode_response(&params("SAMLResponse", MINIMAL_RESPONSE)).unwrap();
    assert_eq!(response.id, "r1");
    assert_eq!(response.in_response_to.as_deref(), Some("id-4711"));
    assert_eq!(response.issuer.as_ref().unwrap().value.as_deref(), Some("https://idp.example.com"));
    assert_eq!(response.status.status_code.value, "urn:oasis:names:tc:SAML:2.0:status:Success");
    assert!(response.status.status_code.status_code.is_none());
    assert!(response.assertions.is_empty());
}

#[test]
fn response_decoder_rejects_request_document() {
    let result = decode_response(&params("SAMLResponse", MINIMAL_REQUEST));
    assert!(is_unmarshalling_error(&result));
}

#[test]
fn request_with_empty_id_fails_to_unmarshal() {
    let empty_id = "ZY2xCsIwEEB/JdzemkihcjSFgktBFxUHt1ACFpJLzV2gn29wFd703vAGdjFsOBV5081/imdRewzE+AsWSiZMjldGctEzyoL36XrBY6txy0nSkgKo+WwB1NNnXhNZqLE65uJnYnEkVWnTNbpvTP/QBivd6QXjcPj/j18=";
    let result = decode_request(&params("SAMLRequest", empty_id));
    assert!(is_unmarshalling_error(&result));
}
