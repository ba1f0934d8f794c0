use saml2::encryption::encryption_property::EncryptionProperty;
use saml2::encryption::key_size::KeySize;
use saml2::schema::audience::Audience;
use saml2::schema::audience_restriction::AudienceRestriction;
use saml2::schema::base_id::BaseID;
use saml2::schema::extensions::Extensions;
use saml2::schema::issuer::Issuer;
use saml2::schema::name_id_policy::NameIDPolicy;
use saml2::schema::scoping::Scoping;
use saml2::schema::status::Status;
use saml2::schema::status_code::StatusCode;
use saml2::schema::values::{AuthnContextComparisonTypeEnumeration, SAMLVersion};
use saml2::xml::XmlObject;

fn reparse(x: &XmlObject) -> XmlObject {
    let text = XmlObject::write_xml(x).ok().unwrap();
    XmlObject::parse_xml(text.as_bytes()).ok().unwrap()
}

#[test]
fn issuer_round_trips() {
    let issuer = Issuer {
        name_qualifier: Some("nq".to_string()),
        sp_name_qualifier: None,
        format: Some("urn:format".to_string()),
        sp_provided_id: None,
        value: Some("https://idp.example.com".to_string()),
    };
    let node = issuer.to_xml();
    assert_eq!(node.q_name().local_name(), "Issuer");
    let back = Issuer::try_from_xml(&reparse(&node)).unwrap();
    assert_eq!(back.name_qualifier.as_deref(), Some("nq"));
    assert_eq!(back.sp_name_qualifier, None);
    assert_eq!(back.format.as_deref(), Some("urn:format"));
    assert_eq!(back.value.as_deref(), Some("https://idp.example.com"));
}

#[test]
fn nested_status_code_round_trips() {
    let status = Status {
        status_code: StatusCode {
            value: "urn:oasis:names:tc:SAML:2.0:status:Requester".to_string(),
            status_code: Some(Box::new(StatusCode {
                value: "urn:oasis:names:tc:SAML:2.0:status:RequestDenied".to_string(),
                status_code: None,
            })),
        },
        status_message: None,
        status_detail: None,
    };
    let back = Status::try_from_xml(&reparse(&status.to_xml())).unwrap();
    assert_eq!(back.status_code.value, "urn:oasis:names:tc:SAML:2.0:status:Requester");
    let inner = back.status_code.status_code().unwrap();
    assert_eq!(inner.value, "urn:oasis:names:tc:SAML:2.0:status:RequestDenied");
    assert!(inner.status_code.is_none());
}

#[test]
fn status_without_code_is_rejected() {
    let x = XmlObject::parse_xml("<Status><StatusMessage>hi</StatusMessage></Status>".as_bytes()).ok().unwrap();
    assert!(Status::try_from_xml(&x).is_err());
}

#[test]
fn audiences_keep_their_order() {
    let mut r = AudienceRestriction { audiences: Vec::new() };
    for v in ["a", "b", "c"] {
        r.add_audiences(Audience { value: v.to_string() });
    }
    let back = AudienceRestriction::try_from_xml(&reparse(&r.to_xml())).unwrap();
    let values: Vec<&str> = back.audiences().iter().map(|a| a.value().as_str()).collect();
    assert_eq!(values, vec!["a", "b", "c"]);
}

#[test]
fn audience_without_text_is_rejected() {
    let x = XmlObject::parse_xml("<Audience/>".as_bytes()).ok().unwrap();
    assert!(Audience::try_from_xml(&x).is_err());
}

#[test]
fn proxy_count_is_read_and_written_in_decimal() {
    let x = XmlObject::parse_xml("<Scoping ProxyCount=\"+12\"><RequesterID>r</RequesterID></Scoping>".as_bytes()).ok().unwrap();
    let s = Scoping::try_from_xml(&x).unwrap();
    assert_eq!(s.proxy_count, Some(12));
    assert_eq!(s.requester_ids.len(), 1);
    let out = s.to_xml();
    assert_eq!(out.attributes()[0], ("ProxyCount".to_string(), "12".to_string()));
    let bad = XmlObject::parse_xml("<Scoping ProxyCount=\"twelve\"/>".as_bytes()).ok().unwrap();
    assert!(Scoping::try_from_xml(&bad).is_err());
}

#[test]
fn negative_proxy_count_is_written_with_sign() {
    let s = Scoping { proxy_count: Some(-3), idp_list: None, requester_ids: Vec::new() };
    let out = s.to_xml();
    assert_eq!(out.attributes()[0].1, "-3");
    let back = Scoping::try_from_xml(&reparse(&out)).unwrap();
    assert_eq!(back.proxy_count, Some(-3));
}

#[test]
fn key_size_parses_its_text() {
    let x = XmlObject::parse_xml("<KeySize>256</KeySize>".as_bytes()).ok().unwrap();
    assert_eq!(KeySize::try_from_xml(&x).unwrap().value, 256);
    let big = XmlObject::parse_xml("<KeySize>99999999999</KeySize>".as_bytes()).ok().unwrap();
    assert!(KeySize::try_from_xml(&big).is_err());
}

#[test]
fn later_attribute_overrides_earlier_one() {
    let mut x = XmlObject::new(None, "Issuer".to_string(), None);
    x.add_attribute("Format".to_string(), "first".to_string());
    x.add_attribute("Format".to_string(), "second".to_string());
    let issuer = Issuer::try_from_xml(&x).unwrap();
    assert_eq!(issuer.format.as_deref(), Some("second"));
}

#[test]
fn vendor_content_of_encryption_property_is_preserved() {
    let doc = "<xenc:EncryptionProperty xmlns:xenc=\"http://www.w3.org/2001/04/xmlenc#\" xmlns:v=\"urn:vendor\" Target=\"#t\" ID=\"prop-1\" vendorFlag=\"on\"><v:Extra level=\"3\">payload &amp; more</v:Extra></xenc:EncryptionProperty>";
    let x = XmlObject::parse_xml(doc.as_bytes()).ok().unwrap();
    let p = EncryptionProperty::try_from_xml(&x).unwrap();
    assert_eq!(p.target.as_deref(), Some("#t"));
    assert_eq!(p.id.as_deref(), Some("prop-1"));
    assert_eq!(p.unknown_attributes, vec![("vendorFlag".to_string(), "on".to_string())]);
    assert_eq!(p.unknown_children.len(), 1);
    let back = EncryptionProperty::try_from_xml(&reparse(&p.to_xml())).unwrap();
    assert_eq!(back.unknown_attributes, p.unknown_attributes);
    let extra = &back.unknown_children[0];
    assert_eq!(extra.q_name().local_name(), "Extra");
    assert_eq!(extra.q_name().namespace_uri(), Some("urn:vendor"));
    assert_eq!(extra.attributes()[0], ("level".to_string(), "3".to_string()));
    assert_eq!(extra.text().map(|s| s.as_str()), Some("payload & more"));
}

#[test]
fn version_strings() {
    assert_eq!(SAMLVersion::from_string(&"1.1".to_string()).unwrap().get_minor_version(), 1);
    assert!(SAMLVersion::from_string(&"3.0".to_string()).is_err());
    assert_eq!(SAMLVersion::new(1, 0).to_string(), "1.0");
}

#[test]
fn comparison_words() {
    let c = AuthnContextComparisonTypeEnumeration::from_str(&"minimum".to_string()).unwrap();
    assert_eq!(c.to_string(), "minimum");
    assert!(AuthnContextComparisonTypeEnumeration::from_str(&"Minimum".to_string()).is_err());
}

#[test]
fn encryption_property_id_attribute_is_read() {
    let doc = "<xenc:EncryptionProperty xmlns:xenc=\"http://www.w3.org/2001/04/xmlenc#\" Target=\"#t\" ID=\"p-2\" vendor=\"v1\"/>";
    let x = XmlObject::parse_xml(doc.as_bytes()).ok().unwrap();
    let p = EncryptionProperty::try_from_xml(&x).unwrap();
    assert_eq!(p.id.as_deref(), Some("p-2"));
    assert_eq!(p.unknown_attributes, vec![("vendor".to_string(), "v1".to_string())]);
}

#[test]
fn extensions_keep_vendor_attributes_and_children() {
    let doc = "<samlp:Extensions xmlns:samlp=\"urn:oasis:names:tc:SAML:2.0:protocol\" xmlns:v=\"urn:vendor\" v:mode=\"fast\"><v:Hint>x</v:Hint></samlp:Extensions>";
    let x = XmlObject::parse_xml(doc.as_bytes()).ok().unwrap();
    let e = Extensions::try_from_xml(&x).unwrap();
    assert_eq!(e.unknown_attributes, vec![("mode".to_string(), "fast".to_string())]);
    assert_eq!(e.unknown_children.len(), 1);
    let back = Extensions::try_from_xml(&reparse(&e.to_xml())).unwrap();
    assert_eq!(back.unknown_attributes, e.unknown_attributes);
    assert_eq!(back.unknown_children[0].text().map(|s| s.as_str()), Some("x"));
}

#[test]
fn constructors_leave_every_part_unset() {
    let i = Issuer::new();
    assert!(i.value.is_none() && i.format.is_none());
    let b = BaseID::new();
    assert!(b.name_qualifier.is_none() && b.sp_name_qualifier.is_none());
    let p = NameIDPolicy::new();
    assert!(p.allows_create.is_none());
}
