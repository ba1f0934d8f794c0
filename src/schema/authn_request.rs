use vstd::prelude::*;

use crate::error::SAMLError;
use crate::schema::fields::{attr_last, attrs_ok, group_binding, named, push_attr, push_node};
use crate::schema::values::{SAMLVersion, Timestamp, bool_of, bool_text, decimal_text, timestamp_of, usize_of, version_of, version_text};
use crate::schema::binding::{format_opt_bool, format_opt_usize, raw_opt_child, read_bool_attr, read_opt_child, read_str_attr, read_timestamp_attr, read_usize_attr, read_version_attr, write_opt_attr, write_opt_child, write_raw_opt, Element};
use crate::xml::q_name::{clone_opt, opt_view, QNameView};
use crate::xml::{Node, Pair, XmlObject};
use crate::schema::conditions::Conditions;
use crate::schema::extensions::Extensions;
use crate::schema::issuer::Issuer;
use crate::schema::name_id_policy::NameIDPolicy;
use crate::schema::requested_authn_context::RequestedAuthnContext;
use crate::schema::scoping::Scoping;
use crate::schema::subject::Subject;

verus! {

broadcast use group_binding;

/// A request to authenticate a principal.
#[derive(Debug)]
pub struct AuthnRequest {
    pub id: String,
    pub version: SAMLVersion,
    pub issue_instant: Timestamp,
    pub destination: Option<String>,
    pub consent: Option<String>,
    pub force_authn: Option<bool>,
    pub is_passive: Option<bool>,
    pub protocol_binding: Option<String>,
    pub assertion_consumer_service_index: Option<usize>,
    pub assertion_consumer_service_url: Option<String>,
    pub attribute_consuming_service_index: Option<usize>,
    pub provider_name: Option<String>,
    pub issuer: Option<Issuer>,
    pub signature: Option<XmlObject>,
    pub extensions: Option<Extensions>,
    pub subject: Option<Subject>,
    pub name_id_policy: Option<NameIDPolicy>,
    pub conditions: Option<Conditions>,
    pub requested_authn_context: Option<RequestedAuthnContext>,
    pub scoping: Option<Scoping>,
}

impl AuthnRequest {
    pub const ELEMENT_NAME: &'static str = "AuthnRequest";
    pub const NS_PREFIX: &'static str = "saml2p";
    pub const NS_URI: &'static str = "urn:oasis:names:tc:SAML:2.0:protocol";

    /// The node can be read as this element: every typed value parses,
    /// required parts are present and every known child can be read.
    pub open spec fn valid_node(n: Node) -> bool
    {
        attr_last(n.attributes, "ID"@) is Some
        && attr_last(n.attributes, "ID"@)->0.len() > 0
        && attrs_ok(n.attributes, "Version"@, |t: Seq<char>| version_of(t) is Some)
        && attr_last(n.attributes, "Version"@) is Some
        && attrs_ok(n.attributes, "IssueInstant"@, |t: Seq<char>| timestamp_of(t) is Some)
        && attr_last(n.attributes, "IssueInstant"@) is Some
        && attrs_ok(n.attributes, "ForceAuthn"@, |t: Seq<char>| bool_of(t) is Some)
        && attrs_ok(n.attributes, "IsPassive"@, |t: Seq<char>| bool_of(t) is Some)
        && attrs_ok(n.attributes, "AssertionConsumerServiceIndex"@, |t: Seq<char>| usize_of(t) is Some)
        && attrs_ok(n.attributes, "AttributeConsumingServiceIndex"@, |t: Seq<char>| usize_of(t) is Some)
        && (forall|m: int| 0 <= m < named(n.children, "Issuer"@).len() ==> Issuer::valid_node(#[trigger] named(n.children, "Issuer"@)[m]))
        && (forall|m: int| 0 <= m < named(n.children, "Extensions"@).len() ==> Extensions::valid_node(#[trigger] named(n.children, "Extensions"@)[m]))
        && (forall|m: int| 0 <= m < named(n.children, "Subject"@).len() ==> Subject::valid_node(#[trigger] named(n.children, "Subject"@)[m]))
        && (forall|m: int| 0 <= m < named(n.children, "NameIDPolicy"@).len() ==> NameIDPolicy::valid_node(#[trigger] named(n.children, "NameIDPolicy"@)[m]))
        && (forall|m: int| 0 <= m < named(n.children, "Conditions"@).len() ==> Conditions::valid_node(#[trigger] named(n.children, "Conditions"@)[m]))
        && (forall|m: int| 0 <= m < named(n.children, "RequestedAuthnContext"@).len() ==> RequestedAuthnContext::valid_node(#[trigger] named(n.children, "RequestedAuthnContext"@)[m]))
        && (forall|m: int| 0 <= m < named(n.children, "Scoping"@).len() ==> Scoping::valid_node(#[trigger] named(n.children, "Scoping"@)[m]))
    }

    /// The element holds what the node says.
    pub open spec fn matches(self, n: Node) -> bool
    {
        attr_last(n.attributes, "ID"@) == Some(self.id@)
        && attr_last(n.attributes, "Version"@) is Some && (self.version.major, self.version.minor) == version_of(attr_last(n.attributes, "Version"@)->0)->0
        && attr_last(n.attributes, "IssueInstant"@) is Some && self.issue_instant@ == timestamp_of(attr_last(n.attributes, "IssueInstant"@)->0)->0
        && (match attr_last(n.attributes, "Destination"@) { Some(t) => self.destination is Some && self.destination->0@ == t, None => self.destination is None })
        && (match attr_last(n.attributes, "Consent"@) { Some(t) => self.consent is Some && self.consent->0@ == t, None => self.consent is None })
        && (match attr_last(n.attributes, "ForceAuthn"@) { Some(t) => self.force_authn is Some && self.force_authn->0 == bool_of(t)->0, None => self.force_authn is None })
        && (match attr_last(n.attributes, "IsPassive"@) { Some(t) => self.is_passive is Some && self.is_passive->0 == bool_of(t)->0, None => self.is_passive is None })
        && (match attr_last(n.attributes, "ProtocolBinding"@) { Some(t) => self.protocol_binding is Some && self.protocol_binding->0@ == t, None => self.protocol_binding is None })
        && (match attr_last(n.attributes, "AssertionConsumerServiceIndex"@) { Some(t) => self.assertion_consumer_service_index is Some && self.assertion_consumer_service_index->0 == usize_of(t)->0, None => self.assertion_consumer_service_index is None })
        && (match attr_last(n.attributes, "AssertionConsumerServiceURL"@) { Some(t) => self.assertion_consumer_service_url is Some && self.assertion_consumer_service_url->0@ == t, None => self.assertion_consumer_service_url is None })
        && (match attr_last(n.attributes, "AttributeConsumingServiceIndex"@) { Some(t) => self.attribute_consuming_service_index is Some && self.attribute_consuming_service_index->0 == usize_of(t)->0, None => self.attribute_consuming_service_index is None })
        && (match attr_last(n.attributes, "ProviderName"@) { Some(t) => self.provider_name is Some && self.provider_name->0@ == t, None => self.provider_name is None })
        && (if named(n.children, "Issuer"@).len() > 0 { self.issuer is Some && self.issuer->0.matches(named(n.children, "Issuer"@).last()) } else { self.issuer is None })
        && (if named(n.children, "Signature"@).len() > 0 { self.signature is Some && self.signature->0@ == named(n.children, "Signature"@).last() } else { self.signature is None })
        && (if named(n.children, "Extensions"@).len() > 0 { self.extensions is Some && self.extensions->0.matches(named(n.children, "Extensions"@).last()) } else { self.extensions is None })
        && (if named(n.children, "Subject"@).len() > 0 { self.subject is Some && self.subject->0.matches(named(n.children, "Subject"@).last()) } else { self.subject is None })
        && (if named(n.children, "NameIDPolicy"@).len() > 0 { self.name_id_policy is Some && self.name_id_policy->0.matches(named(n.children, "NameIDPolicy"@).last()) } else { self.name_id_policy is None })
        && (if named(n.children, "Conditions"@).len() > 0 { self.conditions is Some && self.conditions->0.matches(named(n.children, "Conditions"@).last()) } else { self.conditions is None })
        && (if named(n.children, "RequestedAuthnContext"@).len() > 0 { self.requested_authn_context is Some && self.requested_authn_context->0.matches(named(n.children, "RequestedAuthnContext"@).last()) } else { self.requested_authn_context is None })
        && (if named(n.children, "Scoping"@).len() > 0 { self.scoping is Some && self.scoping->0.matches(named(n.children, "Scoping"@).last()) } else { self.scoping is None })
    }

    /// The node that the element is written as.
    pub open spec fn spec_node(self) -> Node
    {
        Node {
            name: QNameView { namespace_uri: Some("urn:oasis:names:tc:SAML:2.0:protocol"@), local_name: "AuthnRequest"@, prefix: Some("saml2p"@) },
            attributes: push_attr(push_attr(push_attr(push_attr(push_attr(push_attr(push_attr(push_attr(push_attr(Seq::<Pair>::empty().push(("ID"@, self.id@)).push(("Version"@, version_text(self.version.major, self.version.minor))).push(("IssueInstant"@, self.issue_instant.text@)), "Destination"@, opt_view(self.destination)), "Consent"@, opt_view(self.consent)), "ForceAuthn"@, match self.force_authn { Some(v) => Some(bool_text(v)), None => None }), "IsPassive"@, match self.is_passive { Some(v) => Some(bool_text(v)), None => None }), "ProtocolBinding"@, opt_view(self.protocol_binding)), "AssertionConsumerServiceIndex"@, match self.assertion_consumer_service_index { Some(v) => Some(decimal_text(v as nat)), None => None }), "AssertionConsumerServiceURL"@, opt_view(self.assertion_consumer_service_url)), "AttributeConsumingServiceIndex"@, match self.attribute_consuming_service_index { Some(v) => Some(decimal_text(v as nat)), None => None }), "ProviderName"@, opt_view(self.provider_name)),
            namespaces: seq![("saml2p"@, "urn:oasis:names:tc:SAML:2.0:protocol"@)],
            text: None,
            children: push_node(push_node(push_node(push_node(push_node(push_node(push_node(push_node(Seq::<Node>::empty(), match self.issuer { Some(c) => Some(c.spec_node()), None => None }), match self.signature { Some(c) => Some(c@), None => None }), match self.extensions { Some(c) => Some(c.spec_node()), None => None }), match self.subject { Some(c) => Some(c.spec_node()), None => None }), match self.name_id_policy { Some(c) => Some(c.spec_node()), None => None }), match self.conditions { Some(c) => Some(c.spec_node()), None => None }), match self.requested_authn_context { Some(c) => Some(c.spec_node()), None => None }), match self.scoping { Some(c) => Some(c.spec_node()), None => None }),
        }
    }

    /// Reads the element from a node: the last occurrence of an attribute
    /// or of a single-valued child wins, repeated children are kept in
    /// order, and the first part that cannot be read fails the whole element.
    #[verifier::rlimit(100)]
    #[verifier::spinoff_prover]
    #[verifier::loop_isolation(false)]
    pub fn try_from_xml(obj: &XmlObject) -> (r: Result<AuthnRequest, SAMLError>)
        ensures
            r is Ok <==> Self::valid_node(obj@),
            r is Ok ==> r->Ok_0.matches(obj@),
            r is Err ==> r->Err_0 is UnmarshallingError,
    {
        let attrs = obj.attributes();
        let v_id = read_str_attr(attrs, "ID");
        let v_version = match read_version_attr(attrs, "Version") {
            Ok(v) => v,
            Err(err) => {
                return Err(err);
            },
        };
        let v_issue_instant = match read_timestamp_attr(attrs, "IssueInstant") {
            Ok(v) => v,
            Err(err) => {
                return Err(err);
            },
        };
        let v_destination = read_str_attr(attrs, "Destination");
        let v_consent = read_str_attr(attrs, "Consent");
        let v_force_authn = match read_bool_attr(attrs, "ForceAuthn") {
            Ok(v) => v,
            Err(err) => {
                return Err(err);
            },
        };
        let v_is_passive = match read_bool_attr(attrs, "IsPassive") {
            Ok(v) => v,
            Err(err) => {
                return Err(err);
            },
        };
        let v_protocol_binding = read_str_attr(attrs, "ProtocolBinding");
        let v_assertion_consumer_service_index = match read_usize_attr(attrs, "AssertionConsumerServiceIndex") {
            Ok(v) => v,
            Err(err) => {
                return Err(err);
            },
        };
        let v_assertion_consumer_service_url = read_str_attr(attrs, "AssertionConsumerServiceURL");
        let v_attribute_consuming_service_index = match read_usize_attr(attrs, "AttributeConsumingServiceIndex") {
            Ok(v) => v,
            Err(err) => {
                return Err(err);
            },
        };
        let v_provider_name = read_str_attr(attrs, "ProviderName");
        let f_id = match v_id {
            Some(x) => x,
            None => {
                return Err(SAMLError::unmarshalling("missing attribute ID"));
            },
        };
        if f_id.as_str().is_empty() {
            return Err(SAMLError::unmarshalling("empty attribute ID"));
        }
        let f_version = match v_version {
            Some(x) => x,
            None => {
                return Err(SAMLError::unmarshalling("missing attribute Version"));
            },
        };
        let f_issue_instant = match v_issue_instant {
            Some(x) => x,
            None => {
                return Err(SAMLError::unmarshalling("missing attribute IssueInstant"));
            },
        };
        let children = obj.children();
        let v_issuer = match read_opt_child::<Issuer>(children, "Issuer") {
            Ok(v) => v,
            Err(err) => {
                return Err(err);
            },
        };
        let v_signature = raw_opt_child(children, "Signature");
        let v_extensions = match read_opt_child::<Extensions>(children, "Extensions") {
            Ok(v) => v,
            Err(err) => {
                return Err(err);
            },
        };
        let v_subject = match read_opt_child::<Subject>(children, "Subject") {
            Ok(v) => v,
            Err(err) => {
                return Err(err);
            },
        };
        let v_name_id_policy = match read_opt_child::<NameIDPolicy>(children, "NameIDPolicy") {
            Ok(v) => v,
            Err(err) => {
                return Err(err);
            },
        };
        let v_conditions = match read_opt_child::<Conditions>(children, "Conditions") {
            Ok(v) => v,
            Err(err) => {
                return Err(err);
            },
        };
        let v_requested_authn_context = match read_opt_child::<RequestedAuthnContext>(children, "RequestedAuthnContext") {
            Ok(v) => v,
            Err(err) => {
                return Err(err);
            },
        };
        let v_scoping = match read_opt_child::<Scoping>(children, "Scoping") {
            Ok(v) => v,
            Err(err) => {
                return Err(err);
            },
        };
        Ok(AuthnRequest {
            id: f_id,
            version: f_version,
            issue_instant: f_issue_instant,
            destination: v_destination,
            consent: v_consent,
            force_authn: v_force_authn,
            is_passive: v_is_passive,
            protocol_binding: v_protocol_binding,
            assertion_consumer_service_index: v_assertion_consumer_service_index,
            assertion_consumer_service_url: v_assertion_consumer_service_url,
            attribute_consuming_service_index: v_attribute_consuming_service_index,
            provider_name: v_provider_name,
            issuer: v_issuer,
            signature: v_signature,
            extensions: v_extensions,
            subject: v_subject,
            name_id_policy: v_name_id_policy,
            conditions: v_conditions,
            requested_authn_context: v_requested_authn_context,
            scoping: v_scoping,
        })
    }

    /// Writes the element as a node: its name in its namespace, the
    /// attributes that are set, its text and its children.
    #[verifier::rlimit(100)]
    #[verifier::spinoff_prover]
    pub fn to_xml(&self) -> (r: XmlObject)
        ensures
            r@ == self.spec_node(),
    {
        let mut x = XmlObject::new(Some("urn:oasis:names:tc:SAML:2.0:protocol".to_owned()), "AuthnRequest".to_owned(), Some("saml2p".to_owned()));
        x.add_namespace("saml2p".to_owned(), "urn:oasis:names:tc:SAML:2.0:protocol".to_owned());
        x.add_attribute("ID".to_owned(), self.id.clone());
        x.add_attribute("Version".to_owned(), self.version.to_string());
        x.add_attribute("IssueInstant".to_owned(), self.issue_instant.to_rfc3339());
        write_opt_attr(&mut x, "Destination", clone_opt(&self.destination));
        write_opt_attr(&mut x, "Consent", clone_opt(&self.consent));
        write_opt_attr(&mut x, "ForceAuthn", format_opt_bool(&self.force_authn));
        write_opt_attr(&mut x, "IsPassive", format_opt_bool(&self.is_passive));
        write_opt_attr(&mut x, "ProtocolBinding", clone_opt(&self.protocol_binding));
        write_opt_attr(&mut x, "AssertionConsumerServiceIndex", format_opt_usize(&self.assertion_consumer_service_index));
        write_opt_attr(&mut x, "AssertionConsumerServiceURL", clone_opt(&self.assertion_consumer_service_url));
        write_opt_attr(&mut x, "AttributeConsumingServiceIndex", format_opt_usize(&self.attribute_consuming_service_index));
        write_opt_attr(&mut x, "ProviderName", clone_opt(&self.provider_name));
        write_opt_child(&mut x, &self.issuer);
        write_raw_opt(&mut x, &self.signature);
        write_opt_child(&mut x, &self.extensions);
        write_opt_child(&mut x, &self.subject);
        write_opt_child(&mut x, &self.name_id_policy);
        write_opt_child(&mut x, &self.conditions);
        write_opt_child(&mut x, &self.requested_authn_context);
        write_opt_child(&mut x, &self.scoping);
        proof {
            assert(x@.attributes =~= self.spec_node().attributes);
            assert(x@.children =~= self.spec_node().children);
        }
        x
    }

    pub fn id(&self) -> (r: &String)
        ensures
            *r == self.id,
    {
        &self.id
    }

    pub fn set_id(&mut self, id: String)
        ensures
            *final(self) == (AuthnRequest { id, ..*old(self) }),
    {
        self.id = id;
    }

    pub fn version(&self) -> (r: &SAMLVersion)
        ensures
            *r == self.version,
    {
        &self.version
    }

    pub fn set_version(&mut self, version: SAMLVersion)
        ensures
            *final(self) == (AuthnRequest { version, ..*old(self) }),
    {
        self.version = version;
    }

    pub fn issue_instant(&self) -> (r: &Timestamp)
        ensures
            *r == self.issue_instant,
    {
        &self.issue_instant
    }

    pub fn set_issue_instant(&mut self, issue_instant: Timestamp)
        ensures
            *final(self) == (AuthnRequest { issue_instant, ..*old(self) }),
    {
        self.issue_instant = issue_instant;
    }

    pub fn destination(&self) -> (r: Option<&String>)
        ensures
            r is Some <==> self.destination is Some,
            r is Some ==> *r->0 == self.destination->0,
    {
        self.destination.as_ref()
    }

    pub fn set_destination(&mut self, destination: Option<String>)
        ensures
            *final(self) == (AuthnRequest { destination, ..*old(self) }),
    {
        self.destination = destination;
    }

    pub fn consent(&self) -> (r: Option<&String>)
        ensures
            r is Some <==> self.consent is Some,
            r is Some ==> *r->0 == self.consent->0,
    {
        self.consent.as_ref()
    }

    pub fn set_consent(&mut self, consent: Option<String>)
        ensures
            *final(self) == (AuthnRequest { consent, ..*old(self) }),
    {
        self.consent = consent;
    }

    pub fn force_authn(&self) -> (r: Option<&bool>)
        ensures
            r is Some <==> self.force_authn is Some,
            r is Some ==> *r->0 == self.force_authn->0,
    {
        self.force_authn.as_ref()
    }

    pub fn set_force_authn(&mut self, force_authn: Option<bool>)
        ensures
            *final(self) == (AuthnRequest { force_authn, ..*old(self) }),
    {
        self.force_authn = force_authn;
    }

    pub fn is_passive(&self) -> (r: Option<&bool>)
        ensures
            r is Some <==> self.is_passive is Some,
            r is Some ==> *r->0 == self.is_passive->0,
    {
        self.is_passive.as_ref()
    }

    pub fn set_is_passive(&mut self, is_passive: Option<bool>)
        ensures
            *final(self) == (AuthnRequest { is_passive, ..*old(self) }),
    {
        self.is_passive = is_passive;
    }

    pub fn protocol_binding(&self) -> (r: Option<&String>)
        ensures
            r is Some <==> self.protocol_binding is Some,
            r is Some ==> *r->0 == self.protocol_binding->0,
    {
        self.protocol_binding.as_ref()
    }

    pub fn set_protocol_binding(&mut self, protocol_binding: Option<String>)
        ensures
            *final(self) == (AuthnRequest { protocol_binding, ..*old(self) }),
    {
        self.protocol_binding = protocol_binding;
    }

    pub fn assertion_consumer_service_index(&self) -> (r: Option<&usize>)
        ensures
            r is Some <==> self.assertion_consumer_service_index is Some,
            r is Some ==> *r->0 == self.assertion_consumer_service_index->0,
    {
        self.assertion_consumer_service_index.as_ref()
    }

    pub fn set_assertion_consumer_service_index(&mut self, assertion_consumer_service_index: Option<usize>)
        ensures
            *final(self) == (AuthnRequest { assertion_consumer_service_index, ..*old(self) }),
    {
        self.assertion_consumer_service_index = assertion_consumer_service_index;
    }

    pub fn assertion_consumer_service_url(&self) -> (r: Option<&String>)
        ensures
            r is Some <==> self.assertion_consumer_service_url is Some,
            r is Some ==> *r->0 == self.assertion_consumer_service_url->0,
    {
        self.assertion_consumer_service_url.as_ref()
    }

    pub fn set_assertion_consumer_service_url(&mut self, assertion_consumer_service_url: Option<String>)
        ensures
            *final(self) == (AuthnRequest { assertion_consumer_service_url, ..*old(self) }),
    {
        self.assertion_consumer_service_url = assertion_consumer_service_url;
    }

    pub fn attribute_consuming_service_index(&self) -> (r: Option<&usize>)
        ensures
            r is Some <==> self.attribute_consuming_service_index is Some,
            r is Some ==> *r->0 == self.attribute_consuming_service_index->0,
    {
        self.attribute_consuming_service_index.as_ref()
    }

    pub fn set_attribute_consuming_service_index(&mut self, attribute_consuming_service_index: Option<usize>)
        ensures
            *final(self) == (AuthnRequest { attribute_consuming_service_index, ..*old(self) }),
    {
        self.attribute_consuming_service_index = attribute_consuming_service_index;
    }

    pub fn provider_name(&self) -> (r: Option<&String>)
        ensures
            r is Some <==> self.provider_name is Some,
            r is Some ==> *r->0 == self.provider_name->0,
    {
        self.provider_name.as_ref()
    }

    pub fn set_provider_name(&mut self, provider_name: Option<String>)
        ensures
            *final(self) == (AuthnRequest { provider_name, ..*old(self) }),
    {
        self.provider_name = provider_name;
    }

    pub fn issuer(&self) -> (r: Option<&Issuer>)
        ensures
            r is Some <==> self.issuer is Some,
            r is Some ==> *r->0 == self.issuer->0,
    {
        self.issuer.as_ref()
    }

    pub fn set_issuer(&mut self, issuer: Option<Issuer>)
        ensures
            *final(self) == (AuthnRequest { issuer, ..*old(self) }),
    {
        self.issuer = issuer;
    }

    pub fn signature(&self) -> (r: Option<&XmlObject>)
        ensures
            r is Some <==> self.signature is Some,
            r is Some ==> *r->0 == self.signature->0,
    {
        self.signature.as_ref()
    }

    pub fn set_signature(&mut self, signature: Option<XmlObject>)
        ensures
            *final(self) == (AuthnRequest { signature, ..*old(self) }),
    {
        self.signature = signature;
    }

    pub fn extensions(&self) -> (r: Option<&Extensions>)
        ensures
            r is Some <==> self.extensions is Some,
            r is Some ==> *r->0 == self.extensions->0,
    {
        self.extensions.as_ref()
    }

    pub fn set_extensions(&mut self, extensions: Option<Extensions>)
        ensures
            *final(self) == (AuthnRequest { extensions, ..*old(self) }),
    {
        self.extensions = extensions;
    }

    pub fn subject(&self) -> (r: Option<&Subject>)
        ensures
            r is Some <==> self.subject is Some,
            r is Some ==> *r->0 == self.subject->0,
    {
        self.subject.as_ref()
    }

    pub fn set_subject(&mut self, subject: Option<Subject>)
        ensures
            *final(self) == (AuthnRequest { subject, ..*old(self) }),
    {
        self.subject = subject;
    }

    pub fn name_id_policy(&self) -> (r: Option<&NameIDPolicy>)
        ensures
            r is Some <==> self.name_id_policy is Some,
            r is Some ==> *r->0 == self.name_id_policy->0,
    {
        self.name_id_policy.as_ref()
    }

    pub fn set_name_id_policy(&mut self, name_id_policy: Option<NameIDPolicy>)
        ensures
            *final(self) == (AuthnRequest { name_id_policy, ..*old(self) }),
    {
        self.name_id_policy = name_id_policy;
    }

    pub fn conditions(&self) -> (r: Option<&Conditions>)
        ensures
            r is Some <==> self.conditions is Some,
            r is Some ==> *r->0 == self.conditions->0,
    {
        self.conditions.as_ref()
    }

    pub fn set_conditions(&mut self, conditions: Option<Conditions>)
        ensures
            *final(self) == (AuthnRequest { conditions, ..*old(self) }),
    {
        self.conditions = conditions;
    }

    pub fn requested_authn_context(&self) -> (r: Option<&RequestedAuthnContext>)
        ensures
            r is Some <==> self.requested_authn_context is Some,
            r is Some ==> *r->0 == self.requested_authn_context->0,
    {
        self.requested_authn_context.as_ref()
    }

    pub fn set_requested_authn_context(&mut self, requested_authn_context: Option<RequestedAuthnContext>)
        ensures
            *final(self) == (AuthnRequest { requested_authn_context, ..*old(self) }),
    {
        self.requested_authn_context = requested_authn_context;
    }

    pub fn scoping(&self) -> (r: Option<&Scoping>)
        ensures
            r is Some <==> self.scoping is Some,
            r is Some ==> *r->0 == self.scoping->0,
    {
        self.scoping.as_ref()
    }

    pub fn set_scoping(&mut self, scoping: Option<Scoping>)
        ensures
            *final(self) == (AuthnRequest { scoping, ..*old(self) }),
    {
        self.scoping = scoping;
    }

}

impl Element for AuthnRequest {
    open spec fn node_ok(n: Node) -> bool {
        Self::valid_node(n)
    }

    open spec fn node_matches(self, n: Node) -> bool {
        self.matches(n)
    }

    open spec fn node_spec(self) -> Node {
        self.spec_node()
    }

    fn read(obj: &XmlObject) -> (r: Result<Self, SAMLError>) {
        Self::try_from_xml(obj)
    }

    fn write(&self) -> (r: XmlObject) {
        self.to_xml()
    }
}

} // verus!
