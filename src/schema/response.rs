use vstd::prelude::*;

use crate::error::SAMLError;
use crate::schema::fields::{attr_last, attrs_ok, group_binding, named, push_attr, push_node};
use crate::schema::values::{SAMLVersion, Timestamp, timestamp_of, version_of, version_text};
use crate::schema::binding::{raw_opt_child, read_child_vec, read_opt_child, read_str_attr, read_timestamp_attr, read_version_attr, write_child_vec, write_opt_attr, write_opt_child, write_raw_opt, Element};
use crate::xml::q_name::{clone_opt, opt_view, QNameView};
use crate::xml::{Node, Pair, XmlObject};
use crate::schema::assertion::Assertion;
use crate::schema::encrypted_assertion::EncryptedAssertion;
use crate::schema::extensions::Extensions;
use crate::schema::issuer::Issuer;
use crate::schema::status::Status;

verus! {

broadcast use group_binding;

/// The answer to a request.
#[derive(Debug)]
pub struct Response {
    pub id: String,
    pub in_response_to: Option<String>,
    pub version: SAMLVersion,
    pub issue_instant: Timestamp,
    pub destination: Option<String>,
    pub consent: Option<String>,
    pub issuer: Option<Issuer>,
    pub signature: Option<XmlObject>,
    pub extensions: Option<Extensions>,
    pub status: Status,
    pub assertions: Vec<Assertion>,
    pub encrypted_assertions: Vec<EncryptedAssertion>,
}

impl Response {
    pub const ELEMENT_NAME: &'static str = "Response";
    pub const NS_PREFIX: &'static str = "saml2p";
    pub const NS_URI: &'static str = "urn:oasis:names:tc:SAML:2.0:protocol";

    /// The node can be read as this element: every typed value parses,
    /// required parts are present and every known child can be read.
    pub open spec fn valid_node(n: Node) -> bool
    {
        attr_last(n.attributes, "ID"@) is Some
        && attr_last(n.attributes, "ID"@)->0.len() > 0
        && attrs_ok(n.attributes, "Version"@, |t: Seq<char>| version_of(t) is Some)
        && attr_last(n.attributes, "Version"@) is Some
        && attrs_ok(n.attributes, "IssueInstant"@, |t: Seq<char>| timestamp_of(t) is Some)
        && attr_last(n.attributes, "IssueInstant"@) is Some
        && (forall|m: int| 0 <= m < named(n.children, "Issuer"@).len() ==> Issuer::valid_node(#[trigger] named(n.children, "Issuer"@)[m]))
        && (forall|m: int| 0 <= m < named(n.children, "Extensions"@).len() ==> Extensions::valid_node(#[trigger] named(n.children, "Extensions"@)[m]))
        && (forall|m: int| 0 <= m < named(n.children, "Status"@).len() ==> Status::valid_node(#[trigger] named(n.children, "Status"@)[m]))
        && named(n.children, "Status"@).len() > 0
        && (forall|m: int| 0 <= m < named(n.children, "Assertion"@).len() ==> Assertion::valid_node(#[trigger] named(n.children, "Assertion"@)[m]))
        && (forall|m: int| 0 <= m < named(n.children, "EncryptedAssertion"@).len() ==> EncryptedAssertion::valid_node(#[trigger] named(n.children, "EncryptedAssertion"@)[m]))
    }

    /// The element holds what the node says.
    pub open spec fn matches(self, n: Node) -> bool
    {
        attr_last(n.attributes, "ID"@) == Some(self.id@)
        && (match attr_last(n.attributes, "InResponseTo"@) { Some(t) => self.in_response_to is Some && self.in_response_to->0@ == t, None => self.in_response_to is None })
        && attr_last(n.attributes, "Version"@) is Some && (self.version.major, self.version.minor) == version_of(attr_last(n.attributes, "Version"@)->0)->0
        && attr_last(n.attributes, "IssueInstant"@) is Some && self.issue_instant@ == timestamp_of(attr_last(n.attributes, "IssueInstant"@)->0)->0
        && (match attr_last(n.attributes, "Destination"@) { Some(t) => self.destination is Some && self.destination->0@ == t, None => self.destination is None })
        && (match attr_last(n.attributes, "Consent"@) { Some(t) => self.consent is Some && self.consent->0@ == t, None => self.consent is None })
        && (if named(n.children, "Issuer"@).len() > 0 { self.issuer is Some && self.issuer->0.matches(named(n.children, "Issuer"@).last()) } else { self.issuer is None })
        && (if named(n.children, "Signature"@).len() > 0 { self.signature is Some && self.signature->0@ == named(n.children, "Signature"@).last() } else { self.signature is None })
        && (if named(n.children, "Extensions"@).len() > 0 { self.extensions is Some && self.extensions->0.matches(named(n.children, "Extensions"@).last()) } else { self.extensions is None })
        && named(n.children, "Status"@).len() > 0 && self.status.matches(named(n.children, "Status"@).last())
        && self.assertions@.len() == named(n.children, "Assertion"@).len()
        && (forall|m: int| 0 <= m < self.assertions@.len() ==> #[trigger] self.assertions@[m].matches(named(n.children, "Assertion"@)[m]))
        && self.encrypted_assertions@.len() == named(n.children, "EncryptedAssertion"@).len()
        && (forall|m: int| 0 <= m < self.encrypted_assertions@.len() ==> #[trigger] self.encrypted_assertions@[m].matches(named(n.children, "EncryptedAssertion"@)[m]))
    }

    /// The node that the element is written as.
    pub open spec fn spec_node(self) -> Node
    {
        Node {
            name: QNameView { namespace_uri: Some("urn:oasis:names:tc:SAML:2.0:protocol"@), local_name: "Response"@, prefix: Some("saml2p"@) },
            attributes: push_attr(push_attr(push_attr(Seq::<Pair>::empty().push(("ID"@, self.id@)), "InResponseTo"@, opt_view(self.in_response_to)).push(("Version"@, version_text(self.version.major, self.version.minor))).push(("IssueInstant"@, self.issue_instant.text@)), "Destination"@, opt_view(self.destination)), "Consent"@, opt_view(self.consent)),
            namespaces: seq![("saml2p"@, "urn:oasis:names:tc:SAML:2.0:protocol"@)],
            text: None,
            children: push_node(push_node(push_node(Seq::<Node>::empty(), match self.issuer { Some(c) => Some(c.spec_node()), None => None }), match self.signature { Some(c) => Some(c@), None => None }), match self.extensions { Some(c) => Some(c.spec_node()), None => None }).push(self.status.spec_node()) + self.assertions@.map_values(|c: Assertion| c.node_spec()) + self.encrypted_assertions@.map_values(|c: EncryptedAssertion| c.node_spec()),
        }
    }

    /// Reads the element from a node: the last occurrence of an attribute
    /// or of a single-valued child wins, repeated children are kept in
    /// order, and the first part that cannot be read fails the whole element.
    #[verifier::rlimit(100)]
    #[verifier::spinoff_prover]
    #[verifier::loop_isolation(false)]
    pub fn try_from_xml(obj: &XmlObject) -> (r: Result<Response, SAMLError>)
        ensures
            r is Ok <==> Self::valid_node(obj@),
            r is Ok ==> r->Ok_0.matches(obj@),
            r is Err ==> r->Err_0 is UnmarshallingError,
    {
        let attrs = obj.attributes();
        let v_id = read_str_attr(attrs, "ID");
        let v_in_response_to = read_str_attr(attrs, "InResponseTo");
        let v_version = match read_version_attr(attrs, "Version") {
            Ok(v) => v,
            Err(err) => {
                return Err(err);
            },
        };
        let v_issue_instant = match read_timestamp_attr(attrs, "IssueInstant") {
            Ok(v) => v,
            Err(err) => {
                return Err(err);
            },
        };
        let v_destination = read_str_attr(attrs, "Destination");
        let v_consent = read_str_attr(attrs, "Consent");
        let f_id = match v_id {
            Some(x) => x,
            None => {
                return Err(SAMLError::unmarshalling("missing attribute ID"));
            },
        };
        if f_id.as_str().is_empty() {
            return Err(SAMLError::unmarshalling("empty attribute ID"));
        }
        let f_version = match v_version {
            Some(x) => x,
            None => {
                return Err(SAMLError::unmarshalling("missing attribute Version"));
            },
        };
        let f_issue_instant = match v_issue_instant {
            Some(x) => x,
            None => {
                return Err(SAMLError::unmarshalling("missing attribute IssueInstant"));
            },
        };
        let children = obj.children();
        let v_issuer = match read_opt_child::<Issuer>(children, "Issuer") {
            Ok(v) => v,
            Err(err) => {
                return Err(err);
            },
        };
        let v_signature = raw_opt_child(children, "Signature");
        let v_extensions = match read_opt_child::<Extensions>(children, "Extensions") {
            Ok(v) => v,
            Err(err) => {
                return Err(err);
            },
        };
        let v_status = match read_opt_child::<Status>(children, "Status") {
            Ok(v) => v,
            Err(err) => {
                return Err(err);
            },
        };
        let v_assertions = match read_child_vec::<Assertion>(children, "Assertion") {
            Ok(v) => v,
            Err(err) => {
                return Err(err);
            },
        };
        let v_encrypted_assertions = match read_child_vec::<EncryptedAssertion>(children, "EncryptedAssertion") {
            Ok(v) => v,
            Err(err) => {
                return Err(err);
            },
        };
        let f_status = match v_status {
            Some(x) => x,
            None => {
                return Err(SAMLError::unmarshalling("missing child Status"));
            },
        };
        Ok(Response {
            id: f_id,
            in_response_to: v_in_response_to,
            version: f_version,
            issue_instant: f_issue_instant,
            destination: v_destination,
            consent: v_consent,
            issuer: v_issuer,
            signature: v_signature,
            extensions: v_extensions,
            status: f_status,
            assertions: v_assertions,
            encrypted_assertions: v_encrypted_assertions,
        })
    }

    /// Writes the element as a node: its name in its namespace, the
    /// attributes that are set, its text and its children.
    #[verifier::rlimit(100)]
    #[verifier::spinoff_prover]
    pub fn to_xml(&self) -> (r: XmlObject)
        ensures
            r@ == self.spec_node(),
    {
        let mut x = XmlObject::new(Some("urn:oasis:names:tc:SAML:2.0:protocol".to_owned()), "Response".to_owned(), Some("saml2p".to_owned()));
        x.add_namespace("saml2p".to_owned(), "urn:oasis:names:tc:SAML:2.0:protocol".to_owned());
        x.add_attribute("ID".to_owned(), self.id.clone());
        write_opt_attr(&mut x, "InResponseTo", clone_opt(&self.in_response_to));
        x.add_attribute("Version".to_owned(), self.version.to_string());
        x.add_attribute("IssueInstant".to_owned(), self.issue_instant.to_rfc3339());
        write_opt_attr(&mut x, "Destination", clone_opt(&self.destination));
        write_opt_attr(&mut x, "Consent", clone_opt(&self.consent));
        write_opt_child(&mut x, &self.issuer);
        write_raw_opt(&mut x, &self.signature);
        write_opt_child(&mut x, &self.extensions);
        x.add_child(self.status.to_xml());
        write_child_vec(&mut x, &self.assertions);
        write_child_vec(&mut x, &self.encrypted_assertions);
        proof {
            assert(x@.attributes =~= self.spec_node().attributes);
            assert(x@.children =~= self.spec_node().children);
        }
        x
    }

    pub fn id(&self) -> (r: &String)
        ensures
            *r == self.id,
    {
        &self.id
    }

    pub fn set_id(&mut self, id: String)
        ensures
            *final(self) == (Response { id, ..*old(self) }),
    {
        self.id = id;
    }

    pub fn in_response_to(&self) -> (r: Option<&String>)
        ensures
            r is Some <==> self.in_response_to is Some,
            r is Some ==> *r->0 == self.in_response_to->0,
    {
        self.in_response_to.as_ref()
    }

    pub fn set_in_response_to(&mut self, in_response_to: Option<String>)
        ensures
            *final(self) == (Response { in_response_to, ..*old(self) }),
    {
        self.in_response_to = in_response_to;
    }

    pub fn version(&self) -> (r: &SAMLVersion)
        ensures
            *r == self.version,
    {
        &self.version
    }

    pub fn set_version(&mut self, version: SAMLVersion)
        ensures
            *final(self) == (Response { version, ..*old(self) }),
    {
        self.version = version;
    }

    pub fn issue_instant(&self) -> (r: &Timestamp)
        ensures
            *r == self.issue_instant,
    {
        &self.issue_instant
    }

    pub fn set_issue_instant(&mut self, issue_instant: Timestamp)
        ensures
            *final(self) == (Response { issue_instant, ..*old(self) }),
    {
        self.issue_instant = issue_instant;
    }

    pub fn destination(&self) -> (r: Option<&String>)
        ensures
            r is Some <==> self.destination is Some,
            r is Some ==> *r->0 == self.destination->0,
    {
        self.destination.as_ref()
    }

    pub fn set_destination(&mut self, destination: Option<String>)
        ensures
            *final(self) == (Response { destination, ..*old(self) }),
    {
        self.destination = destination;
    }

    pub fn consent(&self) -> (r: Option<&String>)
        ensures
            r is Some <==> self.consent is Some,
            r is Some ==> *r->0 == self.consent->0,
    {
        self.consent.as_ref()
    }

    pub fn set_consent(&mut self, consent: Option<String>)
        ensures
            *final(self) == (Response { consent, ..*old(self) }),
    {
        self.consent = consent;
    }

    pub fn issuer(&self) -> (r: Option<&Issuer>)
        ensures
            r is Some <==> self.issuer is Some,
            r is Some ==> *r->0 == self.issuer->0,
    {
        self.issuer.as_ref()
    }

    pub fn set_issuer(&mut self, issuer: Option<Issuer>)
        ensures
            *final(self) == (Response { issuer, ..*old(self) }),
    {
        self.issuer = issuer;
    }

    pub fn signature(&self) -> (r: Option<&XmlObject>)
        ensures
            r is Some <==> self.signature is Some,
            r is Some ==> *r->0 == self.signature->0,
    {
        self.signature.as_ref()
    }

    pub fn set_signature(&mut self, signature: Option<XmlObject>)
        ensures
            *final(self) == (Response { signature, ..*old(self) }),
    {
        self.signature = signature;
    }

    pub fn extensions(&self) -> (r: Option<&Extensions>)
        ensures
            r is Some <==> self.extensions is Some,
            r is Some ==> *r->0 == self.extensions->0,
    {
        self.extensions.as_ref()
    }

    pub fn set_extensions(&mut self, extensions: Option<Extensions>)
        ensures
            *final(self) == (Response { extensions, ..*old(self) }),
    {
        self.extensions = extensions;
    }

    pub fn status(&self) -> (r: &Status)
        ensures
            *r == self.status,
    {
        &self.status
    }

    pub fn set_status(&mut self, status: Status)
        ensures
            *final(self) == (Response { status, ..*old(self) }),
    {
        self.status = status;
    }

    pub fn assertions(&self) -> (r: &Vec<Assertion>)
        ensures
            *r == self.assertions,
    {
        &self.assertions
    }

    pub fn add_assertion(&mut self, item: Assertion)
        ensures
            final(self).assertions@ == old(self).assertions@.push(item),
            final(self).id == old(self).id,
            final(self).in_response_to == old(self).in_response_to,
            final(self).version == old(self).version,
            final(self).issue_instant == old(self).issue_instant,
            final(self).destination == old(self).destination,
            final(self).consent == old(self).consent,
            final(self).issuer == old(self).issuer,
            final(self).signature == old(self).signature,
            final(self).extensions == old(self).extensions,
            final(self).status == old(self).status,
            final(self).encrypted_assertions == old(self).encrypted_assertions,
    {
        self.assertions.push(item);
    }

    pub fn encrypted_assertions(&self) -> (r: &Vec<EncryptedAssertion>)
        ensures
            *r == self.encrypted_assertions,
    {
        &self.encrypted_assertions
    }

    pub fn add_encrypted_assertion(&mut self, item: EncryptedAssertion)
        ensures
            final(self).encrypted_assertions@ == old(self).encrypted_assertions@.push(item),
            final(self).id == old(self).id,
            final(self).in_response_to == old(self).in_response_to,
            final(self).version == old(self).version,
            final(self).issue_instant == old(self).issue_instant,
            final(self).destination == old(self).destination,
            final(self).consent == old(self).consent,
            final(self).issuer == old(self).issuer,
            final(self).signature == old(self).signature,
            final(self).extensions == old(self).extensions,
            final(self).status == old(self).status,
            final(self).assertions == old(self).assertions,
    {
        self.encrypted_assertions.push(item);
    }

}

impl Element for Response {
    open spec fn node_ok(n: Node) -> bool {
        Self::valid_node(n)
    }

    open spec fn node_matches(self, n: Node) -> bool {
        self.matches(n)
    }

    open spec fn node_spec(self) -> Node {
        self.spec_node()
    }

    fn read(obj: &XmlObject) -> (r: Result<Self, SAMLError>) {
        Self::try_from_xml(obj)
    }

    fn write(&self) -> (r: XmlObject) {
        self.to_xml()
    }
}

} // verus!
