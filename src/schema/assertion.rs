use vstd::prelude::*;

use crate::error::SAMLError;
use crate::schema::fields::{attr_last, attrs_ok, group_binding, named, push_node};
use crate::schema::values::{SAMLVersion, Timestamp, timestamp_of, version_of, version_text};
use crate::schema::binding::{raw_child_vec, raw_opt_child, read_child_vec, read_opt_child, read_str_attr, read_timestamp_attr, read_version_attr, write_child_vec, write_opt_child, write_raw_opt, write_raw_vec, Element};
use crate::xml::q_name::QNameView;
use crate::xml::{nodes_of, Node, Pair, XmlObject};
use crate::schema::authn_statement::AuthnStatement;
use crate::schema::conditions::Conditions;
use crate::schema::issuer::Issuer;
use crate::schema::subject::Subject;

verus! {

broadcast use group_binding;

/// Statements that an issuer makes about a subject.
#[derive(Debug)]
pub struct Assertion {
    pub id: String,
    pub version: SAMLVersion,
    pub issue_instant: Timestamp,
    pub issuer: Issuer,
    pub signature: Option<XmlObject>,
    pub subject: Option<Subject>,
    pub conditions: Option<Conditions>,
    pub advice: Option<XmlObject>,
    pub statements: Vec<AuthnStatement>,
    pub attribute_statements: Vec<XmlObject>,
}

impl Assertion {
    pub const ELEMENT_NAME: &'static str = "Assertion";
    pub const NS_PREFIX: &'static str = "saml2";
    pub const NS_URI: &'static str = "urn:oasis:names:tc:SAML:2.0:assertion";

    /// The node can be read as this element: every typed value parses,
    /// required parts are present and every known child can be read.
    pub open spec fn valid_node(n: Node) -> bool
    {
        attr_last(n.attributes, "ID"@) is Some
        && attr_last(n.attributes, "ID"@)->0.len() > 0
        && attrs_ok(n.attributes, "Version"@, |t: Seq<char>| version_of(t) is Some)
        && attr_last(n.attributes, "Version"@) is Some
        && attrs_ok(n.attributes, "IssueInstant"@, |t: Seq<char>| timestamp_of(t) is Some)
        && attr_last(n.attributes, "IssueInstant"@) is Some
        && (forall|m: int| 0 <= m < named(n.children, "Issuer"@).len() ==> Issuer::valid_node(#[trigger] named(n.children, "Issuer"@)[m]))
        && named(n.children, "Issuer"@).len() > 0
        && (forall|m: int| 0 <= m < named(n.children, "Subject"@).len() ==> Subject::valid_node(#[trigger] named(n.children, "Subject"@)[m]))
        && (forall|m: int| 0 <= m < named(n.children, "Conditions"@).len() ==> Conditions::valid_node(#[trigger] named(n.children, "Conditions"@)[m]))
        && (forall|m: int| 0 <= m < named(n.children, "AuthnStatement"@).len() ==> AuthnStatement::valid_node(#[trigger] named(n.children, "AuthnStatement"@)[m]))
    }

    /// The element holds what the node says.
    pub open spec fn matches(self, n: Node) -> bool
    {
        attr_last(n.attributes, "ID"@) == Some(self.id@)
        && attr_last(n.attributes, "Version"@) is Some && (self.version.major, self.version.minor) == version_of(attr_last(n.attributes, "Version"@)->0)->0
        && attr_last(n.attributes, "IssueInstant"@) is Some && self.issue_instant@ == timestamp_of(attr_last(n.attributes, "IssueInstant"@)->0)->0
        && named(n.children, "Issuer"@).len() > 0 && self.issuer.matches(named(n.children, "Issuer"@).last())
        && (if named(n.children, "Signature"@).len() > 0 { self.signature is Some && self.signature->0@ == named(n.children, "Signature"@).last() } else { self.signature is None })
        && (if named(n.children, "Subject"@).len() > 0 { self.subject is Some && self.subject->0.matches(named(n.children, "Subject"@).last()) } else { self.subject is None })
        && (if named(n.children, "Conditions"@).len() > 0 { self.conditions is Some && self.conditions->0.matches(named(n.children, "Conditions"@).last()) } else { self.conditions is None })
        && (if named(n.children, "Advice"@).len() > 0 { self.advice is Some && self.advice->0@ == named(n.children, "Advice"@).last() } else { self.advice is None })
        && self.statements@.len() == named(n.children, "AuthnStatement"@).len()
        && (forall|m: int| 0 <= m < self.statements@.len() ==> #[trigger] self.statements@[m].matches(named(n.children, "AuthnStatement"@)[m]))
        && nodes_of(self.attribute_statements@) == named(n.children, "AttributeStatement"@)
    }

    /// The node that the element is written as.
    pub open spec fn spec_node(self) -> Node
    {
        Node {
            name: QNameView { namespace_uri: Some("urn:oasis:names:tc:SAML:2.0:assertion"@), local_name: "Assertion"@, prefix: Some("saml2"@) },
            attributes: Seq::<Pair>::empty().push(("ID"@, self.id@)).push(("Version"@, version_text(self.version.major, self.version.minor))).push(("IssueInstant"@, self.issue_instant.text@)),
            namespaces: seq![("saml2"@, "urn:oasis:names:tc:SAML:2.0:assertion"@)],
            text: None,
            children: push_node(push_node(push_node(push_node(Seq::<Node>::empty().push(self.issuer.spec_node()), match self.signature { Some(c) => Some(c@), None => None }), match self.subject { Some(c) => Some(c.spec_node()), None => None }), match self.conditions { Some(c) => Some(c.spec_node()), None => None }), match self.advice { Some(c) => Some(c@), None => None }) + self.statements@.map_values(|c: AuthnStatement| c.node_spec()) + nodes_of(self.attribute_statements@),
        }
    }

    /// Reads the element from a node: the last occurrence of an attribute
    /// or of a single-valued child wins, repeated children are kept in
    /// order, and the first part that cannot be read fails the whole element.
    #[verifier::rlimit(100)]
    #[verifier::spinoff_prover]
    #[verifier::loop_isolation(false)]
    pub fn try_from_xml(obj: &XmlObject) -> (r: Result<Assertion, SAMLError>)
        ensures
            r is Ok <==> Self::valid_node(obj@),
            r is Ok ==> r->Ok_0.matches(obj@),
            r is Err ==> r->Err_0 is UnmarshallingError,
    {
        let attrs = obj.attributes();
        let v_id = read_str_attr(attrs, "ID");
        let v_version = match read_version_attr(attrs, "Version") {
            Ok(v) => v,
            Err(err) => {
                return Err(err);
            },
        };
        let v_issue_instant = match read_timestamp_attr(attrs, "IssueInstant") {
            Ok(v) => v,
            Err(err) => {
                return Err(err);
            },
        };
        let f_id = match v_id {
            Some(x) => x,
            None => {
                return Err(SAMLError::unmarshalling("missing attribute ID"));
            },
        };
        if f_id.as_str().is_empty() {
            return Err(SAMLError::unmarshalling("empty attribute ID"));
        }
        let f_version = match v_version {
            Some(x) => x,
            None => {
                return Err(SAMLError::unmarshalling("missing attribute Version"));
            },
        };
        let f_issue_instant = match v_issue_instant {
            Some(x) => x,
            None => {
                return Err(SAMLError::unmarshalling("missing attribute IssueInstant"));
            },
        };
        let children = obj.children();
        let v_issuer = match read_opt_child::<Issuer>(children, "Issuer") {
            Ok(v) => v,
            Err(err) => {
                return Err(err);
            },
        };
        let v_signature = raw_opt_child(children, "Signature");
        let v_subject = match read_opt_child::<Subject>(children, "Subject") {
            Ok(v) => v,
            Err(err) => {
                return Err(err);
            },
        };
        let v_conditions = match read_opt_child::<Conditions>(children, "Conditions") {
            Ok(v) => v,
            Err(err) => {
                return Err(err);
            },
        };
        let v_advice = raw_opt_child(children, "Advice");
        let v_statements = match read_child_vec::<AuthnStatement>(children, "AuthnStatement") {
            Ok(v) => v,
            Err(err) => {
                return Err(err);
            },
        };
        let v_attribute_statements = raw_child_vec(children, Some("AttributeStatement"));
        let f_issuer = match v_issuer {
            Some(x) => x,
            None => {
                return Err(SAMLError::unmarshalling("missing child Issuer"));
            },
        };
        Ok(Assertion {
            id: f_id,
            version: f_version,
            issue_instant: f_issue_instant,
            issuer: f_issuer,
            signature: v_signature,
            subject: v_subject,
            conditions: v_conditions,
            advice: v_advice,
            statements: v_statements,
            attribute_statements: v_attribute_statements,
        })
    }

    /// Writes the element as a node: its name in its namespace, the
    /// attributes that are set, its text and its children.
    #[verifier::rlimit(100)]
    #[verifier::spinoff_prover]
    pub fn to_xml(&self) -> (r: XmlObject)
        ensures
            r@ == self.spec_node(),
    {
        let mut x = XmlObject::new(Some("urn:oasis:names:tc:SAML:2.0:assertion".to_owned()), "Assertion".to_owned(), Some("saml2".to_owned()));
        x.add_namespace("saml2".to_owned(), "urn:oasis:names:tc:SAML:2.0:assertion".to_owned());
        x.add_attribute("ID".to_owned(), self.id.clone());
        x.add_attribute("Version".to_owned(), self.version.to_string());
        x.add_attribute("IssueInstant".to_owned(), self.issue_instant.to_rfc3339());
        x.add_child(self.issuer.to_xml());
        write_raw_opt(&mut x, &self.signature);
        write_opt_child(&mut x, &self.subject);
        write_opt_child(&mut x, &self.conditions);
        write_raw_opt(&mut x, &self.advice);
        write_child_vec(&mut x, &self.statements);
        write_raw_vec(&mut x, &self.attribute_statements);
        proof {
            assert(x@.attributes =~= self.spec_node().attributes);
            assert(x@.children =~= self.spec_node().children);
        }
        x
    }

    pub fn id(&self) -> (r: &String)
        ensures
            *r == self.id,
    {
        &self.id
    }

    pub fn set_id(&mut self, id: String)
        ensures
            *final(self) == (Assertion { id, ..*old(self) }),
    {
        self.id = id;
    }

    pub fn version(&self) -> (r: &SAMLVersion)
        ensures
            *r == self.version,
    {
        &self.version
    }

    pub fn set_version(&mut self, version: SAMLVersion)
        ensures
            *final(self) == (Assertion { version, ..*old(self) }),
    {
        self.version = version;
    }

    pub fn issue_instant(&self) -> (r: &Timestamp)
        ensures
            *r == self.issue_instant,
    {
        &self.issue_instant
    }

    pub fn set_issue_instant(&mut self, issue_instant: Timestamp)
        ensures
            *final(self) == (Assertion { issue_instant, ..*old(self) }),
    {
        self.issue_instant = issue_instant;
    }

    pub fn issuer(&self) -> (r: &Issuer)
        ensures
            *r == self.issuer,
    {
        &self.issuer
    }

    pub fn set_issuer(&mut self, issuer: Issuer)
        ensures
            *final(self) == (Assertion { issuer, ..*old(self) }),
    {
        self.issuer = issuer;
    }

    pub fn signature(&self) -> (r: Option<&XmlObject>)
        ensures
            r is Some <==> self.signature is Some,
            r is Some ==> *r->0 == self.signature->0,
    {
        self.signature.as_ref()
    }

    pub fn set_signature(&mut self, signature: Option<XmlObject>)
        ensures
            *final(self) == (Assertion { signature, ..*old(self) }),
    {
        self.signature = signature;
    }

    pub fn subject(&self) -> (r: Option<&Subject>)
        ensures
            r is Some <==> self.subject is Some,
            r is Some ==> *r->0 == self.subject->0,
    {
        self.subject.as_ref()
    }

    pub fn set_subject(&mut self, subject: Option<Subject>)
        ensures
            *final(self) == (Assertion { subject, ..*old(self) }),
    {
        self.subject = subject;
    }

    pub fn conditions(&self) -> (r: Option<&Conditions>)
        ensures
            r is Some <==> self.conditions is Some,
            r is Some ==> *r->0 == self.conditions->0,
    {
        self.conditions.as_ref()
    }

    pub fn set_conditions(&mut self, conditions: Option<Conditions>)
        ensures
            *final(self) == (Assertion { conditions, ..*old(self) }),
    {
        self.conditions = conditions;
    }

    pub fn advice(&self) -> (r: Option<&XmlObject>)
        ensures
            r is Some <==> self.advice is Some,
            r is Some ==> *r->0 == self.advice->0,
    {
        self.advice.as_ref()
    }

    pub fn set_advice(&mut self, advice: Option<XmlObject>)
        ensures
            *final(self) == (Assertion { advice, ..*old(self) }),
    {
        self.advice = advice;
    }

    pub fn statements(&self) -> (r: &Vec<AuthnStatement>)
        ensures
            *r == self.statements,
    {
        &self.statements
    }

    pub fn set_statements(&mut self, statements: Vec<AuthnStatement>)
        ensures
            *final(self) == (Assertion { statements, ..*old(self) }),
    {
        self.statements = statements;
    }

    pub fn add_statement(&mut self, item: AuthnStatement)
        ensures
            final(self).statements@ == old(self).statements@.push(item),
            final(self).id == old(self).id,
            final(self).version == old(self).version,
            final(self).issue_instant == old(self).issue_instant,
            final(self).issuer == old(self).issuer,
            final(self).signature == old(self).signature,
            final(self).subject == old(self).subject,
            final(self).conditions == old(self).conditions,
            final(self).advice == old(self).advice,
            final(self).attribute_statements == old(self).attribute_statements,
    {
        self.statements.push(item);
    }

    pub fn attribute_statements(&self) -> (r: &Vec<XmlObject>)
        ensures
            *r == self.attribute_statements,
    {
        &self.attribute_statements
    }

    pub fn add_attribute_statement(&mut self, item: XmlObject)
        ensures
            final(self).attribute_statements@ == old(self).attribute_statements@.push(item),
            final(self).id == old(self).id,
            final(self).version == old(self).version,
            final(self).issue_instant == old(self).issue_instant,
            final(self).issuer == old(self).issuer,
            final(self).signature == old(self).signature,
            final(self).subject == old(self).subject,
            final(self).conditions == old(self).conditions,
            final(self).advice == old(self).advice,
            final(self).statements == old(self).statements,
    {
        self.attribute_statements.push(item);
    }

}

impl Element for Assertion {
    open spec fn node_ok(n: Node) -> bool {
        Self::valid_node(n)
    }

    open spec fn node_matches(self, n: Node) -> bool {
        self.matches(n)
    }

    open spec fn node_spec(self) -> Node {
        self.spec_node()
    }

    fn read(obj: &XmlObject) -> (r: Result<Self, SAMLError>) {
        Self::try_from_xml(obj)
    }

    fn write(&self) -> (r: XmlObject) {
        self.to_xml()
    }
}

} // verus!
