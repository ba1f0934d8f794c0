use vstd::prelude::*;

use crate::error::SAMLError;
use crate::schema::fields::{attr_last, attrs_ok, group_binding, named, push_attr, push_node};
use crate::schema::values::{Timestamp, timestamp_of};
use crate::schema::binding::{format_opt_timestamp, read_opt_child, read_str_attr, read_timestamp_attr, write_opt_attr, write_opt_child, Element};
use crate::xml::q_name::{clone_opt, opt_view, QNameView};
use crate::xml::{Node, Pair, XmlObject};
use crate::schema::authn_context::AuthnContext;
use crate::schema::subject_locality::SubjectLocality;

verus! {

broadcast use group_binding;

/// States that the subject was authenticated at a given time.
#[derive(Debug)]
pub struct AuthnStatement {
    pub authn_instant: Timestamp,
    pub session_index: Option<String>,
    pub session_not_on_or_after: Option<Timestamp>,
    pub subject_locality: Option<SubjectLocality>,
    pub authn_context: AuthnContext,
}

impl AuthnStatement {
    pub const ELEMENT_NAME: &'static str = "AuthnStatement";
    pub const NS_PREFIX: &'static str = "saml2";
    pub const NS_URI: &'static str = "urn:oasis:names:tc:SAML:2.0:assertion";

    /// The node can be read as this element: every typed value parses,
    /// required parts are present and every known child can be read.
    pub open spec fn valid_node(n: Node) -> bool
    {
        attrs_ok(n.attributes, "AuthnInstant"@, |t: Seq<char>| timestamp_of(t) is Some)
        && attr_last(n.attributes, "AuthnInstant"@) is Some
        && attrs_ok(n.attributes, "SessionNotOnOrAfter"@, |t: Seq<char>| timestamp_of(t) is Some)
        && (forall|m: int| 0 <= m < named(n.children, "SubjectLocality"@).len() ==> SubjectLocality::valid_node(#[trigger] named(n.children, "SubjectLocality"@)[m]))
        && (forall|m: int| 0 <= m < named(n.children, "AuthnContext"@).len() ==> AuthnContext::valid_node(#[trigger] named(n.children, "AuthnContext"@)[m]))
        && named(n.children, "AuthnContext"@).len() > 0
    }

    /// The element holds what the node says.
    pub open spec fn matches(self, n: Node) -> bool
    {
        attr_last(n.attributes, "AuthnInstant"@) is Some && self.authn_instant@ == timestamp_of(attr_last(n.attributes, "AuthnInstant"@)->0)->0
        && (match attr_last(n.attributes, "SessionIndex"@) { Some(t) => self.session_index is Some && self.session_index->0@ == t, None => self.session_index is None })
        && (match attr_last(n.attributes, "SessionNotOnOrAfter"@) { Some(t) => self.session_not_on_or_after is Some && self.session_not_on_or_after->0@ == timestamp_of(t)->0, None => self.session_not_on_or_after is None })
        && (if named(n.children, "SubjectLocality"@).len() > 0 { self.subject_locality is Some && self.subject_locality->0.matches(named(n.children, "SubjectLocality"@).last()) } else { self.subject_locality is None })
        && named(n.children, "AuthnContext"@).len() > 0 && self.authn_context.matches(named(n.children, "AuthnContext"@).last())
    }

    /// The node that the element is written as.
    pub open spec fn spec_node(self) -> Node
    {
        Node {
            name: QNameView { namespace_uri: Some("urn:oasis:names:tc:SAML:2.0:assertion"@), local_name: "AuthnStatement"@, prefix: Some("saml2"@) },
            attributes: push_attr(push_attr(Seq::<Pair>::empty().push(("AuthnInstant"@, self.authn_instant.text@)), "SessionIndex"@, opt_view(self.session_index)), "SessionNotOnOrAfter"@, match self.session_not_on_or_after { Some(v) => Some(v.text@), None => None }),
            namespaces: seq![("saml2"@, "urn:oasis:names:tc:SAML:2.0:assertion"@)],
            text: None,
            children: push_node(Seq::<Node>::empty(), match self.subject_locality { Some(c) => Some(c.spec_node()), None => None }).push(self.authn_context.spec_node()),
        }
    }

    /// Reads the element from a node: the last occurrence of an attribute
    /// or of a single-valued child wins, repeated children are kept in
    /// order, and the first part that cannot be read fails the whole element.
    #[verifier::loop_isolation(false)]
    pub fn try_from_xml(obj: &XmlObject) -> (r: Result<AuthnStatement, SAMLError>)
        ensures
            r is Ok <==> Self::valid_node(obj@),
            r is Ok ==> r->Ok_0.matches(obj@),
            r is Err ==> r->Err_0 is UnmarshallingError,
    {
        let attrs = obj.attributes();
        let v_authn_instant = match read_timestamp_attr(attrs, "AuthnInstant") {
            Ok(v) => v,
            Err(err) => {
                return Err(err);
            },
        };
        let v_session_index = read_str_attr(attrs, "SessionIndex");
        let v_session_not_on_or_after = match read_timestamp_attr(attrs, "SessionNotOnOrAfter") {
            Ok(v) => v,
            Err(err) => {
                return Err(err);
            },
        };
        let f_authn_instant = match v_authn_instant {
            Some(x) => x,
            None => {
                return Err(SAMLError::unmarshalling("missing attribute AuthnInstant"));
            },
        };
        let children = obj.children();
        let v_subject_locality = match read_opt_child::<SubjectLocality>(children, "SubjectLocality") {
            Ok(v) => v,
            Err(err) => {
                return Err(err);
            },
        };
        let v_authn_context = match read_opt_child::<AuthnContext>(children, "AuthnContext") {
            Ok(v) => v,
            Err(err) => {
                return Err(err);
            },
        };
        let f_authn_context = match v_authn_context {
            Some(x) => x,
            None => {
                return Err(SAMLError::unmarshalling("missing child AuthnContext"));
            },
        };
        Ok(AuthnStatement {
            authn_instant: f_authn_instant,
            session_index: v_session_index,
            session_not_on_or_after: v_session_not_on_or_after,
            subject_locality: v_subject_locality,
            authn_context: f_authn_context,
        })
    }

    /// Writes the element as a node: its name in its namespace, the
    /// attributes that are set, its text and its children.
    pub fn to_xml(&self) -> (r: XmlObject)
        ensures
            r@ == self.spec_node(),
    {
        let mut x = XmlObject::new(Some("urn:oasis:names:tc:SAML:2.0:assertion".to_owned()), "AuthnStatement".to_owned(), Some("saml2".to_owned()));
        x.add_namespace("saml2".to_owned(), "urn:oasis:names:tc:SAML:2.0:assertion".to_owned());
        x.add_attribute("AuthnInstant".to_owned(), self.authn_instant.to_rfc3339());
        write_opt_attr(&mut x, "SessionIndex", clone_opt(&self.session_index));
        write_opt_attr(&mut x, "SessionNotOnOrAfter", format_opt_timestamp(&self.session_not_on_or_after));
        write_opt_child(&mut x, &self.subject_locality);
        x.add_child(self.authn_context.to_xml());
        proof {
            assert(x@.attributes =~= self.spec_node().attributes);
            assert(x@.children =~= self.spec_node().children);
        }
        x
    }

    pub fn authn_instant(&self) -> (r: &Timestamp)
        ensures
            *r == self.authn_instant,
    {
        &self.authn_instant
    }

    pub fn set_authn_instant(&mut self, authn_instant: Timestamp)
        ensures
            *final(self) == (AuthnStatement { authn_instant, ..*old(self) }),
    {
        self.authn_instant = authn_instant;
    }

    pub fn session_index(&self) -> (r: Option<&String>)
        ensures
            r is Some <==> self.session_index is Some,
            r is Some ==> *r->0 == self.session_index->0,
    {
        self.session_index.as_ref()
    }

    pub fn set_session_index(&mut self, session_index: Option<String>)
        ensures
            *final(self) == (AuthnStatement { session_index, ..*old(self) }),
    {
        self.session_index = session_index;
    }

    pub fn session_not_on_or_after(&self) -> (r: Option<&Timestamp>)
        ensures
            r is Some <==> self.session_not_on_or_after is Some,
            r is Some ==> *r->0 == self.session_not_on_or_after->0,
    {
        self.session_not_on_or_after.as_ref()
    }

    pub fn set_session_not_on_or_after(&mut self, session_not_on_or_after: Option<Timestamp>)
        ensures
            *final(self) == (AuthnStatement { session_not_on_or_after, ..*old(self) }),
    {
        self.session_not_on_or_after = session_not_on_or_after;
    }

    pub fn subject_locality(&self) -> (r: Option<&SubjectLocality>)
        ensures
            r is Some <==> self.subject_locality is Some,
            r is Some ==> *r->0 == self.subject_locality->0,
    {
        self.subject_locality.as_ref()
    }

    pub fn set_subject_locality(&mut self, subject_locality: Option<SubjectLocality>)
        ensures
            *final(self) == (AuthnStatement { subject_locality, ..*old(self) }),
    {
        self.subject_locality = subject_locality;
    }

    pub fn authn_context(&self) -> (r: &AuthnContext)
        ensures
            *r == self.authn_context,
    {
        &self.authn_context
    }

    pub fn set_authn_context(&mut self, authn_context: AuthnContext)
        ensures
            *final(self) == (AuthnStatement { authn_context, ..*old(self) }),
    {
        self.authn_context = authn_context;
    }

}

impl Element for AuthnStatement {
    open spec fn node_ok(n: Node) -> bool {
        Self::valid_node(n)
    }

    open spec fn node_matches(self, n: Node) -> bool {
        self.matches(n)
    }

    open spec fn node_spec(self) -> Node {
        self.spec_node()
    }

    fn read(obj: &XmlObject) -> (r: Result<Self, SAMLError>) {
        Self::try_from_xml(obj)
    }

    fn write(&self) -> (r: XmlObject) {
        self.to_xml()
    }
}

} // verus!
