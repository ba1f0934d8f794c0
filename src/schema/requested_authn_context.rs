use vstd::prelude::*;

use crate::error::SAMLError;
use crate::schema::fields::{attr_last, attrs_ok, group_binding, lemma_named_all, lemma_named_none, named, push_attr};
use crate::schema::values::{AuthnContextComparisonTypeEnumeration, comparison_of, comparison_text, lemma_comparison_round_trip};
use crate::schema::binding::{format_opt_comparison, read_child_vec, read_comparison_attr, write_child_vec, write_opt_attr, Element};
use crate::xml::q_name::QNameView;
use crate::xml::{Node, Pair, XmlObject};
use crate::schema::authn_context_class_ref::AuthnContextClassRef;
use crate::schema::authn_context_decl_ref::AuthnContextDeclRef;

verus! {

broadcast use group_binding;

/// The authentication contexts that a requester asks for.
#[derive(Debug)]
pub struct RequestedAuthnContext {
    pub comparison: Option<AuthnContextComparisonTypeEnumeration>,
    pub authn_context_class_refs: Vec<AuthnContextClassRef>,
    pub authn_context_decl_refs: Vec<AuthnContextDeclRef>,
}

impl RequestedAuthnContext {
    pub const ELEMENT_NAME: &'static str = "RequestedAuthnContext";
    pub const NS_PREFIX: &'static str = "saml2p";
    pub const NS_URI: &'static str = "urn:oasis:names:tc:SAML:2.0:protocol";

    proof fn lemma_child_names()
        ensures
            "AuthnContextClassRef"@ != "AuthnContextDeclRef"@,
    {
        reveal_strlit("AuthnContextClassRef");
        reveal_strlit("AuthnContextDeclRef");
        assert("AuthnContextClassRef"@.len() != "AuthnContextDeclRef"@.len());
    }

    /// The node can be read as this element: every typed value parses,
    /// required parts are present and every known child can be read.
    pub open spec fn valid_node(n: Node) -> bool
    {
        attrs_ok(n.attributes, "Comparison"@, |t: Seq<char>| comparison_of(t) is Some)
        && (forall|m: int| 0 <= m < named(n.children, "AuthnContextClassRef"@).len() ==> AuthnContextClassRef::valid_node(#[trigger] named(n.children, "AuthnContextClassRef"@)[m]))
        && (forall|m: int| 0 <= m < named(n.children, "AuthnContextDeclRef"@).len() ==> AuthnContextDeclRef::valid_node(#[trigger] named(n.children, "AuthnContextDeclRef"@)[m]))
    }

    /// The element holds what the node says.
    pub open spec fn matches(self, n: Node) -> bool
    {
        (match attr_last(n.attributes, "Comparison"@) { Some(t) => self.comparison is Some && self.comparison->0 == comparison_of(t)->0, None => self.comparison is None })
        && self.authn_context_class_refs@.len() == named(n.children, "AuthnContextClassRef"@).len()
        && (forall|m: int| 0 <= m < self.authn_context_class_refs@.len() ==> #[trigger] self.authn_context_class_refs@[m].matches(named(n.children, "AuthnContextClassRef"@)[m]))
        && self.authn_context_decl_refs@.len() == named(n.children, "AuthnContextDeclRef"@).len()
        && (forall|m: int| 0 <= m < self.authn_context_decl_refs@.len() ==> #[trigger] self.authn_context_decl_refs@[m].matches(named(n.children, "AuthnContextDeclRef"@)[m]))
    }

    /// The node that the element is written as.
    pub open spec fn spec_node(self) -> Node
    {
        Node {
            name: QNameView { namespace_uri: Some("urn:oasis:names:tc:SAML:2.0:protocol"@), local_name: "RequestedAuthnContext"@, prefix: Some("saml2p"@) },
            attributes: push_attr(Seq::<Pair>::empty(), "Comparison"@, match self.comparison { Some(v) => Some(comparison_text(v)), None => None }),
            namespaces: seq![("saml2p"@, "urn:oasis:names:tc:SAML:2.0:protocol"@)],
            text: None,
            children: Seq::<Node>::empty() + self.authn_context_class_refs@.map_values(|c: AuthnContextClassRef| c.node_spec()) + self.authn_context_decl_refs@.map_values(|c: AuthnContextDeclRef| c.node_spec()),
        }
    }

    /// Reads the element from a node: the last occurrence of an attribute
    /// or of a single-valued child wins, repeated children are kept in
    /// order, and the first part that cannot be read fails the whole element.
    #[verifier::loop_isolation(false)]
    pub fn try_from_xml(obj: &XmlObject) -> (r: Result<RequestedAuthnContext, SAMLError>)
        ensures
            r is Ok <==> Self::valid_node(obj@),
            r is Ok ==> r->Ok_0.matches(obj@),
            r is Err ==> r->Err_0 is UnmarshallingError,
    {
        let attrs = obj.attributes();
        let v_comparison = match read_comparison_attr(attrs, "Comparison") {
            Ok(v) => v,
            Err(err) => {
                return Err(err);
            },
        };
        let children = obj.children();
        let v_authn_context_class_refs = match read_child_vec::<AuthnContextClassRef>(children, "AuthnContextClassRef") {
            Ok(v) => v,
            Err(err) => {
                return Err(err);
            },
        };
        let v_authn_context_decl_refs = match read_child_vec::<AuthnContextDeclRef>(children, "AuthnContextDeclRef") {
            Ok(v) => v,
            Err(err) => {
                return Err(err);
            },
        };
        Ok(RequestedAuthnContext {
            comparison: v_comparison,
            authn_context_class_refs: v_authn_context_class_refs,
            authn_context_decl_refs: v_authn_context_decl_refs,
        })
    }

    /// Writes the element as a node: its name in its namespace, the
    /// attributes that are set, its text and its children.
    pub fn to_xml(&self) -> (r: XmlObject)
        ensures
            r@ == self.spec_node(),
    {
        let mut x = XmlObject::new(Some("urn:oasis:names:tc:SAML:2.0:protocol".to_owned()), "RequestedAuthnContext".to_owned(), Some("saml2p".to_owned()));
        x.add_namespace("saml2p".to_owned(), "urn:oasis:names:tc:SAML:2.0:protocol".to_owned());
        write_opt_attr(&mut x, "Comparison", format_opt_comparison(&self.comparison));
        write_child_vec(&mut x, &self.authn_context_class_refs);
        write_child_vec(&mut x, &self.authn_context_decl_refs);
        proof {
            assert(x@.attributes =~= self.spec_node().attributes);
            assert(x@.children =~= self.spec_node().children);
        }
        x
    }

    pub fn comparison(&self) -> (r: Option<&AuthnContextComparisonTypeEnumeration>)
        ensures
            r is Some <==> self.comparison is Some,
            r is Some ==> *r->0 == self.comparison->0,
    {
        self.comparison.as_ref()
    }

    pub fn set_comparison(&mut self, comparison: Option<AuthnContextComparisonTypeEnumeration>)
        ensures
            *final(self) == (RequestedAuthnContext { comparison, ..*old(self) }),
    {
        self.comparison = comparison;
    }

    pub fn authn_context_class_refs(&self) -> (r: &Vec<AuthnContextClassRef>)
        ensures
            *r == self.authn_context_class_refs,
    {
        &self.authn_context_class_refs
    }

    pub fn add_authn_context_class_ref(&mut self, item: AuthnContextClassRef)
        ensures
            final(self).authn_context_class_refs@ == old(self).authn_context_class_refs@.push(item),
            final(self).comparison == old(self).comparison,
            final(self).authn_context_decl_refs == old(self).authn_context_decl_refs,
    {
        self.authn_context_class_refs.push(item);
    }

    pub fn authn_context_decl_refs(&self) -> (r: &Vec<AuthnContextDeclRef>)
        ensures
            *r == self.authn_context_decl_refs,
    {
        &self.authn_context_decl_refs
    }

    pub fn add_authn_context_decl_ref(&mut self, item: AuthnContextDeclRef)
        ensures
            final(self).authn_context_decl_refs@ == old(self).authn_context_decl_refs@.push(item),
            final(self).comparison == old(self).comparison,
            final(self).authn_context_class_refs == old(self).authn_context_class_refs,
    {
        self.authn_context_decl_refs.push(item);
    }

    /// The value survives being written and read back: versions are known
    /// ones, timestamps read back as themselves, kept nodes carry the name
    /// of their slot and open content stays clear of the names read here.
    pub open spec fn wf(self) -> bool
    {
        (forall|m: int| 0 <= m < self.authn_context_class_refs@.len() ==> (#[trigger] self.authn_context_class_refs@[m]).wf())
        && (forall|m: int| 0 <= m < self.authn_context_decl_refs@.len() ==> (#[trigger] self.authn_context_decl_refs@[m]).wf())
    }

    /// Writing the element and reading the node back gives the element again.
    pub proof fn lemma_round_trip(self)
        requires
            self.wf(),
        ensures
            Self::valid_node(self.spec_node()),
            self.matches(self.spec_node()),
    {
        let n = self.spec_node();
        Self::lemma_child_names();
        match self.comparison {
            Some(v) => lemma_comparison_round_trip(v),
            None => {},
        }
        let part1 = self.authn_context_class_refs@.map_values(|c: AuthnContextClassRef| c.node_spec());
        let part2 = self.authn_context_decl_refs@.map_values(|c: AuthnContextDeclRef| c.node_spec());
        assert(n.children =~= part1 + part2);
        {
            lemma_named_all(part1, "AuthnContextClassRef"@);
            lemma_named_none(part2, "AuthnContextClassRef"@);
            assert(named(n.children, "AuthnContextClassRef"@) =~= named(part1, "AuthnContextClassRef"@) + named(part2, "AuthnContextClassRef"@));
        }
        {
            lemma_named_none(part1, "AuthnContextDeclRef"@);
            lemma_named_all(part2, "AuthnContextDeclRef"@);
            assert(named(n.children, "AuthnContextDeclRef"@) =~= named(part1, "AuthnContextDeclRef"@) + named(part2, "AuthnContextDeclRef"@));
        }
        assert forall|m: int| 0 <= m < self.authn_context_class_refs@.len() implies AuthnContextClassRef::valid_node(#[trigger] self.authn_context_class_refs@[m].spec_node()) && self.authn_context_class_refs@[m].matches(self.authn_context_class_refs@[m].spec_node()) by {
            self.authn_context_class_refs@[m].lemma_round_trip();
        }
        assert forall|m: int| 0 <= m < self.authn_context_decl_refs@.len() implies AuthnContextDeclRef::valid_node(#[trigger] self.authn_context_decl_refs@[m].spec_node()) && self.authn_context_decl_refs@[m].matches(self.authn_context_decl_refs@[m].spec_node()) by {
            self.authn_context_decl_refs@[m].lemma_round_trip();
        }
    }

}

impl Element for RequestedAuthnContext {
    open spec fn node_ok(n: Node) -> bool {
        Self::valid_node(n)
    }

    open spec fn node_matches(self, n: Node) -> bool {
        self.matches(n)
    }

    open spec fn node_spec(self) -> Node {
        self.spec_node()
    }

    fn read(obj: &XmlObject) -> (r: Result<Self, SAMLError>) {
        Self::try_from_xml(obj)
    }

    fn write(&self) -> (r: XmlObject) {
        self.to_xml()
    }
}

} // verus!
