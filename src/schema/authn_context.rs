use vstd::prelude::*;

use crate::error::SAMLError;
use crate::schema::fields::{group_binding, lemma_named_all, lemma_named_none, named, opt_nodes, push_node};
use crate::schema::binding::{read_child_vec, read_opt_child, write_child_vec, write_opt_child, Element};
use crate::xml::q_name::QNameView;
use crate::xml::{Node, Pair, XmlObject};
use crate::schema::authenticating_authority::AuthenticatingAuthority;
use crate::schema::authn_context_class_ref::AuthnContextClassRef;
use crate::schema::authn_context_decl::AuthnContextDecl;
use crate::schema::authn_context_decl_ref::AuthnContextDeclRef;

verus! {

broadcast use group_binding;

/// The context in which an authentication took place.
#[derive(Debug)]
pub struct AuthnContext {
    pub authn_context_class_ref: Option<AuthnContextClassRef>,
    pub authn_context_decl: Option<AuthnContextDecl>,
    pub authn_context_decl_ref: Option<AuthnContextDeclRef>,
    pub authenticating_authorities: Vec<AuthenticatingAuthority>,
}

impl AuthnContext {
    pub const ELEMENT_NAME: &'static str = "AuthnContext";
    pub const NS_PREFIX: &'static str = "saml2";
    pub const NS_URI: &'static str = "urn:oasis:names:tc:SAML:2.0:assertion";

    proof fn lemma_child_names()
        ensures
            "AuthnContextClassRef"@ != "AuthnContextDecl"@,
            "AuthnContextClassRef"@ != "AuthnContextDeclRef"@,
            "AuthnContextClassRef"@ != "AuthenticatingAuthority"@,
            "AuthnContextDecl"@ != "AuthnContextDeclRef"@,
            "AuthnContextDecl"@ != "AuthenticatingAuthority"@,
            "AuthnContextDeclRef"@ != "AuthenticatingAuthority"@,
    {
        reveal_strlit("AuthenticatingAuthority");
        reveal_strlit("AuthnContextClassRef");
        reveal_strlit("AuthnContextDecl");
        reveal_strlit("AuthnContextDeclRef");
        assert("AuthnContextClassRef"@.len() != "AuthnContextDecl"@.len());
        assert("AuthnContextClassRef"@.len() != "AuthnContextDeclRef"@.len());
        assert("AuthnContextClassRef"@.len() != "AuthenticatingAuthority"@.len());
        assert("AuthnContextDecl"@.len() != "AuthnContextDeclRef"@.len());
        assert("AuthnContextDecl"@.len() != "AuthenticatingAuthority"@.len());
        assert("AuthnContextDeclRef"@.len() != "AuthenticatingAuthority"@.len());
    }

    /// The node can be read as this element: every typed value parses,
    /// required parts are present and every known child can be read.
    pub open spec fn valid_node(n: Node) -> bool
    {
        (forall|m: int| 0 <= m < named(n.children, "AuthnContextClassRef"@).len() ==> AuthnContextClassRef::valid_node(#[trigger] named(n.children, "AuthnContextClassRef"@)[m]))
        && (forall|m: int| 0 <= m < named(n.children, "AuthnContextDecl"@).len() ==> AuthnContextDecl::valid_node(#[trigger] named(n.children, "AuthnContextDecl"@)[m]))
        && (forall|m: int| 0 <= m < named(n.children, "AuthnContextDeclRef"@).len() ==> AuthnContextDeclRef::valid_node(#[trigger] named(n.children, "AuthnContextDeclRef"@)[m]))
        && (forall|m: int| 0 <= m < named(n.children, "AuthenticatingAuthority"@).len() ==> AuthenticatingAuthority::valid_node(#[trigger] named(n.children, "AuthenticatingAuthority"@)[m]))
    }

    /// The element holds what the node says.
    pub open spec fn matches(self, n: Node) -> bool
    {
        (if named(n.children, "AuthnContextClassRef"@).len() > 0 { self.authn_context_class_ref is Some && self.authn_context_class_ref->0.matches(named(n.children, "AuthnContextClassRef"@).last()) } else { self.authn_context_class_ref is None })
        && (if named(n.children, "AuthnContextDecl"@).len() > 0 { self.authn_context_decl is Some && self.authn_context_decl->0.matches(named(n.children, "AuthnContextDecl"@).last()) } else { self.authn_context_decl is None })
        && (if named(n.children, "AuthnContextDeclRef"@).len() > 0 { self.authn_context_decl_ref is Some && self.authn_context_decl_ref->0.matches(named(n.children, "AuthnContextDeclRef"@).last()) } else { self.authn_context_decl_ref is None })
        && self.authenticating_authorities@.len() == named(n.children, "AuthenticatingAuthority"@).len()
        && (forall|m: int| 0 <= m < self.authenticating_authorities@.len() ==> #[trigger] self.authenticating_authorities@[m].matches(named(n.children, "AuthenticatingAuthority"@)[m]))
    }

    /// The node that the element is written as.
    pub open spec fn spec_node(self) -> Node
    {
        Node {
            name: QNameView { namespace_uri: Some("urn:oasis:names:tc:SAML:2.0:assertion"@), local_name: "AuthnContext"@, prefix: Some("saml2"@) },
            attributes: Seq::<Pair>::empty(),
            namespaces: seq![("saml2"@, "urn:oasis:names:tc:SAML:2.0:assertion"@)],
            text: None,
            children: push_node(push_node(push_node(Seq::<Node>::empty(), match self.authn_context_class_ref { Some(c) => Some(c.spec_node()), None => None }), match self.authn_context_decl { Some(c) => Some(c.spec_node()), None => None }), match self.authn_context_decl_ref { Some(c) => Some(c.spec_node()), None => None }) + self.authenticating_authorities@.map_values(|c: AuthenticatingAuthority| c.node_spec()),
        }
    }

    /// Reads the element from a node: the last occurrence of an attribute
    /// or of a single-valued child wins, repeated children are kept in
    /// order, and the first part that cannot be read fails the whole element.
    #[verifier::loop_isolation(false)]
    pub fn try_from_xml(obj: &XmlObject) -> (r: Result<AuthnContext, SAMLError>)
        ensures
            r is Ok <==> Self::valid_node(obj@),
            r is Ok ==> r->Ok_0.matches(obj@),
            r is Err ==> r->Err_0 is UnmarshallingError,
    {
        let children = obj.children();
        let v_authn_context_class_ref = match read_opt_child::<AuthnContextClassRef>(children, "AuthnContextClassRef") {
            Ok(v) => v,
            Err(err) => {
                return Err(err);
            },
        };
        let v_authn_context_decl = match read_opt_child::<AuthnContextDecl>(children, "AuthnContextDecl") {
            Ok(v) => v,
            Err(err) => {
                return Err(err);
            },
        };
        let v_authn_context_decl_ref = match read_opt_child::<AuthnContextDeclRef>(children, "AuthnContextDeclRef") {
            Ok(v) => v,
            Err(err) => {
                return Err(err);
            },
        };
        let v_authenticating_authorities = match read_child_vec::<AuthenticatingAuthority>(children, "AuthenticatingAuthority") {
            Ok(v) => v,
            Err(err) => {
                return Err(err);
            },
        };
        Ok(AuthnContext {
            authn_context_class_ref: v_authn_context_class_ref,
            authn_context_decl: v_authn_context_decl,
            authn_context_decl_ref: v_authn_context_decl_ref,
            authenticating_authorities: v_authenticating_authorities,
        })
    }

    /// Writes the element as a node: its name in its namespace, the
    /// attributes that are set, its text and its children.
    pub fn to_xml(&self) -> (r: XmlObject)
        ensures
            r@ == self.spec_node(),
    {
        let mut x = XmlObject::new(Some("urn:oasis:names:tc:SAML:2.0:assertion".to_owned()), "AuthnContext".to_owned(), Some("saml2".to_owned()));
        x.add_namespace("saml2".to_owned(), "urn:oasis:names:tc:SAML:2.0:assertion".to_owned());
        write_opt_child(&mut x, &self.authn_context_class_ref);
        write_opt_child(&mut x, &self.authn_context_decl);
        write_opt_child(&mut x, &self.authn_context_decl_ref);
        write_child_vec(&mut x, &self.authenticating_authorities);
        proof {
            assert(x@.attributes =~= self.spec_node().attributes);
            assert(x@.children =~= self.spec_node().children);
        }
        x
    }

    pub fn authn_context_class_ref(&self) -> (r: Option<&AuthnContextClassRef>)
        ensures
            r is Some <==> self.authn_context_class_ref is Some,
            r is Some ==> *r->0 == self.authn_context_class_ref->0,
    {
        self.authn_context_class_ref.as_ref()
    }

    pub fn set_authn_context_class_ref(&mut self, authn_context_class_ref: Option<AuthnContextClassRef>)
        ensures
            *final(self) == (AuthnContext { authn_context_class_ref, ..*old(self) }),
    {
        self.authn_context_class_ref = authn_context_class_ref;
    }

    pub fn authn_context_decl(&self) -> (r: Option<&AuthnContextDecl>)
        ensures
            r is Some <==> self.authn_context_decl is Some,
            r is Some ==> *r->0 == self.authn_context_decl->0,
    {
        self.authn_context_decl.as_ref()
    }

    pub fn set_authn_context_decl(&mut self, authn_context_decl: Option<AuthnContextDecl>)
        ensures
            *final(self) == (AuthnContext { authn_context_decl, ..*old(self) }),
    {
        self.authn_context_decl = authn_context_decl;
    }

    pub fn authn_context_decl_ref(&self) -> (r: Option<&AuthnContextDeclRef>)
        ensures
            r is Some <==> self.authn_context_decl_ref is Some,
            r is Some ==> *r->0 == self.authn_context_decl_ref->0,
    {
        self.authn_context_decl_ref.as_ref()
    }

    pub fn set_authn_context_decl_ref(&mut self, authn_context_decl_ref: Option<AuthnContextDeclRef>)
        ensures
            *final(self) == (AuthnContext { authn_context_decl_ref, ..*old(self) }),
    {
        self.authn_context_decl_ref = authn_context_decl_ref;
    }

    pub fn authenticating_authorities(&self) -> (r: &Vec<AuthenticatingAuthority>)
        ensures
            *r == self.authenticating_authorities,
    {
        &self.authenticating_authorities
    }

    pub fn add_authenticating_authority(&mut self, item: AuthenticatingAuthority)
        ensures
            final(self).authenticating_authorities@ == old(self).authenticating_authorities@.push(item),
            final(self).authn_context_class_ref == old(self).authn_context_class_ref,
            final(self).authn_context_decl == old(self).authn_context_decl,
            final(self).authn_context_decl_ref == old(self).authn_context_decl_ref,
    {
        self.authenticating_authorities.push(item);
    }

    /// The value survives being written and read back: versions are known
    /// ones, timestamps read back as themselves, kept nodes carry the name
    /// of their slot and open content stays clear of the names read here.
    pub open spec fn wf(self) -> bool
    {
        (match self.authn_context_class_ref { Some(v) => v.wf(), None => true })
        && (match self.authn_context_decl { Some(v) => v.wf(), None => true })
        && (match self.authn_context_decl_ref { Some(v) => v.wf(), None => true })
        && (forall|m: int| 0 <= m < self.authenticating_authorities@.len() ==> (#[trigger] self.authenticating_authorities@[m]).wf())
    }

    /// Writing the element and reading the node back gives the element again.
    pub proof fn lemma_round_trip(self)
        requires
            self.wf(),
        ensures
            Self::valid_node(self.spec_node()),
            self.matches(self.spec_node()),
    {
        let n = self.spec_node();
        Self::lemma_child_names();
        let part1 = opt_nodes(match self.authn_context_class_ref { Some(c) => Some(c.spec_node()), None => None });
        let part2 = opt_nodes(match self.authn_context_decl { Some(c) => Some(c.spec_node()), None => None });
        let part3 = opt_nodes(match self.authn_context_decl_ref { Some(c) => Some(c.spec_node()), None => None });
        let part4 = self.authenticating_authorities@.map_values(|c: AuthenticatingAuthority| c.node_spec());
        assert(n.children =~= part1 + part2 + part3 + part4);
        {
            lemma_named_all(part1, "AuthnContextClassRef"@);
            lemma_named_none(part2, "AuthnContextClassRef"@);
            lemma_named_none(part3, "AuthnContextClassRef"@);
            lemma_named_none(part4, "AuthnContextClassRef"@);
            assert(named(n.children, "AuthnContextClassRef"@) =~= named(part1, "AuthnContextClassRef"@) + named(part2, "AuthnContextClassRef"@) + named(part3, "AuthnContextClassRef"@) + named(part4, "AuthnContextClassRef"@));
        }
        {
            lemma_named_none(part1, "AuthnContextDecl"@);
            lemma_named_all(part2, "AuthnContextDecl"@);
            lemma_named_none(part3, "AuthnContextDecl"@);
            lemma_named_none(part4, "AuthnContextDecl"@);
            assert(named(n.children, "AuthnContextDecl"@) =~= named(part1, "AuthnContextDecl"@) + named(part2, "AuthnContextDecl"@) + named(part3, "AuthnContextDecl"@) + named(part4, "AuthnContextDecl"@));
        }
        {
            lemma_named_none(part1, "AuthnContextDeclRef"@);
            lemma_named_none(part2, "AuthnContextDeclRef"@);
            lemma_named_all(part3, "AuthnContextDeclRef"@);
            lemma_named_none(part4, "AuthnContextDeclRef"@);
            assert(named(n.children, "AuthnContextDeclRef"@) =~= named(part1, "AuthnContextDeclRef"@) + named(part2, "AuthnContextDeclRef"@) + named(part3, "AuthnContextDeclRef"@) + named(part4, "AuthnContextDeclRef"@));
        }
        {
            lemma_named_none(part1, "AuthenticatingAuthority"@);
            lemma_named_none(part2, "AuthenticatingAuthority"@);
            lemma_named_none(part3, "AuthenticatingAuthority"@);
            lemma_named_all(part4, "AuthenticatingAuthority"@);
            assert(named(n.children, "AuthenticatingAuthority"@) =~= named(part1, "AuthenticatingAuthority"@) + named(part2, "AuthenticatingAuthority"@) + named(part3, "AuthenticatingAuthority"@) + named(part4, "AuthenticatingAuthority"@));
        }
        match self.authn_context_class_ref {
            Some(v) => v.lemma_round_trip(),
            None => {},
        }
        match self.authn_context_decl {
            Some(v) => v.lemma_round_trip(),
            None => {},
        }
        match self.authn_context_decl_ref {
            Some(v) => v.lemma_round_trip(),
            None => {},
        }
        assert forall|m: int| 0 <= m < self.authenticating_authorities@.len() implies AuthenticatingAuthority::valid_node(#[trigger] self.authenticating_authorities@[m].spec_node()) && self.authenticating_authorities@[m].matches(self.authenticating_authorities@[m].spec_node()) by {
            self.authenticating_authorities@[m].lemma_round_trip();
        }
    }

}

impl Element for AuthnContext {
    open spec fn node_ok(n: Node) -> bool {
        Self::valid_node(n)
    }

    open spec fn node_matches(self, n: Node) -> bool {
        self.matches(n)
    }

    open spec fn node_spec(self) -> Node {
        self.spec_node()
    }

    fn read(obj: &XmlObject) -> (r: Result<Self, SAMLError>) {
        Self::try_from_xml(obj)
    }

    fn write(&self) -> (r: XmlObject) {
        self.to_xml()
    }
}

} // verus!
