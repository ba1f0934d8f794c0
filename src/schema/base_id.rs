use vstd::prelude::*;

use crate::error::SAMLError;
use crate::schema::fields::{attr_last, group_binding, push_attr};
use crate::schema::binding::{read_str_attr, write_opt_attr, Element};
use crate::xml::q_name::{clone_opt, opt_view, QNameView};
use crate::xml::{Node, Pair, XmlObject};

verus! {

broadcast use group_binding;

/// An abstract subject identifier.
#[derive(Debug)]
pub struct BaseID {
    pub name_qualifier: Option<String>,
    pub sp_name_qualifier: Option<String>,
}

impl BaseID {
    pub const ELEMENT_NAME: &'static str = "BaseID";
    pub const NS_PREFIX: &'static str = "saml2";
    pub const NS_URI: &'static str = "urn:oasis:names:tc:SAML:2.0:assertion";

    proof fn lemma_attr_names()
        ensures
            "NameQualifier"@ != "SPNameQualifier"@,
    {
        reveal_strlit("NameQualifier");
        reveal_strlit("SPNameQualifier");
        assert("NameQualifier"@.len() != "SPNameQualifier"@.len());
    }

    /// The node can be read as this element: every typed value parses,
    /// required parts are present and every known child can be read.
    pub open spec fn valid_node(n: Node) -> bool
    {
        true
    }

    /// The element holds what the node says.
    pub open spec fn matches(self, n: Node) -> bool
    {
        (match attr_last(n.attributes, "NameQualifier"@) { Some(t) => self.name_qualifier is Some && self.name_qualifier->0@ == t, None => self.name_qualifier is None })
        && (match attr_last(n.attributes, "SPNameQualifier"@) { Some(t) => self.sp_name_qualifier is Some && self.sp_name_qualifier->0@ == t, None => self.sp_name_qualifier is None })
    }

    /// The node that the element is written as.
    pub open spec fn spec_node(self) -> Node
    {
        Node {
            name: QNameView { namespace_uri: Some("urn:oasis:names:tc:SAML:2.0:assertion"@), local_name: "BaseID"@, prefix: Some("saml2"@) },
            attributes: push_attr(push_attr(Seq::<Pair>::empty(), "NameQualifier"@, opt_view(self.name_qualifier)), "SPNameQualifier"@, opt_view(self.sp_name_qualifier)),
            namespaces: seq![("saml2"@, "urn:oasis:names:tc:SAML:2.0:assertion"@)],
            text: None,
            children: Seq::<Node>::empty(),
        }
    }

    /// Reads the element from a node: the last occurrence of an attribute
    /// or of a single-valued child wins, repeated children are kept in
    /// order, and the first part that cannot be read fails the whole element.
    #[verifier::loop_isolation(false)]
    pub fn try_from_xml(obj: &XmlObject) -> (r: Result<BaseID, SAMLError>)
        ensures
            r is Ok <==> Self::valid_node(obj@),
            r is Ok ==> r->Ok_0.matches(obj@),
            r is Err ==> r->Err_0 is UnmarshallingError,
    {
        let attrs = obj.attributes();
        let v_name_qualifier = read_str_attr(attrs, "NameQualifier");
        let v_sp_name_qualifier = read_str_attr(attrs, "SPNameQualifier");
        Ok(BaseID {
            name_qualifier: v_name_qualifier,
            sp_name_qualifier: v_sp_name_qualifier,
        })
    }

    /// Writes the element as a node: its name in its namespace, the
    /// attributes that are set, its text and its children.
    pub fn to_xml(&self) -> (r: XmlObject)
        ensures
            r@ == self.spec_node(),
    {
        let mut x = XmlObject::new(Some("urn:oasis:names:tc:SAML:2.0:assertion".to_owned()), "BaseID".to_owned(), Some("saml2".to_owned()));
        x.add_namespace("saml2".to_owned(), "urn:oasis:names:tc:SAML:2.0:assertion".to_owned());
        write_opt_attr(&mut x, "NameQualifier", clone_opt(&self.name_qualifier));
        write_opt_attr(&mut x, "SPNameQualifier", clone_opt(&self.sp_name_qualifier));
        proof {
            assert(x@.attributes =~= self.spec_node().attributes);
            assert(x@.children =~= self.spec_node().children);
        }
        x
    }

    pub fn name_qualifier(&self) -> (r: Option<&String>)
        ensures
            r is Some <==> self.name_qualifier is Some,
            r is Some ==> *r->0 == self.name_qualifier->0,
    {
        self.name_qualifier.as_ref()
    }

    pub fn set_name_qualifier(&mut self, name_qualifier: Option<String>)
        ensures
            *final(self) == (BaseID { name_qualifier, ..*old(self) }),
    {
        self.name_qualifier = name_qualifier;
    }

    pub fn sp_name_qualifier(&self) -> (r: Option<&String>)
        ensures
            r is Some <==> self.sp_name_qualifier is Some,
            r is Some ==> *r->0 == self.sp_name_qualifier->0,
    {
        self.sp_name_qualifier.as_ref()
    }

    pub fn set_sp_name_qualifier(&mut self, sp_name_qualifier: Option<String>)
        ensures
            *final(self) == (BaseID { sp_name_qualifier, ..*old(self) }),
    {
        self.sp_name_qualifier = sp_name_qualifier;
    }

    /// An element with every part unset.
    pub fn new() -> (r: BaseID)
        ensures
            r == (BaseID { name_qualifier: None, sp_name_qualifier: None }),
    {
        BaseID { name_qualifier: None, sp_name_qualifier: None }
    }

    /// The value survives being written and read back: versions are known
    /// ones, timestamps read back as themselves, kept nodes carry the name
    /// of their slot and open content stays clear of the names read here.
    pub open spec fn wf(self) -> bool
    {
        true
    }

    /// Writing the element and reading the node back gives the element again.
    pub proof fn lemma_round_trip(self)
        requires
            self.wf(),
        ensures
            Self::valid_node(self.spec_node()),
            self.matches(self.spec_node()),
    {
        let n = self.spec_node();
        Self::lemma_attr_names();
    }

}

impl Element for BaseID {
    open spec fn node_ok(n: Node) -> bool {
        Self::valid_node(n)
    }

    open spec fn node_matches(self, n: Node) -> bool {
        self.matches(n)
    }

    open spec fn node_spec(self) -> Node {
        self.spec_node()
    }

    fn read(obj: &XmlObject) -> (r: Result<Self, SAMLError>) {
        Self::try_from_xml(obj)
    }

    fn write(&self) -> (r: XmlObject) {
        self.to_xml()
    }
}

} // verus!
