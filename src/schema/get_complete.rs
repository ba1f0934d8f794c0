use vstd::prelude::*;

use crate::error::SAMLError;
use crate::schema::fields::group_binding;
use crate::schema::binding::Element;
use crate::xml::q_name::{opt_view, QNameView};
use crate::xml::{Node, Pair, XmlObject};

verus! {

broadcast use group_binding;

/// Where the complete list of identity providers is found.
#[derive(Debug)]
pub struct GetComplete {
    pub value: Option<String>,
}

impl GetComplete {
    pub const ELEMENT_NAME: &'static str = "GetComplete";
    pub const NS_PREFIX: &'static str = "saml2p";
    pub const NS_URI: &'static str = "urn:oasis:names:tc:SAML:2.0:protocol";

    /// The node can be read as this element: every typed value parses,
    /// required parts are present and every known child can be read.
    pub open spec fn valid_node(n: Node) -> bool
    {
        true
    }

    /// The element holds what the node says.
    pub open spec fn matches(self, n: Node) -> bool
    {
        n.text == opt_view(self.value)
    }

    /// The node that the element is written as.
    pub open spec fn spec_node(self) -> Node
    {
        Node {
            name: QNameView { namespace_uri: Some("urn:oasis:names:tc:SAML:2.0:protocol"@), local_name: "GetComplete"@, prefix: Some("saml2p"@) },
            attributes: Seq::<Pair>::empty(),
            namespaces: seq![("saml2p"@, "urn:oasis:names:tc:SAML:2.0:protocol"@)],
            text: opt_view(self.value),
            children: Seq::<Node>::empty(),
        }
    }

    /// Reads the element from a node: the last occurrence of an attribute
    /// or of a single-valued child wins, repeated children are kept in
    /// order, and the first part that cannot be read fails the whole element.
    #[verifier::loop_isolation(false)]
    pub fn try_from_xml(obj: &XmlObject) -> (r: Result<GetComplete, SAMLError>)
        ensures
            r is Ok <==> Self::valid_node(obj@),
            r is Ok ==> r->Ok_0.matches(obj@),
            r is Err ==> r->Err_0 is UnmarshallingError,
    {
        let f_value = match obj.text() {
            Some(s) => Some(s.clone()),
            None => None,
        };
        Ok(GetComplete {
            value: f_value,
        })
    }

    /// Writes the element as a node: its name in its namespace, the
    /// attributes that are set, its text and its children.
    pub fn to_xml(&self) -> (r: XmlObject)
        ensures
            r@ == self.spec_node(),
    {
        let mut x = XmlObject::new(Some("urn:oasis:names:tc:SAML:2.0:protocol".to_owned()), "GetComplete".to_owned(), Some("saml2p".to_owned()));
        x.add_namespace("saml2p".to_owned(), "urn:oasis:names:tc:SAML:2.0:protocol".to_owned());
        match &self.value {
            Some(s) => x.set_text(Some(s.clone())),
            None => {},
        }
        proof {
            assert(x@.attributes =~= self.spec_node().attributes);
            assert(x@.children =~= self.spec_node().children);
        }
        x
    }

    pub fn value(&self) -> (r: Option<&String>)
        ensures
            r is Some <==> self.value is Some,
            r is Some ==> *r->0 == self.value->0,
    {
        self.value.as_ref()
    }

    pub fn set_value(&mut self, value: Option<String>)
        ensures
            *final(self) == (GetComplete { value, ..*old(self) }),
    {
        self.value = value;
    }

    /// The value survives being written and read back: versions are known
    /// ones, timestamps read back as themselves, kept nodes carry the name
    /// of their slot and open content stays clear of the names read here.
    pub open spec fn wf(self) -> bool
    {
        true
    }

    /// Writing the element and reading the node back gives the element again.
    pub proof fn lemma_round_trip(self)
        requires
            self.wf(),
        ensures
            Self::valid_node(self.spec_node()),
            self.matches(self.spec_node()),
    {
        let n = self.spec_node();
    }

}

impl Element for GetComplete {
    open spec fn node_ok(n: Node) -> bool {
        Self::valid_node(n)
    }

    open spec fn node_matches(self, n: Node) -> bool {
        self.matches(n)
    }

    open spec fn node_spec(self) -> Node {
        self.spec_node()
    }

    fn read(obj: &XmlObject) -> (r: Result<Self, SAMLError>) {
        Self::try_from_xml(obj)
    }

    fn write(&self) -> (r: XmlObject) {
        self.to_xml()
    }
}

} // verus!
