use vstd::prelude::*;

use crate::error::SAMLError;
use crate::schema::fields::group_binding;
use crate::schema::binding::Element;
use crate::xml::q_name::QNameView;
use crate::xml::{Node, Pair, XmlObject};

verus! {

broadcast use group_binding;

/// A party that an assertion is addressed to.
#[derive(Debug)]
pub struct Audience {
    pub value: String,
}

impl Audience {
    pub const ELEMENT_NAME: &'static str = "Audience";
    pub const NS_PREFIX: &'static str = "saml2";
    pub const NS_URI: &'static str = "urn:oasis:names:tc:SAML:2.0:assertion";

    /// The node can be read as this element: every typed value parses,
    /// required parts are present and every known child can be read.
    pub open spec fn valid_node(n: Node) -> bool
    {
        n.text is Some
    }

    /// The element holds what the node says.
    pub open spec fn matches(self, n: Node) -> bool
    {
        n.text == Some(self.value@)
    }

    /// The node that the element is written as.
    pub open spec fn spec_node(self) -> Node
    {
        Node {
            name: QNameView { namespace_uri: Some("urn:oasis:names:tc:SAML:2.0:assertion"@), local_name: "Audience"@, prefix: Some("saml2"@) },
            attributes: Seq::<Pair>::empty(),
            namespaces: seq![("saml2"@, "urn:oasis:names:tc:SAML:2.0:assertion"@)],
            text: Some(self.value@),
            children: Seq::<Node>::empty(),
        }
    }

    /// Reads the element from a node: the last occurrence of an attribute
    /// or of a single-valued child wins, repeated children are kept in
    /// order, and the first part that cannot be read fails the whole element.
    #[verifier::loop_isolation(false)]
    pub fn try_from_xml(obj: &XmlObject) -> (r: Result<Audience, SAMLError>)
        ensures
            r is Ok <==> Self::valid_node(obj@),
            r is Ok ==> r->Ok_0.matches(obj@),
            r is Err ==> r->Err_0 is UnmarshallingError,
    {
        let f_value = match obj.text() {
            Some(s) => s.clone(),
            None => {
                return Err(SAMLError::unmarshalling("missing text of Audience"));
            },
        };
        Ok(Audience {
            value: f_value,
        })
    }

    /// Writes the element as a node: its name in its namespace, the
    /// attributes that are set, its text and its children.
    pub fn to_xml(&self) -> (r: XmlObject)
        ensures
            r@ == self.spec_node(),
    {
        let mut x = XmlObject::new(Some("urn:oasis:names:tc:SAML:2.0:assertion".to_owned()), "Audience".to_owned(), Some("saml2".to_owned()));
        x.add_namespace("saml2".to_owned(), "urn:oasis:names:tc:SAML:2.0:assertion".to_owned());
        x.set_text(Some(self.value.clone()));
        proof {
            assert(x@.attributes =~= self.spec_node().attributes);
            assert(x@.children =~= self.spec_node().children);
        }
        x
    }

    pub fn value(&self) -> (r: &String)
        ensures
            *r == self.value,
    {
        &self.value
    }

    pub fn set_value(&mut self, value: String)
        ensures
            *final(self) == (Audience { value, ..*old(self) }),
    {
        self.value = value;
    }

    /// The value survives being written and read back: versions are known
    /// ones, timestamps read back as themselves, kept nodes carry the name
    /// of their slot and open content stays clear of the names read here.
    pub open spec fn wf(self) -> bool
    {
        true
    }

    /// Writing the element and reading the node back gives the element again.
    pub proof fn lemma_round_trip(self)
        requires
            self.wf(),
        ensures
            Self::valid_node(self.spec_node()),
            self.matches(self.spec_node()),
    {
        let n = self.spec_node();
    }

}

impl Element for Audience {
    open spec fn node_ok(n: Node) -> bool {
        Self::valid_node(n)
    }

    open spec fn node_matches(self, n: Node) -> bool {
        self.matches(n)
    }

    open spec fn node_spec(self) -> Node {
        self.spec_node()
    }

    fn read(obj: &XmlObject) -> (r: Result<Self, SAMLError>) {
        Self::try_from_xml(obj)
    }

    fn write(&self) -> (r: XmlObject) {
        self.to_xml()
    }
}

} // verus!
