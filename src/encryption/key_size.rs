use vstd::prelude::*;

use crate::error::SAMLError;
use crate::schema::fields::group_binding;
use crate::schema::values::{decimal_text, format_u32, lemma_unsigned_round_trip, parse_u32, u32_of};
use crate::schema::binding::Element;
use crate::xml::q_name::QNameView;
use crate::xml::{Node, Pair, XmlObject};

verus! {

broadcast use group_binding;

/// The key size of an encryption method, in bits.
#[derive(Debug)]
pub struct KeySize {
    pub value: u32,
}

impl KeySize {
    pub const ELEMENT_NAME: &'static str = "KeySize";
    pub const NS_PREFIX: &'static str = "xenc";
    pub const NS_URI: &'static str = "http://www.w3.org/2001/04/xmlenc#";

    /// The node can be read as this element: every typed value parses,
    /// required parts are present and every known child can be read.
    pub open spec fn valid_node(n: Node) -> bool
    {
        n.text is Some
        && u32_of(n.text->0) is Some
    }

    /// The element holds what the node says.
    pub open spec fn matches(self, n: Node) -> bool
    {
        n.text is Some && self.value == u32_of(n.text->0)->0
    }

    /// The node that the element is written as.
    pub open spec fn spec_node(self) -> Node
    {
        Node {
            name: QNameView { namespace_uri: Some("http://www.w3.org/2001/04/xmlenc#"@), local_name: "KeySize"@, prefix: Some("xenc"@) },
            attributes: Seq::<Pair>::empty(),
            namespaces: seq![("xenc"@, "http://www.w3.org/2001/04/xmlenc#"@)],
            text: Some(decimal_text(self.value as nat)),
            children: Seq::<Node>::empty(),
        }
    }

    /// Reads the element from a node: the last occurrence of an attribute
    /// or of a single-valued child wins, repeated children are kept in
    /// order, and the first part that cannot be read fails the whole element.
    #[verifier::loop_isolation(false)]
    pub fn try_from_xml(obj: &XmlObject) -> (r: Result<KeySize, SAMLError>)
        ensures
            r is Ok <==> Self::valid_node(obj@),
            r is Ok ==> r->Ok_0.matches(obj@),
            r is Err ==> r->Err_0 is UnmarshallingError,
    {
        let f_value = match obj.text() {
            Some(s) => match parse_u32(s) {
                Some(x) => x,
                None => {
                    return Err(SAMLError::unmarshalling("invalid text of KeySize"));
                },
            },
            None => {
                return Err(SAMLError::unmarshalling("missing text of KeySize"));
            },
        };
        Ok(KeySize {
            value: f_value,
        })
    }

    /// Writes the element as a node: its name in its namespace, the
    /// attributes that are set, its text and its children.
    pub fn to_xml(&self) -> (r: XmlObject)
        ensures
            r@ == self.spec_node(),
    {
        let mut x = XmlObject::new(Some("http://www.w3.org/2001/04/xmlenc#".to_owned()), "KeySize".to_owned(), Some("xenc".to_owned()));
        x.add_namespace("xenc".to_owned(), "http://www.w3.org/2001/04/xmlenc#".to_owned());
        x.set_text(Some(format_u32(self.value)));
        proof {
            assert(x@.attributes =~= self.spec_node().attributes);
            assert(x@.children =~= self.spec_node().children);
        }
        x
    }

    pub fn value(&self) -> (r: &u32)
        ensures
            *r == self.value,
    {
        &self.value
    }

    pub fn set_value(&mut self, value: u32)
        ensures
            *final(self) == (KeySize { value, ..*old(self) }),
    {
        self.value = value;
    }

    /// The value survives being written and read back: versions are known
    /// ones, timestamps read back as themselves, kept nodes carry the name
    /// of their slot and open content stays clear of the names read here.
    pub open spec fn wf(self) -> bool
    {
        true
    }

    /// Writing the element and reading the node back gives the element again.
    pub proof fn lemma_round_trip(self)
        requires
            self.wf(),
        ensures
            Self::valid_node(self.spec_node()),
            self.matches(self.spec_node()),
    {
        let n = self.spec_node();
        lemma_unsigned_round_trip(self.value as nat);
    }

}

impl Element for KeySize {
    open spec fn node_ok(n: Node) -> bool {
        Self::valid_node(n)
    }

    open spec fn node_matches(self, n: Node) -> bool {
        self.matches(n)
    }

    open spec fn node_spec(self) -> Node {
        self.spec_node()
    }

    fn read(obj: &XmlObject) -> (r: Result<Self, SAMLError>) {
        Self::try_from_xml(obj)
    }

    fn write(&self) -> (r: XmlObject) {
        self.to_xml()
    }
}

} // verus!
