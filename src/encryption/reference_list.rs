use vstd::prelude::*;

use crate::error::SAMLError;
use crate::schema::fields::group_binding;
use crate::schema::binding::{raw_child_vec, write_raw_vec, Element};
use crate::xml::q_name::QNameView;
use crate::xml::{lemma_nodes_of, nodes_of, Node, Pair, XmlObject};

verus! {

broadcast use group_binding;

/// References to the data that a key encrypts.
#[derive(Debug)]
pub struct ReferenceList {
    pub indexed_children: Vec<XmlObject>,
}

impl ReferenceList {
    pub const ELEMENT_NAME: &'static str = "ReferenceList";
    pub const NS_PREFIX: &'static str = "xenc";
    pub const NS_URI: &'static str = "http://www.w3.org/2001/04/xmlenc#";

    /// The node can be read as this element: every typed value parses,
    /// required parts are present and every known child can be read.
    pub open spec fn valid_node(n: Node) -> bool
    {
        true
    }

    /// The element holds what the node says.
    pub open spec fn matches(self, n: Node) -> bool
    {
        nodes_of(self.indexed_children@) == n.children
    }

    /// The node that the element is written as.
    pub open spec fn spec_node(self) -> Node
    {
        Node {
            name: QNameView { namespace_uri: Some("http://www.w3.org/2001/04/xmlenc#"@), local_name: "ReferenceList"@, prefix: Some("xenc"@) },
            attributes: Seq::<Pair>::empty(),
            namespaces: seq![("xenc"@, "http://www.w3.org/2001/04/xmlenc#"@)],
            text: None,
            children: Seq::<Node>::empty() + nodes_of(self.indexed_children@),
        }
    }

    /// Reads the element from a node: the last occurrence of an attribute
    /// or of a single-valued child wins, repeated children are kept in
    /// order, and the first part that cannot be read fails the whole element.
    #[verifier::loop_isolation(false)]
    pub fn try_from_xml(obj: &XmlObject) -> (r: Result<ReferenceList, SAMLError>)
        ensures
            r is Ok <==> Self::valid_node(obj@),
            r is Ok ==> r->Ok_0.matches(obj@),
            r is Err ==> r->Err_0 is UnmarshallingError,
    {
        let children = obj.children();
        let v_indexed_children = raw_child_vec(children, None);
        Ok(ReferenceList {
            indexed_children: v_indexed_children,
        })
    }

    /// Writes the element as a node: its name in its namespace, the
    /// attributes that are set, its text and its children.
    pub fn to_xml(&self) -> (r: XmlObject)
        ensures
            r@ == self.spec_node(),
    {
        let mut x = XmlObject::new(Some("http://www.w3.org/2001/04/xmlenc#".to_owned()), "ReferenceList".to_owned(), Some("xenc".to_owned()));
        x.add_namespace("xenc".to_owned(), "http://www.w3.org/2001/04/xmlenc#".to_owned());
        write_raw_vec(&mut x, &self.indexed_children);
        proof {
            assert(x@.attributes =~= self.spec_node().attributes);
            assert(x@.children =~= self.spec_node().children);
        }
        x
    }

    pub fn indexed_children(&self) -> (r: &Vec<XmlObject>)
        ensures
            *r == self.indexed_children,
    {
        &self.indexed_children
    }

    /// The value survives being written and read back: versions are known
    /// ones, timestamps read back as themselves, kept nodes carry the name
    /// of their slot and open content stays clear of the names read here.
    pub open spec fn wf(self) -> bool
    {
        true
    }

    /// Writing the element and reading the node back gives the element again.
    pub proof fn lemma_round_trip(self)
        requires
            self.wf(),
        ensures
            Self::valid_node(self.spec_node()),
            self.matches(self.spec_node()),
    {
        let n = self.spec_node();
        let part1 = nodes_of(self.indexed_children@);
        assert(n.children =~= part1);
        lemma_nodes_of(self.indexed_children@);
    }

}

impl Element for ReferenceList {
    open spec fn node_ok(n: Node) -> bool {
        Self::valid_node(n)
    }

    open spec fn node_matches(self, n: Node) -> bool {
        self.matches(n)
    }

    open spec fn node_spec(self) -> Node {
        self.spec_node()
    }

    fn read(obj: &XmlObject) -> (r: Result<Self, SAMLError>) {
        Self::try_from_xml(obj)
    }

    fn write(&self) -> (r: XmlObject) {
        self.to_xml()
    }
}

} // verus!
