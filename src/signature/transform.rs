use vstd::prelude::*;

use crate::error::SAMLError;
use crate::schema::fields::{attr_last, group_binding};
use crate::schema::binding::{raw_child_vec, read_str_attr, write_raw_vec, Element};
use crate::xml::q_name::QNameView;
use crate::xml::{lemma_nodes_of, nodes_of, Node, Pair, XmlObject};

verus! {

broadcast use group_binding;

/// One step of a transform chain.
#[derive(Debug)]
pub struct Transform {
    pub algorithm: String,
    pub indexed_children: Vec<XmlObject>,
}

impl Transform {
    pub const ELEMENT_NAME: &'static str = "Transform";
    pub const NS_PREFIX: &'static str = "ds";
    pub const NS_URI: &'static str = "http://www.w3.org/2000/09/xmldsig#";

    /// The node can be read as this element: every typed value parses,
    /// required parts are present and every known child can be read.
    pub open spec fn valid_node(n: Node) -> bool
    {
        attr_last(n.attributes, "Algorithm"@) is Some
    }

    /// The element holds what the node says.
    pub open spec fn matches(self, n: Node) -> bool
    {
        attr_last(n.attributes, "Algorithm"@) == Some(self.algorithm@)
        && nodes_of(self.indexed_children@) == n.children
    }

    /// The node that the element is written as.
    pub open spec fn spec_node(self) -> Node
    {
        Node {
            name: QNameView { namespace_uri: Some("http://www.w3.org/2000/09/xmldsig#"@), local_name: "Transform"@, prefix: Some("ds"@) },
            attributes: Seq::<Pair>::empty().push(("Algorithm"@, self.algorithm@)),
            namespaces: seq![("ds"@, "http://www.w3.org/2000/09/xmldsig#"@)],
            text: None,
            children: Seq::<Node>::empty() + nodes_of(self.indexed_children@),
        }
    }

    /// Reads the element from a node: the last occurrence of an attribute
    /// or of a single-valued child wins, repeated children are kept in
    /// order, and the first part that cannot be read fails the whole element.
    #[verifier::loop_isolation(false)]
    pub fn try_from_xml(obj: &XmlObject) -> (r: Result<Transform, SAMLError>)
        ensures
            r is Ok <==> Self::valid_node(obj@),
            r is Ok ==> r->Ok_0.matches(obj@),
            r is Err ==> r->Err_0 is UnmarshallingError,
    {
        let attrs = obj.attributes();
        let v_algorithm = read_str_attr(attrs, "Algorithm");
        let f_algorithm = match v_algorithm {
            Some(x) => x,
            None => {
                return Err(SAMLError::unmarshalling("missing attribute Algorithm"));
            },
        };
        let children = obj.children();
        let v_indexed_children = raw_child_vec(children, None);
        Ok(Transform {
            algorithm: f_algorithm,
            indexed_children: v_indexed_children,
        })
    }

    /// Writes the element as a node: its name in its namespace, the
    /// attributes that are set, its text and its children.
    pub fn to_xml(&self) -> (r: XmlObject)
        ensures
            r@ == self.spec_node(),
    {
        let mut x = XmlObject::new(Some("http://www.w3.org/2000/09/xmldsig#".to_owned()), "Transform".to_owned(), Some("ds".to_owned()));
        x.add_namespace("ds".to_owned(), "http://www.w3.org/2000/09/xmldsig#".to_owned());
        x.add_attribute("Algorithm".to_owned(), self.algorithm.clone());
        write_raw_vec(&mut x, &self.indexed_children);
        proof {
            assert(x@.attributes =~= self.spec_node().attributes);
            assert(x@.children =~= self.spec_node().children);
        }
        x
    }

    pub fn algorithm(&self) -> (r: &String)
        ensures
            *r == self.algorithm,
    {
        &self.algorithm
    }

    pub fn set_algorithm(&mut self, algorithm: String)
        ensures
            *final(self) == (Transform { algorithm, ..*old(self) }),
    {
        self.algorithm = algorithm;
    }

    pub fn indexed_children(&self) -> (r: &Vec<XmlObject>)
        ensures
            *r == self.indexed_children,
    {
        &self.indexed_children
    }

    /// The value survives being written and read back: versions are known
    /// ones, timestamps read back as themselves, kept nodes carry the name
    /// of their slot and open content stays clear of the names read here.
    pub open spec fn wf(self) -> bool
    {
        true
    }

    /// Writing the element and reading the node back gives the element again.
    pub proof fn lemma_round_trip(self)
        requires
            self.wf(),
        ensures
            Self::valid_node(self.spec_node()),
            self.matches(self.spec_node()),
    {
        let n = self.spec_node();
        let part1 = nodes_of(self.indexed_children@);
        assert(n.children =~= part1);
        lemma_nodes_of(self.indexed_children@);
    }

}

impl Element for Transform {
    open spec fn node_ok(n: Node) -> bool {
        Self::valid_node(n)
    }

    open spec fn node_matches(self, n: Node) -> bool {
        self.matches(n)
    }

    open spec fn node_spec(self) -> Node {
        self.spec_node()
    }

    fn read(obj: &XmlObject) -> (r: Result<Self, SAMLError>) {
        Self::try_from_xml(obj)
    }

    fn write(&self) -> (r: XmlObject) {
        self.to_xml()
    }
}

} // verus!
