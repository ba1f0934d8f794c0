use vstd::prelude::*;

use crate::error::SAMLError;
use crate::schema::fields::{group_binding, lemma_named_all, named};
use crate::schema::binding::{read_child_vec, write_child_vec, Element};
use crate::xml::q_name::QNameView;
use crate::xml::{Node, Pair, XmlObject};
use crate::signature::transform::Transform;

verus! {

broadcast use group_binding;

/// A chain of transforms.
#[derive(Debug)]
pub struct Transforms {
    pub transforms: Vec<Transform>,
}

impl Transforms {
    pub const ELEMENT_NAME: &'static str = "Transforms";
    pub const NS_PREFIX: &'static str = "xenc";
    pub const NS_URI: &'static str = "http://www.w3.org/2001/04/xmlenc#";

    /// The node can be read as this element: every typed value parses,
    /// required parts are present and every known child can be read.
    pub open spec fn valid_node(n: Node) -> bool
    {
        (forall|m: int| 0 <= m < named(n.children, "Transform"@).len() ==> Transform::valid_node(#[trigger] named(n.children, "Transform"@)[m]))
    }

    /// The element holds what the node says.
    pub open spec fn matches(self, n: Node) -> bool
    {
        self.transforms@.len() == named(n.children, "Transform"@).len()
        && (forall|m: int| 0 <= m < self.transforms@.len() ==> #[trigger] self.transforms@[m].matches(named(n.children, "Transform"@)[m]))
    }

    /// The node that the element is written as.
    pub open spec fn spec_node(self) -> Node
    {
        Node {
            name: QNameView { namespace_uri: Some("http://www.w3.org/2001/04/xmlenc#"@), local_name: "Transforms"@, prefix: Some("xenc"@) },
            attributes: Seq::<Pair>::empty(),
            namespaces: seq![("xenc"@, "http://www.w3.org/2001/04/xmlenc#"@)],
            text: None,
            children: Seq::<Node>::empty() + self.transforms@.map_values(|c: Transform| c.node_spec()),
        }
    }

    /// Reads the element from a node: the last occurrence of an attribute
    /// or of a single-valued child wins, repeated children are kept in
    /// order, and the first part that cannot be read fails the whole element.
    #[verifier::loop_isolation(false)]
    pub fn try_from_xml(obj: &XmlObject) -> (r: Result<Transforms, SAMLError>)
        ensures
            r is Ok <==> Self::valid_node(obj@),
            r is Ok ==> r->Ok_0.matches(obj@),
            r is Err ==> r->Err_0 is UnmarshallingError,
    {
        let children = obj.children();
        let v_transforms = match read_child_vec::<Transform>(children, "Transform") {
            Ok(v) => v,
            Err(err) => {
                return Err(err);
            },
        };
        Ok(Transforms {
            transforms: v_transforms,
        })
    }

    /// Writes the element as a node: its name in its namespace, the
    /// attributes that are set, its text and its children.
    pub fn to_xml(&self) -> (r: XmlObject)
        ensures
            r@ == self.spec_node(),
    {
        let mut x = XmlObject::new(Some("http://www.w3.org/2001/04/xmlenc#".to_owned()), "Transforms".to_owned(), Some("xenc".to_owned()));
        x.add_namespace("xenc".to_owned(), "http://www.w3.org/2001/04/xmlenc#".to_owned());
        write_child_vec(&mut x, &self.transforms);
        proof {
            assert(x@.attributes =~= self.spec_node().attributes);
            assert(x@.children =~= self.spec_node().children);
        }
        x
    }

    pub fn transforms(&self) -> (r: &Vec<Transform>)
        ensures
            *r == self.transforms,
    {
        &self.transforms
    }

    pub fn add_transform(&mut self, item: Transform)
        ensures
            final(self).transforms@ == old(self).transforms@.push(item),
    {
        self.transforms.push(item);
    }

    /// The value survives being written and read back: versions are known
    /// ones, timestamps read back as themselves, kept nodes carry the name
    /// of their slot and open content stays clear of the names read here.
    pub open spec fn wf(self) -> bool
    {
        (forall|m: int| 0 <= m < self.transforms@.len() ==> (#[trigger] self.transforms@[m]).wf())
    }

    /// Writing the element and reading the node back gives the element again.
    pub proof fn lemma_round_trip(self)
        requires
            self.wf(),
        ensures
            Self::valid_node(self.spec_node()),
            self.matches(self.spec_node()),
    {
        let n = self.spec_node();
        let part1 = self.transforms@.map_values(|c: Transform| c.node_spec());
        assert(n.children =~= part1);
        {
            lemma_named_all(part1, "Transform"@);
            assert(named(n.children, "Transform"@) =~= named(part1, "Transform"@));
        }
        assert forall|m: int| 0 <= m < self.transforms@.len() implies Transform::valid_node(#[trigger] self.transforms@[m].spec_node()) && self.transforms@[m].matches(self.transforms@[m].spec_node()) by {
            self.transforms@[m].lemma_round_trip();
        }
    }

}

impl Element for Transforms {
    open spec fn node_ok(n: Node) -> bool {
        Self::valid_node(n)
    }

    open spec fn node_matches(self, n: Node) -> bool {
        self.matches(n)
    }

    open spec fn node_spec(self) -> Node {
        self.spec_node()
    }

    fn read(obj: &XmlObject) -> (r: Result<Self, SAMLError>) {
        Self::try_from_xml(obj)
    }

    fn write(&self) -> (r: XmlObject) {
        self.to_xml()
    }
}

} // verus!
