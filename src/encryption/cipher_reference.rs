use vstd::prelude::*;

use crate::error::SAMLError;
use crate::schema::fields::{attr_last, group_binding, lemma_named_all, named, opt_nodes, push_attr, push_node};
use crate::schema::binding::{read_opt_child, read_str_attr, write_opt_attr, write_opt_child, Element};
use crate::xml::q_name::{clone_opt, opt_view, QNameView};
use crate::xml::{Node, Pair, XmlObject};
use crate::encryption::transforms::Transforms;

verus! {

broadcast use group_binding;

/// Where encrypted octets are found.
#[derive(Debug)]
pub struct CipherReference {
    pub uri: Option<String>,
    pub transforms: Option<Transforms>,
}

impl CipherReference {
    pub const ELEMENT_NAME: &'static str = "CipherReference";
    pub const NS_PREFIX: &'static str = "xenc";
    pub const NS_URI: &'static str = "http://www.w3.org/2001/04/xmlenc#";

    /// The node can be read as this element: every typed value parses,
    /// required parts are present and every known child can be read.
    pub open spec fn valid_node(n: Node) -> bool
    {
        (forall|m: int| 0 <= m < named(n.children, "Transforms"@).len() ==> Transforms::valid_node(#[trigger] named(n.children, "Transforms"@)[m]))
    }

    /// The element holds what the node says.
    pub open spec fn matches(self, n: Node) -> bool
    {
        (match attr_last(n.attributes, "URI"@) { Some(t) => self.uri is Some && self.uri->0@ == t, None => self.uri is None })
        && (if named(n.children, "Transforms"@).len() > 0 { self.transforms is Some && self.transforms->0.matches(named(n.children, "Transforms"@).last()) } else { self.transforms is None })
    }

    /// The node that the element is written as.
    pub open spec fn spec_node(self) -> Node
    {
        Node {
            name: QNameView { namespace_uri: Some("http://www.w3.org/2001/04/xmlenc#"@), local_name: "CipherReference"@, prefix: Some("xenc"@) },
            attributes: push_attr(Seq::<Pair>::empty(), "URI"@, opt_view(self.uri)),
            namespaces: seq![("xenc"@, "http://www.w3.org/2001/04/xmlenc#"@)],
            text: None,
            children: push_node(Seq::<Node>::empty(), match self.transforms { Some(c) => Some(c.spec_node()), None => None }),
        }
    }

    /// Reads the element from a node: the last occurrence of an attribute
    /// or of a single-valued child wins, repeated children are kept in
    /// order, and the first part that cannot be read fails the whole element.
    #[verifier::loop_isolation(false)]
    pub fn try_from_xml(obj: &XmlObject) -> (r: Result<CipherReference, SAMLError>)
        ensures
            r is Ok <==> Self::valid_node(obj@),
            r is Ok ==> r->Ok_0.matches(obj@),
            r is Err ==> r->Err_0 is UnmarshallingError,
    {
        let attrs = obj.attributes();
        let v_uri = read_str_attr(attrs, "URI");
        let children = obj.children();
        let v_transforms = match read_opt_child::<Transforms>(children, "Transforms") {
            Ok(v) => v,
            Err(err) => {
                return Err(err);
            },
        };
        Ok(CipherReference {
            uri: v_uri,
            transforms: v_transforms,
        })
    }

    /// Writes the element as a node: its name in its namespace, the
    /// attributes that are set, its text and its children.
    pub fn to_xml(&self) -> (r: XmlObject)
        ensures
            r@ == self.spec_node(),
    {
        let mut x = XmlObject::new(Some("http://www.w3.org/2001/04/xmlenc#".to_owned()), "CipherReference".to_owned(), Some("xenc".to_owned()));
        x.add_namespace("xenc".to_owned(), "http://www.w3.org/2001/04/xmlenc#".to_owned());
        write_opt_attr(&mut x, "URI", clone_opt(&self.uri));
        write_opt_child(&mut x, &self.transforms);
        proof {
            assert(x@.attributes =~= self.spec_node().attributes);
            assert(x@.children =~= self.spec_node().children);
        }
        x
    }

    pub fn uri(&self) -> (r: Option<&String>)
        ensures
            r is Some <==> self.uri is Some,
            r is Some ==> *r->0 == self.uri->0,
    {
        self.uri.as_ref()
    }

    pub fn set_uri(&mut self, uri: Option<String>)
        ensures
            *final(self) == (CipherReference { uri, ..*old(self) }),
    {
        self.uri = uri;
    }

    pub fn transforms(&self) -> (r: Option<&Transforms>)
        ensures
            r is Some <==> self.transforms is Some,
            r is Some ==> *r->0 == self.transforms->0,
    {
        self.transforms.as_ref()
    }

    pub fn set_transforms(&mut self, transforms: Option<Transforms>)
        ensures
            *final(self) == (CipherReference { transforms, ..*old(self) }),
    {
        self.transforms = transforms;
    }

    /// The value survives being written and read back: versions are known
    /// ones, timestamps read back as themselves, kept nodes carry the name
    /// of their slot and open content stays clear of the names read here.
    pub open spec fn wf(self) -> bool
    {
        (match self.transforms { Some(v) => v.wf(), None => true })
    }

    /// Writing the element and reading the node back gives the element again.
    pub proof fn lemma_round_trip(self)
        requires
            self.wf(),
        ensures
            Self::valid_node(self.spec_node()),
            self.matches(self.spec_node()),
    {
        let n = self.spec_node();
        let part1 = opt_nodes(match self.transforms { Some(c) => Some(c.spec_node()), None => None });
        assert(n.children =~= part1);
        {
            lemma_named_all(part1, "Transforms"@);
            assert(named(n.children, "Transforms"@) =~= named(part1, "Transforms"@));
        }
        match self.transforms {
            Some(v) => v.lemma_round_trip(),
            None => {},
        }
    }

}

impl Element for CipherReference {
    open spec fn node_ok(n: Node) -> bool {
        Self::valid_node(n)
    }

    open spec fn node_matches(self, n: Node) -> bool {
        self.matches(n)
    }

    open spec fn node_spec(self) -> Node {
        self.spec_node()
    }

    fn read(obj: &XmlObject) -> (r: Result<Self, SAMLError>) {
        Self::try_from_xml(obj)
    }

    fn write(&self) -> (r: XmlObject) {
        self.to_xml()
    }
}

} // verus!
