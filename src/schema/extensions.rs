use vstd::prelude::*;

use crate::error::SAMLError;
use crate::schema::fields::{group_binding, lemma_filter_all, lemma_filter_none};
use crate::schema::binding::Element;
use crate::xml::q_name::QNameView;
use crate::xml::{lemma_nodes_of, lemma_nodes_of_push, nodes_of, pairs_view, Node, Pair, XmlObject};

verus! {

broadcast use group_binding;

/// Vendor extensions of a protocol message, kept as they were read.
#[derive(Debug)]
pub struct Extensions {
    pub unknown_children: Vec<XmlObject>,
    pub unknown_attributes: Vec<(String, String)>,
}

impl Extensions {
    pub const ELEMENT_NAME: &'static str = "Extensions";
    pub const NS_PREFIX: &'static str = "saml2p";
    pub const NS_URI: &'static str = "urn:oasis:names:tc:SAML:2.0:protocol";

    /// Attribute names that the element reads itself.
    pub open spec fn known_attr(k: Seq<char>) -> bool {
        false
    }

    /// The node can be read as this element: every typed value parses,
    /// required parts are present and every known child can be read.
    pub open spec fn valid_node(n: Node) -> bool
    {
        true
    }

    /// The element holds what the node says.
    pub open spec fn matches(self, n: Node) -> bool
    {
        pairs_view(self.unknown_attributes@) == n.attributes.filter(|p: Pair| !Self::known_attr(p.0))
        && nodes_of(self.unknown_children@) == n.children
    }

    /// The node that the element is written as.
    pub open spec fn spec_node(self) -> Node
    {
        Node {
            name: QNameView { namespace_uri: Some("urn:oasis:names:tc:SAML:2.0:protocol"@), local_name: "Extensions"@, prefix: Some("saml2p"@) },
            attributes: Seq::<Pair>::empty() + pairs_view(self.unknown_attributes@),
            namespaces: seq![("saml2p"@, "urn:oasis:names:tc:SAML:2.0:protocol"@)],
            text: None,
            children: Seq::<Node>::empty() + nodes_of(self.unknown_children@),
        }
    }

    /// Reads the element from a node: the last occurrence of an attribute
    /// or of a single-valued child wins, repeated children are kept in
    /// order, and the first part that cannot be read fails the whole element.
    #[verifier::loop_isolation(false)]
    pub fn try_from_xml(obj: &XmlObject) -> (r: Result<Extensions, SAMLError>)
        ensures
            r is Ok <==> Self::valid_node(obj@),
            r is Ok ==> r->Ok_0.matches(obj@),
            r is Err ==> r->Err_0 is UnmarshallingError,
    {
        let attrs = obj.attributes();
        let ghost av = obj@.attributes;
        let mut v_unknown_attributes: Vec<(String, String)> = Vec::new();
        let mut i: usize = 0;
        while i < attrs.len()
            invariant
                0 <= i <= attrs.len(),
                pairs_view(attrs@) == av,
                pairs_view(v_unknown_attributes@) == av.take(i as int).filter(|p: Pair| !Self::known_attr(p.0)),
            decreases attrs.len() - i,
        {
            let key = &attrs[i].0;
            let value = &attrs[i].1;
            proof {
                assert(av.take(i + 1) =~= av.take(i as int).push(av[i as int]));
                assert(av[i as int] == (key@, value@));
            }
            {
                let ghost before = v_unknown_attributes@;
                v_unknown_attributes.push((key.clone(), value.clone()));
                proof {
                    assert(pairs_view(v_unknown_attributes@) =~= pairs_view(before).push((key@, value@)));
                }
            }
            i = i + 1;
        }
        proof {
            assert(av.take(attrs.len() as int) =~= av);
        }
        let children = obj.children();
        let ghost cv = obj@.children;
        proof {
            lemma_nodes_of(children@);
        }
        let mut v_unknown_children: Vec<XmlObject> = Vec::new();
        let mut j: usize = 0;
        while j < children.len()
            invariant
                0 <= j <= children.len(),
                nodes_of(children@) == cv,
                cv.len() == children.len(),
                nodes_of(v_unknown_children@) == cv.take(j as int),
            decreases children.len() - j,
        {
            let child = &children[j];
            proof {
                assert(cv.take(j + 1) =~= cv.take(j as int).push(cv[j as int]));
                assert(cv[j as int] == child@);
            }
            {
                let x = child.deep_copy();
                proof {
                    lemma_nodes_of_push(v_unknown_children@, x);
                }
                v_unknown_children.push(x);
            }
            j = j + 1;
        }
        proof {
            assert(cv.take(children.len() as int) =~= cv);
        }
        Ok(Extensions {
            unknown_children: v_unknown_children,
            unknown_attributes: v_unknown_attributes,
        })
    }

    /// Writes the element as a node: its name in its namespace, the
    /// attributes that are set, its text and its children.
    pub fn to_xml(&self) -> (r: XmlObject)
        ensures
            r@ == self.spec_node(),
    {
        let mut x = XmlObject::new(Some("urn:oasis:names:tc:SAML:2.0:protocol".to_owned()), "Extensions".to_owned(), Some("saml2p".to_owned()));
        x.add_namespace("saml2p".to_owned(), "urn:oasis:names:tc:SAML:2.0:protocol".to_owned());
        let ghost pre = x@;
        let mut k: usize = 0;
        while k < self.unknown_attributes.len()
            invariant
                0 <= k <= self.unknown_attributes.len(),
                x@ == (Node { attributes: pre.attributes + pairs_view(self.unknown_attributes@.take(k as int)), ..pre }),
            decreases self.unknown_attributes.len() - k,
        {
            x.add_attribute(self.unknown_attributes[k].0.clone(), self.unknown_attributes[k].1.clone());
            proof {
                assert(pre.attributes + pairs_view(self.unknown_attributes@.take(k + 1)) =~= (pre.attributes + pairs_view(self.unknown_attributes@.take(k as int))).push((self.unknown_attributes@[k as int].0@, self.unknown_attributes@[k as int].1@)));
            }
            k = k + 1;
        }
        proof {
            assert(self.unknown_attributes@.take(k as int) =~= self.unknown_attributes@);
        }
        let ghost pre = x@;
        let mut k: usize = 0;
        while k < self.unknown_children.len()
            invariant
                0 <= k <= self.unknown_children.len(),
                x@ == (Node { children: pre.children + nodes_of(self.unknown_children@.take(k as int)), ..pre }),
            decreases self.unknown_children.len() - k,
        {
            let y = self.unknown_children[k].deep_copy();
            x.add_child(y);
            proof {
                lemma_nodes_of_push(self.unknown_children@.take(k as int), self.unknown_children@[k as int]);
                assert(self.unknown_children@.take(k + 1) =~= self.unknown_children@.take(k as int).push(self.unknown_children@[k as int]));
                assert(pre.children + nodes_of(self.unknown_children@.take(k + 1)) =~= (pre.children + nodes_of(self.unknown_children@.take(k as int))).push(y@));
            }
            k = k + 1;
        }
        proof {
            assert(self.unknown_children@.take(k as int) =~= self.unknown_children@);
        }
        proof {
            assert(x@.attributes =~= self.spec_node().attributes);
            assert(x@.children =~= self.spec_node().children);
        }
        x
    }

    pub fn unknown_children(&self) -> (r: &Vec<XmlObject>)
        ensures
            *r == self.unknown_children,
    {
        &self.unknown_children
    }

    pub fn unknown_attributes(&self) -> (r: &Vec<(String, String)>)
        ensures
            *r == self.unknown_attributes,
    {
        &self.unknown_attributes
    }

    /// The value survives being written and read back: versions are known
    /// ones, timestamps read back as themselves, kept nodes carry the name
    /// of their slot and open content stays clear of the names read here.
    pub open spec fn wf(self) -> bool
    {
        (forall|i: int| 0 <= i < self.unknown_attributes@.len() ==> !Self::known_attr((#[trigger] self.unknown_attributes@[i]).0@))
    }

    /// Writing the element and reading the node back gives the element again.
    pub proof fn lemma_round_trip(self)
        requires
            self.wf(),
        ensures
            Self::valid_node(self.spec_node()),
            self.matches(self.spec_node()),
    {
        let n = self.spec_node();
        let base = Seq::<Pair>::empty();
        let extra = pairs_view(self.unknown_attributes@);
        assert(n.attributes == base + extra);
        assert forall|i: int| 0 <= i < extra.len() implies !Self::known_attr((#[trigger] extra[i]).0) by {
            assert(extra[i].0 == self.unknown_attributes@[i].0@);
        }
        assert forall|i: int| 0 <= i < base.len() implies Self::known_attr((#[trigger] base[i]).0) by {}
        lemma_filter_none(base, |p: Pair| !Self::known_attr(p.0));
        lemma_filter_all(extra, |p: Pair| !Self::known_attr(p.0));
        assert(n.attributes.filter(|p: Pair| !Self::known_attr(p.0)) == base.filter(|p: Pair| !Self::known_attr(p.0)) + extra.filter(|p: Pair| !Self::known_attr(p.0)));
        assert(base.filter(|p: Pair| !Self::known_attr(p.0)) + extra =~= extra);
        let part1 = nodes_of(self.unknown_children@);
        assert(n.children =~= part1);
        lemma_nodes_of(self.unknown_children@);
    }

}

impl Element for Extensions {
    open spec fn node_ok(n: Node) -> bool {
        Self::valid_node(n)
    }

    open spec fn node_matches(self, n: Node) -> bool {
        self.matches(n)
    }

    open spec fn node_spec(self) -> Node {
        self.spec_node()
    }

    fn read(obj: &XmlObject) -> (r: Result<Self, SAMLError>) {
        Self::try_from_xml(obj)
    }

    fn write(&self) -> (r: XmlObject) {
        self.to_xml()
    }
}

} // verus!
