use vstd::prelude::*;

use crate::error::SAMLError;
use crate::schema::fields::{group_binding, lemma_named_all, named};
use crate::schema::binding::{read_child_vec, write_child_vec, Element};
use crate::xml::q_name::QNameView;
use crate::xml::{Node, Pair, XmlObject};
use crate::schema::audience::Audience;

verus! {

broadcast use group_binding;

/// Limits an assertion to the listed audiences.
#[derive(Debug)]
pub struct AudienceRestriction {
    pub audiences: Vec<Audience>,
}

impl AudienceRestriction {
    pub const ELEMENT_NAME: &'static str = "AudienceRestriction";
    pub const NS_PREFIX: &'static str = "saml2";
    pub const NS_URI: &'static str = "urn:oasis:names:tc:SAML:2.0:assertion";

    /// The node can be read as this element: every typed value parses,
    /// required parts are present and every known child can be read.
    pub open spec fn valid_node(n: Node) -> bool
    {
        (forall|m: int| 0 <= m < named(n.children, "Audience"@).len() ==> Audience::valid_node(#[trigger] named(n.children, "Audience"@)[m]))
    }

    /// The element holds what the node says.
    pub open spec fn matches(self, n: Node) -> bool
    {
        self.audiences@.len() == named(n.children, "Audience"@).len()
        && (forall|m: int| 0 <= m < self.audiences@.len() ==> #[trigger] self.audiences@[m].matches(named(n.children, "Audience"@)[m]))
    }

    /// The node that the element is written as.
    pub open spec fn spec_node(self) -> Node
    {
        Node {
            name: QNameView { namespace_uri: Some("urn:oasis:names:tc:SAML:2.0:assertion"@), local_name: "AudienceRestriction"@, prefix: Some("saml2"@) },
            attributes: Seq::<Pair>::empty(),
            namespaces: seq![("saml2"@, "urn:oasis:names:tc:SAML:2.0:assertion"@)],
            text: None,
            children: Seq::<Node>::empty() + self.audiences@.map_values(|c: Audience| c.node_spec()),
        }
    }

    /// Reads the element from a node: the last occurrence of an attribute
    /// or of a single-valued child wins, repeated children are kept in
    /// order, and the first part that cannot be read fails the whole element.
    #[verifier::loop_isolation(false)]
    pub fn try_from_xml(obj: &XmlObject) -> (r: Result<AudienceRestriction, SAMLError>)
        ensures
            r is Ok <==> Self::valid_node(obj@),
            r is Ok ==> r->Ok_0.matches(obj@),
            r is Err ==> r->Err_0 is UnmarshallingError,
    {
        let children = obj.children();
        let v_audiences = match read_child_vec::<Audience>(children, "Audience") {
            Ok(v) => v,
            Err(err) => {
                return Err(err);
            },
        };
        Ok(AudienceRestriction {
            audiences: v_audiences,
        })
    }

    /// Writes the element as a node: its name in its namespace, the
    /// attributes that are set, its text and its children.
    pub fn to_xml(&self) -> (r: XmlObject)
        ensures
            r@ == self.spec_node(),
    {
        let mut x = XmlObject::new(Some("urn:oasis:names:tc:SAML:2.0:assertion".to_owned()), "AudienceRestriction".to_owned(), Some("saml2".to_owned()));
        x.add_namespace("saml2".to_owned(), "urn:oasis:names:tc:SAML:2.0:assertion".to_owned());
        write_child_vec(&mut x, &self.audiences);
        proof {
            assert(x@.attributes =~= self.spec_node().attributes);
            assert(x@.children =~= self.spec_node().children);
        }
        x
    }

    pub fn audiences(&self) -> (r: &Vec<Audience>)
        ensures
            *r == self.audiences,
    {
        &self.audiences
    }

    pub fn add_audiences(&mut self, item: Audience)
        ensures
            final(self).audiences@ == old(self).audiences@.push(item),
    {
        self.audiences.push(item);
    }

    /// The value survives being written and read back: versions are known
    /// ones, timestamps read back as themselves, kept nodes carry the name
    /// of their slot and open content stays clear of the names read here.
    pub open spec fn wf(self) -> bool
    {
        (forall|m: int| 0 <= m < self.audiences@.len() ==> (#[trigger] self.audiences@[m]).wf())
    }

    /// Writing the element and reading the node back gives the element again.
    pub proof fn lemma_round_trip(self)
        requires
            self.wf(),
        ensures
            Self::valid_node(self.spec_node()),
            self.matches(self.spec_node()),
    {
        let n = self.spec_node();
        let part1 = self.audiences@.map_values(|c: Audience| c.node_spec());
        assert(n.children =~= part1);
        {
            lemma_named_all(part1, "Audience"@);
            assert(named(n.children, "Audience"@) =~= named(part1, "Audience"@));
        }
        assert forall|m: int| 0 <= m < self.audiences@.len() implies Audience::valid_node(#[trigger] self.audiences@[m].spec_node()) && self.audiences@[m].matches(self.audiences@[m].spec_node()) by {
            self.audiences@[m].lemma_round_trip();
        }
    }

}

impl Element for AudienceRestriction {
    open spec fn node_ok(n: Node) -> bool {
        Self::valid_node(n)
    }

    open spec fn node_matches(self, n: Node) -> bool {
        self.matches(n)
    }

    open spec fn node_spec(self) -> Node {
        self.spec_node()
    }

    fn read(obj: &XmlObject) -> (r: Result<Self, SAMLError>) {
        Self::try_from_xml(obj)
    }

    fn write(&self) -> (r: XmlObject) {
        self.to_xml()
    }
}

} // verus!
