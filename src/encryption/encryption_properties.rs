use vstd::prelude::*;

use crate::error::SAMLError;
use crate::schema::fields::{attr_last, group_binding, lemma_named_all, named, push_attr};
use crate::schema::binding::{read_child_vec, read_str_attr, write_child_vec, write_opt_attr, Element};
use crate::xml::q_name::{clone_opt, opt_view, QNameView};
use crate::xml::{Node, Pair, XmlObject};
use crate::encryption::encryption_property::EncryptionProperty;

verus! {

broadcast use group_binding;

/// A list of encryption properties.
#[derive(Debug)]
pub struct EncryptionProperties {
    pub id: Option<String>,
    pub encryption_properties: Vec<EncryptionProperty>,
}

impl EncryptionProperties {
    pub const ELEMENT_NAME: &'static str = "EncryptionProperties";
    pub const NS_PREFIX: &'static str = "xenc";
    pub const NS_URI: &'static str = "http://www.w3.org/2001/04/xmlenc#";

    /// The node can be read as this element: every typed value parses,
    /// required parts are present and every known child can be read.
    pub open spec fn valid_node(n: Node) -> bool
    {
        (forall|m: int| 0 <= m < named(n.children, "EncryptionProperty"@).len() ==> EncryptionProperty::valid_node(#[trigger] named(n.children, "EncryptionProperty"@)[m]))
    }

    /// The element holds what the node says.
    pub open spec fn matches(self, n: Node) -> bool
    {
        (match attr_last(n.attributes, "Id"@) { Some(t) => self.id is Some && self.id->0@ == t, None => self.id is None })
        && self.encryption_properties@.len() == named(n.children, "EncryptionProperty"@).len()
        && (forall|m: int| 0 <= m < self.encryption_properties@.len() ==> #[trigger] self.encryption_properties@[m].matches(named(n.children, "EncryptionProperty"@)[m]))
    }

    /// The node that the element is written as.
    pub open spec fn spec_node(self) -> Node
    {
        Node {
            name: QNameView { namespace_uri: Some("http://www.w3.org/2001/04/xmlenc#"@), local_name: "EncryptionProperties"@, prefix: Some("xenc"@) },
            attributes: push_attr(Seq::<Pair>::empty(), "Id"@, opt_view(self.id)),
            namespaces: seq![("xenc"@, "http://www.w3.org/2001/04/xmlenc#"@)],
            text: None,
            children: Seq::<Node>::empty() + self.encryption_properties@.map_values(|c: EncryptionProperty| c.node_spec()),
        }
    }

    /// Reads the element from a node: the last occurrence of an attribute
    /// or of a single-valued child wins, repeated children are kept in
    /// order, and the first part that cannot be read fails the whole element.
    #[verifier::loop_isolation(false)]
    pub fn try_from_xml(obj: &XmlObject) -> (r: Result<EncryptionProperties, SAMLError>)
        ensures
            r is Ok <==> Self::valid_node(obj@),
            r is Ok ==> r->Ok_0.matches(obj@),
            r is Err ==> r->Err_0 is UnmarshallingError,
    {
        let attrs = obj.attributes();
        let v_id = read_str_attr(attrs, "Id");
        let children = obj.children();
        let v_encryption_properties = match read_child_vec::<EncryptionProperty>(children, "EncryptionProperty") {
            Ok(v) => v,
            Err(err) => {
                return Err(err);
            },
        };
        Ok(EncryptionProperties {
            id: v_id,
            encryption_properties: v_encryption_properties,
        })
    }

    /// Writes the element as a node: its name in its namespace, the
    /// attributes that are set, its text and its children.
    pub fn to_xml(&self) -> (r: XmlObject)
        ensures
            r@ == self.spec_node(),
    {
        let mut x = XmlObject::new(Some("http://www.w3.org/2001/04/xmlenc#".to_owned()), "EncryptionProperties".to_owned(), Some("xenc".to_owned()));
        x.add_namespace("xenc".to_owned(), "http://www.w3.org/2001/04/xmlenc#".to_owned());
        write_opt_attr(&mut x, "Id", clone_opt(&self.id));
        write_child_vec(&mut x, &self.encryption_properties);
        proof {
            assert(x@.attributes =~= self.spec_node().attributes);
            assert(x@.children =~= self.spec_node().children);
        }
        x
    }

    pub fn id(&self) -> (r: Option<&String>)
        ensures
            r is Some <==> self.id is Some,
            r is Some ==> *r->0 == self.id->0,
    {
        self.id.as_ref()
    }

    pub fn set_id(&mut self, id: Option<String>)
        ensures
            *final(self) == (EncryptionProperties { id, ..*old(self) }),
    {
        self.id = id;
    }

    pub fn encryption_properties(&self) -> (r: &Vec<EncryptionProperty>)
        ensures
            *r == self.encryption_properties,
    {
        &self.encryption_properties
    }

    pub fn add_encryption_property(&mut self, item: EncryptionProperty)
        ensures
            final(self).encryption_properties@ == old(self).encryption_properties@.push(item),
            final(self).id == old(self).id,
    {
        self.encryption_properties.push(item);
    }

    /// The value survives being written and read back: versions are known
    /// ones, timestamps read back as themselves, kept nodes carry the name
    /// of their slot and open content stays clear of the names read here.
    pub open spec fn wf(self) -> bool
    {
        (forall|m: int| 0 <= m < self.encryption_properties@.len() ==> (#[trigger] self.encryption_properties@[m]).wf())
    }

    /// Writing the element and reading the node back gives the element again.
    pub proof fn lemma_round_trip(self)
        requires
            self.wf(),
        ensures
            Self::valid_node(self.spec_node()),
            self.matches(self.spec_node()),
    {
        let n = self.spec_node();
        let part1 = self.encryption_properties@.map_values(|c: EncryptionProperty| c.node_spec());
        assert(n.children =~= part1);
        {
            lemma_named_all(part1, "EncryptionProperty"@);
            assert(named(n.children, "EncryptionProperty"@) =~= named(part1, "EncryptionProperty"@));
        }
        assert forall|m: int| 0 <= m < self.encryption_properties@.len() implies EncryptionProperty::valid_node(#[trigger] self.encryption_properties@[m].spec_node()) && self.encryption_properties@[m].matches(self.encryption_properties@[m].spec_node()) by {
            self.encryption_properties@[m].lemma_round_trip();
        }
    }

}

impl Element for EncryptionProperties {
    open spec fn node_ok(n: Node) -> bool {
        Self::valid_node(n)
    }

    open spec fn node_matches(self, n: Node) -> bool {
        self.matches(n)
    }

    open spec fn node_spec(self) -> Node {
        self.spec_node()
    }

    fn read(obj: &XmlObject) -> (r: Result<Self, SAMLError>) {
        Self::try_from_xml(obj)
    }

    fn write(&self) -> (r: XmlObject) {
        self.to_xml()
    }
}

} // verus!
