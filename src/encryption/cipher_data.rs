use vstd::prelude::*;

use crate::error::SAMLError;
use crate::schema::fields::{group_binding, lemma_named_all, lemma_named_none, named, opt_nodes, push_node};
use crate::schema::binding::{read_opt_child, write_opt_child, Element};
use crate::xml::q_name::QNameView;
use crate::xml::{Node, Pair, XmlObject};
use crate::encryption::cipher_reference::CipherReference;
use crate::encryption::cipher_value::CipherValue;

verus! {

broadcast use group_binding;

/// Encrypted data, inline or by reference.
#[derive(Debug)]
pub struct CipherData {
    pub cipher_value: Option<CipherValue>,
    pub cipher_reference: Option<CipherReference>,
}

impl CipherData {
    pub const ELEMENT_NAME: &'static str = "CipherData";
    pub const NS_PREFIX: &'static str = "xenc";
    pub const NS_URI: &'static str = "http://www.w3.org/2001/04/xmlenc#";

    proof fn lemma_child_names()
        ensures
            "CipherValue"@ != "CipherReference"@,
    {
        reveal_strlit("CipherReference");
        reveal_strlit("CipherValue");
        assert("CipherValue"@.len() != "CipherReference"@.len());
    }

    /// The node can be read as this element: every typed value parses,
    /// required parts are present and every known child can be read.
    pub open spec fn valid_node(n: Node) -> bool
    {
        (forall|m: int| 0 <= m < named(n.children, "CipherValue"@).len() ==> CipherValue::valid_node(#[trigger] named(n.children, "CipherValue"@)[m]))
        && (forall|m: int| 0 <= m < named(n.children, "CipherReference"@).len() ==> CipherReference::valid_node(#[trigger] named(n.children, "CipherReference"@)[m]))
    }

    /// The element holds what the node says.
    pub open spec fn matches(self, n: Node) -> bool
    {
        (if named(n.children, "CipherValue"@).len() > 0 { self.cipher_value is Some && self.cipher_value->0.matches(named(n.children, "CipherValue"@).last()) } else { self.cipher_value is None })
        && (if named(n.children, "CipherReference"@).len() > 0 { self.cipher_reference is Some && self.cipher_reference->0.matches(named(n.children, "CipherReference"@).last()) } else { self.cipher_reference is None })
    }

    /// The node that the element is written as.
    pub open spec fn spec_node(self) -> Node
    {
        Node {
            name: QNameView { namespace_uri: Some("http://www.w3.org/2001/04/xmlenc#"@), local_name: "CipherData"@, prefix: Some("xenc"@) },
            attributes: Seq::<Pair>::empty(),
            namespaces: seq![("xenc"@, "http://www.w3.org/2001/04/xmlenc#"@)],
            text: None,
            children: push_node(push_node(Seq::<Node>::empty(), match self.cipher_value { Some(c) => Some(c.spec_node()), None => None }), match self.cipher_reference { Some(c) => Some(c.spec_node()), None => None }),
        }
    }

    /// Reads the element from a node: the last occurrence of an attribute
    /// or of a single-valued child wins, repeated children are kept in
    /// order, and the first part that cannot be read fails the whole element.
    #[verifier::loop_isolation(false)]
    pub fn try_from_xml(obj: &XmlObject) -> (r: Result<CipherData, SAMLError>)
        ensures
            r is Ok <==> Self::valid_node(obj@),
            r is Ok ==> r->Ok_0.matches(obj@),
            r is Err ==> r->Err_0 is UnmarshallingError,
    {
        let children = obj.children();
        let v_cipher_value = match read_opt_child::<CipherValue>(children, "CipherValue") {
            Ok(v) => v,
            Err(err) => {
                return Err(err);
            },
        };
        let v_cipher_reference = match read_opt_child::<CipherReference>(children, "CipherReference") {
            Ok(v) => v,
            Err(err) => {
                return Err(err);
            },
        };
        Ok(CipherData {
            cipher_value: v_cipher_value,
            cipher_reference: v_cipher_reference,
        })
    }

    /// Writes the element as a node: its name in its namespace, the
    /// attributes that are set, its text and its children.
    pub fn to_xml(&self) -> (r: XmlObject)
        ensures
            r@ == self.spec_node(),
    {
        let mut x = XmlObject::new(Some("http://www.w3.org/2001/04/xmlenc#".to_owned()), "CipherData".to_owned(), Some("xenc".to_owned()));
        x.add_namespace("xenc".to_owned(), "http://www.w3.org/2001/04/xmlenc#".to_owned());
        write_opt_child(&mut x, &self.cipher_value);
        write_opt_child(&mut x, &self.cipher_reference);
        proof {
            assert(x@.attributes =~= self.spec_node().attributes);
            assert(x@.children =~= self.spec_node().children);
        }
        x
    }

    pub fn cipher_value(&self) -> (r: Option<&CipherValue>)
        ensures
            r is Some <==> self.cipher_value is Some,
            r is Some ==> *r->0 == self.cipher_value->0,
    {
        self.cipher_value.as_ref()
    }

    pub fn set_cipher_value(&mut self, cipher_value: Option<CipherValue>)
        ensures
            *final(self) == (CipherData { cipher_value, ..*old(self) }),
    {
        self.cipher_value = cipher_value;
    }

    pub fn cipher_reference(&self) -> (r: Option<&CipherReference>)
        ensures
            r is Some <==> self.cipher_reference is Some,
            r is Some ==> *r->0 == self.cipher_reference->0,
    {
        self.cipher_reference.as_ref()
    }

    pub fn set_cipher_reference(&mut self, cipher_reference: Option<CipherReference>)
        ensures
            *final(self) == (CipherData { cipher_reference, ..*old(self) }),
    {
        self.cipher_reference = cipher_reference;
    }

    /// The value survives being written and read back: versions are known
    /// ones, timestamps read back as themselves, kept nodes carry the name
    /// of their slot and open content stays clear of the names read here.
    pub open spec fn wf(self) -> bool
    {
        (match self.cipher_value { Some(v) => v.wf(), None => true })
        && (match self.cipher_reference { Some(v) => v.wf(), None => true })
    }

    /// Writing the element and reading the node back gives the element again.
    pub proof fn lemma_round_trip(self)
        requires
            self.wf(),
        ensures
            Self::valid_node(self.spec_node()),
            self.matches(self.spec_node()),
    {
        let n = self.spec_node();
        Self::lemma_child_names();
        let part1 = opt_nodes(match self.cipher_value { Some(c) => Some(c.spec_node()), None => None });
        let part2 = opt_nodes(match self.cipher_reference { Some(c) => Some(c.spec_node()), None => None });
        assert(n.children =~= part1 + part2);
        {
            lemma_named_all(part1, "CipherValue"@);
            lemma_named_none(part2, "CipherValue"@);
            assert(named(n.children, "CipherValue"@) =~= named(part1, "CipherValue"@) + named(part2, "CipherValue"@));
        }
        {
            lemma_named_none(part1, "CipherReference"@);
            lemma_named_all(part2, "CipherReference"@);
            assert(named(n.children, "CipherReference"@) =~= named(part1, "CipherReference"@) + named(part2, "CipherReference"@));
        }
        match self.cipher_value {
            Some(v) => v.lemma_round_trip(),
            None => {},
        }
        match self.cipher_reference {
            Some(v) => v.lemma_round_trip(),
            None => {},
        }
    }

}

impl Element for CipherData {
    open spec fn node_ok(n: Node) -> bool {
        Self::valid_node(n)
    }

    open spec fn node_matches(self, n: Node) -> bool {
        self.matches(n)
    }

    open spec fn node_spec(self) -> Node {
        self.spec_node()
    }

    fn read(obj: &XmlObject) -> (r: Result<Self, SAMLError>) {
        Self::try_from_xml(obj)
    }

    fn write(&self) -> (r: XmlObject) {
        self.to_xml()
    }
}

} // verus!
