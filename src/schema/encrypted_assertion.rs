use vstd::prelude::*;

use crate::error::SAMLError;
use crate::schema::fields::{group_binding, named};
use crate::schema::binding::{read_child_vec, read_opt_child, write_child_vec, Element};
use crate::xml::q_name::QNameView;
use crate::xml::{Node, Pair, XmlObject};
use crate::encryption::encrypted_data::EncryptedData;
use crate::encryption::encrypted_key::EncryptedKey;

verus! {

broadcast use group_binding;

/// An assertion in encrypted form.
#[derive(Debug)]
pub struct EncryptedAssertion {
    pub encrypted_data: EncryptedData,
    pub encrypted_keys: Vec<EncryptedKey>,
}

impl EncryptedAssertion {
    pub const ELEMENT_NAME: &'static str = "EncryptedAssertion";
    pub const NS_PREFIX: &'static str = "saml2";
    pub const NS_URI: &'static str = "urn:oasis:names:tc:SAML:2.0:assertion";

    /// The node can be read as this element: every typed value parses,
    /// required parts are present and every known child can be read.
    pub open spec fn valid_node(n: Node) -> bool
    {
        (forall|m: int| 0 <= m < named(n.children, "EncryptedData"@).len() ==> EncryptedData::valid_node(#[trigger] named(n.children, "EncryptedData"@)[m]))
        && named(n.children, "EncryptedData"@).len() > 0
        && (forall|m: int| 0 <= m < named(n.children, "EncryptedKey"@).len() ==> EncryptedKey::valid_node(#[trigger] named(n.children, "EncryptedKey"@)[m]))
    }

    /// The element holds what the node says.
    pub open spec fn matches(self, n: Node) -> bool
    {
        named(n.children, "EncryptedData"@).len() > 0 && self.encrypted_data.matches(named(n.children, "EncryptedData"@).last())
        && self.encrypted_keys@.len() == named(n.children, "EncryptedKey"@).len()
        && (forall|m: int| 0 <= m < self.encrypted_keys@.len() ==> #[trigger] self.encrypted_keys@[m].matches(named(n.children, "EncryptedKey"@)[m]))
    }

    /// The node that the element is written as.
    pub open spec fn spec_node(self) -> Node
    {
        Node {
            name: QNameView { namespace_uri: Some("urn:oasis:names:tc:SAML:2.0:assertion"@), local_name: "EncryptedAssertion"@, prefix: Some("saml2"@) },
            attributes: Seq::<Pair>::empty(),
            namespaces: seq![("saml2"@, "urn:oasis:names:tc:SAML:2.0:assertion"@)],
            text: None,
            children: Seq::<Node>::empty().push(self.encrypted_data.spec_node()) + self.encrypted_keys@.map_values(|c: EncryptedKey| c.node_spec()),
        }
    }

    /// Reads the element from a node: the last occurrence of an attribute
    /// or of a single-valued child wins, repeated children are kept in
    /// order, and the first part that cannot be read fails the whole element.
    #[verifier::loop_isolation(false)]
    pub fn try_from_xml(obj: &XmlObject) -> (r: Result<EncryptedAssertion, SAMLError>)
        ensures
            r is Ok <==> Self::valid_node(obj@),
            r is Ok ==> r->Ok_0.matches(obj@),
            r is Err ==> r->Err_0 is UnmarshallingError,
    {
        let children = obj.children();
        let v_encrypted_data = match read_opt_child::<EncryptedData>(children, "EncryptedData") {
            Ok(v) => v,
            Err(err) => {
                return Err(err);
            },
        };
        let v_encrypted_keys = match read_child_vec::<EncryptedKey>(children, "EncryptedKey") {
            Ok(v) => v,
            Err(err) => {
                return Err(err);
            },
        };
        let f_encrypted_data = match v_encrypted_data {
            Some(x) => x,
            None => {
                return Err(SAMLError::unmarshalling("missing child EncryptedData"));
            },
        };
        Ok(EncryptedAssertion {
            encrypted_data: f_encrypted_data,
            encrypted_keys: v_encrypted_keys,
        })
    }

    /// Writes the element as a node: its name in its namespace, the
    /// attributes that are set, its text and its children.
    pub fn to_xml(&self) -> (r: XmlObject)
        ensures
            r@ == self.spec_node(),
    {
        let mut x = XmlObject::new(Some("urn:oasis:names:tc:SAML:2.0:assertion".to_owned()), "EncryptedAssertion".to_owned(), Some("saml2".to_owned()));
        x.add_namespace("saml2".to_owned(), "urn:oasis:names:tc:SAML:2.0:assertion".to_owned());
        x.add_child(self.encrypted_data.to_xml());
        write_child_vec(&mut x, &self.encrypted_keys);
        proof {
            assert(x@.attributes =~= self.spec_node().attributes);
            assert(x@.children =~= self.spec_node().children);
        }
        x
    }

    pub fn encrypted_data(&self) -> (r: &EncryptedData)
        ensures
            *r == self.encrypted_data,
    {
        &self.encrypted_data
    }

    pub fn set_encrypted_data(&mut self, encrypted_data: EncryptedData)
        ensures
            *final(self) == (EncryptedAssertion { encrypted_data, ..*old(self) }),
    {
        self.encrypted_data = encrypted_data;
    }

    pub fn encrypted_keys(&self) -> (r: &Vec<EncryptedKey>)
        ensures
            *r == self.encrypted_keys,
    {
        &self.encrypted_keys
    }

    pub fn add_encrypted_key(&mut self, item: EncryptedKey)
        ensures
            final(self).encrypted_keys@ == old(self).encrypted_keys@.push(item),
            final(self).encrypted_data == old(self).encrypted_data,
    {
        self.encrypted_keys.push(item);
    }

}

impl Element for EncryptedAssertion {
    open spec fn node_ok(n: Node) -> bool {
        Self::valid_node(n)
    }

    open spec fn node_matches(self, n: Node) -> bool {
        self.matches(n)
    }

    open spec fn node_spec(self) -> Node {
        self.spec_node()
    }

    fn read(obj: &XmlObject) -> (r: Result<Self, SAMLError>) {
        Self::try_from_xml(obj)
    }

    fn write(&self) -> (r: XmlObject) {
        self.to_xml()
    }
}

} // verus!
