use vstd::prelude::*;

use crate::error::SAMLError;
use crate::schema::fields::{group_binding, named, push_node};
use crate::schema::binding::{read_child_vec, read_opt_child, write_child_vec, write_opt_child, Element};
use crate::xml::q_name::QNameView;
use crate::xml::{Node, Pair, XmlObject};
use crate::schema::base_id::BaseID;
use crate::schema::encrypted_id::EncryptedID;
use crate::schema::name_id::NameID;
use crate::schema::subject_confirmation::SubjectConfirmation;

verus! {

broadcast use group_binding;

/// The principal that an assertion or request is about.
#[derive(Debug)]
pub struct Subject {
    pub base_id: Option<BaseID>,
    pub name_id: Option<NameID>,
    pub encrypted_id: Option<EncryptedID>,
    pub subject_confirmations: Vec<SubjectConfirmation>,
}

impl Subject {
    pub const ELEMENT_NAME: &'static str = "Subject";
    pub const NS_PREFIX: &'static str = "saml2";
    pub const NS_URI: &'static str = "urn:oasis:names:tc:SAML:2.0:assertion";

    /// The node can be read as this element: every typed value parses,
    /// required parts are present and every known child can be read.
    pub open spec fn valid_node(n: Node) -> bool
    {
        (forall|m: int| 0 <= m < named(n.children, "BaseID"@).len() ==> BaseID::valid_node(#[trigger] named(n.children, "BaseID"@)[m]))
        && (forall|m: int| 0 <= m < named(n.children, "NameID"@).len() ==> NameID::valid_node(#[trigger] named(n.children, "NameID"@)[m]))
        && (forall|m: int| 0 <= m < named(n.children, "EncryptedID"@).len() ==> EncryptedID::valid_node(#[trigger] named(n.children, "EncryptedID"@)[m]))
        && (forall|m: int| 0 <= m < named(n.children, "SubjectConfirmation"@).len() ==> SubjectConfirmation::valid_node(#[trigger] named(n.children, "SubjectConfirmation"@)[m]))
    }

    /// The element holds what the node says.
    pub open spec fn matches(self, n: Node) -> bool
    {
        (if named(n.children, "BaseID"@).len() > 0 { self.base_id is Some && self.base_id->0.matches(named(n.children, "BaseID"@).last()) } else { self.base_id is None })
        && (if named(n.children, "NameID"@).len() > 0 { self.name_id is Some && self.name_id->0.matches(named(n.children, "NameID"@).last()) } else { self.name_id is None })
        && (if named(n.children, "EncryptedID"@).len() > 0 { self.encrypted_id is Some && self.encrypted_id->0.matches(named(n.children, "EncryptedID"@).last()) } else { self.encrypted_id is None })
        && self.subject_confirmations@.len() == named(n.children, "SubjectConfirmation"@).len()
        && (forall|m: int| 0 <= m < self.subject_confirmations@.len() ==> #[trigger] self.subject_confirmations@[m].matches(named(n.children, "SubjectConfirmation"@)[m]))
    }

    /// The node that the element is written as.
    pub open spec fn spec_node(self) -> Node
    {
        Node {
            name: QNameView { namespace_uri: Some("urn:oasis:names:tc:SAML:2.0:assertion"@), local_name: "Subject"@, prefix: Some("saml2"@) },
            attributes: Seq::<Pair>::empty(),
            namespaces: seq![("saml2"@, "urn:oasis:names:tc:SAML:2.0:assertion"@)],
            text: None,
            children: push_node(push_node(push_node(Seq::<Node>::empty(), match self.base_id { Some(c) => Some(c.spec_node()), None => None }), match self.name_id { Some(c) => Some(c.spec_node()), None => None }), match self.encrypted_id { Some(c) => Some(c.spec_node()), None => None }) + self.subject_confirmations@.map_values(|c: SubjectConfirmation| c.node_spec()),
        }
    }

    /// Reads the element from a node: the last occurrence of an attribute
    /// or of a single-valued child wins, repeated children are kept in
    /// order, and the first part that cannot be read fails the whole element.
    #[verifier::loop_isolation(false)]
    pub fn try_from_xml(obj: &XmlObject) -> (r: Result<Subject, SAMLError>)
        ensures
            r is Ok <==> Self::valid_node(obj@),
            r is Ok ==> r->Ok_0.matches(obj@),
            r is Err ==> r->Err_0 is UnmarshallingError,
    {
        let children = obj.children();
        let v_base_id = match read_opt_child::<BaseID>(children, "BaseID") {
            Ok(v) => v,
            Err(err) => {
                return Err(err);
            },
        };
        let v_name_id = match read_opt_child::<NameID>(children, "NameID") {
            Ok(v) => v,
            Err(err) => {
                return Err(err);
            },
        };
        let v_encrypted_id = match read_opt_child::<EncryptedID>(children, "EncryptedID") {
            Ok(v) => v,
            Err(err) => {
                return Err(err);
            },
        };
        let v_subject_confirmations = match read_child_vec::<SubjectConfirmation>(children, "SubjectConfirmation") {
            Ok(v) => v,
            Err(err) => {
                return Err(err);
            },
        };
        Ok(Subject {
            base_id: v_base_id,
            name_id: v_name_id,
            encrypted_id: v_encrypted_id,
            subject_confirmations: v_subject_confirmations,
        })
    }

    /// Writes the element as a node: its name in its namespace, the
    /// attributes that are set, its text and its children.
    pub fn to_xml(&self) -> (r: XmlObject)
        ensures
            r@ == self.spec_node(),
    {
        let mut x = XmlObject::new(Some("urn:oasis:names:tc:SAML:2.0:assertion".to_owned()), "Subject".to_owned(), Some("saml2".to_owned()));
        x.add_namespace("saml2".to_owned(), "urn:oasis:names:tc:SAML:2.0:assertion".to_owned());
        write_opt_child(&mut x, &self.base_id);
        write_opt_child(&mut x, &self.name_id);
        write_opt_child(&mut x, &self.encrypted_id);
        write_child_vec(&mut x, &self.subject_confirmations);
        proof {
            assert(x@.attributes =~= self.spec_node().attributes);
            assert(x@.children =~= self.spec_node().children);
        }
        x
    }

    pub fn base_id(&self) -> (r: Option<&BaseID>)
        ensures
            r is Some <==> self.base_id is Some,
            r is Some ==> *r->0 == self.base_id->0,
    {
        self.base_id.as_ref()
    }

    pub fn set_base_id(&mut self, base_id: Option<BaseID>)
        ensures
            *final(self) == (Subject { base_id, ..*old(self) }),
    {
        self.base_id = base_id;
    }

    pub fn name_id(&self) -> (r: Option<&NameID>)
        ensures
            r is Some <==> self.name_id is Some,
            r is Some ==> *r->0 == self.name_id->0,
    {
        self.name_id.as_ref()
    }

    pub fn set_name_id(&mut self, name_id: Option<NameID>)
        ensures
            *final(self) == (Subject { name_id, ..*old(self) }),
    {
        self.name_id = name_id;
    }

    pub fn encrypted_id(&self) -> (r: Option<&EncryptedID>)
        ensures
            r is Some <==> self.encrypted_id is Some,
            r is Some ==> *r->0 == self.encrypted_id->0,
    {
        self.encrypted_id.as_ref()
    }

    pub fn set_encrypted_id(&mut self, encrypted_id: Option<EncryptedID>)
        ensures
            *final(self) == (Subject { encrypted_id, ..*old(self) }),
    {
        self.encrypted_id = encrypted_id;
    }

    pub fn subject_confirmations(&self) -> (r: &Vec<SubjectConfirmation>)
        ensures
            *r == self.subject_confirmations,
    {
        &self.subject_confirmations
    }

    pub fn add_subject_confirmation(&mut self, item: SubjectConfirmation)
        ensures
            final(self).subject_confirmations@ == old(self).subject_confirmations@.push(item),
            final(self).base_id == old(self).base_id,
            final(self).name_id == old(self).name_id,
            final(self).encrypted_id == old(self).encrypted_id,
    {
        self.subject_confirmations.push(item);
    }

}

impl Element for Subject {
    open spec fn node_ok(n: Node) -> bool {
        Self::valid_node(n)
    }

    open spec fn node_matches(self, n: Node) -> bool {
        self.matches(n)
    }

    open spec fn node_spec(self) -> Node {
        self.spec_node()
    }

    fn read(obj: &XmlObject) -> (r: Result<Self, SAMLError>) {
        Self::try_from_xml(obj)
    }

    fn write(&self) -> (r: XmlObject) {
        self.to_xml()
    }
}

} // verus!
