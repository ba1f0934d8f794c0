use vstd::prelude::*;

use crate::error::SAMLError;
use crate::schema::fields::{attr_last, group_binding, named, push_attr, push_node};
use crate::schema::binding::{read_opt_child, read_str_attr, write_opt_attr, write_opt_child, Element};
use crate::xml::q_name::{clone_opt, opt_view, QNameView};
use crate::xml::{Node, Pair, XmlObject};
use crate::encryption::carried_key_name::CarriedKeyName;
use crate::encryption::cipher_data::CipherData;
use crate::encryption::encrypted_method::EncryptedMethod;
use crate::encryption::encryption_properties::EncryptionProperties;
use crate::signature::key_info::KeyInfo;
use crate::encryption::reference_list::ReferenceList;

verus! {

broadcast use group_binding;

/// An encrypted key.
#[derive(Debug)]
pub struct EncryptedKey {
    pub id: Option<String>,
    pub encrypted_type: Option<String>,
    pub mime_type: Option<String>,
    pub encoding: Option<String>,
    pub recipient: Option<String>,
    pub encrypted_method: Option<EncryptedMethod>,
    pub key_info: Option<KeyInfo>,
    pub cipher_data: CipherData,
    pub encryption_properties: Option<EncryptionProperties>,
    pub carried_key_name: Option<CarriedKeyName>,
    pub reference_list: Option<ReferenceList>,
}

impl EncryptedKey {
    pub const ELEMENT_NAME: &'static str = "EncryptedKey";
    pub const NS_PREFIX: &'static str = "xenc";
    pub const NS_URI: &'static str = "http://www.w3.org/2001/04/xmlenc#";

    /// The node can be read as this element: every typed value parses,
    /// required parts are present and every known child can be read.
    pub open spec fn valid_node(n: Node) -> bool
    {
        (forall|m: int| 0 <= m < named(n.children, "EncryptionMethod"@).len() ==> EncryptedMethod::valid_node(#[trigger] named(n.children, "EncryptionMethod"@)[m]))
        && (forall|m: int| 0 <= m < named(n.children, "KeyInfo"@).len() ==> KeyInfo::valid_node(#[trigger] named(n.children, "KeyInfo"@)[m]))
        && (forall|m: int| 0 <= m < named(n.children, "CipherData"@).len() ==> CipherData::valid_node(#[trigger] named(n.children, "CipherData"@)[m]))
        && named(n.children, "CipherData"@).len() > 0
        && (forall|m: int| 0 <= m < named(n.children, "EncryptionProperties"@).len() ==> EncryptionProperties::valid_node(#[trigger] named(n.children, "EncryptionProperties"@)[m]))
        && (forall|m: int| 0 <= m < named(n.children, "CarriedKeyName"@).len() ==> CarriedKeyName::valid_node(#[trigger] named(n.children, "CarriedKeyName"@)[m]))
        && (forall|m: int| 0 <= m < named(n.children, "ReferenceList"@).len() ==> ReferenceList::valid_node(#[trigger] named(n.children, "ReferenceList"@)[m]))
    }

    /// The element holds what the node says.
    pub open spec fn matches(self, n: Node) -> bool
    {
        (match attr_last(n.attributes, "Id"@) { Some(t) => self.id is Some && self.id->0@ == t, None => self.id is None })
        && (match attr_last(n.attributes, "Type"@) { Some(t) => self.encrypted_type is Some && self.encrypted_type->0@ == t, None => self.encrypted_type is None })
        && (match attr_last(n.attributes, "MimeType"@) { Some(t) => self.mime_type is Some && self.mime_type->0@ == t, None => self.mime_type is None })
        && (match attr_last(n.attributes, "Encoding"@) { Some(t) => self.encoding is Some && self.encoding->0@ == t, None => self.encoding is None })
        && (match attr_last(n.attributes, "Recipient"@) { Some(t) => self.recipient is Some && self.recipient->0@ == t, None => self.recipient is None })
        && (if named(n.children, "EncryptionMethod"@).len() > 0 { self.encrypted_method is Some && self.encrypted_method->0.matches(named(n.children, "EncryptionMethod"@).last()) } else { self.encrypted_method is None })
        && (if named(n.children, "KeyInfo"@).len() > 0 { self.key_info is Some && self.key_info->0.matches(named(n.children, "KeyInfo"@).last()) } else { self.key_info is None })
        && named(n.children, "CipherData"@).len() > 0 && self.cipher_data.matches(named(n.children, "CipherData"@).last())
        && (if named(n.children, "EncryptionProperties"@).len() > 0 { self.encryption_properties is Some && self.encryption_properties->0.matches(named(n.children, "EncryptionProperties"@).last()) } else { self.encryption_properties is None })
        && (if named(n.children, "CarriedKeyName"@).len() > 0 { self.carried_key_name is Some && self.carried_key_name->0.matches(named(n.children, "CarriedKeyName"@).last()) } else { self.carried_key_name is None })
        && (if named(n.children, "ReferenceList"@).len() > 0 { self.reference_list is Some && self.reference_list->0.matches(named(n.children, "ReferenceList"@).last()) } else { self.reference_list is None })
    }

    /// The node that the element is written as.
    pub open spec fn spec_node(self) -> Node
    {
        Node {
            name: QNameView { namespace_uri: Some("http://www.w3.org/2001/04/xmlenc#"@), local_name: "EncryptedKey"@, prefix: Some("xenc"@) },
            attributes: push_attr(push_attr(push_attr(push_attr(push_attr(Seq::<Pair>::empty(), "Id"@, opt_view(self.id)), "Type"@, opt_view(self.encrypted_type)), "MimeType"@, opt_view(self.mime_type)), "Encoding"@, opt_view(self.encoding)), "Recipient"@, opt_view(self.recipient)),
            namespaces: seq![("xenc"@, "http://www.w3.org/2001/04/xmlenc#"@)],
            text: None,
            children: push_node(push_node(push_node(push_node(push_node(Seq::<Node>::empty(), match self.encrypted_method { Some(c) => Some(c.spec_node()), None => None }), match self.key_info { Some(c) => Some(c.spec_node()), None => None }).push(self.cipher_data.spec_node()), match self.encryption_properties { Some(c) => Some(c.spec_node()), None => None }), match self.carried_key_name { Some(c) => Some(c.spec_node()), None => None }), match self.reference_list { Some(c) => Some(c.spec_node()), None => None }),
        }
    }

    /// Reads the element from a node: the last occurrence of an attribute
    /// or of a single-valued child wins, repeated children are kept in
    /// order, and the first part that cannot be read fails the whole element.
    #[verifier::rlimit(100)]
    #[verifier::spinoff_prover]
    #[verifier::loop_isolation(false)]
    pub fn try_from_xml(obj: &XmlObject) -> (r: Result<EncryptedKey, SAMLError>)
        ensures
            r is Ok <==> Self::valid_node(obj@),
            r is Ok ==> r->Ok_0.matches(obj@),
            r is Err ==> r->Err_0 is UnmarshallingError,
    {
        let attrs = obj.attributes();
        let v_id = read_str_attr(attrs, "Id");
        let v_encrypted_type = read_str_attr(attrs, "Type");
        let v_mime_type = read_str_attr(attrs, "MimeType");
        let v_encoding = read_str_attr(attrs, "Encoding");
        let v_recipient = read_str_attr(attrs, "Recipient");
        let children = obj.children();
        let v_encrypted_method = match read_opt_child::<EncryptedMethod>(children, "EncryptionMethod") {
            Ok(v) => v,
            Err(err) => {
                return Err(err);
            },
        };
        let v_key_info = match read_opt_child::<KeyInfo>(children, "KeyInfo") {
            Ok(v) => v,
            Err(err) => {
                return Err(err);
            },
        };
        let v_cipher_data = match read_opt_child::<CipherData>(children, "CipherData") {
            Ok(v) => v,
            Err(err) => {
                return Err(err);
            },
        };
        let v_encryption_properties = match read_opt_child::<EncryptionProperties>(children, "EncryptionProperties") {
            Ok(v) => v,
            Err(err) => {
                return Err(err);
            },
        };
        let v_carried_key_name = match read_opt_child::<CarriedKeyName>(children, "CarriedKeyName") {
            Ok(v) => v,
            Err(err) => {
                return Err(err);
            },
        };
        let v_reference_list = match read_opt_child::<ReferenceList>(children, "ReferenceList") {
            Ok(v) => v,
            Err(err) => {
                return Err(err);
            },
        };
        let f_cipher_data = match v_cipher_data {
            Some(x) => x,
            None => {
                return Err(SAMLError::unmarshalling("missing child CipherData"));
            },
        };
        Ok(EncryptedKey {
            id: v_id,
            encrypted_type: v_encrypted_type,
            mime_type: v_mime_type,
            encoding: v_encoding,
            recipient: v_recipient,
            encrypted_method: v_encrypted_method,
            key_info: v_key_info,
            cipher_data: f_cipher_data,
            encryption_properties: v_encryption_properties,
            carried_key_name: v_carried_key_name,
            reference_list: v_reference_list,
        })
    }

    /// Writes the element as a node: its name in its namespace, the
    /// attributes that are set, its text and its children.
    #[verifier::rlimit(100)]
    #[verifier::spinoff_prover]
    pub fn to_xml(&self) -> (r: XmlObject)
        ensures
            r@ == self.spec_node(),
    {
        let mut x = XmlObject::new(Some("http://www.w3.org/2001/04/xmlenc#".to_owned()), "EncryptedKey".to_owned(), Some("xenc".to_owned()));
        x.add_namespace("xenc".to_owned(), "http://www.w3.org/2001/04/xmlenc#".to_owned());
        write_opt_attr(&mut x, "Id", clone_opt(&self.id));
        write_opt_attr(&mut x, "Type", clone_opt(&self.encrypted_type));
        write_opt_attr(&mut x, "MimeType", clone_opt(&self.mime_type));
        write_opt_attr(&mut x, "Encoding", clone_opt(&self.encoding));
        write_opt_attr(&mut x, "Recipient", clone_opt(&self.recipient));
        write_opt_child(&mut x, &self.encrypted_method);
        write_opt_child(&mut x, &self.key_info);
        x.add_child(self.cipher_data.to_xml());
        write_opt_child(&mut x, &self.encryption_properties);
        write_opt_child(&mut x, &self.carried_key_name);
        write_opt_child(&mut x, &self.reference_list);
        proof {
            assert(x@.attributes =~= self.spec_node().attributes);
            assert(x@.children =~= self.spec_node().children);
        }
        x
    }

    pub fn id(&self) -> (r: Option<&String>)
        ensures
            r is Some <==> self.id is Some,
            r is Some ==> *r->0 == self.id->0,
    {
        self.id.as_ref()
    }

    pub fn set_id(&mut self, id: Option<String>)
        ensures
            *final(self) == (EncryptedKey { id, ..*old(self) }),
    {
        self.id = id;
    }

    pub fn encrypted_type(&self) -> (r: Option<&String>)
        ensures
            r is Some <==> self.encrypted_type is Some,
            r is Some ==> *r->0 == self.encrypted_type->0,
    {
        self.encrypted_type.as_ref()
    }

    pub fn set_encrypted_type(&mut self, encrypted_type: Option<String>)
        ensures
            *final(self) == (EncryptedKey { encrypted_type, ..*old(self) }),
    {
        self.encrypted_type = encrypted_type;
    }

    pub fn mime_type(&self) -> (r: Option<&String>)
        ensures
            r is Some <==> self.mime_type is Some,
            r is Some ==> *r->0 == self.mime_type->0,
    {
        self.mime_type.as_ref()
    }

    pub fn set_mime_type(&mut self, mime_type: Option<String>)
        ensures
            *final(self) == (EncryptedKey { mime_type, ..*old(self) }),
    {
        self.mime_type = mime_type;
    }

    pub fn encoding(&self) -> (r: Option<&String>)
        ensures
            r is Some <==> self.encoding is Some,
            r is Some ==> *r->0 == self.encoding->0,
    {
        self.encoding.as_ref()
    }

    pub fn set_encoding(&mut self, encoding: Option<String>)
        ensures
            *final(self) == (EncryptedKey { encoding, ..*old(self) }),
    {
        self.encoding = encoding;
    }

    pub fn recipient(&self) -> (r: Option<&String>)
        ensures
            r is Some <==> self.recipient is Some,
            r is Some ==> *r->0 == self.recipient->0,
    {
        self.recipient.as_ref()
    }

    pub fn set_recipient(&mut self, recipient: Option<String>)
        ensures
            *final(self) == (EncryptedKey { recipient, ..*old(self) }),
    {
        self.recipient = recipient;
    }

    pub fn encrypted_method(&self) -> (r: Option<&EncryptedMethod>)
        ensures
            r is Some <==> self.encrypted_method is Some,
            r is Some ==> *r->0 == self.encrypted_method->0,
    {
        self.encrypted_method.as_ref()
    }

    pub fn set_encrypted_method(&mut self, encrypted_method: Option<EncryptedMethod>)
        ensures
            *final(self) == (EncryptedKey { encrypted_method, ..*old(self) }),
    {
        self.encrypted_method = encrypted_method;
    }

    pub fn key_info(&self) -> (r: Option<&KeyInfo>)
        ensures
            r is Some <==> self.key_info is Some,
            r is Some ==> *r->0 == self.key_info->0,
    {
        self.key_info.as_ref()
    }

    pub fn set_key_info(&mut self, key_info: Option<KeyInfo>)
        ensures
            *final(self) == (EncryptedKey { key_info, ..*old(self) }),
    {
        self.key_info = key_info;
    }

    pub fn cipher_data(&self) -> (r: &CipherData)
        ensures
            *r == self.cipher_data,
    {
        &self.cipher_data
    }

    pub fn set_cipher_data(&mut self, cipher_data: CipherData)
        ensures
            *final(self) == (EncryptedKey { cipher_data, ..*old(self) }),
    {
        self.cipher_data = cipher_data;
    }

    pub fn encryption_properties(&self) -> (r: Option<&EncryptionProperties>)
        ensures
            r is Some <==> self.encryption_properties is Some,
            r is Some ==> *r->0 == self.encryption_properties->0,
    {
        self.encryption_properties.as_ref()
    }

    pub fn set_encryption_properties(&mut self, encryption_properties: Option<EncryptionProperties>)
        ensures
            *final(self) == (EncryptedKey { encryption_properties, ..*old(self) }),
    {
        self.encryption_properties = encryption_properties;
    }

    pub fn carried_key_name(&self) -> (r: Option<&CarriedKeyName>)
        ensures
            r is Some <==> self.carried_key_name is Some,
            r is Some ==> *r->0 == self.carried_key_name->0,
    {
        self.carried_key_name.as_ref()
    }

    pub fn set_carried_key_name(&mut self, carried_key_name: Option<CarriedKeyName>)
        ensures
            *final(self) == (EncryptedKey { carried_key_name, ..*old(self) }),
    {
        self.carried_key_name = carried_key_name;
    }

    pub fn reference_list(&self) -> (r: Option<&ReferenceList>)
        ensures
            r is Some <==> self.reference_list is Some,
            r is Some ==> *r->0 == self.reference_list->0,
    {
        self.reference_list.as_ref()
    }

    pub fn set_reference_list(&mut self, reference_list: Option<ReferenceList>)
        ensures
            *final(self) == (EncryptedKey { reference_list, ..*old(self) }),
    {
        self.reference_list = reference_list;
    }

}

impl Element for EncryptedKey {
    open spec fn node_ok(n: Node) -> bool {
        Self::valid_node(n)
    }

    open spec fn node_matches(self, n: Node) -> bool {
        self.matches(n)
    }

    open spec fn node_spec(self) -> Node {
        self.spec_node()
    }

    fn read(obj: &XmlObject) -> (r: Result<Self, SAMLError>) {
        Self::try_from_xml(obj)
    }

    fn write(&self) -> (r: XmlObject) {
        self.to_xml()
    }
}

} // verus!
