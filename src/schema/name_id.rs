use vstd::prelude::*;

use crate::error::SAMLError;
use crate::schema::fields::{attr_last, group_binding, push_attr};
use crate::schema::binding::{read_str_attr, write_opt_attr, Element};
use crate::xml::q_name::{clone_opt, opt_view, QNameView};
use crate::xml::{Node, Pair, XmlObject};

verus! {

broadcast use group_binding;

/// A subject identifier given as a name.
#[derive(Debug)]
pub struct NameID {
    pub name_qualifier: Option<String>,
    pub sp_name_qualifier: Option<String>,
    pub format: Option<String>,
    pub sp_provided_id: Option<String>,
    pub value: Option<String>,
}

impl NameID {
    pub const ELEMENT_NAME: &'static str = "NameID";
    pub const NS_PREFIX: &'static str = "saml2";
    pub const NS_URI: &'static str = "urn:oasis:names:tc:SAML:2.0:assertion";

    proof fn lemma_attr_names()
        ensures
            "NameQualifier"@ != "SPNameQualifier"@,
            "NameQualifier"@ != "Format"@,
            "NameQualifier"@ != "SPProvidedID"@,
            "SPNameQualifier"@ != "Format"@,
            "SPNameQualifier"@ != "SPProvidedID"@,
            "Format"@ != "SPProvidedID"@,
    {
        reveal_strlit("Format");
        reveal_strlit("NameQualifier");
        reveal_strlit("SPNameQualifier");
        reveal_strlit("SPProvidedID");
        assert("NameQualifier"@.len() != "SPNameQualifier"@.len());
        assert("NameQualifier"@.len() != "Format"@.len());
        assert("NameQualifier"@.len() != "SPProvidedID"@.len());
        assert("SPNameQualifier"@.len() != "Format"@.len());
        assert("SPNameQualifier"@.len() != "SPProvidedID"@.len());
        assert("Format"@.len() != "SPProvidedID"@.len());
    }

    /// The node can be read as this element: every typed value parses,
    /// required parts are present and every known child can be read.
    pub open spec fn valid_node(n: Node) -> bool
    {
        true
    }

    /// The element holds what the node says.
    pub open spec fn matches(self, n: Node) -> bool
    {
        (match attr_last(n.attributes, "NameQualifier"@) { Some(t) => self.name_qualifier is Some && self.name_qualifier->0@ == t, None => self.name_qualifier is None })
        && (match attr_last(n.attributes, "SPNameQualifier"@) { Some(t) => self.sp_name_qualifier is Some && self.sp_name_qualifier->0@ == t, None => self.sp_name_qualifier is None })
        && (match attr_last(n.attributes, "Format"@) { Some(t) => self.format is Some && self.format->0@ == t, None => self.format is None })
        && (match attr_last(n.attributes, "SPProvidedID"@) { Some(t) => self.sp_provided_id is Some && self.sp_provided_id->0@ == t, None => self.sp_provided_id is None })
        && n.text == opt_view(self.value)
    }

    /// The node that the element is written as.
    pub open spec fn spec_node(self) -> Node
    {
        Node {
            name: QNameView { namespace_uri: Some("urn:oasis:names:tc:SAML:2.0:assertion"@), local_name: "NameID"@, prefix: Some("saml2"@) },
            attributes: push_attr(push_attr(push_attr(push_attr(Seq::<Pair>::empty(), "NameQualifier"@, opt_view(self.name_qualifier)), "SPNameQualifier"@, opt_view(self.sp_name_qualifier)), "Format"@, opt_view(self.format)), "SPProvidedID"@, opt_view(self.sp_provided_id)),
            namespaces: seq![("saml2"@, "urn:oasis:names:tc:SAML:2.0:assertion"@)],
            text: opt_view(self.value),
            children: Seq::<Node>::empty(),
        }
    }

    /// Reads the element from a node: the last occurrence of an attribute
    /// or of a single-valued child wins, repeated children are kept in
    /// order, and the first part that cannot be read fails the whole element.
    #[verifier::loop_isolation(false)]
    pub fn try_from_xml(obj: &XmlObject) -> (r: Result<NameID, SAMLError>)
        ensures
            r is Ok <==> Self::valid_node(obj@),
            r is Ok ==> r->Ok_0.matches(obj@),
            r is Err ==> r->Err_0 is UnmarshallingError,
    {
        let attrs = obj.attributes();
        let v_name_qualifier = read_str_attr(attrs, "NameQualifier");
        let v_sp_name_qualifier = read_str_attr(attrs, "SPNameQualifier");
        let v_format = read_str_attr(attrs, "Format");
        let v_sp_provided_id = read_str_attr(attrs, "SPProvidedID");
        let f_value = match obj.text() {
            Some(s) => Some(s.clone()),
            None => None,
        };
        Ok(NameID {
            name_qualifier: v_name_qualifier,
            sp_name_qualifier: v_sp_name_qualifier,
            format: v_format,
            sp_provided_id: v_sp_provided_id,
            value: f_value,
        })
    }

    /// Writes the element as a node: its name in its namespace, the
    /// attributes that are set, its text and its children.
    pub fn to_xml(&self) -> (r: XmlObject)
        ensures
            r@ == self.spec_node(),
    {
        let mut x = XmlObject::new(Some("urn:oasis:names:tc:SAML:2.0:assertion".to_owned()), "NameID".to_owned(), Some("saml2".to_owned()));
        x.add_namespace("saml2".to_owned(), "urn:oasis:names:tc:SAML:2.0:assertion".to_owned());
        write_opt_attr(&mut x, "NameQualifier", clone_opt(&self.name_qualifier));
        write_opt_attr(&mut x, "SPNameQualifier", clone_opt(&self.sp_name_qualifier));
        write_opt_attr(&mut x, "Format", clone_opt(&self.format));
        write_opt_attr(&mut x, "SPProvidedID", clone_opt(&self.sp_provided_id));
        match &self.value {
            Some(s) => x.set_text(Some(s.clone())),
            None => {},
        }
        proof {
            assert(x@.attributes =~= self.spec_node().attributes);
            assert(x@.children =~= self.spec_node().children);
        }
        x
    }

    pub fn name_qualifier(&self) -> (r: Option<&String>)
        ensures
            r is Some <==> self.name_qualifier is Some,
            r is Some ==> *r->0 == self.name_qualifier->0,
    {
        self.name_qualifier.as_ref()
    }

    pub fn set_name_qualifier(&mut self, name_qualifier: Option<String>)
        ensures
            *final(self) == (NameID { name_qualifier, ..*old(self) }),
    {
        self.name_qualifier = name_qualifier;
    }

    pub fn sp_name_qualifier(&self) -> (r: Option<&String>)
        ensures
            r is Some <==> self.sp_name_qualifier is Some,
            r is Some ==> *r->0 == self.sp_name_qualifier->0,
    {
        self.sp_name_qualifier.as_ref()
    }

    pub fn set_sp_name_qualifier(&mut self, sp_name_qualifier: Option<String>)
        ensures
            *final(self) == (NameID { sp_name_qualifier, ..*old(self) }),
    {
        self.sp_name_qualifier = sp_name_qualifier;
    }

    pub fn format(&self) -> (r: Option<&String>)
        ensures
            r is Some <==> self.format is Some,
            r is Some ==> *r->0 == self.format->0,
    {
        self.format.as_ref()
    }

    pub fn set_format(&mut self, format: Option<String>)
        ensures
            *final(self) == (NameID { format, ..*old(self) }),
    {
        self.format = format;
    }

    pub fn sp_provided_id(&self) -> (r: Option<&String>)
        ensures
            r is Some <==> self.sp_provided_id is Some,
            r is Some ==> *r->0 == self.sp_provided_id->0,
    {
        self.sp_provided_id.as_ref()
    }

    pub fn set_sp_provided_id(&mut self, sp_provided_id: Option<String>)
        ensures
            *final(self) == (NameID { sp_provided_id, ..*old(self) }),
    {
        self.sp_provided_id = sp_provided_id;
    }

    pub fn value(&self) -> (r: Option<&String>)
        ensures
            r is Some <==> self.value is Some,
            r is Some ==> *r->0 == self.value->0,
    {
        self.value.as_ref()
    }

    pub fn set_value(&mut self, value: Option<String>)
        ensures
            *final(self) == (NameID { value, ..*old(self) }),
    {
        self.value = value;
    }

    /// The value survives being written and read back: versions are known
    /// ones, timestamps read back as themselves, kept nodes carry the name
    /// of their slot and open content stays clear of the names read here.
    pub open spec fn wf(self) -> bool
    {
        true
    }

    /// Writing the element and reading the node back gives the element again.
    pub proof fn lemma_round_trip(self)
        requires
            self.wf(),
        ensures
            Self::valid_node(self.spec_node()),
            self.matches(self.spec_node()),
    {
        let n = self.spec_node();
        Self::lemma_attr_names();
    }

}

impl Element for NameID {
    open spec fn node_ok(n: Node) -> bool {
        Self::valid_node(n)
    }

    open spec fn node_matches(self, n: Node) -> bool {
        self.matches(n)
    }

    open spec fn node_spec(self) -> Node {
        self.spec_node()
    }

    fn read(obj: &XmlObject) -> (r: Result<Self, SAMLError>) {
        Self::try_from_xml(obj)
    }

    fn write(&self) -> (r: XmlObject) {
        self.to_xml()
    }
}

} // verus!
