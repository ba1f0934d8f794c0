use vstd::prelude::*;

use crate::error::SAMLError;
use crate::schema::fields::{attr_last, group_binding, push_attr};
use crate::schema::binding::{read_str_attr, write_opt_attr, Element};
use crate::xml::q_name::{clone_opt, opt_view, QNameView};
use crate::xml::{Node, Pair, XmlObject};

verus! {

broadcast use group_binding;

/// Constraints on the identifier of the subject to be returned.
#[derive(Debug)]
pub struct NameIDPolicy {
    pub format: Option<String>,
    pub sp_name_qualifier: Option<String>,
    pub allows_create: Option<String>,
}

impl NameIDPolicy {
    pub const ELEMENT_NAME: &'static str = "NameIDPolicy";
    pub const NS_PREFIX: &'static str = "saml2p";
    pub const NS_URI: &'static str = "urn:oasis:names:tc:SAML:2.0:protocol";

    proof fn lemma_attr_names()
        ensures
            "Format"@ != "SPNameQualifier"@,
            "Format"@ != "AllowCreate"@,
            "SPNameQualifier"@ != "AllowCreate"@,
    {
        reveal_strlit("AllowCreate");
        reveal_strlit("Format");
        reveal_strlit("SPNameQualifier");
        assert("Format"@.len() != "SPNameQualifier"@.len());
        assert("Format"@.len() != "AllowCreate"@.len());
        assert("SPNameQualifier"@.len() != "AllowCreate"@.len());
    }

    /// The node can be read as this element: every typed value parses,
    /// required parts are present and every known child can be read.
    pub open spec fn valid_node(n: Node) -> bool
    {
        true
    }

    /// The element holds what the node says.
    pub open spec fn matches(self, n: Node) -> bool
    {
        (match attr_last(n.attributes, "Format"@) { Some(t) => self.format is Some && self.format->0@ == t, None => self.format is None })
        && (match attr_last(n.attributes, "SPNameQualifier"@) { Some(t) => self.sp_name_qualifier is Some && self.sp_name_qualifier->0@ == t, None => self.sp_name_qualifier is None })
        && (match attr_last(n.attributes, "AllowCreate"@) { Some(t) => self.allows_create is Some && self.allows_create->0@ == t, None => self.allows_create is None })
    }

    /// The node that the element is written as.
    pub open spec fn spec_node(self) -> Node
    {
        Node {
            name: QNameView { namespace_uri: Some("urn:oasis:names:tc:SAML:2.0:protocol"@), local_name: "NameIDPolicy"@, prefix: Some("saml2p"@) },
            attributes: push_attr(push_attr(push_attr(Seq::<Pair>::empty(), "Format"@, opt_view(self.format)), "SPNameQualifier"@, opt_view(self.sp_name_qualifier)), "AllowCreate"@, opt_view(self.allows_create)),
            namespaces: seq![("saml2p"@, "urn:oasis:names:tc:SAML:2.0:protocol"@)],
            text: None,
            children: Seq::<Node>::empty(),
        }
    }

    /// Reads the element from a node: the last occurrence of an attribute
    /// or of a single-valued child wins, repeated children are kept in
    /// order, and the first part that cannot be read fails the whole element.
    #[verifier::loop_isolation(false)]
    pub fn try_from_xml(obj: &XmlObject) -> (r: Result<NameIDPolicy, SAMLError>)
        ensures
            r is Ok <==> Self::valid_node(obj@),
            r is Ok ==> r->Ok_0.matches(obj@),
            r is Err ==> r->Err_0 is UnmarshallingError,
    {
        let attrs = obj.attributes();
        let v_format = read_str_attr(attrs, "Format");
        let v_sp_name_qualifier = read_str_attr(attrs, "SPNameQualifier");
        let v_allows_create = read_str_attr(attrs, "AllowCreate");
        Ok(NameIDPolicy {
            format: v_format,
            sp_name_qualifier: v_sp_name_qualifier,
            allows_create: v_allows_create,
        })
    }

    /// Writes the element as a node: its name in its namespace, the
    /// attributes that are set, its text and its children.
    pub fn to_xml(&self) -> (r: XmlObject)
        ensures
            r@ == self.spec_node(),
    {
        let mut x = XmlObject::new(Some("urn:oasis:names:tc:SAML:2.0:protocol".to_owned()), "NameIDPolicy".to_owned(), Some("saml2p".to_owned()));
        x.add_namespace("saml2p".to_owned(), "urn:oasis:names:tc:SAML:2.0:protocol".to_owned());
        write_opt_attr(&mut x, "Format", clone_opt(&self.format));
        write_opt_attr(&mut x, "SPNameQualifier", clone_opt(&self.sp_name_qualifier));
        write_opt_attr(&mut x, "AllowCreate", clone_opt(&self.allows_create));
        proof {
            assert(x@.attributes =~= self.spec_node().attributes);
            assert(x@.children =~= self.spec_node().children);
        }
        x
    }

    pub fn format(&self) -> (r: Option<&String>)
        ensures
            r is Some <==> self.format is Some,
            r is Some ==> *r->0 == self.format->0,
    {
        self.format.as_ref()
    }

    pub fn set_format(&mut self, format: Option<String>)
        ensures
            *final(self) == (NameIDPolicy { format, ..*old(self) }),
    {
        self.format = format;
    }

    pub fn sp_name_qualifier(&self) -> (r: Option<&String>)
        ensures
            r is Some <==> self.sp_name_qualifier is Some,
            r is Some ==> *r->0 == self.sp_name_qualifier->0,
    {
        self.sp_name_qualifier.as_ref()
    }

    pub fn set_sp_name_qualifier(&mut self, sp_name_qualifier: Option<String>)
        ensures
            *final(self) == (NameIDPolicy { sp_name_qualifier, ..*old(self) }),
    {
        self.sp_name_qualifier = sp_name_qualifier;
    }

    pub fn allows_create(&self) -> (r: Option<&String>)
        ensures
            r is Some <==> self.allows_create is Some,
            r is Some ==> *r->0 == self.allows_create->0,
    {
        self.allows_create.as_ref()
    }

    pub fn set_allows_create(&mut self, allows_create: Option<String>)
        ensures
            *final(self) == (NameIDPolicy { allows_create, ..*old(self) }),
    {
        self.allows_create = allows_create;
    }

    /// An element with every part unset.
    pub fn new() -> (r: NameIDPolicy)
        ensures
            r == (NameIDPolicy { format: None, sp_name_qualifier: None, allows_create: None }),
    {
        NameIDPolicy { format: None, sp_name_qualifier: None, allows_create: None }
    }

    /// The value survives being written and read back: versions are known
    /// ones, timestamps read back as themselves, kept nodes carry the name
    /// of their slot and open content stays clear of the names read here.
    pub open spec fn wf(self) -> bool
    {
        true
    }

    /// Writing the element and reading the node back gives the element again.
    pub proof fn lemma_round_trip(self)
        requires
            self.wf(),
        ensures
            Self::valid_node(self.spec_node()),
            self.matches(self.spec_node()),
    {
        let n = self.spec_node();
        Self::lemma_attr_names();
    }

}

impl Element for NameIDPolicy {
    open spec fn node_ok(n: Node) -> bool {
        Self::valid_node(n)
    }

    open spec fn node_matches(self, n: Node) -> bool {
        self.matches(n)
    }

    open spec fn node_spec(self) -> Node {
        self.spec_node()
    }

    fn read(obj: &XmlObject) -> (r: Result<Self, SAMLError>) {
        Self::try_from_xml(obj)
    }

    fn write(&self) -> (r: XmlObject) {
        self.to_xml()
    }
}

} // verus!
