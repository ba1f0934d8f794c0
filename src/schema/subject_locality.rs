use vstd::prelude::*;

use crate::error::SAMLError;
use crate::schema::fields::{attr_last, group_binding, push_attr};
use crate::schema::binding::{read_str_attr, write_opt_attr, Element};
use crate::xml::q_name::{clone_opt, opt_view, QNameView};
use crate::xml::{Node, Pair, XmlObject};

verus! {

broadcast use group_binding;

/// Where the subject was authenticated.
#[derive(Debug)]
pub struct SubjectLocality {
    pub address: Option<String>,
    pub dns_name: Option<String>,
}

impl SubjectLocality {
    pub const ELEMENT_NAME: &'static str = "SubjectLocality";
    pub const NS_PREFIX: &'static str = "saml2";
    pub const NS_URI: &'static str = "urn:oasis:names:tc:SAML:2.0:assertion";

    proof fn lemma_attr_names()
        ensures
            "Address"@ != "DNSName"@,
    {
        reveal_strlit("Address");
        reveal_strlit("DNSName");
        assert("Address"@[0] != "DNSName"@[0]);
    }

    /// The node can be read as this element: every typed value parses,
    /// required parts are present and every known child can be read.
    pub open spec fn valid_node(n: Node) -> bool
    {
        true
    }

    /// The element holds what the node says.
    pub open spec fn matches(self, n: Node) -> bool
    {
        (match attr_last(n.attributes, "Address"@) { Some(t) => self.address is Some && self.address->0@ == t, None => self.address is None })
        && (match attr_last(n.attributes, "DNSName"@) { Some(t) => self.dns_name is Some && self.dns_name->0@ == t, None => self.dns_name is None })
    }

    /// The node that the element is written as.
    pub open spec fn spec_node(self) -> Node
    {
        Node {
            name: QNameView { namespace_uri: Some("urn:oasis:names:tc:SAML:2.0:assertion"@), local_name: "SubjectLocality"@, prefix: Some("saml2"@) },
            attributes: push_attr(push_attr(Seq::<Pair>::empty(), "Address"@, opt_view(self.address)), "DNSName"@, opt_view(self.dns_name)),
            namespaces: seq![("saml2"@, "urn:oasis:names:tc:SAML:2.0:assertion"@)],
            text: None,
            children: Seq::<Node>::empty(),
        }
    }

    /// Reads the element from a node: the last occurrence of an attribute
    /// or of a single-valued child wins, repeated children are kept in
    /// order, and the first part that cannot be read fails the whole element.
    #[verifier::loop_isolation(false)]
    pub fn try_from_xml(obj: &XmlObject) -> (r: Result<SubjectLocality, SAMLError>)
        ensures
            r is Ok <==> Self::valid_node(obj@),
            r is Ok ==> r->Ok_0.matches(obj@),
            r is Err ==> r->Err_0 is UnmarshallingError,
    {
        let attrs = obj.attributes();
        let v_address = read_str_attr(attrs, "Address");
        let v_dns_name = read_str_attr(attrs, "DNSName");
        Ok(SubjectLocality {
            address: v_address,
            dns_name: v_dns_name,
        })
    }

    /// Writes the element as a node: its name in its namespace, the
    /// attributes that are set, its text and its children.
    pub fn to_xml(&self) -> (r: XmlObject)
        ensures
            r@ == self.spec_node(),
    {
        let mut x = XmlObject::new(Some("urn:oasis:names:tc:SAML:2.0:assertion".to_owned()), "SubjectLocality".to_owned(), Some("saml2".to_owned()));
        x.add_namespace("saml2".to_owned(), "urn:oasis:names:tc:SAML:2.0:assertion".to_owned());
        write_opt_attr(&mut x, "Address", clone_opt(&self.address));
        write_opt_attr(&mut x, "DNSName", clone_opt(&self.dns_name));
        proof {
            assert(x@.attributes =~= self.spec_node().attributes);
            assert(x@.children =~= self.spec_node().children);
        }
        x
    }

    pub fn address(&self) -> (r: Option<&String>)
        ensures
            r is Some <==> self.address is Some,
            r is Some ==> *r->0 == self.address->0,
    {
        self.address.as_ref()
    }

    pub fn set_address(&mut self, address: Option<String>)
        ensures
            *final(self) == (SubjectLocality { address, ..*old(self) }),
    {
        self.address = address;
    }

    pub fn dns_name(&self) -> (r: Option<&String>)
        ensures
            r is Some <==> self.dns_name is Some,
            r is Some ==> *r->0 == self.dns_name->0,
    {
        self.dns_name.as_ref()
    }

    pub fn set_dns_name(&mut self, dns_name: Option<String>)
        ensures
            *final(self) == (SubjectLocality { dns_name, ..*old(self) }),
    {
        self.dns_name = dns_name;
    }

    /// The value survives being written and read back: versions are known
    /// ones, timestamps read back as themselves, kept nodes carry the name
    /// of their slot and open content stays clear of the names read here.
    pub open spec fn wf(self) -> bool
    {
        true
    }

    /// Writing the element and reading the node back gives the element again.
    pub proof fn lemma_round_trip(self)
        requires
            self.wf(),
        ensures
            Self::valid_node(self.spec_node()),
            self.matches(self.spec_node()),
    {
        let n = self.spec_node();
        Self::lemma_attr_names();
    }

}

impl Element for SubjectLocality {
    open spec fn node_ok(n: Node) -> bool {
        Self::valid_node(n)
    }

    open spec fn node_matches(self, n: Node) -> bool {
        self.matches(n)
    }

    open spec fn node_spec(self) -> Node {
        self.spec_node()
    }

    fn read(obj: &XmlObject) -> (r: Result<Self, SAMLError>) {
        Self::try_from_xml(obj)
    }

    fn write(&self) -> (r: XmlObject) {
        self.to_xml()
    }
}

} // verus!
