use vstd::prelude::*;

use crate::error::SAMLError;
use crate::schema::fields::{attr_last, group_binding, push_attr};
use crate::schema::binding::{read_str_attr, write_opt_attr, Element};
use crate::xml::q_name::{clone_opt, opt_view, QNameView};
use crate::xml::{Node, Pair, XmlObject};

verus! {

broadcast use group_binding;

/// An identity provider that may be asked.
#[derive(Debug)]
pub struct IDPEntry {
    pub provider_id: String,
    pub name: Option<String>,
    pub loc: Option<String>,
}

impl IDPEntry {
    pub const ELEMENT_NAME: &'static str = "IDPEntry";
    pub const NS_PREFIX: &'static str = "saml2p";
    pub const NS_URI: &'static str = "urn:oasis:names:tc:SAML:2.0:protocol";

    proof fn lemma_attr_names()
        ensures
            "ProviderID"@ != "Name"@,
            "ProviderID"@ != "Loc"@,
            "Name"@ != "Loc"@,
    {
        reveal_strlit("Loc");
        reveal_strlit("Name");
        reveal_strlit("ProviderID");
        assert("ProviderID"@.len() != "Name"@.len());
        assert("ProviderID"@.len() != "Loc"@.len());
        assert("Name"@.len() != "Loc"@.len());
    }

    /// The node can be read as this element: every typed value parses,
    /// required parts are present and every known child can be read.
    pub open spec fn valid_node(n: Node) -> bool
    {
        attr_last(n.attributes, "ProviderID"@) is Some
    }

    /// The element holds what the node says.
    pub open spec fn matches(self, n: Node) -> bool
    {
        attr_last(n.attributes, "ProviderID"@) == Some(self.provider_id@)
        && (match attr_last(n.attributes, "Name"@) { Some(t) => self.name is Some && self.name->0@ == t, None => self.name is None })
        && (match attr_last(n.attributes, "Loc"@) { Some(t) => self.loc is Some && self.loc->0@ == t, None => self.loc is None })
    }

    /// The node that the element is written as.
    pub open spec fn spec_node(self) -> Node
    {
        Node {
            name: QNameView { namespace_uri: Some("urn:oasis:names:tc:SAML:2.0:protocol"@), local_name: "IDPEntry"@, prefix: Some("saml2p"@) },
            attributes: push_attr(push_attr(Seq::<Pair>::empty().push(("ProviderID"@, self.provider_id@)), "Name"@, opt_view(self.name)), "Loc"@, opt_view(self.loc)),
            namespaces: seq![("saml2p"@, "urn:oasis:names:tc:SAML:2.0:protocol"@)],
            text: None,
            children: Seq::<Node>::empty(),
        }
    }

    /// Reads the element from a node: the last occurrence of an attribute
    /// or of a single-valued child wins, repeated children are kept in
    /// order, and the first part that cannot be read fails the whole element.
    #[verifier::loop_isolation(false)]
    pub fn try_from_xml(obj: &XmlObject) -> (r: Result<IDPEntry, SAMLError>)
        ensures
            r is Ok <==> Self::valid_node(obj@),
            r is Ok ==> r->Ok_0.matches(obj@),
            r is Err ==> r->Err_0 is UnmarshallingError,
    {
        let attrs = obj.attributes();
        let v_provider_id = read_str_attr(attrs, "ProviderID");
        let v_name = read_str_attr(attrs, "Name");
        let v_loc = read_str_attr(attrs, "Loc");
        let f_provider_id = match v_provider_id {
            Some(x) => x,
            None => {
                return Err(SAMLError::unmarshalling("missing attribute ProviderID"));
            },
        };
        Ok(IDPEntry {
            provider_id: f_provider_id,
            name: v_name,
            loc: v_loc,
        })
    }

    /// Writes the element as a node: its name in its namespace, the
    /// attributes that are set, its text and its children.
    pub fn to_xml(&self) -> (r: XmlObject)
        ensures
            r@ == self.spec_node(),
    {
        let mut x = XmlObject::new(Some("urn:oasis:names:tc:SAML:2.0:protocol".to_owned()), "IDPEntry".to_owned(), Some("saml2p".to_owned()));
        x.add_namespace("saml2p".to_owned(), "urn:oasis:names:tc:SAML:2.0:protocol".to_owned());
        x.add_attribute("ProviderID".to_owned(), self.provider_id.clone());
        write_opt_attr(&mut x, "Name", clone_opt(&self.name));
        write_opt_attr(&mut x, "Loc", clone_opt(&self.loc));
        proof {
            assert(x@.attributes =~= self.spec_node().attributes);
            assert(x@.children =~= self.spec_node().children);
        }
        x
    }

    pub fn provider_id(&self) -> (r: &String)
        ensures
            *r == self.provider_id,
    {
        &self.provider_id
    }

    pub fn set_provider_id(&mut self, provider_id: String)
        ensures
            *final(self) == (IDPEntry { provider_id, ..*old(self) }),
    {
        self.provider_id = provider_id;
    }

    pub fn name(&self) -> (r: Option<&String>)
        ensures
            r is Some <==> self.name is Some,
            r is Some ==> *r->0 == self.name->0,
    {
        self.name.as_ref()
    }

    pub fn set_name(&mut self, name: Option<String>)
        ensures
            *final(self) == (IDPEntry { name, ..*old(self) }),
    {
        self.name = name;
    }

    pub fn loc(&self) -> (r: Option<&String>)
        ensures
            r is Some <==> self.loc is Some,
            r is Some ==> *r->0 == self.loc->0,
    {
        self.loc.as_ref()
    }

    pub fn set_loc(&mut self, loc: Option<String>)
        ensures
            *final(self) == (IDPEntry { loc, ..*old(self) }),
    {
        self.loc = loc;
    }

    /// The value survives being written and read back: versions are known
    /// ones, timestamps read back as themselves, kept nodes carry the name
    /// of their slot and open content stays clear of the names read here.
    pub open spec fn wf(self) -> bool
    {
        true
    }

    /// Writing the element and reading the node back gives the element again.
    pub proof fn lemma_round_trip(self)
        requires
            self.wf(),
        ensures
            Self::valid_node(self.spec_node()),
            self.matches(self.spec_node()),
    {
        let n = self.spec_node();
        Self::lemma_attr_names();
    }

}

impl Element for IDPEntry {
    open spec fn node_ok(n: Node) -> bool {
        Self::valid_node(n)
    }

    open spec fn node_matches(self, n: Node) -> bool {
        self.matches(n)
    }

    open spec fn node_spec(self) -> Node {
        self.spec_node()
    }

    fn read(obj: &XmlObject) -> (r: Result<Self, SAMLError>) {
        Self::try_from_xml(obj)
    }

    fn write(&self) -> (r: XmlObject) {
        self.to_xml()
    }
}

} // verus!
