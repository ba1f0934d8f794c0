use vstd::prelude::*;

use crate::error::SAMLError;
use crate::schema::fields::{group_binding, lemma_named_all, lemma_named_none, named, opt_nodes, push_node};
use crate::schema::binding::{read_child_vec, read_opt_child, write_child_vec, write_opt_child, Element};
use crate::xml::q_name::QNameView;
use crate::xml::{Node, Pair, XmlObject};
use crate::schema::get_complete::GetComplete;
use crate::schema::idp_entry::IDPEntry;

verus! {

broadcast use group_binding;

/// The identity providers that a requester trusts.
#[derive(Debug)]
pub struct IDPList {
    pub idp_entry: Vec<IDPEntry>,
    pub get_complete: Option<GetComplete>,
}

impl IDPList {
    pub const ELEMENT_NAME: &'static str = "IDPList";
    pub const NS_PREFIX: &'static str = "saml2p";
    pub const NS_URI: &'static str = "urn:oasis:names:tc:SAML:2.0:protocol";

    proof fn lemma_child_names()
        ensures
            "IDPEntry"@ != "GetComplete"@,
    {
        reveal_strlit("GetComplete");
        reveal_strlit("IDPEntry");
        assert("IDPEntry"@.len() != "GetComplete"@.len());
    }

    /// The node can be read as this element: every typed value parses,
    /// required parts are present and every known child can be read.
    pub open spec fn valid_node(n: Node) -> bool
    {
        (forall|m: int| 0 <= m < named(n.children, "IDPEntry"@).len() ==> IDPEntry::valid_node(#[trigger] named(n.children, "IDPEntry"@)[m]))
        && (forall|m: int| 0 <= m < named(n.children, "GetComplete"@).len() ==> GetComplete::valid_node(#[trigger] named(n.children, "GetComplete"@)[m]))
    }

    /// The element holds what the node says.
    pub open spec fn matches(self, n: Node) -> bool
    {
        self.idp_entry@.len() == named(n.children, "IDPEntry"@).len()
        && (forall|m: int| 0 <= m < self.idp_entry@.len() ==> #[trigger] self.idp_entry@[m].matches(named(n.children, "IDPEntry"@)[m]))
        && (if named(n.children, "GetComplete"@).len() > 0 { self.get_complete is Some && self.get_complete->0.matches(named(n.children, "GetComplete"@).last()) } else { self.get_complete is None })
    }

    /// The node that the element is written as.
    pub open spec fn spec_node(self) -> Node
    {
        Node {
            name: QNameView { namespace_uri: Some("urn:oasis:names:tc:SAML:2.0:protocol"@), local_name: "IDPList"@, prefix: Some("saml2p"@) },
            attributes: Seq::<Pair>::empty(),
            namespaces: seq![("saml2p"@, "urn:oasis:names:tc:SAML:2.0:protocol"@)],
            text: None,
            children: push_node(Seq::<Node>::empty() + self.idp_entry@.map_values(|c: IDPEntry| c.node_spec()), match self.get_complete { Some(c) => Some(c.spec_node()), None => None }),
        }
    }

    /// Reads the element from a node: the last occurrence of an attribute
    /// or of a single-valued child wins, repeated children are kept in
    /// order, and the first part that cannot be read fails the whole element.
    #[verifier::loop_isolation(false)]
    pub fn try_from_xml(obj: &XmlObject) -> (r: Result<IDPList, SAMLError>)
        ensures
            r is Ok <==> Self::valid_node(obj@),
            r is Ok ==> r->Ok_0.matches(obj@),
            r is Err ==> r->Err_0 is UnmarshallingError,
    {
        let children = obj.children();
        let v_idp_entry = match read_child_vec::<IDPEntry>(children, "IDPEntry") {
            Ok(v) => v,
            Err(err) => {
                return Err(err);
            },
        };
        let v_get_complete = match read_opt_child::<GetComplete>(children, "GetComplete") {
            Ok(v) => v,
            Err(err) => {
                return Err(err);
            },
        };
        Ok(IDPList {
            idp_entry: v_idp_entry,
            get_complete: v_get_complete,
        })
    }

    /// Writes the element as a node: its name in its namespace, the
    /// attributes that are set, its text and its children.
    pub fn to_xml(&self) -> (r: XmlObject)
        ensures
            r@ == self.spec_node(),
    {
        let mut x = XmlObject::new(Some("urn:oasis:names:tc:SAML:2.0:protocol".to_owned()), "IDPList".to_owned(), Some("saml2p".to_owned()));
        x.add_namespace("saml2p".to_owned(), "urn:oasis:names:tc:SAML:2.0:protocol".to_owned());
        write_child_vec(&mut x, &self.idp_entry);
        write_opt_child(&mut x, &self.get_complete);
        proof {
            assert(x@.attributes =~= self.spec_node().attributes);
            assert(x@.children =~= self.spec_node().children);
        }
        x
    }

    pub fn idp_entry(&self) -> (r: &Vec<IDPEntry>)
        ensures
            *r == self.idp_entry,
    {
        &self.idp_entry
    }

    pub fn set_idp_entry(&mut self, idp_entry: Vec<IDPEntry>)
        ensures
            *final(self) == (IDPList { idp_entry, ..*old(self) }),
    {
        self.idp_entry = idp_entry;
    }

    pub fn add_idp_entry(&mut self, item: IDPEntry)
        ensures
            final(self).idp_entry@ == old(self).idp_entry@.push(item),
            final(self).get_complete == old(self).get_complete,
    {
        self.idp_entry.push(item);
    }

    pub fn get_complete(&self) -> (r: Option<&GetComplete>)
        ensures
            r is Some <==> self.get_complete is Some,
            r is Some ==> *r->0 == self.get_complete->0,
    {
        self.get_complete.as_ref()
    }

    pub fn set_get_complete(&mut self, get_complete: Option<GetComplete>)
        ensures
            *final(self) == (IDPList { get_complete, ..*old(self) }),
    {
        self.get_complete = get_complete;
    }

    /// The value survives being written and read back: versions are known
    /// ones, timestamps read back as themselves, kept nodes carry the name
    /// of their slot and open content stays clear of the names read here.
    pub open spec fn wf(self) -> bool
    {
        (forall|m: int| 0 <= m < self.idp_entry@.len() ==> (#[trigger] self.idp_entry@[m]).wf())
        && (match self.get_complete { Some(v) => v.wf(), None => true })
    }

    /// Writing the element and reading the node back gives the element again.
    pub proof fn lemma_round_trip(self)
        requires
            self.wf(),
        ensures
            Self::valid_node(self.spec_node()),
            self.matches(self.spec_node()),
    {
        let n = self.spec_node();
        Self::lemma_child_names();
        let part1 = self.idp_entry@.map_values(|c: IDPEntry| c.node_spec());
        let part2 = opt_nodes(match self.get_complete { Some(c) => Some(c.spec_node()), None => None });
        assert(n.children =~= part1 + part2);
        {
            lemma_named_all(part1, "IDPEntry"@);
            lemma_named_none(part2, "IDPEntry"@);
            assert(named(n.children, "IDPEntry"@) =~= named(part1, "IDPEntry"@) + named(part2, "IDPEntry"@));
        }
        {
            lemma_named_none(part1, "GetComplete"@);
            lemma_named_all(part2, "GetComplete"@);
            assert(named(n.children, "GetComplete"@) =~= named(part1, "GetComplete"@) + named(part2, "GetComplete"@));
        }
        assert forall|m: int| 0 <= m < self.idp_entry@.len() implies IDPEntry::valid_node(#[trigger] self.idp_entry@[m].spec_node()) && self.idp_entry@[m].matches(self.idp_entry@[m].spec_node()) by {
            self.idp_entry@[m].lemma_round_trip();
        }
        match self.get_complete {
            Some(v) => v.lemma_round_trip(),
            None => {},
        }
    }

}

impl Element for IDPList {
    open spec fn node_ok(n: Node) -> bool {
        Self::valid_node(n)
    }

    open spec fn node_matches(self, n: Node) -> bool {
        self.matches(n)
    }

    open spec fn node_spec(self) -> Node {
        self.spec_node()
    }

    fn read(obj: &XmlObject) -> (r: Result<Self, SAMLError>) {
        Self::try_from_xml(obj)
    }

    fn write(&self) -> (r: XmlObject) {
        self.to_xml()
    }
}

} // verus!
