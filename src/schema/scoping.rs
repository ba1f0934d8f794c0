use vstd::prelude::*;

use crate::error::SAMLError;
use crate::schema::fields::{attr_last, attrs_ok, group_binding, lemma_named_all, lemma_named_none, named, opt_nodes, push_attr, push_node};
use crate::schema::values::{i32_of, lemma_signed_round_trip, signed_text};
use crate::schema::binding::{format_opt_i32, read_child_vec, read_i32_attr, read_opt_child, write_child_vec, write_opt_attr, write_opt_child, Element};
use crate::xml::q_name::QNameView;
use crate::xml::{Node, Pair, XmlObject};
use crate::schema::idp_list::IDPList;
use crate::schema::requester_id::RequesterID;

verus! {

broadcast use group_binding;

/// Which identity providers may handle a request, and through how many proxies.
#[derive(Debug)]
pub struct Scoping {
    pub proxy_count: Option<i32>,
    pub idp_list: Option<IDPList>,
    pub requester_ids: Vec<RequesterID>,
}

impl Scoping {
    pub const ELEMENT_NAME: &'static str = "Scoping";
    pub const NS_PREFIX: &'static str = "saml2p";
    pub const NS_URI: &'static str = "urn:oasis:names:tc:SAML:2.0:protocol";

    proof fn lemma_child_names()
        ensures
            "IDPList"@ != "RequesterID"@,
    {
        reveal_strlit("IDPList");
        reveal_strlit("RequesterID");
        assert("IDPList"@.len() != "RequesterID"@.len());
    }

    /// The node can be read as this element: every typed value parses,
    /// required parts are present and every known child can be read.
    pub open spec fn valid_node(n: Node) -> bool
    {
        attrs_ok(n.attributes, "ProxyCount"@, |t: Seq<char>| i32_of(t) is Some)
        && (forall|m: int| 0 <= m < named(n.children, "IDPList"@).len() ==> IDPList::valid_node(#[trigger] named(n.children, "IDPList"@)[m]))
        && (forall|m: int| 0 <= m < named(n.children, "RequesterID"@).len() ==> RequesterID::valid_node(#[trigger] named(n.children, "RequesterID"@)[m]))
    }

    /// The element holds what the node says.
    pub open spec fn matches(self, n: Node) -> bool
    {
        (match attr_last(n.attributes, "ProxyCount"@) { Some(t) => self.proxy_count is Some && self.proxy_count->0 == i32_of(t)->0, None => self.proxy_count is None })
        && (if named(n.children, "IDPList"@).len() > 0 { self.idp_list is Some && self.idp_list->0.matches(named(n.children, "IDPList"@).last()) } else { self.idp_list is None })
        && self.requester_ids@.len() == named(n.children, "RequesterID"@).len()
        && (forall|m: int| 0 <= m < self.requester_ids@.len() ==> #[trigger] self.requester_ids@[m].matches(named(n.children, "RequesterID"@)[m]))
    }

    /// The node that the element is written as.
    pub open spec fn spec_node(self) -> Node
    {
        Node {
            name: QNameView { namespace_uri: Some("urn:oasis:names:tc:SAML:2.0:protocol"@), local_name: "Scoping"@, prefix: Some("saml2p"@) },
            attributes: push_attr(Seq::<Pair>::empty(), "ProxyCount"@, match self.proxy_count { Some(v) => Some(signed_text(v as int)), None => None }),
            namespaces: seq![("saml2p"@, "urn:oasis:names:tc:SAML:2.0:protocol"@)],
            text: None,
            children: push_node(Seq::<Node>::empty(), match self.idp_list { Some(c) => Some(c.spec_node()), None => None }) + self.requester_ids@.map_values(|c: RequesterID| c.node_spec()),
        }
    }

    /// Reads the element from a node: the last occurrence of an attribute
    /// or of a single-valued child wins, repeated children are kept in
    /// order, and the first part that cannot be read fails the whole element.
    #[verifier::loop_isolation(false)]
    pub fn try_from_xml(obj: &XmlObject) -> (r: Result<Scoping, SAMLError>)
        ensures
            r is Ok <==> Self::valid_node(obj@),
            r is Ok ==> r->Ok_0.matches(obj@),
            r is Err ==> r->Err_0 is UnmarshallingError,
    {
        let attrs = obj.attributes();
        let v_proxy_count = match read_i32_attr(attrs, "ProxyCount") {
            Ok(v) => v,
            Err(err) => {
                return Err(err);
            },
        };
        let children = obj.children();
        let v_idp_list = match read_opt_child::<IDPList>(children, "IDPList") {
            Ok(v) => v,
            Err(err) => {
                return Err(err);
            },
        };
        let v_requester_ids = match read_child_vec::<RequesterID>(children, "RequesterID") {
            Ok(v) => v,
            Err(err) => {
                return Err(err);
            },
        };
        Ok(Scoping {
            proxy_count: v_proxy_count,
            idp_list: v_idp_list,
            requester_ids: v_requester_ids,
        })
    }

    /// Writes the element as a node: its name in its namespace, the
    /// attributes that are set, its text and its children.
    pub fn to_xml(&self) -> (r: XmlObject)
        ensures
            r@ == self.spec_node(),
    {
        let mut x = XmlObject::new(Some("urn:oasis:names:tc:SAML:2.0:protocol".to_owned()), "Scoping".to_owned(), Some("saml2p".to_owned()));
        x.add_namespace("saml2p".to_owned(), "urn:oasis:names:tc:SAML:2.0:protocol".to_owned());
        write_opt_attr(&mut x, "ProxyCount", format_opt_i32(&self.proxy_count));
        write_opt_child(&mut x, &self.idp_list);
        write_child_vec(&mut x, &self.requester_ids);
        proof {
            assert(x@.attributes =~= self.spec_node().attributes);
            assert(x@.children =~= self.spec_node().children);
        }
        x
    }

    pub fn proxy_count(&self) -> (r: Option<&i32>)
        ensures
            r is Some <==> self.proxy_count is Some,
            r is Some ==> *r->0 == self.proxy_count->0,
    {
        self.proxy_count.as_ref()
    }

    pub fn set_proxy_count(&mut self, proxy_count: Option<i32>)
        ensures
            *final(self) == (Scoping { proxy_count, ..*old(self) }),
    {
        self.proxy_count = proxy_count;
    }

    pub fn idp_list(&self) -> (r: Option<&IDPList>)
        ensures
            r is Some <==> self.idp_list is Some,
            r is Some ==> *r->0 == self.idp_list->0,
    {
        self.idp_list.as_ref()
    }

    pub fn set_idp_list(&mut self, idp_list: Option<IDPList>)
        ensures
            *final(self) == (Scoping { idp_list, ..*old(self) }),
    {
        self.idp_list = idp_list;
    }

    pub fn requester_ids(&self) -> (r: &Vec<RequesterID>)
        ensures
            *r == self.requester_ids,
    {
        &self.requester_ids
    }

    pub fn add_requester_id(&mut self, item: RequesterID)
        ensures
            final(self).requester_ids@ == old(self).requester_ids@.push(item),
            final(self).proxy_count == old(self).proxy_count,
            final(self).idp_list == old(self).idp_list,
    {
        self.requester_ids.push(item);
    }

    /// The value survives being written and read back: versions are known
    /// ones, timestamps read back as themselves, kept nodes carry the name
    /// of their slot and open content stays clear of the names read here.
    pub open spec fn wf(self) -> bool
    {
        (match self.idp_list { Some(v) => v.wf(), None => true })
        && (forall|m: int| 0 <= m < self.requester_ids@.len() ==> (#[trigger] self.requester_ids@[m]).wf())
    }

    /// Writing the element and reading the node back gives the element again.
    pub proof fn lemma_round_trip(self)
        requires
            self.wf(),
        ensures
            Self::valid_node(self.spec_node()),
            self.matches(self.spec_node()),
    {
        let n = self.spec_node();
        Self::lemma_child_names();
        match self.proxy_count {
            Some(v) => lemma_signed_round_trip(v as int),
            None => {},
        }
        let part1 = opt_nodes(match self.idp_list { Some(c) => Some(c.spec_node()), None => None });
        let part2 = self.requester_ids@.map_values(|c: RequesterID| c.node_spec());
        assert(n.children =~= part1 + part2);
        {
            lemma_named_all(part1, "IDPList"@);
            lemma_named_none(part2, "IDPList"@);
            assert(named(n.children, "IDPList"@) =~= named(part1, "IDPList"@) + named(part2, "IDPList"@));
        }
        {
            lemma_named_none(part1, "RequesterID"@);
            lemma_named_all(part2, "RequesterID"@);
            assert(named(n.children, "RequesterID"@) =~= named(part1, "RequesterID"@) + named(part2, "RequesterID"@));
        }
        match self.idp_list {
            Some(v) => v.lemma_round_trip(),
            None => {},
        }
        assert forall|m: int| 0 <= m < self.requester_ids@.len() implies RequesterID::valid_node(#[trigger] self.requester_ids@[m].spec_node()) && self.requester_ids@[m].matches(self.requester_ids@[m].spec_node()) by {
            self.requester_ids@[m].lemma_round_trip();
        }
    }

}

impl Element for Scoping {
    open spec fn node_ok(n: Node) -> bool {
        Self::valid_node(n)
    }

    open spec fn node_matches(self, n: Node) -> bool {
        self.matches(n)
    }

    open spec fn node_spec(self) -> Node {
        self.spec_node()
    }

    fn read(obj: &XmlObject) -> (r: Result<Self, SAMLError>) {
        Self::try_from_xml(obj)
    }

    fn write(&self) -> (r: XmlObject) {
        self.to_xml()
    }
}

} // verus!
