use vstd::prelude::*;

use crate::error::SAMLError;
use crate::schema::fields::{group_binding, lemma_named_all, lemma_named_none, named, opt_nodes, push_node};
use crate::schema::binding::{read_opt_child, write_opt_child, Element};
use crate::xml::q_name::QNameView;
use crate::xml::{Node, Pair, XmlObject};
use crate::schema::status_code::StatusCode;
use crate::schema::status_detail::StatusDetail;
use crate::schema::status_message::StatusMessage;

verus! {

broadcast use group_binding;

/// The outcome of a request.
#[derive(Debug)]
pub struct Status {
    pub status_code: StatusCode,
    pub status_message: Option<StatusMessage>,
    pub status_detail: Option<StatusDetail>,
}

impl Status {
    pub const ELEMENT_NAME: &'static str = "Status";
    pub const NS_PREFIX: &'static str = "saml2p";
    pub const NS_URI: &'static str = "urn:oasis:names:tc:SAML:2.0:protocol";

    proof fn lemma_child_names()
        ensures
            "StatusCode"@ != "StatusMessage"@,
            "StatusCode"@ != "StatusDetail"@,
            "StatusMessage"@ != "StatusDetail"@,
    {
        reveal_strlit("StatusCode");
        reveal_strlit("StatusDetail");
        reveal_strlit("StatusMessage");
        assert("StatusCode"@.len() != "StatusMessage"@.len());
        assert("StatusCode"@.len() != "StatusDetail"@.len());
        assert("StatusMessage"@.len() != "StatusDetail"@.len());
    }

    /// The node can be read as this element: every typed value parses,
    /// required parts are present and every known child can be read.
    pub open spec fn valid_node(n: Node) -> bool
    {
        (forall|m: int| 0 <= m < named(n.children, "StatusCode"@).len() ==> StatusCode::valid_node(#[trigger] named(n.children, "StatusCode"@)[m]))
        && named(n.children, "StatusCode"@).len() > 0
        && (forall|m: int| 0 <= m < named(n.children, "StatusMessage"@).len() ==> StatusMessage::valid_node(#[trigger] named(n.children, "StatusMessage"@)[m]))
        && (forall|m: int| 0 <= m < named(n.children, "StatusDetail"@).len() ==> StatusDetail::valid_node(#[trigger] named(n.children, "StatusDetail"@)[m]))
    }

    /// The element holds what the node says.
    pub open spec fn matches(self, n: Node) -> bool
    {
        named(n.children, "StatusCode"@).len() > 0 && self.status_code.matches(named(n.children, "StatusCode"@).last())
        && (if named(n.children, "StatusMessage"@).len() > 0 { self.status_message is Some && self.status_message->0.matches(named(n.children, "StatusMessage"@).last()) } else { self.status_message is None })
        && (if named(n.children, "StatusDetail"@).len() > 0 { self.status_detail is Some && self.status_detail->0.matches(named(n.children, "StatusDetail"@).last()) } else { self.status_detail is None })
    }

    /// The node that the element is written as.
    pub open spec fn spec_node(self) -> Node
    {
        Node {
            name: QNameView { namespace_uri: Some("urn:oasis:names:tc:SAML:2.0:protocol"@), local_name: "Status"@, prefix: Some("saml2p"@) },
            attributes: Seq::<Pair>::empty(),
            namespaces: seq![("saml2p"@, "urn:oasis:names:tc:SAML:2.0:protocol"@)],
            text: None,
            children: push_node(push_node(Seq::<Node>::empty().push(self.status_code.spec_node()), match self.status_message { Some(c) => Some(c.spec_node()), None => None }), match self.status_detail { Some(c) => Some(c.spec_node()), None => None }),
        }
    }

    /// Reads the element from a node: the last occurrence of an attribute
    /// or of a single-valued child wins, repeated children are kept in
    /// order, and the first part that cannot be read fails the whole element.
    #[verifier::loop_isolation(false)]
    pub fn try_from_xml(obj: &XmlObject) -> (r: Result<Status, SAMLError>)
        ensures
            r is Ok <==> Self::valid_node(obj@),
            r is Ok ==> r->Ok_0.matches(obj@),
            r is Err ==> r->Err_0 is UnmarshallingError,
    {
        let children = obj.children();
        let v_status_code = match read_opt_child::<StatusCode>(children, "StatusCode") {
            Ok(v) => v,
            Err(err) => {
                return Err(err);
            },
        };
        let v_status_message = match read_opt_child::<StatusMessage>(children, "StatusMessage") {
            Ok(v) => v,
            Err(err) => {
                return Err(err);
            },
        };
        let v_status_detail = match read_opt_child::<StatusDetail>(children, "StatusDetail") {
            Ok(v) => v,
            Err(err) => {
                return Err(err);
            },
        };
        let f_status_code = match v_status_code {
            Some(x) => x,
            None => {
                return Err(SAMLError::unmarshalling("missing child StatusCode"));
            },
        };
        Ok(Status {
            status_code: f_status_code,
            status_message: v_status_message,
            status_detail: v_status_detail,
        })
    }

    /// Writes the element as a node: its name in its namespace, the
    /// attributes that are set, its text and its children.
    pub fn to_xml(&self) -> (r: XmlObject)
        ensures
            r@ == self.spec_node(),
    {
        let mut x = XmlObject::new(Some("urn:oasis:names:tc:SAML:2.0:protocol".to_owned()), "Status".to_owned(), Some("saml2p".to_owned()));
        x.add_namespace("saml2p".to_owned(), "urn:oasis:names:tc:SAML:2.0:protocol".to_owned());
        x.add_child(self.status_code.to_xml());
        write_opt_child(&mut x, &self.status_message);
        write_opt_child(&mut x, &self.status_detail);
        proof {
            assert(x@.attributes =~= self.spec_node().attributes);
            assert(x@.children =~= self.spec_node().children);
        }
        x
    }

    pub fn status_code(&self) -> (r: &StatusCode)
        ensures
            *r == self.status_code,
    {
        &self.status_code
    }

    pub fn set_status_code(&mut self, status_code: StatusCode)
        ensures
            *final(self) == (Status { status_code, ..*old(self) }),
    {
        self.status_code = status_code;
    }

    pub fn status_message(&self) -> (r: Option<&StatusMessage>)
        ensures
            r is Some <==> self.status_message is Some,
            r is Some ==> *r->0 == self.status_message->0,
    {
        self.status_message.as_ref()
    }

    pub fn set_status_message(&mut self, status_message: Option<StatusMessage>)
        ensures
            *final(self) == (Status { status_message, ..*old(self) }),
    {
        self.status_message = status_message;
    }

    pub fn status_detail(&self) -> (r: Option<&StatusDetail>)
        ensures
            r is Some <==> self.status_detail is Some,
            r is Some ==> *r->0 == self.status_detail->0,
    {
        self.status_detail.as_ref()
    }

    pub fn set_status_detail(&mut self, status_detail: Option<StatusDetail>)
        ensures
            *final(self) == (Status { status_detail, ..*old(self) }),
    {
        self.status_detail = status_detail;
    }

    /// The value survives being written and read back: versions are known
    /// ones, timestamps read back as themselves, kept nodes carry the name
    /// of their slot and open content stays clear of the names read here.
    pub open spec fn wf(self) -> bool
    {
        self.status_code.wf()
        && (match self.status_message { Some(v) => v.wf(), None => true })
        && (match self.status_detail { Some(v) => v.wf(), None => true })
    }

    /// Writing the element and reading the node back gives the element again.
    pub proof fn lemma_round_trip(self)
        requires
            self.wf(),
        ensures
            Self::valid_node(self.spec_node()),
            self.matches(self.spec_node()),
    {
        let n = self.spec_node();
        Self::lemma_child_names();
        let part1 = seq![self.status_code.spec_node()];
        let part2 = opt_nodes(match self.status_message { Some(c) => Some(c.spec_node()), None => None });
        let part3 = opt_nodes(match self.status_detail { Some(c) => Some(c.spec_node()), None => None });
        assert(n.children =~= part1 + part2 + part3);
        {
            lemma_named_all(part1, "StatusCode"@);
            lemma_named_none(part2, "StatusCode"@);
            lemma_named_none(part3, "StatusCode"@);
            assert(named(n.children, "StatusCode"@) =~= named(part1, "StatusCode"@) + named(part2, "StatusCode"@) + named(part3, "StatusCode"@));
        }
        {
            lemma_named_none(part1, "StatusMessage"@);
            lemma_named_all(part2, "StatusMessage"@);
            lemma_named_none(part3, "StatusMessage"@);
            assert(named(n.children, "StatusMessage"@) =~= named(part1, "StatusMessage"@) + named(part2, "StatusMessage"@) + named(part3, "StatusMessage"@));
        }
        {
            lemma_named_none(part1, "StatusDetail"@);
            lemma_named_none(part2, "StatusDetail"@);
            lemma_named_all(part3, "StatusDetail"@);
            assert(named(n.children, "StatusDetail"@) =~= named(part1, "StatusDetail"@) + named(part2, "StatusDetail"@) + named(part3, "StatusDetail"@));
        }
        self.status_code.lemma_round_trip();
        match self.status_message {
            Some(v) => v.lemma_round_trip(),
            None => {},
        }
        match self.status_detail {
            Some(v) => v.lemma_round_trip(),
            None => {},
        }
    }

}

impl Element for Status {
    open spec fn node_ok(n: Node) -> bool {
        Self::valid_node(n)
    }

    open spec fn node_matches(self, n: Node) -> bool {
        self.matches(n)
    }

    open spec fn node_spec(self) -> Node {
        self.spec_node()
    }

    fn read(obj: &XmlObject) -> (r: Result<Self, SAMLError>) {
        Self::try_from_xml(obj)
    }

    fn write(&self) -> (r: XmlObject) {
        self.to_xml()
    }
}

} // verus!
