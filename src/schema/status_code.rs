use vstd::prelude::*;

use crate::error::SAMLError;
use crate::schema::fields::{attr_last, group_binding, last_index, lemma_last_index, lemma_named_all, local_name_is, named, opt_nodes, push_node};
use crate::schema::values::name_is;
use crate::schema::binding::Element;
use crate::xml::q_name::QNameView;
use crate::xml::{lemma_nodes_of, nodes_of, pairs_view, Node, Pair, XmlObject};

verus! {

broadcast use group_binding;

/// A status code, possibly refined by a nested one.
#[derive(Debug)]
pub struct StatusCode {
    pub value: String,
    pub status_code: Option<Box<StatusCode>>,
}

impl StatusCode {
    pub const ELEMENT_NAME: &'static str = "StatusCode";
    pub const NS_PREFIX: &'static str = "saml2p";
    pub const NS_URI: &'static str = "urn:oasis:names:tc:SAML:2.0:protocol";

    /// The node can be read as this element: every typed value parses,
    /// required parts are present and every known child can be read.
    pub open spec fn valid_node(n: Node) -> bool
        decreases n,
    {
        attr_last(n.attributes, "Value"@) is Some
        && (forall|i: int| 0 <= i < n.children.len() && (#[trigger] n.children[i]).name.local_name == "StatusCode"@ ==> StatusCode::valid_node(n.children[i]))
    }

    /// The element holds what the node says.
    pub open spec fn matches(self, n: Node) -> bool
        decreases n,
    {
        attr_last(n.attributes, "Value"@) == Some(self.value@)
        && (if 0 <= last_index(n.children, "StatusCode"@) < n.children.len() { self.status_code is Some && self.status_code->0.matches(n.children[last_index(n.children, "StatusCode"@)]) } else { self.status_code is None })
    }

    /// The node that the element is written as.
    pub open spec fn spec_node(self) -> Node
        decreases self,
    {
        Node {
            name: QNameView { namespace_uri: Some("urn:oasis:names:tc:SAML:2.0:protocol"@), local_name: "StatusCode"@, prefix: Some("saml2p"@) },
            attributes: Seq::<Pair>::empty().push(("Value"@, self.value@)),
            namespaces: seq![("saml2p"@, "urn:oasis:names:tc:SAML:2.0:protocol"@)],
            text: None,
            children: push_node(Seq::<Node>::empty(), match self.status_code { Some(c) => Some((*c).spec_node()), None => None }),
        }
    }

    /// Reads the element from a node: the last occurrence of an attribute
    /// or of a single-valued child wins, repeated children are kept in
    /// order, and the first part that cannot be read fails the whole element.
    #[verifier::loop_isolation(false)]
    pub fn try_from_xml(obj: &XmlObject) -> (r: Result<StatusCode, SAMLError>)
        ensures
            r is Ok <==> Self::valid_node(obj@),
            r is Ok ==> r->Ok_0.matches(obj@),
            r is Err ==> r->Err_0 is UnmarshallingError,
        decreases obj,
    {
        let attrs = obj.attributes();
        let ghost av = obj@.attributes;
        let mut v_value: Option<String> = None;
        let mut i: usize = 0;
        while i < attrs.len()
            invariant
                0 <= i <= attrs.len(),
                pairs_view(attrs@) == av,
                (match attr_last(av.take(i as int), "Value"@) { Some(t) => v_value is Some && v_value->0@ == t, None => v_value is None }),
            decreases attrs.len() - i,
        {
            let key = &attrs[i].0;
            let value = &attrs[i].1;
            proof {
                assert(av.take(i + 1) =~= av.take(i as int).push(av[i as int]));
                assert(av[i as int] == (key@, value@));
            }
            if name_is(key, "Value") {
                v_value = Some(value.clone());
            }
            i = i + 1;
        }
        proof {
            assert(av.take(attrs.len() as int) =~= av);
        }
        let f_value = match v_value {
            Some(x) => x,
            None => {
                return Err(SAMLError::unmarshalling("missing attribute Value"));
            },
        };
        let children = obj.children();
        let ghost cv = obj@.children;
        proof {
            lemma_nodes_of(children@);
        }
        let mut v_status_code: Option<Box<StatusCode>> = None;
        let mut j: usize = 0;
        while j < children.len()
            invariant
                0 <= j <= children.len(),
                nodes_of(children@) == cv,
                cv.len() == children.len(),
                if last_index(cv.take(j as int), "StatusCode"@) >= 0 { v_status_code is Some && v_status_code->0.matches(cv[last_index(cv.take(j as int), "StatusCode"@)]) } else { v_status_code is None },
                forall|k: int| 0 <= k < j && (#[trigger] cv[k]).name.local_name == "StatusCode"@ ==> StatusCode::valid_node(cv[k]),
            decreases children.len() - j,
        {
            let child = &children[j];
            proof {
                assert(cv.take(j + 1) =~= cv.take(j as int).push(cv[j as int]));
                assert(cv[j as int] == child@);
                lemma_last_index(cv.take(j as int), "StatusCode"@);
                assert(decreases_to!(obj => obj.children@[j as int]));
            }
            if local_name_is(child, "StatusCode") {
                let x = match StatusCode::try_from_xml(child) {
                    Ok(x) => x,
                    Err(err) => {
                        return Err(err);
                    },
                };
                v_status_code = Some(Box::new(x));
            }
            j = j + 1;
        }
        proof {
            assert(cv.take(children.len() as int) =~= cv);
            lemma_last_index(cv, "StatusCode"@);
        }
        Ok(StatusCode {
            value: f_value,
            status_code: v_status_code,
        })
    }

    /// Writes the element as a node: its name in its namespace, the
    /// attributes that are set, its text and its children.
    pub fn to_xml(&self) -> (r: XmlObject)
        ensures
            r@ == self.spec_node(),
        decreases self,
    {
        let mut x = XmlObject::new(Some("urn:oasis:names:tc:SAML:2.0:protocol".to_owned()), "StatusCode".to_owned(), Some("saml2p".to_owned()));
        x.add_namespace("saml2p".to_owned(), "urn:oasis:names:tc:SAML:2.0:protocol".to_owned());
        x.add_attribute("Value".to_owned(), self.value.clone());
        let ghost pre = x@;
        match &self.status_code {
            Some(c) => {
                let y = c.to_xml();
                x.add_child(y);
                proof {
                    assert(pre.children.push(y@) =~= pre.children + seq![y@]);
                }
            },
            None => {
                proof {
                    assert(pre.children =~= pre.children + Seq::<Node>::empty());
                }
            },
        }
        proof {
            assert(x@.attributes =~= self.spec_node().attributes);
            assert(x@.children =~= self.spec_node().children);
        }
        x
    }

    pub fn value(&self) -> (r: &String)
        ensures
            *r == self.value,
    {
        &self.value
    }

    pub fn set_value(&mut self, value: String)
        ensures
            *final(self) == (StatusCode { value, ..*old(self) }),
    {
        self.value = value;
    }

    pub fn status_code(&self) -> (r: Option<&StatusCode>)
        ensures
            r is Some <==> self.status_code is Some,
            r is Some ==> *r->0 == *self.status_code->0,
    {
        match &self.status_code {
            Some(b) => Some(&**b),
            None => None,
        }
    }

    pub fn set_status_code(&mut self, status_code: Option<Box<StatusCode>>)
        ensures
            *final(self) == (StatusCode { status_code, ..*old(self) }),
    {
        self.status_code = status_code;
    }

    /// The value survives being written and read back: versions are known
    /// ones, timestamps read back as themselves, kept nodes carry the name
    /// of their slot and open content stays clear of the names read here.
    pub open spec fn wf(self) -> bool
        decreases self,
    {
        (match self.status_code { Some(b) => (*b).wf(), None => true })
    }

    /// Writing the element and reading the node back gives the element again.
    pub proof fn lemma_round_trip(self)
        requires
            self.wf(),
        ensures
            Self::valid_node(self.spec_node()),
            self.matches(self.spec_node()),
        decreases self,
    {
        let n = self.spec_node();
        let part1 = opt_nodes(match self.status_code { Some(c) => Some((*c).spec_node()), None => None });
        assert(n.children =~= part1);
        {
            lemma_named_all(part1, "StatusCode"@);
            assert(named(n.children, "StatusCode"@) =~= named(part1, "StatusCode"@));
        }
        match self.status_code {
            Some(b) => (*b).lemma_round_trip(),
            None => {},
        }
    }

}

impl Element for StatusCode {
    open spec fn node_ok(n: Node) -> bool {
        Self::valid_node(n)
    }

    open spec fn node_matches(self, n: Node) -> bool {
        self.matches(n)
    }

    open spec fn node_spec(self) -> Node {
        self.spec_node()
    }

    fn read(obj: &XmlObject) -> (r: Result<Self, SAMLError>) {
        Self::try_from_xml(obj)
    }

    fn write(&self) -> (r: XmlObject) {
        self.to_xml()
    }
}

} // verus!
