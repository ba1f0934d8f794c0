use vstd::prelude::*;

use crate::error::SAMLError;
use crate::schema::fields::{attr_last, attrs_ok, group_binding, lemma_attr_last_append_other, lemma_attrs_ok_append_other, lemma_filter_all, lemma_filter_none, push_attr};
use crate::schema::values::{Timestamp, name_is, timestamp_of};
use crate::schema::binding::Element;
use crate::xml::q_name::{opt_view, QNameView};
use crate::xml::{lemma_nodes_of, lemma_nodes_of_push, nodes_of, pairs_view, Node, Pair, XmlObject};

verus! {

broadcast use group_binding;

/// Data that constrains how a subject may be confirmed.
#[derive(Debug)]
pub struct SubjectConfirmationData {
    pub not_before: Option<Timestamp>,
    pub not_on_or_after: Option<Timestamp>,
    pub recipient: Option<String>,
    pub in_response_to: Option<String>,
    pub address: Option<String>,
    pub unknown_attributes: Vec<(String, String)>,
    pub unknown_children: Vec<XmlObject>,
}

impl SubjectConfirmationData {
    pub const ELEMENT_NAME: &'static str = "SubjectConfirmationData";
    pub const NS_PREFIX: &'static str = "saml2";
    pub const NS_URI: &'static str = "urn:oasis:names:tc:SAML:2.0:assertion";

    /// Attribute names that the element reads itself.
    pub open spec fn known_attr(k: Seq<char>) -> bool {
        k == "NotBefore"@ || k == "NotOnOrAfter"@ || k == "Recipient"@ || k == "InResponseTo"@ || k == "Address"@
    }

    proof fn lemma_attr_names()
        ensures
            "NotBefore"@ != "NotOnOrAfter"@,
            "NotBefore"@ != "Recipient"@,
            "NotBefore"@ != "InResponseTo"@,
            "NotBefore"@ != "Address"@,
            "NotOnOrAfter"@ != "Recipient"@,
            "NotOnOrAfter"@ != "InResponseTo"@,
            "NotOnOrAfter"@ != "Address"@,
            "Recipient"@ != "InResponseTo"@,
            "Recipient"@ != "Address"@,
            "InResponseTo"@ != "Address"@,
    {
        reveal_strlit("Address");
        reveal_strlit("InResponseTo");
        reveal_strlit("NotBefore");
        reveal_strlit("NotOnOrAfter");
        reveal_strlit("Recipient");
        assert("NotBefore"@.len() != "NotOnOrAfter"@.len());
        assert("NotBefore"@[0] != "Recipient"@[0]);
        assert("NotBefore"@.len() != "InResponseTo"@.len());
        assert("NotBefore"@.len() != "Address"@.len());
        assert("NotOnOrAfter"@.len() != "Recipient"@.len());
        assert("NotOnOrAfter"@[0] != "InResponseTo"@[0]);
        assert("NotOnOrAfter"@.len() != "Address"@.len());
        assert("Recipient"@.len() != "InResponseTo"@.len());
        assert("Recipient"@.len() != "Address"@.len());
        assert("InResponseTo"@.len() != "Address"@.len());
    }

    /// The node can be read as this element: every typed value parses,
    /// required parts are present and every known child can be read.
    pub open spec fn valid_node(n: Node) -> bool
    {
        attrs_ok(n.attributes, "NotBefore"@, |t: Seq<char>| timestamp_of(t) is Some)
        && attrs_ok(n.attributes, "NotOnOrAfter"@, |t: Seq<char>| timestamp_of(t) is Some)
    }

    /// The element holds what the node says.
    pub open spec fn matches(self, n: Node) -> bool
    {
        (match attr_last(n.attributes, "NotBefore"@) { Some(t) => self.not_before is Some && self.not_before->0@ == timestamp_of(t)->0, None => self.not_before is None })
        && (match attr_last(n.attributes, "NotOnOrAfter"@) { Some(t) => self.not_on_or_after is Some && self.not_on_or_after->0@ == timestamp_of(t)->0, None => self.not_on_or_after is None })
        && (match attr_last(n.attributes, "Recipient"@) { Some(t) => self.recipient is Some && self.recipient->0@ == t, None => self.recipient is None })
        && (match attr_last(n.attributes, "InResponseTo"@) { Some(t) => self.in_response_to is Some && self.in_response_to->0@ == t, None => self.in_response_to is None })
        && (match attr_last(n.attributes, "Address"@) { Some(t) => self.address is Some && self.address->0@ == t, None => self.address is None })
        && pairs_view(self.unknown_attributes@) == n.attributes.filter(|p: Pair| !Self::known_attr(p.0))
        && nodes_of(self.unknown_children@) == n.children
    }

    /// The node that the element is written as.
    pub open spec fn spec_node(self) -> Node
    {
        Node {
            name: QNameView { namespace_uri: Some("urn:oasis:names:tc:SAML:2.0:assertion"@), local_name: "SubjectConfirmationData"@, prefix: Some("saml2"@) },
            attributes: push_attr(push_attr(push_attr(push_attr(push_attr(Seq::<Pair>::empty(), "NotBefore"@, match self.not_before { Some(v) => Some(v.text@), None => None }), "NotOnOrAfter"@, match self.not_on_or_after { Some(v) => Some(v.text@), None => None }), "Recipient"@, opt_view(self.recipient)), "InResponseTo"@, opt_view(self.in_response_to)), "Address"@, opt_view(self.address)) + pairs_view(self.unknown_attributes@),
            namespaces: seq![("saml2"@, "urn:oasis:names:tc:SAML:2.0:assertion"@)],
            text: None,
            children: Seq::<Node>::empty() + nodes_of(self.unknown_children@),
        }
    }

    /// Reads the element from a node: the last occurrence of an attribute
    /// or of a single-valued child wins, repeated children are kept in
    /// order, and the first part that cannot be read fails the whole element.
    #[verifier::loop_isolation(false)]
    pub fn try_from_xml(obj: &XmlObject) -> (r: Result<SubjectConfirmationData, SAMLError>)
        ensures
            r is Ok <==> Self::valid_node(obj@),
            r is Ok ==> r->Ok_0.matches(obj@),
            r is Err ==> r->Err_0 is UnmarshallingError,
    {
        let attrs = obj.attributes();
        let ghost av = obj@.attributes;
        let mut v_not_before: Option<Timestamp> = None;
        let mut v_not_on_or_after: Option<Timestamp> = None;
        let mut v_recipient: Option<String> = None;
        let mut v_in_response_to: Option<String> = None;
        let mut v_address: Option<String> = None;
        let mut v_unknown_attributes: Vec<(String, String)> = Vec::new();
        let mut i: usize = 0;
        while i < attrs.len()
            invariant
                0 <= i <= attrs.len(),
                pairs_view(attrs@) == av,
                (match attr_last(av.take(i as int), "NotBefore"@) { Some(t) => v_not_before is Some && v_not_before->0@ == timestamp_of(t)->0, None => v_not_before is None }),
                attrs_ok(av.take(i as int), "NotBefore"@, |t: Seq<char>| timestamp_of(t) is Some),
                (match attr_last(av.take(i as int), "NotOnOrAfter"@) { Some(t) => v_not_on_or_after is Some && v_not_on_or_after->0@ == timestamp_of(t)->0, None => v_not_on_or_after is None }),
                attrs_ok(av.take(i as int), "NotOnOrAfter"@, |t: Seq<char>| timestamp_of(t) is Some),
                (match attr_last(av.take(i as int), "Recipient"@) { Some(t) => v_recipient is Some && v_recipient->0@ == t, None => v_recipient is None }),
                (match attr_last(av.take(i as int), "InResponseTo"@) { Some(t) => v_in_response_to is Some && v_in_response_to->0@ == t, None => v_in_response_to is None }),
                (match attr_last(av.take(i as int), "Address"@) { Some(t) => v_address is Some && v_address->0@ == t, None => v_address is None }),
                pairs_view(v_unknown_attributes@) == av.take(i as int).filter(|p: Pair| !Self::known_attr(p.0)),
            decreases attrs.len() - i,
        {
            let key = &attrs[i].0;
            let value = &attrs[i].1;
            proof {
                assert(av.take(i + 1) =~= av.take(i as int).push(av[i as int]));
                assert(av[i as int] == (key@, value@));
                Self::lemma_attr_names();
            }
            if name_is(key, "NotBefore") {
                match Timestamp::parse(value) {
                    Some(x) => {
                        v_not_before = Some(x);
                    },
                    None => {
                        proof {
                            assert(!attrs_ok(av, "NotBefore"@, |t: Seq<char>| timestamp_of(t) is Some));
                        }
                        return Err(SAMLError::unmarshalling("invalid value of NotBefore"));
                    },
                }
            } else if name_is(key, "NotOnOrAfter") {
                match Timestamp::parse(value) {
                    Some(x) => {
                        v_not_on_or_after = Some(x);
                    },
                    None => {
                        proof {
                            assert(!attrs_ok(av, "NotOnOrAfter"@, |t: Seq<char>| timestamp_of(t) is Some));
                        }
                        return Err(SAMLError::unmarshalling("invalid value of NotOnOrAfter"));
                    },
                }
            } else if name_is(key, "Recipient") {
                v_recipient = Some(value.clone());
            } else if name_is(key, "InResponseTo") {
                v_in_response_to = Some(value.clone());
            } else if name_is(key, "Address") {
                v_address = Some(value.clone());
            } else {
                let ghost before = v_unknown_attributes@;
                v_unknown_attributes.push((key.clone(), value.clone()));
                proof {
                    assert(pairs_view(v_unknown_attributes@) =~= pairs_view(before).push((key@, value@)));
                }
            }
            i = i + 1;
        }
        proof {
            assert(av.take(attrs.len() as int) =~= av);
        }
        let children = obj.children();
        let ghost cv = obj@.children;
        proof {
            lemma_nodes_of(children@);
        }
        let mut v_unknown_children: Vec<XmlObject> = Vec::new();
        let mut j: usize = 0;
        while j < children.len()
            invariant
                0 <= j <= children.len(),
                nodes_of(children@) == cv,
                cv.len() == children.len(),
                nodes_of(v_unknown_children@) == cv.take(j as int),
            decreases children.len() - j,
        {
            let child = &children[j];
            proof {
                assert(cv.take(j + 1) =~= cv.take(j as int).push(cv[j as int]));
                assert(cv[j as int] == child@);
            }
            {
                let x = child.deep_copy();
                proof {
                    lemma_nodes_of_push(v_unknown_children@, x);
                }
                v_unknown_children.push(x);
            }
            j = j + 1;
        }
        proof {
            assert(cv.take(children.len() as int) =~= cv);
        }
        Ok(SubjectConfirmationData {
            not_before: v_not_before,
            not_on_or_after: v_not_on_or_after,
            recipient: v_recipient,
            in_response_to: v_in_response_to,
            address: v_address,
            unknown_attributes: v_unknown_attributes,
            unknown_children: v_unknown_children,
        })
    }

    /// Writes the element as a node: its name in its namespace, the
    /// attributes that are set, its text and its children.
    pub fn to_xml(&self) -> (r: XmlObject)
        ensures
            r@ == self.spec_node(),
    {
        let mut x = XmlObject::new(Some("urn:oasis:names:tc:SAML:2.0:assertion".to_owned()), "SubjectConfirmationData".to_owned(), Some("saml2".to_owned()));
        x.add_namespace("saml2".to_owned(), "urn:oasis:names:tc:SAML:2.0:assertion".to_owned());
        match &self.not_before {
            Some(v) => x.add_attribute("NotBefore".to_owned(), v.to_rfc3339()),
            None => {},
        }
        match &self.not_on_or_after {
            Some(v) => x.add_attribute("NotOnOrAfter".to_owned(), v.to_rfc3339()),
            None => {},
        }
        match &self.recipient {
            Some(v) => x.add_attribute("Recipient".to_owned(), v.clone()),
            None => {},
        }
        match &self.in_response_to {
            Some(v) => x.add_attribute("InResponseTo".to_owned(), v.clone()),
            None => {},
        }
        match &self.address {
            Some(v) => x.add_attribute("Address".to_owned(), v.clone()),
            None => {},
        }
        let ghost pre = x@;
        let mut k: usize = 0;
        while k < self.unknown_attributes.len()
            invariant
                0 <= k <= self.unknown_attributes.len(),
                x@ == (Node { attributes: pre.attributes + pairs_view(self.unknown_attributes@.take(k as int)), ..pre }),
            decreases self.unknown_attributes.len() - k,
        {
            x.add_attribute(self.unknown_attributes[k].0.clone(), self.unknown_attributes[k].1.clone());
            proof {
                assert(pre.attributes + pairs_view(self.unknown_attributes@.take(k + 1)) =~= (pre.attributes + pairs_view(self.unknown_attributes@.take(k as int))).push((self.unknown_attributes@[k as int].0@, self.unknown_attributes@[k as int].1@)));
            }
            k = k + 1;
        }
        proof {
            assert(self.unknown_attributes@.take(k as int) =~= self.unknown_attributes@);
        }
        let ghost pre = x@;
        let mut k: usize = 0;
        while k < self.unknown_children.len()
            invariant
                0 <= k <= self.unknown_children.len(),
                x@ == (Node { children: pre.children + nodes_of(self.unknown_children@.take(k as int)), ..pre }),
            decreases self.unknown_children.len() - k,
        {
            let y = self.unknown_children[k].deep_copy();
            x.add_child(y);
            proof {
                lemma_nodes_of_push(self.unknown_children@.take(k as int), self.unknown_children@[k as int]);
                assert(self.unknown_children@.take(k + 1) =~= self.unknown_children@.take(k as int).push(self.unknown_children@[k as int]));
                assert(pre.children + nodes_of(self.unknown_children@.take(k + 1)) =~= (pre.children + nodes_of(self.unknown_children@.take(k as int))).push(y@));
            }
            k = k + 1;
        }
        proof {
            assert(self.unknown_children@.take(k as int) =~= self.unknown_children@);
        }
        proof {
            assert(x@.attributes =~= self.spec_node().attributes);
            assert(x@.children =~= self.spec_node().children);
        }
        x
    }

    pub fn not_before(&self) -> (r: Option<&Timestamp>)
        ensures
            r is Some <==> self.not_before is Some,
            r is Some ==> *r->0 == self.not_before->0,
    {
        self.not_before.as_ref()
    }

    pub fn set_not_before(&mut self, not_before: Option<Timestamp>)
        ensures
            *final(self) == (SubjectConfirmationData { not_before, ..*old(self) }),
    {
        self.not_before = not_before;
    }

    pub fn not_on_or_after(&self) -> (r: Option<&Timestamp>)
        ensures
            r is Some <==> self.not_on_or_after is Some,
            r is Some ==> *r->0 == self.not_on_or_after->0,
    {
        self.not_on_or_after.as_ref()
    }

    pub fn set_not_on_or_after(&mut self, not_on_or_after: Option<Timestamp>)
        ensures
            *final(self) == (SubjectConfirmationData { not_on_or_after, ..*old(self) }),
    {
        self.not_on_or_after = not_on_or_after;
    }

    pub fn recipient(&self) -> (r: Option<&String>)
        ensures
            r is Some <==> self.recipient is Some,
            r is Some ==> *r->0 == self.recipient->0,
    {
        self.recipient.as_ref()
    }

    pub fn set_recipient(&mut self, recipient: Option<String>)
        ensures
            *final(self) == (SubjectConfirmationData { recipient, ..*old(self) }),
    {
        self.recipient = recipient;
    }

    pub fn in_response_to(&self) -> (r: Option<&String>)
        ensures
            r is Some <==> self.in_response_to is Some,
            r is Some ==> *r->0 == self.in_response_to->0,
    {
        self.in_response_to.as_ref()
    }

    pub fn set_in_response_to(&mut self, in_response_to: Option<String>)
        ensures
            *final(self) == (SubjectConfirmationData { in_response_to, ..*old(self) }),
    {
        self.in_response_to = in_response_to;
    }

    pub fn address(&self) -> (r: Option<&String>)
        ensures
            r is Some <==> self.address is Some,
            r is Some ==> *r->0 == self.address->0,
    {
        self.address.as_ref()
    }

    pub fn set_address(&mut self, address: Option<String>)
        ensures
            *final(self) == (SubjectConfirmationData { address, ..*old(self) }),
    {
        self.address = address;
    }

    pub fn unknown_attributes(&self) -> (r: &Vec<(String, String)>)
        ensures
            *r == self.unknown_attributes,
    {
        &self.unknown_attributes
    }

    pub fn unknown_children(&self) -> (r: &Vec<XmlObject>)
        ensures
            *r == self.unknown_children,
    {
        &self.unknown_children
    }

    /// The value survives being written and read back: versions are known
    /// ones, timestamps read back as themselves, kept nodes carry the name
    /// of their slot and open content stays clear of the names read here.
    pub open spec fn wf(self) -> bool
    {
        (match self.not_before { Some(v) => timestamp_of(v.text@) == Some(v@), None => true })
        && (match self.not_on_or_after { Some(v) => timestamp_of(v.text@) == Some(v@), None => true })
        && (forall|i: int| 0 <= i < self.unknown_attributes@.len() ==> !Self::known_attr((#[trigger] self.unknown_attributes@[i]).0@))
    }

    /// Writing the element and reading the node back gives the element again.
    pub proof fn lemma_round_trip(self)
        requires
            self.wf(),
        ensures
            Self::valid_node(self.spec_node()),
            self.matches(self.spec_node()),
    {
        let n = self.spec_node();
        Self::lemma_attr_names();
        let base = push_attr(push_attr(push_attr(push_attr(push_attr(Seq::<Pair>::empty(), "NotBefore"@, match self.not_before { Some(v) => Some(v.text@), None => None }), "NotOnOrAfter"@, match self.not_on_or_after { Some(v) => Some(v.text@), None => None }), "Recipient"@, opt_view(self.recipient)), "InResponseTo"@, opt_view(self.in_response_to)), "Address"@, opt_view(self.address));
        let extra = pairs_view(self.unknown_attributes@);
        assert(n.attributes == base + extra);
        assert forall|i: int| 0 <= i < extra.len() implies !Self::known_attr((#[trigger] extra[i]).0) by {
            assert(extra[i].0 == self.unknown_attributes@[i].0@);
        }
        lemma_attr_last_append_other(base, extra, "NotBefore"@);
        lemma_attrs_ok_append_other(base, extra, "NotBefore"@, |t: Seq<char>| timestamp_of(t) is Some);
        lemma_attr_last_append_other(base, extra, "NotOnOrAfter"@);
        lemma_attrs_ok_append_other(base, extra, "NotOnOrAfter"@, |t: Seq<char>| timestamp_of(t) is Some);
        lemma_attr_last_append_other(base, extra, "Recipient"@);
        lemma_attr_last_append_other(base, extra, "InResponseTo"@);
        lemma_attr_last_append_other(base, extra, "Address"@);
        assert forall|i: int| 0 <= i < base.len() implies Self::known_attr((#[trigger] base[i]).0) by {}
        lemma_filter_none(base, |p: Pair| !Self::known_attr(p.0));
        lemma_filter_all(extra, |p: Pair| !Self::known_attr(p.0));
        assert(n.attributes.filter(|p: Pair| !Self::known_attr(p.0)) == base.filter(|p: Pair| !Self::known_attr(p.0)) + extra.filter(|p: Pair| !Self::known_attr(p.0)));
        assert(base.filter(|p: Pair| !Self::known_attr(p.0)) + extra =~= extra);
        let part1 = nodes_of(self.unknown_children@);
        assert(n.children =~= part1);
        lemma_nodes_of(self.unknown_children@);
    }

}

impl Element for SubjectConfirmationData {
    open spec fn node_ok(n: Node) -> bool {
        Self::valid_node(n)
    }

    open spec fn node_matches(self, n: Node) -> bool {
        self.matches(n)
    }

    open spec fn node_spec(self) -> Node {
        self.spec_node()
    }

    fn read(obj: &XmlObject) -> (r: Result<Self, SAMLError>) {
        Self::try_from_xml(obj)
    }

    fn write(&self) -> (r: XmlObject) {
        self.to_xml()
    }
}

} // verus!
