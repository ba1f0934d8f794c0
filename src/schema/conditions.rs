use vstd::prelude::*;

use crate::error::SAMLError;
use crate::schema::fields::{attr_last, attrs_ok, group_binding, lemma_named_all, lemma_named_none, named, opt_nodes, push_attr, push_node};
use crate::schema::values::{Timestamp, timestamp_of};
use crate::schema::binding::{format_opt_timestamp, raw_child_vec, raw_opt_child, read_child_vec, read_timestamp_attr, write_child_vec, write_opt_attr, write_raw_opt, write_raw_vec, Element};
use crate::xml::q_name::QNameView;
use crate::xml::{lemma_nodes_of, nodes_of, Node, Pair, XmlObject};
use crate::schema::audience_restriction::AudienceRestriction;

verus! {

broadcast use group_binding;

/// The conditions under which an assertion is valid.
#[derive(Debug)]
pub struct Conditions {
    pub not_before: Option<Timestamp>,
    pub not_on_or_after: Option<Timestamp>,
    pub condition: Vec<XmlObject>,
    pub audience_restrictions: Vec<AudienceRestriction>,
    pub one_time_use: Option<XmlObject>,
    pub proxy_restriction: Option<XmlObject>,
}

impl Conditions {
    pub const ELEMENT_NAME: &'static str = "Conditions";
    pub const NS_PREFIX: &'static str = "saml2";
    pub const NS_URI: &'static str = "urn:oasis:names:tc:SAML:2.0:assertion";

    proof fn lemma_attr_names()
        ensures
            "NotBefore"@ != "NotOnOrAfter"@,
    {
        reveal_strlit("NotBefore");
        reveal_strlit("NotOnOrAfter");
        assert("NotBefore"@.len() != "NotOnOrAfter"@.len());
    }

    proof fn lemma_child_names()
        ensures
            "Condition"@ != "AudienceRestriction"@,
            "Condition"@ != "OneTimeUse"@,
            "Condition"@ != "ProxyRestriction"@,
            "AudienceRestriction"@ != "OneTimeUse"@,
            "AudienceRestriction"@ != "ProxyRestriction"@,
            "OneTimeUse"@ != "ProxyRestriction"@,
    {
        reveal_strlit("AudienceRestriction");
        reveal_strlit("Condition");
        reveal_strlit("OneTimeUse");
        reveal_strlit("ProxyRestriction");
        assert("Condition"@.len() != "AudienceRestriction"@.len());
        assert("Condition"@.len() != "OneTimeUse"@.len());
        assert("Condition"@.len() != "ProxyRestriction"@.len());
        assert("AudienceRestriction"@.len() != "OneTimeUse"@.len());
        assert("AudienceRestriction"@.len() != "ProxyRestriction"@.len());
        assert("OneTimeUse"@.len() != "ProxyRestriction"@.len());
    }

    /// The node can be read as this element: every typed value parses,
    /// required parts are present and every known child can be read.
    pub open spec fn valid_node(n: Node) -> bool
    {
        attrs_ok(n.attributes, "NotBefore"@, |t: Seq<char>| timestamp_of(t) is Some)
        && attrs_ok(n.attributes, "NotOnOrAfter"@, |t: Seq<char>| timestamp_of(t) is Some)
        && (forall|m: int| 0 <= m < named(n.children, "AudienceRestriction"@).len() ==> AudienceRestriction::valid_node(#[trigger] named(n.children, "AudienceRestriction"@)[m]))
    }

    /// The element holds what the node says.
    pub open spec fn matches(self, n: Node) -> bool
    {
        (match attr_last(n.attributes, "NotBefore"@) { Some(t) => self.not_before is Some && self.not_before->0@ == timestamp_of(t)->0, None => self.not_before is None })
        && (match attr_last(n.attributes, "NotOnOrAfter"@) { Some(t) => self.not_on_or_after is Some && self.not_on_or_after->0@ == timestamp_of(t)->0, None => self.not_on_or_after is None })
        && nodes_of(self.condition@) == named(n.children, "Condition"@)
        && self.audience_restrictions@.len() == named(n.children, "AudienceRestriction"@).len()
        && (forall|m: int| 0 <= m < self.audience_restrictions@.len() ==> #[trigger] self.audience_restrictions@[m].matches(named(n.children, "AudienceRestriction"@)[m]))
        && (if named(n.children, "OneTimeUse"@).len() > 0 { self.one_time_use is Some && self.one_time_use->0@ == named(n.children, "OneTimeUse"@).last() } else { self.one_time_use is None })
        && (if named(n.children, "ProxyRestriction"@).len() > 0 { self.proxy_restriction is Some && self.proxy_restriction->0@ == named(n.children, "ProxyRestriction"@).last() } else { self.proxy_restriction is None })
    }

    /// The node that the element is written as.
    pub open spec fn spec_node(self) -> Node
    {
        Node {
            name: QNameView { namespace_uri: Some("urn:oasis:names:tc:SAML:2.0:assertion"@), local_name: "Conditions"@, prefix: Some("saml2"@) },
            attributes: push_attr(push_attr(Seq::<Pair>::empty(), "NotBefore"@, match self.not_before { Some(v) => Some(v.text@), None => None }), "NotOnOrAfter"@, match self.not_on_or_after { Some(v) => Some(v.text@), None => None }),
            namespaces: seq![("saml2"@, "urn:oasis:names:tc:SAML:2.0:assertion"@)],
            text: None,
            children: push_node(push_node(Seq::<Node>::empty() + nodes_of(self.condition@) + self.audience_restrictions@.map_values(|c: AudienceRestriction| c.node_spec()), match self.one_time_use { Some(c) => Some(c@), None => None }), match self.proxy_restriction { Some(c) => Some(c@), None => None }),
        }
    }

    /// Reads the element from a node: the last occurrence of an attribute
    /// or of a single-valued child wins, repeated children are kept in
    /// order, and the first part that cannot be read fails the whole element.
    #[verifier::loop_isolation(false)]
    pub fn try_from_xml(obj: &XmlObject) -> (r: Result<Conditions, SAMLError>)
        ensures
            r is Ok <==> Self::valid_node(obj@),
            r is Ok ==> r->Ok_0.matches(obj@),
            r is Err ==> r->Err_0 is UnmarshallingError,
    {
        let attrs = obj.attributes();
        let v_not_before = match read_timestamp_attr(attrs, "NotBefore") {
            Ok(v) => v,
            Err(err) => {
                return Err(err);
            },
        };
        let v_not_on_or_after = match read_timestamp_attr(attrs, "NotOnOrAfter") {
            Ok(v) => v,
            Err(err) => {
                return Err(err);
            },
        };
        let children = obj.children();
        let v_condition = raw_child_vec(children, Some("Condition"));
        let v_audience_restrictions = match read_child_vec::<AudienceRestriction>(children, "AudienceRestriction") {
            Ok(v) => v,
            Err(err) => {
                return Err(err);
            },
        };
        let v_one_time_use = raw_opt_child(children, "OneTimeUse");
        let v_proxy_restriction = raw_opt_child(children, "ProxyRestriction");
        Ok(Conditions {
            not_before: v_not_before,
            not_on_or_after: v_not_on_or_after,
            condition: v_condition,
            audience_restrictions: v_audience_restrictions,
            one_time_use: v_one_time_use,
            proxy_restriction: v_proxy_restriction,
        })
    }

    /// Writes the element as a node: its name in its namespace, the
    /// attributes that are set, its text and its children.
    pub fn to_xml(&self) -> (r: XmlObject)
        ensures
            r@ == self.spec_node(),
    {
        let mut x = XmlObject::new(Some("urn:oasis:names:tc:SAML:2.0:assertion".to_owned()), "Conditions".to_owned(), Some("saml2".to_owned()));
        x.add_namespace("saml2".to_owned(), "urn:oasis:names:tc:SAML:2.0:assertion".to_owned());
        write_opt_attr(&mut x, "NotBefore", format_opt_timestamp(&self.not_before));
        write_opt_attr(&mut x, "NotOnOrAfter", format_opt_timestamp(&self.not_on_or_after));
        write_raw_vec(&mut x, &self.condition);
        write_child_vec(&mut x, &self.audience_restrictions);
        write_raw_opt(&mut x, &self.one_time_use);
        write_raw_opt(&mut x, &self.proxy_restriction);
        proof {
            assert(x@.attributes =~= self.spec_node().attributes);
            assert(x@.children =~= self.spec_node().children);
        }
        x
    }

    pub fn not_before(&self) -> (r: Option<&Timestamp>)
        ensures
            r is Some <==> self.not_before is Some,
            r is Some ==> *r->0 == self.not_before->0,
    {
        self.not_before.as_ref()
    }

    pub fn set_not_before(&mut self, not_before: Option<Timestamp>)
        ensures
            *final(self) == (Conditions { not_before, ..*old(self) }),
    {
        self.not_before = not_before;
    }

    pub fn not_on_or_after(&self) -> (r: Option<&Timestamp>)
        ensures
            r is Some <==> self.not_on_or_after is Some,
            r is Some ==> *r->0 == self.not_on_or_after->0,
    {
        self.not_on_or_after.as_ref()
    }

    pub fn set_not_on_or_after(&mut self, not_on_or_after: Option<Timestamp>)
        ensures
            *final(self) == (Conditions { not_on_or_after, ..*old(self) }),
    {
        self.not_on_or_after = not_on_or_after;
    }

    pub fn condition(&self) -> (r: &Vec<XmlObject>)
        ensures
            *r == self.condition,
    {
        &self.condition
    }

    pub fn add_condition(&mut self, item: XmlObject)
        ensures
            final(self).condition@ == old(self).condition@.push(item),
            final(self).not_before == old(self).not_before,
            final(self).not_on_or_after == old(self).not_on_or_after,
            final(self).audience_restrictions == old(self).audience_restrictions,
            final(self).one_time_use == old(self).one_time_use,
            final(self).proxy_restriction == old(self).proxy_restriction,
    {
        self.condition.push(item);
    }

    pub fn audience_restrictions(&self) -> (r: &Vec<AudienceRestriction>)
        ensures
            *r == self.audience_restrictions,
    {
        &self.audience_restrictions
    }

    pub fn add_audience_restriction(&mut self, item: AudienceRestriction)
        ensures
            final(self).audience_restrictions@ == old(self).audience_restrictions@.push(item),
            final(self).not_before == old(self).not_before,
            final(self).not_on_or_after == old(self).not_on_or_after,
            final(self).condition == old(self).condition,
            final(self).one_time_use == old(self).one_time_use,
            final(self).proxy_restriction == old(self).proxy_restriction,
    {
        self.audience_restrictions.push(item);
    }

    pub fn one_time_use(&self) -> (r: Option<&XmlObject>)
        ensures
            r is Some <==> self.one_time_use is Some,
            r is Some ==> *r->0 == self.one_time_use->0,
    {
        self.one_time_use.as_ref()
    }

    pub fn set_one_time_use(&mut self, one_time_use: Option<XmlObject>)
        ensures
            *final(self) == (Conditions { one_time_use, ..*old(self) }),
    {
        self.one_time_use = one_time_use;
    }

    pub fn proxy_restriction(&self) -> (r: Option<&XmlObject>)
        ensures
            r is Some <==> self.proxy_restriction is Some,
            r is Some ==> *r->0 == self.proxy_restriction->0,
    {
        self.proxy_restriction.as_ref()
    }

    pub fn set_proxy_restriction(&mut self, proxy_restriction: Option<XmlObject>)
        ensures
            *final(self) == (Conditions { proxy_restriction, ..*old(self) }),
    {
        self.proxy_restriction = proxy_restriction;
    }

    /// The value survives being written and read back: versions are known
    /// ones, timestamps read back as themselves, kept nodes carry the name
    /// of their slot and open content stays clear of the names read here.
    pub open spec fn wf(self) -> bool
    {
        (match self.not_before { Some(v) => timestamp_of(v.text@) == Some(v@), None => true })
        && (match self.not_on_or_after { Some(v) => timestamp_of(v.text@) == Some(v@), None => true })
        && (forall|m: int| 0 <= m < self.condition@.len() ==> (#[trigger] self.condition@[m])@.name.local_name == "Condition"@)
        && (forall|m: int| 0 <= m < self.audience_restrictions@.len() ==> (#[trigger] self.audience_restrictions@[m]).wf())
        && (match self.one_time_use { Some(x) => x@.name.local_name == "OneTimeUse"@, None => true })
        && (match self.proxy_restriction { Some(x) => x@.name.local_name == "ProxyRestriction"@, None => true })
    }

    /// Writing the element and reading the node back gives the element again.
    pub proof fn lemma_round_trip(self)
        requires
            self.wf(),
        ensures
            Self::valid_node(self.spec_node()),
            self.matches(self.spec_node()),
    {
        let n = self.spec_node();
        Self::lemma_attr_names();
        Self::lemma_child_names();
        let part1 = nodes_of(self.condition@);
        let part2 = self.audience_restrictions@.map_values(|c: AudienceRestriction| c.node_spec());
        let part3 = opt_nodes(match self.one_time_use { Some(c) => Some(c@), None => None });
        let part4 = opt_nodes(match self.proxy_restriction { Some(c) => Some(c@), None => None });
        assert(n.children =~= part1 + part2 + part3 + part4);
        lemma_nodes_of(self.condition@);
        {
            lemma_named_all(part1, "Condition"@);
            lemma_named_none(part2, "Condition"@);
            lemma_named_none(part3, "Condition"@);
            lemma_named_none(part4, "Condition"@);
            assert(named(n.children, "Condition"@) =~= named(part1, "Condition"@) + named(part2, "Condition"@) + named(part3, "Condition"@) + named(part4, "Condition"@));
        }
        {
            lemma_named_none(part1, "AudienceRestriction"@);
            lemma_named_all(part2, "AudienceRestriction"@);
            lemma_named_none(part3, "AudienceRestriction"@);
            lemma_named_none(part4, "AudienceRestriction"@);
            assert(named(n.children, "AudienceRestriction"@) =~= named(part1, "AudienceRestriction"@) + named(part2, "AudienceRestriction"@) + named(part3, "AudienceRestriction"@) + named(part4, "AudienceRestriction"@));
        }
        {
            lemma_named_none(part1, "OneTimeUse"@);
            lemma_named_none(part2, "OneTimeUse"@);
            lemma_named_all(part3, "OneTimeUse"@);
            lemma_named_none(part4, "OneTimeUse"@);
            assert(named(n.children, "OneTimeUse"@) =~= named(part1, "OneTimeUse"@) + named(part2, "OneTimeUse"@) + named(part3, "OneTimeUse"@) + named(part4, "OneTimeUse"@));
        }
        {
            lemma_named_none(part1, "ProxyRestriction"@);
            lemma_named_none(part2, "ProxyRestriction"@);
            lemma_named_none(part3, "ProxyRestriction"@);
            lemma_named_all(part4, "ProxyRestriction"@);
            assert(named(n.children, "ProxyRestriction"@) =~= named(part1, "ProxyRestriction"@) + named(part2, "ProxyRestriction"@) + named(part3, "ProxyRestriction"@) + named(part4, "ProxyRestriction"@));
        }
        assert forall|m: int| 0 <= m < self.audience_restrictions@.len() implies AudienceRestriction::valid_node(#[trigger] self.audience_restrictions@[m].spec_node()) && self.audience_restrictions@[m].matches(self.audience_restrictions@[m].spec_node()) by {
            self.audience_restrictions@[m].lemma_round_trip();
        }
    }

}

impl Element for Conditions {
    open spec fn node_ok(n: Node) -> bool {
        Self::valid_node(n)
    }

    open spec fn node_matches(self, n: Node) -> bool {
        self.matches(n)
    }

    open spec fn node_spec(self) -> Node {
        self.spec_node()
    }

    fn read(obj: &XmlObject) -> (r: Result<Self, SAMLError>) {
        Self::try_from_xml(obj)
    }

    fn write(&self) -> (r: XmlObject) {
        self.to_xml()
    }
}

} // verus!
