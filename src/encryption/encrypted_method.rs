use vstd::prelude::*;

use crate::error::SAMLError;
use crate::schema::fields::{attr_last, group_binding, lemma_last_index, local_name_is, named, push_node};
use crate::schema::values::name_is;
use crate::schema::binding::{write_opt_child, Element};
use crate::xml::q_name::QNameView;
use crate::xml::{lemma_nodes_of, lemma_nodes_of_push, nodes_of, pairs_view, Node, Pair, XmlObject};
use crate::encryption::key_size::KeySize;
use crate::encryption::oaep_params::OAEPParams;

verus! {

broadcast use group_binding;

/// The algorithm used for an encryption.
#[derive(Debug)]
pub struct EncryptedMethod {
    pub algorithm: String,
    pub key_size: Option<KeySize>,
    pub oeap_params: Option<OAEPParams>,
    pub unknown_children: Vec<XmlObject>,
}

impl EncryptedMethod {
    pub const ELEMENT_NAME: &'static str = "EncryptionMethod";
    pub const NS_PREFIX: &'static str = "xenc";
    pub const NS_URI: &'static str = "http://www.w3.org/2001/04/xmlenc#";

    /// Child names that the element reads itself.
    pub open spec fn known_child(k: Seq<char>) -> bool {
        k == "KeySize"@ || k == "OAEPParams"@
    }

    proof fn lemma_child_names()
        ensures
            "KeySize"@ != "OAEPParams"@,
    {
        reveal_strlit("KeySize");
        reveal_strlit("OAEPParams");
        assert("KeySize"@.len() != "OAEPParams"@.len());
    }

    /// The node can be read as this element: every typed value parses,
    /// required parts are present and every known child can be read.
    pub open spec fn valid_node(n: Node) -> bool
    {
        attr_last(n.attributes, "Algorithm"@) is Some
        && (forall|m: int| 0 <= m < named(n.children, "KeySize"@).len() ==> KeySize::valid_node(#[trigger] named(n.children, "KeySize"@)[m]))
        && (forall|m: int| 0 <= m < named(n.children, "OAEPParams"@).len() ==> OAEPParams::valid_node(#[trigger] named(n.children, "OAEPParams"@)[m]))
    }

    /// The element holds what the node says.
    pub open spec fn matches(self, n: Node) -> bool
    {
        attr_last(n.attributes, "Algorithm"@) == Some(self.algorithm@)
        && (if named(n.children, "KeySize"@).len() > 0 { self.key_size is Some && self.key_size->0.matches(named(n.children, "KeySize"@).last()) } else { self.key_size is None })
        && (if named(n.children, "OAEPParams"@).len() > 0 { self.oeap_params is Some && self.oeap_params->0.matches(named(n.children, "OAEPParams"@).last()) } else { self.oeap_params is None })
        && nodes_of(self.unknown_children@) == n.children.filter(|c: Node| !Self::known_child(c.name.local_name))
    }

    /// The node that the element is written as.
    pub open spec fn spec_node(self) -> Node
    {
        Node {
            name: QNameView { namespace_uri: Some("http://www.w3.org/2001/04/xmlenc#"@), local_name: "EncryptionMethod"@, prefix: Some("xenc"@) },
            attributes: Seq::<Pair>::empty().push(("Algorithm"@, self.algorithm@)),
            namespaces: seq![("xenc"@, "http://www.w3.org/2001/04/xmlenc#"@)],
            text: None,
            children: push_node(push_node(Seq::<Node>::empty(), match self.key_size { Some(c) => Some(c.spec_node()), None => None }), match self.oeap_params { Some(c) => Some(c.spec_node()), None => None }) + nodes_of(self.unknown_children@),
        }
    }

    /// Reads the element from a node: the last occurrence of an attribute
    /// or of a single-valued child wins, repeated children are kept in
    /// order, and the first part that cannot be read fails the whole element.
    #[verifier::loop_isolation(false)]
    pub fn try_from_xml(obj: &XmlObject) -> (r: Result<EncryptedMethod, SAMLError>)
        ensures
            r is Ok <==> Self::valid_node(obj@),
            r is Ok ==> r->Ok_0.matches(obj@),
            r is Err ==> r->Err_0 is UnmarshallingError,
    {
        let attrs = obj.attributes();
        let ghost av = obj@.attributes;
        let mut v_algorithm: Option<String> = None;
        let mut i: usize = 0;
        while i < attrs.len()
            invariant
                0 <= i <= attrs.len(),
                pairs_view(attrs@) == av,
                (match attr_last(av.take(i as int), "Algorithm"@) { Some(t) => v_algorithm is Some && v_algorithm->0@ == t, None => v_algorithm is None }),
            decreases attrs.len() - i,
        {
            let key = &attrs[i].0;
            let value = &attrs[i].1;
            proof {
                assert(av.take(i + 1) =~= av.take(i as int).push(av[i as int]));
                assert(av[i as int] == (key@, value@));
            }
            if name_is(key, "Algorithm") {
                v_algorithm = Some(value.clone());
            }
            i = i + 1;
        }
        proof {
            assert(av.take(attrs.len() as int) =~= av);
        }
        let f_algorithm = match v_algorithm {
            Some(x) => x,
            None => {
                return Err(SAMLError::unmarshalling("missing attribute Algorithm"));
            },
        };
        let children = obj.children();
        let ghost cv = obj@.children;
        proof {
            lemma_nodes_of(children@);
        }
        let mut v_key_size: Option<KeySize> = None;
        let mut v_oeap_params: Option<OAEPParams> = None;
        let mut v_unknown_children: Vec<XmlObject> = Vec::new();
        let mut j: usize = 0;
        while j < children.len()
            invariant
                0 <= j <= children.len(),
                nodes_of(children@) == cv,
                cv.len() == children.len(),
                if named(cv.take(j as int), "KeySize"@).len() > 0 { v_key_size is Some && v_key_size->0.matches(named(cv.take(j as int), "KeySize"@).last()) } else { v_key_size is None },
                forall|m: int| 0 <= m < named(cv.take(j as int), "KeySize"@).len() ==> KeySize::valid_node(#[trigger] named(cv.take(j as int), "KeySize"@)[m]),
                if named(cv.take(j as int), "OAEPParams"@).len() > 0 { v_oeap_params is Some && v_oeap_params->0.matches(named(cv.take(j as int), "OAEPParams"@).last()) } else { v_oeap_params is None },
                forall|m: int| 0 <= m < named(cv.take(j as int), "OAEPParams"@).len() ==> OAEPParams::valid_node(#[trigger] named(cv.take(j as int), "OAEPParams"@)[m]),
                nodes_of(v_unknown_children@) == cv.take(j as int).filter(|c: Node| !Self::known_child(c.name.local_name)),
            decreases children.len() - j,
        {
            let child = &children[j];
            proof {
                assert(cv.take(j + 1) =~= cv.take(j as int).push(cv[j as int]));
                assert(cv[j as int] == child@);
                Self::lemma_child_names();
                lemma_last_index(cv.take(j as int), "KeySize"@);
                lemma_last_index(cv.take(j as int), "OAEPParams"@);
            }
            if local_name_is(child, "KeySize") {
                let x = match KeySize::try_from_xml(child) {
                    Ok(x) => x,
                    Err(err) => {
                        proof {
                            assert(cv =~= cv.take(j + 1) + cv.skip(j + 1));
                            assert(named(cv, "KeySize"@)[named(cv.take(j as int), "KeySize"@).len() as int] == cv[j as int]);
                        }
                        return Err(err);
                    },
                };
                v_key_size = Some(x);
            } else if local_name_is(child, "OAEPParams") {
                let x = match OAEPParams::try_from_xml(child) {
                    Ok(x) => x,
                    Err(err) => {
                        proof {
                            assert(cv =~= cv.take(j + 1) + cv.skip(j + 1));
                            assert(named(cv, "OAEPParams"@)[named(cv.take(j as int), "OAEPParams"@).len() as int] == cv[j as int]);
                        }
                        return Err(err);
                    },
                };
                v_oeap_params = Some(x);
            } else {
                let x = child.deep_copy();
                proof {
                    lemma_nodes_of_push(v_unknown_children@, x);
                }
                v_unknown_children.push(x);
            }
            j = j + 1;
        }
        proof {
            assert(cv.take(children.len() as int) =~= cv);
            lemma_last_index(cv, "KeySize"@);
            lemma_last_index(cv, "OAEPParams"@);
        }
        Ok(EncryptedMethod {
            algorithm: f_algorithm,
            key_size: v_key_size,
            oeap_params: v_oeap_params,
            unknown_children: v_unknown_children,
        })
    }

    /// Writes the element as a node: its name in its namespace, the
    /// attributes that are set, its text and its children.
    pub fn to_xml(&self) -> (r: XmlObject)
        ensures
            r@ == self.spec_node(),
    {
        let mut x = XmlObject::new(Some("http://www.w3.org/2001/04/xmlenc#".to_owned()), "EncryptionMethod".to_owned(), Some("xenc".to_owned()));
        x.add_namespace("xenc".to_owned(), "http://www.w3.org/2001/04/xmlenc#".to_owned());
        x.add_attribute("Algorithm".to_owned(), self.algorithm.clone());
        write_opt_child(&mut x, &self.key_size);
        write_opt_child(&mut x, &self.oeap_params);
        let ghost pre = x@;
        let mut k: usize = 0;
        while k < self.unknown_children.len()
            invariant
                0 <= k <= self.unknown_children.len(),
                x@ == (Node { children: pre.children + nodes_of(self.unknown_children@.take(k as int)), ..pre }),
            decreases self.unknown_children.len() - k,
        {
            let y = self.unknown_children[k].deep_copy();
            x.add_child(y);
            proof {
                lemma_nodes_of_push(self.unknown_children@.take(k as int), self.unknown_children@[k as int]);
                assert(self.unknown_children@.take(k + 1) =~= self.unknown_children@.take(k as int).push(self.unknown_children@[k as int]));
                assert(pre.children + nodes_of(self.unknown_children@.take(k + 1)) =~= (pre.children + nodes_of(self.unknown_children@.take(k as int))).push(y@));
            }
            k = k + 1;
        }
        proof {
            assert(self.unknown_children@.take(k as int) =~= self.unknown_children@);
        }
        proof {
            assert(x@.attributes =~= self.spec_node().attributes);
            assert(x@.children =~= self.spec_node().children);
        }
        x
    }

    pub fn algorithm(&self) -> (r: &String)
        ensures
            *r == self.algorithm,
    {
        &self.algorithm
    }

    pub fn set_algorithm(&mut self, algorithm: String)
        ensures
            *final(self) == (EncryptedMethod { algorithm, ..*old(self) }),
    {
        self.algorithm = algorithm;
    }

    pub fn key_size(&self) -> (r: Option<&KeySize>)
        ensures
            r is Some <==> self.key_size is Some,
            r is Some ==> *r->0 == self.key_size->0,
    {
        self.key_size.as_ref()
    }

    pub fn set_key_size(&mut self, key_size: Option<KeySize>)
        ensures
            *final(self) == (EncryptedMethod { key_size, ..*old(self) }),
    {
        self.key_size = key_size;
    }

    pub fn oeap_params(&self) -> (r: Option<&OAEPParams>)
        ensures
            r is Some <==> self.oeap_params is Some,
            r is Some ==> *r->0 == self.oeap_params->0,
    {
        self.oeap_params.as_ref()
    }

    pub fn set_oeap_params(&mut self, oeap_params: Option<OAEPParams>)
        ensures
            *final(self) == (EncryptedMethod { oeap_params, ..*old(self) }),
    {
        self.oeap_params = oeap_params;
    }

    pub fn unknown_children(&self) -> (r: &Vec<XmlObject>)
        ensures
            *r == self.unknown_children,
    {
        &self.unknown_children
    }

    pub fn add_unknown_child(&mut self, item: XmlObject)
        ensures
            final(self).unknown_children@ == old(self).unknown_children@.push(item),
            final(self).algorithm == old(self).algorithm,
            final(self).key_size == old(self).key_size,
            final(self).oeap_params == old(self).oeap_params,
    {
        self.unknown_children.push(item);
    }

}

impl Element for EncryptedMethod {
    open spec fn node_ok(n: Node) -> bool {
        Self::valid_node(n)
    }

    open spec fn node_matches(self, n: Node) -> bool {
        self.matches(n)
    }

    open spec fn node_spec(self) -> Node {
        self.spec_node()
    }

    fn read(obj: &XmlObject) -> (r: Result<Self, SAMLError>) {
        Self::try_from_xml(obj)
    }

    fn write(&self) -> (r: XmlObject) {
        self.to_xml()
    }
}

} // verus!
