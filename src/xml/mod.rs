use vstd::prelude::*;

pub mod q_name;
pub mod reader;
pub mod writer;

use self::q_name::{QName, QNameView, opt_view};

verus! {

broadcast use {
    vstd::std_specs::vec::axiom_vec_index_decreases,
    vstd::std_specs::vec::axiom_vec_decreases_to_view,
    vstd::seq::axiom_seq_index_decreases,
    vstd::seq::axiom_seq_subrange_decreases,
};

/// A name/value pair as plain character sequences.
pub type Pair = (Seq<char>, Seq<char>);

/// The mathematical value of a document tree node.
pub struct Node {
    pub name: QNameView,
    pub attributes: Seq<Pair>,
    pub namespaces: Seq<Pair>,
    pub text: Option<Seq<char>>,
    pub children: Seq<Node>,
}

pub open spec fn pair_view(p: (String, String)) -> Pair {
    (p.0@, p.1@)
}

pub open spec fn pairs_view(s: Seq<(String, String)>) -> Seq<Pair> {
    s.map_values(|p: (String, String)| pair_view(p))
}

pub open spec fn node_of(x: XmlObject) -> Node
    decreases x,
{
    Node {
        name: x.q_name@,
        attributes: pairs_view(x.attributes@),
        namespaces: pairs_view(x.namespace@),
        text: opt_view(x.text),
        children: nodes_of(x.children@),
    }
}

pub open spec fn nodes_of(s: Seq<XmlObject>) -> Seq<Node>
    decreases s,
{
    if s.len() == 0 {
        Seq::empty()
    } else {
        nodes_of(s.subrange(0, s.len() - 1)).push(node_of(s[s.len() - 1]))
    }
}

#[derive(Debug)]
/// A node of a document tree: a name, attributes in document order, the
/// namespace mappings in scope, at most one text fragment and the children.
pub struct XmlObject {
    pub children: Vec<XmlObject>,
    pub attributes: Vec<(String, String)>,
    pub q_name: QName,
    pub namespace: Vec<(String, String)>,
    pub text: Option<String>,
}

impl View for XmlObject {
    type V = Node;

    open spec fn view(&self) -> Node {
        node_of(*self)
    }
}


/// Binds `prefix` to `uri` in a list of namespace mappings: the first mapping
/// of that prefix is replaced, or the pair is appended when there is none.
pub open spec fn ns_put(s: Seq<Pair>, prefix: Seq<char>, uri: Seq<char>) -> Seq<Pair>
    decreases s.len(),
{
    if s.len() == 0 {
        seq![(prefix, uri)]
    } else if s[0].0 == prefix {
        s.update(0, (prefix, uri))
    } else {
        seq![s[0]] + ns_put(s.drop_first(), prefix, uri)
    }
}

pub proof fn lemma_nodes_of(s: Seq<XmlObject>)
    ensures
        nodes_of(s).len() == s.len(),
        forall|i: int| 0 <= i < s.len() ==> #[trigger] nodes_of(s)[i] == node_of(s[i]),
    decreases s.len(),
{
    if s.len() > 0 {
        lemma_nodes_of(s.subrange(0, s.len() - 1));
    }
}

pub proof fn lemma_nodes_of_push(s: Seq<XmlObject>, c: XmlObject)
    ensures
        nodes_of(s.push(c)) == nodes_of(s).push(node_of(c)),
{
    assert(s.push(c).subrange(0, s.len() as int) =~= s);
}

proof fn lemma_ns_put_at(s: Seq<Pair>, prefix: Seq<char>, uri: Seq<char>, i: int)
    requires
        0 <= i <= s.len(),
        forall|j: int| 0 <= j < i ==> s[j].0 != prefix,
        i < s.len() ==> s[i].0 == prefix,
    ensures
        ns_put(s, prefix, uri) == if i < s.len() {
            s.update(i, (prefix, uri))
        } else {
            s.push((prefix, uri))
        },
    decreases s.len(),
{
    if s.len() > 0 && i > 0 {
        lemma_ns_put_at(s.drop_first(), prefix, uri, i - 1);
        if i < s.len() {
            assert(seq![s[0]] + s.drop_first().update(i - 1, (prefix, uri)) =~= s.update(i, (prefix, uri)));
        } else {
            assert(seq![s[0]] + s.drop_first().push((prefix, uri)) =~= s.push((prefix, uri)));
        }
    } else if s.len() == 0 {
        assert(seq![(prefix, uri)] =~= s.push((prefix, uri)));
    }
}

/// Copies a list of name/value pairs.
pub fn copy_pairs(v: &Vec<(String, String)>) -> (r: Vec<(String, String)>)
    ensures
        pairs_view(r@) == pairs_view(v@),
{
    let mut r: Vec<(String, String)> = Vec::new();
    let mut i: usize = 0;
    while i < v.len()
        invariant
            0 <= i <= v.len(),
            pairs_view(r@) =~= pairs_view(v@.take(i as int)),
        decreases v.len() - i,
    {
        let p = (v[i].0.clone(), v[i].1.clone());
        r.push(p);
        proof {
            assert(pairs_view(v@.take(i + 1)) =~= pairs_view(v@.take(i as int)).push(pair_view(v@[i as int])));
        }
        i = i + 1;
    }
    proof {
        assert(v@.take(i as int) =~= v@);
    }
    r
}

impl XmlObject {
    pub fn new(namespace_uri: Option<String>, local_name: String, prefix: Option<String>) -> (r: XmlObject)
        ensures
            r@ == (Node {
                name: QNameView {
                    namespace_uri: opt_view(namespace_uri),
                    local_name: local_name@,
                    prefix: opt_view(prefix),
                },
                attributes: Seq::empty(),
                namespaces: Seq::empty(),
                text: None,
                children: Seq::empty(),
            }),
    {
        let r = XmlObject {
            children: Vec::new(),
            attributes: Vec::new(),
            namespace: Vec::new(),
            q_name: QName::new(namespace_uri, local_name, prefix),
            text: None,
        };
        assert(pairs_view(r.attributes@) =~= Seq::empty());
        assert(pairs_view(r.namespace@) =~= Seq::empty());
        r
    }

    pub fn q_name(&self) -> (r: &QName)
        ensures
            r@ == self@.name,
    {
        &self.q_name
    }

    pub fn set_q_name(&mut self, q_name: QName)
        ensures
            final(self)@ == (Node { name: q_name@, ..old(self)@ }),
    {
        self.q_name = q_name;
    }

    pub fn text(&self) -> (r: Option<&String>)
        ensures
            r is Some <==> self@.text is Some,
            r is Some ==> r->0@ == self@.text->0,
    {
        self.text.as_ref()
    }

    pub fn set_text(&mut self, text: Option<String>)
        ensures
            final(self)@ == (Node { text: opt_view(text), ..old(self)@ }),
    {
        self.text = text;
    }

    pub fn attributes(&self) -> (r: &Vec<(String, String)>)
        ensures
            pairs_view(r@) == self@.attributes,
            r@ == self.attributes@,
    {
        &self.attributes
    }

    pub fn add_attribute(&mut self, key: String, value: String)
        ensures
            final(self)@ == (Node { attributes: old(self)@.attributes.push((key@, value@)), ..old(self)@ }),
    {
        self.attributes.push((key, value));
        proof {
            assert(pairs_view(self.attributes@) =~= pairs_view(old(self).attributes@).push((key@, value@)));
        }
    }

    pub fn children(&self) -> (r: &Vec<XmlObject>)
        ensures
            nodes_of(r@) == self@.children,
            r@ == self.children@,
    {
        &self.children
    }

    pub fn add_child(&mut self, child: XmlObject)
        ensures
            final(self)@ == (Node { children: old(self)@.children.push(child@), ..old(self)@ }),
    {
        self.children.push(child);
        proof {
            lemma_nodes_of_push(old(self).children@, child);
        }
    }

    /// A copy of the whole subtree.
    pub fn deep_copy(&self) -> (r: XmlObject)
        ensures
            r@ == self@,
        decreases self,
    {
        let mut children: Vec<XmlObject> = Vec::new();
        let mut i: usize = 0;
        while i < self.children.len()
            invariant
                0 <= i <= self.children.len(),
                nodes_of(children@) == nodes_of(self.children@.take(i as int)),
            decreases self.children.len() - i,
        {
            proof {
                assert(decreases_to!(self => self.children@[i as int]));
            }
            let c = self.children[i].deep_copy();
            proof {
                lemma_nodes_of_push(children@, c);
                lemma_nodes_of_push(self.children@.take(i as int), self.children@[i as int]);
                assert(self.children@.take(i as int).push(self.children@[i as int]) =~= self.children@.take(i + 1));
            }
            children.push(c);
            i = i + 1;
        }
        proof {
            assert(self.children@.take(i as int) =~= self.children@);
        }
        let attributes = copy_pairs(&self.attributes);
        let namespace = copy_pairs(&self.namespace);
        XmlObject {
            children,
            attributes,
            q_name: self.q_name.copy(),
            namespace,
            text: q_name::clone_opt(&self.text),
        }
    }

    pub fn namespace(&self) -> (r: &Vec<(String, String)>)
        ensures
            pairs_view(r@) == self@.namespaces,
    {
        &self.namespace
    }

    pub fn add_namespace(&mut self, prefix: String, uri: String)
        ensures
            final(self)@ == (Node { namespaces: ns_put(old(self)@.namespaces, prefix@, uri@), ..old(self)@ }),
    {
        let ghost s = pairs_view(self.namespace@);
        let mut i: usize = 0;
        while i < self.namespace.len() && self.namespace[i].0 != prefix
            invariant
                0 <= i <= self.namespace.len(),
                s == pairs_view(self.namespace@),
                forall|j: int| 0 <= j < i ==> s[j].0 != prefix@,
            decreases self.namespace.len() - i,
        {
            i = i + 1;
        }
        proof {
            lemma_ns_put_at(s, prefix@, uri@, i as int);
        }
        if i < self.namespace.len() {
            self.namespace.set(i, (prefix, uri));
            proof {
                assert(pairs_view(self.namespace@) =~= s.update(i as int, (prefix@, uri@)));
            }
        } else {
            self.namespace.push((prefix, uri));
            proof {
                assert(pairs_view(self.namespace@) =~= s.push((prefix@, uri@)));
            }
        }
    }
}

} // verus!
