use vstd::prelude::*;

use crate::xml::{Node, Pair, XmlObject};

verus! {

broadcast use {vstd::seq::axiom_seq_index_decreases, vstd::seq_lib::group_seq_properties};

/// The value of the last attribute named `k`, as an unmarshaller that lets a
/// later attribute overwrite an earlier one sees it.
pub open spec fn attr_last(a: Seq<Pair>, k: Seq<char>) -> Option<Seq<char>>
    decreases a.len(),
{
    if a.len() == 0 {
        None
    } else if a.last().0 == k {
        Some(a.last().1)
    } else {
        attr_last(a.drop_last(), k)
    }
}

/// Every attribute named `k` holds a value that `ok` accepts.
pub open spec fn attrs_ok(a: Seq<Pair>, k: Seq<char>, ok: spec_fn(Seq<char>) -> bool) -> bool {
    forall|i: int| 0 <= i < a.len() && (#[trigger] a[i]).0 == k ==> ok(a[i].1)
}

/// The children named `k`, in document order.
pub open spec fn named(c: Seq<Node>, k: Seq<char>) -> Seq<Node> {
    c.filter(|n: Node| n.name.local_name == k)
}

/// The index of the last child named `k`, or -1 when there is none.
pub open spec fn last_index(c: Seq<Node>, k: Seq<char>) -> int
    decreases c.len(),
{
    if c.len() == 0 {
        -1
    } else if c.last().name.local_name == k {
        c.len() - 1
    } else {
        last_index(c.drop_last(), k)
    }
}

pub open spec fn push_attr(s: Seq<Pair>, k: Seq<char>, v: Option<Seq<char>>) -> Seq<Pair> {
    match v {
        Some(t) => s.push((k, t)),
        None => s,
    }
}

/// The node of an optional element, as a sequence of at most one node.
pub open spec fn opt_nodes(n: Option<Node>) -> Seq<Node> {
    match n {
        Some(x) => seq![x],
        None => Seq::empty(),
    }
}

pub open spec fn push_node(s: Seq<Node>, n: Option<Node>) -> Seq<Node> {
    s + opt_nodes(n)
}

pub proof fn lemma_last_index(c: Seq<Node>, k: Seq<char>)
    ensures
        -1 <= last_index(c, k) < c.len(),
        last_index(c, k) >= 0 ==> c[last_index(c, k)].name.local_name == k,
    decreases c.len(),
{
    if c.len() > 0 {
        lemma_last_index(c.drop_last(), k);
    }
}

pub broadcast proof fn lemma_last_index_push(c: Seq<Node>, x: Node, k: Seq<char>)
    ensures
        #[trigger] last_index(c.push(x), k) == if x.name.local_name == k {
            c.len() as int
        } else {
            last_index(c, k)
        },
{
    assert(c.push(x).drop_last() =~= c);
}

pub broadcast proof fn lemma_attr_last_push(a: Seq<Pair>, p: Pair, k: Seq<char>)
    ensures
        #[trigger] attr_last(a.push(p), k) == if p.0 == k {
            Some(p.1)
        } else {
            attr_last(a, k)
        },
{
    assert(a.push(p).drop_last() =~= a);
}

/// True when the node's local name is `k`.
pub fn local_name_is(x: &XmlObject, k: &str) -> (r: bool)
    ensures
        r == (x@.name.local_name == k@),
{
    x.q_name.local_name == k.to_owned()
}


pub proof fn lemma_filter_all<A>(s: Seq<A>, p: spec_fn(A) -> bool)
    requires
        forall|i: int| 0 <= i < s.len() ==> p(#[trigger] s[i]),
    ensures
        s.filter(p) == s,
    decreases s.len(),
{
    reveal(Seq::filter);
    if s.len() > 0 {
        lemma_filter_all(s.drop_last(), p);
        assert(s.drop_last().push(s.last()) =~= s);
    }
}

pub proof fn lemma_filter_none<A>(s: Seq<A>, p: spec_fn(A) -> bool)
    requires
        forall|i: int| 0 <= i < s.len() ==> !p(#[trigger] s[i]),
    ensures
        s.filter(p) == Seq::<A>::empty(),
    decreases s.len(),
{
    reveal(Seq::filter);
    if s.len() > 0 {
        lemma_filter_none(s.drop_last(), p);
    }
    assert(s.filter(p) =~= Seq::<A>::empty());
}

/// The children named `k` are all of them when every child has that name.
pub proof fn lemma_named_all(c: Seq<Node>, k: Seq<char>)
    requires
        forall|i: int| 0 <= i < c.len() ==> (#[trigger] c[i]).name.local_name == k,
    ensures
        named(c, k) == c,
    decreases c.len(),
{
    reveal(Seq::filter);
    if c.len() > 0 {
        lemma_named_all(c.drop_last(), k);
        assert(c.drop_last().push(c.last()) =~= c);
    }
}

/// No child is named `k` when every child has another name.
pub proof fn lemma_named_none(c: Seq<Node>, k: Seq<char>)
    requires
        forall|i: int| 0 <= i < c.len() ==> (#[trigger] c[i]).name.local_name != k,
    ensures
        named(c, k) == Seq::<Node>::empty(),
    decreases c.len(),
{
    reveal(Seq::filter);
    if c.len() > 0 {
        lemma_named_none(c.drop_last(), k);
    }
    assert(named(c, k) =~= Seq::<Node>::empty());
}

/// Appending attributes of other names leaves the last value of `k` alone.
pub proof fn lemma_attr_last_append_other(a: Seq<Pair>, b: Seq<Pair>, k: Seq<char>)
    requires
        forall|i: int| 0 <= i < b.len() ==> (#[trigger] b[i]).0 != k,
    ensures
        attr_last(a + b, k) == attr_last(a, k),
        attrs_ok(a + b, k, |t: Seq<char>| true),
    decreases b.len(),
{
    if b.len() > 0 {
        lemma_attr_last_append_other(a, b.drop_last(), k);
        assert((a + b).drop_last() =~= a + b.drop_last());
    } else {
        assert(a + b =~= a);
    }
}

/// Appending attributes of other names keeps every value of `k` acceptable.
pub proof fn lemma_attrs_ok_append_other(a: Seq<Pair>, b: Seq<Pair>, k: Seq<char>, ok: spec_fn(Seq<char>) -> bool)
    requires
        forall|i: int| 0 <= i < b.len() ==> (#[trigger] b[i]).0 != k,
        attrs_ok(a, k, ok),
    ensures
        attrs_ok(a + b, k, ok),
{
    assert forall|i: int| 0 <= i < (a + b).len() && (#[trigger] (a + b)[i]).0 == k implies ok((a + b)[i].1) by {
        if i >= a.len() {
            assert((a + b)[i] == b[i - a.len()]);
        } else {
            assert((a + b)[i] == a[i]);
        }
    }
}

pub broadcast proof fn lemma_attrs_ok_push(a: Seq<Pair>, p: Pair, k: Seq<char>, ok: spec_fn(Seq<char>) -> bool)
    ensures
        #[trigger] attrs_ok(a.push(p), k, ok) == (attrs_ok(a, k, ok) && (p.0 == k ==> ok(p.1))),
{
    if attrs_ok(a, k, ok) && (p.0 == k ==> ok(p.1)) {
        assert forall|i: int| 0 <= i < a.push(p).len() && (#[trigger] a.push(p)[i]).0 == k implies ok(a.push(p)[i].1) by {
            if i < a.len() {
                assert(a.push(p)[i] == a[i]);
            }
        }
    }
    if attrs_ok(a.push(p), k, ok) {
        assert forall|i: int| 0 <= i < a.len() && (#[trigger] a[i]).0 == k implies ok(a[i].1) by {
            assert(a.push(p)[i] == a[i]);
        }
        assert(a.push(p)[a.len() as int] == p);
    }
}

pub broadcast group group_binding {
    Seq::filter_distributes_over_add,
    lemma_attrs_ok_push,
    vstd::seq::axiom_seq_index_decreases,
    lemma_last_index_push,
    lemma_attr_last_push,
    Seq::lemma_filter_push,
}

} // verus!
