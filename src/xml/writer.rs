use vstd::prelude::*;

use super::q_name::{opt_view, QName, QNameView};
use super::{copy_pairs, lemma_nodes_of, pair_view, pairs_view, Node, Pair, XmlObject};
use super::reader::XmlError;
use xml::name::Name;
use xml::writer::XmlEvent as WriterEvent;

verus! {

broadcast use Seq::lemma_filter_push;

/// One event handed to the XML writer.
pub enum WriteToken {
    /// A start tag with its attributes and the namespace declarations to emit.
    Start(QName, Vec<(String, String)>, Vec<(String, String)>),
    Text(String),
    End(QName),
}

/// The mathematical value of a [`WriteToken`].
pub enum WriteView {
    Start(QNameView, Seq<Pair>, Seq<Pair>),
    Text(Seq<char>),
    End(QNameView),
}

pub open spec fn write_view(t: WriteToken) -> WriteView {
    match t {
        WriteToken::Start(q, a, n) => WriteView::Start(q@, pairs_view(a@), pairs_view(n@)),
        WriteToken::Text(s) => WriteView::Text(s@),
        WriteToken::End(q) => WriteView::End(q@),
    }
}

pub open spec fn write_views(s: Seq<WriteToken>) -> Seq<WriteView> {
    s.map_values(|t: WriteToken| write_view(t))
}

/// Some ancestor already declares exactly this prefix and URI.
pub open spec fn covered(anc: Seq<Seq<Pair>>, p: Pair) -> bool {
    exists|a: int| 0 <= a < anc.len() && (#[trigger] anc[a]).contains(p)
}

/// The namespace declarations of a node that no ancestor already makes.
pub open spec fn fresh_ns(ns: Seq<Pair>, anc: Seq<Seq<Pair>>) -> Seq<Pair> {
    ns.filter(|p: Pair| !covered(anc, p))
}

pub open spec fn text_events(t: Option<Seq<char>>) -> Seq<WriteView> {
    match t {
        Some(s) => seq![WriteView::Text(s)],
        None => Seq::empty(),
    }
}

/// The writer events of a subtree whose ancestors declare `anc`: the start
/// tag, the text, the children in document order, and the end tag.
pub open spec fn events_of(n: Node, anc: Seq<Seq<Pair>>) -> Seq<WriteView>
    decreases n,
{
    seq![WriteView::Start(n.name, n.attributes, fresh_ns(n.namespaces, anc))] + text_events(n.text)
        + children_events(n.children, anc.push(n.namespaces)) + seq![WriteView::End(n.name)]
}

pub open spec fn children_events(cs: Seq<Node>, anc: Seq<Seq<Pair>>) -> Seq<WriteView>
    decreases cs,
{
    if cs.len() == 0 {
        Seq::empty()
    } else {
        children_events(cs.drop_last(), anc) + events_of(cs.last(), anc)
    }
}

/// The namespace declarations of the visited entries of a traversal stack,
/// bottom first: the ancestors of whatever lies above them.
pub open spec fn stack_anc(st: Seq<(Node, bool)>) -> Seq<Seq<Pair>>
    decreases st.len(),
{
    if st.len() == 0 {
        Seq::empty()
    } else if st.last().1 {
        stack_anc(st.drop_last()).push(st.last().0.namespaces)
    } else {
        stack_anc(st.drop_last())
    }
}

/// The events that a traversal stack still has to produce, top first.
pub open spec fn pending(st: Seq<(Node, bool)>) -> Seq<WriteView>
    decreases st.len(),
{
    if st.len() == 0 {
        Seq::empty()
    } else if st.last().1 {
        seq![WriteView::End(st.last().0.name)] + pending(st.drop_last())
    } else {
        events_of(st.last().0, stack_anc(st.drop_last())) + pending(st.drop_last())
    }
}

pub open spec fn unvisited_rev(cs: Seq<Node>) -> Seq<(Node, bool)> {
    Seq::new(cs.len(), |i: int| (cs[cs.len() - 1 - i], false))
}

proof fn lemma_push_children(base: Seq<(Node, bool)>, cs: Seq<Node>)
    ensures
        stack_anc(base + unvisited_rev(cs)) == stack_anc(base),
        pending(base + unvisited_rev(cs)) == children_events(cs, stack_anc(base)) + pending(base),
    decreases cs.len(),
{
    if cs.len() == 0 {
        assert(base + unvisited_rev(cs) =~= base);
    } else {
        let b1 = base.push((cs.last(), false));
        assert(base + unvisited_rev(cs) =~= b1 + unvisited_rev(cs.drop_last()));
        lemma_push_children(b1, cs.drop_last());
        assert(b1.drop_last() =~= base);
        assert(children_events(cs.drop_last(), stack_anc(base)) + (events_of(cs.last(), stack_anc(base))
            + pending(base)) =~= children_events(cs, stack_anc(base)) + pending(base));
    }
}

proof fn lemma_covered_stack(st: Seq<(Node, bool)>, p: Pair)
    ensures
        covered(stack_anc(st), p) <==> exists|i: int|
            0 <= i < st.len() && (#[trigger] st[i]).1 && st[i].0.namespaces.contains(p),
    decreases st.len(),
{
    if st.len() > 0 {
        let d = st.drop_last();
        lemma_covered_stack(d, p);
        let a = stack_anc(st);
        if exists|i: int| 0 <= i < st.len() && (#[trigger] st[i]).1 && st[i].0.namespaces.contains(p) {
            let i = choose|i: int| 0 <= i < st.len() && (#[trigger] st[i]).1 && st[i].0.namespaces.contains(p);
            if i < st.len() - 1 {
                assert(d[i] == st[i]);
                let k = choose|k: int| 0 <= k < stack_anc(d).len() && (#[trigger] stack_anc(d)[k]).contains(p);
                if st.last().1 {
                    assert(a[k] == stack_anc(d)[k]);
                }
            } else {
                assert(a[a.len() - 1] == st.last().0.namespaces);
            }
        }
        if covered(a, p) {
            let k = choose|k: int| 0 <= k < a.len() && (#[trigger] a[k]).contains(p);
            if st.last().1 && k == a.len() - 1 {
                assert(st[st.len() - 1].1);
            } else {
                assert(stack_anc(d)[k] == a[k]);
                let i = choose|i: int| 0 <= i < d.len() && (#[trigger] d[i]).1 && d[i].0.namespaces.contains(p);
                assert(st[i] == d[i]);
            }
        }
    }
}


pub open spec fn stack_view(st: Seq<(&XmlObject, bool)>) -> Seq<(Node, bool)> {
    st.map_values(|e: (&XmlObject, bool)| (e.0@, e.1))
}

/// True when the list holds exactly this prefix and URI.
fn holds_pair(ns: &Vec<(String, String)>, p: &(String, String)) -> (r: bool)
    ensures
        r == pairs_view(ns@).contains(pair_view(*p)),
{
    let mut i: usize = 0;
    while i < ns.len()
        invariant
            0 <= i <= ns.len(),
            forall|j: int| 0 <= j < i ==> pairs_view(ns@)[j] != pair_view(*p),
        decreases ns.len() - i,
    {
        if ns[i].0 == p.0 && ns[i].1 == p.1 {
            proof {
                assert(pairs_view(ns@)[i as int] == pair_view(*p));
            }
            return true;
        }
        i = i + 1;
    }
    false
}

/// True when a visited entry of the stack declares exactly this prefix and URI.
#[verifier::loop_isolation(false)]
fn declared_above(stack: &Vec<(&XmlObject, bool)>, p: &(String, String)) -> (r: bool)
    ensures
        r == covered(stack_anc(stack_view(stack@)), pair_view(*p)),
{
    let ghost sv = stack_view(stack@);
    proof {
        lemma_covered_stack(sv, pair_view(*p));
    }
    let mut i: usize = 0;
    while i < stack.len()
        invariant
            0 <= i <= stack.len(),
            sv == stack_view(stack@),
            forall|j: int| 0 <= j < i ==> !((#[trigger] sv[j]).1 && sv[j].0.namespaces.contains(pair_view(*p))),
        decreases stack.len() - i,
    {
        let e = stack[i];
        if e.1 && holds_pair(&e.0.namespace, p) {
            proof {
                assert(sv[i as int] == (e.0@, e.1));
                assert(sv[i as int].1 && sv[i as int].0.namespaces.contains(pair_view(*p)));
                assert(covered(stack_anc(sv), pair_view(*p)));
            }
            return true;
        }
        proof {
            assert(sv[i as int] == (e.0@, e.1));
        }
        i = i + 1;
    }
    false
}

/// The declarations of `ns` that no visited entry of the stack makes.
#[verifier::loop_isolation(false)]
fn fresh_namespaces(ns: &Vec<(String, String)>, stack: &Vec<(&XmlObject, bool)>) -> (r: Vec<(String, String)>)
    ensures
        pairs_view(r@) == fresh_ns(pairs_view(ns@), stack_anc(stack_view(stack@))),
{
    let ghost anc = stack_anc(stack_view(stack@));
    let ghost nv = pairs_view(ns@);
    let mut r: Vec<(String, String)> = Vec::new();
    let mut i: usize = 0;
    while i < ns.len()
        invariant
            0 <= i <= ns.len(),
            nv == pairs_view(ns@),
            pairs_view(r@) == fresh_ns(nv.take(i as int), anc),
        decreases ns.len() - i,
    {
        proof {
            assert(nv.take(i + 1) =~= nv.take(i as int).push(nv[i as int]));
            assert(nv[i as int] == pair_view(ns@[i as int]));
        }
        let covered_here = declared_above(stack, &ns[i]);
        proof {
            assert(nv.take(i + 1).filter(|p: Pair| !covered(anc, p)) == if !covered(anc, nv[i as int]) {
                nv.take(i as int).filter(|p: Pair| !covered(anc, p)).push(nv[i as int])
            } else {
                nv.take(i as int).filter(|p: Pair| !covered(anc, p))
            });
        }
        if !covered_here {
            let ghost before = r@;
            r.push((ns[i].0.clone(), ns[i].1.clone()));
            proof {
                assert(pairs_view(r@) =~= pairs_view(before).push(nv[i as int]));
            }
        }
        i = i + 1;
    }
    proof {
        assert(nv.take(i as int) =~= nv);
    }
    r
}

/// The text that the XML writer makes of a sequence of events, or `None`
/// when it reports an error or the output is not UTF-8.
pub uninterp spec fn xml_text_of(events: Seq<WriteView>) -> Option<Seq<char>>;

/// Relies on xml-rs's `EventWriter` (`write` for each event, then
/// `into_inner`) writing into a buffer: the text depends on the events alone.
#[verifier::external_body]
fn write_all(events: &Vec<WriteToken>) -> (r: Option<String>)
    ensures
        opt_view(r) == xml_text_of(write_views(events@)),
{
    let mut w = xml::writer::EventWriter::new(Vec::new());
    for t in events {
        match t {
            WriteToken::Start(q, a, n) => {
                let mut e = WriterEvent::start_element(Name { local_name: &q.local_name, namespace: q.namespace_uri.as_deref(), prefix: q.prefix.as_deref() });
                for (p, u) in n { e = e.ns(p, u); }
                for (k, v) in a { e = e.attr(k.as_str(), v); }
                w.write(e)
            },
            WriteToken::Text(s) => w.write(WriterEvent::characters(s)),
            WriteToken::End(_) => w.write(WriterEvent::end_element()),
        }.ok()?;
    }
    String::from_utf8(w.into_inner()).ok()
}

impl XmlObject {
    /// Serializes the tree: the text that the XML writer makes of the events
    /// of [`XmlObject::write_events`], or an error when the writer fails.
    pub fn write_xml(root: &XmlObject) -> (r: Result<String, XmlError>)
        ensures
            r is Ok <==> xml_text_of(events_of(root@, Seq::empty())) is Some,
            r is Ok ==> r->Ok_0@ == xml_text_of(events_of(root@, Seq::empty()))->0,
    {
        let events = root.write_events();
        match write_all(&events) {
            Some(s) => Ok(s),
            None => Err(XmlError::new("invalid xml document".to_owned())),
        }
    }

    /// The events that write the tree, found by a depth-first walk over an
    /// explicit stack (so deep documents need no call-stack depth): a start
    /// tag carries only the namespace declarations that no ancestor makes,
    /// and children are written in document order.
    pub fn write_events(&self) -> (r: Vec<WriteToken>)
        ensures
            write_views(r@) == events_of(self@, Seq::empty()),
    {
        let mut out: Vec<WriteToken> = Vec::new();
        let mut stack: Vec<(&XmlObject, bool)> = Vec::new();
        stack.push((self, false));
        proof {
            let sv = stack_view(stack@);
            assert(sv =~= seq![(self@, false)]);
            assert(sv.last() == (self@, false));
            assert(stack_anc(sv.drop_last()) =~= Seq::<Seq<Pair>>::empty());
            assert(pending(sv.drop_last()) =~= Seq::<WriteView>::empty());
            assert(pending(sv) =~= events_of(self@, Seq::empty()));
            assert(stack_view(stack@).drop_last() =~= Seq::<(Node, bool)>::empty());
            assert(write_views(out@) + pending(stack_view(stack@)) =~= events_of(self@, Seq::empty()));
        }
        while stack.len() > 0
            invariant
                write_views(out@) + pending(stack_view(stack@)) == events_of(self@, Seq::empty()),
            decreases pending(stack_view(stack@)).len(),
        {
            let ghost sv = stack_view(stack@);
            let (x, visited) = stack.pop().unwrap();
            proof {
                assert(stack_view(stack@) =~= sv.drop_last());
                assert(sv.last() == (x@, visited));
            }
            if visited {
                let ghost before = out@;
                out.push(WriteToken::End(x.q_name.copy()));
                proof {
                    assert(write_views(out@) =~= write_views(before).push(WriteView::End(x@.name)));
                    assert(write_views(out@) + pending(stack_view(stack@)) =~= write_views(before) + pending(sv));
                }
            } else {
                let ghost anc = stack_anc(stack_view(stack@));
                let ghost before = out@;
                let ns = fresh_namespaces(&x.namespace, &stack);
                let attrs = copy_pairs(&x.attributes);
                out.push(WriteToken::Start(x.q_name.copy(), attrs, ns));
                match &x.text {
                    Some(t) => out.push(WriteToken::Text(t.clone())),
                    None => {},
                }
                proof {
                    assert(write_views(out@) =~= write_views(before) + seq![WriteView::Start(x@.name, x@.attributes, fresh_ns(x@.namespaces, anc))] + text_events(x@.text));
                }
                let ghost base = stack_view(stack@).push((x@, true));
                stack.push((x, true));
                proof {
                    assert(stack_view(stack@) =~= base);
                    assert(base.drop_last() =~= sv.drop_last());
                    lemma_nodes_of(x.children@);
                }
                let mut i: usize = x.children.len();
                while i > 0
                    invariant
                        0 <= i <= x.children.len(),
                        x@.children.len() == x.children@.len(),
                        forall|k: int| 0 <= k < x.children@.len() ==> #[trigger] x@.children[k] == x.children@[k]@,
                        stack_view(stack@) == base + unvisited_rev(x@.children.subrange(i as int, x@.children.len() as int)),
                    decreases i,
                {
                    i = i - 1;
                    let ghost prev = stack@;
                    stack.push((&x.children[i], false));
                    proof {
                        assert(unvisited_rev(x@.children.subrange(i as int, x@.children.len() as int)) =~= unvisited_rev(
                            x@.children.subrange(i + 1, x@.children.len() as int),
                        ).push((x@.children[i as int], false)));
                        assert(stack_view(stack@) =~= stack_view(prev).push((x.children@[i as int]@, false)));
                    }
                }
                proof {
                    assert(x@.children.subrange(0, x@.children.len() as int) =~= x@.children);
                    lemma_push_children(base, x@.children);
                    assert(stack_anc(base) =~= anc.push(x@.namespaces));
                    assert(pending(base) =~= seq![WriteView::End(x@.name)] + pending(sv.drop_last()));
                    assert(write_views(out@) + pending(stack_view(stack@)) =~= write_views(before) + pending(sv));
                }
            }
        }
        proof {
            assert(pending(stack_view(stack@)) =~= Seq::<WriteView>::empty());
            assert(write_views(out@) =~= write_views(out@) + pending(stack_view(stack@)));
        }
        out
    }
}

} // verus!
