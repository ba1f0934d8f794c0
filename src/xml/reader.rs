use vstd::prelude::*;

use super::q_name::QName;
use super::{lemma_nodes_of, lemma_nodes_of_push, nodes_of, Node, XmlObject};
use xml::reader::XmlEvent as ReaderEvent;

verus! {

/// One event read from XML text. A start tag arrives as a childless node that
/// holds the tag's name, attributes and the namespace mappings in scope.
pub enum XmlToken {
    Start(XmlObject),
    Text(String),
    End,
    Other,
    Malformed,
}

/// The mathematical value of an [`XmlToken`].
pub enum TokenView {
    Start(Node),
    Text(Seq<char>),
    End,
    Other,
    Malformed,
}

pub open spec fn token_view(t: XmlToken) -> TokenView {
    match t {
        XmlToken::Start(x) => TokenView::Start(x@),
        XmlToken::Text(s) => TokenView::Text(s@),
        XmlToken::End => TokenView::End,
        XmlToken::Other => TokenView::Other,
        XmlToken::Malformed => TokenView::Malformed,
    }
}

pub open spec fn token_views(s: Seq<XmlToken>) -> Seq<TokenView> {
    s.map_values(|t: XmlToken| token_view(t))
}

/// The events that the XML reader produces for the given bytes, up to the end
/// of the document or the first syntax error (which ends the sequence as
/// `Malformed`).
pub uninterp spec fn xml_tokens_of(input: Seq<u8>) -> Seq<TokenView>;

/// Why reading a document failed.
pub struct XmlError {
    pub message: String,
}

impl XmlError {
    pub fn new(message: String) -> (r: XmlError)
        ensures
            r.message@ == message@,
    {
        XmlError { message }
    }

    pub fn message(&self) -> (r: &str)
        ensures
            r@ == self.message@,
    {
        self.message.as_str()
    }
}

/// Replaces the text of the innermost open node.
pub open spec fn with_text(n: Node, t: Seq<char>) -> Node {
    Node { text: Some(t), ..n }
}

/// Appends `c` as the last child of `n`.
pub open spec fn with_child(n: Node, c: Node) -> Node {
    Node { children: n.children.push(c), ..n }
}

/// Runs the tree builder over `toks` with `stack` as the open nodes,
/// innermost last. The result is the root, closed by the end tag that empties
/// the stack, or `None` when the events end first, an end tag or text comes
/// with no open node, or the reader reported malformed input.
pub open spec fn build_run(toks: Seq<TokenView>, stack: Seq<Node>) -> Option<Node>
    decreases toks.len(),
{
    if toks.len() == 0 {
        None
    } else {
        let rest = toks.drop_first();
        match toks[0] {
            TokenView::Start(n) => build_run(rest, stack.push(n)),
            TokenView::Text(t) => if stack.len() == 0 {
                None
            } else {
                build_run(rest, stack.update(stack.len() - 1, with_text(stack.last(), t)))
            },
            TokenView::End => if stack.len() == 0 {
                None
            } else if stack.len() == 1 {
                Some(stack[0])
            } else {
                let st = stack.drop_last();
                build_run(rest, st.update(st.len() - 1, with_child(st.last(), stack.last())))
            },
            TokenView::Other => build_run(rest, stack),
            TokenView::Malformed => None,
        }
    }
}

/// The tree that a sequence of reader events describes.
pub open spec fn tree_of(toks: Seq<TokenView>) -> Option<Node> {
    build_run(toks, Seq::empty())
}

/// The tree that the given bytes describe as XML.
pub open spec fn parsed(input: Seq<u8>) -> Option<Node> {
    tree_of(xml_tokens_of(input))
}

/// A start tag as the reader reports it: the node without text or children.
pub open spec fn start_of(n: Node) -> Node {
    Node { text: None, children: Seq::empty(), ..n }
}

pub open spec fn text_tokens(t: Option<Seq<char>>) -> Seq<TokenView> {
    match t {
        Some(s) => seq![TokenView::Text(s)],
        None => Seq::empty(),
    }
}

/// The reader events that describe a tree: its start tag, its text, the
/// events of its children in order, and its end tag.
pub open spec fn tree_tokens(n: Node) -> Seq<TokenView>
    decreases n,
{
    seq![TokenView::Start(start_of(n))] + text_tokens(n.text) + children_tokens(n.children) + seq![TokenView::End]
}

pub open spec fn children_tokens(cs: Seq<Node>) -> Seq<TokenView>
    decreases cs,
{
    if cs.len() == 0 {
        Seq::empty()
    } else {
        children_tokens(cs.drop_last()) + tree_tokens(cs.last())
    }
}

/// What the builder does with the events of one complete subtree: close it
/// as the root, or append it to the innermost open node.
pub open spec fn after_subtree(n: Node, rest: Seq<TokenView>, stack: Seq<Node>) -> Option<Node> {
    if stack.len() == 0 {
        Some(n)
    } else {
        build_run(rest, stack.update(stack.len() - 1, with_child(stack.last(), n)))
    }
}

proof fn lemma_build_subtree(n: Node, rest: Seq<TokenView>, stack: Seq<Node>)
    ensures
        build_run(tree_tokens(n) + rest, stack) == after_subtree(n, rest, stack),
    decreases n, 1nat,
{
    let t = tree_tokens(n) + rest;
    let s1 = stack.push(start_of(n));
    let after_start = text_tokens(n.text) + children_tokens(n.children) + seq![TokenView::End] + rest;
    assert(t[0] == TokenView::Start(start_of(n)));
    assert(t.drop_first() =~= after_start);
    assert(build_run(t, stack) == build_run(after_start, s1));
    let top = Node { text: n.text, ..start_of(n) };
    let s2 = stack.push(top);
    let after_text = children_tokens(n.children) + (seq![TokenView::End] + rest);
    match n.text {
        Some(x) => {
            assert(after_start[0] == TokenView::Text(x));
            assert(after_start.drop_first() =~= after_text);
            assert(s1.update(s1.len() - 1, with_text(s1.last(), x)) =~= s2);
        },
        None => {
            assert(after_start =~= after_text);
            assert(s1 =~= s2);
        },
    }
    assert(build_run(after_start, s1) == build_run(after_text, s2));
    lemma_build_children(n.children, seq![TokenView::End] + rest, s2);
    assert(top.children + n.children =~= n.children);
    let s3 = s2.update(s2.len() - 1, Node { children: top.children + n.children, ..top });
    assert(s3 =~= stack.push(n));
    let end_rest = seq![TokenView::End] + rest;
    assert(end_rest[0] == TokenView::End);
    assert(end_rest.drop_first() =~= rest);
    if stack.len() > 0 {
        assert(s3.drop_last() =~= stack);
    }
}

proof fn lemma_build_children(cs: Seq<Node>, rest: Seq<TokenView>, stack: Seq<Node>)
    requires
        stack.len() > 0,
    ensures
        build_run(children_tokens(cs) + rest, stack) == build_run(
            rest,
            stack.update(stack.len() - 1, Node { children: stack.last().children + cs, ..stack.last() }),
        ),
    decreases cs, 0nat,
{
    if cs.len() == 0 {
        assert(children_tokens(cs) + rest =~= rest);
        assert(stack.last().children + cs =~= stack.last().children);
        assert(stack.update(stack.len() - 1, Node { children: stack.last().children + cs, ..stack.last() }) =~= stack);
    } else {
        let init = cs.drop_last();
        let last = cs.last();
        assert(children_tokens(cs) + rest =~= children_tokens(init) + (tree_tokens(last) + rest));
        lemma_build_children(init, tree_tokens(last) + rest, stack);
        let s1 = stack.update(stack.len() - 1, Node { children: stack.last().children + init, ..stack.last() });
        lemma_build_subtree(last, rest, s1);
        assert(stack.last().children + init.push(last) =~= stack.last().children + cs);
        assert((stack.last().children + init).push(last) =~= stack.last().children + cs);
        assert(s1.update(s1.len() - 1, with_child(s1.last(), last)) =~= stack.update(
            stack.len() - 1,
            Node { children: stack.last().children + cs, ..stack.last() },
        ));
    }
}

/// Reading back the events that describe a tree builds exactly that tree.
pub proof fn lemma_tree_of_tokens(n: Node)
    ensures
        tree_of(tree_tokens(n)) == Some(n),
{
    lemma_build_subtree(n, Seq::empty(), Seq::empty());
    assert(tree_tokens(n) + Seq::<TokenView>::empty() =~= tree_tokens(n));
}

/// Relies on xml-rs's `EventReader`: reads all events of `input` up to the end
/// of the document or the first error; the events depend on the bytes alone.
#[verifier::external_body]
fn read_tokens(input: &[u8]) -> (r: Vec<XmlToken>)
    ensures
        token_views(r@) == xml_tokens_of(input@),
{
    let mut out = Vec::new();
    for e in xml::reader::EventReader::new(input) {
        out.push(match e {
            Ok(ReaderEvent::StartElement { name, attributes, namespace }) => XmlToken::Start(XmlObject {
                q_name: QName { namespace_uri: name.namespace, local_name: name.local_name, prefix: name.prefix },
                attributes: attributes.into_iter().map(|a| (a.name.local_name, a.value)).collect(),
                namespace: namespace.0.into_iter().collect(), text: None, children: Vec::new() }),
            Ok(ReaderEvent::EndElement { .. }) => XmlToken::End,
            Ok(ReaderEvent::Characters(s)) => XmlToken::Text(s),
            Ok(_) => XmlToken::Other,
            Err(_) => XmlToken::Malformed,
        });
    }
    out
}

fn invalid_document() -> (r: XmlError) {
    XmlError::new("invalid xml document".to_owned())
}

impl XmlObject {
    /// Parses XML text into a tree; fails on malformed XML, on an end tag or
    /// text with no open element, and on text that ends before the root closes.
    pub fn parse_xml(input: &[u8]) -> (r: Result<XmlObject, XmlError>)
        ensures
            r is Ok <==> parsed(input@) is Some,
            r is Ok ==> r->Ok_0@ == parsed(input@)->0,
    {
        let tokens = read_tokens(input);
        XmlObject::build_tree(tokens)
    }

    /// Builds the tree that a sequence of reader events describes: a start tag
    /// opens a node, text replaces the text of the innermost open node, and an
    /// end tag closes it, appending it to its parent or returning it as the root.
    pub fn build_tree(tokens: Vec<XmlToken>) -> (r: Result<XmlObject, XmlError>)
        ensures
            r is Ok <==> tree_of(token_views(tokens@)) is Some,
            r is Ok ==> r->Ok_0@ == tree_of(token_views(tokens@))->0,
    {
        let ghost all = token_views(tokens@);
        let mut input = tokens;
        let mut rev: Vec<XmlToken> = Vec::new();
        while input.len() > 0
            invariant
                all == token_views(tokens@),
                input.len() + rev.len() == all.len(),
                forall|k: int| 0 <= k < input.len() ==> token_view(#[trigger] input@[k]) == all[k],
                forall|k: int| 0 <= k < rev.len() ==> token_view(#[trigger] rev@[k]) == all[all.len() - 1 - k],
            decreases input.len(),
        {
            let t = input.pop().unwrap();
            rev.push(t);
        }
        let mut stack: Vec<XmlObject> = Vec::new();
        let ghost mut done: int = 0;
        proof {
            assert(all.subrange(0, all.len() as int) =~= all);
        }
        while rev.len() > 0
            invariant
                all == token_views(tokens@),
                0 <= done <= all.len(),
                rev.len() == all.len() - done,
                forall|k: int| 0 <= k < rev.len() ==> token_view(#[trigger] rev@[k]) == all[all.len() - 1 - k],
                build_run(all.subrange(done, all.len() as int), nodes_of(stack@)) == tree_of(all),
            decreases rev.len(),
        {
            let tok = rev.pop().unwrap();
            let ghost rest = all.subrange(done + 1, all.len() as int);
            let ghost cur = all.subrange(done, all.len() as int);
            proof {
                assert(cur.drop_first() =~= rest);
                assert(cur.len() > 0);
                assert(all.subrange(done, all.len() as int)[0] == token_view(tok));
                lemma_nodes_of(stack@);
            }
            match tok {
                XmlToken::Start(n) => {
                    proof {
                        lemma_nodes_of_push(stack@, n);
                    }
                    stack.push(n);
                },
                XmlToken::Text(t) => {
                    if stack.len() == 0 {
                        proof {
                            assert(build_run(cur, nodes_of(stack@)) is None);
                        }
                        return Err(invalid_document());
                    }
                    let ghost pre = stack@;
                    let mut top = stack.pop().unwrap();
                    let ghost top0 = top;
                    proof {
                        assert(pre =~= stack@.push(top0));
                        lemma_nodes_of_push(stack@, top0);
                    }
                    top.set_text(Some(t));
                    proof {
                        lemma_nodes_of_push(stack@, top);
                    }
                    stack.push(top);
                    proof {
                        assert(nodes_of(stack@) =~= nodes_of(pre).update(
                            nodes_of(pre).len() - 1,
                            with_text(nodes_of(pre).last(), t@),
                        ));
                    }
                },
                XmlToken::End => {
                    if stack.len() == 0 {
                        proof {
                            assert(build_run(cur, nodes_of(stack@)) is None);
                        }
                        return Err(invalid_document());
                    }
                    let ghost pre = stack@;
                    let child = stack.pop().unwrap();
                    proof {
                        assert(pre =~= stack@.push(child));
                        lemma_nodes_of_push(stack@, child);
                    }
                    if stack.len() == 0 {
                        return Ok(child);
                    }
                    let ghost mid = stack@;
                    let mut parent = stack.pop().unwrap();
                    let ghost parent0 = parent;
                    proof {
                        assert(mid =~= stack@.push(parent0));
                        lemma_nodes_of_push(stack@, parent0);
                    }
                    parent.add_child(child);
                    proof {
                        lemma_nodes_of_push(stack@, parent);
                    }
                    stack.push(parent);
                    proof {
                        let st = nodes_of(pre).drop_last();
                        assert(st =~= nodes_of(mid));
                        assert(nodes_of(stack@) =~= st.update(st.len() - 1, with_child(st.last(), nodes_of(pre).last())));
                    }
                },
                XmlToken::Other => {},
                XmlToken::Malformed => {
                    return Err(invalid_document());
                },
            }
            proof {
                done = done + 1;
            }
        }
        Err(invalid_document())
    }
}

} // verus!
