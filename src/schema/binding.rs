use vstd::prelude::*;

use crate::error::SAMLError;
use crate::schema::fields::{
    attr_last, attrs_ok, group_binding, lemma_last_index, local_name_is, named, push_attr,
    push_node,
};
use crate::schema::values::{
    bool_of, bool_text, comparison_of, comparison_text, decimal_text, format_bool, format_i32,
    format_usize, i32_of, name_is, parse_bool, parse_i32, parse_usize, signed_text, timestamp_of,
    usize_of, version_of, version_text, AuthnContextComparisonTypeEnumeration, SAMLVersion,
    Timestamp,
};
use crate::xml::q_name::opt_view;
use crate::xml::{lemma_nodes_of, lemma_nodes_of_push, nodes_of, pairs_view, Node, XmlObject};

verus! {

broadcast use group_binding;

/// A schema element that can be read from a tree node and written as one.
pub trait Element: Sized {
    /// The node can be read as this element.
    spec fn node_ok(n: Node) -> bool;

    /// The element holds what the node says.
    spec fn node_matches(self, n: Node) -> bool;

    /// The node that the element is written as.
    spec fn node_spec(self) -> Node;

    fn read(obj: &XmlObject) -> (r: Result<Self, SAMLError>)
        ensures
            r is Ok <==> Self::node_ok(obj@),
            r is Ok ==> r->Ok_0.node_matches(obj@),
            r is Err ==> r->Err_0 is UnmarshallingError,
    ;

    fn write(&self) -> (r: XmlObject)
        ensures
            r@ == self.node_spec(),
    ;
}

/// Every child named `k` can be read as a `T`.
pub open spec fn children_ok<T: Element>(c: Seq<Node>, k: Seq<char>) -> bool {
    forall|m: int| 0 <= m < named(c, k).len() ==> T::node_ok(#[trigger] named(c, k)[m])
}

/// Reads the last child named `k`, if any; every child of that name must be readable.
#[verifier::loop_isolation(false)]
pub fn read_opt_child<T: Element>(children: &Vec<XmlObject>, k: &str) -> (r: Result<Option<T>, SAMLError>)
    ensures
        r is Ok <==> children_ok::<T>(nodes_of(children@), k@),
        r is Ok ==> (if named(nodes_of(children@), k@).len() > 0 {
            r->Ok_0 is Some && r->Ok_0->0.node_matches(named(nodes_of(children@), k@).last())
        } else {
            r->Ok_0 is None
        }),
        r is Err ==> r->Err_0 is UnmarshallingError,
{
    let ghost cv = nodes_of(children@);
    proof {
        lemma_nodes_of(children@);
    }
    let mut v: Option<T> = None;
    let mut j: usize = 0;
    while j < children.len()
        invariant
            0 <= j <= children.len(),
            if named(cv.take(j as int), k@).len() > 0 {
                v is Some && v->0.node_matches(named(cv.take(j as int), k@).last())
            } else {
                v is None
            },
            forall|m: int| 0 <= m < named(cv.take(j as int), k@).len() ==> T::node_ok(#[trigger] named(cv.take(j as int), k@)[m]),
        decreases children.len() - j,
    {
        proof {
            assert(cv.take(j + 1) =~= cv.take(j as int).push(cv[j as int]));
            assert(cv[j as int] == children@[j as int]@);
            lemma_last_index(cv.take(j as int), k@);
        }
        if local_name_is(&children[j], k) {
            match T::read(&children[j]) {
                Ok(x) => {
                    v = Some(x);
                },
                Err(e) => {
                    proof {
                        assert(cv =~= cv.take(j + 1) + cv.skip(j + 1));
                        assert(named(cv, k@)[named(cv.take(j as int), k@).len() as int] == cv[j as int]);
                    }
                    return Err(e);
                },
            }
        }
        j = j + 1;
    }
    proof {
        assert(cv.take(j as int) =~= cv);
    }
    Ok(v)
}

/// Reads every child named `k`, in document order.
#[verifier::loop_isolation(false)]
pub fn read_child_vec<T: Element>(children: &Vec<XmlObject>, k: &str) -> (r: Result<Vec<T>, SAMLError>)
    ensures
        r is Ok <==> children_ok::<T>(nodes_of(children@), k@),
        r is Ok ==> r->Ok_0@.len() == named(nodes_of(children@), k@).len(),
        r is Ok ==> forall|m: int| 0 <= m < r->Ok_0@.len() ==> (#[trigger] r->Ok_0@[m]).node_matches(named(nodes_of(children@), k@)[m]),
        r is Err ==> r->Err_0 is UnmarshallingError,
{
    let ghost cv = nodes_of(children@);
    proof {
        lemma_nodes_of(children@);
    }
    let mut v: Vec<T> = Vec::new();
    let mut j: usize = 0;
    while j < children.len()
        invariant
            0 <= j <= children.len(),
            v@.len() == named(cv.take(j as int), k@).len(),
            forall|m: int| 0 <= m < v@.len() ==> (#[trigger] v@[m]).node_matches(named(cv.take(j as int), k@)[m]),
            forall|m: int| 0 <= m < v@.len() ==> T::node_ok(#[trigger] named(cv.take(j as int), k@)[m]),
        decreases children.len() - j,
    {
        proof {
            assert(cv.take(j + 1) =~= cv.take(j as int).push(cv[j as int]));
            assert(cv[j as int] == children@[j as int]@);
        }
        if local_name_is(&children[j], k) {
            match T::read(&children[j]) {
                Ok(x) => {
                    let ghost before = v@;
                    v.push(x);
                    proof {
                        assert(v@ =~= before.push(x));
                    }
                },
                Err(e) => {
                    proof {
                        assert(cv =~= cv.take(j + 1) + cv.skip(j + 1));
                        assert(named(cv, k@)[named(cv.take(j as int), k@).len() as int] == cv[j as int]);
                    }
                    return Err(e);
                },
            }
        }
        j = j + 1;
    }
    proof {
        assert(cv.take(j as int) =~= cv);
    }
    Ok(v)
}

/// A copy of the last child named `k`, if any.
pub fn raw_opt_child(children: &Vec<XmlObject>, k: &str) -> (r: Option<XmlObject>)
    ensures
        if named(nodes_of(children@), k@).len() > 0 {
            r is Some && r->0@ == named(nodes_of(children@), k@).last()
        } else {
            r is None
        },
{
    let ghost cv = nodes_of(children@);
    proof {
        lemma_nodes_of(children@);
    }
    let mut v: Option<XmlObject> = None;
    let mut j: usize = 0;
    while j < children.len()
        invariant
            0 <= j <= children.len(),
            cv == nodes_of(children@),
            cv.len() == children.len(),
            forall|i: int| 0 <= i < cv.len() ==> #[trigger] cv[i] == children@[i]@,
            if named(cv.take(j as int), k@).len() > 0 {
                v is Some && v->0@ == named(cv.take(j as int), k@).last()
            } else {
                v is None
            },
        decreases children.len() - j,
    {
        proof {
            assert(cv.take(j + 1) =~= cv.take(j as int).push(cv[j as int]));
            assert(cv[j as int] == children@[j as int]@);
            lemma_last_index(cv.take(j as int), k@);
        }
        if local_name_is(&children[j], k) {
            v = Some(children[j].deep_copy());
        }
        j = j + 1;
    }
    proof {
        assert(cv.take(j as int) =~= cv);
    }
    v
}

/// Copies of the children named `k`, in document order; all of them when `k` is `None`.
pub fn raw_child_vec(children: &Vec<XmlObject>, k: Option<&str>) -> (r: Vec<XmlObject>)
    ensures
        nodes_of(r@) == match k {
            Some(k) => named(nodes_of(children@), k@),
            None => nodes_of(children@),
        },
{
    let ghost cv = nodes_of(children@);
    let ghost sel = match k {
        Some(k) => named(cv, k@),
        None => cv,
    };
    proof {
        lemma_nodes_of(children@);
    }
    let mut v: Vec<XmlObject> = Vec::new();
    let mut j: usize = 0;
    while j < children.len()
        invariant
            0 <= j <= children.len(),
            cv == nodes_of(children@),
            cv.len() == children.len(),
            forall|i: int| 0 <= i < cv.len() ==> #[trigger] cv[i] == children@[i]@,
            nodes_of(v@) == match k {
                Some(k) => named(cv.take(j as int), k@),
                None => cv.take(j as int),
            },
        decreases children.len() - j,
    {
        proof {
            assert(cv.take(j + 1) =~= cv.take(j as int).push(cv[j as int]));
            assert(cv[j as int] == children@[j as int]@);
        }
        let keep = match k {
            Some(k) => local_name_is(&children[j], k),
            None => true,
        };
        if keep {
            let x = children[j].deep_copy();
            proof {
                lemma_nodes_of_push(v@, x);
            }
            v.push(x);
        }
        j = j + 1;
    }
    proof {
        assert(cv.take(j as int) =~= cv);
    }
    v
}

/// Appends the node of an optional element.
pub fn write_opt_child<T: Element>(x: &mut XmlObject, c: &Option<T>)
    ensures
        final(x)@ == (Node {
            children: push_node(old(x)@.children, match *c {
                Some(v) => Some(v.node_spec()),
                None => None,
            }),
            ..old(x)@
        }),
{
    let ghost pre = x@;
    match c {
        Some(v) => {
            let y = v.write();
            x.add_child(y);
            proof {
                assert(pre.children.push(y@) =~= pre.children + seq![y@]);
            }
        },
        None => {
            proof {
                assert(pre.children =~= pre.children + Seq::<Node>::empty());
            }
        },
    }
}

/// Appends the nodes of a list of elements.
pub fn write_child_vec<T: Element>(x: &mut XmlObject, v: &Vec<T>)
    ensures
        final(x)@ == (Node { children: old(x)@.children + v@.map_values(|c: T| c.node_spec()), ..old(x)@ }),
{
    let ghost pre = x@;
    let mut k: usize = 0;
    while k < v.len()
        invariant
            0 <= k <= v.len(),
            x@ == (Node { children: pre.children + v@.take(k as int).map_values(|c: T| c.node_spec()), ..pre }),
        decreases v.len() - k,
    {
        let y = v[k].write();
        x.add_child(y);
        proof {
            assert(pre.children + v@.take(k + 1).map_values(|c: T| c.node_spec()) =~= (pre.children + v@.take(
                k as int,
            ).map_values(|c: T| c.node_spec())).push(y@));
        }
        k = k + 1;
    }
    proof {
        assert(v@.take(k as int) =~= v@);
    }
}

/// Appends a copy of an optional node.
pub fn write_raw_opt(x: &mut XmlObject, c: &Option<XmlObject>)
    ensures
        final(x)@ == (Node {
            children: push_node(old(x)@.children, match *c {
                Some(v) => Some(v@),
                None => None,
            }),
            ..old(x)@
        }),
{
    let ghost pre = x@;
    match c {
        Some(v) => {
            let y = v.deep_copy();
            x.add_child(y);
            proof {
                assert(pre.children.push(y@) =~= pre.children + seq![y@]);
            }
        },
        None => {
            proof {
                assert(pre.children =~= pre.children + Seq::<Node>::empty());
            }
        },
    }
}

/// Appends copies of a list of nodes.
pub fn write_raw_vec(x: &mut XmlObject, v: &Vec<XmlObject>)
    ensures
        final(x)@ == (Node { children: old(x)@.children + nodes_of(v@), ..old(x)@ }),
{
    let ghost pre = x@;
    let mut k: usize = 0;
    while k < v.len()
        invariant
            0 <= k <= v.len(),
            x@ == (Node { children: pre.children + nodes_of(v@.take(k as int)), ..pre }),
        decreases v.len() - k,
    {
        let y = v[k].deep_copy();
        x.add_child(y);
        proof {
            lemma_nodes_of_push(v@.take(k as int), v@[k as int]);
            assert(v@.take(k + 1) =~= v@.take(k as int).push(v@[k as int]));
            assert(pre.children + nodes_of(v@.take(k + 1)) =~= (pre.children + nodes_of(v@.take(k as int))).push(y@));
        }
        k = k + 1;
    }
    proof {
        assert(v@.take(k as int) =~= v@);
    }
}

/// Adds an attribute when a value is given.
pub fn write_opt_attr(x: &mut XmlObject, k: &str, v: Option<String>)
    ensures
        final(x)@ == (Node { attributes: push_attr(old(x)@.attributes, k@, opt_view(v)), ..old(x)@ }),
{
    match v {
        Some(t) => x.add_attribute(k.to_owned(), t),
        None => {},
    }
}

/// The value of the last attribute named `k`.
pub fn read_str_attr(attrs: &Vec<(String, String)>, k: &str) -> (r: Option<String>)
    ensures
        opt_view(r) == attr_last(pairs_view(attrs@), k@),
{
    let ghost av = pairs_view(attrs@);
    let mut v: Option<String> = None;
    let mut i: usize = 0;
    while i < attrs.len()
        invariant
            0 <= i <= attrs.len(),
            av == pairs_view(attrs@),
            opt_view(v) == attr_last(av.take(i as int), k@),
        decreases attrs.len() - i,
    {
        proof {
            assert(av.take(i + 1) =~= av.take(i as int).push(av[i as int]));
        }
        if name_is(&attrs[i].0, k) {
            v = Some(attrs[i].1.clone());
        }
        i = i + 1;
    }
    proof {
        assert(av.take(i as int) =~= av);
    }
    v
}
/// Reads every attribute named `k` as a value; the last one is kept.
pub fn read_bool_attr(attrs: &Vec<(String, String)>, k: &str) -> (r: Result<Option<bool>, SAMLError>)
    ensures
        r is Ok <==> attrs_ok(pairs_view(attrs@), k@, |t: Seq<char>| bool_of(t) is Some),
        r is Ok ==> (match attr_last(pairs_view(attrs@), k@) {
            Some(t) => r->Ok_0 is Some && r->Ok_0->0 == bool_of(t)->0,
            None => r->Ok_0 is None,
        }),
        r is Err ==> r->Err_0 is UnmarshallingError,
{
    let ghost av = pairs_view(attrs@);
    let mut v: Option<bool> = None;
    let mut i: usize = 0;
    while i < attrs.len()
        invariant
            0 <= i <= attrs.len(),
            av == pairs_view(attrs@),
            match attr_last(av.take(i as int), k@) {
                Some(t) => v is Some && v->0 == bool_of(t)->0,
                None => v is None,
            },
            attrs_ok(av.take(i as int), k@, |t: Seq<char>| bool_of(t) is Some),
        decreases attrs.len() - i,
    {
        proof {
            assert(av.take(i + 1) =~= av.take(i as int).push(av[i as int]));
        }
        if name_is(&attrs[i].0, k) {
            match parse_bool(&attrs[i].1) {
                Some(x) => {
                    v = Some(x);
                },
                None => {
                    proof {
                        assert(av[i as int].0 == k@);
                    }
                    return Err(SAMLError::unmarshalling("invalid attribute value"));
                },
            }
        }
        i = i + 1;
    }
    proof {
        assert(av.take(i as int) =~= av);
    }
    Ok(v)
}

/// The text of an optional value.
pub fn format_opt_bool(o: &Option<bool>) -> (r: Option<String>)
    ensures
        opt_view(r) == match *o {
            Some(v) => Some(bool_text(v)),
            None => None,
        },
{
    match o {
        Some(v) => Some(format_bool(*v)),
        None => None,
    }
}

/// Reads every attribute named `k` as a value; the last one is kept.
pub fn read_usize_attr(attrs: &Vec<(String, String)>, k: &str) -> (r: Result<Option<usize>, SAMLError>)
    ensures
        r is Ok <==> attrs_ok(pairs_view(attrs@), k@, |t: Seq<char>| usize_of(t) is Some),
        r is Ok ==> (match attr_last(pairs_view(attrs@), k@) {
            Some(t) => r->Ok_0 is Some && r->Ok_0->0 == usize_of(t)->0,
            None => r->Ok_0 is None,
        }),
        r is Err ==> r->Err_0 is UnmarshallingError,
{
    let ghost av = pairs_view(attrs@);
    let mut v: Option<usize> = None;
    let mut i: usize = 0;
    while i < attrs.len()
        invariant
            0 <= i <= attrs.len(),
            av == pairs_view(attrs@),
            match attr_last(av.take(i as int), k@) {
                Some(t) => v is Some && v->0 == usize_of(t)->0,
                None => v is None,
            },
            attrs_ok(av.take(i as int), k@, |t: Seq<char>| usize_of(t) is Some),
        decreases attrs.len() - i,
    {
        proof {
            assert(av.take(i + 1) =~= av.take(i as int).push(av[i as int]));
        }
        if name_is(&attrs[i].0, k) {
            match parse_usize(&attrs[i].1) {
                Some(x) => {
                    v = Some(x);
                },
                None => {
                    proof {
                        assert(av[i as int].0 == k@);
                    }
                    return Err(SAMLError::unmarshalling("invalid attribute value"));
                },
            }
        }
        i = i + 1;
    }
    proof {
        assert(av.take(i as int) =~= av);
    }
    Ok(v)
}

/// The text of an optional value.
pub fn format_opt_usize(o: &Option<usize>) -> (r: Option<String>)
    ensures
        opt_view(r) == match *o {
            Some(v) => Some(decimal_text(v as nat)),
            None => None,
        },
{
    match o {
        Some(v) => Some(format_usize(*v)),
        None => None,
    }
}

/// Reads every attribute named `k` as a value; the last one is kept.
pub fn read_i32_attr(attrs: &Vec<(String, String)>, k: &str) -> (r: Result<Option<i32>, SAMLError>)
    ensures
        r is Ok <==> attrs_ok(pairs_view(attrs@), k@, |t: Seq<char>| i32_of(t) is Some),
        r is Ok ==> (match attr_last(pairs_view(attrs@), k@) {
            Some(t) => r->Ok_0 is Some && r->Ok_0->0 == i32_of(t)->0,
            None => r->Ok_0 is None,
        }),
        r is Err ==> r->Err_0 is UnmarshallingError,
{
    let ghost av = pairs_view(attrs@);
    let mut v: Option<i32> = None;
    let mut i: usize = 0;
    while i < attrs.len()
        invariant
            0 <= i <= attrs.len(),
            av == pairs_view(attrs@),
            match attr_last(av.take(i as int), k@) {
                Some(t) => v is Some && v->0 == i32_of(t)->0,
                None => v is None,
            },
            attrs_ok(av.take(i as int), k@, |t: Seq<char>| i32_of(t) is Some),
        decreases attrs.len() - i,
    {
        proof {
            assert(av.take(i + 1) =~= av.take(i as int).push(av[i as int]));
        }
        if name_is(&attrs[i].0, k) {
            match parse_i32(&attrs[i].1) {
                Some(x) => {
                    v = Some(x);
                },
                None => {
                    proof {
                        assert(av[i as int].0 == k@);
                    }
                    return Err(SAMLError::unmarshalling("invalid attribute value"));
                },
            }
        }
        i = i + 1;
    }
    proof {
        assert(av.take(i as int) =~= av);
    }
    Ok(v)
}

/// The text of an optional value.
pub fn format_opt_i32(o: &Option<i32>) -> (r: Option<String>)
    ensures
        opt_view(r) == match *o {
            Some(v) => Some(signed_text(v as int)),
            None => None,
        },
{
    match o {
        Some(v) => Some(format_i32(*v)),
        None => None,
    }
}

/// Reads every attribute named `k` as a value; the last one is kept.
pub fn read_version_attr(attrs: &Vec<(String, String)>, k: &str) -> (r: Result<Option<SAMLVersion>, SAMLError>)
    ensures
        r is Ok <==> attrs_ok(pairs_view(attrs@), k@, |t: Seq<char>| version_of(t) is Some),
        r is Ok ==> (match attr_last(pairs_view(attrs@), k@) {
            Some(t) => r->Ok_0 is Some && (r->Ok_0->0.major, r->Ok_0->0.minor) == version_of(t)->0,
            None => r->Ok_0 is None,
        }),
        r is Err ==> r->Err_0 is UnmarshallingError,
{
    let ghost av = pairs_view(attrs@);
    let mut v: Option<SAMLVersion> = None;
    let mut i: usize = 0;
    while i < attrs.len()
        invariant
            0 <= i <= attrs.len(),
            av == pairs_view(attrs@),
            match attr_last(av.take(i as int), k@) {
                Some(t) => v is Some && (v->0.major, v->0.minor) == version_of(t)->0,
                None => v is None,
            },
            attrs_ok(av.take(i as int), k@, |t: Seq<char>| version_of(t) is Some),
        decreases attrs.len() - i,
    {
        proof {
            assert(av.take(i + 1) =~= av.take(i as int).push(av[i as int]));
        }
        if name_is(&attrs[i].0, k) {
            match match SAMLVersion::from_string(&attrs[i].1) { Ok(x) => Some(x), Err(_) => None } {
                Some(x) => {
                    v = Some(x);
                },
                None => {
                    proof {
                        assert(av[i as int].0 == k@);
                    }
                    return Err(SAMLError::unmarshalling("invalid attribute value"));
                },
            }
        }
        i = i + 1;
    }
    proof {
        assert(av.take(i as int) =~= av);
    }
    Ok(v)
}

/// The text of an optional value.
pub fn format_opt_version(o: &Option<SAMLVersion>) -> (r: Option<String>)
    ensures
        opt_view(r) == match *o {
            Some(v) => Some(version_text(v.major, v.minor)),
            None => None,
        },
{
    match o {
        Some(v) => Some(v.to_string()),
        None => None,
    }
}

/// Reads every attribute named `k` as a value; the last one is kept.
pub fn read_timestamp_attr(attrs: &Vec<(String, String)>, k: &str) -> (r: Result<Option<Timestamp>, SAMLError>)
    ensures
        r is Ok <==> attrs_ok(pairs_view(attrs@), k@, |t: Seq<char>| timestamp_of(t) is Some),
        r is Ok ==> (match attr_last(pairs_view(attrs@), k@) {
            Some(t) => r->Ok_0 is Some && r->Ok_0->0@ == timestamp_of(t)->0,
            None => r->Ok_0 is None,
        }),
        r is Err ==> r->Err_0 is UnmarshallingError,
{
    let ghost av = pairs_view(attrs@);
    let mut v: Option<Timestamp> = None;
    let mut i: usize = 0;
    while i < attrs.len()
        invariant
            0 <= i <= attrs.len(),
            av == pairs_view(attrs@),
            match attr_last(av.take(i as int), k@) {
                Some(t) => v is Some && v->0@ == timestamp_of(t)->0,
                None => v is None,
            },
            attrs_ok(av.take(i as int), k@, |t: Seq<char>| timestamp_of(t) is Some),
        decreases attrs.len() - i,
    {
        proof {
            assert(av.take(i + 1) =~= av.take(i as int).push(av[i as int]));
        }
        if name_is(&attrs[i].0, k) {
            match Timestamp::parse(&attrs[i].1) {
                Some(x) => {
                    v = Some(x);
                },
                None => {
                    proof {
                        assert(av[i as int].0 == k@);
                    }
                    return Err(SAMLError::unmarshalling("invalid attribute value"));
                },
            }
        }
        i = i + 1;
    }
    proof {
        assert(av.take(i as int) =~= av);
    }
    Ok(v)
}

/// The text of an optional value.
pub fn format_opt_timestamp(o: &Option<Timestamp>) -> (r: Option<String>)
    ensures
        opt_view(r) == match *o {
            Some(v) => Some(v.text@),
            None => None,
        },
{
    match o {
        Some(v) => Some(v.to_rfc3339()),
        None => None,
    }
}

/// Reads every attribute named `k` as a value; the last one is kept.
pub fn read_comparison_attr(attrs: &Vec<(String, String)>, k: &str) -> (r: Result<Option<AuthnContextComparisonTypeEnumeration>, SAMLError>)
    ensures
        r is Ok <==> attrs_ok(pairs_view(attrs@), k@, |t: Seq<char>| comparison_of(t) is Some),
        r is Ok ==> (match attr_last(pairs_view(attrs@), k@) {
            Some(t) => r->Ok_0 is Some && r->Ok_0->0 == comparison_of(t)->0,
            None => r->Ok_0 is None,
        }),
        r is Err ==> r->Err_0 is UnmarshallingError,
{
    let ghost av = pairs_view(attrs@);
    let mut v: Option<AuthnContextComparisonTypeEnumeration> = None;
    let mut i: usize = 0;
    while i < attrs.len()
        invariant
            0 <= i <= attrs.len(),
            av == pairs_view(attrs@),
            match attr_last(av.take(i as int), k@) {
                Some(t) => v is Some && v->0 == comparison_of(t)->0,
                None => v is None,
            },
            attrs_ok(av.take(i as int), k@, |t: Seq<char>| comparison_of(t) is Some),
        decreases attrs.len() - i,
    {
        proof {
            assert(av.take(i + 1) =~= av.take(i as int).push(av[i as int]));
        }
        if name_is(&attrs[i].0, k) {
            match match AuthnContextComparisonTypeEnumeration::from_str(&attrs[i].1) { Ok(x) => Some(x), Err(_) => None } {
                Some(x) => {
                    v = Some(x);
                },
                None => {
                    proof {
                        assert(av[i as int].0 == k@);
                    }
                    return Err(SAMLError::unmarshalling("invalid attribute value"));
                },
            }
        }
        i = i + 1;
    }
    proof {
        assert(av.take(i as int) =~= av);
    }
    Ok(v)
}

/// The text of an optional value.
pub fn format_opt_comparison(o: &Option<AuthnContextComparisonTypeEnumeration>) -> (r: Option<String>)
    ensures
        opt_view(r) == match *o {
            Some(v) => Some(comparison_text(v)),
            None => None,
        },
{
    match o {
        Some(v) => Some(v.to_string()),
        None => None,
    }
}

} // verus!
