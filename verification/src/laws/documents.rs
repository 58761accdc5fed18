//! Promises about reading documents.

use crate::external::nmap::port_elements;
use crate::xml::{AttributeView, DocumentView};
use vstd::prelude::*;

verus! {

/// The attribute at position `i` is the first of that name.
pub open spec fn first_at(attributes: Seq<AttributeView>, name: Seq<char>, i: int) -> bool {
    &&& 0 <= i < attributes.len()
    &&& attributes[i].name == name
    &&& forall|j: int| 0 <= j < i ==> (#[trigger] attributes[j]).name != name
}

/// The first attribute of that name has that value.
pub open spec fn has_attribute(
    doc: DocumentView,
    node: usize,
    name: Seq<char>,
    value: Seq<char>,
) -> bool {
    exists|i: int| #[trigger]
        first_at(doc.nodes[node as int].attributes, name, i)
            && doc.nodes[node as int].attributes[i].value == value
}

/// No attribute has that name.
pub open spec fn lacks_attribute(doc: DocumentView, node: usize, name: Seq<char>) -> bool {
    forall|j: int|
        0 <= j < doc.nodes[node as int].attributes.len() ==> (
        #[trigger] doc.nodes[node as int].attributes[j]).name != name
}

/// A child of that name.
pub open spec fn is_child(doc: DocumentView, node: usize, name: Seq<char>, child: usize) -> bool {
    doc.nodes[node as int].children.contains(child) && doc.nodes[child as int].name == name
}

/// The child at position `k` is the first of that name.
pub open spec fn first_child_at(doc: DocumentView, node: usize, name: Seq<char>, k: int) -> bool {
    let children = doc.nodes[node as int].children;
    &&& 0 <= k < children.len()
    &&& doc.nodes[children[k] as int].name == name
    &&& forall|j: int| 0 <= j < k ==> doc.nodes[(#[trigger] children[j]) as int].name != name
}

/// The first child of that name.
pub open spec fn is_first_child(
    doc: DocumentView,
    node: usize,
    name: Seq<char>,
    child: usize,
) -> bool {
    exists|k: int| #[trigger]
        first_child_at(doc, node, name, k) && doc.nodes[node as int].children[k] == child
}

/// No child has that name.
pub open spec fn lacks_child(doc: DocumentView, node: usize, name: Seq<char>) -> bool {
    forall|k: int|
        0 <= k < doc.nodes[node as int].children.len() ==> doc.nodes[(
        #[trigger] doc.nodes[node as int].children[k]) as int].name != name
}

/// How many of the entries satisfy a condition.
pub open spec fn count<A>(s: Seq<A>, p: spec_fn(A) -> bool) -> nat
    decreases s.len(),
{
    if s.len() == 0 {
        0
    } else {
        count(s.drop_last(), p) + if p(s.last()) {
            1nat
        } else {
            0nat
        }
    }
}

/// The sum of a measure over the entries.
pub open spec fn total<A>(s: Seq<A>, f: spec_fn(A) -> nat) -> nat
    decreases s.len(),
{
    if s.len() == 0 {
        0
    } else {
        total(s.drop_last(), f) + f(s.last())
    }
}

/// What a filter keeps stands at the position that its rank gives.
pub proof fn lemma_filter_rank<A>(s: Seq<A>, p: spec_fn(A) -> bool)
    ensures
        s.filter(p).len() == count(s, p),
        forall|k: int|
            0 <= k < s.len() && p(#[trigger] s[k]) ==> count(s.take(k), p) < s.filter(p).len()
                && s.filter(p)[count(s.take(k), p) as int] == s[k],
    decreases s.len(),
{
    reveal(Seq::filter);
    if s.len() > 0 {
        let init = s.drop_last();
        lemma_filter_rank(init, p);
        assert forall|k: int| 0 <= k < s.len() && p(#[trigger] s[k]) implies count(s.take(k), p)
            < s.filter(p).len() && s.filter(p)[count(s.take(k), p) as int] == s[k] by {
            if k < init.len() {
                assert(init[k] == s[k]);
                assert(init.take(k) =~= s.take(k));
            } else {
                assert(s.take(k) =~= init);
            }
        }
    }
}

/// How many entries come of an entry.
pub open spec fn size_of<A, B>(f: spec_fn(A) -> Seq<B>) -> spec_fn(A) -> nat {
    |a: A| f(a).len()
}

/// What a flat map gives stands behind what comes of the entries before.
pub proof fn lemma_flat_map_at<A, B>(s: Seq<A>, f: spec_fn(A) -> Seq<B>, j: int, k: int)
    requires
        0 <= j < s.len(),
        0 <= k < f(s[j]).len(),
    ensures
        total(s.take(j), size_of(f)) + k < s.flat_map(f).len(),
        s.flat_map(f)[total(s.take(j), size_of(f)) + k] == f(s[j])[k],
    decreases s.len(),
{
    let init = s.drop_last();
    init.lemma_flat_map_push(f, s.last());
    assert(init.push(s.last()) =~= s);
    lemma_flat_map_len(init, f);
    if j < init.len() {
        lemma_flat_map_at(init, f, j, k);
        assert(init.take(j) =~= s.take(j));
    } else {
        assert(s.take(j) =~= init);
    }
}

pub proof fn lemma_flat_map_len<A, B>(s: Seq<A>, f: spec_fn(A) -> Seq<B>)
    ensures
        s.flat_map(f).len() == total(s, size_of(f)),
    decreases s.len(),
{
    if s.len() > 0 {
        let init = s.drop_last();
        lemma_flat_map_len(init, f);
        init.lemma_flat_map_push(f, s.last());
        assert(init.push(s.last()) =~= s);
    } else {
        assert(s.flat_map(f) =~= Seq::empty());
    }
}

proof fn lemma_count_zero<A>(s: Seq<A>, p: spec_fn(A) -> bool)
    requires
        forall|j: int| 0 <= j < s.len() ==> !p(#[trigger] s[j]),
    ensures
        count(s, p) == 0,
    decreases s.len(),
{
    if s.len() > 0 {
        lemma_count_zero(s.drop_last(), p);
    }
}

/// The value of an attribute is that of the first attribute of the name, and
/// there is none just where no attribute has the name.
pub proof fn theorem_attribute(doc: DocumentView, node: usize, name: Seq<char>)
    ensures
        forall|value: Seq<char>| #[trigger]
            has_attribute(doc, node, name, value) <==> doc.attribute(node, name) == Some(value),
        lacks_attribute(doc, node, name) <==> doc.attribute(node, name) is None,
{
    lemma_attribute_in(doc.nodes[node as int].attributes, name);
}

proof fn lemma_attribute_in(attributes: Seq<AttributeView>, name: Seq<char>)
    ensures
        forall|i: int| #[trigger]
            first_at(attributes, name, i) ==> crate::xml::attribute_in(attributes, name) == Some(
                attributes[i].value,
            ),
        crate::xml::attribute_in(attributes, name) is Some ==> exists|i: int|
            first_at(attributes, name, i),
        (forall|j: int| 0 <= j < attributes.len() ==> (#[trigger] attributes[j]).name != name)
            <==> crate::xml::attribute_in(attributes, name) is None,
    decreases attributes.len(),
{
    if attributes.len() > 0 {
        let rest = attributes.skip(1);
        lemma_attribute_in(rest, name);
        if attributes[0].name == name {
            assert(first_at(attributes, name, 0));
        } else {
            assert forall|i: int| #[trigger] first_at(attributes, name, i) implies first_at(
                rest,
                name,
                i - 1,
            ) by {
                assert forall|j: int| 0 <= j < i - 1 implies (#[trigger] rest[j]).name != name by {
                    assert(attributes[j + 1].name != name);
                }
            }
            assert forall|i: int| #[trigger] first_at(rest, name, i) implies first_at(
                attributes,
                name,
                i + 1,
            ) by {
                assert forall|j: int| 0 <= j < i + 1 implies (#[trigger] attributes[j]).name
                    != name by {
                    if j > 0 {
                        assert(rest[j - 1].name != name);
                    }
                }
            }
            if exists|j: int| 0 <= j < attributes.len() && (#[trigger] attributes[j]).name == name {
                let j = choose|j: int|
                    0 <= j < attributes.len() && (#[trigger] attributes[j]).name == name;
                assert(rest[j - 1].name == name);
            }
            if exists|i: int| first_at(rest, name, i) {
                let i = choose|i: int| first_at(rest, name, i);
                assert(first_at(attributes, name, i + 1));
            }
            if exists|j: int| 0 <= j < rest.len() && (#[trigger] rest[j]).name == name {
                let j = choose|j: int| 0 <= j < rest.len() && (#[trigger] rest[j]).name == name;
                assert(attributes[j + 1].name == name);
            }
        }
    }
}

/// The children of a name are all children that have it, each at the place that
/// the number of those before it gives, and no others.
pub proof fn theorem_children(doc: DocumentView, node: usize, name: Seq<char>, k: int)
    requires
        0 <= k < doc.nodes[node as int].children.len(),
    ensures
        ({
            let children = doc.nodes[node as int].children;
            let named = |c: usize| doc.nodes[c as int].name == name;
            &&& doc.children_named(node, name).len() == count(children, named)
            &&& named(children[k]) ==> count(children.take(k), named) < doc.children_named(
                node,
                name,
            ).len() && doc.children_named(node, name)[count(children.take(k), named) as int]
                == children[k]
        }),
{
    let named = |c: usize| doc.nodes[c as int].name == name;
    lemma_filter_rank(doc.nodes[node as int].children, named);
}

/// A node is among the children of a name just where it is a child and has the
/// name.
pub proof fn theorem_is_child(doc: DocumentView, node: usize, name: Seq<char>, child: usize)
    ensures
        doc.children_named(node, name).contains(child) <==> is_child(doc, node, name, child),
{
    let children = doc.nodes[node as int].children;
    let named = |c: usize| doc.nodes[c as int].name == name;
    if is_child(doc, node, name, child) {
        let k = choose|k: int| 0 <= k < children.len() && children[k] == child;
        children.lemma_filter_contains(named, k);
    }
    if children.filter(named).contains(child) {
        children.lemma_filter_contains_rev(named, child);
        let k = choose|k: int| 0 <= k < children.filter(named).len() && children.filter(named)[k]
            == child;
        children.lemma_filter_pred(named, k);
    }
}

/// The first child of a name comes first among the children of the name, and
/// where there is no such child there are none.
pub proof fn theorem_first_child(doc: DocumentView, node: usize, name: Seq<char>)
    ensures
        forall|child: usize| #[trigger]
            is_first_child(doc, node, name, child) ==> doc.children_named(node, name).len() > 0
                && doc.children_named(node, name)[0] == child,
        lacks_child(doc, node, name) <==> doc.children_named(node, name).len() == 0,
        lacks_child(doc, node, name) || exists|child: usize| is_first_child(doc, node, name, child),
{
    let children = doc.nodes[node as int].children;
    let named = |c: usize| doc.nodes[c as int].name == name;
    lemma_filter_rank(children, named);
    assert forall|child: usize| #[trigger] is_first_child(doc, node, name, child) implies
        doc.children_named(node, name).len() > 0 && doc.children_named(node, name)[0] == child by {
        let k = choose|k: int| #[trigger]
            first_child_at(doc, node, name, k) && children[k] == child;
        assert forall|j: int| 0 <= j < children.take(k).len() implies !named(
            #[trigger] children.take(k)[j],
        ) by {
            assert(doc.nodes[children[j] as int].name != name);
        }
        lemma_count_zero(children.take(k), named);
    }
    if lacks_child(doc, node, name) {
        lemma_count_zero(children, named);
    } else {
        lemma_first_child(doc, node, name, children.len() as int);
        let k = choose|k: int| first_child_at(doc, node, name, k);
        assert(is_first_child(doc, node, name, children[k]));
    }
}

proof fn lemma_first_child(doc: DocumentView, node: usize, name: Seq<char>, n: int)
    requires
        0 <= n <= doc.nodes[node as int].children.len(),
        exists|k: int|
            0 <= k < n && doc.nodes[(#[trigger] doc.nodes[node as int].children[k]) as int].name
                == name,
    ensures
        exists|k: int| first_child_at(doc, node, name, k),
    decreases n,
{
    let children = doc.nodes[node as int].children;
    if exists|k: int| 0 <= k < n - 1 && doc.nodes[(#[trigger] children[k]) as int].name == name {
        lemma_first_child(doc, node, name, n - 1);
    } else {
        assert(first_child_at(doc, node, name, n - 1));
    }
}

/// The port elements of a report are the port children of the port groups of
/// the hosts under the root, host by host and group by group.
pub proof fn theorem_port_elements(doc: DocumentView, port: usize)
    ensures
        port_elements(doc).contains(port) <==> exists|host: usize, group: usize|
            #![trigger is_child(doc, host, "ports"@, group)]
            is_child(doc, doc.root, "host"@, host) && is_child(doc, host, "ports"@, group)
                && is_child(doc, group, "port"@, port),
        port_elements(doc) == doc.children_named(doc.root, "host"@).flat_map(
            |host: usize|
                doc.children_named(host, "ports"@).flat_map(
                    |group: usize| doc.children_named(group, "port"@),
                ),
        ),
{
    let hosts = doc.children_named(doc.root, "host"@);
    let g = |host: usize| doc.children_named(host, "ports"@);
    let f = |group: usize| doc.children_named(group, "port"@);
    let groups = hosts.flat_map(g);
    lemma_flat_map_twice(hosts, g, f);
    assert(port_elements(doc) == groups.flat_map(f));
    lemma_flat_map_contains(groups, f, port);
    if port_elements(doc).contains(port) {
        let group = choose|group: usize| #[trigger] groups.contains(group) && f(group).contains(port);
        lemma_flat_map_contains(hosts, g, group);
        let host = choose|host: usize| #[trigger] hosts.contains(host) && g(host).contains(group);
        theorem_is_child(doc, doc.root, "host"@, host);
        theorem_is_child(doc, host, "ports"@, group);
        theorem_is_child(doc, group, "port"@, port);
    }
    assert forall|host: usize, group: usize|
        #![trigger is_child(doc, host, "ports"@, group)]
        is_child(doc, doc.root, "host"@, host) && is_child(doc, host, "ports"@, group) && is_child(
            doc,
            group,
            "port"@,
            port,
        ) implies port_elements(doc).contains(port) by {
        theorem_is_child(doc, doc.root, "host"@, host);
        theorem_is_child(doc, host, "ports"@, group);
        theorem_is_child(doc, group, "port"@, port);
        assert(g(host).contains(group));
        lemma_flat_map_contains(hosts, g, group);
        assert(f(group).contains(port));
    }
    assert(hosts.flat_map(|x: usize| g(x).flat_map(f)) =~= hosts.flat_map(
        |host: usize|
            doc.children_named(host, "ports"@).flat_map(
                |group: usize| doc.children_named(group, "port"@),
            ),
    )) by {
        assert((|x: usize| g(x).flat_map(f)) =~= (|host: usize|
            doc.children_named(host, "ports"@).flat_map(
                |group: usize| doc.children_named(group, "port"@),
            )));
    }
}

/// A flat map of a flat map can be taken entry by entry.
pub proof fn lemma_flat_map_twice<A, B, C>(
    s: Seq<A>,
    g: spec_fn(A) -> Seq<B>,
    f: spec_fn(B) -> Seq<C>,
)
    ensures
        s.flat_map(g).flat_map(f) == s.flat_map(|x: A| g(x).flat_map(f)),
    decreases s.len(),
{
    let h = |x: A| g(x).flat_map(f);
    if s.len() == 0 {
        assert(s.flat_map(g) =~= Seq::empty());
        assert(s.flat_map(g).flat_map(f) =~= Seq::empty());
        assert(s.flat_map(h) =~= Seq::empty());
    } else {
        let init = s.drop_last();
        lemma_flat_map_twice(init, g, f);
        assert(init.push(s.last()) =~= s);
        init.lemma_flat_map_push(g, s.last());
        init.lemma_flat_map_push(h, s.last());
        lemma_flat_map_concat(init.flat_map(g), g(s.last()), f);
    }
}

pub proof fn lemma_flat_map_concat<A, B>(x: Seq<A>, y: Seq<A>, f: spec_fn(A) -> Seq<B>)
    ensures
        (x + y).flat_map(f) == x.flat_map(f) + y.flat_map(f),
{
    assert((x + y).map_values(f) =~= x.map_values(f) + y.map_values(f));
    vstd::seq_lib::lemma_flatten_concat(x.map_values(f), y.map_values(f));
}

pub proof fn lemma_flat_map_contains<A, B>(s: Seq<A>, f: spec_fn(A) -> Seq<B>, b: B)
    ensures
        s.flat_map(f).contains(b) <==> exists|a: A| #[trigger] s.contains(a) && f(a).contains(b),
    decreases s.len(),
{
    if s.len() == 0 {
        assert(s.flat_map(f) =~= Seq::empty());
    } else {
        let init = s.drop_last();
        lemma_flat_map_contains(init, f, b);
        init.lemma_flat_map_push(f, s.last());
        assert(init.push(s.last()) =~= s);
        let x = init.flat_map(f);
        let y = f(s.last());
        assert(s.flat_map(f) == x + y);
        assert(s.contains(s.last()));
        if x.contains(b) {
            let i = choose|i: int| 0 <= i < x.len() && x[i] == b;
            assert((x + y)[i] == b);
        }
        if y.contains(b) {
            let i = choose|i: int| 0 <= i < y.len() && y[i] == b;
            assert((x + y)[x.len() + i] == b);
        }
        if (x + y).contains(b) {
            let i = choose|i: int| 0 <= i < (x + y).len() && (x + y)[i] == b;
            if i < x.len() {
                assert(x[i] == b);
                let a = choose|a: A| #[trigger] init.contains(a) && f(a).contains(b);
                assert(s.contains(a));
            } else {
                assert(y[i - x.len()] == b);
            }
        }
        assert forall|a: A| #[trigger] s.contains(a) && f(a).contains(b) implies (x
            + y).contains(b) by {
            let i = choose|i: int| 0 <= i < s.len() && s[i] == a;
            if i < init.len() {
                assert(init[i] == a);
                assert(init.contains(a));
            }
        }
    }
}

} // verus!
