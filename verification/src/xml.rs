//! XML documents as plain data.

use crate::text;
use vstd::prelude::*;

verus! {

/// An attribute of an element.
#[derive(Debug, Clone)]
pub struct XmlAttribute {
    /// The local name.
    pub name: String,
    pub value: String,
}

/// A node of a document. A node that is no element has an empty name and no
/// attributes.
#[derive(Debug, Clone)]
pub struct XmlNode {
    /// The local name of the element.
    pub name: String,
    pub attributes: Vec<XmlAttribute>,
    /// The positions of the children.
    pub children: Vec<usize>,
}

/// A document: its nodes in document order, and the position of its root
/// element.
#[derive(Debug, Clone)]
pub struct XmlDocument {
    pub root: usize,
    pub nodes: Vec<XmlNode>,
}

/// An attribute by the characters of its texts.
#[verifier::ext_equal]
pub struct AttributeView {
    pub name: Seq<char>,
    pub value: Seq<char>,
}

/// A node by the characters of its texts.
#[verifier::ext_equal]
pub struct NodeView {
    pub name: Seq<char>,
    pub attributes: Seq<AttributeView>,
    pub children: Seq<usize>,
}

/// A document by the contents of its nodes.
#[verifier::ext_equal]
pub struct DocumentView {
    pub root: usize,
    pub nodes: Seq<NodeView>,
}

impl DeepView for XmlAttribute {
    type V = AttributeView;

    open spec fn deep_view(&self) -> AttributeView {
        AttributeView { name: self.name@, value: self.value@ }
    }
}

impl DeepView for XmlNode {
    type V = NodeView;

    open spec fn deep_view(&self) -> NodeView {
        NodeView {
            name: self.name@,
            attributes: self.attributes.deep_view(),
            children: self.children@,
        }
    }
}

impl DeepView for XmlDocument {
    type V = DocumentView;

    open spec fn deep_view(&self) -> DocumentView {
        DocumentView { root: self.root, nodes: self.nodes.deep_view() }
    }
}

/// The value of the first attribute of that name, whatever its namespace.
pub open spec fn attribute_in(attributes: Seq<AttributeView>, name: Seq<char>) -> Option<Seq<char>>
    decreases attributes.len(),
{
    if attributes.len() == 0 {
        None
    } else if attributes[0].name == name {
        Some(attributes[0].value)
    } else {
        attribute_in(attributes.skip(1), name)
    }
}

impl DocumentView {
    /// The root and every child stand in the document.
    pub open spec fn wf(self) -> bool {
        &&& self.root < self.nodes.len()
        &&& forall|i: int, k: int|
            0 <= i < self.nodes.len() && 0 <= k < self.nodes[i].children.len()
                ==> #[trigger] self.nodes[i].children[k] < self.nodes.len()
    }

    /// The children of a node that have the given name, in order.
    pub open spec fn children_named(self, node: usize, name: Seq<char>) -> Seq<usize> {
        self.nodes[node as int].children.filter(|c: usize| self.nodes[c as int].name == name)
    }

    /// The children of that name of all nodes of a list, in order.
    pub open spec fn all_children_named(self, nodes: Seq<usize>, name: Seq<char>) -> Seq<usize> {
        nodes.flat_map(|n: usize| self.children_named(n, name))
    }

    /// The value of an attribute of a node.
    pub open spec fn attribute(self, node: usize, name: Seq<char>) -> Option<Seq<char>> {
        attribute_in(self.nodes[node as int].attributes, name)
    }

    /// Every position of the list stands in the document.
    pub open spec fn holds(self, nodes: Seq<usize>) -> bool {
        forall|i: int| 0 <= i < nodes.len() ==> #[trigger] nodes[i] < self.nodes.len()
    }
}

/// What `roxmltree::Document::parse` makes of a text: the document, or the
/// description of the error.
pub uninterp spec fn parsed(text: Seq<char>) -> core::result::Result<DocumentView, Seq<char>>;

/// `roxmltree::Document::parse`, with the nodes of the document copied out in
/// document order. Which document a text gives is left to the crate; every
/// document has a root element, and every child of a node is a node of the
/// same document.
#[verifier::external_body]
pub(crate) fn parse(text: &str) -> (r: core::result::Result<XmlDocument, String>)
    ensures
        r.is_ok() ==> parsed(text@) == Ok::<DocumentView, Seq<char>>(r->Ok_0.deep_view()),
        r.is_ok() ==> r->Ok_0.deep_view().wf(),
        r.is_err() ==> parsed(text@) == Err::<DocumentView, Seq<char>>(r->Err_0@),
{
    match roxmltree::Document::parse(text) {
        Ok(doc) => Ok(XmlDocument {
            root: doc.root_element().id().get_usize(),
            nodes: doc.descendants().map(|n| XmlNode {
                name: n.tag_name().name().to_string(),
                attributes: n.attributes().map(|a| XmlAttribute {
                    name: a.name().to_string(),
                    value: a.value().to_string(),
                }).collect(),
                children: n.children().map(|c| c.id().get_usize()).collect(),
            }).collect(),
        }),
        Err(e) => Err(e.to_string()),
    }
}

impl XmlDocument {
    /// The value of an attribute of a node.
    pub fn attribute(&self, node: usize, name: &str) -> (r: Option<&String>)
        requires
            node < self.deep_view().nodes.len(),
        ensures
            r.deep_view() == self.deep_view().attribute(node, name@),
    {
        let attributes = &self.nodes[node].attributes;
        let ghost all = attributes.deep_view();
        let mut i: usize = 0;
        assert(all.skip(0) =~= all);
        while i < attributes.len()
            invariant
                i <= attributes@.len(),
                all == attributes.deep_view(),
                all == self.deep_view().nodes[node as int].attributes,
                attribute_in(all, name@) == attribute_in(all.skip(i as int), name@),
            decreases attributes@.len() - i,
        {
            if text::same(attributes[i].name.as_str(), name) {
                return Some(&attributes[i].value);
            }
            assert(all.skip(i as int).skip(1) =~= all.skip(i + 1));
            i += 1;
        }
        None
    }

    /// Whether a node has the given name.
    pub fn is_named(&self, node: usize, name: &str) -> (r: bool)
        requires
            node < self.deep_view().nodes.len(),
        ensures
            r == (self.deep_view().nodes[node as int].name == name@),
    {
        text::same(self.nodes[node].name.as_str(), name)
    }

    /// The children of a node that have the given name, in order.
    pub fn children_named(&self, node: usize, name: &str) -> (r: Vec<usize>)
        requires
            self.deep_view().wf(),
            node < self.deep_view().nodes.len(),
        ensures
            r@ == self.deep_view().children_named(node, name@),
            self.deep_view().holds(r@),
    {
        let ghost doc = self.deep_view();
        let ghost named = |c: usize| doc.nodes[c as int].name == name@;
        let children = &self.nodes[node].children;
        let mut out: Vec<usize> = Vec::new();
        let mut i: usize = 0;
        while i < children.len()
            invariant
                i <= children@.len(),
                doc == self.deep_view(),
                doc.wf(),
                node < doc.nodes.len(),
                children@ == doc.nodes[node as int].children,
                named == (|c: usize| doc.nodes[c as int].name == name@),
                out@ == children@.take(i as int).filter(named),
                doc.holds(out@),
            decreases children@.len() - i,
        {
            let child: usize = children[i];
            proof {
                assert(children@.take(i + 1) =~= children@.take(i as int).push(child));
                children@.take(i as int).lemma_filter_push(child, named);
            }
            if self.is_named(child, name) {
                out.push(child);
            }
            i += 1;
        }
        assert(children@.take(i as int) =~= children@);
        out
    }

    /// The children of that name of all nodes of a list, in order.
    pub fn all_children_named(&self, nodes: &Vec<usize>, name: &str) -> (r: Vec<usize>)
        requires
            self.deep_view().wf(),
            self.deep_view().holds(nodes@),
        ensures
            r@ == self.deep_view().all_children_named(nodes@, name@),
            self.deep_view().holds(r@),
    {
        let ghost doc = self.deep_view();
        let ghost f = |n: usize| doc.children_named(n, name@);
        let mut out: Vec<usize> = Vec::new();
        let mut i: usize = 0;
        while i < nodes.len()
            invariant
                i <= nodes@.len(),
                doc == self.deep_view(),
                doc.wf(),
                doc.holds(nodes@),
                f == (|n: usize| doc.children_named(n, name@)),
                out@ == nodes@.take(i as int).flat_map(f),
                doc.holds(out@),
            decreases nodes@.len() - i,
        {
            let mut found = self.children_named(nodes[i], name);
            out.append(&mut found);
            proof {
                nodes@.lemma_flat_map_take_append(f, i as int);
            }
            i += 1;
        }
        assert(nodes@.take(i as int) =~= nodes@);
        out
    }
}

} // verus!
