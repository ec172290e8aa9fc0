//! An XML document as an indexed list of nodes.
//!
//! Node 0 stands for the document itself: its children are what stands at
//! the top of the text. Every node lists its children by their position in
//! the list, in the order in which they stand in the text.

use vstd::prelude::*;
use crate::text::str_eq;

verus! {

/// The kind of a node.
#[derive(Clone, Copy, Debug, PartialEq, Eq, Structural)]
pub enum NodeKind {
    /// The root of the document, above its root element.
    Root,
    /// An element: the only kind with a tag name and attributes.
    Element,
    /// A processing instruction.
    Instruction,
    /// A comment.
    Comment,
    /// Character data.
    Text,
}

/// One attribute of an element.
#[derive(Debug, PartialEq, Eq)]
pub struct XmlAttribute {
    /// The local name.
    pub name: String,
    /// The value, with references already resolved.
    pub value: String,
}

/// The mathematical value of an [`XmlAttribute`].
pub struct AttributeView {
    pub name: Seq<char>,
    pub value: Seq<char>,
}

impl View for XmlAttribute {
    type V = AttributeView;

    open spec fn view(&self) -> AttributeView {
        AttributeView { name: self.name@, value: self.value@ }
    }
}

/// One node of a document.
#[derive(Debug, PartialEq, Eq)]
pub struct XmlNode {
    pub kind: NodeKind,
    /// The local tag name; empty unless the node is an element.
    pub name: String,
    /// The node's text: its own for a text node or a comment, that of the
    /// first child for an element whose first child is a text node.
    pub text: Option<String>,
    /// The attributes, in the order of the text.
    pub attributes: Vec<XmlAttribute>,
    /// The positions of the children, in the order of the text.
    pub children: Vec<usize>,
}

/// The mathematical value of an [`XmlNode`].
pub struct NodeView {
    pub kind: NodeKind,
    pub name: Seq<char>,
    pub text: Option<Seq<char>>,
    pub attributes: Seq<AttributeView>,
    pub children: Seq<usize>,
}

/// The view of an optional string.
pub open spec fn text_view(text: Option<String>) -> Option<Seq<char>> {
    match text {
        Some(t) => Some(t@),
        None => None,
    }
}

/// The view of an optional string slice.
pub open spec fn str_view(text: Option<&str>) -> Option<Seq<char>> {
    match text {
        Some(t) => Some(t@),
        None => None,
    }
}

/// The views of a list of attributes.
pub open spec fn attributes_view(attributes: Seq<XmlAttribute>) -> Seq<AttributeView> {
    attributes.map_values(|a: XmlAttribute| a@)
}

impl View for XmlNode {
    type V = NodeView;

    open spec fn view(&self) -> NodeView {
        NodeView {
            kind: self.kind,
            name: self.name@,
            text: text_view(self.text),
            attributes: attributes_view(self.attributes@),
            children: self.children@,
        }
    }
}

/// The views of a list of nodes.
pub open spec fn nodes_view(nodes: Seq<XmlNode>) -> Seq<NodeView> {
    nodes.map_values(|n: XmlNode| n@)
}

/// Every child position named by a node lies inside the list.
pub open spec fn well_formed(nodes: Seq<NodeView>) -> bool {
    forall|i: int, j: int|
        0 <= i < nodes.len() && 0 <= j < nodes[i].children.len() ==> (#[trigger] nodes[i].children[j])
            < nodes.len()
}

/// Whether node `index` exists and is an element.
pub open spec fn is_element(nodes: Seq<NodeView>, index: usize) -> bool {
    index < nodes.len() && nodes[index as int].kind == NodeKind::Element
}

/// Whether node `index` exists and is an element with the local name `name`.
pub open spec fn is_element_named(nodes: Seq<NodeView>, index: usize, name: Seq<char>) -> bool {
    is_element(nodes, index) && nodes[index as int].name == name
}

/// Whether node `index` exists and is a text node.
pub open spec fn is_text(nodes: Seq<NodeView>, index: usize) -> bool {
    index < nodes.len() && nodes[index as int].kind == NodeKind::Text
}

/// The value of the first attribute at or after `start` whose local name is
/// `name`.
pub open spec fn attribute_from(attributes: Seq<AttributeView>, name: Seq<char>, start: int) -> Option<
    Seq<char>,
>
    decreases attributes.len() - start,
{
    if start < 0 || start >= attributes.len() {
        None
    } else if attributes[start].name == name {
        Some(attributes[start].value)
    } else {
        attribute_from(attributes, name, start + 1)
    }
}

/// The value of the first attribute whose local name is `name`.
pub open spec fn attribute_value(attributes: Seq<AttributeView>, name: Seq<char>) -> Option<
    Seq<char>,
> {
    attribute_from(attributes, name, 0)
}

/// The first of `children`, at or after `start`, that is an element.
pub open spec fn first_element_from(nodes: Seq<NodeView>, children: Seq<usize>, start: int) -> Option<
    usize,
>
    decreases children.len() - start,
{
    if start < 0 || start >= children.len() {
        None
    } else if is_element(nodes, children[start]) {
        Some(children[start])
    } else {
        first_element_from(nodes, children, start + 1)
    }
}

/// The first child of node `parent` that is an element.
pub open spec fn first_element_child(nodes: Seq<NodeView>, parent: usize) -> Option<usize> {
    if parent < nodes.len() {
        first_element_from(nodes, nodes[parent as int].children, 0)
    } else {
        None
    }
}

/// The characters that a node holds as its text; none where it has no text.
pub open spec fn text_of(node: NodeView) -> Seq<char> {
    match node.text {
        Some(t) => t,
        None => Seq::empty(),
    }
}

/// The text of the first of `children`, at or after `start`, that is a text
/// node.
pub open spec fn first_text_from(nodes: Seq<NodeView>, children: Seq<usize>, start: int) -> Option<
    Seq<char>,
>
    decreases children.len() - start,
{
    if start < 0 || start >= children.len() {
        None
    } else if is_text(nodes, children[start]) {
        Some(text_of(nodes[children[start] as int]))
    } else {
        first_text_from(nodes, children, start + 1)
    }
}

/// The text of the first text node among the children of node `parent`.
pub open spec fn first_text(nodes: Seq<NodeView>, parent: usize) -> Option<Seq<char>> {
    if parent < nodes.len() {
        first_text_from(nodes, nodes[parent as int].children, 0)
    } else {
        None
    }
}

/// A document: a list of nodes in which every child position is valid.
#[derive(Debug, PartialEq, Eq)]
pub struct XmlDocument {
    nodes: Vec<XmlNode>,
}

impl View for XmlDocument {
    type V = Seq<NodeView>;

    closed spec fn view(&self) -> Seq<NodeView> {
        nodes_view(self.nodes@)
    }
}

/// Whether all children of `node` lie below `limit`.
fn children_below(node: &XmlNode, limit: usize) -> (ok: bool)
    ensures
        ok == (forall|j: int| 0 <= j < node@.children.len() ==> node@.children[j] < limit),
{
    let mut j: usize = 0;
    while j < node.children.len()
        invariant
            j <= node.children.len(),
            forall|k: int| 0 <= k < j ==> node.children@[k] < limit,
        decreases node.children.len() - j,
    {
        if node.children[j] >= limit {
            assert(node@.children[j as int] >= limit);
            return false;
        }
        j += 1;
    }
    true
}

impl XmlNode {
    /// The value of the first attribute whose local name is `name`.
    pub fn attribute(&self, name: &str) -> (value: Option<&str>)
        ensures
            str_view(value) == attribute_value(self@.attributes, name@),
    {
        let mut i: usize = 0;
        while i < self.attributes.len()
            invariant
                i <= self.attributes.len(),
                attribute_value(self@.attributes, name@) == attribute_from(
                    self@.attributes,
                    name@,
                    i as int,
                ),
            decreases self.attributes.len() - i,
        {
            assert(self@.attributes[i as int] == self.attributes@[i as int]@);
            if str_eq(self.attributes[i].name.as_str(), name) {
                return Some(self.attributes[i].value.as_str());
            }
            i += 1;
        }
        None
    }
}

impl XmlDocument {
    #[verifier::type_invariant]
    spec fn valid(self) -> bool {
        well_formed(self@)
    }

    /// Makes a document of `nodes`, or nothing if a node names a child that
    /// is not in the list.
    pub fn new(nodes: Vec<XmlNode>) -> (made: Option<XmlDocument>)
        ensures
            made is Some <==> well_formed(nodes_view(nodes@)),
            made matches Some(doc) ==> doc@ == nodes_view(nodes@),
    {
        let mut i: usize = 0;
        while i < nodes.len()
            invariant
                i <= nodes.len(),
                forall|a: int, b: int|
                    0 <= a < i && 0 <= b < nodes_view(nodes@)[a].children.len() ==> (
                    #[trigger] nodes_view(nodes@)[a].children[b]) < nodes.len(),
            decreases nodes.len() - i,
        {
            if !children_below(&nodes[i], nodes.len()) {
                assert(nodes_view(nodes@)[i as int] == nodes@[i as int]@);
                return None;
            }
            assert(nodes_view(nodes@)[i as int] == nodes@[i as int]@);
            i += 1;
        }
        Some(XmlDocument { nodes })
    }

    /// The number of nodes.
    pub fn len(&self) -> (n: usize)
        ensures
            n == self@.len(),
            well_formed(self@),
    {
        proof {
            use_type_invariant(self);
        }
        self.nodes.len()
    }

    /// The node at `index`.
    pub fn node(&self, index: usize) -> (node: &XmlNode)
        requires
            index < self@.len(),
        ensures
            node@ == self@[index as int],
            well_formed(self@),
    {
        proof {
            use_type_invariant(self);
        }
        &self.nodes[index]
    }

    /// Whether node `index` exists and is an element with the local name
    /// `name`.
    pub fn is_element_named(&self, index: usize, name: &str) -> (named: bool)
        ensures
            named == is_element_named(self@, index, name@),
    {
        if index >= self.len() {
            return false;
        }
        let node = self.node(index);
        node.kind == NodeKind::Element && str_eq(node.name.as_str(), name)
    }

    /// The first child of node `parent` that is an element.
    pub fn first_element_child(&self, parent: usize) -> (child: Option<usize>)
        ensures
            child == first_element_child(self@, parent),
            child matches Some(c) ==> is_element(self@, c),
    {
        if parent >= self.len() {
            return None;
        }
        let children = &self.node(parent).children;
        let mut i: usize = 0;
        while i < children.len()
            invariant
                i <= children.len(),
                parent < self@.len(),
                children@ == self@[parent as int].children,
                first_element_child(self@, parent) == first_element_from(
                    self@,
                    children@,
                    i as int,
                ),
            decreases children.len() - i,
        {
            let c = children[i];
            if c < self.len() && self.node(c).kind == NodeKind::Element {
                return Some(c);
            }
            i += 1;
        }
        None
    }

    /// The text of the first text node among the children of node `parent`.
    pub fn first_text(&self, parent: usize) -> (text: Option<&str>)
        ensures
            str_view(text) == first_text(self@, parent),
    {
        if parent >= self.len() {
            return None;
        }
        let children = &self.node(parent).children;
        let mut i: usize = 0;
        while i < children.len()
            invariant
                i <= children.len(),
                parent < self@.len(),
                children@ == self@[parent as int].children,
                first_text(self@, parent) == first_text_from(self@, children@, i as int),
            decreases children.len() - i,
        {
            let c = children[i];
            if c < self.len() && self.node(c).kind == NodeKind::Text {
                proof {
                    reveal_strlit("");
                }
                return match &self.node(c).text {
                    Some(t) => Some(t.as_str()),
                    None => Some(""),
                };
            }
            i += 1;
        }
        None
    }
}

} // verus!
