//! Reading XML text into an [`XmlDocument`].
//!
//! The text is parsed by `roxmltree`. What this module takes on trust of
//! that crate is stated in the contracts of the private functions below;
//! everything built on them is proved.

use vstd::prelude::*;
use crate::xml::{
    attributes_view, nodes_view, text_view, well_formed, NodeKind, NodeView, XmlAttribute,
    XmlDocument, XmlNode,
};

verus! {

/// `roxmltree::Document`: a parsed text. Nothing is known of what is inside
/// but through [`document_nodes`].
#[verifier::external_type_specification]
#[verifier::external_body]
pub struct ExDocument<'input>(roxmltree::Document<'input>);

/// `roxmltree::Error`: why a text was not parsed. It is only passed on.
#[verifier::external_type_specification]
#[verifier::external_body]
pub struct ExError(roxmltree::Error);

/// The nodes that a `roxmltree::Document` holds, by their identifiers: node
/// `i` is the one that `get_node` returns for the identifier `i`, and node 0
/// is the root. Of each node the list gives what the methods of
/// `roxmltree::Node` return: `node_type` as the kind, the local part of
/// `tag_name` as the name, `text` as the text, the local name and the value
/// of each of `attributes`, and the identifier of each of `children`.
pub uninterp spec fn document_nodes(doc: &roxmltree::Document) -> Seq<NodeView>;

/// The nodes of the document that `roxmltree::Document::parse` makes of a
/// text, or nothing where it reports an error.
pub uninterp spec fn parsed_nodes(text: Seq<char>) -> Option<Seq<NodeView>>;

/// `roxmltree::Document::parse`, with its default options: a function of the
/// text alone, which gives either a document or an error.
#[verifier::external_body]
fn parse_text<'a>(text: &'a str) -> (parsed: Result<roxmltree::Document<'a>, roxmltree::Error>)
    ensures
        parsed matches Ok(doc) ==> parsed_nodes(text@) == Some(document_nodes(&doc)),
        parsed is Err ==> parsed_nodes(text@) is None,
{
    roxmltree::Document::parse(text)
}

/// `Document::descendants`, counted: the iterator walks the whole node list
/// once, from the root, so its length is the number of nodes.
#[verifier::external_body]
fn node_count(doc: &roxmltree::Document) -> (count: usize)
    ensures
        count == document_nodes(doc).len(),
{
    doc.descendants().len()
}

/// `Node::node_type` of the node with identifier `index`, variant for
/// variant.
#[verifier::external_body]
fn kind_at(doc: &roxmltree::Document, index: usize) -> (kind: NodeKind)
    requires
        index < document_nodes(doc).len(),
        index < u32::MAX,
    ensures
        kind == document_nodes(doc)[index as int].kind,
{
    match doc.get_node(roxmltree::NodeId::from(index)).unwrap().node_type() {
        roxmltree::NodeType::Root => NodeKind::Root,
        roxmltree::NodeType::Element => NodeKind::Element,
        roxmltree::NodeType::PI => NodeKind::Instruction,
        roxmltree::NodeType::Comment => NodeKind::Comment,
        roxmltree::NodeType::Text => NodeKind::Text,
    }
}

/// `Node::tag_name` of the node with identifier `index`, its local name:
/// empty unless the node is an element.
#[verifier::external_body]
fn name_at(doc: &roxmltree::Document, index: usize) -> (name: String)
    requires
        index < document_nodes(doc).len(),
        index < u32::MAX,
    ensures
        name@ == document_nodes(doc)[index as int].name,
{
    doc.get_node(roxmltree::NodeId::from(index)).unwrap().tag_name().name().to_string()
}

/// `Node::text` of the node with identifier `index`: for a text node or a
/// comment its own text, for an element that of its first child if that is
/// a text node, else nothing.
#[verifier::external_body]
fn text_at(doc: &roxmltree::Document, index: usize) -> (text: Option<String>)
    requires
        index < document_nodes(doc).len(),
        index < u32::MAX,
    ensures
        text_view(text) == document_nodes(doc)[index as int].text,
{
    doc.get_node(roxmltree::NodeId::from(index)).unwrap().text().map(String::from)
}

/// `Node::attributes` of the node with identifier `index`: the local name
/// and the value of each attribute, in order.
#[verifier::external_body]
fn attributes_at(doc: &roxmltree::Document, index: usize) -> (attributes: Vec<XmlAttribute>)
    requires
        index < document_nodes(doc).len(),
        index < u32::MAX,
    ensures
        attributes_view(attributes@) == document_nodes(doc)[index as int].attributes,
{
    let node = doc.get_node(roxmltree::NodeId::from(index)).unwrap();
    node.attributes()
        .map(|a| XmlAttribute { name: a.name().to_string(), value: a.value().to_string() })
        .collect()
}

/// `Node::children` of the node with identifier `index`: the identifier of
/// each child, in order.
#[verifier::external_body]
fn children_at(doc: &roxmltree::Document, index: usize) -> (children: Vec<usize>)
    requires
        index < document_nodes(doc).len(),
        index < u32::MAX,
    ensures
        children@ == document_nodes(doc)[index as int].children,
{
    let node = doc.get_node(roxmltree::NodeId::from(index)).unwrap();
    node.children().map(|c| c.id().get_usize()).collect()
}

/// Why a text could not be read as a document.
#[derive(Clone, Copy, Debug, PartialEq, Eq, Structural)]
pub enum ParseError {
    /// The text is not well-formed XML.
    MalformedXml,
}

/// Whether a parse gave a node list that an [`XmlDocument`] can hold.
pub open spec fn readable(nodes: Option<Seq<NodeView>>) -> bool {
    nodes matches Some(list) && list.len() <= u32::MAX && well_formed(list)
}

/// Copies the nodes of a parsed document, in the order of their identifiers.
fn read_nodes(doc: &roxmltree::Document) -> (nodes: Vec<XmlNode>)
    requires
        document_nodes(doc).len() <= u32::MAX,
    ensures
        nodes_view(nodes@) == document_nodes(doc),
{
    let count = node_count(doc);
    let mut nodes: Vec<XmlNode> = Vec::new();
    let mut i: usize = 0;
    while i < count
        invariant
            i <= count,
            count == document_nodes(doc).len(),
            count <= u32::MAX,
            nodes@.len() == i,
            forall|k: int| 0 <= k < i ==> (#[trigger] nodes@[k])@ == document_nodes(doc)[k],
        decreases count - i,
    {
        let node = XmlNode {
            kind: kind_at(doc, i),
            name: name_at(doc, i),
            text: text_at(doc, i),
            attributes: attributes_at(doc, i),
            children: children_at(doc, i),
        };
        nodes.push(node);
        i += 1;
    }
    assert(nodes_view(nodes@) =~= document_nodes(doc));
    nodes
}

/// Reads `text` as an XML document.
///
/// Succeeds exactly when the parser accepts the text and the node list it
/// gives is one that a document can hold; the document then has those nodes.
pub fn parse(text: &str) -> (parsed: Result<XmlDocument, ParseError>)
    ensures
        parsed is Ok <==> readable(parsed_nodes(text@)),
        parsed matches Ok(doc) ==> parsed_nodes(text@) == Some(doc@),
{
    match parse_text(text) {
        Ok(doc) => {
            if node_count(&doc) > u32::MAX as usize {
                return Err(ParseError::MalformedXml);
            }
            match XmlDocument::new(read_nodes(&doc)) {
                Some(document) => Ok(document),
                None => Err(ParseError::MalformedXml),
            }
        },
        Err(_) => Err(ParseError::MalformedXml),
    }
}

} // verus!
