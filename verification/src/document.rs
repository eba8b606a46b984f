//! The document tree that specifications are read from, and the reader that
//! makes one from YAML text.

use serde_yaml::Value;
use vstd::prelude::*;

verus! {

/// One value of a structured document.
#[derive(Debug, PartialEq, Eq)]
pub enum Node {
    /// No value.
    Null,
    /// A truth value. The reader keeps the value, not the way the document
    /// wrote it: `true` and `True` are the same node.
    Bool(bool),
    /// A number, by the decimal text of its value. The reader keeps the
    /// value of a number, not the way the document wrote it: `3.10` and
    /// `3.1` are the same node.
    Number(String),
    /// A text.
    Text(String),
    /// Values in order.
    Sequence(Vec<Node>),
    /// Pairs of a key and a value, in the order of the document.
    Mapping(Vec<(Node, Node)>),
    /// A value with a tag in front of it.
    Tagged(String, Box<Node>),
}

/// The mathematical value of a [`Node`].
pub enum NodeView {
    Null,
    Bool(bool),
    Number(Seq<char>),
    Text(Seq<char>),
    Sequence(Seq<NodeView>),
    Mapping(Seq<(NodeView, NodeView)>),
    Tagged(Seq<char>, Box<NodeView>),
}

impl View for Node {
    type V = NodeView;

    open spec fn view(&self) -> NodeView {
        self.model()
    }
}

impl Node {
    /// The mathematical value of this node, child by child.
    pub open spec fn model(&self) -> NodeView
        decreases self,
    {
        match self {
            Node::Null => NodeView::Null,
            Node::Bool(b) => NodeView::Bool(*b),
            Node::Number(n) => NodeView::Number(n@),
            Node::Text(t) => NodeView::Text(t@),
            Node::Sequence(items) => NodeView::Sequence(
                Seq::new(
                    items@.len(),
                    |i: int|
                        if 0 <= i < items@.len() {
                            items@[i].model()
                        } else {
                            NodeView::Null
                        },
                ),
            ),
            Node::Mapping(entries) => NodeView::Mapping(
                Seq::new(
                    entries@.len(),
                    |i: int|
                        if 0 <= i < entries@.len() {
                            (entries@[i].0.model(), entries@[i].1.model())
                        } else {
                            (NodeView::Null, NodeView::Null)
                        },
                ),
            ),
            Node::Tagged(tag, inner) => NodeView::Tagged(tag@, Box::new(inner.model())),
        }
    }
}

/// The values of the items of a sequence.
pub open spec fn item_views(items: Seq<Node>) -> Seq<NodeView> {
    Seq::new(items.len(), |i: int| items[i]@)
}

/// The values of the entries of a mapping.
pub open spec fn entry_views(entries: Seq<(Node, Node)>) -> Seq<(NodeView, NodeView)> {
    Seq::new(entries.len(), |i: int| (entries[i].0@, entries[i].1@))
}

/// The value of a sequence node is the sequence of its items' values.
pub proof fn lemma_sequence_view(items: Vec<Node>)
    ensures
        Node::Sequence(items)@ == NodeView::Sequence(item_views(items@)),
{
    assert(Node::Sequence(items).model()->Sequence_0 =~= item_views(items@));
}

/// The value of a mapping node is the sequence of its entries' values.
pub proof fn lemma_mapping_view(entries: Vec<(Node, Node)>)
    ensures
        Node::Mapping(entries)@ == NodeView::Mapping(entry_views(entries@)),
{
    assert(Node::Mapping(entries).model()->Mapping_0 =~= entry_views(entries@));
}

/// The document that `serde_yaml::from_str` reads from a text, as a tree of
/// plain values; `None` where it rejects the text.
pub uninterp spec fn yaml_document(text: Seq<char>) -> Option<NodeView>;

/// The tree of plain values that a `serde_yaml::Value` holds.
pub uninterp spec fn value_tree(value: Value) -> NodeView;

#[verifier::external_type_specification]
#[verifier::external_body]
pub struct ExValue(Value);

#[verifier::external_type_specification]
#[verifier::external_body]
pub struct ExYamlError(serde_yaml::Error);

/// Calls `serde_yaml::from_str` for a `serde_yaml::Value`. The result is a
/// function of the text alone: the contract gives it a name and claims no
/// more of it.
#[verifier::external_body]
fn yaml_from_str(text: &str) -> (r: Result<Value, serde_yaml::Error>)
    ensures
        r is Ok <==> yaml_document(text@) is Some,
        r matches Ok(value) ==> yaml_document(text@) == Some(value_tree(value)),
{
    serde_yaml::from_str::<Value>(text)
}

/// Takes a `serde_yaml::Value` apart, variant by variant, into the tree of
/// plain values that it holds. A number becomes its decimal text
/// (`Number::to_string`), a tag its text (`Tag::to_string`).
#[verifier::external_body]
fn node_from_value(value: Value) -> (node: Node)
    ensures
        node@ == value_tree(value),
{
    match value {
        Value::Null => Node::Null,
        Value::Bool(b) => Node::Bool(b),
        Value::Number(n) => Node::Number(n.to_string()),
        Value::String(s) => Node::Text(s),
        Value::Sequence(items) => Node::Sequence(items.into_iter().map(node_from_value).collect()),
        Value::Mapping(entries) => Node::Mapping(
            entries.into_iter().map(|(k, v)| (node_from_value(k), node_from_value(v))).collect(),
        ),
        Value::Tagged(t) => Node::Tagged(t.tag.to_string(), Box::new(node_from_value(t.value))),
    }
}

/// The message of a `serde_yaml::Error` (`to_string`). Nothing is claimed
/// of its wording.
#[verifier::external_body]
fn yaml_error_message(error: &serde_yaml::Error) -> String {
    error.to_string()
}

/// Reads a YAML text into a document tree, or gives the reader's message
/// where the text is no document.
pub fn parse_document(text: &str) -> (r: Result<Node, String>)
    ensures
        r is Ok <==> yaml_document(text@) is Some,
        r matches Ok(node) ==> yaml_document(text@) == Some(node@),
{
    match yaml_from_str(text) {
        Ok(value) => Ok(node_from_value(value)),
        Err(error) => Err(yaml_error_message(&error)),
    }
}

} // verus!
