//! JSON documents, as far as configuration files are read from them.
use vstd::prelude::*;

verus! {

/// A value in a JSON document. What a number, a list or an object holds is left out.
#[derive(Debug, PartialEq, Eq)]
pub enum JsonNode<T = String> {
    Null,
    Flag(bool),
    Number,
    Text(T),
    List,
    Object,
}

impl DeepView for JsonNode {
    type V = JsonNode<Seq<char>>;

    open spec fn deep_view(&self) -> JsonNode<Seq<char>> {
        match self {
            JsonNode::Null => JsonNode::Null,
            JsonNode::Flag(flag) => JsonNode::Flag(*flag),
            JsonNode::Number => JsonNode::Number,
            JsonNode::Text(text) => JsonNode::Text(text@),
            JsonNode::List => JsonNode::List,
            JsonNode::Object => JsonNode::Object,
        }
    }
}

/// The value to which a JSON pointer leads in a document, as the `serde_json` crate reads
/// it; nothing where it rejects the document or the pointer leads nowhere. The empty pointer
/// leads to the whole document.
pub uninterp spec fn json_node(document: Seq<char>, pointer: Seq<char>) -> Option<
    JsonNode<Seq<char>>,
>;

/// Calls `serde_json::from_str` on the document, for a `serde_json::Value`, and
/// `Value::pointer` on what it gives. All that is claimed is that the outcome is a function
/// of the document and the pointer: [`json_node`] names it.
#[verifier::external_body]
pub(crate) fn json_at(document: &str, pointer: &str) -> (node: Option<JsonNode>)
    ensures
        node.deep_view() == json_node(document@, pointer@),
{
    let value = serde_json::from_str::<serde_json::Value>(document).ok()?;
    Some(match value.pointer(pointer)? {
        serde_json::Value::Null => JsonNode::Null,
        serde_json::Value::Bool(flag) => JsonNode::Flag(*flag),
        serde_json::Value::Number(_) => JsonNode::Number,
        serde_json::Value::String(text) => JsonNode::Text(text.clone()),
        serde_json::Value::Array(_) => JsonNode::List,
        serde_json::Value::Object(_) => JsonNode::Object,
    })
}

/// The text that a value is, if it is one.
pub open spec fn node_text(node: Option<JsonNode<Seq<char>>>) -> Option<Seq<char>> {
    match node {
        Some(JsonNode::Text(text)) => Some(text),
        _ => None,
    }
}

/// The text that a value is, if it is one.
pub fn text_of_node(node: Option<JsonNode>) -> (text: Option<String>)
    ensures
        text.deep_view() == node_text(node.deep_view()),
{
    match node {
        Some(JsonNode::Text(text)) => Some(text),
        _ => None,
    }
}

/// A text is read as it is, and nothing else counts as a text.
pub proof fn law_only_texts_are_texts(node: Option<JsonNode<Seq<char>>>, text: Seq<char>)
    ensures
        node_text(Some(JsonNode::Text(text))) == Some(text),
        node_text(node) is Some <==> (node matches Some(JsonNode::Text(_))),
{
}

} // verus!
