use vstd::prelude::*;

use crate::text::same_text;

verus! {

#[verifier::external_type_specification]
#[verifier::external_body]
pub struct ExYamlValue(serde_yaml::Value);

/// A parsed YAML document, as far as the catalog schema reads it.
#[derive(Debug)]
pub enum Node {
    Null,
    /// A boolean or a number.
    Scalar,
    Text(String),
    List(Vec<Node>),
    /// A mapping: its entries in document order.
    Dict(Vec<(Node, Node)>),
}

/// The document that a YAML text parses to, or `None` where it is not YAML.
pub uninterp spec fn yaml_document(text: Seq<char>) -> Option<Node>;

/// Relies on the variants of serde_yaml::Value: turns a parsed value into the
/// library's tree, one variant for one (tags are dropped, booleans and numbers
/// become `Scalar`). Called by `parse_document` alone; it promises nothing.
#[verifier::external_body]
fn node_from_value(v: serde_yaml::Value) -> Node {
    match v {
        serde_yaml::Value::Null => Node::Null,
        serde_yaml::Value::Bool(_) => Node::Scalar,
        serde_yaml::Value::Number(_) => Node::Scalar,
        serde_yaml::Value::String(s) => Node::Text(s),
        serde_yaml::Value::Sequence(xs) => Node::List(xs.into_iter().map(node_from_value).collect()),
        serde_yaml::Value::Mapping(m) => Node::Dict(
            m.into_iter().map(|(k, x)| (node_from_value(k), node_from_value(x))).collect(),
        ),
        serde_yaml::Value::Tagged(t) => node_from_value(t.value),
    }
}

/// Relies on serde_yaml::from_str::<serde_yaml::Value>: the document depends on
/// the text alone.
#[verifier::external_body]
pub(crate) fn parse_document(text: &str) -> (r: Option<Node>)
    ensures
        r == yaml_document(text@),
{
    serde_yaml::from_str::<serde_yaml::Value>(text).ok().map(node_from_value)
}

/// The value of the first entry whose key is the text `key`.
pub open spec fn lookup(entries: Seq<(Node, Node)>, key: Seq<char>) -> Option<Node>
    decreases entries.len(),
{
    if entries.len() == 0 {
        None
    } else if entries[0].0 is Text && entries[0].0->Text_0@ == key {
        Some(entries[0].1)
    } else {
        lookup(entries.drop_first(), key)
    }
}

/// Finds the value of the first entry whose key is the text `key`.
pub fn find<'a>(entries: &'a Vec<(Node, Node)>, key: &str) -> (r: Option<&'a Node>)
    ensures
        match r {
            Some(v) => lookup(entries@, key@) == Some(*v),
            None => lookup(entries@, key@) is None,
        },
{
    let mut i: usize = 0;
    assert(entries@.skip(0) =~= entries@);
    while i < entries.len()
        invariant
            i <= entries.len(),
            lookup(entries@, key@) == lookup(entries@.skip(i as int), key@),
        decreases entries.len() - i,
    {
        assert(entries@.skip(i as int).drop_first() =~= entries@.skip(i + 1));
        match &entries[i].0 {
            Node::Text(k) => {
                if same_text(k.as_str(), key) {
                    return Some(&entries[i].1);
                }
            },
            _ => {},
        }
        i = i + 1;
    }
    None
}

} // verus!
