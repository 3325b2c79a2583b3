//! Structured documents: the tree that a configuration file denotes, and
//! the two parsers that produce it.
//!
//! The parsers are outside code. What they return is named here, not
//! defined: [`toml_document`] and [`yaml_document`] stand for the tree of a
//! text, and everything that the crate proves about configuration is
//! proved for every tree.

use vstd::prelude::*;

verus! {

/// The TOML value type of the `toml` crate, carried through as it is.
#[verifier::external_type_specification]
#[verifier::external_body]
pub struct ExTomlValue(toml::Value);

/// The error of the `toml` crate's deserializer.
#[verifier::external_type_specification]
#[verifier::external_body]
pub struct ExTomlError(toml::de::Error);

/// The YAML value type of the `serde_yaml` crate, carried through as it is.
#[verifier::external_type_specification]
#[verifier::external_body]
pub struct ExYamlValue(serde_yaml::Value);

/// The error of the `serde_yaml` crate.
#[verifier::external_type_specification]
#[verifier::external_body]
pub struct ExYamlError(serde_yaml::Error);

/// A node of a structured document, reduced to what configuration reads:
/// texts, lists and tables. Every other value (number, boolean, date,
/// null, tagged value) is `Other`.
#[derive(Debug)]
pub enum Node {
    Text(String),
    List(Vec<Node>),
    Table(Vec<(Node, Node)>),
    Other,
}

/// The tree of a TOML value.
pub uninterp spec fn toml_tree(value: toml::Value) -> Node;

/// The tree that a TOML text denotes, `None` where the text is not a
/// TOML document.
pub uninterp spec fn toml_document(text: Seq<char>) -> Option<Node>;

/// The tree of a YAML value.
pub uninterp spec fn yaml_tree(value: serde_yaml::Value) -> Node;

/// The tree that a YAML text denotes, `None` where the text is not a
/// single YAML document.
pub uninterp spec fn yaml_document(text: Seq<char>) -> Option<Node>;

/// The value of the first entry of a table whose key is the text `key`.
pub open spec fn lookup(entries: Seq<(Node, Node)>, key: Seq<char>) -> Option<Node>
    decreases entries.len(),
{
    if entries.len() == 0 {
        None
    } else if entries[0].0.text() == Some(key) {
        Some(entries[0].1)
    } else {
        lookup(entries.skip(1), key)
    }
}

impl Node {
    /// The characters of a text node.
    pub open spec fn text(self) -> Option<Seq<char>> {
        match self {
            Node::Text(s) => Some(s@),
            _ => None,
        }
    }

    /// The elements of a list node.
    pub open spec fn items(self) -> Option<Seq<Node>> {
        match self {
            Node::List(items) => Some(items@),
            _ => None,
        }
    }

    /// The entries of a table node, in the order in which the node holds them.
    pub open spec fn entries(self) -> Option<Seq<(Node, Node)>> {
        match self {
            Node::Table(entries) => Some(entries@),
            _ => None,
        }
    }

    /// The value under `key`, where the node is a table that has the key.
    pub open spec fn field(self, key: Seq<char>) -> Option<Node> {
        match self {
            Node::Table(entries) => lookup(entries@, key),
            _ => None,
        }
    }

    /// The text under `key`, where the node is a table that has a text there.
    pub open spec fn text_field(self, key: Seq<char>) -> Option<Seq<char>> {
        match self.field(key) {
            Some(node) => node.text(),
            None => None,
        }
    }

    /// Looks a key up in a table. `None` where the node is no table or
    /// the table lacks the key.
    pub fn get(&self, key: &str) -> (found: Option<&Node>)
        ensures
            found matches Some(node) ==> self.field(key@) == Some(*node),
            found is None ==> self.field(key@) is None,
    {
        match self {
            Node::Table(entries) => {
                let wanted = key.to_owned();
                let mut i: usize = 0;
                assert(entries@.skip(0) =~= entries@);
                while i < entries.len()
                    invariant
                        i <= entries.len(),
                        wanted@ == key@,
                        self.field(key@) == lookup(entries@, key@),
                        lookup(entries@, key@) == lookup(entries@.skip(i as int), key@),
                    decreases entries.len() - i,
                {
                    let ghost rest = entries@.skip(i as int);
                    assert(rest[0] == entries@[i as int]);
                    assert(rest.skip(1) =~= entries@.skip(i + 1));
                    match &entries[i].0 {
                        Node::Text(name) => {
                            if *name == wanted {
                                return Some(&entries[i].1);
                            }
                        },
                        _ => {},
                    }
                    i = i + 1;
                }
                None
            },
            _ => None,
        }
    }

    /// The text under `key`, copied out.
    pub fn get_text(&self, key: &str) -> (found: Option<String>)
        ensures
            found matches Some(s) ==> self.text_field(key@) == Some(s@),
            found is None ==> self.text_field(key@) is None,
    {
        match self.get(key) {
            Some(Node::Text(s)) => Some(s.clone()),
            _ => None,
        }
    }
}

/// Calls `toml::from_str` for a `toml::Value`. The contract names the
/// outcome and claims nothing else: an accepted text denotes the tree of
/// the value that came back, a refused one denotes none.
#[verifier::external_body]
fn toml_from_str(text: &str) -> (parsed: Result<toml::Value, toml::de::Error>)
    ensures
        parsed matches Ok(value) ==> toml_document(text@) == Some(toml_tree(value)),
        parsed is Err ==> toml_document(text@) is None,
{
    toml::from_str::<toml::Value>(text)
}

/// Copies a `toml::Value` into a [`Node`], variant by variant: a string
/// becomes a text, an array a list, a table a table whose keys are texts,
/// and every other value `Other`. The contract names the copy.
#[verifier::external_body]
fn toml_node(value: &toml::Value) -> (node: Node)
    ensures
        node == toml_tree(*value),
{
    match value {
        toml::Value::String(s) => Node::Text(s.clone()),
        toml::Value::Array(items) => Node::List(items.iter().map(toml_node).collect()),
        toml::Value::Table(table) => Node::Table(
            table.iter().map(|(k, v)| (Node::Text(k.clone()), toml_node(v))).collect(),
        ),
        toml::Value::Integer(_) => Node::Other,
        toml::Value::Float(_) => Node::Other,
        toml::Value::Boolean(_) => Node::Other,
        toml::Value::Datetime(_) => Node::Other,
    }
}

/// Calls `serde_yaml::from_str` for a `serde_yaml::Value`. The contract
/// names the outcome and claims nothing else: an accepted text denotes the
/// tree of the value that came back, a refused one denotes none.
#[verifier::external_body]
fn yaml_from_str(text: &str) -> (parsed: Result<serde_yaml::Value, serde_yaml::Error>)
    ensures
        parsed matches Ok(value) ==> yaml_document(text@) == Some(yaml_tree(value)),
        parsed is Err ==> yaml_document(text@) is None,
{
    serde_yaml::from_str::<serde_yaml::Value>(text)
}

/// Copies a `serde_yaml::Value` into a [`Node`], variant by variant: a
/// string becomes a text, a sequence a list, a mapping a table with its
/// keys copied the same way, and every other value, a tagged one too,
/// `Other`. The contract names the copy.
#[verifier::external_body]
fn yaml_node(value: &serde_yaml::Value) -> (node: Node)
    ensures
        node == yaml_tree(*value),
{
    match value {
        serde_yaml::Value::String(s) => Node::Text(s.clone()),
        serde_yaml::Value::Sequence(items) => Node::List(items.iter().map(yaml_node).collect()),
        serde_yaml::Value::Mapping(mapping) => Node::Table(
            mapping.iter().map(|(k, v)| (yaml_node(k), yaml_node(v))).collect(),
        ),
        serde_yaml::Value::Null => Node::Other,
        serde_yaml::Value::Bool(_) => Node::Other,
        serde_yaml::Value::Number(_) => Node::Other,
        serde_yaml::Value::Tagged(_) => Node::Other,
    }
}

/// Parses a TOML text into its tree.
pub fn parse_toml(text: &str) -> (doc: Option<Node>)
    ensures
        doc == toml_document(text@),
{
    match toml_from_str(text) {
        Ok(value) => Some(toml_node(&value)),
        Err(_) => None,
    }
}

/// Parses a YAML text into its tree.
pub fn parse_yaml(text: &str) -> (doc: Option<Node>)
    ensures
        doc == yaml_document(text@),
{
    match yaml_from_str(text) {
        Ok(value) => Some(yaml_node(&value)),
        Err(_) => None,
    }
}

} // verus!
