//! The boundary to the format codecs. Every item here is taken on trust: it
//! states what a codec does and is not proved. The codecs read and write one
//! common document type, `serde_json::Value`, which the rest of the library
//! only ever sees through `doc_tree`.
//!
//! A codec is a pure function: what it returns depends on its argument alone.
//! Its result is therefore given a name here, and the contracts of the
//! library are stated over those names. `serde_json` is built with its
//! `preserve_order` feature, so an object keeps its entries in the order in
//! which they were inserted.

use crate::tree::{distinct_keys, Tree};
use vstd::prelude::*;

verus! {

/// The document type that the codecs read into and write from. It is opaque:
/// what it holds is given by `doc_tree`.
#[verifier::external_type_specification]
#[verifier::external_body]
pub struct ExDocument(serde_json::Value);

/// The tree that a codec document holds.
pub uninterp spec fn doc_tree(doc: serde_json::Value) -> Tree;

/// One level of a document: its scalar, or its children still in codec form.
pub enum Node {
    Null,
    Bool(bool),
    Number(serde_json::Number),
    String(String),
    Sequence(Vec<serde_json::Value>),
    Mapping(Vec<(String, serde_json::Value)>),
}

/// The trees of a sequence node's children.
pub open spec fn item_trees(items: Seq<serde_json::Value>) -> Seq<Tree> {
    Seq::new(items.len(), |i: int| doc_tree(items[i]))
}

/// The keys and trees of a mapping node's children.
pub open spec fn entry_trees(entries: Seq<(String, serde_json::Value)>) -> Seq<(Seq<char>, Tree)> {
    Seq::new(entries.len(), |i: int| (entries[i].0@, doc_tree(entries[i].1)))
}

/// The tree that a node stands for.
pub open spec fn node_tree(node: Node) -> Tree {
    match node {
        Node::Null => Tree::Null,
        Node::Bool(b) => Tree::Bool(b),
        Node::Number(n) => Tree::Number(n),
        Node::String(s) => Tree::String(s@),
        Node::Sequence(items) => Tree::Sequence(item_trees(items@)),
        Node::Mapping(entries) => Tree::Mapping(entry_trees(entries@)),
    }
}

/// The keys of a mapping node are pairwise distinct.
pub open spec fn node_keys_distinct(node: Node) -> bool {
    match node {
        Node::Mapping(entries) => distinct_keys(entry_trees(entries@)),
        _ => true,
    }
}

/// What a codec's reader returned, as a tree or a diagnostic.
pub open spec fn read_outcome(r: Result<serde_json::Value, String>) -> Result<Tree, Seq<char>> {
    match r {
        Ok(doc) => Ok(doc_tree(doc)),
        Err(message) => Err(message@),
    }
}

/// What a codec's writer returned, as text or a diagnostic.
pub open spec fn write_outcome(r: Result<String, String>) -> Result<Seq<char>, Seq<char>> {
    match r {
        Ok(text) => Ok(text@),
        Err(message) => Err(message@),
    }
}

/// Takes a `serde_json::Value` apart by its variant, an object through
/// `serde_json::Map::into_iter`. The node stands for the same tree; the
/// entries of an object come out in the order in which the object holds
/// them, and since it is a map their keys are pairwise distinct.
#[verifier::external_body]
pub(crate) fn unpack(doc: serde_json::Value) -> (node: Node)
    ensures
        node_tree(node) == doc_tree(doc),
        node_keys_distinct(node),
{
    match doc {
        serde_json::Value::Null => Node::Null,
        serde_json::Value::Bool(b) => Node::Bool(b),
        serde_json::Value::Number(n) => Node::Number(n),
        serde_json::Value::String(s) => Node::String(s),
        serde_json::Value::Array(items) => Node::Sequence(items),
        serde_json::Value::Object(entries) => Node::Mapping(entries.into_iter().collect()),
    }
}

/// Puts a `serde_json::Value` together from one level and its children, an
/// object through `serde_json::Map::from_iter`. Given distinct keys, the
/// object holds every entry, in the order given.
#[verifier::external_body]
pub(crate) fn pack(node: Node) -> (doc: serde_json::Value)
    requires
        node_keys_distinct(node),
    ensures
        doc_tree(doc) == node_tree(node),
{
    match node {
        Node::Null => serde_json::Value::Null,
        Node::Bool(b) => serde_json::Value::Bool(b),
        Node::Number(n) => serde_json::Value::Number(n),
        Node::String(s) => serde_json::Value::String(s),
        Node::Sequence(items) => serde_json::Value::Array(items),
        Node::Mapping(entries) => serde_json::Value::Object(entries.into_iter().collect()),
    }
}

/// The result of `serde_json::from_str` on `text`: the document, or the
/// codec's diagnostic.
pub uninterp spec fn json_parsed(text: Seq<char>) -> Result<Tree, Seq<char>>;

/// The result of `toml::from_str` on `text`.
pub uninterp spec fn toml_parsed(text: Seq<char>) -> Result<Tree, Seq<char>>;

/// The result of `serde_yaml::from_str` on `text`.
pub uninterp spec fn yaml_parsed(text: Seq<char>) -> Result<Tree, Seq<char>>;

/// The result of `ron::from_str` on `text`.
pub uninterp spec fn ron_parsed(text: Seq<char>) -> Result<Tree, Seq<char>>;

/// The result of `serde_xml_rs::from_str` on `text`.
pub uninterp spec fn xml_parsed(text: Seq<char>) -> Result<Tree, Seq<char>>;

/// The result of `serde_urlencoded::from_str` on `text`: the decoded pairs in
/// the order of the text, or the codec's diagnostic.
pub uninterp spec fn url_parsed(text: Seq<char>) -> Result<
    Seq<(Seq<char>, Seq<char>)>,
    Seq<char>,
>;

/// The result of `serde_json::to_string_pretty` on a document.
pub uninterp spec fn json_rendered(tree: Tree) -> Result<Seq<char>, Seq<char>>;

/// The result of `toml::to_string_pretty` on a document.
pub uninterp spec fn toml_rendered(tree: Tree) -> Result<Seq<char>, Seq<char>>;

/// The result of `serde_yaml::to_string` on a document.
pub uninterp spec fn yaml_rendered(tree: Tree) -> Result<Seq<char>, Seq<char>>;

/// The result of `ron::to_string` on a document.
pub uninterp spec fn ron_rendered(tree: Tree) -> Result<Seq<char>, Seq<char>>;

/// The result of `serde_xml_rs::to_string` on a document.
pub uninterp spec fn xml_rendered(tree: Tree) -> Result<Seq<char>, Seq<char>>;

/// The result of `serde_urlencoded::to_string` on a document.
pub uninterp spec fn url_rendered(tree: Tree) -> Result<Seq<char>, Seq<char>>;

/// The pairs that a codec's reader returned, by their views.
pub open spec fn pair_views(pairs: Seq<(String, String)>) -> Seq<(Seq<char>, Seq<char>)> {
    Seq::new(pairs.len(), |i: int| (pairs[i].0@, pairs[i].1@))
}

/// Calls `serde_json::from_str`, which reads `text` as one JSON document. The
/// result depends on `text` alone; an error is turned into its message.
#[verifier::external_body]
pub(crate) fn json_read(text: &str) -> (r: Result<serde_json::Value, String>)
    ensures
        read_outcome(r) == json_parsed(text@),
{
    match serde_json::from_str::<serde_json::Value>(text) {
        Ok(doc) => Ok(doc),
        Err(e) => Err(e.to_string()),
    }
}

/// Calls `toml::from_str`, which reads `text` as one TOML document. The
/// result depends on `text` alone; an error is turned into its message.
#[verifier::external_body]
pub(crate) fn toml_read(text: &str) -> (r: Result<serde_json::Value, String>)
    ensures
        read_outcome(r) == toml_parsed(text@),
{
    match toml::from_str::<serde_json::Value>(text) {
        Ok(doc) => Ok(doc),
        Err(e) => Err(e.to_string()),
    }
}

/// Calls `serde_yaml::from_str`, which reads `text` as one YAML document. The
/// result depends on `text` alone; an error is turned into its message.
#[verifier::external_body]
pub(crate) fn yaml_read(text: &str) -> (r: Result<serde_json::Value, String>)
    ensures
        read_outcome(r) == yaml_parsed(text@),
{
    match serde_yaml::from_str::<serde_json::Value>(text) {
        Ok(doc) => Ok(doc),
        Err(e) => Err(e.to_string()),
    }
}

/// Calls `ron::from_str`, which reads `text` as one RON value. The result
/// depends on `text` alone; an error is turned into its message.
#[verifier::external_body]
pub(crate) fn ron_read(text: &str) -> (r: Result<serde_json::Value, String>)
    ensures
        read_outcome(r) == ron_parsed(text@),
{
    match ron::from_str::<serde_json::Value>(text) {
        Ok(doc) => Ok(doc),
        Err(e) => Err(e.to_string()),
    }
}

/// Calls `serde_xml_rs::from_str`, which reads `text` as one XML element: its
/// attributes and child elements become the entries of a mapping, text
/// becomes the entry `$value`. The result depends on `text` alone; an error
/// is turned into its message.
#[verifier::external_body]
pub(crate) fn xml_read(text: &str) -> (r: Result<serde_json::Value, String>)
    ensures
        read_outcome(r) == xml_parsed(text@),
{
    match serde_xml_rs::from_str::<serde_json::Value>(text) {
        Ok(doc) => Ok(doc),
        Err(e) => Err(e.to_string()),
    }
}

/// Calls `serde_urlencoded::from_str`, which splits `text` into its pairs and
/// decodes each. The result depends on `text` alone; an error is turned into
/// its message.
#[verifier::external_body]
pub(crate) fn url_read(text: &str) -> (r: Result<Vec<(String, String)>, String>)
    ensures
        url_parsed(text@) == match r {
            Ok(pairs) => Ok(pair_views(pairs@)),
            Err(message) => Err(message@),
        },
{
    match serde_urlencoded::from_str::<Vec<(String, String)>>(text) {
        Ok(pairs) => Ok(pairs),
        Err(e) => Err(e.to_string()),
    }
}

/// Calls `serde_json::to_string_pretty`, which writes a document as indented
/// JSON. The result depends on the document alone.
#[verifier::external_body]
pub(crate) fn json_write(doc: &serde_json::Value) -> (r: Result<String, String>)
    ensures
        write_outcome(r) == json_rendered(doc_tree(*doc)),
{
    match serde_json::to_string_pretty(doc) {
        Ok(text) => Ok(text),
        Err(e) => Err(e.to_string()),
    }
}

/// Calls `toml::to_string_pretty`, which writes a document as TOML laid out
/// for reading. The result depends on the document alone.
#[verifier::external_body]
pub(crate) fn toml_write(doc: &serde_json::Value) -> (r: Result<String, String>)
    ensures
        write_outcome(r) == toml_rendered(doc_tree(*doc)),
{
    match toml::to_string_pretty(doc) {
        Ok(text) => Ok(text),
        Err(e) => Err(e.to_string()),
    }
}

/// Calls `serde_yaml::to_string`, which writes a document as YAML. The result
/// depends on the document alone.
#[verifier::external_body]
pub(crate) fn yaml_write(doc: &serde_json::Value) -> (r: Result<String, String>)
    ensures
        write_outcome(r) == yaml_rendered(doc_tree(*doc)),
{
    match serde_yaml::to_string(doc) {
        Ok(text) => Ok(text),
        Err(e) => Err(e.to_string()),
    }
}

/// Calls `ron::to_string`, which writes a document as compact RON. The result
/// depends on the document alone.
#[verifier::external_body]
pub(crate) fn ron_write(doc: &serde_json::Value) -> (r: Result<String, String>)
    ensures
        write_outcome(r) == ron_rendered(doc_tree(*doc)),
{
    match ron::to_string(doc) {
        Ok(text) => Ok(text),
        Err(e) => Err(e.to_string()),
    }
}

/// Calls `serde_xml_rs::to_string`, which writes a document as XML elements
/// named by its keys. The keys of a document are strings, which is the one
/// kind of key that this codec writes. The result depends on the document
/// alone.
#[verifier::external_body]
pub(crate) fn xml_write(doc: &serde_json::Value) -> (r: Result<String, String>)
    ensures
        write_outcome(r) == xml_rendered(doc_tree(*doc)),
{
    match serde_xml_rs::to_string(doc) {
        Ok(text) => Ok(text),
        Err(e) => Err(e.to_string()),
    }
}

/// Calls `serde_urlencoded::to_string`, which writes a document as form data.
/// The result depends on the document alone.
#[verifier::external_body]
pub(crate) fn url_write(doc: &serde_json::Value) -> (r: Result<String, String>)
    ensures
        write_outcome(r) == url_rendered(doc_tree(*doc)),
{
    match serde_urlencoded::to_string(doc) {
        Ok(text) => Ok(text),
        Err(e) => Err(e.to_string()),
    }
}

} // verus!
