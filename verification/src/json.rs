//! The document, as far as the engine reads it.
//!
//! A document is a `serde_json::Value`. The engine never looks inside one by
//! itself: it finds a member by name and reads a node's type, text and number
//! through the small functions below, whose contracts are taken on trust.
//! What they hand back is collected in a `Reading`, on which the checks work.
use vstd::prelude::*;

verus! {

/// `serde_json::Value`, carried through the verified code as an opaque value.
#[verifier::external_type_specification]
#[verifier::external_body]
pub struct ExValue(serde_json::Value);

/// The dynamic type of a document node.
#[derive(Clone, Copy, Debug, PartialEq, Eq, Structural)]
pub enum Kind {
    Null,
    Boolean,
    Number,
    Text,
    Array,
    Object,
}

/// What `Value::get` with a string key returns: the member of that name when
/// the node is an object that has one.
pub uninterp spec fn member(doc: serde_json::Value, key: Seq<char>) -> Option<serde_json::Value>;

/// Which variant of `serde_json::Value` a node is.
pub uninterp spec fn kind_of(node: serde_json::Value) -> Kind;

/// The compact JSON text that `Value`'s `Display` writes for a node.
pub uninterp spec fn text_of(node: serde_json::Value) -> Seq<char>;

/// What `Value::as_i64` returns for a node.
pub uninterp spec fn integer_of(node: serde_json::Value) -> Option<i64>;

/// The IEEE 754 bit pattern of what `Value::as_f64` returns for a node.
pub uninterp spec fn double_bits_of(node: serde_json::Value) -> Option<u64>;

/// Calls `serde_json::Value::get` with a string key. The contract only names
/// the result: it is the member that the call finds, or `None`.
#[verifier::external_body]
pub(crate) fn get_member<'a>(doc: &'a serde_json::Value, key: &str) -> (found: Option<&'a serde_json::Value>)
    ensures
        match found {
            Some(node) => member(*doc, key@) == Some(*node),
            None => member(*doc, key@).is_none(),
        },
{
    doc.get(key)
}

/// Tells the variants of `serde_json::Value` apart, one arm for each, which is
/// what `is_null`, `is_boolean`, `is_number`, `is_string` and `is_array` ask.
/// The contract only names the result.
#[verifier::external_body]
pub(crate) fn node_kind(node: &serde_json::Value) -> (kind: Kind)
    ensures
        kind == kind_of(*node),
{
    match node {
        serde_json::Value::Null => Kind::Null,
        serde_json::Value::Bool(_) => Kind::Boolean,
        serde_json::Value::Number(_) => Kind::Number,
        serde_json::Value::String(_) => Kind::Text,
        serde_json::Value::Array(_) => Kind::Array,
        serde_json::Value::Object(_) => Kind::Object,
    }
}

/// Calls `to_string` on a `serde_json::Value`, which writes the node as
/// compact JSON. The contract only names the text.
#[verifier::external_body]
pub(crate) fn node_text(node: &serde_json::Value) -> (text: String)
    ensures
        text@ == text_of(*node),
{
    node.to_string()
}

/// Calls `serde_json::Value::as_i64`. The contract only names the result.
#[verifier::external_body]
pub(crate) fn node_integer(node: &serde_json::Value) -> (value: Option<i64>)
    ensures
        value == integer_of(*node),
{
    node.as_i64()
}

/// Calls `serde_json::Value::as_f64` and hands the number back as its bit
/// pattern. The contract only names the result.
#[verifier::external_body]
pub(crate) fn node_double_bits(node: &serde_json::Value) -> (bits: Option<u64>)
    ensures
        bits == double_bits_of(*node),
{
    match node.as_f64() {
        Some(number) => Some(number.to_bits()),
        None => None,
    }
}


/// What the engine reads of one node, as plain values.
pub struct Reading {
    /// The node's dynamic type.
    pub kind: Kind,
    /// The node written as compact JSON.
    pub text: String,
    /// The node as a signed integer, where it is one.
    pub integer: Option<i64>,
    /// The node as a double, by its bit pattern, where it is a number.
    pub double_bits: Option<u64>,
}

/// The mathematical value of a `Reading`.
pub ghost struct Facts {
    pub kind: Kind,
    pub text: Seq<char>,
    pub integer: Option<i64>,
    pub double_bits: Option<u64>,
}

impl View for Reading {
    type V = Facts;

    open spec fn view(&self) -> Facts {
        Facts {
            kind: self.kind,
            text: self.text@,
            integer: self.integer,
            double_bits: self.double_bits,
        }
    }
}

/// The value of a reading that may be missing.
pub open spec fn seen(reading: Option<Reading>) -> Option<Facts> {
    match reading {
        Some(r) => Some(r@),
        None => None,
    }
}

/// Everything the engine reads of a node.
pub open spec fn facts_of(node: serde_json::Value) -> Facts {
    Facts {
        kind: kind_of(node),
        text: text_of(node),
        integer: integer_of(node),
        double_bits: double_bits_of(node),
    }
}

/// What the engine reads of the member `key` of a document, if there is one.
pub open spec fn lookup(doc: serde_json::Value, key: Seq<char>) -> Option<Facts> {
    match member(doc, key) {
        Some(node) => Some(facts_of(node)),
        None => None,
    }
}

/// Reads a node.
pub fn read_node(node: &serde_json::Value) -> (reading: Reading)
    ensures
        reading@ == facts_of(*node),
{
    Reading {
        kind: node_kind(node),
        text: node_text(node),
        integer: node_integer(node),
        double_bits: node_double_bits(node),
    }
}

/// Reads the member `key` of a document.
pub fn read_field(doc: &serde_json::Value, key: &str) -> (reading: Option<Reading>)
    ensures
        seen(reading) == lookup(*doc, key@),
{
    match get_member(doc, key) {
        Some(node) => Some(read_node(node)),
        None => None,
    }
}

} // verus!
