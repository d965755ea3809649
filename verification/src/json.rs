//! The boundary to `serde_json`: its types as Verus sees them, the
//! mathematical model of a JSON tree, and the calls into the crate.
//!
//! Everything in this module that is marked `external_body` is believed, not
//! proved. Each such item says which function of `serde_json` (or of `std`) it
//! stands for and what it claims of it.

use vstd::prelude::*;
use vstd::utf8::*;
use crate::buffer::kept_capacity;

verus! {

/// `serde_json::Value`, opaque to the verifier; [`json_tree`] names what it holds.
#[verifier::external_type_specification]
#[verifier::external_body]
pub struct ExValue(serde_json::Value);

/// `serde_json::Number`, opaque to the verifier; [`number_of`] names what it holds.
#[verifier::external_type_specification]
#[verifier::external_body]
pub struct ExNumber(serde_json::Number);

/// `serde_json::Map`, opaque to the verifier; [`map_entries`] names what it holds.
#[verifier::external_type_specification]
#[verifier::external_body]
#[verifier::reject_recursive_types(K)]
#[verifier::reject_recursive_types(V)]
pub struct ExMap<K, V>(serde_json::Map<K, V>);

/// `serde_json::Error`, opaque to the verifier; [`fault_of`] names what it reports.
#[verifier::external_type_specification]
#[verifier::external_body]
pub struct ExError(serde_json::Error);

/// `std::string::FromUtf8Error`, carried through and never looked into.
#[verifier::external_type_specification]
#[verifier::external_body]
pub struct ExFromUtf8Error(std::string::FromUtf8Error);

/// A JSON number: an integer between `i64::MIN` and `u64::MAX`, or the bit
/// pattern of a finite double.
pub enum JsonNumber {
    Integer(int),
    Double(u64),
}

/// A JSON document as a tree. An object lists its members in insertion order.
pub enum JsonTree {
    Null,
    Bool(bool),
    Number(JsonNumber),
    String(Seq<char>),
    Array(Seq<JsonTree>),
    Object(Seq<(Seq<char>, JsonTree)>),
}

/// What a `serde_json::Error` reports: where the fault was met and its text.
pub struct JsonFault {
    pub line: nat,
    pub column: nat,
    pub message: Seq<char>,
}

/// The tree that a `serde_json::Value` holds.
pub uninterp spec fn json_tree(value: serde_json::Value) -> JsonTree;

/// The number that a `serde_json::Number` holds.
pub uninterp spec fn number_of(number: serde_json::Number) -> JsonNumber;

/// The members of a `serde_json::Map`, in the order in which it walks them.
pub uninterp spec fn map_entries(map: serde_json::Map<String, serde_json::Value>) -> Seq<
    (Seq<char>, JsonTree),
>;

/// The line, column and text of a `serde_json::Error`.
pub uninterp spec fn fault_of(error: serde_json::Error) -> JsonFault;

/// What `serde_json::from_str` makes of a text: the tree, or the fault.
pub uninterp spec fn json_parse(text: Seq<char>) -> Result<JsonTree, JsonFault>;

/// The bytes that `serde_json`'s compact writer emits for a tree, or its fault.
pub uninterp spec fn json_compact(tree: JsonTree) -> Result<Seq<u8>, JsonFault>;

/// The text that `serde_json`'s indenting writer emits for a tree, or its fault.
pub uninterp spec fn json_pretty(tree: JsonTree) -> Result<Seq<char>, JsonFault>;

/// The bit pattern of the double that `serde_json::Number::as_f64` gives for a
/// number, if it gives one.
pub uninterp spec fn number_double(number: JsonNumber) -> Option<u64>;

/// The integer that a number is, where it fits in an `i64`.
pub open spec fn number_integer(number: JsonNumber) -> Option<i64> {
    match number {
        JsonNumber::Integer(i) => if i64::MIN <= i <= i64::MAX {
            Some(i as i64)
        } else {
            None
        },
        JsonNumber::Double(_) => None,
    }
}

/// The trees of a sequence of values, one for one.
pub open spec fn json_trees(values: Seq<serde_json::Value>) -> Seq<JsonTree> {
    Seq::new(values.len(), |i: int| json_tree(values[i]))
}

/// One level of a `serde_json::Value`: its variant, with what the variant holds
/// still behind a reference.
pub enum JsonNode<'a> {
    Null,
    Bool(bool),
    Number(&'a serde_json::Number),
    String(&'a String),
    Array(&'a Vec<serde_json::Value>),
    Object(&'a serde_json::Map<String, serde_json::Value>),
}

impl<'a> JsonNode<'a> {
    /// The tree that this level stands for.
    pub open spec fn tree(self) -> JsonTree {
        match self {
            JsonNode::Null => JsonTree::Null,
            JsonNode::Bool(b) => JsonTree::Bool(b),
            JsonNode::Number(n) => JsonTree::Number(number_of(*n)),
            JsonNode::String(s) => JsonTree::String(s@),
            JsonNode::Array(items) => JsonTree::Array(json_trees(items@)),
            JsonNode::Object(map) => JsonTree::Object(map_entries(*map)),
        }
    }
}

/// Tells the six variants of `serde_json::Value` apart. Claims that the
/// value's tree is the variant found, over what that variant holds.
#[verifier::external_body]
pub(crate) fn inspect<'a>(value: &'a serde_json::Value) -> (node: JsonNode<'a>)
    ensures
        json_tree(*value) == node.tree(),
{
    match value {
        serde_json::Value::Null => JsonNode::Null,
        serde_json::Value::Bool(b) => JsonNode::Bool(*b),
        serde_json::Value::Number(n) => JsonNode::Number(n),
        serde_json::Value::String(s) => JsonNode::String(s),
        serde_json::Value::Array(items) => JsonNode::Array(items),
        serde_json::Value::Object(map) => JsonNode::Object(map),
    }
}

/// `serde_json::Map::iter`, collected. Claims that the map hands out exactly
/// its members, in its own order, and that no key occurs twice.
#[verifier::external_body]
pub(crate) fn map_items<'a>(map: &'a serde_json::Map<String, serde_json::Value>) -> (items: Vec<
    (&'a String, &'a serde_json::Value),
>)
    ensures
        items@.len() == map_entries(*map).len(),
        forall|i: int|
            0 <= i < items@.len() ==> (#[trigger] items@[i]).0@ == map_entries(*map)[i].0
                && json_tree(*items@[i].1) == map_entries(*map)[i].1,
        forall|i: int, j: int|
            0 <= i < j < items@.len() ==> (#[trigger] items@[i]).0@ != (#[trigger] items@[j]).0@,
{
    map.iter().collect()
}

/// `serde_json::Number::as_i64`. Claims that it gives the integer exactly
/// when the number is an integer that fits in an `i64`.
#[verifier::external_body]
pub(crate) fn number_as_integer(number: &serde_json::Number) -> (r: Option<i64>)
    ensures
        r == number_integer(number_of(*number)),
{
    number.as_i64()
}

/// `serde_json::Number::as_f64`, the double handed on as its bit pattern.
/// Claims that a number held as a double comes back unchanged; what an
/// integer becomes is only named.
#[verifier::external_body]
pub(crate) fn number_as_double(number: &serde_json::Number) -> (r: Option<u64>)
    ensures
        r == number_double(number_of(*number)),
        number_of(*number) matches JsonNumber::Double(bits) ==> r == Some(bits),
{
    number.as_f64().map(|d| d.to_bits())
}

/// `serde_json::from_str` at `serde_json::Value`. Claims only that the
/// outcome is a function of the text.
#[verifier::external_body]
pub(crate) fn parse_value(text: &str) -> (r: Result<serde_json::Value, serde_json::Error>)
    ensures
        match r {
            Ok(value) => json_parse(text@) == Ok::<JsonTree, JsonFault>(json_tree(value)),
            Err(error) => json_parse(text@) == Err::<JsonTree, JsonFault>(fault_of(error)),
        },
{
    serde_json::from_str::<serde_json::Value>(text)
}

/// `serde_json::to_writer` into a byte vector. Claims that on success the
/// tree's compact bytes were appended to what the vector held, and that the
/// vector keeps its capacity floor either way, since a vector that is written
/// to never shrinks; on failure nothing is said of its contents.
#[verifier::external_body]
pub(crate) fn write_compact(buffer: &mut Vec<u8>, value: &serde_json::Value) -> (r: Result<
    (),
    serde_json::Error,
>)
    ensures
        kept_capacity(*final(buffer)) == kept_capacity(*old(buffer)),
        match r {
            Ok(_) => json_compact(json_tree(*value)) matches Ok(bytes) && final(buffer)@ == old(
                buffer,
            )@ + bytes,
            Err(error) => json_compact(json_tree(*value)) == Err::<Seq<u8>, JsonFault>(
                fault_of(error),
            ),
        },
    no_unwind
{
    serde_json::to_writer(buffer, value)
}

/// `serde_json::to_string`. Claims that it gives the compact bytes of the
/// tree, which it writes with the same writer as `to_writer`, as text.
#[verifier::external_body]
pub(crate) fn compact_string(value: &serde_json::Value) -> (r: Result<String, serde_json::Error>)
    ensures
        match r {
            Ok(text) => json_compact(json_tree(*value)) == Ok::<Seq<u8>, JsonFault>(
                encode_utf8(text@),
            ),
            Err(error) => json_compact(json_tree(*value)) == Err::<Seq<u8>, JsonFault>(
                fault_of(error),
            ),
        },
{
    serde_json::to_string(value)
}

/// `serde_json::to_string_pretty`. Claims only that the outcome is a
/// function of the tree.
#[verifier::external_body]
pub(crate) fn pretty_string(value: &serde_json::Value) -> (r: Result<String, serde_json::Error>)
    ensures
        match r {
            Ok(text) => json_pretty(json_tree(*value)) == Ok::<Seq<char>, JsonFault>(text@),
            Err(error) => json_pretty(json_tree(*value)) == Err::<Seq<char>, JsonFault>(
                fault_of(error),
            ),
        },
{
    serde_json::to_string_pretty(value)
}

/// `serde_json::Error::line`.
#[verifier::external_body]
pub(crate) fn error_line(error: &serde_json::Error) -> (line: usize)
    ensures
        line == fault_of(*error).line,
{
    error.line()
}

/// `serde_json::Error::column`.
#[verifier::external_body]
pub(crate) fn error_column(error: &serde_json::Error) -> (column: usize)
    ensures
        column == fault_of(*error).column,
{
    error.column()
}

/// The `Display` text of a `serde_json::Error`.
#[verifier::external_body]
pub(crate) fn error_message(error: &serde_json::Error) -> (message: String)
    ensures
        message@ == fault_of(*error).message,
{
    error.to_string()
}

/// `String::from_utf8`. Claims that it succeeds exactly on valid UTF-8 and
/// then gives the text that the bytes encode.
#[verifier::external_body]
pub(crate) fn text_from_utf8(bytes: Vec<u8>) -> (r: Result<String, std::string::FromUtf8Error>)
    ensures
        r is Ok <==> valid_utf8(bytes@),
        r matches Ok(text) ==> text@ == decode_utf8(bytes@),
{
    String::from_utf8(bytes)
}

} // verus!
