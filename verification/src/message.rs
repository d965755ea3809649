//! The message serializer: JSON text to host values and JSON trees to text,
//! over one byte buffer that is reused from call to call.

use vstd::prelude::*;
use vstd::utf8::{decode_utf8, encode_utf8_decode_utf8, encode_utf8_valid_utf8, valid_utf8};
use crate::bridge::{bridge, bridgeable, bridged, gives, json_value_to_js};
use crate::buffer::{
    buffer_capacity, buffer_clear, buffer_shrink_to, buffer_with_capacity, kept_capacity,
    write_into,
};
use crate::error::CodecError;
use crate::host::HostValue;
use crate::json::{
    compact_string, json_compact, json_parse, json_pretty, json_tree, parse_value, pretty_string,
    text_from_utf8, JsonTree,
};

verus! {

/// The capacity, in bytes, that a message serializer's buffer is made with and
/// reset to.
pub const MESSAGE_BUFFER_FLOOR: usize = 4096;

/// Whether `r` is what serializing `tree` compactly gives: the text that the
/// writer's bytes encode; `Encoding` where those bytes are not UTF-8; the
/// writer's own fault where it fails.
pub open spec fn is_compact_text(r: Result<String, CodecError>, tree: JsonTree) -> bool {
    match json_compact(tree) {
        Ok(bytes) => if valid_utf8(bytes) {
            r matches Ok(text) && text@ == decode_utf8(bytes)
        } else {
            r == Err::<String, CodecError>(CodecError::Encoding)
        },
        Err(fault) => r matches Err(e) && e.is_write_of(fault),
    }
}

/// Whether `r` is what serializing `tree` with indentation gives.
pub open spec fn is_pretty_text(r: Result<String, CodecError>, tree: JsonTree) -> bool {
    match json_pretty(tree) {
        Ok(pretty) => r matches Ok(text) && text@ == pretty,
        Err(fault) => r matches Err(e) && e.is_write_of(fault),
    }
}

/// Whether `r` is the size of the compact serialization of `tree`, or the
/// writer's fault.
pub open spec fn is_compact_size(r: Result<usize, CodecError>, tree: JsonTree) -> bool {
    match json_compact(tree) {
        Ok(bytes) => r == Ok::<usize, CodecError>(bytes.len() as usize) && bytes.len()
            <= usize::MAX,
        Err(fault) => r matches Err(e) && e.is_write_of(fault),
    }
}

/// Whether `r` is what deserializing `text` gives: the parser's fault where
/// the text is not JSON, else the bridged tree or `InvalidNumber`.
pub open spec fn is_decoded(r: Result<HostValue, CodecError>, text: Seq<char>) -> bool {
    match json_parse(text) {
        Ok(tree) => gives(r, bridge(tree)),
        Err(fault) => r matches Err(e) && e.is_parse_of(fault),
    }
}

/// The text decodes: it is JSON, and every number in it has a host number.
pub open spec fn decodes(text: Seq<char>) -> bool {
    json_parse(text) matches Ok(tree) && bridgeable(tree)
}

/// An element of a batch decodes: it is a text, and the text decodes.
pub open spec fn element_decodes(element: Option<String>) -> bool {
    element matches Some(text) && decodes(text@)
}

/// Whether `e` is the error that the element at `index` of a batch fails
/// with: `BatchElementType` where it is no text, else what deserializing
/// its text fails with.
pub open spec fn is_element_error(e: CodecError, index: int, element: Option<String>) -> bool {
    match element {
        None => e matches CodecError::BatchElementType { index: at } && at == index,
        Some(text) => match json_parse(text@) {
            Ok(tree) => !bridgeable(tree) && e == CodecError::InvalidNumber,
            Err(fault) => e.is_parse_of(fault),
        },
    }
}

/// Whether `r` is what deserializing a batch gives: one host value for each
/// element, in order, where every element decodes; else the error of the
/// first element that does not, and no values.
pub open spec fn is_decoded_batch(
    r: Result<Vec<HostValue>, CodecError>,
    elements: Seq<Option<String>>,
) -> bool {
    match r {
        Ok(values) => {
            &&& values@.len() == elements.len()
            &&& forall|i: int|
                0 <= i < elements.len() ==> element_decodes(#[trigger] elements[i])
                    && values@[i]@ == bridged(json_parse(elements[i]->0@)->Ok_0)
        },
        Err(e) => exists|k: int|
            {
                &&& 0 <= k < elements.len()
                &&& forall|i: int| 0 <= i < k ==> element_decodes(#[trigger] elements[i])
                &&& !element_decodes(#[trigger] elements[k])
                &&& is_element_error(e, k, elements[k])
            },
    }
}

/// Deserializes one JSON text into a host value.
pub fn decode_text(text: &str) -> (r: Result<HostValue, CodecError>)
    ensures
        is_decoded(r, text@),
{
    match parse_value(text) {
        Ok(value) => json_value_to_js(&value),
        Err(error) => Err(CodecError::parse(&error)),
    }
}

/// Serializes a JSON tree into compact text, without a buffer to reuse.
pub fn encode_text(value: &serde_json::Value) -> (r: Result<String, CodecError>)
    ensures
        is_compact_text(r, json_tree(*value)),
{
    match compact_string(value) {
        Ok(text) => {
            proof {
                encode_utf8_decode_utf8(text@);
                encode_utf8_valid_utf8(text@);
            }
            Ok(text)
        },
        Err(error) => Err(CodecError::write(&error)),
    }
}

/// Decodes the bytes that a writer left in a buffer.
pub fn buffer_text(buffer: &Vec<u8>) -> (r: Result<String, CodecError>)
    ensures
        if valid_utf8(buffer@) {
            r matches Ok(text) && text@ == decode_utf8(buffer@)
        } else {
            r == Err::<String, CodecError>(CodecError::Encoding)
        },
{
    let bytes = buffer.clone();
    assert(bytes@ =~= buffer@);
    match text_from_utf8(bytes) {
        Ok(text) => Ok(text),
        Err(_) => Err(CodecError::Encoding),
    }
}

/// A serializer for messages. Its buffer is cleared before each write and
/// keeps its capacity from call to call; only `clear_buffer` gives memory
/// back, down to the floor.
pub struct MessageSerializer {
    buffer: Vec<u8>,
}

impl MessageSerializer {
    #[verifier::type_invariant]
    spec fn keeps_floor(self) -> bool {
        kept_capacity(self.buffer) >= MESSAGE_BUFFER_FLOOR
    }

    /// The bytes that the buffer holds.
    pub closed spec fn buffered(self) -> Seq<u8> {
        self.buffer@
    }

    /// A serializer with an empty buffer of the floor capacity.
    pub fn new() -> (serializer: Self)
        ensures
            serializer.buffered() == Seq::<u8>::empty(),
    {
        MessageSerializer { buffer: buffer_with_capacity(MESSAGE_BUFFER_FLOOR) }
    }

    /// Serializes a JSON tree into compact text through the buffer, which
    /// afterwards holds the bytes of that text.
    pub fn serialize_message(&mut self, value: &serde_json::Value) -> (r: Result<
        String,
        CodecError,
    >)
        ensures
            is_compact_text(r, json_tree(*value)),
            json_compact(json_tree(*value)) matches Ok(bytes) ==> final(self).buffered() == bytes,
    {
        proof {
            use_type_invariant(&*self);
        }
        match write_into(&mut self.buffer, value) {
            Ok(_) => buffer_text(&self.buffer),
            Err(error) => Err(CodecError::write(&error)),
        }
    }

    /// Deserializes one JSON text into a host value. The buffer is not used.
    pub fn deserialize_message(&self, json_str: &str) -> (r: Result<HostValue, CodecError>)
        ensures
            is_decoded(r, json_str@),
    {
        decode_text(json_str)
    }

    /// Deserializes the elements of a batch in order and stops at the first
    /// that fails: one that is no text, or whose text does not decode.
    pub fn batch_deserialize(&self, json_strings: Vec<Option<String>>) -> (r: Result<
        Vec<HostValue>,
        CodecError,
    >)
        ensures
            is_decoded_batch(r, json_strings@),
    {
        let mut results: Vec<HostValue> = Vec::with_capacity(json_strings.len());
        let mut i: usize = 0;
        while i < json_strings.len()
            invariant
                i <= json_strings@.len(),
                results@.len() == i,
                forall|j: int|
                    0 <= j < i ==> element_decodes(#[trigger] json_strings@[j]) && results@[j]@
                        == bridged(json_parse(json_strings@[j]->0@)->Ok_0),
            decreases json_strings@.len() - i,
        {
            match &json_strings[i] {
                None => {
                    return Err(CodecError::BatchElementType { index: i });
                },
                Some(text) => {
                    match decode_text(text.as_str()) {
                        Ok(value) => {
                            results.push(value);
                        },
                        Err(e) => {
                            return Err(e);
                        },
                    }
                },
            }
            i += 1;
        }
        Ok(results)
    }

    /// Whether `json_str` is JSON. Never fails.
    pub fn is_valid_json(&self, json_str: &str) -> (valid: bool)
        ensures
            valid == json_parse(json_str@) is Ok,
    {
        parse_value(json_str).is_ok()
    }

    /// The number of bytes of the compact serialization of a JSON tree,
    /// written through the buffer.
    pub fn estimate_size(&mut self, value: &serde_json::Value) -> (r: Result<usize, CodecError>)
        ensures
            is_compact_size(r, json_tree(*value)),
            json_compact(json_tree(*value)) matches Ok(bytes) ==> final(self).buffered() == bytes,
    {
        proof {
            use_type_invariant(&*self);
        }
        match write_into(&mut self.buffer, value) {
            Ok(_) => Ok(self.buffer.len()),
            Err(error) => Err(CodecError::write(&error)),
        }
    }

    /// The same as `serialize_message`: compact is the only mode of the
    /// buffered writer.
    pub fn serialize_compact(&mut self, value: &serde_json::Value) -> (r: Result<
        String,
        CodecError,
    >)
        ensures
            is_compact_text(r, json_tree(*value)),
            json_compact(json_tree(*value)) matches Ok(bytes) ==> final(self).buffered() == bytes,
    {
        self.serialize_message(value)
    }

    /// Serializes a JSON tree into indented text. The buffer is not used.
    pub fn serialize_pretty(&self, value: &serde_json::Value) -> (r: Result<String, CodecError>)
        ensures
            is_pretty_text(r, json_tree(*value)),
    {
        match pretty_string(value) {
            Ok(text) => Ok(text),
            Err(error) => Err(CodecError::write(&error)),
        }
    }

    /// Empties the buffer and gives back what it holds above the floor.
    pub fn clear_buffer(&mut self)
        ensures
            final(self).buffered() == Seq::<u8>::empty(),
    {
        proof {
            use_type_invariant(&*self);
        }
        buffer_clear(&mut self.buffer);
        buffer_shrink_to(&mut self.buffer, MESSAGE_BUFFER_FLOOR);
    }

    /// The capacity of the buffer, which is never below the floor.
    pub fn get_buffer_capacity(&self) -> (capacity: usize)
        ensures
            capacity >= MESSAGE_BUFFER_FLOOR,
            capacity >= self.buffered().len(),
    {
        proof {
            use_type_invariant(self);
        }
        buffer_capacity(&self.buffer)
    }
}

/// Serializes a JSON tree into compact text, with no serializer at hand.
pub fn quick_serialize(value: &serde_json::Value) -> (r: Result<String, CodecError>)
    ensures
        is_compact_text(r, json_tree(*value)),
{
    encode_text(value)
}

/// Deserializes one JSON text into a host value, with no serializer at hand.
pub fn quick_deserialize(json_str: &str) -> (r: Result<HostValue, CodecError>)
    ensures
        is_decoded(r, json_str@),
{
    decode_text(json_str)
}

} // verus!
