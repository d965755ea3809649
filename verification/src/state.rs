//! The state serializer: the same codec, sized for larger snapshots, with a
//! reserved compression flag and a byte-for-byte change check.

use vstd::prelude::*;
use vstd::slice::slice_to_vec;
use vstd::string::StringSliceAdditionalSpecFns;
use vstd::utf8::valid_utf8;
use crate::buffer::{
    buffer_capacity, buffer_clear, buffer_shrink_to, buffer_with_capacity, kept_capacity,
    write_into,
};
use crate::error::CodecError;
use crate::host::HostValue;
use crate::json::{json_compact, json_tree, json_trees, JsonTree};
use crate::message::{
    decode_text, encode_text, is_compact_size, is_compact_text, is_decoded,
};
use crate::text::same_text;

verus! {

/// The capacity, in bytes, that a state serializer's buffer is made with and
/// reset to.
pub const STATE_BUFFER_FLOOR: usize = 8192;

/// The tree serializes: the writer succeeds and its bytes are UTF-8.
pub open spec fn encodes(tree: JsonTree) -> bool {
    json_compact(tree) matches Ok(bytes) && valid_utf8(bytes)
}

/// Whether `r` is what serializing a batch of states gives: one text for each
/// state, in order, where every state serializes; else the error of the first
/// state that does not, and no texts.
pub open spec fn is_encoded_batch(r: Result<Vec<String>, CodecError>, trees: Seq<JsonTree>) -> bool {
    match r {
        Ok(texts) => {
            &&& texts@.len() == trees.len()
            &&& forall|i: int|
                0 <= i < trees.len() ==> is_compact_text(
                    Ok::<String, CodecError>(#[trigger] texts@[i]),
                    trees[i],
                )
        },
        Err(e) => exists|k: int|
            {
                &&& 0 <= k < trees.len()
                &&& forall|i: int| 0 <= i < k ==> encodes(#[trigger] trees[i])
                &&& !encodes(#[trigger] trees[k])
                &&& is_compact_text(Err::<String, CodecError>(e), trees[k])
            },
    }
}

/// A serializer for state snapshots. The compression flag is carried and has
/// no effect: compressing and decompressing hand their input back.
pub struct StateSerializer {
    buffer: Vec<u8>,
    compression_enabled: bool,
}

impl StateSerializer {
    #[verifier::type_invariant]
    spec fn keeps_floor(self) -> bool {
        kept_capacity(self.buffer) >= STATE_BUFFER_FLOOR
    }

    /// The bytes that the buffer holds.
    pub closed spec fn buffered(self) -> Seq<u8> {
        self.buffer@
    }

    /// The compression flag that the serializer was made with.
    pub closed spec fn compression(self) -> bool {
        self.compression_enabled
    }

    /// A serializer with an empty buffer of the floor capacity, carrying the
    /// flag.
    pub fn new(enable_compression: bool) -> (serializer: Self)
        ensures
            serializer.buffered() == Seq::<u8>::empty(),
            serializer.compression() == enable_compression,
    {
        StateSerializer {
            buffer: buffer_with_capacity(STATE_BUFFER_FLOOR),
            compression_enabled: enable_compression,
        }
    }

    /// The compression flag.
    pub fn is_compression_enabled(&self) -> (enabled: bool)
        ensures
            enabled == self.compression(),
    {
        self.compression_enabled
    }

    /// Serializes a state into compact text. Neither the buffer nor the flag
    /// takes part.
    pub fn serialize_state(&mut self, value: &serde_json::Value) -> (r: Result<String, CodecError>)
        ensures
            is_compact_text(r, json_tree(*value)),
            *final(self) == *old(self),
    {
        encode_text(value)
    }

    /// Deserializes one JSON text into a host value.
    pub fn deserialize_state(&self, json_str: &str) -> (r: Result<HostValue, CodecError>)
        ensures
            is_decoded(r, json_str@),
    {
        decode_text(json_str)
    }

    /// Serializes the states of a batch in order and stops at the first that
    /// fails.
    pub fn batch_serialize_states(&mut self, states: Vec<serde_json::Value>) -> (r: Result<
        Vec<String>,
        CodecError,
    >)
        ensures
            is_encoded_batch(r, json_trees(states@)),
            *final(self) == *old(self),
    {
        let ghost trees = json_trees(states@);
        let mut results: Vec<String> = Vec::with_capacity(states.len());
        let mut i: usize = 0;
        while i < states.len()
            invariant
                i <= states@.len(),
                trees == json_trees(states@),
                results@.len() == i,
                *self == *old(self),
                forall|j: int|
                    0 <= j < i ==> is_compact_text(
                        Ok::<String, CodecError>(#[trigger] results@[j]),
                        trees[j],
                    ),
                forall|j: int| 0 <= j < i ==> encodes(#[trigger] trees[j]),
            decreases states@.len() - i,
        {
            assert(trees[i as int] == json_tree(states@[i as int]));
            match self.serialize_state(&states[i]) {
                Ok(text) => {
                    results.push(text);
                },
                Err(e) => {
                    return Err(e);
                },
            }
            i += 1;
        }
        Ok(results)
    }

    /// Whether two serialized states are the same, byte for byte. Two texts
    /// that differ are unequal even where they describe the same structure.
    pub fn states_equal(&self, state1: &str, state2: &str) -> (equal: bool)
        ensures
            equal == (state1@ == state2@),
            equal == (state1.spec_bytes() == state2.spec_bytes()),
    {
        same_text(state1, state2)
    }

    /// The number of bytes of the compact serialization of a state, written
    /// through the buffer.
    pub fn get_state_size(&mut self, value: &serde_json::Value) -> (r: Result<usize, CodecError>)
        ensures
            is_compact_size(r, json_tree(*value)),
            json_compact(json_tree(*value)) matches Ok(bytes) ==> final(self).buffered() == bytes,
            final(self).compression() == old(self).compression(),
    {
        proof {
            use_type_invariant(&*self);
        }
        match write_into(&mut self.buffer, value) {
            Ok(_) => Ok(self.buffer.len()),
            Err(error) => Err(CodecError::write(&error)),
        }
    }

    /// Empties the buffer and gives back what it holds above the floor.
    pub fn clear_buffer(&mut self)
        ensures
            final(self).buffered() == Seq::<u8>::empty(),
            final(self).compression() == old(self).compression(),
    {
        proof {
            use_type_invariant(&*self);
        }
        buffer_clear(&mut self.buffer);
        buffer_shrink_to(&mut self.buffer, STATE_BUFFER_FLOOR);
    }

    /// The capacity of the buffer, which is never below the floor.
    pub fn get_buffer_capacity(&self) -> (capacity: usize)
        ensures
            capacity >= STATE_BUFFER_FLOOR,
            capacity >= self.buffered().len(),
    {
        proof {
            use_type_invariant(self);
        }
        buffer_capacity(&self.buffer)
    }

    /// Reserved for compression: hands the bytes back as they are, whatever
    /// the flag.
    pub fn compress_buffer(&self, data: &[u8]) -> (compressed: Vec<u8>)
        ensures
            compressed@ == data@,
    {
        slice_to_vec(data)
    }

    /// Reserved for decompression: hands the text back as it is, whatever the
    /// flag, and never fails.
    pub fn decompress_str(&self, data: &str) -> (r: Result<String, CodecError>)
        ensures
            r matches Ok(text) && text@ == data@,
    {
        Ok(data.to_owned())
    }
}

/// Serializes a state into compact text, with no serializer at hand.
pub fn quick_serialize_state(value: &serde_json::Value) -> (r: Result<String, CodecError>)
    ensures
        is_compact_text(r, json_tree(*value)),
{
    encode_text(value)
}

/// Deserializes one state text into a host value, with no serializer at hand.
pub fn quick_deserialize_state(json_str: &str) -> (r: Result<HostValue, CodecError>)
    ensures
        is_decoded(r, json_str@),
{
    decode_text(json_str)
}

} // verus!
