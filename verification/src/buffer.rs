//! The reusable byte buffer of a serializer, and what is promised of its
//! capacity.
//!
//! How much a vector has allocated is the allocator's business and is never
//! stated here. What is stated is a floor: a number of bytes that the vector
//! was made or shrunk with, below which `std` promises its capacity does not
//! fall.

use vstd::prelude::*;
use crate::json::{fault_of, json_compact, json_tree, write_compact, JsonFault};

verus! {

/// The capacity that a byte vector was made with, or last shrunk to if that is
/// less: a floor under what `Vec::capacity` reports for it.
pub uninterp spec fn kept_capacity(buffer: Vec<u8>) -> nat;

/// `Vec::with_capacity`. Claims that the vector is empty and was made with
/// `floor` bytes.
#[verifier::external_body]
pub(crate) fn buffer_with_capacity(floor: usize) -> (buffer: Vec<u8>)
    requires
        floor <= isize::MAX,
    ensures
        buffer@ == Seq::<u8>::empty(),
        kept_capacity(buffer) == floor,
{
    Vec::with_capacity(floor)
}

/// `Vec::capacity`. Claims that the capacity is at least the vector's length
/// and at least its floor.
#[verifier::external_body]
pub(crate) fn buffer_capacity(buffer: &Vec<u8>) -> (capacity: usize)
    ensures
        capacity >= buffer@.len(),
        capacity >= kept_capacity(*buffer),
{
    buffer.capacity()
}

/// `Vec::clear`. Claims that the vector is emptied and keeps its floor, since
/// clearing gives no capacity back.
#[verifier::external_body]
pub(crate) fn buffer_clear(buffer: &mut Vec<u8>)
    ensures
        final(buffer)@ == Seq::<u8>::empty(),
        kept_capacity(*final(buffer)) == kept_capacity(*old(buffer)),
    no_unwind
{
    buffer.clear()
}

/// `Vec::shrink_to`. Claims that the contents stay and that the floor is now
/// the lesser of the old floor and `floor`.
#[verifier::external_body]
pub(crate) fn buffer_shrink_to(buffer: &mut Vec<u8>, floor: usize)
    ensures
        final(buffer)@ == old(buffer)@,
        kept_capacity(*final(buffer)) == if kept_capacity(*old(buffer)) <= floor {
            kept_capacity(*old(buffer))
        } else {
            floor as nat
        },
    no_unwind
{
    buffer.shrink_to(floor)
}

/// Empties `buffer` and writes `value` into it as compact JSON. On success
/// the buffer holds exactly the compact bytes of the value; the buffer keeps
/// its floor either way.
pub fn write_into(buffer: &mut Vec<u8>, value: &serde_json::Value) -> (r: Result<
    (),
    serde_json::Error,
>)
    ensures
        kept_capacity(*final(buffer)) == kept_capacity(*old(buffer)),
        match r {
            Ok(_) => json_compact(json_tree(*value)) == Ok::<Seq<u8>, JsonFault>(final(buffer)@),
            Err(error) => json_compact(json_tree(*value)) == Err::<Seq<u8>, JsonFault>(
                fault_of(error),
            ),
        },
    no_unwind
{
    buffer_clear(buffer);
    let written = write_compact(buffer, value);
    proof {
        if written is Ok {
            assert(buffer@ =~= json_compact(json_tree(*value))->Ok_0);
        }
    }
    written
}

} // verus!
