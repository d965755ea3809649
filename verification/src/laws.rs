//! What holds of the codec as a whole, proved from the contracts of its
//! functions.

use vstd::prelude::*;
use vstd::utf8::{decode_utf8_encode_utf8, encode_utf8, valid_utf8};
use crate::bridge::{bridge, bridgeable, bridged, bridged_number};
use crate::error::CodecError;
use crate::host::{HostNumber, HostTree, HostValue};
use crate::json::{
    json_compact, json_parse, number_integer, JsonFault, JsonNumber, JsonTree,
};
use crate::message::{
    element_decodes, is_compact_size, is_compact_text, is_decoded, is_decoded_batch,
};

verus! {

/// Every number in the tree is an integer that fits in an `i64`.
pub open spec fn integral(tree: JsonTree) -> bool
    decreases tree,
{
    match tree {
        JsonTree::Number(n) => n matches JsonNumber::Integer(i) && i64::MIN <= i <= i64::MAX,
        JsonTree::Array(items) => forall|i: int|
            0 <= i < items.len() ==> integral(#[trigger] items[i]),
        JsonTree::Object(pairs) => forall|i: int|
            0 <= i < pairs.len() ==> integral((#[trigger] pairs[i]).1),
        _ => true,
    }
}

/// The host tree has the shape and the leaves of the JSON tree: the same
/// kind at every level, as many array items and object members as the JSON
/// tree has, each member under its own key, and every integer exact.
pub open spec fn mirrors(host: HostTree, tree: JsonTree) -> bool
    decreases tree,
{
    match tree {
        JsonTree::Null => host is Null,
        JsonTree::Bool(b) => host == HostTree::Bool(b),
        JsonTree::Number(n) => match n {
            JsonNumber::Integer(i) => host matches HostTree::Number(HostNumber::Integer(j)) && i
                == j,
            JsonNumber::Double(_) => host is Number,
        },
        JsonTree::String(s) => host == HostTree::String(s),
        JsonTree::Array(items) => host matches HostTree::Array(hosts) && hosts.len()
            == items.len() && forall|i: int|
            0 <= i < items.len() ==> mirrors(#[trigger] hosts[i], items[i]),
        JsonTree::Object(pairs) => host matches HostTree::Object(members) && members.len()
            == pairs.len() && forall|i: int|
            0 <= i < pairs.len() ==> (#[trigger] members[i]).0 == pairs[i].0 && mirrors(
                members[i].1,
                pairs[i].1,
            ),
    }
}

/// A tree of nulls, booleans, strings, arrays, objects and 64-bit integers
/// always bridges, and its host tree mirrors it: no array loses an item, no
/// object a member, at any depth.
pub proof fn lemma_integral_tree_bridges(tree: JsonTree)
    requires
        integral(tree),
    ensures
        bridgeable(tree),
        mirrors(bridged(tree), tree),
    decreases tree,
{
    match tree {
        JsonTree::Number(n) => {
            assert(number_integer(n) is Some);
            assert(bridged_number(n) is Some);
        },
        JsonTree::Array(items) => {
            assert forall|i: int| 0 <= i < items.len() implies bridgeable(#[trigger] items[i])
                && mirrors(bridged(items[i]), items[i]) by {
                lemma_integral_tree_bridges(items[i]);
            }
            let hosts = bridged(tree)->Array_0;
            assert forall|i: int| 0 <= i < items.len() implies mirrors(
                #[trigger] hosts[i],
                items[i],
            ) by {
                assert(hosts[i] == bridged(items[i]));
            }
        },
        JsonTree::Object(pairs) => {
            assert forall|i: int| 0 <= i < pairs.len() implies bridgeable(
                (#[trigger] pairs[i]).1,
            ) && mirrors(bridged(pairs[i].1), pairs[i].1) by {
                lemma_integral_tree_bridges(pairs[i].1);
            }
            let members = bridged(tree)->Object_0;
            assert forall|i: int| 0 <= i < pairs.len() implies (#[trigger] members[i]).0
                == pairs[i].0 && mirrors(members[i].1, pairs[i].1) by {
                assert(members[i] == (pairs[i].0, bridged(pairs[i].1)));
            }
        },
        _ => {},
    }
}

/// Round trip. Let `tree` hold no number but 64-bit integers, and let `text`
/// be a text that the parser reads as `tree`. Then deserializing `text`
/// succeeds, gives exactly what bridging `tree` gives, and the host value
/// mirrors `tree`: nested objects keep every member.
pub proof fn law_deserialize_reproduces_bridge(
    text: Seq<char>,
    tree: JsonTree,
    r: Result<HostValue, CodecError>,
)
    requires
        integral(tree),
        json_parse(text) == Ok::<JsonTree, JsonFault>(tree),
        is_decoded(r, text),
    ensures
        r matches Ok(host) && bridge(tree) == Ok::<HostTree, CodecError>(host@) && mirrors(
            host@,
            tree,
        ),
{
    lemma_integral_tree_bridges(tree);
}

/// A batch of texts that all decode gives as many host values as it has
/// texts, the value at each place being the bridged tree of the text at that
/// place.
pub proof fn law_batch_keeps_order(
    elements: Seq<Option<String>>,
    r: Result<Vec<HostValue>, CodecError>,
)
    requires
        is_decoded_batch(r, elements),
        forall|i: int| 0 <= i < elements.len() ==> element_decodes(#[trigger] elements[i]),
    ensures
        r matches Ok(values) && values@.len() == elements.len() && forall|i: int|
            0 <= i < elements.len() ==> is_decoded(
                Ok::<HostValue, CodecError>(#[trigger] values@[i]),
                elements[i]->0@,
            ),
{
    if r is Err {
        let k = choose|k: int|
            0 <= k < elements.len() && !element_decodes(#[trigger] elements[k]);
        assert(element_decodes(elements[k]));
    }
}

/// A batch with an element that is no text, or whose text does not decode,
/// fails and gives no values, wherever in the batch that element stands.
pub proof fn law_batch_fails_whole(
    elements: Seq<Option<String>>,
    k: int,
    r: Result<Vec<HostValue>, CodecError>,
)
    requires
        is_decoded_batch(r, elements),
        0 <= k < elements.len(),
        !element_decodes(elements[k]),
    ensures
        r is Err,
{
}

/// The size that `estimate_size` reports for a tree is the number of bytes
/// of the text that `serialize_message` gives for the same tree.
pub proof fn law_size_is_length_of_text(
    tree: JsonTree,
    size: Result<usize, CodecError>,
    text: Result<String, CodecError>,
)
    requires
        is_compact_size(size, tree),
        is_compact_text(text, tree),
        text is Ok,
    ensures
        size matches Ok(n) && n == encode_utf8(text->Ok_0@).len(),
{
    let bytes = json_compact(tree)->Ok_0;
    assert(valid_utf8(bytes));
    decode_utf8_encode_utf8(bytes);
}

} // verus!
