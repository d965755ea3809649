//! From a JSON tree to a host value: every level is rebuilt by hand, so that
//! nested structure is never lost.

use vstd::prelude::*;
use crate::error::CodecError;
use crate::host::{key_position, object_insert, HostNumber, HostTree, HostValue};
use crate::json::{
    inspect, json_tree, json_trees, map_entries, map_items, number_as_double, number_as_integer,
    number_double, number_integer, number_of, JsonNode, JsonNumber, JsonTree,
};

verus! {

/// The host number for a JSON number: the integer where it fits in an `i64`,
/// else the double, else none.
pub open spec fn bridged_number(number: JsonNumber) -> Option<HostNumber> {
    match number_integer(number) {
        Some(i) => Some(HostNumber::Integer(i)),
        None => match number_double(number) {
            Some(bits) => Some(HostNumber::Double(bits)),
            None => None,
        },
    }
}

/// Every number in the tree has a host number.
pub open spec fn bridgeable(tree: JsonTree) -> bool
    decreases tree,
{
    match tree {
        JsonTree::Number(n) => bridged_number(n) is Some,
        JsonTree::Array(items) => forall|i: int|
            0 <= i < items.len() ==> bridgeable(#[trigger] items[i]),
        JsonTree::Object(pairs) => forall|i: int|
            0 <= i < pairs.len() ==> bridgeable((#[trigger] pairs[i]).1),
        _ => true,
    }
}

/// The host tree for a JSON tree: the same shape, level by level, with every
/// array item and every object member in its place.
pub open spec fn bridged(tree: JsonTree) -> HostTree
    decreases tree,
{
    match tree {
        JsonTree::Null => HostTree::Null,
        JsonTree::Bool(b) => HostTree::Bool(b),
        JsonTree::Number(n) => match bridged_number(n) {
            Some(number) => HostTree::Number(number),
            None => HostTree::Null,
        },
        JsonTree::String(s) => HostTree::String(s),
        JsonTree::Array(items) => HostTree::Array(
            Seq::new(
                items.len(),
                |i: int|
                    if 0 <= i < items.len() {
                        bridged(items[i])
                    } else {
                        HostTree::Null
                    },
            ),
        ),
        JsonTree::Object(pairs) => HostTree::Object(
            Seq::new(
                pairs.len(),
                |i: int|
                    if 0 <= i < pairs.len() {
                        (pairs[i].0, bridged(pairs[i].1))
                    } else {
                        (Seq::empty(), HostTree::Null)
                    },
            ),
        ),
    }
}

/// What bridging a tree gives: its host tree, or `InvalidNumber` where a
/// number in it has no host number.
pub open spec fn bridge(tree: JsonTree) -> Result<HostTree, CodecError> {
    if bridgeable(tree) {
        Ok(bridged(tree))
    } else {
        Err(CodecError::InvalidNumber)
    }
}

/// Whether `r` is the outcome `expected`, the host value taken by its tree.
pub open spec fn gives(r: Result<HostValue, CodecError>, expected: Result<HostTree, CodecError>) -> bool {
    match r {
        Ok(host) => expected == Ok::<HostTree, CodecError>(host@),
        Err(e) => expected == Err::<HostTree, CodecError>(e),
    }
}

/// The host number for what a JSON number gave when asked for an integer and
/// for a double: the integer first, then the double, else `InvalidNumber`.
pub fn host_number(integer: Option<i64>, double: Option<u64>) -> (r: Result<HostNumber, CodecError>)
    ensures
        r == match integer {
            Some(i) => Ok::<HostNumber, CodecError>(HostNumber::Integer(i)),
            None => match double {
                Some(bits) => Ok(HostNumber::Double(bits)),
                None => Err(CodecError::InvalidNumber),
            },
        },
{
    match integer {
        Some(i) => Ok(HostNumber::Integer(i)),
        None => match double {
            Some(bits) => Ok(HostNumber::Double(bits)),
            None => Err(CodecError::InvalidNumber),
        },
    }
}

/// Rebuilds a JSON value as a host value: null, booleans, numbers and strings
/// one for one, an array item by item in order, an object member by member in
/// insertion order. Fails only on a number that is neither a 64-bit integer
/// nor a double.
pub fn json_value_to_js(value: &serde_json::Value) -> (r: Result<HostValue, CodecError>)
    ensures
        gives(r, bridge(json_tree(*value))),
    decreases json_tree(*value),
{
    match inspect(value) {
        JsonNode::Null => Ok(HostValue::null()),
        JsonNode::Bool(b) => Ok(HostValue::boolean(b)),
        JsonNode::Number(n) => {
            match host_number(number_as_integer(n), number_as_double(n)) {
                Ok(number) => Ok(HostValue::number(number)),
                Err(e) => Err(e),
            }
        },
        JsonNode::String(s) => Ok(HostValue::string(s.as_str())),
        JsonNode::Array(items) => {
            let ghost trees = json_trees(items@);
            let mut host = HostValue::new_array();
            let mut i: usize = 0;
            while i < items.len()
                invariant
                    i <= items@.len(),
                    trees == json_trees(items@),
                    json_tree(*value) == JsonTree::Array(trees),
                    host@ is Array,
                    host@->Array_0.len() == i,
                    forall|j: int|
                        0 <= j < i ==> bridgeable(#[trigger] trees[j]) && host@->Array_0[j]
                            == bridged(trees[j]),
                decreases items@.len() - i,
            {
                assert(trees[i as int] == json_tree(items@[i as int]));
                match json_value_to_js(&items[i]) {
                    Ok(item) => {
                        match host.append(item) {
                            Ok(_) => {},
                            Err(fault) => {
                                return Err(CodecError::HostConstructionFailed(fault));
                            },
                        }
                    },
                    Err(e) => {
                        return Err(e);
                    },
                }
                i += 1;
            }
            assert(host@->Array_0 =~= bridged(json_tree(*value))->Array_0);
            Ok(host)
        },
        JsonNode::Object(map) => {
            let ghost pairs = map_entries(*map);
            let members = map_items(map);
            let mut host = HostValue::new_object();
            let mut i: usize = 0;
            while i < members.len()
                invariant
                    i <= members@.len(),
                    members@.len() == pairs.len(),
                    json_tree(*value) == JsonTree::Object(pairs),
                    forall|j: int|
                        0 <= j < members@.len() ==> (#[trigger] members@[j]).0@ == pairs[j].0
                            && json_tree(*members@[j].1) == pairs[j].1,
                    forall|j: int, k: int|
                        0 <= j < k < members@.len() ==> (#[trigger] members@[j]).0@ != (
                        #[trigger] members@[k]).0@,
                    host@ is Object,
                    host@->Object_0.len() == i,
                    forall|j: int|
                        0 <= j < i ==> bridgeable((#[trigger] pairs[j]).1) && host@->Object_0[j]
                            == (pairs[j].0, bridged(pairs[j].1)),
                decreases members@.len() - i,
            {
                let key: &String = members[i].0;
                let member: &serde_json::Value = members[i].1;
                assert(pairs[i as int].1 == json_tree(*member));
                match json_value_to_js(member) {
                    Ok(item) => {
                        proof {
                            let before = host@->Object_0;
                            assert forall|j: int| 0 <= j < before.len() implies (
                            #[trigger] before[j]).0 != key@ by {
                                assert(members@[j].0@ != members@[i as int].0@);
                            }
                            assert(key_position(before, key@) is None);
                            assert(object_insert(before, key@, item@) == before.push(
                                (key@, item@),
                            ));
                        }
                        match host.set_property(key.as_str(), item) {
                            Ok(_) => {},
                            Err(fault) => {
                                return Err(CodecError::HostConstructionFailed(fault));
                            },
                        }
                    },
                    Err(e) => {
                        return Err(e);
                    },
                }
                i += 1;
            }
            assert(host@->Object_0 =~= bridged(json_tree(*value))->Object_0);
            Ok(host)
        },
    }
}

} // verus!
