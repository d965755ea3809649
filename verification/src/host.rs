//! The host's dynamic value, held as a plain tree.

use vstd::prelude::*;
use crate::error::HostFault;
use crate::text::same_text;

verus! {

/// A host number: either an integer kept exactly, or the bit pattern of an
/// IEEE-754 double.
#[derive(Clone, Copy, Debug, PartialEq, Eq)]
pub enum HostNumber {
    Integer(i64),
    Double(u64),
}

/// A value of the host's dynamic object model.
#[derive(Debug, PartialEq)]
pub enum HostValue {
    Null,
    Bool(bool),
    Number(HostNumber),
    String(String),
    Array(Vec<HostValue>),
    Object(Vec<(String, HostValue)>),
}

/// The mathematical model of a [`HostValue`].
pub enum HostTree {
    Null,
    Bool(bool),
    Number(HostNumber),
    String(Seq<char>),
    Array(Seq<HostTree>),
    Object(Seq<(Seq<char>, HostTree)>),
}

/// The tree that a host value stands for.
pub open spec fn host_tree(value: HostValue) -> HostTree
    decreases value,
{
    match value {
        HostValue::Null => HostTree::Null,
        HostValue::Bool(b) => HostTree::Bool(b),
        HostValue::Number(n) => HostTree::Number(n),
        HostValue::String(s) => HostTree::String(s@),
        HostValue::Array(items) => HostTree::Array(
            Seq::new(
                items@.len(),
                |i: int|
                    if 0 <= i < items@.len() {
                        host_tree(items@[i])
                    } else {
                        HostTree::Null
                    },
            ),
        ),
        HostValue::Object(pairs) => HostTree::Object(
            Seq::new(
                pairs@.len(),
                |i: int|
                    if 0 <= i < pairs@.len() {
                        (pairs@[i].0@, host_tree(pairs@[i].1))
                    } else {
                        (Seq::empty(), HostTree::Null)
                    },
            ),
        ),
    }
}

impl View for HostValue {
    type V = HostTree;

    open spec fn view(&self) -> HostTree {
        host_tree(*self)
    }
}

impl Clone for HostValue {
    /// A copy that stands for the same tree.
    fn clone(&self) -> (copy: Self)
        ensures
            copy@ == self@,
        decreases self,
    {
        match self {
            HostValue::Null => HostValue::Null,
            HostValue::Bool(b) => HostValue::Bool(*b),
            HostValue::Number(n) => HostValue::Number(*n),
            HostValue::String(s) => HostValue::String(s.clone()),
            HostValue::Array(items) => {
                let mut copies: Vec<HostValue> = Vec::with_capacity(items.len());
                let mut i: usize = 0;
                while i < items.len()
                    invariant
                        i <= items@.len(),
                        copies@.len() == i,
                        *self == HostValue::Array(*items),
                        forall|j: int| 0 <= j < i ==> (#[trigger] copies@[j])@ == items@[j]@,
                    decreases items@.len() - i,
                {
                    assert(decreases_to!(*self => self->Array_0@[i as int]));
                    copies.push(items[i].clone());
                    i += 1;
                }
                let copy = HostValue::Array(copies);
                assert(copy@->Array_0 =~= self@->Array_0);
                copy
            },
            HostValue::Object(pairs) => {
                let mut copies: Vec<(String, HostValue)> = Vec::with_capacity(pairs.len());
                let mut i: usize = 0;
                while i < pairs.len()
                    invariant
                        i <= pairs@.len(),
                        copies@.len() == i,
                        *self == HostValue::Object(*pairs),
                        forall|j: int|
                            0 <= j < i ==> (#[trigger] copies@[j]).0@ == pairs@[j].0@
                                && copies@[j].1@ == pairs@[j].1@,
                    decreases pairs@.len() - i,
                {
                    assert(decreases_to!(*self => self->Object_0@[i as int].1));
                    copies.push((pairs[i].0.clone(), pairs[i].1.clone()));
                    i += 1;
                }
                let copy = HostValue::Object(copies);
                assert(copy@->Object_0 =~= self@->Object_0);
                copy
            },
        }
    }
}

/// The position of the first member of `pairs` under `key`, if there is one.
pub open spec fn key_position<T>(pairs: Seq<(Seq<char>, T)>, key: Seq<char>) -> Option<int> {
    if exists|i: int| 0 <= i < pairs.len() && (#[trigger] pairs[i]).0 == key {
        Some(
            choose|i: int|
                0 <= i < pairs.len() && (#[trigger] pairs[i]).0 == key && forall|j: int|
                    0 <= j < i ==> (#[trigger] pairs[j]).0 != key,
        )
    } else {
        None
    }
}

/// What setting `key` to `value` makes of the members of a keyed mapping: a
/// key that is present keeps its place and takes the new value, a new key
/// goes to the end.
pub open spec fn object_insert<T>(pairs: Seq<(Seq<char>, T)>, key: Seq<char>, value: T) -> Seq<
    (Seq<char>, T),
> {
    match key_position(pairs, key) {
        Some(i) => pairs.update(i, (key, value)),
        None => pairs.push((key, value)),
    }
}

/// If `i` is the first place of `key` in `pairs`, `key_position` finds it.
pub proof fn lemma_key_position_first<T>(pairs: Seq<(Seq<char>, T)>, key: Seq<char>, i: int)
    requires
        0 <= i < pairs.len(),
        pairs[i].0 == key,
        forall|j: int| 0 <= j < i ==> (#[trigger] pairs[j]).0 != key,
    ensures
        key_position(pairs, key) == Some(i),
{
    let found = key_position(pairs, key)->0;
    if found < i {
        assert(pairs[found].0 != key);
    } else if i < found {
        assert(pairs[i].0 == key);
    }
}

impl HostValue {
    /// The host's null.
    pub fn null() -> (v: HostValue)
        ensures
            v@ == HostTree::Null,
    {
        HostValue::Null
    }

    /// The host boolean `b`.
    pub fn boolean(b: bool) -> (v: HostValue)
        ensures
            v@ == HostTree::Bool(b),
    {
        HostValue::Bool(b)
    }

    /// The host number `n`.
    pub fn number(n: HostNumber) -> (v: HostValue)
        ensures
            v@ == HostTree::Number(n),
    {
        HostValue::Number(n)
    }

    /// The host string with the characters of `s`.
    pub fn string(s: &str) -> (v: HostValue)
        ensures
            v@ == HostTree::String(s@),
    {
        HostValue::String(s.to_owned())
    }

    /// An empty host array.
    pub fn new_array() -> (v: HostValue)
        ensures
            v@ == HostTree::Array(Seq::empty()),
    {
        let v = HostValue::Array(Vec::new());
        assert(v@->Array_0 =~= Seq::empty());
        v
    }

    /// An empty host keyed mapping.
    pub fn new_object() -> (v: HostValue)
        ensures
            v@ == HostTree::Object(Seq::empty()),
    {
        let v = HostValue::Object(Vec::new());
        assert(v@->Object_0 =~= Seq::empty());
        v
    }

    /// Appends `item` to an array. Any other value is left as it is and the
    /// append is refused.
    pub fn append(&mut self, item: HostValue) -> (r: Result<(), HostFault>)
        ensures
            match old(self)@ {
                HostTree::Array(items) => r is Ok && final(self)@ == HostTree::Array(
                    items.push(item@),
                ),
                _ => r == Err::<(), HostFault>(HostFault::NotAnArray) && *final(self) == *old(
                    self,
                ),
            },
    {
        match self {
            HostValue::Array(items) => {
                items.push(item);
                assert(self@->Array_0 =~= old(self)@->Array_0.push(item@));
                Ok(())
            },
            _ => Err(HostFault::NotAnArray),
        }
    }

    /// Sets the property `key` of a keyed mapping to `value`: a key that is
    /// present keeps its place, a new key goes to the end. Any other value is
    /// left as it is and the property is refused.
    pub fn set_property(&mut self, key: &str, value: HostValue) -> (r: Result<(), HostFault>)
        ensures
            match old(self)@ {
                HostTree::Object(pairs) => r is Ok && final(self)@ == HostTree::Object(
                    object_insert(pairs, key@, value@),
                ),
                _ => r == Err::<(), HostFault>(HostFault::NotAnObject) && *final(self) == *old(
                    self,
                ),
            },
    {
        match self {
            HostValue::Object(pairs) => {
                let ghost model = old(self)@->Object_0;
                let place = find_key(pairs, key);
                match place {
                    Some(i) => {
                        proof {
                            lemma_key_position_first(model, key@, i as int);
                        }
                        pairs.set(i, (key.to_owned(), value));
                        assert(self@->Object_0 =~= model.update(i as int, (key@, value@)));
                    },
                    None => {
                        assert(key_position(model, key@) is None);
                        pairs.push((key.to_owned(), value));
                        assert(self@->Object_0 =~= model.push((key@, value@)));
                    },
                }
                Ok(())
            },
            _ => Err(HostFault::NotAnObject),
        }
    }
}

/// The first place of `key` among the members `pairs`, if it is there.
fn find_key(pairs: &Vec<(String, HostValue)>, key: &str) -> (place: Option<usize>)
    ensures
        match place {
            Some(i) => i < pairs@.len() && pairs@[i as int].0@ == key@ && forall|j: int|
                0 <= j < i ==> (#[trigger] pairs@[j]).0@ != key@,
            None => forall|j: int| 0 <= j < pairs@.len() ==> (#[trigger] pairs@[j]).0@ != key@,
        },
{
    let mut i: usize = 0;
    while i < pairs.len()
        invariant
            i <= pairs@.len(),
            forall|j: int| 0 <= j < i ==> (#[trigger] pairs@[j]).0@ != key@,
        decreases pairs@.len() - i,
    {
        if same_text(pairs[i].0.as_str(), key) {
            return Some(i);
        }
        i += 1;
    }
    None
}

} // verus!
