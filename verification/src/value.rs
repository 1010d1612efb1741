//! The value tree that is formatted, and its mathematical model.

use vstd::prelude::*;

verus! {

/// The mathematical model of a JSON document: what a [`JsonValue`] stands for.
pub enum ValueTree {
    Null,
    Bool(bool),
    /// A number, by its text.
    Number(Seq<char>),
    /// A string, by its content (without quotes).
    Str(Seq<char>),
    Array(Seq<ValueTree>),
    /// The members in their order, each a key and its value.
    Object(Seq<(Seq<char>, ValueTree)>),
}

/// A parsed JSON document.
#[derive(Debug, PartialEq, Eq)]
pub enum JsonValue {
    Null,
    Bool(bool),
    /// A number, held as its text.
    Number(String),
    /// A string, held as its content (without quotes).
    Str(String),
    Array(Vec<JsonValue>),
    /// The members in their order, each a key and its value.
    Object(Vec<(String, JsonValue)>),
}

impl View for JsonValue {
    type V = ValueTree;

    /// The document that the value stands for: the same tree, with sequences in place
    /// of vectors and strings. (The tests on `i` only serve termination; see
    /// [`lemma_array_view`] and [`lemma_object_view`] for the plain statement.)
    open spec fn view(&self) -> ValueTree
        decreases self,
    {
        match self {
            JsonValue::Null => ValueTree::Null,
            JsonValue::Bool(b) => ValueTree::Bool(*b),
            JsonValue::Number(text) => ValueTree::Number(text@),
            JsonValue::Str(text) => ValueTree::Str(text@),
            JsonValue::Array(items) => ValueTree::Array(
                Seq::new(
                    items.len() as nat,
                    |i: int|
                        if 0 <= i < items.len() {
                            items[i]@
                        } else {
                            ValueTree::Null
                        },
                ),
            ),
            JsonValue::Object(members) => ValueTree::Object(
                Seq::new(
                    members.len() as nat,
                    |i: int|
                        (
                            members[i].0@,
                            if 0 <= i < members.len() {
                                members[i].1@
                            } else {
                                ValueTree::Null
                            },
                        ),
                ),
            ),
        }
    }
}

/// The documents that a run of values stands for.
pub open spec fn item_trees(items: Seq<JsonValue>) -> Seq<ValueTree> {
    Seq::new(items.len(), |i: int| items[i]@)
}

/// The members that a run of keys with their values stands for.
pub open spec fn member_trees(members: Seq<(String, JsonValue)>) -> Seq<(Seq<char>, ValueTree)> {
    Seq::new(members.len(), |i: int| (members[i].0@, members[i].1@))
}

/// An array stands for the array of what its items stand for.
pub proof fn lemma_array_view(items: Vec<JsonValue>)
    ensures
        JsonValue::Array(items)@ == ValueTree::Array(item_trees(items@)),
{
    assert(JsonValue::Array(items)@->Array_0 =~= item_trees(items@));
}

/// An object stands for the object of what its members stand for, in their order.
pub proof fn lemma_object_view(members: Vec<(String, JsonValue)>)
    ensures
        JsonValue::Object(members)@ == ValueTree::Object(member_trees(members@)),
{
    assert(JsonValue::Object(members)@->Object_0 =~= member_trees(members@));
}

} // verus!
