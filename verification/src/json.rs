//! JSON documents as a tree of plain values.

use crate::text::same_text;
use vstd::prelude::*;

verus! {

/// A JSON document.
///
/// An object keeps its members as a list of pairs, each a name and a value;
/// a number keeps the text that stands for it.
#[derive(Debug, PartialEq, Eq)]
pub enum Json {
    Null,
    Bool(bool),
    Number(String),
    Text(String),
    Array(Vec<Json>),
    Object(Vec<(String, Json)>),
}

/// The mathematical value of a [`Json`] document.
pub enum JsonValue {
    Null,
    Bool(bool),
    Number(Seq<char>),
    Text(Seq<char>),
    Array(Seq<JsonValue>),
    Object(Seq<(Seq<char>, JsonValue)>),
}

impl View for Json {
    type V = JsonValue;

    open spec fn view(&self) -> JsonValue {
        value_of(*self)
    }
}

/// The value that `doc` stands for: each string by its characters, each list
/// by the values of its elements in their order.
pub open spec fn value_of(doc: Json) -> JsonValue
    decreases doc,
{
    match doc {
        Json::Null => JsonValue::Null,
        Json::Bool(b) => JsonValue::Bool(b),
        Json::Number(digits) => JsonValue::Number(digits@),
        Json::Text(text) => JsonValue::Text(text@),
        Json::Array(items) => JsonValue::Array(
            Seq::new(
                items@.len(),
                |i: int|
                    if 0 <= i < items@.len() {
                        value_of(items@[i])
                    } else {
                        JsonValue::Null
                    },
            ),
        ),
        Json::Object(members) => JsonValue::Object(
            Seq::new(
                members@.len(),
                |i: int|
                    if 0 <= i < members@.len() {
                        (members@[i].0@, value_of(members@[i].1))
                    } else {
                        (Seq::<char>::empty(), JsonValue::Null)
                    },
            ),
        ),
    }
}

/// `serde_json::Value`, the tree that the parser builds. It is only ever
/// handed from the parser to [`lift`].
#[verifier::external_type_specification]
#[verifier::external_body]
pub struct ExValue(serde_json::Value);

/// What `serde_json::from_str` makes of `text`: the value of the document
/// that it reads there, or the message of the error that it reports.
pub uninterp spec fn parsed(text: Seq<char>) -> Result<JsonValue, Seq<char>>;

/// Rebuilds a `serde_json::Value` as a [`Json`], variant by variant. A number
/// is kept as the text that `serde_json::Number` displays, an object as its
/// members in the order in which its map hands them out. Nothing is claimed
/// of the result here; [`parse`] names it.
#[verifier::external_body]
fn lift(value: serde_json::Value) -> Json {
    match value {
        serde_json::Value::Null => Json::Null,
        serde_json::Value::Bool(b) => Json::Bool(b),
        serde_json::Value::Number(n) => Json::Number(n.to_string()),
        serde_json::Value::String(s) => Json::Text(s),
        serde_json::Value::Array(items) => Json::Array(items.into_iter().map(lift).collect()),
        serde_json::Value::Object(members) => Json::Object(
            members.into_iter().map(|(key, member)| (key, lift(member))).collect(),
        ),
    }
}

/// Calls `serde_json::from_str` to read `text` as one `serde_json::Value`.
/// The parser's result depends on the text alone, so the contract names it:
/// the document, or the error's message, is [`parsed`] of the text. Whether a
/// given text parses is not stated.
#[verifier::external_body]
pub(crate) fn parse(text: &str) -> (outcome: Result<Json, String>)
    ensures
        match outcome {
            Ok(doc) => parsed(text@) == Ok::<JsonValue, Seq<char>>(doc@),
            Err(why) => parsed(text@) == Err::<JsonValue, Seq<char>>(why@),
        },
{
    match serde_json::from_str::<serde_json::Value>(text) {
        Ok(value) => Ok(lift(value)),
        Err(e) => Err(e.to_string()),
    }
}

impl JsonValue {
    /// The member named `key`, where `self` is an object that has one.
    /// Where several members bear that name, the one that stands first.
    pub open spec fn get(self, key: Seq<char>) -> Option<JsonValue> {
        match self {
            JsonValue::Object(members) => first_named(members, key),
            _ => None,
        }
    }

    /// The text, where `self` is a string.
    pub open spec fn as_str(self) -> Option<Seq<char>> {
        match self {
            JsonValue::Text(text) => Some(text),
            _ => None,
        }
    }
}

/// The value of the first pair in `members` whose key is `key`.
pub open spec fn first_named(members: Seq<(Seq<char>, JsonValue)>, key: Seq<char>) -> Option<
    JsonValue,
>
    decreases members.len(),
{
    if members.len() == 0 {
        None
    } else if members[0].0 == key {
        Some(members[0].1)
    } else {
        first_named(members.drop_first(), key)
    }
}

/// Looking a name up finds the member that bears it, where none before it
/// does.
pub proof fn first_named_found(members: Seq<(Seq<char>, JsonValue)>, key: Seq<char>, at: int)
    requires
        0 <= at < members.len(),
        members[at].0 == key,
        forall|j: int| 0 <= j < at ==> members[j].0 != key,
    ensures
        first_named(members, key) == Some(members[at].1),
    decreases at,
{
    if at > 0 {
        let rest = members.drop_first();
        assert forall|j: int| 0 <= j < at - 1 implies rest[j].0 != key by {
            assert(rest[j] == members[j + 1]);
        }
        first_named_found(rest, key, at - 1);
    }
}

/// Looking up a name that no member bears finds nothing.
pub proof fn first_named_missing(members: Seq<(Seq<char>, JsonValue)>, key: Seq<char>)
    requires
        forall|j: int| 0 <= j < members.len() ==> members[j].0 != key,
    ensures
        first_named(members, key) is None,
    decreases members.len(),
{
    if members.len() > 0 {
        let rest = members.drop_first();
        assert forall|j: int| 0 <= j < rest.len() implies rest[j].0 != key by {
            assert(rest[j] == members[j + 1]);
        }
        first_named_missing(rest, key);
    }
}

impl Json {
    /// Looks `key` up among the members of an object.
    pub fn get(&self, key: &str) -> (found: Option<&Json>)
        ensures
            match found {
                Some(member) => self@.get(key@) == Some(member@),
                None => self@.get(key@) is None,
            },
    {
        match self {
            Json::Object(members) => {
                let ghost all = self@->Object_0;
                let mut i: usize = 0;
                while i < members.len()
                    invariant
                        i <= members.len(),
                        self@ == JsonValue::Object(all),
                        all.len() == members@.len(),
                        forall|j: int|
                            0 <= j < all.len() ==> all[j] == (members@[j].0@, members@[j].1@),
                        forall|j: int| 0 <= j < i ==> all[j].0 != key@,
                    decreases members.len() - i,
                {
                    if same_text(members[i].0.as_str(), key) {
                        proof {
                            first_named_found(all, key@, i as int);
                        }
                        return Some(&members[i].1);
                    }
                    i += 1;
                }
                proof {
                    first_named_missing(all, key@);
                }
                None
            },
            _ => None,
        }
    }

    /// The text of a string.
    pub fn as_str(&self) -> (text: Option<&str>)
        ensures
            match text {
                Some(t) => self@.as_str() == Some(t@),
                None => self@.as_str() is None,
            },
    {
        match self {
            Json::Text(text) => Some(text.as_str()),
            _ => None,
        }
    }
}

} // verus!
