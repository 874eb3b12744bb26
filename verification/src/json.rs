//! JSON values as the workflow reads them, and the reader that produces them.

use crate::error::RunError;
use crate::error::RunErrorView;
use crate::text::text_eq;
use vstd::prelude::*;
use vstd::slice::slice_to_vec;

verus! {

/// A JSON value.
///
/// A number keeps only what the workflow asks of it: its value where it is a
/// non-negative integer below 2^64, and nothing otherwise.
#[derive(Debug, PartialEq, Eq)]
pub enum Json {
    Null,
    Bool(bool),
    Number(Option<u64>),
    Text(String),
    Array(Vec<Json>),
    /// The members in order. Where a key occurs twice the first one counts.
    Object(Vec<(String, Json)>),
}

/// The mathematical value of a [`Json`].
pub enum JsonValue {
    Null,
    Bool(bool),
    Number(Option<u64>),
    Text(Seq<char>),
    Array(Seq<JsonValue>),
    Object(Seq<(Seq<char>, JsonValue)>),
}

impl View for Json {
    type V = JsonValue;

    open spec fn view(&self) -> JsonValue {
        self.value()
    }
}

impl Json {
    /// The value that `self` stands for; `self@` is this.
    pub open spec fn value(&self) -> JsonValue
        decreases self,
    {
        match self {
            Json::Null => JsonValue::Null,
            Json::Bool(b) => JsonValue::Bool(*b),
            Json::Number(n) => JsonValue::Number(*n),
            Json::Text(s) => JsonValue::Text(s@),
            Json::Array(items) => JsonValue::Array(
                Seq::new(
                    items@.len(),
                    |i: int|
                        if 0 <= i < items@.len() {
                            items@[i].value()
                        } else {
                            JsonValue::Null
                        },
                ),
            ),
            Json::Object(members) => JsonValue::Object(
                Seq::new(
                    members@.len(),
                    |i: int|
                        if 0 <= i < members@.len() {
                            (members@[i].0@, members@[i].1.value())
                        } else {
                            (Seq::empty(), JsonValue::Null)
                        },
                ),
            ),
        }
    }
}

/// The values of a sequence of [`Json`]s, one for one.
pub open spec fn values(items: Seq<Json>) -> Seq<JsonValue> {
    Seq::new(items.len(), |i: int| items[i]@)
}

/// The keys and values of a sequence of members, one for one.
pub open spec fn member_values(members: Seq<(String, Json)>) -> Seq<(Seq<char>, JsonValue)> {
    Seq::new(members.len(), |i: int| (members[i].0@, members[i].1@))
}

/// An array's value holds the values of its elements, in order.
pub proof fn lemma_array_value(j: Json)
    requires
        j is Array,
    ensures
        j@ == JsonValue::Array(values(j->Array_0@)),
{
    assert(j@ is Array);
    assert(j@->Array_0 =~= values(j->Array_0@));
}

/// An object's value holds the keys and values of its members, in order.
pub proof fn lemma_object_value(j: Json)
    requires
        j is Object,
    ensures
        j@ == JsonValue::Object(member_values(j->Object_0@)),
{
    assert(j@ is Object);
    assert(j@->Object_0 =~= member_values(j->Object_0@));
}

/// The value of the first member at or after `start` whose key is `key`;
/// `Null` where there is none.
pub open spec fn member_from(
    members: Seq<(Seq<char>, JsonValue)>,
    key: Seq<char>,
    start: int,
) -> JsonValue
    decreases members.len() - start,
{
    if start < 0 || start >= members.len() {
        JsonValue::Null
    } else if members[start].0 == key {
        members[start].1
    } else {
        member_from(members, key, start + 1)
    }
}

impl JsonValue {
    /// The member under `key`. Anything that is not an object, and an object
    /// without that key, gives `Null`.
    pub open spec fn member(self, key: Seq<char>) -> JsonValue {
        match self {
            JsonValue::Object(members) => member_from(members, key, 0),
            _ => JsonValue::Null,
        }
    }

    /// The characters of a string; nothing for any other value.
    pub open spec fn text(self) -> Option<Seq<char>> {
        match self {
            JsonValue::Text(s) => Some(s),
            _ => None,
        }
    }

    /// The characters of a string; the empty string for any other value.
    pub open spec fn text_or_empty(self) -> Seq<char> {
        match self {
            JsonValue::Text(s) => s,
            _ => Seq::empty(),
        }
    }

    /// A number that is a non-negative integer below 2^64; nothing otherwise.
    pub open spec fn unsigned(self) -> Option<u64> {
        match self {
            JsonValue::Number(n) => n,
            _ => None,
        }
    }

    /// A truth value; nothing for any other value.
    pub open spec fn boolean(self) -> Option<bool> {
        match self {
            JsonValue::Bool(b) => Some(b),
            _ => None,
        }
    }

    /// The elements of an array; nothing for any other value.
    pub open spec fn items(self) -> Option<Seq<JsonValue>> {
        match self {
            JsonValue::Array(items) => Some(items),
            _ => None,
        }
    }
}

impl Json {
    /// Looks a member up by its key.
    ///
    /// Nothing comes back where `self` is no object or has no such member;
    /// the model reads both as `Null`.
    pub fn get(&self, key: &str) -> (found: Option<&Json>)
        ensures
            match found {
                Some(j) => j@ == self@.member(key@),
                None => self@.member(key@) == JsonValue::Null,
            },
    {
        match self {
            Json::Object(members) => {
                let ghost model = member_values(members@);
                proof {
                    lemma_object_value(*self);
                }
                let mut i: usize = 0;
                while i < members.len()
                    invariant
                        i <= members.len(),
                        model == member_values(members@),
                        self@ == JsonValue::Object(model),
                        member_from(model, key@, 0) == member_from(model, key@, i as int),
                    decreases members.len() - i,
                {
                    if text_eq(members[i].0.as_str(), key) {
                        return Some(&members[i].1);
                    }
                    i += 1;
                }
                None
            },
            _ => None,
        }
    }

    /// The string, where `self` is one.
    pub fn as_str(&self) -> (s: Option<&str>)
        ensures
            match s {
                Some(t) => self@.text() == Some(t@),
                None => self@.text() is None,
            },
    {
        match self {
            Json::Text(s) => Some(s.as_str()),
            _ => None,
        }
    }

    /// The number, where `self` is a non-negative integer below 2^64.
    pub fn as_u64(&self) -> (n: Option<u64>)
        ensures
            n == self@.unsigned(),
    {
        match self {
            Json::Number(n) => *n,
            _ => None,
        }
    }

    /// The truth value, where `self` is one.
    pub fn as_bool(&self) -> (b: Option<bool>)
        ensures
            b == self@.boolean(),
    {
        match self {
            Json::Bool(b) => Some(*b),
            _ => None,
        }
    }

    /// The string at `self[first][second]`, where there is one.
    pub fn text_at(&self, first: &str, second: &str) -> (s: Option<&str>)
        ensures
            match s {
                Some(t) => self@.member(first@).member(second@).text() == Some(t@),
                None => self@.member(first@).member(second@).text() is None,
            },
    {
        match self.get(first) {
            Some(inner) => match inner.get(second) {
                Some(leaf) => leaf.as_str(),
                None => None,
            },
            None => None,
        }
    }

    /// The elements, where `self` is an array.
    pub fn as_array(&self) -> (items: Option<&Vec<Json>>)
        ensures
            match items {
                Some(v) => self@.items() == Some(values(v@)),
                None => self@.items() is None,
            },
    {
        match self {
            Json::Array(items) => {
                proof {
                    lemma_array_value(*self);
                }
                Some(items)
            },
            _ => None,
        }
    }
}

/// `serde_json::Value`, carried from the reader to [`from_value`] and
/// looked into only there.
#[verifier::external_type_specification]
#[verifier::external_body]
pub struct ExValue(serde_json::Value);

/// `serde_json::Error`, which says why bytes are no JSON text. Nothing
/// looks into it.
#[verifier::external_type_specification]
#[verifier::external_body]
pub struct ExSyntaxError(serde_json::Error);

/// What `serde_json::from_slice` reads out of `bytes`: the value of the JSON
/// text, or nothing where the bytes are no JSON text.
pub uninterp spec fn parsed(bytes: Seq<u8>) -> Option<JsonValue>;

/// The JSON value that a `serde_json::Value` holds.
pub uninterp spec fn held(value: serde_json::Value) -> JsonValue;

/// Calls `serde_json::from_slice` for a `serde_json::Value`.
///
/// Trusted: whether the bytes are accepted, and the value read from them,
/// depend on the bytes alone.
#[verifier::external_body]
fn read_value(bytes: &[u8]) -> (read: Result<serde_json::Value, serde_json::Error>)
    ensures
        match read {
            Ok(value) => parsed(bytes@) == Some(held(value)),
            Err(_) => parsed(bytes@) is None,
        },
{
    serde_json::from_slice::<serde_json::Value>(bytes)
}

/// One level of a `serde_json::Value`: its variant, with what the variant
/// holds. The elements of an array and the members of an object are still
/// values of `serde_json`.
enum Shell<'a> {
    Null,
    Bool(bool),
    Number(Option<u64>),
    Text(&'a str),
    Array(Vec<&'a serde_json::Value>),
    Object(Vec<(&'a String, &'a serde_json::Value)>),
}

/// Tells the variants of a `serde_json::Value` apart and hands out what the
/// variant holds.
///
/// Trusted: the value that `value` holds is the one that its variant and
/// fields say. A number is kept as `serde_json::Number::as_u64` gives it:
/// the number itself where it is a non-negative integer below 2^64, nothing
/// otherwise. The elements of an array come in its order, the members of an
/// object in the order in which its map hands them out.
#[verifier::external_body]
fn open<'a>(value: &'a serde_json::Value) -> (shell: Shell<'a>)
    ensures
        match shell {
            Shell::Null => held(*value) == JsonValue::Null,
            Shell::Bool(b) => held(*value) == JsonValue::Bool(b),
            Shell::Number(n) => held(*value) == JsonValue::Number(n),
            Shell::Text(s) => held(*value) == JsonValue::Text(s@),
            Shell::Array(items) => held(*value) == JsonValue::Array(
                Seq::new(items@.len(), |i: int| held(*items@[i])),
            ),
            Shell::Object(members) => held(*value) == JsonValue::Object(
                Seq::new(members@.len(), |i: int| (members@[i].0@, held(*members@[i].1))),
            ),
        },
{
    match value {
        serde_json::Value::Null => Shell::Null,
        serde_json::Value::Bool(b) => Shell::Bool(*b),
        serde_json::Value::Number(n) => Shell::Number(n.as_u64()),
        serde_json::Value::String(s) => Shell::Text(s.as_str()),
        serde_json::Value::Array(a) => Shell::Array(a.iter().collect()),
        serde_json::Value::Object(o) => Shell::Object(o.iter().collect()),
    }
}

/// Copies a `serde_json::Value` into a [`Json`] of the same value.
fn from_value(value: &serde_json::Value) -> (json: Json)
    ensures
        json@ == held(*value),
    decreases held(*value),
{
    match open(value) {
        Shell::Null => Json::Null,
        Shell::Bool(b) => Json::Bool(b),
        Shell::Number(n) => Json::Number(n),
        Shell::Text(s) => Json::Text(s.to_owned()),
        Shell::Array(items) => {
            let ghost inner = Seq::new(items@.len(), |i: int| held(*items@[i]));
            let mut copies: Vec<Json> = Vec::new();
            let mut i: usize = 0;
            while i < items.len()
                invariant
                    i <= items.len(),
                    copies@.len() == i,
                    inner == Seq::new(items@.len(), |i: int| held(*items@[i])),
                    held(*value) == JsonValue::Array(inner),
                    forall|j: int| 0 <= j < i ==> (#[trigger] copies@[j])@ == inner[j],
                decreases items.len() - i,
            {
                proof {
                    assert(inner[i as int] == held(*items@[i as int]));
                    assert(decreases_to!(held(*value) => held(*value)->Array_0));
                    assert(decreases_to!(inner => inner[i as int]));
                }
                copies.push(from_value(items[i]));
                i += 1;
            }
            let json = Json::Array(copies);
            proof {
                lemma_array_value(json);
                assert(values(copies@) =~= inner);
            }
            json
        },
        Shell::Object(members) => {
            let ghost inner = Seq::new(
                members@.len(),
                |i: int| (members@[i].0@, held(*members@[i].1)),
            );
            let mut copies: Vec<(String, Json)> = Vec::new();
            let mut i: usize = 0;
            while i < members.len()
                invariant
                    i <= members.len(),
                    copies@.len() == i,
                    inner == Seq::new(
                        members@.len(),
                        |i: int| (members@[i].0@, held(*members@[i].1)),
                    ),
                    held(*value) == JsonValue::Object(inner),
                    forall|j: int|
                        0 <= j < i ==> ((#[trigger] copies@[j]).0@, copies@[j].1@) == inner[j],
                decreases members.len() - i,
            {
                proof {
                    assert(inner[i as int] == (
                        members@[i as int].0@,
                        held(*members@[i as int].1),
                    ));
                    assert(decreases_to!(held(*value) => held(*value)->Object_0));
                    assert(decreases_to!(inner => inner[i as int]));
                    assert(decreases_to!(inner[i as int] => inner[i as int].1));
                }
                let key = members[i].0.clone();
                copies.push((key, from_value(members[i].1)));
                i += 1;
            }
            let json = Json::Object(copies);
            proof {
                lemma_object_value(json);
                assert(member_values(copies@) =~= inner);
            }
            json
        },
    }
}

/// Reads a response body as JSON.
///
/// A body that is no JSON text is an unexpected response, and the error
/// carries the body.
pub fn parse(bytes: &[u8]) -> (read: Result<Json, RunError>)
    ensures
        match read {
            Ok(json) => parsed(bytes@) == Some(json@),
            Err(e) => parsed(bytes@) is None && e@ == unexpected(bytes@),
        },
{
    match read_value(bytes) {
        Ok(value) => Ok(from_value(&value)),
        Err(_) => Err(RunError::UnexpectedResponse { payload: slice_to_vec(bytes) }),
    }
}

/// The error for a body that cannot be used.
pub open spec fn unexpected(payload: Seq<u8>) -> RunErrorView {
    RunErrorView::UnexpectedResponse { payload }
}

} // verus!
