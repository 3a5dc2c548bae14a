//! The wire model: a JSON document as a value of the library, the reading of
//! a text into such a value, and the lookups that the resource types are
//! decoded with.
//!
//! Texts are read by `serde_json`; everything after that works on [`Json`]
//! and is stated over its mathematical view, [`JsonValue`].

use crate::error::APIError;
use crate::text::{join, same_text};
use vstd::prelude::*;
use vstd::string::*;

verus! {

/// A JSON document.
///
/// An object keeps its members in a list. Where a name occurs twice, the
/// last occurrence counts.
#[derive(Debug, PartialEq, Eq)]
pub enum Json {
    /// `null`.
    Null,
    /// `true` or `false`.
    Bool(bool),
    /// A number that is a 64-bit signed integer.
    Int(i64),
    /// Any other number, kept as the text that `serde_json` prints for it.
    Decimal(String),
    /// A string.
    Text(String),
    /// An array.
    List(Vec<Json>),
    /// An object: its members, each a name and a value.
    Object(Vec<(String, Json)>),
}

/// The mathematical view of a [`Json`] document.
pub enum JsonValue {
    /// `null`.
    Null,
    /// `true` or `false`.
    Bool(bool),
    /// An integer.
    Int(int),
    /// Another number, as text.
    Decimal(Seq<char>),
    /// A string.
    Text(Seq<char>),
    /// An array.
    List(Seq<JsonValue>),
    /// An object.
    Object(Seq<(Seq<char>, JsonValue)>),
}

/// The document that a [`Json`] value stands for.
pub open spec fn json_model(j: Json) -> JsonValue
    decreases j,
{
    match j {
        Json::Null => JsonValue::Null,
        Json::Bool(b) => JsonValue::Bool(b),
        Json::Int(i) => JsonValue::Int(i as int),
        Json::Decimal(s) => JsonValue::Decimal(s@),
        Json::Text(s) => JsonValue::Text(s@),
        Json::List(items) => JsonValue::List(
            Seq::new(
                items@.len(),
                |i: int|
                    if 0 <= i < items@.len() {
                        json_model(items@[i])
                    } else {
                        JsonValue::Null
                    },
            ),
        ),
        Json::Object(members) => JsonValue::Object(
            Seq::new(
                members@.len(),
                |i: int|
                    if 0 <= i < members@.len() {
                        (members@[i].0@, json_model(members@[i].1))
                    } else {
                        (Seq::empty(), JsonValue::Null)
                    },
            ),
        ),
    }
}

impl View for Json {
    type V = JsonValue;

    open spec fn view(&self) -> JsonValue {
        json_model(*self)
    }
}

/// The views of the items of an array.
pub open spec fn item_views(items: Seq<Json>) -> Seq<JsonValue> {
    Seq::new(items.len(), |i: int| items[i]@)
}

/// The views of the members of an object.
pub open spec fn member_views(members: Seq<(String, Json)>) -> Seq<(Seq<char>, JsonValue)> {
    Seq::new(members.len(), |i: int| (members[i].0@, members[i].1@))
}

/// The view of an array is the array of the views.
pub proof fn lemma_list_view(items: Vec<Json>)
    ensures
        Json::List(items)@ == JsonValue::List(item_views(items@)),
{
    assert(Json::List(items)@->List_0 =~= item_views(items@));
}

/// The view of an object is the object of the views.
pub proof fn lemma_object_view(members: Vec<(String, Json)>)
    ensures
        Json::Object(members)@ == JsonValue::Object(member_views(members@)),
{
    assert(Json::Object(members)@->Object_0 =~= member_views(members@));
}

/// The value of the last member called `key`, if there is one.
pub open spec fn find_member(members: Seq<(Seq<char>, JsonValue)>, key: Seq<char>) -> Option<
    JsonValue,
>
    decreases members.len(),
{
    if members.len() == 0 {
        None
    } else if members.last().0 == key {
        Some(members.last().1)
    } else {
        find_member(members.drop_last(), key)
    }
}

/// A member appended at the end is found under its own name and hides
/// nothing else.
pub proof fn lemma_find_after_push(
    members: Seq<(Seq<char>, JsonValue)>,
    name: Seq<char>,
    value: JsonValue,
    key: Seq<char>,
)
    ensures
        find_member(members.push((name, value)), key) == if name == key {
            Some(value)
        } else {
            find_member(members, key)
        },
{
    assert(members.push((name, value)).drop_last() =~= members);
}

impl JsonValue {
    /// The value of the member `key` of an object. Anything but an object
    /// has no members.
    pub open spec fn member(self, key: Seq<char>) -> Option<JsonValue> {
        match self {
            JsonValue::Object(members) => find_member(members, key),
            _ => None,
        }
    }

    /// The text of a string.
    pub open spec fn as_text(self) -> Option<Seq<char>> {
        match self {
            JsonValue::Text(s) => Some(s),
            _ => None,
        }
    }

    /// The number, where it is an integer.
    pub open spec fn as_int(self) -> Option<int> {
        match self {
            JsonValue::Int(i) => Some(i),
            _ => None,
        }
    }

    /// The number, where it is an integer of 32 bits.
    pub open spec fn as_i32(self) -> Option<int> {
        match self {
            JsonValue::Int(i) => if i32::MIN <= i <= i32::MAX {
                Some(i)
            } else {
                None
            },
            _ => None,
        }
    }

    /// The truth value.
    pub open spec fn as_bool(self) -> Option<bool> {
        match self {
            JsonValue::Bool(b) => Some(b),
            _ => None,
        }
    }

    /// The items of an array.
    pub open spec fn as_list(self) -> Option<Seq<JsonValue>> {
        match self {
            JsonValue::List(items) => Some(items),
            _ => None,
        }
    }
}

/// What `serde_json::from_str` makes of a text: the document that it
/// denotes, or nothing where the text is not JSON.
pub uninterp spec fn text_as_json(text: Seq<char>) -> Option<JsonValue>;

/// The document that a `serde_json::Value` holds.
pub uninterp spec fn value_model(value: serde_json::Value) -> JsonValue;

/// `serde_json::Value`, the document that `serde_json` reads a text into.
/// It is carried from the reading to [`Json`] and looked into nowhere else.
#[verifier::external_type_specification]
#[verifier::external_body]
pub struct ExSerdeJsonValue(serde_json::Value);

/// `serde_json::Error`, the error of a reading. Only its message is used.
#[verifier::external_type_specification]
#[verifier::external_body]
pub struct ExSerdeJsonError(serde_json::Error);

/// Reads a text as JSON.
///
/// Trusted: this is `serde_json::from_str` at the type `serde_json::Value`.
/// Its result depends on the text alone; `text_as_json` is the name of that
/// result, and nothing more is claimed of it.
#[verifier::external_body]
fn value_from_text(text: &str) -> (r: Result<serde_json::Value, serde_json::Error>)
    ensures
        match r {
            Ok(value) => text_as_json(text@) == Some(value_model(value)),
            Err(_) => text_as_json(text@) is None,
        },
{
    serde_json::from_str::<serde_json::Value>(text)
}

/// Moves a `serde_json::Value` into a [`Json`], variant by variant.
///
/// Trusted: the six variants of `serde_json::Value` map to the variants of
/// the same meaning; a number goes to `Int` where `Number::as_i64` gives an
/// integer and to `Decimal`, as the text that `Number` prints, where it does
/// not. `value_model` is the name of what the value holds.
#[verifier::external_body]
fn json_from_value(value: serde_json::Value) -> (r: Json)
    ensures
        r@ == value_model(value),
{
    match value {
        serde_json::Value::Null => Json::Null,
        serde_json::Value::Bool(b) => Json::Bool(b),
        serde_json::Value::Number(n) => match n.as_i64() {
            Some(i) => Json::Int(i),
            None => Json::Decimal(n.to_string()),
        },
        serde_json::Value::String(s) => Json::Text(s),
        serde_json::Value::Array(a) => Json::List(a.into_iter().map(json_from_value).collect()),
        serde_json::Value::Object(o) => Json::Object(
            o.into_iter().map(|(k, v)| (k, json_from_value(v))).collect(),
        ),
    }
}

/// The message of a `serde_json` error.
///
/// Trusted: this is the `Display` text of `serde_json::Error`. Nothing is
/// claimed of it.
#[verifier::external_body]
fn error_text(error: &serde_json::Error) -> String {
    error.to_string()
}

impl Json {
    /// Reads a text as a JSON document. Fails with `DecodeError` exactly
    /// when the text is not JSON.
    pub fn parse(text: &str) -> (r: Result<Json, APIError>)
        ensures
            match r {
                Ok(j) => text_as_json(text@) == Some(j@),
                Err(e) => text_as_json(text@) is None && e is DecodeError,
            },
    {
        match value_from_text(text) {
            Ok(value) => Ok(json_from_value(value)),
            Err(error) => Err(APIError::DecodeError(error_text(&error))),
        }
    }

    /// The value of the member `key` of an object: of the last one, where
    /// the name occurs more than once.
    pub fn get(&self, key: &str) -> (r: Option<&Json>)
        ensures
            match r {
                Some(v) => self@.member(key@) == Some(v@),
                None => self@.member(key@) is None,
            },
    {
        match self {
            Json::Object(members) => {
                let ghost all = member_views(members@);
                proof {
                    lemma_object_view(*members);
                }
                let mut i: usize = members.len();
                proof {
                    assert(all.take(i as int) =~= all);
                }
                while i > 0
                    invariant
                        i <= members@.len(),
                        all == member_views(members@),
                        self@ == JsonValue::Object(all),
                        find_member(all, key@) == find_member(all.take(i as int), key@),
                    decreases i,
                {
                    i -= 1;
                    proof {
                        assert(all.take(i + 1).drop_last() =~= all.take(i as int));
                        assert(all.take(i + 1).last() == all[i as int]);
                    }
                    if same_text(members[i].0.as_str(), key) {
                        return Some(&members[i].1);
                    }
                }
                proof {
                    assert(all.take(0).len() == 0);
                }
                None
            },
            _ => None,
        }
    }

    /// Whether the document is `null`.
    pub fn is_null(&self) -> (r: bool)
        ensures
            r == (self@ is Null),
    {
        match self {
            Json::Null => true,
            _ => false,
        }
    }

    /// The text of a string.
    pub fn as_text(&self) -> (r: Option<&String>)
        ensures
            match r {
                Some(s) => self@.as_text() == Some(s@),
                None => self@.as_text() is None,
            },
    {
        match self {
            Json::Text(s) => Some(s),
            _ => None,
        }
    }

    /// The number, where it is an integer.
    pub fn as_int(&self) -> (r: Option<i64>)
        ensures
            match r {
                Some(i) => self@.as_int() == Some(i as int),
                None => self@.as_int() is None,
            },
    {
        match self {
            Json::Int(i) => Some(*i),
            _ => None,
        }
    }

    /// The number, where it is an integer of 32 bits.
    pub fn as_i32(&self) -> (r: Option<i32>)
        ensures
            match r {
                Some(i) => self@.as_i32() == Some(i as int),
                None => self@.as_i32() is None,
            },
    {
        match self {
            Json::Int(i) => {
                if -2147483648 <= *i && *i <= 2147483647 {
                    Some(*i as i32)
                } else {
                    None
                }
            },
            _ => None,
        }
    }

    /// The truth value.
    pub fn as_bool(&self) -> (r: Option<bool>)
        ensures
            match r {
                Some(b) => self@.as_bool() == Some(b),
                None => self@.as_bool() is None,
            },
    {
        match self {
            Json::Bool(b) => Some(*b),
            _ => None,
        }
    }

    /// The items of an array.
    pub fn as_list(&self) -> (r: Option<&Vec<Json>>)
        ensures
            match r {
                Some(items) => self@.as_list() == Some(item_views(items@)),
                None => self@.as_list() is None,
            },
    {
        match self {
            Json::List(items) => {
                proof {
                    lemma_list_view(*items);
                }
                Some(items)
            },
            _ => None,
        }
    }

    /// A copy of the document.
    pub fn duplicate(&self) -> (r: Json)
        ensures
            r@ == self@,
        decreases self,
    {
        match self {
            Json::Null => Json::Null,
            Json::Bool(b) => Json::Bool(*b),
            Json::Int(i) => Json::Int(*i),
            Json::Decimal(s) => Json::Decimal(s.clone()),
            Json::Text(s) => Json::Text(s.clone()),
            Json::List(items) => {
                let mut copies: Vec<Json> = Vec::new();
                let mut i: usize = 0;
                while i < items.len()
                    invariant
                        i <= items@.len(),
                        copies@.len() == i,
                        *self == Json::List(*items),
                        forall|k: int| 0 <= k < i ==> (#[trigger] copies@[k])@ == items@[k]@,
                    decreases items@.len() - i,
                {
                    assert(decreases_to!(*self => self->List_0));
                    assert(decreases_to!(*items => items@));
                    assert(decreases_to!(items@ => items@[i as int]));
                    let copy = items[i].duplicate();
                    copies.push(copy);
                    i += 1;
                }
                proof {
                    lemma_list_view(*items);
                    lemma_list_view(copies);
                    assert(item_views(copies@) =~= item_views(items@));
                }
                Json::List(copies)
            },
            Json::Object(members) => {
                let mut copies: Vec<(String, Json)> = Vec::new();
                let mut i: usize = 0;
                while i < members.len()
                    invariant
                        i <= members@.len(),
                        copies@.len() == i,
                        *self == Json::Object(*members),
                        forall|k: int|
                            0 <= k < i ==> (#[trigger] copies@[k]).0@ == members@[k].0@
                                && copies@[k].1@ == members@[k].1@,
                    decreases members@.len() - i,
                {
                    assert(decreases_to!(*self => self->Object_0));
                    assert(decreases_to!(*members => members@));
                    assert(decreases_to!(members@ => members@[i as int]));
                    assert(decreases_to!(members@[i as int] => members@[i as int].1));
                    let copy = members[i].1.duplicate();
                    copies.push((members[i].0.clone(), copy));
                    i += 1;
                }
                proof {
                    lemma_object_view(*members);
                    lemma_object_view(copies);
                    assert(member_views(copies@) =~= member_views(members@));
                }
                Json::Object(copies)
            },
        }
    }

    /// A string with the characters of `s`.
    pub fn text(s: &str) -> (r: Json)
        ensures
            r@ == JsonValue::Text(s@),
    {
        Json::Text(String::from_str(s))
    }
}

impl Clone for Json {
    fn clone(&self) -> (r: Json)
        ensures
            r@ == self@,
    {
        self.duplicate()
    }
}

/// The error for a member that is missing or of the wrong type.
pub fn bad_field(key: &str) -> (r: APIError)
    ensures
        r matches APIError::DecodeError(text) && text@ == "missing or invalid field: "@ + key@,
{
    APIError::DecodeError(join("missing or invalid field: ", key))
}

/// The error for a document that is not one of the values of a type.
pub fn bad_value(what: &str) -> (r: APIError)
    ensures
        r matches APIError::DecodeError(text) && text@ == "unexpected value for "@ + what@,
{
    APIError::DecodeError(join("unexpected value for ", what))
}

} // verus!
