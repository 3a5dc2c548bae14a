//! What the resource types have in common: each is decoded from a JSON
//! document, and the ones that the service answers with carry the headers
//! of the response that produced them.

use crate::error::APIError;
use crate::fields::{list_field, present, read_list};
use crate::json::{bad_field, item_views, lemma_list_view, Json, JsonValue};
use crate::string_map::StringMap;
use vstd::prelude::*;

verus! {

/// A type that is read from a JSON document.
pub trait Decode: Sized {
    /// `self` is what the document `j` says: every field has the value
    /// that the document gives it. No value stands in this relation to a
    /// document that lacks a required member or has a member of the wrong
    /// type.
    spec fn decoded_from(&self, j: JsonValue) -> bool;

    /// Reads a value from a document. Fails with `DecodeError` exactly
    /// when the document describes no value of this type.
    fn from_json(j: &Json) -> (r: Result<Self, APIError>)
        ensures
            match r {
                Ok(value) => value.decoded_from(j@),
                Err(e) => e is DecodeError && forall|x: Self| !x.decoded_from(j@),
            },
    ;
}

/// A resource that carries the headers of the response it came with.
pub trait Enveloped: Decode {
    /// The headers that the value carries, if any were attached.
    spec fn envelope(&self) -> Option<Map<Seq<char>, Seq<char>>>;

    /// The same payload with `headers` attached, in place of any headers
    /// that were attached before.
    fn with_headers(self, headers: StringMap) -> (r: Self)
        ensures
            r.envelope() == Some(headers@),
            forall|j: JsonValue| self.decoded_from(j) ==> r.decoded_from(j),
    ;
}

/// `list` is what the documents `items` say, item by item.
pub open spec fn all_decoded_from<T: Decode>(list: Seq<T>, items: Seq<JsonValue>) -> bool {
    &&& list.len() == items.len()
    &&& forall|i: int| 0 <= i < list.len() ==> (#[trigger] list[i]).decoded_from(items[i])
}

/// Reads every item of an array. Fails with `DecodeError` exactly when some
/// item describes no value of the type.
pub fn read_items<T: Decode>(items: &Vec<Json>) -> (r: Result<Vec<T>, APIError>)
    ensures
        match r {
            Ok(list) => all_decoded_from(list@, item_views(items@)),
            Err(e) => e is DecodeError && forall|list: Seq<T>|
                !all_decoded_from(list, item_views(items@)),
        },
{
    let mut out: Vec<T> = Vec::new();
    let mut i: usize = 0;
    while i < items.len()
        invariant
            i <= items@.len(),
            all_decoded_from(out@, item_views(items@).take(i as int)),
        decreases items@.len() - i,
    {
        match T::from_json(&items[i]) {
            Ok(value) => {
                out.push(value);
            },
            Err(e) => {
                assert forall|list: Seq<T>| !all_decoded_from(list, item_views(items@)) by {
                    if all_decoded_from(list, item_views(items@)) {
                        assert(list[i as int].decoded_from(item_views(items@)[i as int]));
                    }
                }
                return Err(e);
            },
        }
        i += 1;
    }
    assert(item_views(items@).take(i as int) =~= item_views(items@));
    Ok(out)
}

/// A type that is written as a JSON document.
pub trait Encode: Sized {
    /// The document that stands for `self` on the wire.
    spec fn encoding(&self) -> JsonValue;

    /// Writes the value as a document.
    fn to_json(&self) -> (r: Json)
        ensures
            r@ == self.encoding(),
    ;
}

/// A type that is read back from what it writes.
pub trait RoundTrip: Encode + Decode {
    /// Writing a value and reading the document back gives the value again:
    /// every field that was set is preserved. The document of a value is
    /// never `null`.
    proof fn lemma_round_trip(&self)
        ensures
            self.decoded_from(self.encoding()),
            !(self.encoding() is Null),
    ;
}

/// A list of values is read back from the documents that it writes.
pub proof fn lemma_list_round_trip<T: RoundTrip>(list: Seq<T>)
    ensures
        all_decoded_from(list, encodings(list)),
{
    assert forall|i: int| 0 <= i < list.len() implies (#[trigger] list[i]).decoded_from(
        encodings(list)[i],
    ) by {
        list[i].lemma_round_trip();
    }
}

/// The documents of a list of values, in order.
pub open spec fn encodings<T: Encode>(list: Seq<T>) -> Seq<JsonValue> {
    Seq::new(list.len(), |i: int| list[i].encoding())
}

/// The document of an optional list of values.
pub open spec fn opt_list_value<T: Encode>(list: Option<Vec<T>>) -> Option<JsonValue> {
    match list {
        Some(l) => Some(JsonValue::List(encodings(l@))),
        None => None,
    }
}

/// Writes a list of values as an array.
pub fn list_json<T: Encode>(list: &Vec<T>) -> (r: Json)
    ensures
        r@ == JsonValue::List(encodings(list@)),
{
    let mut items: Vec<Json> = Vec::new();
    let mut i: usize = 0;
    while i < list.len()
        invariant
            i <= list@.len(),
            items@.len() == i,
            forall|k: int| 0 <= k < i ==> (#[trigger] items@[k])@ == list@[k].encoding(),
        decreases list@.len() - i,
    {
        items.push(list[i].to_json());
        i += 1;
    }
    proof {
        lemma_list_view(items);
        assert(item_views(items@) =~= encodings(list@));
    }
    Json::List(items)
}

/// Writes an optional list of values: an array when it is set.
pub fn opt_list_json<T: Encode>(list: &Option<Vec<T>>) -> (r: Option<Json>)
    ensures
        match r {
            Some(j) => opt_list_value(*list) == Some(j@),
            None => opt_list_value(*list) is None,
        },
{
    match list {
        Some(l) => Some(list_json(l)),
        None => None,
    }
}

/// `value` is what the required member `key` says.
pub open spec fn nested_from<T: Decode>(value: T, j: JsonValue, key: Seq<char>) -> bool {
    j.member(key) is Some && value.decoded_from(j.member(key)->Some_0)
}

/// `value` is what the optional member `key` says: not set where the
/// member is absent or `null`.
pub open spec fn opt_nested_from<T: Decode>(value: Option<T>, j: JsonValue, key: Seq<char>)
    -> bool {
    match j.member(key) {
        None => value is None,
        Some(JsonValue::Null) => value is None,
        Some(v) => value is Some && value->Some_0.decoded_from(v),
    }
}

/// `list` is what the required array member `key` says, item by item.
pub open spec fn list_from<T: Decode>(list: Seq<T>, j: JsonValue, key: Seq<char>) -> bool {
    list_field(j, key) is Some && all_decoded_from(list, list_field(j, key)->Some_0)
}

/// `list` is what the optional array member `key` says.
pub open spec fn opt_list_from<T: Decode>(list: Option<Vec<T>>, j: JsonValue, key: Seq<char>)
    -> bool {
    match j.member(key) {
        None => list is None,
        Some(JsonValue::Null) => list is None,
        Some(v) => list is Some && v.as_list() is Some && all_decoded_from(
            list->Some_0@,
            v.as_list()->Some_0,
        ),
    }
}

/// Reads the required member `key` as a value of type `T`.
pub fn read_nested<T: Decode>(j: &Json, key: &str) -> (r: Result<T, APIError>)
    ensures
        match r {
            Ok(value) => nested_from(value, j@, key@),
            Err(e) => e is DecodeError && forall|x: T| !nested_from(x, j@, key@),
        },
{
    match j.get(key) {
        Some(v) => T::from_json(v),
        None => Err(bad_field(key)),
    }
}

/// Reads the optional member `key` as a value of type `T`.
pub fn read_opt_nested<T: Decode>(j: &Json, key: &str) -> (r: Result<Option<T>, APIError>)
    ensures
        match r {
            Ok(value) => opt_nested_from(value, j@, key@),
            Err(e) => e is DecodeError && forall|x: Option<T>| !opt_nested_from(x, j@, key@),
        },
{
    match present(j, key) {
        Some(v) => match T::from_json(v) {
            Ok(value) => Ok(Some(value)),
            Err(e) => {
                assert forall|x: Option<T>| !opt_nested_from(x, j@, key@) by {
                    if x is Some {
                        assert(!x->Some_0.decoded_from(v@));
                    }
                }
                Err(e)
            },
        },
        None => Ok(None),
    }
}

/// Reads the required array member `key` as values of type `T`.
pub fn read_nested_list<T: Decode>(j: &Json, key: &str) -> (r: Result<Vec<T>, APIError>)
    ensures
        match r {
            Ok(list) => list_from(list@, j@, key@),
            Err(e) => e is DecodeError && forall|x: Seq<T>| !list_from(x, j@, key@),
        },
{
    let items = read_list(j, key)?;
    read_items::<T>(items)
}

/// Reads the optional array member `key` as values of type `T`.
pub fn read_opt_nested_list<T: Decode>(j: &Json, key: &str) -> (r: Result<
    Option<Vec<T>>,
    APIError,
>)
    ensures
        match r {
            Ok(list) => opt_list_from(list, j@, key@),
            Err(e) => e is DecodeError && forall|x: Option<Vec<T>>| !opt_list_from(x, j@, key@),
        },
{
    match present(j, key) {
        Some(v) => match v.as_list() {
            Some(items) => match read_items::<T>(items) {
                Ok(list) => Ok(Some(list)),
                Err(e) => {
                    assert forall|x: Option<Vec<T>>| !opt_list_from(x, j@, key@) by {
                        if x is Some {
                            assert(!all_decoded_from(x->Some_0@, item_views(items@)));
                        }
                    }
                    Err(e)
                },
            },
            None => Err(bad_field(key)),
        },
        None => Ok(None),
    }
}

/// The document of an optional value.
pub open spec fn opt_value<T: Encode>(value: Option<T>) -> Option<JsonValue> {
    match value {
        Some(v) => Some(v.encoding()),
        None => None,
    }
}

/// Writes an optional value: its document when it is set.
pub fn opt_json<T: Encode>(value: &Option<T>) -> (r: Option<Json>)
    ensures
        match r {
            Some(j) => opt_value(*value) == Some(j@),
            None => opt_value(*value) is None,
        },
{
    match value {
        Some(v) => Some(v.to_json()),
        None => None,
    }
}

} // verus!
