//! Typed members of a JSON object: how a resource reads each of its fields
//! from a document and how a request writes them.
//!
//! A required member must be present with the right type. An optional
//! member may be absent or `null`, which both read as "not set"; when a
//! request is written, a field that is not set adds no member at all.

use crate::error::APIError;
use crate::json::{
    bad_field, bad_value, find_member, item_views, lemma_object_view, member_views, Json,
    JsonValue,
};
use crate::string_map::{pairs_map, StringMap};
use vstd::prelude::*;
use vstd::string::*;

verus! {

impl DeepView for StringMap {
    type V = Map<Seq<char>, Seq<char>>;

    open spec fn deep_view(&self) -> Map<Seq<char>, Seq<char>> {
        self@
    }
}

/// Reading an optional member with `read`: absent and `null` are "not
/// set", anything else must be readable.
pub open spec fn optional<T>(member: Option<JsonValue>, read: spec_fn(JsonValue) -> Option<T>)
    -> Option<Option<T>> {
    match member {
        None => Some(None),
        Some(JsonValue::Null) => Some(None),
        Some(v) => match read(v) {
            Some(t) => Some(Some(t)),
            None => None,
        },
    }
}

/// Reading a required member with `read`.
pub open spec fn required<T>(member: Option<JsonValue>, read: spec_fn(JsonValue) -> Option<T>)
    -> Option<T> {
    match member {
        Some(v) => read(v),
        None => None,
    }
}

/// Every item is a string.
pub open spec fn all_text(items: Seq<JsonValue>) -> bool {
    forall|i: int| 0 <= i < items.len() ==> (#[trigger] items[i]) is Text
}

/// The texts of items that are all strings.
pub open spec fn texts_of(items: Seq<JsonValue>) -> Seq<Seq<char>> {
    Seq::new(items.len(), |i: int| items[i]->Text_0)
}

/// Every member has a string as its value.
pub open spec fn all_text_members(members: Seq<(Seq<char>, JsonValue)>) -> bool {
    forall|i: int| 0 <= i < members.len() ==> (#[trigger] members[i]).1 is Text
}

/// The names and texts of members whose values are all strings.
pub open spec fn text_pairs(members: Seq<(Seq<char>, JsonValue)>) -> Seq<(Seq<char>, Seq<char>)> {
    Seq::new(members.len(), |i: int| (members[i].0, members[i].1->Text_0))
}

/// The array of strings that a document is, if it is one.
pub open spec fn as_text_list(v: JsonValue) -> Option<Seq<Seq<char>>> {
    match v {
        JsonValue::List(items) => if all_text(items) {
            Some(texts_of(items))
        } else {
            None
        },
        _ => None,
    }
}

/// The map from text to text that a document is, if it is an object whose
/// values are all strings.
pub open spec fn as_string_map(v: JsonValue) -> Option<Map<Seq<char>, Seq<char>>> {
    match v {
        JsonValue::Object(members) => if all_text_members(members) {
            Some(pairs_map(text_pairs(members)))
        } else {
            None
        },
        _ => None,
    }
}

/// Every item is an object whose values are all strings.
pub open spec fn all_string_maps(items: Seq<JsonValue>) -> bool {
    forall|i: int| 0 <= i < items.len() ==> as_string_map(#[trigger] items[i]) is Some
}

/// The array of such maps that a document is, if it is one.
pub open spec fn as_map_list(v: JsonValue) -> Option<Seq<Map<Seq<char>, Seq<char>>>> {
    match v {
        JsonValue::List(items) => if all_string_maps(items) {
            Some(Seq::new(items.len(), |i: int| as_string_map(items[i])->Some_0))
        } else {
            None
        },
        _ => None,
    }
}

/// The required string member `key`.
pub open spec fn text_field(j: JsonValue, key: Seq<char>) -> Option<Seq<char>> {
    required(j.member(key), |v: JsonValue| v.as_text())
}

/// The optional string member `key`.
pub open spec fn opt_text_field(j: JsonValue, key: Seq<char>) -> Option<Option<Seq<char>>> {
    optional(j.member(key), |v: JsonValue| v.as_text())
}

/// The required integer member `key`.
pub open spec fn int_field(j: JsonValue, key: Seq<char>) -> Option<int> {
    required(j.member(key), |v: JsonValue| v.as_int())
}

/// The optional integer member `key`.
pub open spec fn opt_int_field(j: JsonValue, key: Seq<char>) -> Option<Option<int>> {
    optional(j.member(key), |v: JsonValue| v.as_int())
}

/// The required 32-bit integer member `key`.
pub open spec fn i32_field(j: JsonValue, key: Seq<char>) -> Option<int> {
    required(j.member(key), |v: JsonValue| v.as_i32())
}

/// The optional 32-bit integer member `key`.
pub open spec fn opt_i32_field(j: JsonValue, key: Seq<char>) -> Option<Option<int>> {
    optional(j.member(key), |v: JsonValue| v.as_i32())
}

/// The required boolean member `key`.
pub open spec fn bool_field(j: JsonValue, key: Seq<char>) -> Option<bool> {
    required(j.member(key), |v: JsonValue| v.as_bool())
}

/// The required array member `key`.
pub open spec fn list_field(j: JsonValue, key: Seq<char>) -> Option<Seq<JsonValue>> {
    required(j.member(key), |v: JsonValue| v.as_list())
}

/// The required member `key` that is an array of strings.
pub open spec fn text_list_field(j: JsonValue, key: Seq<char>) -> Option<Seq<Seq<char>>> {
    required(j.member(key), |v: JsonValue| as_text_list(v))
}

/// The optional member `key` that is an array of strings.
pub open spec fn opt_text_list_field(j: JsonValue, key: Seq<char>) -> Option<
    Option<Seq<Seq<char>>>,
> {
    optional(j.member(key), |v: JsonValue| as_text_list(v))
}

/// The required member `key` that is a map from text to text.
pub open spec fn map_field(j: JsonValue, key: Seq<char>) -> Option<Map<Seq<char>, Seq<char>>> {
    required(j.member(key), |v: JsonValue| as_string_map(v))
}

/// The optional member `key` that is a map from text to text.
pub open spec fn opt_map_field(j: JsonValue, key: Seq<char>) -> Option<
    Option<Map<Seq<char>, Seq<char>>>,
> {
    optional(j.member(key), |v: JsonValue| as_string_map(v))
}

/// The required member `key` that is an array of maps from text to text.
pub open spec fn map_list_field(j: JsonValue, key: Seq<char>) -> Option<
    Seq<Map<Seq<char>, Seq<char>>>,
> {
    required(j.member(key), |v: JsonValue| as_map_list(v))
}

/// The optional member `key` that is an array of maps from text to text.
pub open spec fn opt_map_list_field(j: JsonValue, key: Seq<char>) -> Option<
    Option<Seq<Map<Seq<char>, Seq<char>>>>,
> {
    optional(j.member(key), |v: JsonValue| as_map_list(v))
}

/// Checks that a document is an object, as every resource is on the wire.
pub fn expect_object(j: &Json, what: &str) -> (r: Result<(), APIError>)
    ensures
        match r {
            Ok(_) => j@ is Object,
            Err(e) => !(j@ is Object) && e is DecodeError,
        },
{
    match j {
        Json::Object(_) => Ok(()),
        _ => Err(bad_value(what)),
    }
}

/// The member `key` where it is present and not `null`.
pub fn present<'a>(j: &'a Json, key: &str) -> (r: Option<&'a Json>)
    ensures
        match r {
            Some(v) => j@.member(key@) == Some(v@) && !(v@ is Null),
            None => j@.member(key@) is None || j@.member(key@) == Some(JsonValue::Null),
        },
{
    match j.get(key) {
        Some(v) => if v.is_null() {
            None
        } else {
            Some(v)
        },
        None => None,
    }
}

/// Reads a document that must be an array of strings.
pub fn to_text_list(v: &Json) -> (r: Option<Vec<String>>)
    ensures
        match r {
            Some(list) => as_text_list(v@) == Some(list.deep_view()),
            None => as_text_list(v@) is None,
        },
{
    match v.as_list() {
        Some(items) => {
            let mut out: Vec<String> = Vec::new();
            let mut i: usize = 0;
            while i < items.len()
                invariant
                    i <= items@.len(),
                    out@.len() == i,
                    v@.as_list() == Some(item_views(items@)),
                    forall|k: int| 0 <= k < i ==> (#[trigger] item_views(items@)[k]) is Text,
                    forall|k: int|
                        0 <= k < i ==> (#[trigger] out@[k])@ == item_views(items@)[k]->Text_0,
                decreases items@.len() - i,
            {
                match items[i].as_text() {
                    Some(s) => {
                        out.push(s.clone());
                    },
                    None => {
                        assert(!(item_views(items@)[i as int] is Text));
                        return None;
                    },
                }
                i += 1;
            }
            assert(out.deep_view() =~= texts_of(item_views(items@)));
            Some(out)
        },
        None => None,
    }
}

/// Reads a document that must be an object whose values are all strings.
pub fn to_string_map(v: &Json) -> (r: Option<StringMap>)
    ensures
        match r {
            Some(map) => as_string_map(v@) == Some(map@),
            None => as_string_map(v@) is None,
        },
{
    match v {
        Json::Object(members) => {
            proof {
                lemma_object_view(*members);
            }
            let ghost all = member_views(members@);
            let mut out = StringMap::new();
            let mut i: usize = 0;
            while i < members.len()
                invariant
                    i <= members@.len(),
                    all == member_views(members@),
                    v@ == JsonValue::Object(all),
                    forall|k: int| 0 <= k < i ==> (#[trigger] all[k]).1 is Text,
                    out@ == pairs_map(text_pairs(all).take(i as int)),
                decreases members@.len() - i,
            {
                match members[i].1.as_text() {
                    Some(s) => {
                        out.insert(members[i].0.clone(), s.clone());
                        proof {
                            let pairs = text_pairs(all);
                            assert(pairs.take(i + 1).drop_last() =~= pairs.take(i as int));
                            assert(pairs.take(i + 1).last() == pairs[i as int]);
                        }
                    },
                    None => {
                        assert(!(all[i as int].1 is Text));
                        return None;
                    },
                }
                i += 1;
            }
            assert(text_pairs(all).take(i as int) =~= text_pairs(all));
            Some(out)
        },
        _ => None,
    }
}

/// Reads a document that must be an array of objects whose values are all
/// strings.
pub fn to_map_list(v: &Json) -> (r: Option<Vec<StringMap>>)
    ensures
        match r {
            Some(list) => as_map_list(v@) == Some(list.deep_view()),
            None => as_map_list(v@) is None,
        },
{
    match v.as_list() {
        Some(items) => {
            let mut out: Vec<StringMap> = Vec::new();
            let mut i: usize = 0;
            while i < items.len()
                invariant
                    i <= items@.len(),
                    out@.len() == i,
                    v@.as_list() == Some(item_views(items@)),
                    forall|k: int|
                        0 <= k < i ==> as_string_map(#[trigger] item_views(items@)[k]) is Some,
                    forall|k: int|
                        0 <= k < i ==> (#[trigger] out@[k])@ == as_string_map(
                            item_views(items@)[k],
                        )->Some_0,
                decreases items@.len() - i,
            {
                match to_string_map(&items[i]) {
                    Some(map) => {
                        out.push(map);
                    },
                    None => {
                        assert(as_string_map(item_views(items@)[i as int]) is None);
                        return None;
                    },
                }
                i += 1;
            }
            assert(out.deep_view() =~= as_map_list(v@)->Some_0);
            Some(out)
        },
        None => None,
    }
}

/// The required string member `key`.
pub fn read_text(j: &Json, key: &str) -> (r: Result<String, APIError>)
    ensures
        match r {
            Ok(s) => text_field(j@, key@) == Some(s@),
            Err(e) => text_field(j@, key@) is None && e is DecodeError,
        },
{
    match j.get(key) {
        Some(v) => match v.as_text() {
            Some(s) => Ok(s.clone()),
            None => Err(bad_field(key)),
        },
        None => Err(bad_field(key)),
    }
}

/// The optional string member `key`.
pub fn read_opt_text(j: &Json, key: &str) -> (r: Result<Option<String>, APIError>)
    ensures
        match r {
            Ok(s) => opt_text_field(j@, key@) == Some(s.deep_view()),
            Err(e) => opt_text_field(j@, key@) is None && e is DecodeError,
        },
{
    match present(j, key) {
        Some(v) => match v.as_text() {
            Some(s) => Ok(Some(s.clone())),
            None => Err(bad_field(key)),
        },
        None => Ok(None),
    }
}

/// The required integer member `key`.
pub fn read_int(j: &Json, key: &str) -> (r: Result<i64, APIError>)
    ensures
        match r {
            Ok(i) => int_field(j@, key@) == Some(i as int),
            Err(e) => int_field(j@, key@) is None && e is DecodeError,
        },
{
    match j.get(key) {
        Some(v) => match v.as_int() {
            Some(i) => Ok(i),
            None => Err(bad_field(key)),
        },
        None => Err(bad_field(key)),
    }
}

/// The integer behind an optional integer, for contracts.
pub open spec fn opt_int_view(i: Option<i64>) -> Option<int> {
    match i {
        Some(i) => Some(i as int),
        None => None,
    }
}

/// The integer behind an optional 32-bit integer, for contracts.
pub open spec fn opt_i32_view(i: Option<i32>) -> Option<int> {
    match i {
        Some(i) => Some(i as int),
        None => None,
    }
}

/// The optional integer member `key`.
pub fn read_opt_int(j: &Json, key: &str) -> (r: Result<Option<i64>, APIError>)
    ensures
        match r {
            Ok(i) => opt_int_field(j@, key@) == Some(opt_int_view(i)),
            Err(e) => opt_int_field(j@, key@) is None && e is DecodeError,
        },
{
    match present(j, key) {
        Some(v) => match v.as_int() {
            Some(i) => Ok(Some(i)),
            None => Err(bad_field(key)),
        },
        None => Ok(None),
    }
}

/// The required 32-bit integer member `key`.
pub fn read_i32(j: &Json, key: &str) -> (r: Result<i32, APIError>)
    ensures
        match r {
            Ok(i) => i32_field(j@, key@) == Some(i as int),
            Err(e) => i32_field(j@, key@) is None && e is DecodeError,
        },
{
    match j.get(key) {
        Some(v) => match v.as_i32() {
            Some(i) => Ok(i),
            None => Err(bad_field(key)),
        },
        None => Err(bad_field(key)),
    }
}

/// The optional 32-bit integer member `key`.
pub fn read_opt_i32(j: &Json, key: &str) -> (r: Result<Option<i32>, APIError>)
    ensures
        match r {
            Ok(i) => opt_i32_field(j@, key@) == Some(opt_i32_view(i)),
            Err(e) => opt_i32_field(j@, key@) is None && e is DecodeError,
        },
{
    match present(j, key) {
        Some(v) => match v.as_i32() {
            Some(i) => Ok(Some(i)),
            None => Err(bad_field(key)),
        },
        None => Ok(None),
    }
}

/// The required boolean member `key`.
pub fn read_bool(j: &Json, key: &str) -> (r: Result<bool, APIError>)
    ensures
        match r {
            Ok(b) => bool_field(j@, key@) == Some(b),
            Err(e) => bool_field(j@, key@) is None && e is DecodeError,
        },
{
    match j.get(key) {
        Some(v) => match v.as_bool() {
            Some(b) => Ok(b),
            None => Err(bad_field(key)),
        },
        None => Err(bad_field(key)),
    }
}

/// The required array member `key`.
pub fn read_list<'a>(j: &'a Json, key: &str) -> (r: Result<&'a Vec<Json>, APIError>)
    ensures
        match r {
            Ok(items) => list_field(j@, key@) == Some(item_views(items@)),
            Err(e) => list_field(j@, key@) is None && e is DecodeError,
        },
{
    match j.get(key) {
        Some(v) => match v.as_list() {
            Some(items) => Ok(items),
            None => Err(bad_field(key)),
        },
        None => Err(bad_field(key)),
    }
}

/// The required member `key` that is an array of strings.
pub fn read_text_list(j: &Json, key: &str) -> (r: Result<Vec<String>, APIError>)
    ensures
        match r {
            Ok(list) => text_list_field(j@, key@) == Some(list.deep_view()),
            Err(e) => text_list_field(j@, key@) is None && e is DecodeError,
        },
{
    match j.get(key) {
        Some(v) => match to_text_list(v) {
            Some(list) => Ok(list),
            None => Err(bad_field(key)),
        },
        None => Err(bad_field(key)),
    }
}

/// The optional member `key` that is an array of strings.
pub fn read_opt_text_list(j: &Json, key: &str) -> (r: Result<Option<Vec<String>>, APIError>)
    ensures
        match r {
            Ok(list) => opt_text_list_field(j@, key@) == Some(list.deep_view()),
            Err(e) => opt_text_list_field(j@, key@) is None && e is DecodeError,
        },
{
    match present(j, key) {
        Some(v) => match to_text_list(v) {
            Some(list) => Ok(Some(list)),
            None => Err(bad_field(key)),
        },
        None => Ok(None),
    }
}

/// The required member `key` that is a map from text to text.
pub fn read_map(j: &Json, key: &str) -> (r: Result<StringMap, APIError>)
    ensures
        match r {
            Ok(map) => map_field(j@, key@) == Some(map@),
            Err(e) => map_field(j@, key@) is None && e is DecodeError,
        },
{
    match j.get(key) {
        Some(v) => match to_string_map(v) {
            Some(map) => Ok(map),
            None => Err(bad_field(key)),
        },
        None => Err(bad_field(key)),
    }
}

/// The optional member `key` that is a map from text to text.
pub fn read_opt_map(j: &Json, key: &str) -> (r: Result<Option<StringMap>, APIError>)
    ensures
        match r {
            Ok(map) => opt_map_field(j@, key@) == Some(map.deep_view()),
            Err(e) => opt_map_field(j@, key@) is None && e is DecodeError,
        },
{
    match present(j, key) {
        Some(v) => match to_string_map(v) {
            Some(map) => Ok(Some(map)),
            None => Err(bad_field(key)),
        },
        None => Ok(None),
    }
}

/// The required member `key` that is an array of maps from text to text.
pub fn read_map_list(j: &Json, key: &str) -> (r: Result<Vec<StringMap>, APIError>)
    ensures
        match r {
            Ok(list) => map_list_field(j@, key@) == Some(list.deep_view()),
            Err(e) => map_list_field(j@, key@) is None && e is DecodeError,
        },
{
    match j.get(key) {
        Some(v) => match to_map_list(v) {
            Some(list) => Ok(list),
            None => Err(bad_field(key)),
        },
        None => Err(bad_field(key)),
    }
}

/// The optional member `key` that is an array of maps from text to text.
pub fn read_opt_map_list(j: &Json, key: &str) -> (r: Result<Option<Vec<StringMap>>, APIError>)
    ensures
        match r {
            Ok(list) => opt_map_list_field(j@, key@) == Some(list.deep_view()),
            Err(e) => opt_map_list_field(j@, key@) is None && e is DecodeError,
        },
{
    match present(j, key) {
        Some(v) => match to_map_list(v) {
            Some(list) => Ok(Some(list)),
            None => Err(bad_field(key)),
        },
        None => Ok(None),
    }
}

/// The members of an object under construction after one more field was
/// written: a field that is set appends a member, a field that is not set
/// appends nothing.
pub open spec fn with_member(
    members: Seq<(Seq<char>, JsonValue)>,
    key: Seq<char>,
    value: Option<JsonValue>,
) -> Seq<(Seq<char>, JsonValue)> {
    match value {
        Some(v) => members.push((key, v)),
        None => members,
    }
}

/// No member of the list is `null`.
pub open spec fn no_null_member(members: Seq<(Seq<char>, JsonValue)>) -> bool {
    forall|i: int| 0 <= i < members.len() ==> !((#[trigger] members[i]).1 is Null)
}

/// What a lookup finds after a field was written.
pub broadcast proof fn lemma_member_after_write(
    members: Seq<(Seq<char>, JsonValue)>,
    key: Seq<char>,
    value: Option<JsonValue>,
    name: Seq<char>,
)
    ensures
        #[trigger] find_member(with_member(members, key, value), name) == if value is Some && key
            == name {
            value
        } else {
            find_member(members, name)
        },
{
    if value is Some {
        crate::json::lemma_find_after_push(members, key, value.unwrap(), name);
    }
}

/// Writing a field that is not `null` adds no `null` member.
pub broadcast proof fn lemma_no_null_after_write(
    members: Seq<(Seq<char>, JsonValue)>,
    key: Seq<char>,
    value: Option<JsonValue>,
)
    requires
        no_null_member(members),
        value != Some(JsonValue::Null),
    ensures
        #[trigger] no_null_member(with_member(members, key, value)),
{
}

/// The document of an optional string.
pub open spec fn opt_text_value(value: Option<Seq<char>>) -> Option<JsonValue> {
    match value {
        Some(s) => Some(JsonValue::Text(s)),
        None => None,
    }
}

/// The document of an optional integer.
pub open spec fn opt_int_value(value: Option<int>) -> Option<JsonValue> {
    match value {
        Some(i) => Some(JsonValue::Int(i)),
        None => None,
    }
}

/// The document of a list of strings.
pub open spec fn text_list_value(list: Seq<Seq<char>>) -> JsonValue {
    JsonValue::List(Seq::new(list.len(), |i: int| JsonValue::Text(list[i])))
}

/// The document of an optional list of strings.
pub open spec fn opt_text_list_value(list: Option<Seq<Seq<char>>>) -> Option<JsonValue> {
    match list {
        Some(l) => Some(text_list_value(l)),
        None => None,
    }
}

/// The document of a map from text to text whose entries are stored as
/// `pairs`: an object with one member for each entry, in that order.
pub open spec fn string_map_value(pairs: Seq<(Seq<char>, Seq<char>)>) -> JsonValue {
    JsonValue::Object(Seq::new(pairs.len(), |i: int| (pairs[i].0, JsonValue::Text(pairs[i].1))))
}

/// The document of an optional map.
pub open spec fn opt_map_value(map: Option<StringMap>) -> Option<JsonValue> {
    match map {
        Some(m) => Some(string_map_value(m.pairs())),
        None => None,
    }
}

/// The document of a list of maps.
pub open spec fn map_list_value(list: Seq<StringMap>) -> JsonValue {
    JsonValue::List(Seq::new(list.len(), |i: int| string_map_value(list[i].pairs())))
}

/// The document of an optional list of maps.
pub open spec fn opt_map_list_value(list: Option<Vec<StringMap>>) -> Option<JsonValue> {
    match list {
        Some(l) => Some(map_list_value(l@)),
        None => None,
    }
}

/// A written list of strings reads back as itself.
pub proof fn lemma_text_list_reads_back(list: Seq<Seq<char>>)
    ensures
        as_text_list(text_list_value(list)) == Some(list),
{
    let items = text_list_value(list)->List_0;
    assert(texts_of(items) =~= list);
}

/// A written map reads back as the map that its entries denote.
pub proof fn lemma_map_reads_back(pairs: Seq<(Seq<char>, Seq<char>)>)
    ensures
        as_string_map(string_map_value(pairs)) == Some(pairs_map(pairs)),
{
    let members = string_map_value(pairs)->Object_0;
    assert(text_pairs(members) =~= pairs);
}

/// A written list of maps reads back as the list of those maps.
pub proof fn lemma_map_list_reads_back(list: Seq<StringMap>)
    ensures
        as_map_list(map_list_value(list)) == Some(list.map_values(|m: StringMap| m@)),
        forall|v: Vec<StringMap>| v@ == list ==> #[trigger] v.deep_view() == list.map_values(
            |m: StringMap| m@,
        ),
{
    assert forall|v: Vec<StringMap>| v@ == list implies #[trigger] v.deep_view()
        == list.map_values(|m: StringMap| m@) by {
        assert(v.deep_view() =~= list.map_values(|m: StringMap| m@));
    }
    let items = map_list_value(list)->List_0;
    assert forall|i: int| 0 <= i < items.len() implies as_string_map(#[trigger] items[i])
        == Some(list[i]@) by {
        lemma_map_reads_back(list[i].pairs());
        list[i].lemma_pairs();
    }
    assert(as_map_list(map_list_value(list))->Some_0 =~= list.map_values(|m: StringMap| m@));
}

/// The members of an object that has none yet.
pub fn no_members() -> (r: Vec<(String, Json)>)
    ensures
        member_views(r@) == Seq::<(Seq<char>, JsonValue)>::empty(),
{
    let r: Vec<(String, Json)> = Vec::new();
    assert(member_views(r@) =~= Seq::<(Seq<char>, JsonValue)>::empty());
    r
}

/// The object with the given members.
pub fn object(members: Vec<(String, Json)>) -> (r: Json)
    ensures
        r@ == JsonValue::Object(member_views(members@)),
{
    proof {
        lemma_object_view(members);
    }
    Json::Object(members)
}

/// Writes one field: appends the member `key` when `value` is set.
pub fn put(members: &mut Vec<(String, Json)>, key: &str, value: Option<Json>)
    ensures
        member_views(final(members)@) == with_member(
            member_views(old(members)@),
            key@,
            match value {
                Some(v) => Some(v@),
                None => None,
            },
        ),
{
    match value {
        Some(v) => {
            let ghost before = member_views(members@);
            let ghost view = v@;
            members.push((String::from_str(key), v));
            assert(member_views(members@) =~= before.push((key@, view)));
        },
        None => {},
    }
}

/// The document of a string.
pub fn text_json(value: &String) -> (r: Option<Json>)
    ensures
        r matches Some(j) && j@ == JsonValue::Text(value@),
{
    Some(Json::Text(value.clone()))
}

/// The document of an optional string.
pub fn opt_text_json(value: &Option<String>) -> (r: Option<Json>)
    ensures
        match r {
            Some(j) => opt_text_value(value.deep_view()) == Some(j@),
            None => opt_text_value(value.deep_view()) is None,
        },
{
    match value {
        Some(s) => Some(Json::Text(s.clone())),
        None => None,
    }
}

/// The document of an optional integer.
pub fn opt_int_json(value: Option<i64>) -> (r: Option<Json>)
    ensures
        match r {
            Some(j) => opt_int_value(opt_int_view(value)) == Some(j@),
            None => opt_int_value(opt_int_view(value)) is None,
        },
{
    match value {
        Some(i) => Some(Json::Int(i)),
        None => None,
    }
}

/// The document of an optional 32-bit integer.
pub fn opt_i32_json(value: Option<i32>) -> (r: Option<Json>)
    ensures
        match r {
            Some(j) => opt_int_value(opt_i32_view(value)) == Some(j@),
            None => opt_int_value(opt_i32_view(value)) is None,
        },
{
    match value {
        Some(i) => Some(Json::Int(i as i64)),
        None => None,
    }
}

/// The document of a list of strings.
pub fn text_list_json(list: &Vec<String>) -> (r: Json)
    ensures
        r@ == text_list_value(list.deep_view()),
{
    let mut items: Vec<Json> = Vec::new();
    let mut i: usize = 0;
    while i < list.len()
        invariant
            i <= list@.len(),
            items@.len() == i,
            forall|k: int| 0 <= k < i ==> (#[trigger] items@[k])@ == JsonValue::Text(list@[k]@),
        decreases list@.len() - i,
    {
        items.push(Json::Text(list[i].clone()));
        i += 1;
    }
    proof {
        crate::json::lemma_list_view(items);
        assert(item_views(items@) =~= text_list_value(list.deep_view())->List_0);
    }
    Json::List(items)
}

/// The document of an optional list of strings.
pub fn opt_text_list_json(list: &Option<Vec<String>>) -> (r: Option<Json>)
    ensures
        match r {
            Some(j) => opt_text_list_value(list.deep_view()) == Some(j@),
            None => opt_text_list_value(list.deep_view()) is None,
        },
{
    match list {
        Some(l) => Some(text_list_json(l)),
        None => None,
    }
}

/// The document of a map from text to text.
pub fn map_json(map: &StringMap) -> (r: Json)
    ensures
        r@ == string_map_value(map.pairs()),
{
    let mut members: Vec<(String, Json)> = Vec::new();
    let n = map.len();
    let mut i: usize = 0;
    while i < n
        invariant
            i <= n,
            n == map.pairs().len(),
            members@.len() == i,
            forall|k: int|
                0 <= k < i ==> (#[trigger] member_views(members@)[k]) == (
                    map.pairs()[k].0,
                    JsonValue::Text(map.pairs()[k].1),
                ),
        decreases n - i,
    {
        let ghost before = member_views(members@);
        match map.entry(i) {
            Some(entry) => {
                members.push((entry.0.clone(), Json::Text(entry.1.clone())));
            },
            None => {},
        }
        assert(member_views(members@) =~= before.push(
            (map.pairs()[i as int].0, JsonValue::Text(map.pairs()[i as int].1)),
        ));
        i += 1;
    }
    proof {
        lemma_object_view(members);
        assert(member_views(members@) =~= string_map_value(map.pairs())->Object_0);
    }
    Json::Object(members)
}

/// The document of an optional map.
pub fn opt_map_json(map: &Option<StringMap>) -> (r: Option<Json>)
    ensures
        match r {
            Some(j) => opt_map_value(*map) == Some(j@),
            None => opt_map_value(*map) is None,
        },
{
    match map {
        Some(m) => Some(map_json(m)),
        None => None,
    }
}

/// The document of a list of maps.
pub fn map_list_json(list: &Vec<StringMap>) -> (r: Json)
    ensures
        r@ == map_list_value(list@),
{
    let mut items: Vec<Json> = Vec::new();
    let mut i: usize = 0;
    while i < list.len()
        invariant
            i <= list@.len(),
            items@.len() == i,
            forall|k: int|
                0 <= k < i ==> (#[trigger] items@[k])@ == string_map_value(list@[k].pairs()),
        decreases list@.len() - i,
    {
        items.push(map_json(&list[i]));
        i += 1;
    }
    proof {
        crate::json::lemma_list_view(items);
        assert(item_views(items@) =~= map_list_value(list@)->List_0);
    }
    Json::List(items)
}

/// The document of an optional list of maps.
pub fn opt_map_list_json(list: &Option<Vec<StringMap>>) -> (r: Option<Json>)
    ensures
        match r {
            Some(j) => opt_map_list_value(*list) == Some(j@),
            None => opt_map_list_value(*list) is None,
        },
{
    match list {
        Some(l) => Some(map_list_json(l)),
        None => None,
    }
}

} // verus!
