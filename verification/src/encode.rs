//! Records that are written as JSON: the trait they share, and the pieces a
//! JSON object is put together from. An unset member is left out.

use crate::json::{Json, JsonNumber, JsonValue};
use vstd::prelude::*;

verus! {

/// A record with a wire form.
pub trait ToJson {
    /// The JSON value this record travels as.
    spec fn wire(&self) -> JsonValue;

    /// Writes the record.
    fn to_json(&self) -> (r: Json)
        ensures
            r.model() == self.wire(),
    ;
}

/// The members of an object, as the model has them.
pub open spec fn members(entries: Seq<(String, Json)>) -> Seq<(Seq<char>, JsonValue)> {
    Seq::new(entries.len(), |i: int| (entries[i].0@, entries[i].1.model()))
}

/// The values of an array, as the model has them.
pub open spec fn values(items: Seq<Json>) -> Seq<JsonValue> {
    Seq::new(items.len(), |i: int| items[i].model())
}

/// One member.
pub open spec fn member(key: Seq<char>, value: JsonValue) -> Seq<(Seq<char>, JsonValue)> {
    seq![(key, value)]
}

/// One member where there is a value, none where there is not.
pub open spec fn opt_member(key: Seq<char>, value: Option<JsonValue>) -> Seq<
    (Seq<char>, JsonValue),
> {
    match value {
        Some(v) => seq![(key, v)],
        None => Seq::empty(),
    }
}

/// The model of an optional document.
pub open spec fn opt_model(value: Option<Json>) -> Option<JsonValue> {
    match value {
        Some(j) => Some(j.model()),
        None => None,
    }
}

/// The number that stands for an unsigned integer.
pub open spec fn number_of_u64(n: u64) -> JsonNumber {
    JsonNumber::Unsigned(n)
}

/// The number that stands for a signed integer.
pub open spec fn number_of_i64(n: i64) -> JsonNumber {
    if n >= 0 {
        JsonNumber::Unsigned(n as u64)
    } else {
        JsonNumber::Negative(n)
    }
}

/// The wire form of a string.
pub open spec fn text_value(s: String) -> JsonValue {
    JsonValue::Str(s@)
}

/// The wire form of an optional string.
pub open spec fn opt_text_value(o: Option<String>) -> Option<JsonValue> {
    match o {
        Some(s) => Some(JsonValue::Str(s@)),
        None => None,
    }
}

/// The wire form of an optional boolean.
pub open spec fn opt_flag_value(o: Option<bool>) -> Option<JsonValue> {
    match o {
        Some(b) => Some(JsonValue::Bool(b)),
        None => None,
    }
}

/// The wire form of an optional unsigned integer.
pub open spec fn opt_u64_value(o: Option<u64>) -> Option<JsonValue> {
    match o {
        Some(n) => Some(JsonValue::Number(number_of_u64(n))),
        None => None,
    }
}

/// The wire form of an optional signed integer.
pub open spec fn opt_i64_value(o: Option<i64>) -> Option<JsonValue> {
    match o {
        Some(n) => Some(JsonValue::Number(number_of_i64(n))),
        None => None,
    }
}

/// The wire form of an optional signed integer of 32 bits.
pub open spec fn opt_i32_value(o: Option<i32>) -> Option<JsonValue> {
    match o {
        Some(n) => Some(JsonValue::Number(number_of_i64(n as i64))),
        None => None,
    }
}

/// The wire form of a list of strings.
pub open spec fn texts_value(items: Seq<String>) -> JsonValue {
    JsonValue::Array(Seq::new(items.len(), |i: int| JsonValue::Str(items[i]@)))
}

/// The wire form of an optional list of strings.
pub open spec fn opt_texts_value(o: Option<Vec<String>>) -> Option<JsonValue> {
    match o {
        Some(l) => Some(texts_value(l@)),
        None => None,
    }
}

/// Whether no key occurs in two pairs.
pub open spec fn keys_once(items: Seq<(String, String)>) -> bool {
    forall|i: int, j: int|
        0 <= i < j < items.len() ==> (#[trigger] items[i]).0@ != (#[trigger] items[j]).0@
}

/// Whether a pair after the one at `i` has the key of that one.
pub open spec fn key_comes_later(items: Seq<(String, String)>, i: int) -> bool {
    exists|j: int| i < j < items.len() && (#[trigger] items[j]).0@ == items[i].0@
}

/// The pairs among the first `n` that are written: of the pairs with one
/// key the last, each at its place.
pub open spec fn kept_upto(items: Seq<(String, String)>, n: int) -> Seq<(Seq<char>, Seq<char>)>
    decreases n,
{
    if n <= 0 {
        Seq::empty()
    } else if key_comes_later(items, n - 1) {
        kept_upto(items, n - 1)
    } else {
        kept_upto(items, n - 1).push((items[n - 1].0@, items[n - 1].1@))
    }
}

/// The pairs that are written: one for each key, which is the last with
/// that key, as a map keeps what was put into it last.
pub open spec fn kept_pairs(items: Seq<(String, String)>) -> Seq<(Seq<char>, Seq<char>)> {
    kept_upto(items, items.len() as int)
}

/// The pairs that are written of an optional list.
pub open spec fn kept_opt(o: Option<Vec<(String, String)>>) -> Option<
    Seq<(Seq<char>, Seq<char>)>,
> {
    match o {
        Some(l) => Some(kept_pairs(l@)),
        None => None,
    }
}

/// Pairs of strings as the members of an object.
pub open spec fn text_members(pairs: Seq<(Seq<char>, Seq<char>)>) -> Seq<(Seq<char>, JsonValue)> {
    Seq::new(pairs.len(), |i: int| (pairs[i].0, JsonValue::Str(pairs[i].1)))
}

/// The wire form of a list of string pairs: an object with one member for
/// each key.
pub open spec fn pairs_value(items: Seq<(String, String)>) -> JsonValue {
    JsonValue::Object(text_members(kept_pairs(items)))
}

/// The wire form of an optional list of string pairs.
pub open spec fn opt_pairs_value(o: Option<Vec<(String, String)>>) -> Option<JsonValue> {
    match o {
        Some(l) => Some(pairs_value(l@)),
        None => None,
    }
}

/// The wire form of a file's bytes: an array of numbers.
pub open spec fn bytes_value(bytes: Seq<u8>) -> JsonValue {
    JsonValue::Array(
        Seq::new(bytes.len(), |i: int| JsonValue::Number(number_of_u64(bytes[i] as u64))),
    )
}

/// The wire form of a list of files.
pub open spec fn files_value(files: Seq<Vec<u8>>) -> JsonValue {
    JsonValue::Array(Seq::new(files.len(), |i: int| bytes_value(files[i]@)))
}

/// The wire form of an optional list of files.
pub open spec fn opt_files_value(o: Option<Vec<Vec<u8>>>) -> Option<JsonValue> {
    match o {
        Some(l) => Some(files_value(l@)),
        None => None,
    }
}

/// The wire form of a list of records.
pub open spec fn list_value<T: ToJson>(items: Seq<T>) -> JsonValue {
    JsonValue::Array(Seq::new(items.len(), |i: int| items[i].wire()))
}

/// The wire form of an optional list of records.
pub open spec fn opt_list_value<T: ToJson>(o: Option<Vec<T>>) -> Option<JsonValue> {
    match o {
        Some(l) => Some(list_value(l@)),
        None => None,
    }
}

/// The wire form of an optional record.
pub open spec fn opt_value<T: ToJson>(o: Option<T>) -> Option<JsonValue> {
    match o {
        Some(t) => Some(t.wire()),
        None => None,
    }
}

/// An object with the members `entries`, in their order.
pub fn object(entries: Vec<(String, Json)>) -> (r: Json)
    ensures
        r.model() == JsonValue::Object(members(entries@)),
{
    let r = Json::Object(entries);
    proof {
        assert(r.model()->Object_0 =~= members(entries@));
    }
    r
}

/// An array with the values `items`, in their order.
pub fn array(items: Vec<Json>) -> (r: Json)
    ensures
        r.model() == JsonValue::Array(values(items@)),
{
    let r = Json::Array(items);
    proof {
        assert(r.model()->Array_0 =~= values(items@));
    }
    r
}

/// Adds the member `key` at the end.
pub fn put(entries: &mut Vec<(String, Json)>, key: &str, value: Json)
    ensures
        members(final(entries)@) == members(old(entries)@) + member(key@, value.model()),
{
    entries.push((key.to_owned(), value));
    proof {
        assert(members(entries@) =~= members(old(entries)@) + member(key@, value.model()));
    }
}

/// Adds the member `key` at the end where there is a value for it, and
/// nothing where there is none.
pub fn put_opt(entries: &mut Vec<(String, Json)>, key: &str, value: Option<Json>)
    ensures
        members(final(entries)@) == members(old(entries)@) + opt_member(key@, opt_model(value)),
{
    match value {
        Some(v) => {
            put(entries, key, v);
        },
        None => {
            proof {
                assert(members(entries@) =~= members(old(entries)@) + opt_member(
                    key@,
                    opt_model(value),
                ));
            }
        },
    }
}

/// Writes a string.
pub fn text_json(s: &String) -> (r: Json)
    ensures
        r.model() == text_value(*s),
{
    Json::Str(s.clone())
}

/// Writes an optional string.
pub fn opt_text_json(o: &Option<String>) -> (r: Option<Json>)
    ensures
        opt_model(r) == opt_text_value(*o),
{
    match o {
        Some(s) => Some(Json::Str(s.clone())),
        None => None,
    }
}

/// Writes an optional boolean.
pub fn opt_flag_json(o: &Option<bool>) -> (r: Option<Json>)
    ensures
        opt_model(r) == opt_flag_value(*o),
{
    match o {
        Some(b) => Some(Json::Bool(*b)),
        None => None,
    }
}

/// Writes an unsigned integer.
pub fn u64_json(n: u64) -> (r: Json)
    ensures
        r.model() == JsonValue::Number(number_of_u64(n)),
{
    Json::Number(JsonNumber::Unsigned(n))
}

/// Writes a signed integer.
pub fn i64_json(n: i64) -> (r: Json)
    ensures
        r.model() == JsonValue::Number(number_of_i64(n)),
{
    if n >= 0 {
        Json::Number(JsonNumber::Unsigned(n as u64))
    } else {
        Json::Number(JsonNumber::Negative(n))
    }
}

/// Writes an optional unsigned integer.
pub fn opt_u64_json(o: &Option<u64>) -> (r: Option<Json>)
    ensures
        opt_model(r) == opt_u64_value(*o),
{
    match o {
        Some(n) => Some(u64_json(*n)),
        None => None,
    }
}

/// Writes an optional signed integer.
pub fn opt_i64_json(o: &Option<i64>) -> (r: Option<Json>)
    ensures
        opt_model(r) == opt_i64_value(*o),
{
    match o {
        Some(n) => Some(i64_json(*n)),
        None => None,
    }
}

/// Writes an optional signed integer of 32 bits.
pub fn opt_i32_json(o: &Option<i32>) -> (r: Option<Json>)
    ensures
        opt_model(r) == opt_i32_value(*o),
{
    match o {
        Some(n) => Some(i64_json(*n as i64)),
        None => None,
    }
}

/// Writes a list of strings.
pub fn texts_json(items: &Vec<String>) -> (r: Json)
    ensures
        r.model() == texts_value(items@),
{
    let mut out: Vec<Json> = Vec::new();
    let mut i: usize = 0;
    while i < items.len()
        invariant
            i <= items.len(),
            out@.len() == i,
            forall|k: int|
                0 <= k < i ==> (#[trigger] out@[k]).model() == JsonValue::Str(items@[k]@),
        decreases items.len() - i,
    {
        out.push(Json::Str(items[i].clone()));
        i += 1;
    }
    let r = array(out);
    proof {
        assert(r.model()->Array_0 =~= texts_value(items@)->Array_0);
    }
    r
}

/// Writes an optional list of strings.
pub fn opt_texts_json(o: &Option<Vec<String>>) -> (r: Option<Json>)
    ensures
        opt_model(r) == opt_texts_value(*o),
{
    match o {
        Some(l) => Some(texts_json(l)),
        None => None,
    }
}

/// Whether a pair after the one at `i` has the key of that one.
fn later_has_key(items: &Vec<(String, String)>, i: usize) -> (r: bool)
    requires
        i < items.len(),
    ensures
        r == key_comes_later(items@, i as int),
{
    let mut j: usize = i + 1;
    while j < items.len()
        invariant
            i < j <= items.len(),
            forall|k: int| i < k < j ==> (#[trigger] items@[k]).0@ != items@[i as int].0@,
        decreases items.len() - j,
    {
        if items[j].0 == items[i].0 {
            return true;
        }
        j += 1;
    }
    false
}

/// Writes a list of string pairs as an object. Where a key occurs in more
/// than one pair, only the last of them is written.
pub fn pairs_json(items: &Vec<(String, String)>) -> (r: Json)
    ensures
        r.model() == pairs_value(items@),
{
    let mut out: Vec<(String, Json)> = Vec::new();
    let mut i: usize = 0;
    proof {
        assert(members(out@) =~= text_members(kept_upto(items@, 0)));
    }
    while i < items.len()
        invariant
            i <= items.len(),
            members(out@) == text_members(kept_upto(items@, i as int)),
        decreases items.len() - i,
    {
        if !later_has_key(items, i) {
            let ghost before = out@;
            out.push((items[i].0.clone(), Json::Str(items[i].1.clone())));
            proof {
                assert(members(out@) =~= members(before).push(
                    (items@[i as int].0@, JsonValue::Str(items@[i as int].1@)),
                ));
                assert(members(out@) =~= text_members(kept_upto(items@, i + 1)));
            }
        }
        i += 1;
    }
    object(out)
}

/// Writes an optional list of string pairs.
pub fn opt_pairs_json(o: &Option<Vec<(String, String)>>) -> (r: Option<Json>)
    ensures
        opt_model(r) == opt_pairs_value(*o),
{
    match o {
        Some(l) => Some(pairs_json(l)),
        None => None,
    }
}

/// Writes a file's bytes.
pub fn bytes_json(bytes: &Vec<u8>) -> (r: Json)
    ensures
        r.model() == bytes_value(bytes@),
{
    let mut out: Vec<Json> = Vec::new();
    let mut i: usize = 0;
    while i < bytes.len()
        invariant
            i <= bytes.len(),
            out@.len() == i,
            forall|k: int|
                0 <= k < i ==> (#[trigger] out@[k]).model() == JsonValue::Number(
                    number_of_u64(bytes@[k] as u64),
                ),
        decreases bytes.len() - i,
    {
        out.push(u64_json(bytes[i] as u64));
        i += 1;
    }
    let r = array(out);
    proof {
        assert(r.model()->Array_0 =~= bytes_value(bytes@)->Array_0);
    }
    r
}

/// Writes an optional list of files.
pub fn opt_files_json(o: &Option<Vec<Vec<u8>>>) -> (r: Option<Json>)
    ensures
        opt_model(r) == opt_files_value(*o),
{
    match o {
        Some(files) => {
            let mut out: Vec<Json> = Vec::new();
            let mut i: usize = 0;
            while i < files.len()
                invariant
                    i <= files.len(),
                    out@.len() == i,
                    forall|k: int|
                        0 <= k < i ==> (#[trigger] out@[k]).model() == bytes_value(files@[k]@),
                decreases files.len() - i,
            {
                out.push(bytes_json(&files[i]));
                i += 1;
            }
            let r = array(out);
            proof {
                assert(r.model()->Array_0 =~= files_value(files@)->Array_0);
            }
            Some(r)
        },
        None => None,
    }
}

/// Writes a list of records.
pub fn list_json<T: ToJson>(items: &Vec<T>) -> (r: Json)
    ensures
        r.model() == list_value(items@),
{
    let mut out: Vec<Json> = Vec::new();
    let mut i: usize = 0;
    while i < items.len()
        invariant
            i <= items.len(),
            out@.len() == i,
            forall|k: int| 0 <= k < i ==> (#[trigger] out@[k]).model() == items@[k].wire(),
        decreases items.len() - i,
    {
        out.push(items[i].to_json());
        i += 1;
    }
    let r = array(out);
    proof {
        assert(r.model()->Array_0 =~= list_value(items@)->Array_0);
    }
    r
}

/// Writes an optional list of records.
pub fn opt_list_json<T: ToJson>(o: &Option<Vec<T>>) -> (r: Option<Json>)
    ensures
        opt_model(r) == opt_list_value(*o),
{
    match o {
        Some(l) => Some(list_json(l)),
        None => None,
    }
}

/// Writes an optional record.
pub fn opt_json<T: ToJson>(o: &Option<T>) -> (r: Option<Json>)
    ensures
        opt_model(r) == opt_value(*o),
{
    match o {
        Some(t) => Some(t.to_json()),
        None => None,
    }
}

} // verus!
