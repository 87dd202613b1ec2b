//! Readers for the members of a JSON object: what each kind of member must
//! look like on the wire, and the code that reads it.

use crate::json::{Json, JsonNumber, JsonValue};
use vstd::prelude::*;

verus! {

/// The characters of an optional string.
pub open spec fn text_opt(o: Option<String>) -> Option<Seq<char>> {
    match o {
        Some(s) => Some(s@),
        None => None,
    }
}

/// The characters of each string of a list.
pub open spec fn texts_view(items: Seq<String>) -> Seq<Seq<char>> {
    Seq::new(items.len(), |i: int| items[i]@)
}

/// The characters of each optional list of strings.
pub open spec fn texts_opt(o: Option<Vec<String>>) -> Option<Seq<Seq<char>>> {
    match o {
        Some(l) => Some(texts_view(l@)),
        None => None,
    }
}

/// The characters of each pair of a list of string pairs.
pub open spec fn pairs_view(items: Seq<(String, String)>) -> Seq<(Seq<char>, Seq<char>)> {
    Seq::new(items.len(), |i: int| (items[i].0@, items[i].1@))
}

/// The characters of each pair of an optional list of string pairs.
pub open spec fn pairs_opt(o: Option<Vec<(String, String)>>) -> Option<
    Seq<(Seq<char>, Seq<char>)>,
> {
    match o {
        Some(l) => Some(pairs_view(l@)),
        None => None,
    }
}

/// The bytes of each file of a list.
pub open spec fn files_view(files: Seq<Vec<u8>>) -> Seq<Seq<u8>> {
    Seq::new(files.len(), |i: int| files[i]@)
}

/// The bytes of each file of an optional list.
pub open spec fn files_opt(o: Option<Vec<Vec<u8>>>) -> Option<Seq<Seq<u8>>> {
    match o {
        Some(l) => Some(files_view(l@)),
        None => None,
    }
}

/// A JSON string's characters.
pub open spec fn as_text(v: JsonValue) -> Option<Seq<char>> {
    match v {
        JsonValue::Str(s) => Some(s),
        _ => None,
    }
}

/// A JSON boolean.
pub open spec fn as_flag(v: JsonValue) -> Option<bool> {
    match v {
        JsonValue::Bool(b) => Some(b),
        _ => None,
    }
}

/// A JSON number that is a non-negative integer below 2^64.
pub open spec fn as_u64(v: JsonValue) -> Option<u64> {
    match v {
        JsonValue::Number(JsonNumber::Unsigned(n)) => Some(n),
        _ => None,
    }
}

/// A JSON number that is an integer of 64 bits with a sign.
pub open spec fn as_i64(v: JsonValue) -> Option<i64> {
    match v {
        JsonValue::Number(JsonNumber::Unsigned(n)) => if n <= i64::MAX {
            Some(n as i64)
        } else {
            None
        },
        JsonValue::Number(JsonNumber::Negative(n)) => Some(n),
        _ => None,
    }
}

/// A JSON number that is an integer of 32 bits with a sign.
pub open spec fn as_i32(v: JsonValue) -> Option<i32> {
    match as_i64(v) {
        Some(i) => if i32::MIN <= i <= i32::MAX {
            Some(i as i32)
        } else {
            None
        },
        None => None,
    }
}

/// A JSON array of strings, in its order.
pub open spec fn as_texts(v: JsonValue) -> Option<Seq<Seq<char>>> {
    match v {
        JsonValue::Array(items) => if forall|i: int|
            0 <= i < items.len() ==> as_text(#[trigger] items[i]) is Some {
            Some(Seq::new(items.len(), |i: int| as_text(items[i]).unwrap()))
        } else {
            None
        },
        _ => None,
    }
}

/// A JSON object whose members are all strings, as pairs in its order.
pub open spec fn as_text_map(v: JsonValue) -> Option<Seq<(Seq<char>, Seq<char>)>> {
    match v {
        JsonValue::Object(entries) => if forall|i: int|
            0 <= i < entries.len() ==> as_text((#[trigger] entries[i]).1) is Some {
            Some(Seq::new(entries.len(), |i: int| (entries[i].0, as_text(entries[i].1).unwrap())))
        } else {
            None
        },
        _ => None,
    }
}

/// A JSON number that is a byte.
pub open spec fn as_byte(v: JsonValue) -> Option<u8> {
    match as_u64(v) {
        Some(n) => if n <= u8::MAX {
            Some(n as u8)
        } else {
            None
        },
        None => None,
    }
}

/// A JSON array of bytes, in its order.
pub open spec fn as_bytes(v: JsonValue) -> Option<Seq<u8>> {
    match v {
        JsonValue::Array(items) => if forall|i: int|
            0 <= i < items.len() ==> as_byte(#[trigger] items[i]) is Some {
            Some(Seq::new(items.len(), |i: int| as_byte(items[i]).unwrap()))
        } else {
            None
        },
        _ => None,
    }
}

/// A JSON array of arrays of bytes, in its order.
pub open spec fn as_files(v: JsonValue) -> Option<Seq<Seq<u8>>> {
    match v {
        JsonValue::Array(items) => if forall|i: int|
            0 <= i < items.len() ==> as_bytes(#[trigger] items[i]) is Some {
            Some(Seq::new(items.len(), |i: int| as_bytes(items[i]).unwrap()))
        } else {
            None
        },
        _ => None,
    }
}

/// A member that must be there: its reading, or nothing where it is
/// missing or has another shape.
pub open spec fn required<T>(field: Option<JsonValue>, reading: Option<T>) -> Option<T> {
    match field {
        Some(_) => reading,
        None => None,
    }
}

/// A member that may be left out or be `null`: both read as unset. A member
/// of another shape has no reading.
pub open spec fn optional<T>(field: Option<JsonValue>, reading: Option<T>) -> Option<Option<T>> {
    match field {
        None => Some(None),
        Some(JsonValue::Null) => Some(None),
        Some(_) => match reading {
            Some(t) => Some(Some(t)),
            None => None,
        },
    }
}

impl JsonValue {
    /// The required string member `key`.
    pub open spec fn text_at(self, key: Seq<char>) -> Option<Seq<char>> {
        required(self.get(key), as_text(self.get(key).unwrap()))
    }

    /// The optional string member `key`.
    pub open spec fn opt_text_at(self, key: Seq<char>) -> Option<Option<Seq<char>>> {
        optional(self.get(key), as_text(self.get(key).unwrap()))
    }

    /// The required boolean member `key`.
    pub open spec fn flag_at(self, key: Seq<char>) -> Option<bool> {
        required(self.get(key), as_flag(self.get(key).unwrap()))
    }

    /// The optional boolean member `key`.
    pub open spec fn opt_flag_at(self, key: Seq<char>) -> Option<Option<bool>> {
        optional(self.get(key), as_flag(self.get(key).unwrap()))
    }

    /// The required unsigned member `key`.
    pub open spec fn u64_at(self, key: Seq<char>) -> Option<u64> {
        required(self.get(key), as_u64(self.get(key).unwrap()))
    }

    /// The optional unsigned member `key`.
    pub open spec fn opt_u64_at(self, key: Seq<char>) -> Option<Option<u64>> {
        optional(self.get(key), as_u64(self.get(key).unwrap()))
    }

    /// The optional signed member `key`, of 64 bits.
    pub open spec fn opt_i64_at(self, key: Seq<char>) -> Option<Option<i64>> {
        optional(self.get(key), as_i64(self.get(key).unwrap()))
    }

    /// The optional signed member `key`, of 32 bits.
    pub open spec fn opt_i32_at(self, key: Seq<char>) -> Option<Option<i32>> {
        optional(self.get(key), as_i32(self.get(key).unwrap()))
    }

    /// The required member `key` that lists strings.
    pub open spec fn texts_at(self, key: Seq<char>) -> Option<Seq<Seq<char>>> {
        required(self.get(key), as_texts(self.get(key).unwrap()))
    }

    /// The optional member `key` that lists strings.
    pub open spec fn opt_texts_at(self, key: Seq<char>) -> Option<Option<Seq<Seq<char>>>> {
        optional(self.get(key), as_texts(self.get(key).unwrap()))
    }

    /// The required member `key` that maps strings to strings.
    pub open spec fn text_map_at(self, key: Seq<char>) -> Option<Seq<(Seq<char>, Seq<char>)>> {
        required(self.get(key), as_text_map(self.get(key).unwrap()))
    }
}

impl JsonValue {
    /// The optional member `key` that maps strings to strings.
    pub open spec fn opt_text_map_at(self, key: Seq<char>) -> Option<
        Option<Seq<(Seq<char>, Seq<char>)>>,
    > {
        optional(self.get(key), as_text_map(self.get(key).unwrap()))
    }

    /// The optional member `key` that lists files.
    pub open spec fn opt_files_at(self, key: Seq<char>) -> Option<Option<Seq<Seq<u8>>>> {
        optional(self.get(key), as_files(self.get(key).unwrap()))
    }
}

impl Json {
    /// Reads a file's bytes.
    pub fn bytes(&self) -> (r: Option<Vec<u8>>)
        ensures
            match r {
                Some(l) => as_bytes(self.model()) == Some(l@),
                None => as_bytes(self.model()) is None,
            },
    {
        match self {
            Json::Array(items) => {
                let ghost all = self.model()->Array_0;
                let mut out: Vec<u8> = Vec::new();
                let mut i: usize = 0;
                while i < items.len()
                    invariant
                        i <= items.len(),
                        self.model() == JsonValue::Array(all),
                        all.len() == items@.len(),
                        forall|k: int|
                            0 <= k < all.len() ==> all[k] == (#[trigger] items@[k]).model(),
                        out@.len() == i,
                        forall|k: int| 0 <= k < i ==> as_byte(#[trigger] all[k]) == Some(out@[k]),
                    decreases items.len() - i,
                {
                    match items[i].unsigned() {
                        Some(n) => {
                            if n > 255 {
                                assert(as_byte(all[i as int]) is None);
                                return None;
                            }
                            out.push(n as u8);
                        },
                        None => {
                            assert(as_byte(all[i as int]) is None);
                            return None;
                        },
                    }
                    i += 1;
                }
                proof {
                    assert(out@ =~= as_bytes(self.model()).unwrap());
                }
                Some(out)
            },
            _ => None,
        }
    }

    /// Reads a list of files.
    pub fn files(&self) -> (r: Option<Vec<Vec<u8>>>)
        ensures
            match r {
                Some(l) => as_files(self.model()) == Some(files_view(l@)),
                None => as_files(self.model()) is None,
            },
    {
        match self {
            Json::Array(items) => {
                let ghost all = self.model()->Array_0;
                let mut out: Vec<Vec<u8>> = Vec::new();
                let mut i: usize = 0;
                while i < items.len()
                    invariant
                        i <= items.len(),
                        self.model() == JsonValue::Array(all),
                        all.len() == items@.len(),
                        forall|k: int|
                            0 <= k < all.len() ==> all[k] == (#[trigger] items@[k]).model(),
                        out@.len() == i,
                        forall|k: int| 0 <= k < i ==> as_bytes(#[trigger] all[k]) == Some(out@[k]@),
                    decreases items.len() - i,
                {
                    match items[i].bytes() {
                        Some(b) => {
                            out.push(b);
                        },
                        None => {
                            assert(as_bytes(all[i as int]) is None);
                            return None;
                        },
                    }
                    i += 1;
                }
                proof {
                    assert(files_view(out@) =~= as_files(self.model()).unwrap());
                }
                Some(out)
            },
            _ => None,
        }
    }

    /// Reads the optional member `key` that maps strings to strings.
    pub fn opt_text_map_at(&self, key: &str) -> (r: Option<Option<Vec<(String, String)>>>)
        ensures
            match r {
                Some(o) => self.model().opt_text_map_at(key@) == Some(pairs_opt(o)),
                None => self.model().opt_text_map_at(key@) is None,
            },
    {
        match self.get(key) {
            None => Some(None),
            Some(f) => if f.is_null() {
                Some(None)
            } else {
                match f.text_map() {
                    Some(l) => Some(Some(l)),
                    None => None,
                }
            },
        }
    }

    /// Reads the optional member `key` that lists files.
    pub fn opt_files_at(&self, key: &str) -> (r: Option<Option<Vec<Vec<u8>>>>)
        ensures
            match r {
                Some(o) => self.model().opt_files_at(key@) == Some(files_opt(o)),
                None => self.model().opt_files_at(key@) is None,
            },
    {
        match self.get(key) {
            None => Some(None),
            Some(f) => if f.is_null() {
                Some(None)
            } else {
                match f.files() {
                    Some(l) => Some(Some(l)),
                    None => None,
                }
            },
        }
    }

    /// Whether this value is `null`.
    pub fn is_null(&self) -> (r: bool)
        ensures
            r == (self.model() is Null),
    {
        match self {
            Json::Null => true,
            _ => false,
        }
    }

    /// Whether this value is an object.
    pub fn is_object(&self) -> (r: bool)
        ensures
            r == (self.model() is Object),
    {
        match self {
            Json::Object(_) => true,
            _ => false,
        }
    }

    /// Reads a string.
    pub fn text(&self) -> (r: Option<String>)
        ensures
            text_opt(r) == as_text(self.model()),
    {
        match self {
            Json::Str(s) => Some(s.clone()),
            _ => None,
        }
    }

    /// Reads a boolean.
    pub fn flag(&self) -> (r: Option<bool>)
        ensures
            r == as_flag(self.model()),
    {
        match self {
            Json::Bool(b) => Some(*b),
            _ => None,
        }
    }

    /// Reads an unsigned integer.
    pub fn unsigned(&self) -> (r: Option<u64>)
        ensures
            r == as_u64(self.model()),
    {
        match self {
            Json::Number(JsonNumber::Unsigned(n)) => Some(*n),
            _ => None,
        }
    }

    /// Reads a signed integer of 64 bits.
    pub fn signed(&self) -> (r: Option<i64>)
        ensures
            r == as_i64(self.model()),
    {
        match self {
            Json::Number(JsonNumber::Unsigned(n)) => if *n <= 9223372036854775807u64 {
                Some(*n as i64)
            } else {
                None
            },
            Json::Number(JsonNumber::Negative(n)) => Some(*n),
            _ => None,
        }
    }

    /// Reads a signed integer of 32 bits.
    pub fn signed32(&self) -> (r: Option<i32>)
        ensures
            r == as_i32(self.model()),
    {
        match self.signed() {
            Some(i) => if -2147483648i64 <= i && i <= 2147483647i64 {
                Some(i as i32)
            } else {
                None
            },
            None => None,
        }
    }

    /// Reads a list of strings.
    pub fn texts(&self) -> (r: Option<Vec<String>>)
        ensures
            texts_opt(r) == as_texts(self.model()),
    {
        match self {
            Json::Array(items) => {
                let ghost all = self.model()->Array_0;
                let mut out: Vec<String> = Vec::new();
                let mut i: usize = 0;
                while i < items.len()
                    invariant
                        i <= items.len(),
                        self.model() == JsonValue::Array(all),
                        all.len() == items@.len(),
                        forall|k: int|
                            0 <= k < all.len() ==> all[k] == (#[trigger] items@[k]).model(),
                        out@.len() == i,
                        forall|k: int| 0 <= k < i ==> as_text(#[trigger] all[k]) == Some(out@[k]@),
                    decreases items.len() - i,
                {
                    match items[i].text() {
                        Some(s) => {
                            out.push(s);
                        },
                        None => {
                            return None;
                        },
                    }
                    i += 1;
                }
                proof {
                    assert(texts_view(out@) =~= as_texts(self.model()).unwrap());
                }
                Some(out)
            },
            _ => None,
        }
    }

    /// Reads an object whose members are all strings.
    pub fn text_map(&self) -> (r: Option<Vec<(String, String)>>)
        ensures
            match r {
                Some(l) => as_text_map(self.model()) == Some(pairs_view(l@)),
                None => as_text_map(self.model()) is None,
            },
    {
        match self {
            Json::Object(entries) => {
                let ghost all = self.model()->Object_0;
                let mut out: Vec<(String, String)> = Vec::new();
                let mut i: usize = 0;
                while i < entries.len()
                    invariant
                        i <= entries.len(),
                        self.model() == JsonValue::Object(all),
                        all.len() == entries@.len(),
                        forall|k: int|
                            0 <= k < all.len() ==> all[k] == (
                                entries@[k].0@,
                                (#[trigger] entries@[k]).1.model(),
                            ),
                        out@.len() == i,
                        forall|k: int|
                            0 <= k < i ==> as_text((#[trigger] all[k]).1) == Some(out@[k].1@)
                                && out@[k].0@ == all[k].0,
                    decreases entries.len() - i,
                {
                    match entries[i].1.text() {
                        Some(s) => {
                            out.push((entries[i].0.clone(), s));
                        },
                        None => {
                            return None;
                        },
                    }
                    i += 1;
                }
                proof {
                    assert(pairs_view(out@) =~= as_text_map(self.model()).unwrap());
                }
                Some(out)
            },
            _ => None,
        }
    }

    /// Reads the required string member `key`.
    pub fn text_at(&self, key: &str) -> (r: Option<String>)
        ensures
            text_opt(r) == self.model().text_at(key@),
    {
        match self.get(key) {
            Some(f) => f.text(),
            None => None,
        }
    }

    /// Reads the optional string member `key`.
    pub fn opt_text_at(&self, key: &str) -> (r: Option<Option<String>>)
        ensures
            match r {
                Some(o) => self.model().opt_text_at(key@) == Some(text_opt(o)),
                None => self.model().opt_text_at(key@) is None,
            },
    {
        match self.get(key) {
            None => Some(None),
            Some(f) => if f.is_null() {
                Some(None)
            } else {
                match f.text() {
                    Some(s) => Some(Some(s)),
                    None => None,
                }
            },
        }
    }

    /// Reads the required boolean member `key`.
    pub fn flag_at(&self, key: &str) -> (r: Option<bool>)
        ensures
            r == self.model().flag_at(key@),
    {
        match self.get(key) {
            Some(f) => f.flag(),
            None => None,
        }
    }

    /// Reads the optional boolean member `key`.
    pub fn opt_flag_at(&self, key: &str) -> (r: Option<Option<bool>>)
        ensures
            r == self.model().opt_flag_at(key@),
    {
        match self.get(key) {
            None => Some(None),
            Some(f) => if f.is_null() {
                Some(None)
            } else {
                match f.flag() {
                    Some(b) => Some(Some(b)),
                    None => None,
                }
            },
        }
    }

    /// Reads the required unsigned member `key`.
    pub fn u64_at(&self, key: &str) -> (r: Option<u64>)
        ensures
            r == self.model().u64_at(key@),
    {
        match self.get(key) {
            Some(f) => f.unsigned(),
            None => None,
        }
    }

    /// Reads the optional unsigned member `key`.
    pub fn opt_u64_at(&self, key: &str) -> (r: Option<Option<u64>>)
        ensures
            r == self.model().opt_u64_at(key@),
    {
        match self.get(key) {
            None => Some(None),
            Some(f) => if f.is_null() {
                Some(None)
            } else {
                match f.unsigned() {
                    Some(n) => Some(Some(n)),
                    None => None,
                }
            },
        }
    }

    /// Reads the optional signed member `key`, of 64 bits.
    pub fn opt_i64_at(&self, key: &str) -> (r: Option<Option<i64>>)
        ensures
            r == self.model().opt_i64_at(key@),
    {
        match self.get(key) {
            None => Some(None),
            Some(f) => if f.is_null() {
                Some(None)
            } else {
                match f.signed() {
                    Some(n) => Some(Some(n)),
                    None => None,
                }
            },
        }
    }

    /// Reads the optional signed member `key`, of 32 bits.
    pub fn opt_i32_at(&self, key: &str) -> (r: Option<Option<i32>>)
        ensures
            r == self.model().opt_i32_at(key@),
    {
        match self.get(key) {
            None => Some(None),
            Some(f) => if f.is_null() {
                Some(None)
            } else {
                match f.signed32() {
                    Some(n) => Some(Some(n)),
                    None => None,
                }
            },
        }
    }

    /// Reads the required member `key` that lists strings.
    pub fn texts_at(&self, key: &str) -> (r: Option<Vec<String>>)
        ensures
            texts_opt(r) == self.model().texts_at(key@),
    {
        match self.get(key) {
            Some(f) => f.texts(),
            None => None,
        }
    }

    /// Reads the optional member `key` that lists strings.
    pub fn opt_texts_at(&self, key: &str) -> (r: Option<Option<Vec<String>>>)
        ensures
            match r {
                Some(o) => self.model().opt_texts_at(key@) == Some(texts_opt(o)),
                None => self.model().opt_texts_at(key@) is None,
            },
    {
        match self.get(key) {
            None => Some(None),
            Some(f) => if f.is_null() {
                Some(None)
            } else {
                match f.texts() {
                    Some(l) => Some(Some(l)),
                    None => None,
                }
            },
        }
    }

    /// Reads the required member `key` that maps strings to strings.
    pub fn text_map_at(&self, key: &str) -> (r: Option<Vec<(String, String)>>)
        ensures
            match r {
                Some(l) => self.model().text_map_at(key@) == Some(pairs_view(l@)),
                None => self.model().text_map_at(key@) is None,
            },
    {
        match self.get(key) {
            Some(f) => f.text_map(),
            None => None,
        }
    }
}

} // verus!
