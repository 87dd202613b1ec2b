//! JSON values as the provider's wire format uses them, with a mathematical
//! model that the contracts of the whole library speak about.

use vstd::prelude::*;

verus! {

/// A JSON number.
#[derive(Debug, PartialEq)]
pub enum JsonNumber {
    /// An integer from 0 up to 2^64 - 1.
    Unsigned(u64),
    /// An integer with a sign; a document that was read has it for the
    /// integers below 0, down to -2^63.
    Negative(i64),
    /// Any other number, kept as it was read. It reads as no integer.
    Real(serde_json::Number),
}

/// A JSON value held in memory.
#[derive(Debug, PartialEq)]
pub enum Json {
    Null,
    Bool(bool),
    Number(JsonNumber),
    Str(String),
    Array(Vec<Json>),
    Object(Vec<(String, Json)>),
}

/// The mathematical value that a `Json` stands for.
pub enum JsonValue {
    Null,
    Bool(bool),
    Number(JsonNumber),
    Str(Seq<char>),
    Array(Seq<JsonValue>),
    Object(Seq<(Seq<char>, JsonValue)>),
}

impl Json {
    /// The value this document stands for.
    pub open spec fn model(self) -> JsonValue
        decreases self,
    {
        match self {
            Json::Null => JsonValue::Null,
            Json::Bool(b) => JsonValue::Bool(b),
            Json::Number(n) => JsonValue::Number(n),
            Json::Str(s) => JsonValue::Str(s@),
            Json::Array(items) => JsonValue::Array(
                Seq::new(
                    items@.len(),
                    |i: int|
                        if 0 <= i < items@.len() {
                            items@[i].model()
                        } else {
                            JsonValue::Null
                        },
                ),
            ),
            Json::Object(entries) => JsonValue::Object(
                Seq::new(
                    entries@.len(),
                    |i: int|
                        if 0 <= i < entries@.len() {
                            (entries@[i].0@, entries@[i].1.model())
                        } else {
                            (Seq::empty(), JsonValue::Null)
                        },
                ),
            ),
        }
    }
}


/// The value of the first entry of `entries`, from index `from` on, whose
/// key is `key`.
#[verifier::opaque]
pub open spec fn find_from(
    entries: Seq<(Seq<char>, JsonValue)>,
    key: Seq<char>,
    from: int,
) -> Option<JsonValue>
    decreases entries.len() - from,
{
    if from < 0 || from >= entries.len() {
        None
    } else if entries[from].0 == key {
        Some(entries[from].1)
    } else {
        find_from(entries, key, from + 1)
    }
}

impl JsonValue {
    /// The member `key` of an object; nothing for a missing member and for
    /// every value that is no object.
    pub open spec fn get(self, key: Seq<char>) -> Option<JsonValue> {
        match self {
            JsonValue::Object(entries) => find_from(entries, key, 0),
            _ => None,
        }
    }

    /// Whether the object has a member `key`.
    pub open spec fn has(self, key: Seq<char>) -> bool {
        self.get(key) is Some
    }
}

/// Whether two strings hold the same characters.
pub(crate) fn same_text(a: &str, b: &str) -> (r: bool)
    ensures
        r == (a@ == b@),
{
    a.to_owned() == b.to_owned()
}

impl Json {
    /// Looks up the member `key` of an object.
    pub fn get(&self, key: &str) -> (r: Option<&Json>)
        ensures
            match r {
                Some(v) => self.model().get(key@) == Some(v.model()),
                None => self.model().get(key@) is None,
            },
    {
        match self {
            Json::Object(entries) => {
                let ghost all = self.model()->Object_0;
                let mut i: usize = 0;
                while i < entries.len()
                    invariant
                        i <= entries.len(),
                        self.model() == JsonValue::Object(all),
                        all.len() == entries@.len(),
                        forall|k: int|
                            0 <= k < all.len() ==> all[k] == (
                                entries@[k].0@,
                                (#[trigger] entries@[k]).1.model(),
                            ),
                        find_from(all, key@, 0) == find_from(all, key@, i as int),
                    decreases entries.len() - i,
                {
                    proof {
                        reveal(find_from);
                    }
                    if same_text(entries[i].0.as_str(), key) {
                        return Some(&entries[i].1);
                    }
                    i += 1;
                }
                proof {
                    reveal(find_from);
                }
                None
            },
            _ => None,
        }
    }
}

/// What `serde_json::from_str` reads from a text as a `serde_json::Value`:
/// nothing where the text is no JSON document.
pub uninterp spec fn parsed_text(text: Seq<char>) -> Option<JsonValue>;

/// `serde_json::Error`, carried through as it comes: nothing is known of
/// what is inside.
#[verifier::external_type_specification]
#[verifier::external_body]
pub struct ExJsonError(serde_json::Error);

/// `serde_json::Value`, which only the two conversions below look into.
#[verifier::external_type_specification]
#[verifier::external_body]
pub struct ExValue(serde_json::Value);

/// `serde_json::Number`, carried through for the numbers that are no
/// integers of 64 bits.
#[verifier::external_type_specification]
#[verifier::external_body]
pub struct ExNumber(serde_json::Number);

/// Moves a `serde_json::Value` into a `Json`, variant by variant. A number
/// for which `Number::as_u64` or `Number::as_i64` has an integer becomes
/// that integer; the members of an object come in the order in which its
/// `Map` hands them out.
#[verifier::external_body]
fn lift(value: serde_json::Value) -> Json {
    match value {
        serde_json::Value::Null => Json::Null,
        serde_json::Value::Bool(b) => Json::Bool(b),
        serde_json::Value::Number(n) => Json::Number(match (n.as_u64(), n.as_i64()) {
            (Some(u), _) => JsonNumber::Unsigned(u),
            (_, Some(i)) => JsonNumber::Negative(i),
            _ => JsonNumber::Real(n),
        }),
        serde_json::Value::String(s) => Json::Str(s),
        serde_json::Value::Array(a) => Json::Array(a.into_iter().map(lift).collect()),
        serde_json::Value::Object(m) => Json::Object(
            m.into_iter().map(|(k, v)| (k, lift(v))).collect(),
        ),
    }
}

/// Moves a `Json` into a `serde_json::Value`, variant by variant. Where an
/// object names a member twice, its `Map` keeps the later one.
#[verifier::external_body]
fn lower(doc: &Json) -> serde_json::Value {
    match doc {
        Json::Null => serde_json::Value::Null,
        Json::Bool(b) => serde_json::Value::Bool(*b),
        Json::Number(JsonNumber::Unsigned(u)) => serde_json::Value::from(*u),
        Json::Number(JsonNumber::Negative(i)) => serde_json::Value::from(*i),
        Json::Number(JsonNumber::Real(n)) => serde_json::Value::Number(n.clone()),
        Json::Str(s) => serde_json::Value::String(s.clone()),
        Json::Array(a) => serde_json::Value::Array(a.iter().map(lower).collect()),
        Json::Object(m) => serde_json::Value::Object(
            m.iter().map(|e| (e.0.clone(), lower(&e.1))).collect(),
        ),
    }
}

/// The text that `serde_json::to_string` writes for a `serde_json::Value`.
pub uninterp spec fn written_text(doc: JsonValue) -> Seq<char>;

/// `serde_json::to_string` at the type `serde_json::Value`: it gives a
/// text for every document, and the text is a function of the document
/// alone. Its documentation names two ways to fail, a `Serialize` impl that
/// fails and a map whose keys are no strings; the impl of `Value` only hands
/// on what the serializer returns, its maps are keyed by `String`, and the
/// text is written into a `Vec`, which takes every write.
#[verifier::external_body]
fn write_text(doc: &Json) -> (r: Result<String, serde_json::Error>)
    ensures
        r is Ok,
        r->Ok_0@ == written_text(doc.model()),
{
    serde_json::to_string(&lower(doc))
}

/// `serde_json::from_str` at the type `serde_json::Value`: the text is
/// accepted exactly when it is a JSON document, and the document is a
/// function of the text alone.
#[verifier::external_body]
fn read_text(text: &str) -> (r: Result<Json, serde_json::Error>)
    ensures
        r is Ok <==> parsed_text(text@) is Some,
        r is Ok ==> parsed_text(text@) == Some(r->Ok_0.model()),
{
    serde_json::from_str::<serde_json::Value>(text).map(lift)
}

impl Json {
    /// Reads a text as a JSON document.
    pub fn parse(text: &str) -> (r: Result<Json, serde_json::Error>)
        ensures
            r is Ok <==> parsed_text(text@) is Some,
            r is Ok ==> parsed_text(text@) == Some(r->Ok_0.model()),
    {
        read_text(text)
    }

    /// Writes the document as a text. Every document has one.
    pub fn to_text(&self) -> (r: Result<String, serde_json::Error>)
        ensures
            r is Ok,
            r->Ok_0@ == written_text(self.model()),
    {
        write_text(self)
    }
}

} // verus!
