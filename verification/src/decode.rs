//! Records that are read from JSON: the trait they share and the readers for
//! lists of records and for optional records.

use crate::fields::{as_flag, as_text, as_u64};
use crate::json::{Json, JsonValue};
use vstd::prelude::*;

verus! {

/// A record with a wire shape.
pub trait FromJson: Sized {
    /// Whether `v` has every required member of this record, each member in
    /// its own shape.
    spec fn well_shaped(v: JsonValue) -> bool;

    /// Whether this record holds, field by field, what `v` says.
    spec fn described_by(&self, v: JsonValue) -> bool;

    /// Reads the record: it is there exactly for a value of its shape, and
    /// then holds what the value says.
    fn from_json(j: &Json) -> (r: Option<Self>)
        ensures
            match r {
                Some(t) => Self::well_shaped(j.model()) && t.described_by(j.model()),
                None => !Self::well_shaped(j.model()),
            },
    ;
}

/// An unsigned integer as a payload of its own.
impl FromJson for u64 {
    open spec fn well_shaped(v: JsonValue) -> bool {
        as_u64(v) is Some
    }

    open spec fn described_by(&self, v: JsonValue) -> bool {
        as_u64(v) == Some(*self)
    }

    fn from_json(j: &Json) -> (r: Option<Self>) {
        j.unsigned()
    }
}

/// A boolean as a payload of its own.
impl FromJson for bool {
    open spec fn well_shaped(v: JsonValue) -> bool {
        as_flag(v) is Some
    }

    open spec fn described_by(&self, v: JsonValue) -> bool {
        as_flag(v) == Some(*self)
    }

    fn from_json(j: &Json) -> (r: Option<Self>) {
        j.flag()
    }
}

/// A string as a payload of its own.
impl FromJson for String {
    open spec fn well_shaped(v: JsonValue) -> bool {
        as_text(v) is Some
    }

    open spec fn described_by(&self, v: JsonValue) -> bool {
        as_text(v) == Some(self@)
    }

    fn from_json(j: &Json) -> (r: Option<Self>) {
        j.text()
    }
}

/// Whether `v` is an array of records of shape `T`.
pub open spec fn list_shaped<T: FromJson>(v: JsonValue) -> bool {
    &&& v is Array
    &&& forall|i: int| 0 <= i < v->Array_0.len() ==> T::well_shaped(#[trigger] v->Array_0[i])
}

/// Whether `items` holds what the array `v` says, item by item and in its
/// order.
pub open spec fn list_described<T: FromJson>(items: Seq<T>, v: JsonValue) -> bool {
    &&& v is Array
    &&& items.len() == v->Array_0.len()
    &&& forall|i: int| 0 <= i < items.len() ==> (#[trigger] items[i]).described_by(v->Array_0[i])
}

/// Whether an optional member is unset (missing or `null`).
pub open spec fn unset(field: Option<JsonValue>) -> bool {
    field is None || field == Some(JsonValue::Null)
}

/// Whether an optional member is unset or a record of shape `T`.
pub open spec fn opt_shaped<T: FromJson>(field: Option<JsonValue>) -> bool {
    unset(field) || T::well_shaped(field.unwrap())
}

/// Whether `o` holds what an optional member says.
pub open spec fn opt_described<T: FromJson>(o: Option<T>, field: Option<JsonValue>) -> bool {
    match o {
        Some(t) => !unset(field) && t.described_by(field.unwrap()),
        None => unset(field),
    }
}

/// Whether a member is there and is a record of shape `T`.
pub open spec fn req_shaped<T: FromJson>(field: Option<JsonValue>) -> bool {
    field is Some && T::well_shaped(field.unwrap())
}

/// Whether `t` holds what a required member says.
pub open spec fn req_described<T: FromJson>(t: T, field: Option<JsonValue>) -> bool {
    field is Some && t.described_by(field.unwrap())
}

/// Whether `items` holds what a required list member says.
pub open spec fn req_list_described<T: FromJson>(items: Seq<T>, field: Option<JsonValue>) -> bool {
    field is Some && list_described(items, field.unwrap())
}

/// Whether a member is there and lists records of shape `T`.
pub open spec fn req_list_shaped<T: FromJson>(field: Option<JsonValue>) -> bool {
    field is Some && list_shaped::<T>(field.unwrap())
}

/// Whether an optional member is unset or lists records of shape `T`.
pub open spec fn opt_list_shaped<T: FromJson>(field: Option<JsonValue>) -> bool {
    unset(field) || list_shaped::<T>(field.unwrap())
}

/// Whether `o` holds what an optional list member says.
pub open spec fn opt_list_described<T: FromJson>(
    o: Option<Vec<T>>,
    field: Option<JsonValue>,
) -> bool {
    match o {
        Some(l) => !unset(field) && list_described(l@, field.unwrap()),
        None => unset(field),
    }
}

/// Reads an array of records.
pub fn read_list<T: FromJson>(j: &Json) -> (r: Option<Vec<T>>)
    ensures
        match r {
            Some(l) => list_shaped::<T>(j.model()) && list_described(l@, j.model()),
            None => !list_shaped::<T>(j.model()),
        },
{
    match j {
        Json::Array(items) => {
            let ghost all = j.model()->Array_0;
            let mut out: Vec<T> = Vec::new();
            let mut i: usize = 0;
            while i < items.len()
                invariant
                    i <= items.len(),
                    j.model() == JsonValue::Array(all),
                    all.len() == items@.len(),
                    forall|k: int| 0 <= k < all.len() ==> all[k] == (#[trigger] items@[k]).model(),
                    out@.len() == i,
                    forall|k: int| 0 <= k < i ==> T::well_shaped(#[trigger] all[k]),
                    forall|k: int| 0 <= k < i ==> (#[trigger] out@[k]).described_by(all[k]),
                decreases items.len() - i,
            {
                match T::from_json(&items[i]) {
                    Some(t) => {
                        out.push(t);
                    },
                    None => {
                        assert(!T::well_shaped(j.model()->Array_0[i as int]));
                        return None;
                    },
                }
                i += 1;
            }
            Some(out)
        },
        _ => None,
    }
}

/// Reads an optional member that holds one record.
pub fn read_opt<T: FromJson>(j: &Json, key: &str) -> (r: Option<Option<T>>)
    ensures
        match r {
            Some(o) => opt_shaped::<T>(j.model().get(key@)) && opt_described(
                o,
                j.model().get(key@),
            ),
            None => !opt_shaped::<T>(j.model().get(key@)),
        },
{
    match j.get(key) {
        None => Some(None),
        Some(f) => if f.is_null() {
            Some(None)
        } else {
            match T::from_json(f) {
                Some(t) => Some(Some(t)),
                None => None,
            }
        },
    }
}

/// Reads a required member that holds one record.
pub fn read_req<T: FromJson>(j: &Json, key: &str) -> (r: Option<T>)
    ensures
        match r {
            Some(t) => req_shaped::<T>(j.model().get(key@)) && req_described(
                t,
                j.model().get(key@),
            ),
            None => !req_shaped::<T>(j.model().get(key@)),
        },
{
    match j.get(key) {
        None => None,
        Some(f) => T::from_json(f),
    }
}

/// Reads a required member that lists records.
pub fn read_req_list<T: FromJson>(j: &Json, key: &str) -> (r: Option<Vec<T>>)
    ensures
        match r {
            Some(l) => req_list_shaped::<T>(j.model().get(key@)) && req_list_described(
                l@,
                j.model().get(key@),
            ),
            None => !req_list_shaped::<T>(j.model().get(key@)),
        },
{
    match j.get(key) {
        None => None,
        Some(f) => read_list::<T>(f),
    }
}

/// Reads an optional member that lists records.
pub fn read_opt_list<T: FromJson>(j: &Json, key: &str) -> (r: Option<Option<Vec<T>>>)
    ensures
        match r {
            Some(o) => opt_list_shaped::<T>(j.model().get(key@)) && opt_list_described(
                o,
                j.model().get(key@),
            ),
            None => !opt_list_shaped::<T>(j.model().get(key@)),
        },
{
    match j.get(key) {
        None => Some(None),
        Some(f) => if f.is_null() {
            Some(None)
        } else {
            match read_list::<T>(f) {
                Some(l) => Some(Some(l)),
                None => None,
            }
        },
    }
}

} // verus!
