//! What writing and reading have to do with each other: lemmas on the
//! members of an object that is put together piece by piece, and on values
//! that are written and read back.

use crate::decode::{list_described, list_shaped, FromJson};
use crate::encode::{
    bytes_value, files_value, kept_pairs, kept_upto, key_comes_later, keys_once, list_value,
    member, opt_member, pairs_value, texts_value, ToJson,
};
use crate::fields::{
    as_bytes, as_files, as_text_map, as_texts, files_view, pairs_view, texts_view,
};
use crate::json::{find_from, JsonValue};
use vstd::prelude::*;

verus! {

/// A record whose wire form reads back as the record itself.
pub trait ReadsBack: ToJson + FromJson {
    /// Whether no list of pairs in the record, or in a record inside it,
    /// names a key twice. Of such pairs only the last is written.
    spec fn canonical(&self) -> bool;

    /// What a record is written as has the record's shape; it describes the
    /// record field by field where the record is canonical.
    proof fn reads_back(&self)
        ensures
            Self::well_shaped(self.wire()),
            self.canonical() ==> self.described_by(self.wire()),
    ;
}

/// Whether an optional list of pairs names no key twice.
pub open spec fn opt_keys_once(o: Option<Vec<(String, String)>>) -> bool {
    o matches Some(l) ==> keys_once(l@)
}

/// Whether an optional record is canonical.
pub open spec fn opt_canonical<T: ReadsBack>(o: Option<T>) -> bool {
    o matches Some(t) ==> t.canonical()
}

/// Whether every record of a list is canonical.
pub open spec fn list_canonical<T: ReadsBack>(items: Seq<T>) -> bool {
    forall|i: int| 0 <= i < items.len() ==> (#[trigger] items[i]).canonical()
}

/// Whether every record of an optional list is canonical.
pub open spec fn opt_list_canonical<T: ReadsBack>(o: Option<Vec<T>>) -> bool {
    o matches Some(l) ==> list_canonical(l@)
}

/// Writes a record and reads it back. The reading never fails, and what is
/// read is described by what was written.
pub fn written_and_read<T: ReadsBack>(t: &T) -> (r: T)
    ensures
        r.described_by(t.wire()),
{
    let doc = t.to_json();
    proof {
        t.reads_back();
    }
    match T::from_json(&doc) {
        Some(r) => r,
        None => vstd::pervasive::unreached(),
    }
}

/// Whether no member is `null`.
pub open spec fn null_free(entries: Seq<(Seq<char>, JsonValue)>) -> bool {
    forall|i: int| 0 <= i < entries.len() ==> !((#[trigger] entries[i]).1 is Null)
}

/// What a record holds where another one has been written and read back:
/// both unset, or both set and the one described by the other's wire form.
pub open spec fn opt_same<T: ToJson + FromJson>(read: Option<T>, written: Option<T>) -> bool {
    match (read, written) {
        (Some(a), Some(b)) => a.described_by(b.wire()),
        (None, None) => true,
        _ => false,
    }
}

/// The same for lists: as many items, each described by the wire form of
/// the item at its place.
pub open spec fn list_same<T: ToJson + FromJson>(read: Seq<T>, written: Seq<T>) -> bool {
    &&& read.len() == written.len()
    &&& forall|i: int| 0 <= i < read.len() ==> (#[trigger] read[i]).described_by(written[i].wire())
}

/// The same for optional lists.
pub open spec fn opt_list_same<T: ToJson + FromJson>(
    read: Option<Vec<T>>,
    written: Option<Vec<T>>,
) -> bool {
    match (read, written) {
        (Some(a), Some(b)) => list_same(a@, b@),
        (None, None) => true,
        _ => false,
    }
}

proof fn lemma_find_in_second(
    a: Seq<(Seq<char>, JsonValue)>,
    b: Seq<(Seq<char>, JsonValue)>,
    key: Seq<char>,
    j: int,
)
    requires
        0 <= j <= b.len(),
    ensures
        find_from(a + b, key, a.len() + j) == find_from(b, key, j),
    decreases b.len() - j,
{
    reveal(find_from);
    if j < b.len() {
        assert((a + b)[a.len() + j] == b[j]);
        lemma_find_in_second(a, b, key, j + 1);
    }
}

proof fn lemma_find_in_both(
    a: Seq<(Seq<char>, JsonValue)>,
    b: Seq<(Seq<char>, JsonValue)>,
    key: Seq<char>,
    from: int,
)
    requires
        0 <= from <= a.len(),
    ensures
        find_from(a + b, key, from) == match find_from(a, key, from) {
            Some(v) => Some(v),
            None => find_from(b, key, 0),
        },
    decreases a.len() - from,
{
    reveal(find_from);
    if from == a.len() {
        lemma_find_in_second(a, b, key, 0);
    } else {
        assert((a + b)[from] == a[from]);
        lemma_find_in_both(a, b, key, from + 1);
    }
}

/// A lookup in nothing finds nothing.
pub proof fn lemma_find_in_none()
    ensures
        forall|key: Seq<char>| (#[trigger] find_from(Seq::empty(), key, 0)) is None,
{
    reveal(find_from);
}

/// What a lookup finds after one more member: what it found before, or
/// else the new member under its key.
pub open spec fn found_or(
    found: Option<JsonValue>,
    key: Seq<char>,
    k: Seq<char>,
    value: Option<JsonValue>,
) -> Option<JsonValue> {
    match found {
        Some(v) => Some(v),
        None => if key == k {
            value
        } else {
            None
        },
    }
}

/// After a member was added: what was found before is still found, the
/// new member is found under its key where nothing was, and no member is
/// `null` if none was and the new one is not.
pub proof fn lemma_after_member(a: Seq<(Seq<char>, JsonValue)>, k: Seq<char>, value: JsonValue)
    ensures
        forall|key: Seq<char>| #[trigger]
            find_from(a + member(k, value), key, 0) == found_or(
                find_from(a, key, 0),
                key,
                k,
                Some(value),
            ),
        null_free(a) && !(value is Null) ==> null_free(a + member(k, value)),
{
    assert forall|key: Seq<char>| #[trigger]
        find_from(a + member(k, value), key, 0) == found_or(
            find_from(a, key, 0),
            key,
            k,
            Some(value),
        ) by {
        lemma_find_in_both(a, member(k, value), key, 0);
        reveal_with_fuel(find_from, 3);
    }
}

/// After an optional member was added: an unset one changes nothing.
pub proof fn lemma_after_opt_member(
    a: Seq<(Seq<char>, JsonValue)>,
    k: Seq<char>,
    value: Option<JsonValue>,
)
    ensures
        forall|key: Seq<char>| #[trigger]
            find_from(a + opt_member(k, value), key, 0) == found_or(
                find_from(a, key, 0),
                key,
                k,
                value,
            ),
        null_free(a) && value != Some(JsonValue::Null) ==> null_free(a + opt_member(k, value)),
{
    match value {
        Some(v) => {
            lemma_after_member(a, k, v);
        },
        None => {
            assert(a + opt_member(k, value) =~= a);
        },
    }
}

/// A list of strings reads back as it was written.
pub proof fn lemma_texts_read_back(items: Seq<String>)
    ensures
        as_texts(texts_value(items)) == Some(texts_view(items)),
{
    assert(as_texts(texts_value(items)).unwrap() =~= texts_view(items));
}

proof fn lemma_kept_upto_when_once(items: Seq<(String, String)>, n: int)
    requires
        keys_once(items),
        0 <= n <= items.len(),
    ensures
        kept_upto(items, n) == pairs_view(items).take(n),
    decreases n,
{
    if n > 0 {
        lemma_kept_upto_when_once(items, n - 1);
        assert(!key_comes_later(items, n - 1));
        assert(kept_upto(items, n) =~= pairs_view(items).take(n));
    } else {
        assert(kept_upto(items, n) =~= pairs_view(items).take(n));
    }
}

/// Where no key occurs twice, every pair is written, at its place.
pub proof fn lemma_kept_when_once(items: Seq<(String, String)>)
    requires
        keys_once(items),
    ensures
        kept_pairs(items) == pairs_view(items),
{
    lemma_kept_upto_when_once(items, items.len() as int);
    assert(pairs_view(items).take(items.len() as int) =~= pairs_view(items));
}

proof fn lemma_kept_upto_origin(items: Seq<(String, String)>, n: int)
    requires
        0 <= n <= items.len(),
    ensures
        forall|a: int|
            0 <= a < kept_upto(items, n).len() ==> exists|i: int|
                0 <= i < n && !key_comes_later(items, i) && (#[trigger] kept_upto(items, n)[a]) == (
                    items[i].0@,
                    items[i].1@,
                ),
        forall|a: int, b: int|
            0 <= a < b < kept_upto(items, n).len() ==> (#[trigger] kept_upto(items, n)[a]).0 != (
            #[trigger] kept_upto(items, n)[b]).0,
    decreases n,
{
    if n > 0 {
        lemma_kept_upto_origin(items, n - 1);
        let before = kept_upto(items, n - 1);
        let now = kept_upto(items, n);
        if !key_comes_later(items, n - 1) {
            assert forall|a: int| 0 <= a < now.len() implies exists|i: int|
                0 <= i < n && !key_comes_later(items, i) && (#[trigger] now[a]) == (
                    items[i].0@,
                    items[i].1@,
                ) by {
                if a < before.len() {
                    assert(now[a] == before[a]);
                    let i = choose|i: int|
                        0 <= i < n - 1 && !key_comes_later(items, i) && before[a] == (
                            items[i].0@,
                            items[i].1@,
                        );
                    assert(0 <= i < n && !key_comes_later(items, i) && now[a] == (
                        items[i].0@,
                        items[i].1@,
                    ));
                } else {
                    assert(now[a] == (items[n - 1].0@, items[n - 1].1@));
                }
            }
            assert forall|a: int, b: int| 0 <= a < b < now.len() implies (#[trigger] now[a]).0 != (
            #[trigger] now[b]).0 by {
                if b < before.len() {
                    assert(now[a] == before[a] && now[b] == before[b]);
                } else {
                    assert(now[a] == before[a]);
                    let i = choose|i: int|
                        0 <= i < n - 1 && !key_comes_later(items, i) && before[a] == (
                            items[i].0@,
                            items[i].1@,
                        );
                    assert(items[n - 1].0@ != items[i].0@);
                }
            }
        }
    }
}

/// Of the pairs that are written no two have one key, and each is a pair of
/// the list after which the list has no other with its key.
pub proof fn lemma_kept_keys_once(items: Seq<(String, String)>)
    ensures
        forall|a: int, b: int|
            0 <= a < b < kept_pairs(items).len() ==> (#[trigger] kept_pairs(items)[a]).0 != (
            #[trigger] kept_pairs(items)[b]).0,
        forall|a: int|
            0 <= a < kept_pairs(items).len() ==> exists|i: int|
                0 <= i < items.len() && !key_comes_later(items, i) && (#[trigger] kept_pairs(
                    items,
                )[a]) == (items[i].0@, items[i].1@),
{
    lemma_kept_upto_origin(items, items.len() as int);
}

/// A list of string pairs reads back as the pairs that were written of it:
/// all of them, at their places, where no key occurs twice.
pub proof fn lemma_pairs_read_back(items: Seq<(String, String)>)
    ensures
        as_text_map(pairs_value(items)) == Some(kept_pairs(items)),
        keys_once(items) ==> as_text_map(pairs_value(items)) == Some(pairs_view(items)),
{
    assert(as_text_map(pairs_value(items)).unwrap() =~= kept_pairs(items));
    if keys_once(items) {
        lemma_kept_when_once(items);
    }
}

/// A file's bytes read back as they were written.
pub proof fn lemma_bytes_read_back(bytes: Seq<u8>)
    ensures
        as_bytes(bytes_value(bytes)) == Some(bytes),
{
    assert(as_bytes(bytes_value(bytes)).unwrap() =~= bytes);
}

/// A list of files reads back as it was written.
pub proof fn lemma_files_read_back(files: Seq<Vec<u8>>)
    ensures
        as_files(files_value(files)) == Some(files_view(files)),
{
    assert forall|i: int| 0 <= i < files.len() implies as_bytes(
        #[trigger] files_value(files)->Array_0[i],
    ) == Some(files[i]@) by {
        lemma_bytes_read_back(files[i]@);
    }
    assert(as_files(files_value(files)).unwrap() =~= files_view(files));
}

/// A list of records reads back as it was written, where its records are
/// canonical.
pub proof fn lemma_list_read_back<T: ReadsBack>(items: Seq<T>)
    ensures
        list_shaped::<T>(list_value(items)),
        list_canonical(items) ==> list_described(items, list_value(items)),
        forall|read: Seq<T>| #[trigger]
            list_described(read, list_value(items)) ==> list_same(read, items),
{
    assert forall|i: int| 0 <= i < items.len() implies T::well_shaped(
        #[trigger] list_value(items)->Array_0[i],
    ) && (items[i].canonical() ==> items[i].described_by(list_value(items)->Array_0[i])) by {
        items[i].reads_back();
    }
}

} // verus!
