//! Writing typed values as JSON, with optional members left out when unset.

use vstd::prelude::*;
use crate::decode::KeyedValues;
use crate::json::{Json, field, keys, lemma_keys_push};

verus! {

/// A type written as a JSON value. `encodes_as(j)` says that `j` is its
/// wire form.
pub trait ToJson: Sized {
    spec fn encodes_as(&self, j: Json) -> bool;

    fn to_json(&self) -> (r: Json)
        ensures
            self.encodes_as(r),
    ;
}

/// The member `key` is present and is the wire form of `v`.
pub open spec fn enc<T: ToJson>(j: Json, key: Seq<char>, v: T) -> bool {
    match field(j, key) {
        Some(x) => v.encodes_as(x),
        None => false,
    }
}

/// An unset optional value leaves no member at all; a set one is written as
/// a required one would be.
pub open spec fn enc_opt<T: ToJson>(j: Json, key: Seq<char>, v: Option<T>) -> bool {
    match v {
        None => field(j, key) is None,
        Some(w) => enc(j, key, w),
    }
}

/// `s` with `key` appended when `present`.
pub open spec fn with_key(s: Seq<Seq<char>>, key: Seq<char>, present: bool) -> Seq<Seq<char>> {
    if present {
        s.push(key)
    } else {
        s
    }
}

/// Appends the member `key` with the wire form of `v`.
pub fn put<T: ToJson>(es: &mut Vec<(String, Json)>, key: &str, v: &T)
    ensures
        final(es)@ == old(es)@.push(final(es)@.last()),
        final(es)@.last().0@ == key@,
        v.encodes_as(final(es)@.last().1),
        keys(final(es)@) == keys(old(es)@).push(key@),
{
    let j = v.to_json();
    let k = key.to_owned();
    let ghost e = (k, j);
    es.push((k, j));
    proof {
        lemma_keys_push(old(es)@, e);
    }
}

/// Appends the member `key` when `v` is set; leaves `es` as it was otherwise.
pub fn put_opt<T: ToJson>(es: &mut Vec<(String, Json)>, key: &str, v: &Option<T>)
    ensures
        match v {
            None => final(es)@ == old(es)@,
            Some(w) => final(es)@ == old(es)@.push(final(es)@.last())
                && final(es)@.last().0@ == key@
                && w.encodes_as(final(es)@.last().1),
        },
        keys(final(es)@) == with_key(keys(old(es)@), key@, v is Some),
{
    match v {
        Some(w) => put(es, key, w),
        None => {},
    }
}

impl ToJson for String {
    open spec fn encodes_as(&self, j: Json) -> bool {
        j is Str && j->Str_0@ == self@
    }

    fn to_json(&self) -> (r: Json) {
        Json::Str(self.clone())
    }
}

impl ToJson for u64 {
    open spec fn encodes_as(&self, j: Json) -> bool {
        j == Json::Num(*self)
    }

    fn to_json(&self) -> (r: Json) {
        Json::Num(*self)
    }
}

impl ToJson for bool {
    open spec fn encodes_as(&self, j: Json) -> bool {
        j == Json::Bool(*self)
    }

    fn to_json(&self) -> (r: Json) {
        Json::Bool(*self)
    }
}

/// Written as an object with the same entries in the same order.
impl<V: ToJson> ToJson for KeyedValues<V> {
    open spec fn encodes_as(&self, j: Json) -> bool {
        j is Obj && j->Obj_0@.len() == self.entries@.len()
        && (forall|i: int| 0 <= i < self.entries@.len() ==> j->Obj_0@[i].0@ == #[trigger] self.entries@[i].0@)
        && forall|i: int| 0 <= i < self.entries@.len() ==> #[trigger] self.entries@[i].1.encodes_as(j->Obj_0@[i].1)
    }

    fn to_json(&self) -> (r: Json) {
        let mut out: Vec<(String, Json)> = Vec::new();
        let mut i: usize = 0;
        while i < self.entries.len()
            invariant
                i <= self.entries@.len(),
                out@.len() == i,
                forall|k: int| 0 <= k < i ==> out@[k].0@ == #[trigger] self.entries@[k].0@,
                forall|k: int| 0 <= k < i ==> #[trigger] self.entries@[k].1.encodes_as(out@[k].1),
            decreases self.entries@.len() - i,
        {
            let k = self.entries[i].0.clone();
            let v = self.entries[i].1.to_json();
            out.push((k, v));
            i += 1;
        }
        Json::Obj(out)
    }
}

} // verus!
