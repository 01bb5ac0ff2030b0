//! Reading typed values out of JSON: the reading relation of each type, and
//! the helpers for required and optional members.

use vstd::prelude::*;
use crate::json::{Json, field, same};

verus! {

/// Why a response could not be read as the type that was asked for.
#[derive(Debug, Clone, Copy, PartialEq, Eq, Structural)]
pub enum DecodeError {
    /// A required member is missing, or a member holds a value of another type.
    Malformed,
    /// The discriminant of a polymorphic value names no variant known here.
    UnknownVariant,
}

/// A type read from a JSON value. `decodes_as(j, v)` says that `v` is a
/// faithful reading of `j`; `from_json` finds one, or fails where none exists.
pub trait FromJson: Sized {
    spec fn decodes_as(j: Json, v: Self) -> bool;

    fn from_json(j: &Json) -> (r: Result<Self, DecodeError>)
        ensures
            match r {
                Ok(v) => Self::decodes_as(*j, v),
                Err(_) => forall|v: Self| !#[trigger] Self::decodes_as(*j, v),
            },
    ;
}

/// The member `key` is present and reads as `v`.
pub open spec fn has<T: FromJson>(j: Json, key: Seq<char>, v: T) -> bool {
    match field(j, key) {
        Some(x) => T::decodes_as(x, v),
        None => false,
    }
}

/// An absent or null member reads as `None`; any other reads as `Some`.
pub open spec fn has_opt<T: FromJson>(j: Json, key: Seq<char>, v: Option<T>) -> bool {
    match field(j, key) {
        None => v is None,
        Some(Json::Null) => v is None,
        Some(x) => v matches Some(w) && T::decodes_as(x, w),
    }
}

/// Reads the required member `key`.
pub fn required<T: FromJson>(j: &Json, key: &str) -> (r: Result<T, DecodeError>)
    ensures
        match r {
            Ok(v) => has(*j, key@, v),
            Err(_) => forall|v: T| !#[trigger] has(*j, key@, v),
        },
{
    match j.get(key) {
        Some(x) => T::from_json(x),
        None => Err(DecodeError::Malformed),
    }
}

/// Reads the optional member `key`: absent and null both give `None`.
pub fn optional<T: FromJson>(j: &Json, key: &str) -> (r: Result<Option<T>, DecodeError>)
    ensures
        match r {
            Ok(v) => has_opt(*j, key@, v),
            Err(_) => forall|v: Option<T>| !#[trigger] has_opt(*j, key@, v),
        },
{
    match j.get(key) {
        None => Ok(None),
        Some(Json::Null) => Ok(None),
        Some(x) => match T::from_json(x) {
            Ok(v) => Ok(Some(v)),
            Err(e) => Err(e),
        },
    }
}

/// A missing required member leaves nothing that the member could read as.
pub proof fn lemma_missing_required<T: FromJson>(j: Json, key: Seq<char>)
    requires
        field(j, key) is None,
    ensures
        forall|v: T| !#[trigger] has(j, key, v),
{
}

/// An absent optional member reads as `None`, never as a default value.
pub proof fn lemma_absent_optional<T: FromJson>(j: Json, key: Seq<char>, v: Option<T>)
    requires
        field(j, key) is None,
        has_opt(j, key, v),
    ensures
        v is None,
{
}

impl FromJson for String {
    open spec fn decodes_as(j: Json, v: String) -> bool {
        j is Str && j->Str_0@ == v@
    }

    fn from_json(j: &Json) -> (r: Result<String, DecodeError>) {
        match j {
            Json::Str(s) => Ok(s.clone()),
            _ => Err(DecodeError::Malformed),
        }
    }
}

impl FromJson for u64 {
    open spec fn decodes_as(j: Json, v: u64) -> bool {
        j == Json::Num(v)
    }

    fn from_json(j: &Json) -> (r: Result<u64, DecodeError>) {
        match j {
            Json::Num(n) => Ok(*n),
            _ => Err(DecodeError::Malformed),
        }
    }
}

impl FromJson for u32 {
    open spec fn decodes_as(j: Json, v: u32) -> bool {
        j == Json::Num(v as u64)
    }

    fn from_json(j: &Json) -> (r: Result<u32, DecodeError>) {
        match j {
            Json::Num(n) => {
                if *n <= u32::MAX as u64 {
                    Ok(*n as u32)
                } else {
                    Err(DecodeError::Malformed)
                }
            },
            _ => Err(DecodeError::Malformed),
        }
    }
}

impl FromJson for bool {
    open spec fn decodes_as(j: Json, v: bool) -> bool {
        j == Json::Bool(v)
    }

    fn from_json(j: &Json) -> (r: Result<bool, DecodeError>) {
        match j {
            Json::Bool(b) => Ok(*b),
            _ => Err(DecodeError::Malformed),
        }
    }
}

/// A value carried through as it came: any JSON reads as itself.
impl FromJson for Json {
    open spec fn decodes_as(j: Json, v: Json) -> bool {
        same(j, v)
    }

    fn from_json(j: &Json) -> (r: Result<Json, DecodeError>) {
        Ok(j.copy())
    }
}

/// An array reads as a vector of its elements' readings, in the same order.
impl<T: FromJson> FromJson for Vec<T> {
    open spec fn decodes_as(j: Json, v: Vec<T>) -> bool {
        j is Arr && j->Arr_0@.len() == v@.len() && forall|i: int|
            0 <= i < v@.len() ==> #[trigger] T::decodes_as(j->Arr_0@[i], v@[i])
    }

    fn from_json(j: &Json) -> (r: Result<Vec<T>, DecodeError>) {
        match j {
            Json::Arr(xs) => {
                let mut out: Vec<T> = Vec::new();
                let mut i: usize = 0;
                while i < xs.len()
                    invariant
                        i <= xs.len(),
                        out@.len() == i,
                        *j == Json::Arr(*xs),
                        forall|k: int| 0 <= k < i ==> #[trigger] T::decodes_as(xs@[k], out@[k]),
                    decreases xs.len() - i,
                {
                    match T::from_json(&xs[i]) {
                        Ok(v) => out.push(v),
                        Err(e) => {
                            proof {
                                assert forall|v: Vec<T>| !#[trigger] Self::decodes_as(*j, v) by {
                                    if Self::decodes_as(*j, v) {
                                        assert(T::decodes_as(xs@[i as int], v@[i as int]));
                                    }
                                }
                            }
                            return Err(e);
                        },
                    }
                    i += 1;
                }
                Ok(out)
            },
            _ => Err(DecodeError::Malformed),
        }
    }
}

/// The entries of an object whose values all read as `V`, in wire order.
#[derive(Debug)]
pub struct KeyedValues<V> {
    pub entries: Vec<(String, V)>,
}

/// Free-form string pairs that the API stores beside a resource.
pub type Metadata = KeyedValues<String>;

impl<V: FromJson> FromJson for KeyedValues<V> {
    open spec fn decodes_as(j: Json, v: KeyedValues<V>) -> bool {
        j is Obj && j->Obj_0@.len() == v.entries@.len() && forall|i: int|
            0 <= i < v.entries@.len() ==> j->Obj_0@[i].0@ == v.entries@[i].0@
                && #[trigger] V::decodes_as(j->Obj_0@[i].1, v.entries@[i].1)
    }

    fn from_json(j: &Json) -> (r: Result<KeyedValues<V>, DecodeError>) {
        match j {
            Json::Obj(es) => {
                let mut out: Vec<(String, V)> = Vec::new();
                let mut i: usize = 0;
                while i < es.len()
                    invariant
                        i <= es.len(),
                        out@.len() == i,
                        *j == Json::Obj(*es),
                        forall|k: int| 0 <= k < i ==> es@[k].0@ == #[trigger] out@[k].0@,
                        forall|k: int| 0 <= k < i ==> #[trigger] V::decodes_as(es@[k].1, out@[k].1),
                    decreases es.len() - i,
                {
                    match V::from_json(&es[i].1) {
                        Ok(v) => {
                            let k = es[i].0.clone();
                            out.push((k, v));
                        },
                        Err(e) => {
                            proof {
                                assert forall|v: KeyedValues<V>| !#[trigger] Self::decodes_as(*j, v) by {
                                    if Self::decodes_as(*j, v) {
                                        assert(V::decodes_as(es@[i as int].1, v.entries@[i as int].1));
                                    }
                                }
                            }
                            return Err(e);
                        },
                    }
                    i += 1;
                }
                Ok(KeyedValues { entries: out })
            },
            _ => Err(DecodeError::Malformed),
        }
    }
}

} // verus!
