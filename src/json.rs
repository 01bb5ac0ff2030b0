//! The JSON value model that requests and responses are written in, and the
//! lookup rules that decoding and encoding are stated over.

use vstd::prelude::*;

verus! {

/// A JSON value as the transport hands it over: integers are unsigned, object
/// entries keep the order in which they were received.
#[derive(Debug, PartialEq, Eq)]
pub enum Json {
    Null,
    Bool(bool),
    Num(u64),
    Str(String),
    Arr(Vec<Json>),
    Obj(Vec<(String, Json)>),
}

/// The value bound to `key` among `entries`; where a key repeats, the last
/// entry wins, as in a JSON object read into a map.
pub open spec fn entry_of(entries: Seq<(String, Json)>, key: Seq<char>) -> Option<Json>
    decreases entries.len(),
{
    if entries.len() == 0 {
        None
    } else if entries.last().0@ == key {
        Some(entries.last().1)
    } else {
        entry_of(entries.drop_last(), key)
    }
}

/// The member `key` of an object; nothing for a value that is not an object.
pub open spec fn field(j: Json, key: Seq<char>) -> Option<Json> {
    match j {
        Json::Obj(es) => entry_of(es@, key),
        _ => None,
    }
}

/// Whether the member `key` is a string equal to `text`.
pub open spec fn str_member(j: Json, key: Seq<char>, text: Seq<char>) -> bool {
    match field(j, key) {
        Some(Json::Str(s)) => s@ == text,
        _ => false,
    }
}

/// The keys of an object's entries, in order.
pub open spec fn keys(entries: Seq<(String, Json)>) -> Seq<Seq<char>> {
    entries.map_values(|e: (String, Json)| e.0@)
}

/// The keys of an object; empty for a value that is not an object.
pub open spec fn keys_of(j: Json) -> Seq<Seq<char>> {
    match j {
        Json::Obj(es) => keys(es@),
        _ => Seq::empty(),
    }
}

/// Appending an entry binds its key to its value and leaves other keys alone.
pub broadcast proof fn lemma_entry_of_push(es: Seq<(String, Json)>, e: (String, Json), key: Seq<char>)
    ensures
        #[trigger] entry_of(es.push(e), key) == (if e.0@ == key {
            Some(e.1)
        } else {
            entry_of(es, key)
        }),
{
    assert(es.push(e).drop_last() =~= es);
}

/// Appending an entry appends its key.
pub broadcast proof fn lemma_keys_push(es: Seq<(String, Json)>, e: (String, Json))
    ensures
        #[trigger] keys(es.push(e)) == keys(es).push(e.0@),
{
    assert(keys(es.push(e)) =~= keys(es).push(e.0@));
}

/// The value reached from `j` by following `path`: each step is the index of
/// an array element, or of an object entry.
pub open spec fn at(j: Json, path: Seq<int>) -> Option<Json>
    decreases path.len(),
{
    if path.len() == 0 {
        Some(j)
    } else {
        let i = path[0];
        match j {
            Json::Arr(x) => if 0 <= i < x@.len() {
                at(x@[i], path.drop_first())
            } else {
                None
            },
            Json::Obj(x) => if 0 <= i < x@.len() {
                at(x@[i].1, path.drop_first())
            } else {
                None
            },
            _ => None,
        }
    }
}

/// Same kind and same scalar contents; arrays of the same length, objects
/// with the same keys in the same order.
pub open spec fn same_outline(a: Json, b: Json) -> bool {
    match (a, b) {
        (Json::Null, Json::Null) => true,
        (Json::Bool(x), Json::Bool(y)) => x == y,
        (Json::Num(x), Json::Num(y)) => x == y,
        (Json::Str(x), Json::Str(y)) => x@ == y@,
        (Json::Arr(x), Json::Arr(y)) => x@.len() == y@.len(),
        (Json::Obj(x), Json::Obj(y)) => keys(x@) == keys(y@),
        _ => false,
    }
}

/// The same JSON: along every path both values have the same outline.
pub open spec fn same(a: Json, b: Json) -> bool {
    forall|path: Seq<int>| match (#[trigger] at(a, path), at(b, path)) {
        (Some(x), Some(y)) => same_outline(x, y),
        (None, None) => true,
        _ => false,
    }
}

impl Json {
    pub fn is_object(&self) -> (r: bool)
        ensures
            r == (*self is Obj),
    {
        match self {
            Json::Obj(_) => true,
            _ => false,
        }
    }

    /// Whether the member `key` is the string `text`.
    pub fn str_member_is(&self, key: &str, text: &str) -> (r: bool)
        ensures
            r == str_member(*self, key@, text@),
    {
        match self.get(key) {
            Some(Json::Str(s)) => {
                let t = text.to_owned();
                *s == t
            },
            _ => false,
        }
    }

    /// A copy, element by element.
    pub fn copy(&self) -> (r: Json)
        ensures
            same(*self, r),
        decreases self,
    {
        match self {
            Json::Null => Json::Null,
            Json::Bool(b) => Json::Bool(*b),
            Json::Num(n) => Json::Num(*n),
            Json::Str(s) => Json::Str(s.clone()),
            Json::Arr(xs) => {
                let mut out: Vec<Json> = Vec::new();
                let mut i: usize = 0;
                while i < xs.len()
                    invariant
                        i <= xs.len(),
                        out.len() == i,
                        *self == Json::Arr(*xs),
                        forall|k: int| 0 <= k < i ==> #[trigger] same(xs@[k], out@[k]),
                    decreases xs.len() - i,
                {
                    proof {
                        vstd::std_specs::vec::axiom_vec_index_decreases(*xs, i as int);
                        assert(decreases_to!(*self => self->Arr_0[i as int]));
                    }
                    let c = xs[i].copy();
                    out.push(c);
                    i += 1;
                }
                let r = Json::Arr(out);
                assert forall|path: Seq<int>| match (#[trigger] at(*self, path), at(r, path)) {
                    (Some(x), Some(y)) => same_outline(x, y),
                    (None, None) => true,
                    _ => false,
                } by {
                    if path.len() > 0 {
                        let i = path[0];
                        if 0 <= i < xs@.len() {
                            assert(same(xs@[i], out@[i]));
                            assert(at(xs@[i], path.drop_first()) == at(*self, path));
                        }
                    }
                }
                r
            },
            Json::Obj(es) => {
                let mut out: Vec<(String, Json)> = Vec::new();
                let mut i: usize = 0;
                while i < es.len()
                    invariant
                        i <= es.len(),
                        keys(out@) == keys(es@.subrange(0, i as int)),
                        *self == Json::Obj(*es),
                        out@.len() == i,
                        forall|k: int| 0 <= k < i ==> #[trigger] same(es@[k].1, out@[k].1),
                    decreases es.len() - i,
                {
                    proof {
                        vstd::std_specs::vec::axiom_vec_index_decreases(*es, i as int);
                        assert(decreases_to!(*self => self->Obj_0[i as int].1));
                        assert(es@.subrange(0, i + 1) =~= es@.subrange(0, i as int).push(es@[i as int]));
                    }
                    let c = es[i].1.copy();
                    let k = es[i].0.clone();
                    let ghost before = out@;
                    out.push((k, c));
                    proof {
                        lemma_keys_push(before, (k, c));
                        lemma_keys_push(es@.subrange(0, i as int), es@[i as int]);
                    }
                    i += 1;
                }
                assert(es@.subrange(0, es@.len() as int) =~= es@);
                let r = Json::Obj(out);
                assert forall|path: Seq<int>| match (#[trigger] at(*self, path), at(r, path)) {
                    (Some(x), Some(y)) => same_outline(x, y),
                    (None, None) => true,
                    _ => false,
                } by {
                    if path.len() > 0 {
                        let i = path[0];
                        if 0 <= i < es@.len() {
                            assert(same(es@[i].1, out@[i].1));
                            assert(at(es@[i].1, path.drop_first()) == at(*self, path));
                            assert(at(out@[i].1, path.drop_first()) == at(r, path));
                        }
                    } else {
                        assert(keys(es@) == keys(out@));
                        assert(same_outline(*self, r));
                    }
                }
                r
            },
        }
    }

    /// The member `key` of an object, found by a scan from the last entry.
    pub fn get(&self, key: &str) -> (r: Option<&Json>)
        ensures
            match r {
                Some(v) => field(*self, key@) == Some(*v),
                None => field(*self, key@) is None,
            },
    {
        match self {
            Json::Obj(es) => {
                assert(*self == Json::Obj(*es));
                let k = key.to_owned();
                let mut i: usize = es.len();
                assert(es@.subrange(0, i as int) =~= es@);
                while i > 0
                    invariant
                        i <= es.len(),
                        k@ == key@,
                        *self == Json::Obj(*es),
                        entry_of(es@, key@) == entry_of(es@.subrange(0, i as int), key@),
                    decreases i,
                {
                    let ghost pre = es@.subrange(0, i as int);
                    assert(pre.drop_last() =~= es@.subrange(0, i - 1));
                    assert(pre.last() == es@[i - 1]);
                    if es[i - 1].0 == k {
                        assert(entry_of(pre, key@) == Some(es@[i - 1].1));
                        return Some(&es[i - 1].1);
                    }
                    i -= 1;
                }
                None
            },
            _ => None,
        }
    }
}

} // verus!
