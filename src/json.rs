//! The JSON values that cross the wire, and the field lookups that the
//! decoders are built from.
use vstd::prelude::*;
use vstd::string::StringExecFns;

verus! {

/// A JSON number. An integer that fits in an `i64` is kept as one; any other
/// number keeps the decimal text that stands for it.
#[derive(Clone, Debug, PartialEq)]
pub enum Number {
    Int(i64),
    Real(String),
}

impl Number {
    /// A copy of this number.
    pub fn copy(&self) -> (r: Number)
        ensures
            r == *self,
    {
        match self {
            Number::Int(i) => Number::Int(*i),
            Number::Real(t) => Number::Real(t.clone()),
        }
    }
}

/// One member of a JSON object.
#[derive(Debug)]
pub struct Field {
    pub key: String,
    pub value: Json,
}

/// A JSON value. Object members keep their order.
#[derive(Debug)]
pub enum Json {
    Null,
    Bool(bool),
    Num(Number),
    Str(String),
    Arr(Vec<Json>),
    Obj(Vec<Field>),
}

/// The value of the first member named `key` at index `i` or later.
pub open spec fn lookup_from(fs: Seq<Field>, key: Seq<char>, i: int) -> Option<Json>
    decreases fs.len() - i,
{
    if i < 0 || i >= fs.len() {
        None
    } else if fs[i].key@ == key {
        Some(fs[i].value)
    } else {
        lookup_from(fs, key, i + 1)
    }
}

/// The value of the first member named `key`.
pub open spec fn lookup(fs: Seq<Field>, key: Seq<char>) -> Option<Json> {
    lookup_from(fs, key, 0)
}

proof fn lemma_lookup_from_distinct(fs: Seq<Field>, i: int, start: int)
    requires
        0 <= start <= i < fs.len(),
        forall|k: int| 0 <= k < i ==> fs[k].key@ != fs[i].key@,
    ensures
        lookup_from(fs, fs[i].key@, start) == Some(fs[i].value),
    decreases i - start,
{
    if start < i {
        lemma_lookup_from_distinct(fs, i, start + 1);
    }
}

/// In an object whose earlier members have other names, looking up the name
/// of member `i` finds member `i`.
pub proof fn lemma_lookup_distinct(fs: Seq<Field>, i: int)
    requires
        0 <= i < fs.len(),
        forall|k: int| 0 <= k < i ==> fs[k].key@ != fs[i].key@,
    ensures
        lookup(fs, fs[i].key@) == Some(fs[i].value),
{
    lemma_lookup_from_distinct(fs, i, 0);
}

/// Finds the first member named `key`.
pub fn find<'a>(fs: &'a Vec<Field>, key: &String) -> (r: Option<&'a Json>)
    ensures
        match r {
            Some(v) => lookup(fs@, key@) == Some(*v),
            None => lookup(fs@, key@) is None,
        },
{
    let mut i: usize = 0;
    while i < fs.len()
        invariant
            i <= fs@.len(),
            lookup(fs@, key@) == lookup_from(fs@, key@, i as int),
        decreases fs@.len() - i,
    {
        if fs[i].key == *key {
            return Some(&fs[i].value);
        }
        i = i + 1;
    }
    None
}

/// A member that is missing, or present and `null`.
pub open spec fn absent(fs: Seq<Field>, k: Seq<char>) -> bool {
    lookup(fs, k) is None || lookup(fs, k) == Some(Json::Null)
}

pub open spec fn str_at(fs: Seq<Field>, k: Seq<char>, v: String) -> bool {
    lookup(fs, k) == Some(Json::Str(v))
}

pub open spec fn has_str(fs: Seq<Field>, k: Seq<char>) -> bool {
    lookup(fs, k) matches Some(Json::Str(_))
}

pub open spec fn opt_str_at(fs: Seq<Field>, k: Seq<char>, v: Option<String>) -> bool {
    match v {
        None => absent(fs, k),
        Some(s) => str_at(fs, k, s),
    }
}

pub open spec fn opt_str_ok(fs: Seq<Field>, k: Seq<char>) -> bool {
    absent(fs, k) || has_str(fs, k)
}

pub open spec fn bool_at(fs: Seq<Field>, k: Seq<char>, v: bool) -> bool {
    lookup(fs, k) == Some(Json::Bool(v))
}

pub open spec fn has_bool(fs: Seq<Field>, k: Seq<char>) -> bool {
    lookup(fs, k) matches Some(Json::Bool(_))
}

pub open spec fn opt_bool_at(fs: Seq<Field>, k: Seq<char>, v: Option<bool>) -> bool {
    match v {
        None => absent(fs, k),
        Some(b) => bool_at(fs, k, b),
    }
}

pub open spec fn opt_bool_ok(fs: Seq<Field>, k: Seq<char>) -> bool {
    absent(fs, k) || has_bool(fs, k)
}

pub open spec fn num_at(fs: Seq<Field>, k: Seq<char>, v: Number) -> bool {
    lookup(fs, k) == Some(Json::Num(v))
}

pub open spec fn has_num(fs: Seq<Field>, k: Seq<char>) -> bool {
    lookup(fs, k) matches Some(Json::Num(_))
}

pub open spec fn opt_num_at(fs: Seq<Field>, k: Seq<char>, v: Option<Number>) -> bool {
    match v {
        None => absent(fs, k),
        Some(n) => num_at(fs, k, n),
    }
}

pub open spec fn opt_num_ok(fs: Seq<Field>, k: Seq<char>) -> bool {
    absent(fs, k) || has_num(fs, k)
}

/// A member holding an integer that fits in an `i32`.
pub open spec fn i32_at(fs: Seq<Field>, k: Seq<char>, v: i32) -> bool {
    lookup(fs, k) == Some(Json::Num(Number::Int(v as i64)))
}

pub open spec fn has_i32(fs: Seq<Field>, k: Seq<char>) -> bool {
    lookup(fs, k) matches Some(Json::Num(Number::Int(i))) && i32::MIN <= i <= i32::MAX
}

/// A member holding an object with the structure of `v`, or, for `None`, a
/// missing or `null` member.
pub open spec fn opt_obj_at(fs: Seq<Field>, k: Seq<char>, v: Option<Vec<Field>>) -> bool {
    match v {
        None => absent(fs, k),
        Some(m) => lookup(fs, k) matches Some(val) && same_json(val, Json::Obj(m)),
    }
}

pub open spec fn opt_obj_ok(fs: Seq<Field>, k: Seq<char>) -> bool {
    absent(fs, k) || lookup(fs, k) matches Some(Json::Obj(_))
}

/// A member holding an array.
pub open spec fn arr_at(fs: Seq<Field>, k: Seq<char>) -> Option<Seq<Json>> {
    match lookup(fs, k) {
        Some(Json::Arr(v)) => Some(v@),
        _ => None,
    }
}

pub fn req_str(fs: &Vec<Field>, k: &str) -> (r: Option<String>)
    ensures
        match r {
            Some(v) => str_at(fs@, k@, v),
            None => !has_str(fs@, k@),
        },
{
    let key = String::from_str(k);
    match find(fs, &key) {
        Some(Json::Str(s)) => Some(s.clone()),
        _ => None,
    }
}

/// `Some(None)` for a missing or `null` member, `None` for one of another kind.
pub fn opt_str(fs: &Vec<Field>, k: &str) -> (r: Option<Option<String>>)
    ensures
        match r {
            Some(v) => opt_str_at(fs@, k@, v),
            None => !opt_str_ok(fs@, k@),
        },
{
    let key = String::from_str(k);
    match find(fs, &key) {
        None => Some(None),
        Some(Json::Null) => Some(None),
        Some(Json::Str(s)) => Some(Some(s.clone())),
        _ => None,
    }
}

pub fn req_bool(fs: &Vec<Field>, k: &str) -> (r: Option<bool>)
    ensures
        match r {
            Some(v) => bool_at(fs@, k@, v),
            None => !has_bool(fs@, k@),
        },
{
    let key = String::from_str(k);
    match find(fs, &key) {
        Some(Json::Bool(b)) => Some(*b),
        _ => None,
    }
}

pub fn opt_bool(fs: &Vec<Field>, k: &str) -> (r: Option<Option<bool>>)
    ensures
        match r {
            Some(v) => opt_bool_at(fs@, k@, v),
            None => !opt_bool_ok(fs@, k@),
        },
{
    let key = String::from_str(k);
    match find(fs, &key) {
        None => Some(None),
        Some(Json::Null) => Some(None),
        Some(Json::Bool(b)) => Some(Some(*b)),
        _ => None,
    }
}

pub fn req_num(fs: &Vec<Field>, k: &str) -> (r: Option<Number>)
    ensures
        match r {
            Some(v) => num_at(fs@, k@, v),
            None => !has_num(fs@, k@),
        },
{
    let key = String::from_str(k);
    match find(fs, &key) {
        Some(Json::Num(n)) => Some(n.copy()),
        _ => None,
    }
}

pub fn opt_num(fs: &Vec<Field>, k: &str) -> (r: Option<Option<Number>>)
    ensures
        match r {
            Some(v) => opt_num_at(fs@, k@, v),
            None => !opt_num_ok(fs@, k@),
        },
{
    let key = String::from_str(k);
    match find(fs, &key) {
        None => Some(None),
        Some(Json::Null) => Some(None),
        Some(Json::Num(n)) => Some(Some(n.copy())),
        _ => None,
    }
}

pub fn req_i32(fs: &Vec<Field>, k: &str) -> (r: Option<i32>)
    ensures
        match r {
            Some(v) => i32_at(fs@, k@, v),
            None => !has_i32(fs@, k@),
        },
{
    let key = String::from_str(k);
    match find(fs, &key) {
        Some(Json::Num(Number::Int(i))) => {
            if i32::MIN as i64 <= *i && *i <= i32::MAX as i64 {
                Some(*i as i32)
            } else {
                None
            }
        },
        _ => None,
    }
}

/// A copy of the object held by member `k`; `Some(None)` for a missing or
/// `null` member, `None` for one of another kind.
pub fn opt_obj(fs: &Vec<Field>, k: &str) -> (r: Option<Option<Vec<Field>>>)
    ensures
        match r {
            Some(v) => opt_obj_at(fs@, k@, v),
            None => !opt_obj_ok(fs@, k@),
        },
{
    let key = String::from_str(k);
    match find(fs, &key) {
        None => Some(None),
        Some(Json::Null) => Some(None),
        Some(Json::Obj(m)) => Some(Some(copy_fields(m))),
        _ => None,
    }
}

/// The array held by member `k`, if it holds one.
pub fn req_arr<'a>(fs: &'a Vec<Field>, k: &str) -> (r: Option<&'a Vec<Json>>)
    ensures
        match r {
            Some(v) => arr_at(fs@, k@) == Some(v@),
            None => arr_at(fs@, k@) is None,
        },
{
    let key = String::from_str(k);
    match find(fs, &key) {
        Some(Json::Arr(v)) => Some(v),
        _ => None,
    }
}


/// Two JSON values with the same structure: same kinds, same scalars, same
/// member names in the same order.
pub open spec fn same_json(a: Json, b: Json) -> bool
    decreases a,
{
    match a {
        Json::Arr(x) => match b {
            Json::Arr(y) => x@.len() == y@.len() && forall|i: int|
                0 <= i < x@.len() ==> same_json(#[trigger] x@[i], y@[i]),
            _ => false,
        },
        Json::Obj(x) => match b {
            Json::Obj(y) => x@.len() == y@.len() && forall|i: int|
                0 <= i < x@.len() ==> (#[trigger] x@[i]).key@ == y@[i].key@ && same_json(
                    x@[i].value,
                    y@[i].value,
                ),
            _ => false,
        },
        _ => a == b,
    }
}

/// A deep copy of a JSON value.
pub fn copy_json(j: &Json) -> (r: Json)
    ensures
        same_json(*j, r),
        same_json(r, *j),
    decreases j,
{
    match j {
        Json::Null => Json::Null,
        Json::Bool(b) => Json::Bool(*b),
        Json::Num(n) => Json::Num(n.copy()),
        Json::Str(s) => Json::Str(s.clone()),
        Json::Arr(a) => {
            let mut out: Vec<Json> = Vec::new();
            let mut i: usize = 0;
            while i < a.len()
                invariant
                    i <= a@.len(),
                    out@.len() == i,
                    forall|k: int| 0 <= k < i ==> same_json(#[trigger] a@[k], out@[k]),
                    forall|k: int| 0 <= k < i ==> same_json(#[trigger] out@[k], a@[k]),
                    *j == Json::Arr(*a),
                decreases a@.len() - i,
            {
                proof {
                    assert(decreases_to!(*j => j->Arr_0));
                    assert(decreases_to!(j->Arr_0 => j->Arr_0@));
                    assert(decreases_to!(j->Arr_0@ => j->Arr_0@[i as int]));
                }
                out.push(copy_json(&a[i]));
                i = i + 1;
            }
            Json::Arr(out)
        },
        Json::Obj(fs) => {
            proof {
                assert(decreases_to!(*j => j->Obj_0));
            }
            Json::Obj(copy_fields(fs))
        },
    }
}

/// The members of an object with the same structure as `fs`.
pub open spec fn same_fields(fs: Seq<Field>, gs: Seq<Field>) -> bool {
    &&& fs.len() == gs.len()
    &&& forall|k: int|
        0 <= k < fs.len() ==> (#[trigger] fs[k]).key@ == gs[k].key@ && same_json(fs[k].value, gs[k].value)
}

/// A deep copy of the members of an object.
pub fn copy_fields(fs: &Vec<Field>) -> (r: Vec<Field>)
    ensures
        same_fields(fs@, r@),
        same_fields(r@, fs@),
    decreases fs,
{
    let mut out: Vec<Field> = Vec::new();
    let mut i: usize = 0;
    while i < fs.len()
        invariant
            i <= fs@.len(),
            out@.len() == i,
            forall|k: int|
                0 <= k < i ==> (#[trigger] fs@[k]).key@ == out@[k].key@ && same_json(
                    fs@[k].value,
                    out@[k].value,
                ) && same_json(out@[k].value, fs@[k].value),
        decreases fs@.len() - i,
    {
        proof {
            assert(decreases_to!(*fs => fs@));
            assert(decreases_to!(fs@ => fs@[i as int]));
            assert(decreases_to!(fs@[i as int] => fs@[i as int].value));
        }
        let value = copy_json(&fs[i].value);
        out.push(Field { key: fs[i].key.clone(), value });
        i = i + 1;
    }
    out
}

} // verus!
