//! A JSON document model used by the library's logic.
//!
//! Values mirror the shape of JSON: numbers keep the three forms a JSON
//! number can take (non-negative integer, negative integer, other number in
//! its decimal text), objects keep their members as an ordered list of
//! key/value pairs with distinct keys.

use vstd::prelude::*;
use vstd::string::*;

verus! {

/// Mathematical model of a JSON number.
pub enum Num {
    PosInt(u64),
    NegInt(i64),
    Float(Seq<char>),
}

/// Mathematical model of a JSON value.
pub enum Json {
    Null,
    Bool(bool),
    Number(Num),
    Str(Seq<char>),
    Array(Seq<Json>),
    Object(Seq<(Seq<char>, Json)>),
}

/// A JSON number.
pub enum JsonNumber {
    PosInt(u64),
    NegInt(i64),
    Float(String),
}

/// A JSON value.
pub enum JsonValue {
    Null,
    Bool(bool),
    Number(JsonNumber),
    String(String),
    Array(Vec<JsonValue>),
    Object(Vec<(String, JsonValue)>),
}

impl View for JsonNumber {
    type V = Num;

    open spec fn view(&self) -> Num {
        match self {
            JsonNumber::PosInt(n) => Num::PosInt(*n),
            JsonNumber::NegInt(n) => Num::NegInt(*n),
            JsonNumber::Float(s) => Num::Float(s@),
        }
    }
}

pub open spec fn json_view(v: JsonValue) -> Json
    decreases v,
{
    match v {
        JsonValue::Null => Json::Null,
        JsonValue::Bool(b) => Json::Bool(b),
        JsonValue::Number(n) => Json::Number(n@),
        JsonValue::String(s) => Json::Str(s@),
        JsonValue::Array(a) => Json::Array(
            Seq::new(a@.len(), |i: int| if 0 <= i < a@.len() { json_view(a@[i]) } else { Json::Null }),
        ),
        JsonValue::Object(m) => Json::Object(
            Seq::new(
                m@.len(),
                |i: int|
                    if 0 <= i < m@.len() {
                        (m@[i].0@, json_view(m@[i].1))
                    } else {
                        (Seq::empty(), Json::Null)
                    },
            ),
        ),
    }
}

impl View for JsonValue {
    type V = Json;

    open spec fn view(&self) -> Json {
        json_view(*self)
    }
}

/// The members of an object, each key and value taken by its view.
pub open spec fn members_view(m: Seq<(String, JsonValue)>) -> Seq<(Seq<char>, Json)> {
    Seq::new(m.len(), |i: int| (m[i].0@, json_view(m[i].1)))
}

/// The elements of an array, each taken by its view.
pub open spec fn elements_view(a: Seq<JsonValue>) -> Seq<Json> {
    Seq::new(a.len(), |i: int| json_view(a[i]))
}

pub proof fn lemma_object_view(m: Vec<(String, JsonValue)>)
    ensures
        json_view(JsonValue::Object(m)) == Json::Object(members_view(m@)),
{
    assert(members_view(m@) =~= match json_view(JsonValue::Object(m)) {
        Json::Object(mm) => mm,
        _ => Seq::empty(),
    });
}

pub proof fn lemma_array_view(a: Vec<JsonValue>)
    ensures
        json_view(JsonValue::Array(a)) == Json::Array(elements_view(a@)),
{
    assert(elements_view(a@) =~= match json_view(JsonValue::Array(a)) {
        Json::Array(aa) => aa,
        _ => Seq::empty(),
    });
}

/// Whether index `i` holds the first member of `m` whose key is `k`.
pub open spec fn is_first_key(m: Seq<(Seq<char>, Json)>, k: Seq<char>, i: int) -> bool {
    &&& 0 <= i < m.len()
    &&& m[i].0 == k
    &&& forall|j: int| 0 <= j < i ==> m[j].0 != k
}

/// Index of the first member of `m` with key `k`, or -1 when there is none.
pub open spec fn key_index(m: Seq<(Seq<char>, Json)>, k: Seq<char>) -> int {
    if exists|i: int| is_first_key(m, k, i) {
        choose|i: int| is_first_key(m, k, i)
    } else {
        -1
    }
}

/// The value stored under `k`, if any.
pub open spec fn member(m: Seq<(Seq<char>, Json)>, k: Seq<char>) -> Option<Json> {
    let i = key_index(m, k);
    if i >= 0 {
        Some(m[i].1)
    } else {
        None
    }
}

/// `m` after storing `v` under `k`: an existing member keeps its place and
/// takes the new value, a new key is appended.
pub open spec fn with_member(m: Seq<(Seq<char>, Json)>, k: Seq<char>, v: Json) -> Seq<(Seq<char>, Json)> {
    let i = key_index(m, k);
    if i >= 0 {
        m.update(i, (k, v))
    } else {
        m.push((k, v))
    }
}

/// `m` without the member under `k`.
pub open spec fn without_member(m: Seq<(Seq<char>, Json)>, k: Seq<char>) -> Seq<(Seq<char>, Json)> {
    let i = key_index(m, k);
    if i >= 0 {
        m.remove(i)
    } else {
        m
    }
}

/// The keys of an object are pairwise distinct.
pub open spec fn keys_distinct(m: Seq<(Seq<char>, Json)>) -> bool {
    forall|i: int, j: int| 0 <= i < m.len() && 0 <= j < m.len() && i != j ==> m[i].0 != m[j].0
}

pub proof fn lemma_key_index_found(m: Seq<(Seq<char>, Json)>, k: Seq<char>, i: int)
    requires
        is_first_key(m, k, i),
    ensures
        key_index(m, k) == i,
{
    let c = choose|c: int| is_first_key(m, k, c);
    assert(is_first_key(m, k, c));
    if c < i {
        assert(m[c].0 != k);
    } else if c > i {
        assert(m[i].0 != k);
    }
}

pub proof fn lemma_key_index_absent(m: Seq<(Seq<char>, Json)>, k: Seq<char>)
    requires
        forall|j: int| 0 <= j < m.len() ==> m[j].0 != k,
    ensures
        key_index(m, k) == -1,
{
}

/// Reading a key back after storing a value under it gives that value, and
/// storing under one key leaves every other key as it was.
pub proof fn lemma_member_after_store(m: Seq<(Seq<char>, Json)>, k: Seq<char>, v: Json, k2: Seq<char>)
    ensures
        member(with_member(m, k, v), k) == Some(v),
        k2 != k ==> member(with_member(m, k, v), k2) == member(m, k2),
{
    let i = key_index(m, k);
    let w = with_member(m, k, v);
    if i >= 0 {
        assert(is_first_key(m, k, i));
        assert(is_first_key(w, k, i));
        lemma_key_index_found(w, k, i);
    } else {
        assert(!exists|j: int| is_first_key(m, k, j));
        assert forall|j: int| 0 <= j < m.len() implies m[j].0 != k by {
            if m[j].0 == k {
                lemma_some_first_key(m, k, j);
            }
        }
        assert(is_first_key(w, k, m.len() as int));
        lemma_key_index_found(w, k, m.len() as int);
    }
    if k2 != k {
        let i2 = key_index(m, k2);
        if i2 >= 0 {
            assert(is_first_key(m, k2, i2));
            assert(is_first_key(w, k2, i2));
            lemma_key_index_found(w, k2, i2);
        } else {
            assert forall|j: int| 0 <= j < w.len() implies w[j].0 != k2 by {
                if j < m.len() && m[j].0 == k2 {
                    lemma_some_first_key(m, k2, j);
                }
            }
            lemma_key_index_absent(w, k2);
        }
    }
}

/// Removing a key leaves no member under it.
pub proof fn lemma_member_after_remove(m: Seq<(Seq<char>, Json)>, k: Seq<char>)
    requires
        keys_distinct(m),
    ensures
        member(without_member(m, k), k) is None,
{
    let i = key_index(m, k);
    let w = without_member(m, k);
    if i >= 0 {
        assert(is_first_key(m, k, i));
        assert forall|j: int| 0 <= j < w.len() implies w[j].0 != k by {
            if j < i {
            } else {
                assert(w[j] == m[j + 1]);
            }
        }
    } else {
        assert forall|j: int| 0 <= j < m.len() implies m[j].0 != k by {
            if m[j].0 == k {
                lemma_some_first_key(m, k, j);
            }
        }
    }
    lemma_key_index_absent(w, k);
}

/// When `k` occurs at index `j`, some index holds its first occurrence.
pub proof fn lemma_some_first_key(m: Seq<(Seq<char>, Json)>, k: Seq<char>, j: int)
    requires
        0 <= j < m.len(),
        m[j].0 == k,
    ensures
        key_index(m, k) >= 0,
        key_index(m, k) <= j,
    decreases j,
{
    if forall|l: int| 0 <= l < j ==> m[l].0 != k {
        assert(is_first_key(m, k, j));
        lemma_key_index_found(m, k, j);
    } else {
        let l = choose|l: int| 0 <= l < j && m[l].0 == k;
        lemma_some_first_key(m, k, l);
    }
}

/// Index of the first member of `m` whose key is `k`.
pub fn find_member(m: &Vec<(String, JsonValue)>, k: &str) -> (r: Option<usize>)
    ensures
        r is None <==> key_index(members_view(m@), k@) == -1,
        r matches Some(i) ==> i == key_index(members_view(m@), k@),
{
    let ghost mv = members_view(m@);
    let key = String::from_str(k);
    let mut i: usize = 0;
    while i < m.len()
        invariant
            i <= m.len(),
            mv == members_view(m@),
            key@ == k@,
            forall|j: int| 0 <= j < i ==> mv[j].0 != k@,
        decreases m.len() - i,
    {
        if m[i].0 == key {
            proof {
                lemma_key_index_found(mv, k@, i as int);
            }
            return Some(i);
        }
        i = i + 1;
    }
    proof {
        lemma_key_index_absent(mv, k@);
    }
    None
}

/// The value stored under `k` in `m`.
pub fn get_member<'a>(m: &'a Vec<(String, JsonValue)>, k: &str) -> (r: Option<&'a JsonValue>)
    ensures
        r is None <==> member(members_view(m@), k@) is None,
        r matches Some(v) ==> Some(v@) == member(members_view(m@), k@),
{
    match find_member(m, k) {
        Some(i) => Some(&m[i].1),
        None => None,
    }
}

/// Stores `v` under `k` in `m`.
pub fn insert_member(m: &mut Vec<(String, JsonValue)>, k: String, v: JsonValue)
    ensures
        members_view(final(m)@) == with_member(members_view(old(m)@), k@, v@),
{
    let ghost mv = members_view(m@);
    let ghost kv = k@;
    let ghost vv = v@;
    match find_member(m, k.as_str()) {
        Some(i) => {
            m.set(i, (k, v));
            assert(members_view(m@) =~= mv.update(i as int, (kv, vv)));
        },
        None => {
            m.push((k, v));
            assert(members_view(m@) =~= mv.push((kv, vv)));
        },
    }
}

/// Removes the member under `k` from `m`.
pub fn remove_member(m: &mut Vec<(String, JsonValue)>, k: &str)
    ensures
        members_view(final(m)@) == without_member(members_view(old(m)@), k@),
{
    let ghost mv = members_view(m@);
    match find_member(m, k) {
        Some(i) => {
            m.remove(i);
            assert(members_view(m@) =~= mv.remove(i as int));
        },
        None => {},
    }
}

/// Appends member `k` with value `v` to `m` (the caller keeps keys distinct).
pub fn push_member(m: &mut Vec<(String, JsonValue)>, k: &str, v: JsonValue)
    ensures
        members_view(final(m)@) == members_view(old(m)@).push((k@, v@)),
{
    let ghost mv = members_view(m@);
    let ghost vv = v@;
    m.push((String::from_str(k), v));
    assert(members_view(m@) =~= mv.push((k@, vv)));
}

/// The object with members `m`.
pub fn object_value(m: Vec<(String, JsonValue)>) -> (v: JsonValue)
    ensures
        v@ == Json::Object(members_view(m@)),
{
    proof {
        lemma_object_view(m);
    }
    JsonValue::Object(m)
}

/// The array with elements `a`.
pub fn array_value(a: Vec<JsonValue>) -> (v: JsonValue)
    ensures
        v@ == Json::Array(elements_view(a@)),
{
    proof {
        lemma_array_view(a);
    }
    JsonValue::Array(a)
}

/// A JSON string holding `s`.
pub fn text_value(s: &str) -> (v: JsonValue)
    ensures
        v@ == Json::Str(s@),
{
    JsonValue::String(String::from_str(s))
}

/// The empty object.
pub fn empty_object() -> (v: JsonValue)
    ensures
        v@ == Json::Object(Seq::empty()),
{
    let m: Vec<(String, JsonValue)> = Vec::new();
    assert(members_view(m@) =~= Seq::<(Seq<char>, Json)>::empty());
    object_value(m)
}

impl JsonNumber {
    /// A copy of the number.
    pub fn copy(&self) -> (r: JsonNumber)
        ensures
            r@ == self@,
    {
        match self {
            JsonNumber::PosInt(n) => JsonNumber::PosInt(*n),
            JsonNumber::NegInt(n) => JsonNumber::NegInt(*n),
            JsonNumber::Float(s) => JsonNumber::Float(s.clone()),
        }
    }
}

impl JsonNumber {
    /// Whether two numbers are the same.
    pub fn same(&self, other: &JsonNumber) -> (r: bool)
        ensures
            r == (self@ == other@),
    {
        match (self, other) {
            (JsonNumber::PosInt(a), JsonNumber::PosInt(b)) => *a == *b,
            (JsonNumber::NegInt(a), JsonNumber::NegInt(b)) => *a == *b,
            (JsonNumber::Float(a), JsonNumber::Float(b)) => *a == *b,
            _ => false,
        }
    }
}

impl JsonValue {
    /// Whether two values are the same JSON document.
    pub fn same(&self, other: &JsonValue) -> (r: bool)
        ensures
            r == (self@ == other@),
        decreases self,
    {
        match (self, other) {
            (JsonValue::Null, JsonValue::Null) => true,
            (JsonValue::Bool(a), JsonValue::Bool(b)) => *a == *b,
            (JsonValue::Number(a), JsonValue::Number(b)) => a.same(b),
            (JsonValue::String(a), JsonValue::String(b)) => *a == *b,
            (JsonValue::Array(a), JsonValue::Array(b)) => {
                proof {
                    lemma_array_view(*a);
                    lemma_array_view(*b);
                }
                if a.len() != b.len() {
                    assert(elements_view(a@).len() != elements_view(b@).len());
                    return false;
                }
                let mut i: usize = 0;
                while i < a.len()
                    invariant
                        i <= a.len(),
                        a.len() == b.len(),
                        *self == JsonValue::Array(*a),
                        self@ == Json::Array(elements_view(a@)),
                        other@ == Json::Array(elements_view(b@)),
                        forall|j: int| 0 <= j < i ==> json_view(#[trigger] a@[j]) == json_view(b@[j]),
                    decreases a.len() - i,
                {
                    assert(decreases_to!(*self => (*self)->Array_0));
                    assert(decreases_to!(*a => a@));
                    assert(decreases_to!(a@ => a@[i as int]));
                    if !a[i].same(&b[i]) {
                        assert(elements_view(a@)[i as int] != elements_view(b@)[i as int]);
                        return false;
                    }
                    i = i + 1;
                }
                assert(elements_view(a@) =~= elements_view(b@));
                true
            },
            (JsonValue::Object(a), JsonValue::Object(b)) => {
                proof {
                    lemma_object_view(*a);
                    lemma_object_view(*b);
                }
                if a.len() != b.len() {
                    assert(members_view(a@).len() != members_view(b@).len());
                    return false;
                }
                let mut i: usize = 0;
                while i < a.len()
                    invariant
                        i <= a.len(),
                        a.len() == b.len(),
                        *self == JsonValue::Object(*a),
                        self@ == Json::Object(members_view(a@)),
                        other@ == Json::Object(members_view(b@)),
                        forall|j: int| 0 <= j < i ==> (#[trigger] a@[j]).0@ == b@[j].0@
                            && json_view(a@[j].1) == json_view(b@[j].1),
                    decreases a.len() - i,
                {
                    assert(decreases_to!(*self => (*self)->Object_0));
                    assert(decreases_to!(*a => a@));
                    assert(decreases_to!(a@ => a@[i as int]));
                    assert(decreases_to!(a@[i as int] => a@[i as int].1));
                    if a[i].0 != b[i].0 {
                        assert(members_view(a@)[i as int] != members_view(b@)[i as int]);
                        return false;
                    }
                    if !a[i].1.same(&b[i].1) {
                        assert(members_view(a@)[i as int] != members_view(b@)[i as int]);
                        return false;
                    }
                    i = i + 1;
                }
                assert(members_view(a@) =~= members_view(b@));
                true
            },
            _ => false,
        }
    }

    /// A deep copy of the value.
    pub fn copy(&self) -> (r: JsonValue)
        ensures
            r@ == self@,
        decreases self,
    {
        match self {
            JsonValue::Null => JsonValue::Null,
            JsonValue::Bool(b) => JsonValue::Bool(*b),
            JsonValue::Number(n) => JsonValue::Number(n.copy()),
            JsonValue::String(s) => JsonValue::String(s.clone()),
            JsonValue::Array(a) => {
                let mut out: Vec<JsonValue> = Vec::new();
                let mut i: usize = 0;
                while i < a.len()
                    invariant
                        i <= a.len(),
                        *self == JsonValue::Array(*a),
                        out.len() == i,
                        forall|j: int| 0 <= j < i ==> json_view(#[trigger] out@[j]) == json_view(a@[j]),
                    decreases a.len() - i,
                {
                    assert(decreases_to!(*self => (*self)->Array_0));
                    assert(decreases_to!(*a => a@));
                    assert(decreases_to!(a@ => a@[i as int]));
                    assert(decreases_to!(*self => a@[i as int]));
                    let c = a[i].copy();
                    out.push(c);
                    i = i + 1;
                }
                proof {
                    lemma_array_view(*a);
                    lemma_array_view(out);
                    assert(elements_view(out@) =~= elements_view(a@));
                }
                JsonValue::Array(out)
            },
            JsonValue::Object(m) => {
                let mut out: Vec<(String, JsonValue)> = Vec::new();
                let mut i: usize = 0;
                while i < m.len()
                    invariant
                        i <= m.len(),
                        *self == JsonValue::Object(*m),
                        out.len() == i,
                        forall|j: int| 0 <= j < i ==> (#[trigger] out@[j]).0@ == m@[j].0@
                            && json_view(out@[j].1) == json_view(m@[j].1),
                    decreases m.len() - i,
                {
                    assert(decreases_to!(*self => (*self)->Object_0));
                    assert(decreases_to!(*m => m@));
                    assert(decreases_to!(m@ => m@[i as int]));
                    assert(decreases_to!(m@[i as int] => m@[i as int].1));
                    assert(decreases_to!(*self => m@[i as int].1));
                    let c = m[i].1.copy();
                    out.push((m[i].0.clone(), c));
                    i = i + 1;
                }
                proof {
                    lemma_object_view(*m);
                    lemma_object_view(out);
                    assert(members_view(out@) =~= members_view(m@));
                }
                JsonValue::Object(out)
            },
        }
    }
}

} // verus!
