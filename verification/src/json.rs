//! JSON values as the library reads and builds them.
//!
//! Numbers are kept as their decimal text, so that no floating point enters
//! the library; the program around it converts to and from its JSON codec.
use vstd::prelude::*;
use vstd::string::*;

use crate::text::str_eq;

verus! {

/// An executable JSON value. An object is a list of named members.
#[derive(Debug)]
pub enum JsonValue {
    Null,
    Bool(bool),
    Number(String),
    Str(String),
    Array(Vec<JsonValue>),
    Object(Vec<(String, JsonValue)>),
}

/// The mathematical JSON value that a `JsonValue` stands for.
pub enum Json {
    Null,
    Bool(bool),
    Number(Seq<char>),
    Str(Seq<char>),
    Array(Seq<Json>),
    Object(Seq<(Seq<char>, Json)>),
}

impl JsonValue {
    pub open spec fn view_of(self) -> Json
        decreases self,
    {
        match self {
            JsonValue::Null => Json::Null,
            JsonValue::Bool(b) => Json::Bool(b),
            JsonValue::Number(n) => Json::Number(n@),
            JsonValue::Str(s) => Json::Str(s@),
            JsonValue::Array(v) => Json::Array(
                Seq::new(
                    v@.len(),
                    |i: int|
                        if 0 <= i < v@.len() {
                            v@[i].view_of()
                        } else {
                            Json::Null
                        },
                ),
            ),
            JsonValue::Object(v) => Json::Object(
                Seq::new(
                    v@.len(),
                    |i: int|
                        if 0 <= i < v@.len() {
                            (v@[i].0@, v@[i].1.view_of())
                        } else {
                            (Seq::empty(), Json::Null)
                        },
                ),
            ),
        }
    }
}

impl View for JsonValue {
    type V = Json;

    open spec fn view(&self) -> Json {
        self.view_of()
    }
}

/// Index of the first member named `key` at or after `i`, or -1.
pub open spec fn first_member(fields: Seq<(Seq<char>, Json)>, key: Seq<char>, i: int) -> int
    decreases fields.len() - i,
{
    if i < 0 || i >= fields.len() {
        -1
    } else if fields[i].0 == key {
        i
    } else {
        first_member(fields, key, i + 1)
    }
}

impl Json {
    /// `Value::get` with a string key: the member of an object named `key`
    /// (the first such member), `None` for anything else.
    pub open spec fn get(self, key: Seq<char>) -> Option<Json> {
        match self {
            Json::Object(fields) => {
                let k = first_member(fields, key, 0);
                if k >= 0 {
                    Some(fields[k].1)
                } else {
                    None
                }
            },
            _ => None,
        }
    }

    /// `Value::as_str`: the text of a string value.
    pub open spec fn as_str(self) -> Option<Seq<char>> {
        match self {
            Json::Str(s) => Some(s),
            _ => None,
        }
    }

    /// The text of member `key` when it is a string.
    pub open spec fn str_member(self, key: Seq<char>) -> Option<Seq<char>> {
        match self.get(key) {
            Some(v) => v.as_str(),
            None => None,
        }
    }
}

/// From `i` on, the first member named `key` is the one at `k`.
proof fn lemma_first_member_at(fields: Seq<(Seq<char>, Json)>, key: Seq<char>, i: int, k: int)
    requires
        0 <= i <= k < fields.len(),
        fields[k].0 == key,
        forall|j: int| 0 <= j < k ==> fields[j].0 != key,
    ensures
        first_member(fields, key, i) == k,
    decreases k - i,
{
    if i < k {
        lemma_first_member_at(fields, key, i + 1, k);
    }
}

/// Law: member `key` of an object is the value of its first member named
/// `key`.
pub proof fn lemma_get_first(fields: Seq<(Seq<char>, Json)>, key: Seq<char>, k: int)
    requires
        0 <= k < fields.len(),
        fields[k].0 == key,
        forall|j: int| 0 <= j < k ==> fields[j].0 != key,
    ensures
        Json::Object(fields).get(key) == Some(fields[k].1),
{
    lemma_first_member_at(fields, key, 0, k);
}

impl JsonValue {
    /// A JSON string.
    pub fn string(s: &str) -> (r: JsonValue)
        ensures
            r@ == Json::Str(s@),
    {
        JsonValue::Str(String::from_str(s))
    }

    /// An object with one member.
    pub fn object1(k1: &str, v1: JsonValue) -> (r: JsonValue)
        ensures
            r@ == Json::Object(seq![(k1@, v1@)]),
    {
        let mut fields: Vec<(String, JsonValue)> = Vec::new();
        fields.push((String::from_str(k1), v1));
        let r = JsonValue::Object(fields);
        assert(r@ == Json::Object(seq![(k1@, v1@)]) ) by {
            if let JsonValue::Object(f) = r {
                assert(r@->Object_0 =~= seq![(k1@, v1@)]);
            }
        }
        r
    }

    /// An object with two members.
    pub fn object2(k1: &str, v1: JsonValue, k2: &str, v2: JsonValue) -> (r: JsonValue)
        ensures
            r@ == Json::Object(seq![(k1@, v1@), (k2@, v2@)]),
    {
        let mut fields: Vec<(String, JsonValue)> = Vec::new();
        fields.push((String::from_str(k1), v1));
        fields.push((String::from_str(k2), v2));
        let r = JsonValue::Object(fields);
        assert(r@ == Json::Object(seq![(k1@, v1@), (k2@, v2@)]) ) by {
            if let JsonValue::Object(f) = r {
                assert(r@->Object_0 =~= seq![(k1@, v1@), (k2@, v2@)]);
            }
        }
        r
    }

    /// An array of the given values.
    pub fn array(items: Vec<JsonValue>) -> (r: JsonValue)
        ensures
            r@ == Json::Array(items@.map_values(|x: JsonValue| x@)),
    {
        let r = JsonValue::Array(items);
        assert(r@->Array_0 =~= items@.map_values(|x: JsonValue| x@));
        r
    }

    /// `Value::get`: the member named `key` of an object.
    pub fn get(&self, key: &str) -> (r: Option<&JsonValue>)
        ensures
            r matches Some(v) ==> self@.get(key@) == Some(v@),
            r is None ==> self@.get(key@) is None,
    {
        match self {
            JsonValue::Object(fields) => {
                let ghost f = self@->Object_0;
                let mut i: usize = 0;
                while i < fields.len()
                    invariant
                        f == self@->Object_0,
                        *self == JsonValue::Object(*fields),
                        f.len() == fields@.len(),
                        i <= fields@.len(),
                        first_member(f, key@, i as int) == first_member(f, key@, 0),
                    decreases fields@.len() - i,
                {
                    assert(f[i as int] == (fields@[i as int].0@, fields@[i as int].1@));
                    if str_eq(fields[i].0.as_str(), key) {
                        return Some(&fields[i].1);
                    }
                    i = i + 1;
                }
                None
            },
            _ => None,
        }
    }

    /// `Value::as_str`: the text of a string value.
    pub fn as_str(&self) -> (r: Option<&str>)
        ensures
            r matches Some(s) ==> self@.as_str() == Some(s@),
            r is None ==> self@.as_str() is None,
    {
        match self {
            JsonValue::Str(s) => Some(s.as_str()),
            _ => None,
        }
    }

    /// A deep copy.
    pub fn deep_clone(&self) -> (r: JsonValue)
        ensures
            r@ == self@,
        decreases self,
    {
        match self {
            JsonValue::Null => JsonValue::Null,
            JsonValue::Bool(b) => JsonValue::Bool(*b),
            JsonValue::Number(n) => JsonValue::Number(n.clone()),
            JsonValue::Str(s) => JsonValue::Str(s.clone()),
            JsonValue::Array(items) => {
                let mut out: Vec<JsonValue> = Vec::new();
                let mut i: usize = 0;
                while i < items.len()
                    invariant
                        *self == JsonValue::Array(*items),
                        i <= items@.len(),
                        out@.len() == i,
                        forall|j: int| 0 <= j < i ==> #[trigger] out@[j].view_of() == items@[j].view_of(),
                    decreases items@.len() - i,
                {
                    proof {
                        assert(decreases_to!(*self => (*self)->Array_0));
                        assert(decreases_to!(*items => items@));
                        assert(decreases_to!(items@ => items@[i as int]));
                    }
                    let c = items[i].deep_clone();
                    out.push(c);
                    i = i + 1;
                }
                let r = JsonValue::Array(out);
                assert(r@->Array_0.len() == self@->Array_0.len());
                assert forall|k: int| 0 <= k < out@.len() implies r@->Array_0[k] == self@->Array_0[k] by {
                    assert(r@->Array_0[k] == out@[k].view_of());
                    assert(self@->Array_0[k] == items@[k].view_of());
                }
                assert(r@->Array_0 =~= self@->Array_0);
                r
            },
            JsonValue::Object(fields) => {
                let mut out: Vec<(String, JsonValue)> = Vec::new();
                let mut i: usize = 0;
                while i < fields.len()
                    invariant
                        *self == JsonValue::Object(*fields),
                        i <= fields@.len(),
                        out@.len() == i,
                        forall|j: int|
                            0 <= j < i ==> #[trigger] out@[j].0@ == fields@[j].0@ && out@[j].1.view_of()
                                == fields@[j].1.view_of(),
                    decreases fields@.len() - i,
                {
                    proof {
                        assert(decreases_to!(*self => (*self)->Object_0));
                        assert(decreases_to!(*fields => fields@));
                        assert(decreases_to!(fields@ => fields@[i as int]));
                        assert(decreases_to!(fields@[i as int] => fields@[i as int].1));
                    }
                    let c = fields[i].1.deep_clone();
                    out.push((fields[i].0.clone(), c));
                    i = i + 1;
                }
                let r = JsonValue::Object(out);
                assert(r@->Object_0 =~= self@->Object_0);
                r
            },
        }
    }
}

} // verus!
