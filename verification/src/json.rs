//! The JSON values that Microsoft Graph sends back and that the library
//! sends to it, held as plain data so that every read of a response can be
//! stated and checked.

use vstd::prelude::*;
use crate::text::str_eq;

verus! {

/// A JSON number, as the three forms that a JSON parser distinguishes:
/// a non-negative integer, a negative integer, or any other number kept
/// in its textual form.
#[derive(Debug)]
pub enum JsonNumber {
    PosInt(u64),
    NegInt(i64),
    Float(String),
}

/// A JSON value. The members of an object keep their order; a lookup
/// yields the first member with the requested name.
#[derive(Debug)]
pub enum Json {
    Null,
    Bool(bool),
    Number(JsonNumber),
    String(String),
    Array(Vec<Json>),
    Object(Vec<(String, Json)>),
}

/// First member named `key` among `members`.
pub open spec fn member(members: Seq<(String, Json)>, key: Seq<char>) -> Option<Json>
    decreases members.len(),
{
    if members.len() == 0 {
        None
    } else if members[0].0@ == key {
        Some(members[0].1)
    } else {
        member(members.drop_first(), key)
    }
}

/// `value.get(key)`: the member named `key` when `value` is an object.
pub open spec fn field(value: Json, key: Seq<char>) -> Option<Json> {
    match value {
        Json::Object(members) => member(members@, key),
        _ => None,
    }
}

/// `o.and_then(|v| v.get(key))`.
pub open spec fn and_field(o: Option<Json>, key: Seq<char>) -> Option<Json> {
    match o {
        Some(v) => field(v, key),
        None => None,
    }
}

/// `o.and_then(|v| v.as_str())`.
pub open spec fn str_of(o: Option<Json>) -> Option<Seq<char>> {
    match o {
        Some(Json::String(s)) => Some(s@),
        _ => None,
    }
}

/// `o.and_then(|v| v.as_u64())`.
pub open spec fn u64_of(o: Option<Json>) -> Option<u64> {
    match o {
        Some(Json::Number(JsonNumber::PosInt(n))) => Some(n),
        _ => None,
    }
}

/// `o.and_then(|v| v.as_bool())`.
pub open spec fn bool_of(o: Option<Json>) -> Option<bool> {
    match o {
        Some(Json::Bool(b)) => Some(b),
        _ => None,
    }
}

/// `o.and_then(|v| v.as_array())`.
pub open spec fn array_of(o: Option<Json>) -> Option<Seq<Json>> {
    match o {
        Some(Json::Array(items)) => Some(items@),
        _ => None,
    }
}

/// `s.unwrap_or("")`.
pub open spec fn or_empty(s: Option<Seq<char>>) -> Seq<char> {
    match s {
        Some(t) => t,
        None => Seq::empty(),
    }
}

/// The view of an optional string.
pub open spec fn opt_view(s: Option<String>) -> Option<Seq<char>> {
    match s {
        Some(t) => Some(t@),
        None => None,
    }
}

impl Json {
    /// `value.get(key)`.
    pub fn get(&self, key: &str) -> (r: Option<&Json>)
        ensures
            match r {
                Some(v) => field(*self, key@) == Some(*v),
                None => field(*self, key@) is None,
            },
    {
        match self {
            Json::Object(members) => {
                let mut i: usize = 0;
                assert(members@.skip(0) =~= members@);
                while i < members.len()
                    invariant
                        i <= members@.len(),
                        field(*self, key@) == member(members@, key@),
                        member(members@, key@) == member(members@.skip(i as int), key@),
                    decreases members@.len() - i,
                {
                    assert(members@.skip(i as int).drop_first() =~= members@.skip(i + 1));
                    assert(members@.skip(i as int)[0] == members@[i as int]);
                    if str_eq(members[i].0.as_str(), key) {
                        return Some(&members[i].1);
                    }
                    i = i + 1;
                }
                None
            },
            _ => None,
        }
    }

    pub fn as_str(&self) -> (r: Option<&str>)
        ensures
            match r {
                Some(s) => str_of(Some(*self)) == Some(s@),
                None => str_of(Some(*self)) is None,
            },
    {
        match self {
            Json::String(s) => Some(s.as_str()),
            _ => None,
        }
    }

    pub fn as_u64(&self) -> (r: Option<u64>)
        ensures
            r == u64_of(Some(*self)),
    {
        match self {
            Json::Number(JsonNumber::PosInt(n)) => Some(*n),
            _ => None,
        }
    }

    pub fn as_bool(&self) -> (r: Option<bool>)
        ensures
            r == bool_of(Some(*self)),
    {
        match self {
            Json::Bool(b) => Some(*b),
            _ => None,
        }
    }

    pub fn as_array(&self) -> (r: Option<&Vec<Json>>)
        ensures
            match r {
                Some(v) => array_of(Some(*self)) == Some(v@),
                None => array_of(Some(*self)) is None,
            },
    {
        match self {
            Json::Array(items) => Some(items),
            _ => None,
        }
    }
}

/// `value.get(key).and_then(|v| v.as_str()).map(String::from)`.
pub fn opt_str_field(value: &Json, key: &str) -> (r: Option<String>)
    ensures
        opt_view(r) == str_of(field(*value, key@)),
{
    match value.get(key) {
        Some(v) => match v.as_str() {
            Some(s) => Some(s.to_string()),
            None => None,
        },
        None => None,
    }
}

/// `value.get(key).and_then(|v| v.as_str()).unwrap_or("").to_string()`.
pub fn str_field_or_empty(value: &Json, key: &str) -> (r: String)
    ensures
        r@ == or_empty(str_of(field(*value, key@))),
{
    match opt_str_field(value, key) {
        Some(s) => s,
        None => String::new(),
    }
}

/// `value.get(k1).and_then(|v| v.get(k2)).and_then(|v| v.as_str()).map(String::from)`.
pub fn opt_nested_str(value: &Json, k1: &str, k2: &str) -> (r: Option<String>)
    ensures
        opt_view(r) == str_of(and_field(field(*value, k1@), k2@)),
{
    match value.get(k1) {
        Some(inner) => opt_str_field(inner, k2),
        None => None,
    }
}

/// `value.get(k1).and_then(|v| v.get(k2)).and_then(|v| v.get(k3))
///  .and_then(|v| v.as_str()).map(String::from)`.
pub fn opt_nested_str3(value: &Json, k1: &str, k2: &str, k3: &str) -> (r: Option<String>)
    ensures
        opt_view(r) == str_of(and_field(and_field(field(*value, k1@), k2@), k3@)),
{
    match value.get(k1) {
        Some(inner) => opt_nested_str(inner, k2, k3),
        None => None,
    }
}

/// `value.get(key).and_then(|v| v.as_u64()).unwrap_or(0)`.
pub fn u64_field_or_zero(value: &Json, key: &str) -> (r: u64)
    ensures
        r == match u64_of(field(*value, key@)) {
            Some(n) => n,
            None => 0u64,
        },
{
    match value.get(key) {
        Some(v) => match v.as_u64() {
            Some(n) => n,
            None => 0,
        },
        None => 0,
    }
}

} // verus!

verus! {

/// A JSON number in mathematical form.
pub enum NumberV {
    PosInt(u64),
    NegInt(i64),
    Float(Seq<char>),
}

/// A JSON value in mathematical form: the view of `Json`.
pub enum JsonV {
    Null,
    Bool(bool),
    Number(NumberV),
    Str(Seq<char>),
    Array(Seq<JsonV>),
    Object(Seq<(Seq<char>, JsonV)>),
}

pub open spec fn number_view(n: JsonNumber) -> NumberV {
    match n {
        JsonNumber::PosInt(u) => NumberV::PosInt(u),
        JsonNumber::NegInt(i) => NumberV::NegInt(i),
        JsonNumber::Float(s) => NumberV::Float(s@),
    }
}

/// The mathematical form of a JSON value.
pub open spec fn jv(j: Json) -> JsonV
    decreases j,
{
    match j {
        Json::Null => JsonV::Null,
        Json::Bool(b) => JsonV::Bool(b),
        Json::Number(n) => JsonV::Number(number_view(n)),
        Json::String(s) => JsonV::Str(s@),
        Json::Array(items) => JsonV::Array(
            Seq::new(
                items@.len(),
                |i: int|
                    if 0 <= i < items@.len() {
                        jv(items@[i])
                    } else {
                        JsonV::Null
                    },
            ),
        ),
        Json::Object(members) => JsonV::Object(
            Seq::new(
                members@.len(),
                |i: int|
                    if 0 <= i < members@.len() {
                        (members@[i].0@, jv(members@[i].1))
                    } else {
                        (Seq::empty(), JsonV::Null)
                    },
            ),
        ),
    }
}

} // verus!

verus! {

/// The members of an object in mathematical form.
pub open spec fn members_v(ms: Seq<(String, Json)>) -> Seq<(Seq<char>, JsonV)> {
    Seq::new(ms.len(), |i: int| (ms[i].0@, jv(ms[i].1)))
}

/// The items of an array in mathematical form.
pub open spec fn items_v(items: Seq<Json>) -> Seq<JsonV> {
    Seq::new(items.len(), |i: int| jv(items[i]))
}

pub proof fn lemma_jv_object(ms: Vec<(String, Json)>)
    ensures
        jv(Json::Object(ms)) == JsonV::Object(members_v(ms@)),
{
    let j = jv(Json::Object(ms));
    let x = match j {
        JsonV::Object(x) => x,
        _ => Seq::empty(),
    };
    assert(j is Object);
    assert(x =~= members_v(ms@));
}

pub proof fn lemma_jv_array(items: Vec<Json>)
    ensures
        jv(Json::Array(items)) == JsonV::Array(items_v(items@)),
{
    let j = jv(Json::Array(items));
    let x = match j {
        JsonV::Array(x) => x,
        _ => Seq::empty(),
    };
    assert(j is Array);
    assert(x =~= items_v(items@));
}

pub open spec fn opt_jv(o: Option<Json>) -> Option<JsonV> {
    match o {
        Some(v) => Some(jv(v)),
        None => None,
    }
}

/// First member named `key` among `members`, in mathematical form.
pub open spec fn member_v(members: Seq<(Seq<char>, JsonV)>, key: Seq<char>) -> Option<JsonV>
    decreases members.len(),
{
    if members.len() == 0 {
        None
    } else if members[0].0 == key {
        Some(members[0].1)
    } else {
        member_v(members.drop_first(), key)
    }
}

/// The member named `key` when `value` is an object.
pub open spec fn field_v(value: JsonV, key: Seq<char>) -> Option<JsonV> {
    match value {
        JsonV::Object(members) => member_v(members, key),
        _ => None,
    }
}

/// The text of a string value.
pub open spec fn str_of_v(o: Option<JsonV>) -> Option<Seq<char>> {
    match o {
        Some(JsonV::Str(s)) => Some(s),
        _ => None,
    }
}

proof fn lemma_member_jv(ms: Seq<(String, Json)>, key: Seq<char>)
    ensures
        opt_jv(member(ms, key)) == member_v(members_v(ms), key),
    decreases ms.len(),
{
    if ms.len() > 0 {
        assert(members_v(ms).drop_first() =~= members_v(ms.drop_first()));
        lemma_member_jv(ms.drop_first(), key);
    }
}

/// Looking a member up commutes with the view.
pub proof fn lemma_field_jv(v: Json, key: Seq<char>)
    ensures
        opt_jv(field(v, key)) == field_v(jv(v), key),
{
    match v {
        Json::Object(ms) => {
            lemma_jv_object(ms);
            lemma_member_jv(ms@, key);
        },
        _ => {},
    }
}

/// Reading a string commutes with the view.
pub proof fn lemma_str_of_jv(o: Option<Json>)
    ensures
        str_of(o) == str_of_v(opt_jv(o)),
{
    match o {
        Some(v) => match v {
            Json::String(s) => {},
            _ => {},
        },
        None => {},
    }
}

pub fn json_string(s: &str) -> (r: Json)
    ensures
        jv(r) == JsonV::Str(s@),
{
    Json::String(s.to_string())
}

pub fn json_member(key: &str, value: Json) -> (r: (String, Json))
    ensures
        r.0@ == key@,
        r.1 == value,
{
    (key.to_string(), value)
}

/// An object with one member.
pub fn json_object1(k1: &str, v1: Json) -> (r: Json)
    ensures
        jv(r) == JsonV::Object(seq![(k1@, jv(v1))]),
{
    let ms = vec![json_member(k1, v1)];
    proof {
        lemma_jv_object(ms);
        assert(members_v(ms@) =~= seq![(k1@, jv(v1))]);
    }
    Json::Object(ms)
}

/// An object with two members, in this order.
pub fn json_object2(k1: &str, v1: Json, k2: &str, v2: Json) -> (r: Json)
    ensures
        jv(r) == JsonV::Object(seq![(k1@, jv(v1)), (k2@, jv(v2))]),
{
    let ms = vec![json_member(k1, v1), json_member(k2, v2)];
    proof {
        lemma_jv_object(ms);
        assert(members_v(ms@) =~= seq![(k1@, jv(v1)), (k2@, jv(v2))]);
    }
    Json::Object(ms)
}

} // verus!
