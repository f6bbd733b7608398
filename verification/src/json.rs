//! JSON values as this library reads them, and parsing JSON text with `serde_json`.

use vstd::prelude::*;

use serde_json::Value;

use crate::text::str_eq;

verus! {

#[verifier::external_type_specification]
#[verifier::external_body]
pub struct ExJsonValue(Value);

/// A JSON number. Only the whole numbers are told apart: this library reads
/// numbers as unsigned integers, and no float is one.
#[derive(Clone, Debug, PartialEq, Eq, Structural)]
pub enum JsonNumber {
    /// A number that is a whole number and at least zero.
    PosInt(u64),
    /// A whole number below zero.
    NegInt(i64),
    /// A number that is not a whole number, or too large for the above.
    Float,
}

/// A JSON value. An object holds the keys of its members and, at the same
/// positions, their values; each key occurs once.
#[derive(Debug)]
pub enum Json {
    Null,
    Bool(bool),
    Number(JsonNumber),
    String(String),
    Array(Vec<Json>),
    Object(Vec<String>, Vec<Json>),
}

/// What `serde_json::from_str` parses `text` into, as a `Json`; `None` when the
/// text is not JSON.
pub uninterp spec fn json_parse(text: Seq<char>) -> Option<Json>;

/// Converts a `serde_json::Value`, node by node, into a `Json`: a number becomes
/// `PosInt` when `as_u64` reads it, else `NegInt` when `as_i64` reads it, else
/// `Float`; an object keeps its members in the order the map yields them.
#[verifier::external_body]
fn json_from_value(v: Value) -> Json {
    match v {
        Value::Null => Json::Null,
        Value::Bool(b) => Json::Bool(b),
        Value::Number(n) => Json::Number(match (n.as_u64(), n.as_i64()) {
            (Some(u), _) => JsonNumber::PosInt(u),
            (None, Some(i)) => JsonNumber::NegInt(i),
            (None, None) => JsonNumber::Float,
        }),
        Value::String(s) => Json::String(s),
        Value::Array(a) => Json::Array(a.into_iter().map(json_from_value).collect()),
        Value::Object(o) => {
            let (keys, values) = o.into_iter().map(|(k, v)| (k, json_from_value(v))).unzip();
            Json::Object(keys, values)
        },
    }
}

/// Parses JSON text with `serde_json::from_str` into a `serde_json::Value` and
/// converts it. Trusted: the result is the one `json_parse` names for the text.
#[verifier::external_body]
fn parse_json(text: &str) -> (r: Option<Json>)
    ensures
        r == json_parse(text@),
{
    match serde_json::from_str::<Value>(text) {
        Ok(v) => Some(json_from_value(v)),
        Err(_) => None,
    }
}

impl Json {
    /// Parses JSON text; `None` when it is not JSON.
    pub fn parse(text: &str) -> (r: Option<Json>)
        ensures
            r == json_parse(text@),
    {
        parse_json(text)
    }
}

/// The value of the first member named `key`, the members being `keys` and, at the
/// same positions, `values`.
pub open spec fn member_lookup(keys: Seq<String>, values: Seq<Json>, key: Seq<char>) -> Option<Json>
    decreases keys.len(),
{
    if keys.len() == 0 || values.len() == 0 {
        None
    } else if keys[0]@ == key {
        Some(values[0])
    } else {
        member_lookup(keys.drop_first(), values.drop_first(), key)
    }
}

/// The member `key` of `j`, when `j` is an object that has one.
pub open spec fn json_member(j: Json, key: Seq<char>) -> Option<Json> {
    match j {
        Json::Object(keys, values) => member_lookup(keys@, values@, key),
        _ => None,
    }
}

/// The text of a JSON string.
pub open spec fn json_as_str(j: Option<Json>) -> Option<Seq<char>> {
    match j {
        Some(Json::String(s)) => Some(s@),
        _ => None,
    }
}

/// The elements of a JSON array.
pub open spec fn json_as_array(j: Option<Json>) -> Option<Seq<Json>> {
    match j {
        Some(Json::Array(items)) => Some(items@),
        _ => None,
    }
}

/// The unsigned integers among `items`, in order.
pub open spec fn json_u64s(items: Seq<Json>) -> Seq<u64>
    decreases items.len(),
{
    if items.len() == 0 {
        Seq::empty()
    } else {
        let rest = json_u64s(items.drop_last());
        match items.last() {
            Json::Number(JsonNumber::PosInt(n)) => rest.push(n),
            _ => rest,
        }
    }
}

proof fn lemma_member_lookup_found(keys: Seq<String>, values: Seq<Json>, key: Seq<char>, i: int)
    requires
        0 <= i < keys.len(),
        i < values.len(),
        keys[i]@ == key,
        forall|j: int| 0 <= j < i ==> keys[j]@ != key,
    ensures
        member_lookup(keys, values, key) == Some(values[i]),
    decreases i,
{
    if i > 0 {
        lemma_member_lookup_found(keys.drop_first(), values.drop_first(), key, i - 1);
    }
}

proof fn lemma_member_lookup_absent(keys: Seq<String>, values: Seq<Json>, key: Seq<char>, n: int)
    requires
        n == keys.len() || n == values.len(),
        n <= keys.len(),
        n <= values.len(),
        forall|j: int| 0 <= j < n ==> keys[j]@ != key,
    ensures
        member_lookup(keys, values, key) is None,
    decreases n,
{
    if n > 0 {
        lemma_member_lookup_absent(keys.drop_first(), values.drop_first(), key, n - 1);
    }
}

impl Json {
    /// The member `key` of this value, when it is an object that has one.
    pub fn member(&self, key: &str) -> (r: Option<&Json>)
        ensures
            match r {
                Some(v) => json_member(*self, key@) == Some(*v),
                None => json_member(*self, key@) is None,
            },
    {
        match self {
            Json::Object(keys, values) => {
                let n = if keys.len() < values.len() {
                    keys.len()
                } else {
                    values.len()
                };
                let mut i: usize = 0;
                while i < n
                    invariant
                        *self == Json::Object(*keys, *values),
                        n <= keys@.len(),
                        n <= values@.len(),
                        n == keys@.len() || n == values@.len(),
                        i <= n,
                        forall|j: int| 0 <= j < i ==> keys@[j]@ != key@,
                    decreases n - i,
                {
                    if str_eq(keys[i].as_str(), key) {
                        proof {
                            lemma_member_lookup_found(keys@, values@, key@, i as int);
                        }
                        return Some(&values[i]);
                    }
                    i = i + 1;
                }
                proof {
                    lemma_member_lookup_absent(keys@, values@, key@, n as int);
                }
                None
            },
            _ => None,
        }
    }

    /// The text of this value, when it is a string.
    pub fn as_str(&self) -> (r: Option<&str>)
        ensures
            match r {
                Some(s) => json_as_str(Some(*self)) == Some(s@),
                None => json_as_str(Some(*self)) is None,
            },
    {
        match self {
            Json::String(s) => Some(s.as_str()),
            _ => None,
        }
    }

    /// The unsigned integer this value is, if it is one.
    pub fn as_u64(&self) -> (r: Option<u64>)
        ensures
            r == match *self {
                Json::Number(JsonNumber::PosInt(n)) => Some(n),
                _ => None::<u64>,
            },
    {
        match self {
            Json::Number(JsonNumber::PosInt(n)) => Some(*n),
            _ => None,
        }
    }
}

/// The unsigned integers among the elements of an array, in order.
pub fn u64s_of(items: &Vec<Json>) -> (r: Vec<u64>)
    ensures
        r@ == json_u64s(items@),
{
    let mut r: Vec<u64> = Vec::new();
    let n = items.len();
    let mut i: usize = 0;
    while i < n
        invariant
            n == items@.len(),
            i <= n,
            r@ == json_u64s(items@.take(i as int)),
        decreases n - i,
    {
        let ghost before = items@.take(i as int);
        match items[i].as_u64() {
            Some(v) => r.push(v),
            None => {},
        }
        proof {
            let t = items@.take((i + 1) as int);
            assert(t.drop_last() =~= before);
            assert(t.last() == items@[i as int]);
        }
        i = i + 1;
    }
    assert(items@.take(n as int) =~= items@);
    r
}

} // verus!
