//! The JSON values that the crate hands out for writing.

use vstd::prelude::*;

use crate::outside::{
    compact_json, document, json_array, json_null, json_number, json_object, json_string,
    json_to_string, json_to_string_pretty, pretty_json, read_json,
};

verus! {

/// A JSON value. The members of an object keep the order in which they are written.
#[derive(Debug)]
pub enum JsonValue {
    Null,
    Number(u64),
    Text(String),
    Array(Vec<JsonValue>),
    Object(Vec<(String, JsonValue)>),
}

/// The mathematical counterpart of [`JsonValue`].
pub enum Json {
    Null,
    Number(nat),
    Text(Seq<char>),
    Array(Seq<Json>),
    Object(Seq<(Seq<char>, Json)>),
    /// A value of a kind that [`JsonValue`] does not have.
    Foreign,
}

/// Whether a value nests at most `depth` levels deep and no object in it names a member twice.
pub open spec fn writable(value: Json, depth: nat) -> bool
    decreases depth,
{
    match value {
        Json::Null => true,
        Json::Number(n) => n <= u64::MAX,
        Json::Text(s) => true,
        Json::Array(items) => depth > 0 && forall|i: int|
            0 <= i < items.len() ==> writable(#[trigger] items[i], (depth - 1) as nat),
        Json::Object(members) => {
            &&& depth > 0
            &&& forall|i: int, j: int|
                0 <= i < j < members.len() ==> (#[trigger] members[i]).0 != (
                #[trigger] members[j]).0
            &&& forall|i: int|
                0 <= i < members.len() ==> writable((#[trigger] members[i]).1, (depth - 1) as nat)
        },
        Json::Foreign => false,
    }
}

/// The value that a [`JsonValue`] stands for.
pub open spec fn json_model(value: JsonValue) -> Json
    decreases value,
{
    match value {
        JsonValue::Null => Json::Null,
        JsonValue::Number(n) => Json::Number(n as nat),
        JsonValue::Text(s) => Json::Text(s@),
        JsonValue::Array(items) => Json::Array(
            Seq::new(
                items@.len(),
                |i: int|
                    if 0 <= i < items@.len() {
                        json_model(items@[i])
                    } else {
                        Json::Null
                    },
            ),
        ),
        JsonValue::Object(members) => Json::Object(
            Seq::new(
                members@.len(),
                |i: int|
                    if 0 <= i < members@.len() {
                        (members@[i].0@, json_model(members@[i].1))
                    } else {
                        (Seq::empty(), Json::Null)
                    },
            ),
        ),
    }
}

impl View for JsonValue {
    type V = Json;

    open spec fn view(&self) -> Json {
        json_model(*self)
    }
}

/// Builds an array.
pub(crate) fn array(items: Vec<JsonValue>) -> (r: JsonValue)
    ensures
        r@ == Json::Array(items@.map_values(|item: JsonValue| item@)),
{
    let ghost expected = items@.map_values(|item: JsonValue| item@);
    let r = JsonValue::Array(items);
    proof {
        reveal_with_fuel(json_model, 2);
        assert(r@->Array_0 =~= expected);
    }
    r
}

/// Builds an object.
pub(crate) fn object(members: Vec<(String, JsonValue)>) -> (r: JsonValue)
    ensures
        r@ == Json::Object(members@.map_values(|m: (String, JsonValue)| (m.0@, m.1@))),
{
    let ghost expected = members@.map_values(|m: (String, JsonValue)| (m.0@, m.1@));
    let r = JsonValue::Object(members);
    proof {
        reveal_with_fuel(json_model, 2);
        assert(r@->Object_0 =~= expected);
    }
    r
}

/// Builds a string.
pub(crate) fn text(s: &str) -> (r: JsonValue)
    ensures
        r@ == Json::Text(s@),
{
    JsonValue::Text(s.to_owned())
}

/// Turns a value into a document of `serde_json`.
fn to_document(value: &JsonValue, Ghost(depth): Ghost<nat>) -> (r: serde_json::Value)
    requires
        writable(value@, depth),
    ensures
        document(r) == value@,
    decreases depth,
{
    proof {
        reveal_with_fuel(json_model, 2);
        reveal_with_fuel(writable, 2);
    }
    match value {
        JsonValue::Null => json_null(),
        JsonValue::Number(n) => json_number(*n),
        JsonValue::Text(s) => json_string(s.as_str()),
        JsonValue::Array(items) => {
            let ghost expected = value@->Array_0;
            let n: usize = items.len();
            let mut out: Vec<serde_json::Value> = Vec::new();
            for i in 0..n
                invariant
                    n == items@.len(),
                    depth > 0,
                    expected.len() == n,
                    forall|k: int| 0 <= k < n ==> #[trigger] expected[k] == items@[k]@,
                    forall|k: int|
                        0 <= k < n ==> writable(#[trigger] expected[k], (depth - 1) as nat),
                    out@.len() == i,
                    forall|k: int| 0 <= k < i ==> document(#[trigger] out@[k]) == expected[k],
            {
                assert(expected[i as int] == items@[i as int]@);
                out.push(to_document(&items[i], Ghost((depth - 1) as nat)));
            }
            proof {
                assert(out@.map_values(|v: serde_json::Value| document(v)) =~= expected);
            }
            json_array(out)
        },
        JsonValue::Object(members) => {
            let ghost expected = value@->Object_0;
            let n: usize = members.len();
            let mut out: Vec<(String, serde_json::Value)> = Vec::new();
            for i in 0..n
                invariant
                    n == members@.len(),
                    depth > 0,
                    expected.len() == n,
                    forall|k: int|
                        0 <= k < n ==> #[trigger] expected[k] == (members@[k].0@, members@[k].1@),
                    forall|k: int|
                        0 <= k < n ==> writable((#[trigger] expected[k]).1, (depth - 1) as nat),
                    out@.len() == i,
                    forall|k: int|
                        0 <= k < i ==> (#[trigger] out@[k]).0@ == expected[k].0 && document(
                            out@[k].1,
                        ) == expected[k].1,
            {
                assert(expected[i as int] == (members@[i as int].0@, members@[i as int].1@));
                let member = to_document(&members[i].1, Ghost((depth - 1) as nat));
                out.push((members[i].0.clone(), member));
            }
            proof {
                assert(out@.map_values(|m: (String, serde_json::Value)| (m.0@, document(m.1)))
                    =~= expected);
                assert forall|i: int, j: int| 0 <= i < j < out@.len() implies (
                #[trigger] out@[i]).0@ != (#[trigger] out@[j]).0@ by {
                    assert(expected[i].0 != expected[j].0);
                }
            }
            json_object(out)
        },
    }
}

/// Writes a value on one line.
pub fn write_compact(value: &JsonValue) -> (r: Option<String>)
    requires
        writable(value@, 100),
    ensures
        r is Some,
        r matches Some(t) ==> {
            &&& t@ == compact_json(value@)
            &&& read_json(t@) == Some(value@)
            &&& !t@.contains('\n')
        },
{
    match json_to_string(&to_document(value, Ghost(100))) {
        Ok(t) => Some(t),
        Err(_) => None,
    }
}

/// Writes a value over several lines, indented.
pub fn write_pretty(value: &JsonValue) -> (r: Option<String>)
    requires
        writable(value@, 100),
    ensures
        r is Some,
        r matches Some(t) ==> {
            &&& t@ == pretty_json(value@)
            &&& read_json(t@) == Some(value@)
        },
{
    match json_to_string_pretty(&to_document(value, Ghost(100))) {
        Ok(t) => Some(t),
        Err(_) => None,
    }
}

/// Values stand for what they hold, and lists for their elements in order.
pub proof fn values_stand_for_what_they_hold(value: JsonValue, i: int)
    ensures
        value is Null ==> value@ == Json::Null,
        value matches JsonValue::Number(n) ==> value@ == Json::Number(n as nat),
        value matches JsonValue::Text(s) ==> value@ == Json::Text(s@),
        value matches JsonValue::Array(items) ==> {
            &&& value@ is Array && value@->Array_0.len() == items@.len()
            &&& 0 <= i < items@.len() ==> value@->Array_0[i] == items@[i]@
        },
        value matches JsonValue::Object(members) ==> {
            &&& value@ is Object && value@->Object_0.len() == members@.len()
            &&& 0 <= i < members@.len() ==> value@->Object_0[i] == (
                members@[i].0@,
                members@[i].1@,
            )
        },
{
    reveal_with_fuel(json_model, 2);
}

} // verus!
