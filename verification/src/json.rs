use crate::text::str_eq;
use vstd::prelude::*;

verus! {

/// A JSON document as the library reads it.
///
/// An object is its member names and, at the same positions, their values, in
/// the order the parser hands them out in. A number is kept as its value when
/// that is an unsigned 64-bit integer, and as `None` otherwise (negative or
/// fractional).
#[derive(Debug)]
pub enum JsonValue {
    Null,
    Bool(bool),
    Number(Option<u64>),
    Str(String),
    Array(Vec<JsonValue>),
    Object(Vec<String>, Vec<JsonValue>),
}

/// The value of the first member named `key` among the first `n` members.
pub open spec fn spec_member_in(keys: Seq<String>, values: Seq<JsonValue>, key: Seq<char>, n: int) -> Option<JsonValue>
    decreases n,
{
    if n <= 0 {
        None
    } else {
        match spec_member_in(keys, values, key, n - 1) {
            Some(v) => Some(v),
            None => if keys[n - 1]@ == key { Some(values[n - 1]) } else { None },
        }
    }
}

/// The value of the first member of an object named `key`, if any.
pub open spec fn spec_member(keys: Seq<String>, values: Seq<JsonValue>, key: Seq<char>) -> Option<JsonValue> {
    spec_member_in(keys, values, key, if keys.len() <= values.len() { keys.len() as int } else { values.len() as int })
}

/// Finds the first member of an object named `key`.
pub fn member<'a>(keys: &'a Vec<String>, values: &'a Vec<JsonValue>, key: &str) -> (v: Option<&'a JsonValue>)
    ensures
        match spec_member(keys@, values@, key@) {
            Some(x) => v == Some(&x),
            None => v is None,
        },
{
    let n = if keys.len() <= values.len() { keys.len() } else { values.len() };
    let mut i: usize = 0;
    while i < n
        invariant
            n <= keys@.len(),
            n <= values@.len(),
            n == (if keys@.len() <= values@.len() { keys@.len() as int } else { values@.len() as int }),
            i <= n,
            spec_member_in(keys@, values@, key@, i as int) is None,
        decreases n - i,
    {
        if str_eq(keys[i].as_str(), key) {
            proof { lemma_member_found_stays(keys@, values@, key@, i as int + 1, n as int); }
            return Some(&values[i]);
        }
        i = i + 1;
    }
    None
}

/// Once a member is found among the first `m` members, looking among more
/// members finds the same one.
pub proof fn lemma_member_found_stays(keys: Seq<String>, values: Seq<JsonValue>, key: Seq<char>, m: int, n: int)
    requires
        0 <= m <= n,
    ensures
        spec_member_in(keys, values, key, m) is Some ==> spec_member_in(keys, values, key, n) == spec_member_in(keys, values, key, m),
    decreases n - m,
{
    if m < n {
        lemma_member_found_stays(keys, values, key, m, n - 1);
    }
}

/// The document that the text parses to with `serde_json`, or `None` when the
/// text is not JSON.
pub uninterp spec fn json_document(text: Seq<char>) -> Option<JsonValue>;

#[verifier::external_type_specification]
#[verifier::external_body]
pub struct ExJsonValue(serde_json::Value);

/// Turns a `serde_json::Value` into the library's form, variant for variant
/// (members in the order the map hands them out in, numbers by `as_u64`).
#[verifier::external_body]
fn json_from_serde(value: serde_json::Value) -> JsonValue {
    match value {
        serde_json::Value::Null => JsonValue::Null,
        serde_json::Value::Bool(b) => JsonValue::Bool(b),
        serde_json::Value::Number(n) => JsonValue::Number(n.as_u64()),
        serde_json::Value::String(s) => JsonValue::Str(s),
        serde_json::Value::Array(items) => JsonValue::Array(items.into_iter().map(json_from_serde).collect()),
        serde_json::Value::Object(map) => {
            let (keys, values): (Vec<String>, Vec<serde_json::Value>) = map.into_iter().unzip();
            JsonValue::Object(keys, values.into_iter().map(json_from_serde).collect())
        },
    }
}

/// Parses JSON text with `serde_json::from_str`.
///
/// Trusted: the result is named `json_document` of the text, that is, it
/// depends on the text alone; nothing else is claimed of the parser.
#[verifier::external_body]
pub fn parse_json(text: &str) -> (v: Option<JsonValue>)
    ensures
        v == json_document(text@),
{
    serde_json::from_str::<serde_json::Value>(text).ok().map(json_from_serde)
}

} // verus!
