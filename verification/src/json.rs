//! JSON documents as the library reads them: parsed by `serde_json`, then
//! navigated by key and index.

use vstd::prelude::*;

verus! {

/// A JSON value. A number is kept as what `as_u64` gives: the value when it
/// is a non-negative integer that fits, `None` otherwise.
pub enum JsonValue {
    Null,
    Bool(bool),
    Num(Option<u64>),
    Str(String),
    Arr(Vec<JsonValue>),
    Obj(Vec<(String, JsonValue)>),
}

#[verifier::external_type_specification]
#[verifier::external_body]
pub struct ExSerdeJsonValue(serde_json::Value);

/// What `serde_json::from_str::<serde_json::Value>` makes of `s`, as a
/// `JsonValue`; `None` when it rejects the text.
pub uninterp spec fn json_parse(s: Seq<char>) -> Option<JsonValue>;

/// The same document as a `JsonValue`: each variant of `serde_json::Value`
/// becomes its counterpart, numbers through `Number::as_u64`, object
/// entries in the order the map yields them.
#[verifier::external_body]
fn json_value_of(v: &serde_json::Value) -> JsonValue {
    match v {
        serde_json::Value::Null => JsonValue::Null,
        serde_json::Value::Bool(b) => JsonValue::Bool(*b),
        serde_json::Value::Number(n) => JsonValue::Num(n.as_u64()),
        serde_json::Value::String(s) => JsonValue::Str(s.clone()),
        serde_json::Value::Array(a) => JsonValue::Arr(a.iter().map(json_value_of).collect()),
        serde_json::Value::Object(o) => JsonValue::Obj(
            o.iter().map(|(k, x)| (k.clone(), json_value_of(x))).collect(),
        ),
    }
}

/// Calls `serde_json::from_str::<serde_json::Value>`. The contract claims
/// only that the document is a function of the text; the error message is
/// serde_json's own and is not described.
#[verifier::external_body]
pub(crate) fn parse_json(s: &str) -> (r: Result<JsonValue, String>)
    ensures
        r matches Ok(v) ==> json_parse(s@) == Some(v),
        r is Err ==> json_parse(s@) is None,
{
    match serde_json::from_str::<serde_json::Value>(s) {
        Ok(v) => Ok(json_value_of(&v)),
        Err(e) => Err(e.to_string()),
    }
}

/// The value of the first entry named `key`.
pub open spec fn field_spec(entries: Seq<(String, JsonValue)>, key: Seq<char>) -> Option<JsonValue>
    decreases entries.len(),
{
    if entries.len() == 0 {
        None
    } else if entries[0].0@ == key {
        Some(entries[0].1)
    } else {
        field_spec(entries.drop_first(), key)
    }
}

/// `Value::get(key)`: the member `key` of an object; `None` for anything
/// else.
pub open spec fn get_spec(v: JsonValue, key: Seq<char>) -> Option<JsonValue> {
    match v {
        JsonValue::Obj(es) => field_spec(es@, key),
        _ => None,
    }
}

/// One step of a path: the member `key` of what the previous steps found.
pub open spec fn step_spec(v: Option<JsonValue>, key: Seq<char>) -> Option<JsonValue> {
    match v {
        Some(x) => get_spec(x, key),
        None => None,
    }
}

/// The JSON pointer step `0`: the first element of an array, or the member
/// named `0` of an object.
pub open spec fn first_spec(v: Option<JsonValue>) -> Option<JsonValue> {
    match v {
        Some(JsonValue::Arr(a)) => if a@.len() > 0 {
            Some(a@[0])
        } else {
            None
        },
        Some(JsonValue::Obj(es)) => field_spec(es@, "0"@),
        _ => None,
    }
}

/// `as_str`: the text of a string value.
pub open spec fn str_spec(v: Option<JsonValue>) -> Option<String> {
    match v {
        Some(JsonValue::Str(s)) => Some(s),
        _ => None,
    }
}

/// `as_u64`: a non-negative integer that fits.
pub open spec fn u64_spec(v: Option<JsonValue>) -> Option<u64> {
    match v {
        Some(JsonValue::Num(n)) => n,
        _ => None,
    }
}

/// The value of the first entry named `key`.
pub fn field<'a>(entries: &'a Vec<(String, JsonValue)>, key: &str) -> (r: Option<&'a JsonValue>)
    ensures
        r matches Some(x) ==> field_spec(entries@, key@) == Some(*x),
        r is None ==> field_spec(entries@, key@) is None,
{
    let mut i: usize = 0;
    assert(entries@.skip(0) =~= entries@);
    while i < entries.len()
        invariant
            i <= entries@.len(),
            field_spec(entries@, key@) == field_spec(entries@.skip(i as int), key@),
        decreases entries.len() - i,
    {
        assert(entries@.skip(i as int).drop_first() =~= entries@.skip(i + 1));
        if crate::text::chars_eq_str(&crate::text::chars_of(entries[i].0.as_str()), key) {
            return Some(&entries[i].1);
        }
        i += 1;
    }
    None
}

/// `Value::get(key)`.
pub fn get<'a>(v: &'a JsonValue, key: &str) -> (r: Option<&'a JsonValue>)
    ensures
        r matches Some(x) ==> get_spec(*v, key@) == Some(*x),
        r is None ==> get_spec(*v, key@) is None,
{
    match v {
        JsonValue::Obj(es) => field(es, key),
        _ => None,
    }
}

/// Follows `key` from what the previous steps found.
pub fn step<'a>(v: Option<&'a JsonValue>, key: &str) -> (r: Option<&'a JsonValue>)
    ensures
        r matches Some(x) ==> step_spec(opt_deref(v), key@) == Some(*x),
        r is None ==> step_spec(opt_deref(v), key@) is None,
{
    match v {
        Some(x) => get(x, key),
        None => None,
    }
}

/// The JSON pointer step `0`.
pub fn first<'a>(v: Option<&'a JsonValue>) -> (r: Option<&'a JsonValue>)
    ensures
        r matches Some(x) ==> first_spec(opt_deref(v)) == Some(*x),
        r is None ==> first_spec(opt_deref(v)) is None,
{
    match v {
        Some(JsonValue::Arr(a)) => if a.len() > 0 {
            Some(&a[0])
        } else {
            None
        },
        Some(JsonValue::Obj(es)) => field(es, "0"),
        _ => None,
    }
}

/// `as_str`, copied.
pub fn as_string(v: Option<&JsonValue>) -> (r: Option<String>)
    ensures
        r == str_spec(opt_deref(v)),
{
    match v {
        Some(JsonValue::Str(s)) => Some(s.clone()),
        _ => None,
    }
}

/// `as_u64`.
pub fn as_u64(v: Option<&JsonValue>) -> (r: Option<u64>)
    ensures
        r == u64_spec(opt_deref(v)),
{
    match v {
        Some(JsonValue::Num(n)) => *n,
        _ => None,
    }
}

pub open spec fn opt_deref(v: Option<&JsonValue>) -> Option<JsonValue> {
    match v {
        Some(x) => Some(*x),
        None => None,
    }
}

} // verus!
