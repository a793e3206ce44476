//! A JSON tree as plain values, with the lookups the schema normaliser uses.

use vstd::prelude::*;
use crate::text::chars_of;

verus! {

/// A JSON number, as the unsigned and signed 64-bit readings that it admits.
#[derive(Debug, Clone, Copy, PartialEq, Eq)]
pub struct JsonNumber {
    pub as_u64: Option<u64>,
    pub as_i64: Option<i64>,
}

/// One member of a JSON object.
#[derive(Debug)]
pub struct JsonMember {
    pub key: String,
    pub value: JsonValue,
}

/// A JSON document. Object members keep the order in which the parser yields them.
#[derive(Debug)]
pub enum JsonValue {
    Null,
    Bool(bool),
    Number(JsonNumber),
    Str(String),
    Array(Vec<JsonValue>),
    Object(Vec<JsonMember>),
}

/// The parser's own document type, carried only inside the conversion below.
#[verifier::external_type_specification]
#[verifier::external_body]
pub struct ExSerdeValue(serde_json::Value);

/// What the JSON parser yields for a text: `None` when it is not one JSON document.
pub uninterp spec fn parsed_json(text: Seq<char>) -> Option<JsonValue>;

/// Relies on `serde_json::from_str::<serde_json::Value>`: parses `text` as one JSON
/// document; the outcome depends on the text alone.
#[verifier::external_body]
pub fn parse_json(text: &str) -> (r: Option<JsonValue>)
    ensures
        r == parsed_json(text@),
{
    serde_json::from_str::<serde_json::Value>(text).ok().map(|v| tree_of(&v))
}

/// Moves a `serde_json::Value` into the library's tree, variant by variant, reading
/// numbers through `serde_json::Number::as_u64` and `as_i64`; used only by `parse_json`.
#[verifier::external_body]
fn tree_of(v: &serde_json::Value) -> JsonValue {
    match v {
        serde_json::Value::Null => JsonValue::Null,
        serde_json::Value::Bool(b) => JsonValue::Bool(*b),
        serde_json::Value::Number(n) => JsonValue::Number(JsonNumber { as_u64: n.as_u64(), as_i64: n.as_i64() }),
        serde_json::Value::String(s) => JsonValue::Str(s.clone()),
        serde_json::Value::Array(a) => JsonValue::Array(a.iter().map(tree_of).collect()),
        serde_json::Value::Object(m) => JsonValue::Object(
            m.iter().map(|(k, x)| JsonMember { key: k.clone(), value: tree_of(x) }).collect(),
        ),
    }
}

/// Value of the first member at or after `i` whose key is `key`.
pub open spec fn member_from(ms: Seq<JsonMember>, key: Seq<char>, i: int) -> Option<JsonValue>
    decreases ms.len() - i,
{
    if i < 0 || i >= ms.len() {
        None
    } else if ms[i].key@ == key {
        Some(ms[i].value)
    } else {
        member_from(ms, key, i + 1)
    }
}

/// `v[key]` when `v` is an object holding `key`.
pub open spec fn jget(v: JsonValue, key: Seq<char>) -> Option<JsonValue> {
    match v {
        JsonValue::Object(ms) => member_from(ms@, key, 0),
        _ => None,
    }
}

/// `v[i]` when `v` is an array longer than `i`.
pub open spec fn jat(v: JsonValue, i: int) -> Option<JsonValue> {
    match v {
        JsonValue::Array(a) => if 0 <= i < a@.len() { Some(a@[i]) } else { None },
        _ => None,
    }
}

pub open spec fn oget(o: Option<JsonValue>, key: Seq<char>) -> Option<JsonValue> {
    match o {
        Some(v) => jget(v, key),
        None => None,
    }
}

pub open spec fn oat(o: Option<JsonValue>, i: int) -> Option<JsonValue> {
    match o {
        Some(v) => jat(v, i),
        None => None,
    }
}

pub open spec fn ostr(o: Option<JsonValue>) -> Option<String> {
    match o {
        Some(JsonValue::Str(s)) => Some(s),
        _ => None,
    }
}

pub open spec fn ou64(o: Option<JsonValue>) -> Option<u64> {
    match o {
        Some(JsonValue::Number(n)) => n.as_u64,
        _ => None,
    }
}

pub open spec fn oi64(o: Option<JsonValue>) -> Option<i64> {
    match o {
        Some(JsonValue::Number(n)) => n.as_i64,
        _ => None,
    }
}

pub open spec fn obool(o: Option<JsonValue>) -> Option<bool> {
    match o {
        Some(JsonValue::Bool(b)) => Some(b),
        _ => None,
    }
}

/// The elements of an array value.
pub open spec fn oarray(o: Option<JsonValue>) -> Option<Seq<JsonValue>> {
    match o {
        Some(JsonValue::Array(a)) => Some(a@),
        _ => None,
    }
}

pub open spec fn deref_opt(r: Option<&JsonValue>) -> Option<JsonValue> {
    match r {
        Some(x) => Some(*x),
        None => None,
    }
}

/// `v[key]`.
pub fn get<'a>(v: &'a JsonValue, key: &str) -> (r: Option<&'a JsonValue>)
    ensures
        deref_opt(r) == jget(*v, key@),
{
    match v {
        JsonValue::Object(ms) => {
            assert(*v == JsonValue::Object(*ms));
            let k = chars_of(key);
            let mut i: usize = 0;
            while i < ms.len()
                invariant
                    *v == JsonValue::Object(*ms),
                    k@ == key@,
                    i <= ms@.len(),
                    member_from(ms@, key@, 0) == member_from(ms@, key@, i as int),
                decreases ms@.len() - i,
            {
                let kc = chars_of(ms[i].key.as_str());
                if crate::text::same_chars(&kc, &k) {
                    assert(ms@[i as int].key@ == key@);
                    let m = &ms[i];
                    let r = Some(&m.value);
                    assert(deref_opt(r) == Some(ms@[i as int].value));
                    return r;
                }
                i = i + 1;
            }
            None
        },
        _ => None,
    }
}

/// `o[key]`, absent when `o` is.
pub fn oget_exec<'a>(o: Option<&'a JsonValue>, key: &str) -> (r: Option<&'a JsonValue>)
    ensures
        deref_opt(r) == oget(deref_opt(o), key@),
{
    match o {
        Some(v) => get(v, key),
        None => None,
    }
}

/// `o[i]`, absent when `o` is not an array longer than `i`.
pub fn oat_exec<'a>(o: Option<&'a JsonValue>, i: usize) -> (r: Option<&'a JsonValue>)
    ensures
        deref_opt(r) == oat(deref_opt(o), i as int),
{
    match o {
        Some(JsonValue::Array(a)) => {
            if i < a.len() {
                Some(&a[i])
            } else {
                None
            }
        },
        _ => None,
    }
}

pub fn ostr_exec(o: Option<&JsonValue>) -> (r: Option<String>)
    ensures
        r == ostr(deref_opt(o)),
{
    match o {
        Some(JsonValue::Str(s)) => Some(s.clone()),
        _ => None,
    }
}

pub fn ou64_exec(o: Option<&JsonValue>) -> (r: Option<u64>)
    ensures
        r == ou64(deref_opt(o)),
{
    match o {
        Some(JsonValue::Number(n)) => n.as_u64,
        _ => None,
    }
}

pub fn oi64_exec(o: Option<&JsonValue>) -> (r: Option<i64>)
    ensures
        r == oi64(deref_opt(o)),
{
    match o {
        Some(JsonValue::Number(n)) => n.as_i64,
        _ => None,
    }
}

pub fn obool_exec(o: Option<&JsonValue>) -> (r: Option<bool>)
    ensures
        r == obool(deref_opt(o)),
{
    match o {
        Some(JsonValue::Bool(b)) => Some(*b),
        _ => None,
    }
}

pub fn oarray_exec<'a>(o: Option<&'a JsonValue>) -> (r: Option<&'a Vec<JsonValue>>)
    ensures
        r is Some == oarray(deref_opt(o)) is Some,
        r is Some ==> r->0@ == oarray(deref_opt(o))->0,
{
    match o {
        Some(JsonValue::Array(a)) => Some(a),
        _ => None,
    }
}

} // verus!
