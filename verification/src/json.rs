//! A plain JSON document model and the parse step that produces it.
//!
//! The document tree is held in the crate's own `JsonValue` type so that the
//! normalization logic over it can be verified; the text-to-tree step itself
//! is done by `serde_json` behind a trusted wrapper.

use vstd::prelude::*;
use vstd::string::StringExecFns;

verus! {

/// A parsed JSON document. A number keeps its integer value when it has one
/// (a JSON integer that fits `i64`), along with its decimal rendering; object
/// entries keep their order of appearance.
#[derive(Debug)]
pub enum JsonValue {
    Null,
    Bool(bool),
    Num { int_val: Option<i64>, raw: String },
    Str(String),
    Arr(Vec<JsonValue>),
    Obj(Vec<(String, JsonValue)>),
}

#[verifier::external_type_specification]
#[verifier::external_body]
pub struct ExSerdeJsonValue(serde_json::Value);

/// The outcome of parsing a character sequence as JSON: `Some` with the
/// document when the text is valid JSON, `None` when it is not. The outcome
/// of `serde_json::from_str` depends on the text alone, so it can be named.
pub uninterp spec fn parsed_json(s: Seq<char>) -> Option<JsonValue>;

/// Relies on the public variants of `serde_json::Value`: maps each variant to
/// the matching `JsonValue` variant, with `Number::as_i64` and
/// `Number::to_string` reading a number. Only `json_from_str` calls this.
#[verifier::external_body]
fn value_from_serde(v: serde_json::Value) -> JsonValue {
    match v {
        serde_json::Value::Null => JsonValue::Null,
        serde_json::Value::Bool(b) => JsonValue::Bool(b),
        serde_json::Value::Number(n) => JsonValue::Num { int_val: n.as_i64(), raw: n.to_string() },
        serde_json::Value::String(s) => JsonValue::Str(s),
        serde_json::Value::Array(a) => JsonValue::Arr(a.into_iter().map(value_from_serde).collect()),
        serde_json::Value::Object(m) => JsonValue::Obj(
            m.into_iter().map(|(k, w)| (k, value_from_serde(w))).collect(),
        ),
    }
}

/// Relies on `serde_json::from_str::<serde_json::Value>`: parses the text as
/// one JSON document, accepting exactly valid JSON; the error's rendering is
/// the parser's own diagnostic. The outcome is `parsed_json` of the text.
#[verifier::external_body]
pub(crate) fn json_from_str(s: &str) -> (r: Result<JsonValue, String>)
    ensures
        match r {
            Ok(v) => parsed_json(s@) == Some(v),
            Err(_) => parsed_json(s@) is None,
        },
{
    match serde_json::from_str::<serde_json::Value>(s) {
        Ok(v) => Ok(value_from_serde(v)),
        Err(e) => Err(e.to_string()),
    }
}

/// True when the two strings hold the same characters.
pub fn str_eq(a: &str, b: &str) -> (r: bool)
    ensures
        r == (a@ == b@),
{
    let sa = String::from_str(a);
    let sb = String::from_str(b);
    sa == sb
}

/// The value under `key` in an object's entry list: the first entry whose
/// key matches, as a JSON object has at most one entry per key.
pub open spec fn spec_obj_lookup(entries: Seq<(String, JsonValue)>, key: Seq<char>) -> Option<
    JsonValue,
>
    decreases entries.len(),
{
    if entries.len() == 0 {
        None
    } else if entries[0].0@ == key {
        Some(entries[0].1)
    } else {
        spec_obj_lookup(entries.drop_first(), key)
    }
}

/// Looks `key` up among an object's entries.
pub fn obj_lookup<'a>(entries: &'a Vec<(String, JsonValue)>, key: &str) -> (r: Option<
    &'a JsonValue,
>)
    ensures
        match r {
            Some(v) => spec_obj_lookup(entries@, key@) == Some(*v),
            None => spec_obj_lookup(entries@, key@) is None,
        },
{
    let mut i: usize = 0;
    proof {
        assert(entries@.skip(0) =~= entries@);
    }
    while i < entries.len()
        invariant
            i <= entries@.len(),
            spec_obj_lookup(entries@, key@) == spec_obj_lookup(entries@.skip(i as int), key@),
        decreases entries@.len() - i,
    {
        proof {
            assert(entries@.skip(i as int)[0] == entries@[i as int]);
            assert(entries@.skip(i as int).drop_first() =~= entries@.skip(i as int + 1));
        }
        if str_eq(entries[i].0.as_str(), key) {
            return Some(&entries[i].1);
        }
        i = i + 1;
    }
    proof {
        assert(entries@.skip(i as int) =~= Seq::<(String, JsonValue)>::empty());
    }
    None
}

} // verus!
