//! A JSON tree owned by this crate, so that the decoding logic over it can
//! be verified, together with the trusted parser that produces it from raw
//! text.

use vstd::prelude::*;
use vstd::string::StrSliceExecFns;

verus! {

/// A JSON document. Object fields keep their textual order; numbers keep
/// their decimal text, which this crate never interprets.
#[derive(Debug, PartialEq, Eq)]
pub enum JsonValue {
    Null,
    Bool(bool),
    Num(String),
    Str(String),
    Arr(Vec<JsonValue>),
    Obj(Vec<(String, JsonValue)>),
}

/// The value of the first field of `fields` named `key`, if any.
pub open spec fn json_lookup(fields: Seq<(String, JsonValue)>, key: Seq<char>) -> Option<
    JsonValue,
>
    decreases fields.len(),
{
    if fields.len() == 0 {
        None
    } else if fields[0].0@ == key {
        Some(fields[0].1)
    } else {
        json_lookup(fields.drop_first(), key)
    }
}

/// Character-for-character string comparison, stated over the views.
pub fn str_eq(a: &str, b: &str) -> (r: bool)
    ensures
        r == (a@ == b@),
{
    let a_len = a.unicode_len();
    let b_len = b.unicode_len();
    if a_len != b_len {
        return false;
    }
    let mut i: usize = 0;
    while i < a_len
        invariant
            a_len == a@.len(),
            b_len == b@.len(),
            a_len == b_len,
            i <= a_len,
            forall|j: int| 0 <= j < i ==> a@[j] == b@[j],
        decreases a_len - i,
    {
        if a.get_char(i) != b.get_char(i) {
            return false;
        }
        i += 1;
    }
    proof {
        assert(a@ =~= b@);
    }
    true
}

/// The first field of `fields` named `key`, as `json_lookup` states it.
pub fn obj_get<'a>(fields: &'a Vec<(String, JsonValue)>, key: &str) -> (r: Option<&'a JsonValue>)
    ensures
        match r {
            Some(v) => json_lookup(fields@, key@) == Some(*v),
            None => json_lookup(fields@, key@) is None,
        },
{
    proof {
        assert(fields@.skip(0) =~= fields@);
    }
    let mut i: usize = 0;
    while i < fields.len()
        invariant
            i <= fields@.len(),
            json_lookup(fields@, key@) == json_lookup(fields@.skip(i as int), key@),
        decreases fields@.len() - i,
    {
        proof {
            assert(fields@.skip(i as int)[0] == fields@[i as int]);
        }
        if str_eq(fields[i].0.as_str(), key) {
            return Some(&fields[i].1);
        }
        proof {
            assert(fields@.skip(i as int).drop_first() =~= fields@.skip(i as int + 1));
        }
        i += 1;
    }
    None
}

/// Appending a field under another name leaves a lookup unchanged.
pub proof fn lemma_lookup_push(
    fields: Seq<(String, JsonValue)>,
    kv: (String, JsonValue),
    key: Seq<char>,
)
    requires
        kv.0@ != key,
    ensures
        json_lookup(fields.push(kv), key) == json_lookup(fields, key),
    decreases fields.len(),
{
    if fields.len() == 0 {
        assert(fields.push(kv)[0] == kv);
        assert(fields.push(kv).drop_first() =~= fields);
    } else {
        assert(fields.push(kv)[0] == fields[0]);
        assert(fields.push(kv).drop_first() =~= fields.drop_first().push(kv));
        lemma_lookup_push(fields.drop_first(), kv, key);
    }
}

#[verifier::external_type_specification]
#[verifier::external_body]
pub struct ExValue(serde_json::Value);

/// What `parse_json` returns for a given text. JSON parsing is a function
/// of the text alone, so the result carries a name rather than a
/// restatement of the grammar.
pub uninterp spec fn parsed_json(text: Seq<char>) -> Option<JsonValue>;

/// Converts a `serde_json` tree into this crate's own [`JsonValue`];
/// trusted glue that only renames variants, with numbers kept as their
/// decimal text.
#[verifier::external_body]
fn from_serde_value(v: serde_json::Value) -> JsonValue {
    match v {
        serde_json::Value::Null => JsonValue::Null,
        serde_json::Value::Bool(b) => JsonValue::Bool(b),
        serde_json::Value::Number(n) => JsonValue::Num(n.to_string()),
        serde_json::Value::String(s) => JsonValue::Str(s),
        serde_json::Value::Array(a) => JsonValue::Arr(
            a.into_iter().map(from_serde_value).collect(),
        ),
        serde_json::Value::Object(m) => JsonValue::Obj(
            m.into_iter().map(|(k, x)| (k, from_serde_value(x))).collect(),
        ),
    }
}

/// Relies on `serde_json::from_str::<serde_json::Value>`: parses JSON text
/// into a generic tree, `None` when the text is not valid JSON; the result
/// depends on the text alone.
#[verifier::external_body]
pub fn parse_json(text: &str) -> (r: Option<JsonValue>)
    ensures
        r == parsed_json(text@),
{
    match serde_json::from_str::<serde_json::Value>(text) {
        Ok(v) => Some(from_serde_value(v)),
        Err(_) => None,
    }
}

} // verus!
