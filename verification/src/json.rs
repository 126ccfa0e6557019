//! A plain model of parsed JSON documents, and the trusted bridge that turns
//! response text into that model.
//!
//! The search logic never inspects an outside crate's value tree: the text is
//! parsed once, converted into [`JsonValue`], and everything after that point
//! is verified code over this type.

use vstd::prelude::*;

verus! {

/// A parsed JSON document. Numbers are kept as their decimal rendering, since
/// the search never reads them. Object members keep the order in which the
/// parser hands them out, with keys unique.
#[derive(Debug)]
pub enum JsonValue {
    Null,
    Bool(bool),
    Number(String),
    Text(String),
    Array(Vec<JsonValue>),
    Object(Vec<(String, JsonValue)>),
}

/// The value under the first member of `fields` named `key`, if any.
pub open spec fn lookup(fields: Seq<(String, JsonValue)>, key: Seq<char>) -> Option<JsonValue>
    decreases fields.len(),
{
    if fields.len() == 0 {
        None
    } else if fields[0].0@ == key {
        Some(fields[0].1)
    } else {
        lookup(fields.drop_first(), key)
    }
}

/// Finds the first member of `fields` named `key`, deciding `lookup`.
pub fn lookup_field<'a>(fields: &'a Vec<(String, JsonValue)>, key: &String) -> (r: Option<
    &'a JsonValue,
>)
    ensures
        match r {
            Some(v) => lookup(fields@, key@) == Some(*v),
            None => lookup(fields@, key@) is None,
        },
{
    let n = fields.len();
    let mut i: usize = 0;
    proof {
        assert(fields@.skip(0) =~= fields@);
    }
    while i < n
        invariant
            n == fields@.len(),
            i <= n,
            lookup(fields@, key@) == lookup(fields@.skip(i as int), key@),
        decreases n - i,
    {
        let pair = &fields[i];
        proof {
            assert(fields@.skip(i as int)[0] == fields@[i as int]);
            assert(fields@.skip(i as int).drop_first() =~= fields@.skip(i as int + 1));
        }
        if pair.0.eq(key) {
            return Some(&pair.1);
        }
        i = i + 1;
    }
    None
}

/// What the JSON parser yields for a given text: `None` when the text is not
/// well-formed JSON, otherwise the document as a [`JsonValue`]. The outcome
/// depends on the text alone; nothing further is assumed about it.
pub uninterp spec fn json_of(text: Seq<char>) -> Option<JsonValue>;

#[verifier::external_type_specification]
#[verifier::external_body]
pub struct ExValue(serde_json::Value);

/// Relies on the variants of `serde_json::Value`: rebuilds the same tree as a
/// [`JsonValue`], member for member, rendering numbers in decimal.
#[verifier::external_body]
fn value_to_json(v: serde_json::Value) -> JsonValue {
    match v {
        serde_json::Value::Null => JsonValue::Null,
        serde_json::Value::Bool(b) => JsonValue::Bool(b),
        serde_json::Value::Number(n) => JsonValue::Number(n.to_string()),
        serde_json::Value::String(s) => JsonValue::Text(s),
        serde_json::Value::Array(a) => JsonValue::Array(
            a.into_iter().map(value_to_json).collect(),
        ),
        serde_json::Value::Object(m) => JsonValue::Object(
            m.into_iter().map(|p| (p.0, value_to_json(p.1))).collect(),
        ),
    }
}

/// Relies on `serde_json::from_str`: parses `text` as one JSON document,
/// returning an error exactly when the text is malformed. The result is
/// converted to a [`JsonValue`] and named by [`json_of`].
#[verifier::external_body]
pub(crate) fn parse_json(text: &str) -> (r: Option<JsonValue>)
    ensures
        r == json_of(text@),
{
    match serde_json::from_str::<serde_json::Value>(text) {
        Ok(v) => Some(value_to_json(v)),
        Err(_) => None,
    }
}

} // verus!
