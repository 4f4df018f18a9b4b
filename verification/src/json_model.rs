//! The library's model of a parsed JSON document.
//!
//! A JSON tree is held as plain values: booleans, the two numeric readings of
//! a JSON number (its integer reading, if it has one, and the bit pattern of
//! its 64-bit floating reading), strings, arrays and objects. The only
//! trusted step is the conversion from the parser's tree into this model;
//! everything that reads the model is verified.

use vstd::prelude::*;

verus! {

use crate::text::str_eq_lit;

/// The two numeric readings of a JSON number.
///
/// `int_rep` is the number's value when it is an integer that fits a signed
/// 64-bit word, and nothing otherwise. `float_bits` is the bit pattern of the
/// number's 64-bit floating reading, kept as bits so that the model holds
/// only plain values; the writer turns it back into a floating value at the
/// column boundary.
#[derive(Clone, Copy, Debug)]
pub struct JsonNum {
    pub int_rep: Option<i64>,
    pub float_bits: Option<u64>,
}

/// One JSON value.
pub enum JsonValue {
    Null,
    Bool(bool),
    Num(JsonNum),
    Text(String),
    Arr(Vec<JsonValue>),
    Obj(Vec<(String, JsonValue)>),
}

/// First entry of `entries` whose key reads `name`, if any. Objects built
/// from parsed JSON have unique keys, so the first match is the only one.
pub open spec fn entries_lookup(
    entries: Seq<(String, JsonValue)>,
    name: Seq<char>,
) -> Option<JsonValue>
    decreases entries.len(),
{
    if entries.len() == 0 {
        None
    } else if entries[0].0@ == name {
        Some(entries[0].1)
    } else {
        entries_lookup(entries.drop_first(), name)
    }
}

/// The member of `v` named `name`: nothing when `v` is not an object or has
/// no such member.
pub open spec fn lookup_member(v: JsonValue, name: Seq<char>) -> Option<JsonValue> {
    match v {
        JsonValue::Obj(entries) => entries_lookup(entries@, name),
        _ => None,
    }
}

/// Runtime member lookup, mirroring `lookup_member`.
pub fn get_member<'a>(v: &'a JsonValue, name: &str) -> (r: Option<&'a JsonValue>)
    ensures
        match r {
            Some(m) => lookup_member(*v, name@) == Some(*m),
            None => lookup_member(*v, name@) is None,
        },
{
    match v {
        JsonValue::Obj(entries) => {
            let n = entries.len();
            proof {
                assert(entries@.skip(0) =~= entries@);
            }
            for i in 0..n
                invariant
                    *v == JsonValue::Obj(*entries),
                    n == entries@.len(),
                    entries_lookup(entries@, name@) == entries_lookup(
                        entries@.skip(i as int),
                        name@,
                    ),
            {
                let pair = &entries[i];
                if str_eq_lit(&pair.0, name) {
                    proof {
                        assert(entries@.skip(i as int)[0] == entries@[i as int]);
                        assert(entries_lookup(entries@.skip(i as int), name@)
                            == Some(entries@[i as int].1));
                    }
                    return Some(&pair.1);
                }
                proof {
                    assert(entries@.skip(i as int).drop_first() =~= entries@.skip(i + 1));
                }
            }
            assert(entries@.skip(n as int).len() == 0);
            None
        },
        _ => None,
    }
}

/// Declaration of the parser's value type, so that the conversion below can
/// take it; the library never looks inside such a value.
#[verifier::external_type_specification]
#[verifier::external_body]
pub struct ExSerdeValue(serde_json::Value);

/// The value a string parses to as JSON, or nothing when it is not valid
/// JSON. Never given a body: what it returns on a given string is fixed by
/// the parser the library is built over, and the library's contracts only
/// rely on it being a function of the string alone.
pub uninterp spec fn json_of(s: Seq<char>) -> Option<JsonValue>;

/// Converts the parser's tree into the library's model, node by node.
/// Relies on the variants of `serde_json::Value`, and on
/// `serde_json::Number::as_i64` / `as_f64` for the two numeric readings of a
/// number (`as_f64` reads every number, `as_i64` only integers that fit).
#[verifier::external_body]
fn value_to_model(v: serde_json::Value) -> JsonValue {
    match v {
        serde_json::Value::Null => JsonValue::Null,
        serde_json::Value::Bool(b) => JsonValue::Bool(b),
        serde_json::Value::Number(n) => JsonValue::Num(JsonNum { int_rep: n.as_i64(), float_bits: n.as_f64().map(|x| x.to_bits()) }),
        serde_json::Value::String(s) => JsonValue::Text(s),
        serde_json::Value::Array(a) => JsonValue::Arr(a.into_iter().map(value_to_model).collect()),
        serde_json::Value::Object(m) => JsonValue::Obj(m.into_iter().map(|e| (e.0, value_to_model(e.1))).collect()),
    }
}

/// Parses one JSON document.
/// Relies on `serde_json::from_str::<serde_json::Value>`: whether a string is
/// valid JSON, and the value it parses to, depend on the string alone.
#[verifier::external_body]
pub fn parse_json(s: &str) -> (r: Option<JsonValue>)
    ensures
        match r {
            Some(v) => json_of(s@) == Some(v),
            None => json_of(s@) is None,
        },
{
    serde_json::from_str::<serde_json::Value>(s).ok().map(value_to_model)
}

} // verus!
