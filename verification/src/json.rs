//! A decoded JSON document, modelled as plain values.
//!
//! Decoding itself is done by serde_json behind a trusted boundary; every
//! probe into the decoded tree after that point is verified code over
//! [`JsonVal`].

use vstd::prelude::*;

use crate::text::chars_eq_str;

verus! {

#[verifier::external_type_specification]
#[verifier::external_body]
pub struct ExSerdeValue(serde_json::Value);

/// A decoded JSON value.  Object entries appear in key order with unique
/// keys, as serde_json's B-tree-backed map hands them out.
pub enum JsonVal {
    Null,
    Bool(bool),
    /// A number representable as an unsigned 64-bit integer.
    Num(u64),
    /// Any other number (negative, fractional, or out of range).
    NumOther,
    Str(Vec<char>),
    Arr(Vec<JsonVal>),
    Obj(Vec<(Vec<char>, JsonVal)>),
}

/// What [`parse_json_text`] returns for a given input text: decoding is a
/// function of the text alone.
pub uninterp spec fn json_of(s: Seq<char>) -> Option<JsonVal>;

/// Relies on `serde_json::from_str::<Value>`: decoding either fails or
/// yields a value tree, deterministically from the input text alone (the
/// object map keeps the last value for a repeated key and iterates in key
/// order, so the conversion below is deterministic too).
#[verifier::external_body]
pub fn parse_json_text(s: &str) -> (r: Option<JsonVal>)
    ensures
        r == json_of(s@),
{
    match serde_json::from_str::<serde_json::Value>(s) {
        Ok(v) => Some(convert_json_value(&v)),
        Err(_) => None,
    }
}

/// Conversion half of [`parse_json_text`]: mirrors `serde_json::Value`
/// variant by variant, moving values only.  Relies on `Number::as_u64`
/// (`Some` exactly for integers that fit an unsigned 64-bit word) and on
/// the ordered iteration of `serde_json::Map`.
#[verifier::external_body]
fn convert_json_value(v: &serde_json::Value) -> JsonVal {
    match v {
        serde_json::Value::Null => JsonVal::Null,
        serde_json::Value::Bool(b) => JsonVal::Bool(*b),
        serde_json::Value::Number(n) => match n.as_u64() {
            Some(u) => JsonVal::Num(u),
            None => JsonVal::NumOther,
        },
        serde_json::Value::String(s) => JsonVal::Str(s.chars().collect()),
        serde_json::Value::Array(a) => JsonVal::Arr(a.iter().map(convert_json_value).collect()),
        serde_json::Value::Object(o) => JsonVal::Obj(
            o.iter().map(|(k, x)| (k.chars().collect(), convert_json_value(x))).collect(),
        ),
    }
}

/// The value under `key` in an entry list: the first match.
pub open spec fn lookup_entries(es: Seq<(Vec<char>, JsonVal)>, key: Seq<char>) -> Option<JsonVal>
    decreases es.len(),
{
    if es.len() == 0 {
        None
    } else if es[0].0@ == key {
        Some(es[0].1)
    } else {
        lookup_entries(es.drop_first(), key)
    }
}

/// The value under `key` when `v` is an object holding that key.
pub open spec fn json_get(v: JsonVal, key: Seq<char>) -> Option<JsonVal> {
    match v {
        JsonVal::Obj(entries) => lookup_entries(entries@, key),
        _ => None,
    }
}

/// The characters of a string value.
pub open spec fn json_as_str(v: JsonVal) -> Option<Seq<char>> {
    match v {
        JsonVal::Str(s) => Some(s@),
        _ => None,
    }
}

/// The numeric value, when it fits an unsigned 64-bit word.
pub open spec fn json_as_u64(v: JsonVal) -> Option<u64> {
    match v {
        JsonVal::Num(n) => Some(n),
        _ => None,
    }
}

/// The string under `key`, when present and a string.
pub open spec fn str_field(v: JsonVal, key: Seq<char>) -> Option<Seq<char>> {
    match json_get(v, key) {
        Some(x) => json_as_str(x),
        None => None,
    }
}

/// The number under `key`, when present and in range.
pub open spec fn u64_field(v: JsonVal, key: Seq<char>) -> Option<u64> {
    match json_get(v, key) {
        Some(x) => json_as_u64(x),
        None => None,
    }
}

pub fn get_field<'a>(v: &'a JsonVal, key: &str) -> (r: Option<&'a JsonVal>)
    ensures
        match r {
            Some(x) => json_get(*v, key@) == Some(*x),
            None => json_get(*v, key@) is None,
        },
{
    match v {
        JsonVal::Obj(entries) => {
            let ghost ev = entries@;
            proof {
                assert(ev.skip(0) =~= ev);
            }
            let mut i: usize = 0;
            while i < entries.len()
                invariant
                    i <= ev.len(),
                    ev == entries@,
                    *v == JsonVal::Obj(*entries),
                    lookup_entries(ev, key@) == lookup_entries(ev.skip(i as int), key@),
                decreases ev.len() - i,
            {
                proof {
                    assert(ev.skip(i as int).drop_first() =~= ev.skip(i as int + 1));
                    assert(ev.skip(i as int)[0] == ev[i as int]);
                }
                if chars_eq_str(&entries[i].0, key) {
                    proof {
                        assert(ev.skip(i as int).len() > 0);
                        assert(lookup_entries(ev.skip(i as int), key@) == Some(ev[i as int].1));
                        assert(json_get(*v, key@) == lookup_entries(ev, key@));
                    }
                    return Some(&entries[i].1);
                }
                i = i + 1;
            }
            proof {
                assert(ev.skip(ev.len() as int) =~= Seq::<(Vec<char>, JsonVal)>::empty());
            }
            None
        },
        _ => None,
    }
}

pub fn get_text<'a>(v: &'a JsonVal) -> (r: Option<&'a Vec<char>>)
    ensures
        match r {
            Some(s) => json_as_str(*v) == Some(s@),
            None => json_as_str(*v) is None,
        },
{
    match v {
        JsonVal::Str(s) => Some(s),
        _ => None,
    }
}

pub fn get_u64(v: &JsonVal) -> (r: Option<u64>)
    ensures
        r == json_as_u64(*v),
{
    match v {
        JsonVal::Num(n) => Some(*n),
        _ => None,
    }
}

pub fn get_array<'a>(v: &'a JsonVal) -> (r: Option<&'a Vec<JsonVal>>)
    ensures
        match r {
            Some(a) => v is Arr && v->Arr_0 == *a,
            None => !(v is Arr),
        },
{
    match v {
        JsonVal::Arr(a) => Some(a),
        _ => None,
    }
}

/// The string under `key`, fetched in one step.
pub fn get_str_field<'a>(v: &'a JsonVal, key: &str) -> (r: Option<&'a Vec<char>>)
    ensures
        match r {
            Some(s) => str_field(*v, key@) == Some(s@),
            None => str_field(*v, key@) is None,
        },
{
    match get_field(v, key) {
        Some(x) => get_text(x),
        None => None,
    }
}

/// The number under `key`, fetched in one step.
pub fn get_u64_field(v: &JsonVal, key: &str) -> (r: Option<u64>)
    ensures
        r == u64_field(*v, key@),
{
    match get_field(v, key) {
        Some(x) => get_u64(x),
        None => None,
    }
}

} // verus!
