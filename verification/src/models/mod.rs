//! Alert, incident and reminder payload models, and the field extraction
//! that validates incoming JSON payloads.

pub mod alert;
pub mod alert_with_incident;
pub mod incident;
pub mod reminder;

use vstd::prelude::*;
use crate::json::{JsonValue, pointer_spec, deref_opt};
use crate::text::to_owned_string;

verus! {

/// The character sequences of a list of strings.
pub open spec fn strings_view(v: Seq<String>) -> Seq<Seq<char>> {
    v.map_values(|s: String| s@)
}

/// The character sequence of an optional string.
pub open spec fn opt_view(o: Option<String>) -> Option<Seq<char>> {
    match o {
        Some(s) => Some(s@),
        None => None,
    }
}

/// The string at `path` in `v`, when the value there is a JSON string.
pub open spec fn str_at(v: JsonValue, path: Seq<char>) -> Option<Seq<char>> {
    match pointer_spec(v, path) {
        Some(JsonValue::String(s)) => Some(s@),
        _ => None,
    }
}

/// The unsigned integer at `path` in `v`, when the value there is a JSON
/// number that is a non-negative integer fitting in `u64`.
pub open spec fn u64_at(v: JsonValue, path: Seq<char>) -> Option<u64> {
    match pointer_spec(v, path) {
        Some(JsonValue::Number(Some(n))) => Some(n),
        _ => None,
    }
}

/// The value at `path` is a string or JSON `null`.
pub open spec fn nullable_str_ok(v: JsonValue, path: Seq<char>) -> bool {
    match pointer_spec(v, path) {
        Some(JsonValue::String(_)) => true,
        Some(JsonValue::Null) => true,
        _ => false,
    }
}

/// `path` when a required field check failed, nothing otherwise.
pub open spec fn missing_if(ok: bool, path: Seq<char>) -> Seq<Seq<char>> {
    if ok {
        Seq::empty()
    } else {
        seq![path]
    }
}

/// Records `path` as missing.
fn record_missing(missing: &mut Vec<String>, path: &str)
    ensures
        strings_view(final(missing)@) == strings_view(old(missing)@).push(path@),
{
    let p = to_owned_string(path);
    missing.push(p);
    assert(strings_view(missing@) =~= strings_view(old(missing)@).push(path@));
}

/// Extracts a required string; records `path` in `missing` when the value
/// is absent or not a string.
pub fn req_str(v: &JsonValue, path: &str, missing: &mut Vec<String>) -> (r: Option<String>)
    ensures
        opt_view(r) == str_at(*v, path@),
        strings_view(final(missing)@) == strings_view(old(missing)@) + missing_if(
            str_at(*v, path@) is Some,
            path@,
        ),
{
    let found = v.pointer(path);
    match found {
        Some(JsonValue::String(s)) => {
            let r = to_owned_string(s.as_str());
            assert(strings_view(missing@) =~= strings_view(old(missing)@) + Seq::<Seq<char>>::empty());
            Some(r)
        },
        _ => {
            proof {
                assert(deref_opt(found) == pointer_spec(*v, path@));
            }
            record_missing(missing, path);
            assert(strings_view(missing@) =~= strings_view(old(missing)@) + seq![path@]);
            None
        },
    }
}

/// Extracts a required unsigned integer; records `path` in `missing` when
/// the value is absent or not a `u64` number.
pub fn req_u64(v: &JsonValue, path: &str, missing: &mut Vec<String>) -> (r: Option<u64>)
    ensures
        r == u64_at(*v, path@),
        strings_view(final(missing)@) == strings_view(old(missing)@) + missing_if(
            u64_at(*v, path@) is Some,
            path@,
        ),
{
    let found = v.pointer(path);
    match found {
        Some(JsonValue::Number(Some(n))) => {
            assert(strings_view(missing@) =~= strings_view(old(missing)@) + Seq::<Seq<char>>::empty());
            Some(*n)
        },
        _ => {
            record_missing(missing, path);
            assert(strings_view(missing@) =~= strings_view(old(missing)@) + seq![path@]);
            None
        },
    }
}

/// Extracts an optional string: absent or not a string gives `None`.
pub fn opt_str(v: &JsonValue, path: &str) -> (r: Option<String>)
    ensures
        opt_view(r) == str_at(*v, path@),
{
    match v.pointer(path) {
        Some(JsonValue::String(s)) => Some(to_owned_string(s.as_str())),
        _ => None,
    }
}

/// Extracts a required but nullable string: a string gives `Some`, JSON
/// `null` gives `None`; anything else (or no value) records `path` in
/// `missing` and gives `None`.
pub fn nullable_str(v: &JsonValue, path: &str, missing: &mut Vec<String>) -> (r: Option<String>)
    ensures
        opt_view(r) == str_at(*v, path@),
        strings_view(final(missing)@) == strings_view(old(missing)@) + missing_if(
            nullable_str_ok(*v, path@),
            path@,
        ),
{
    match v.pointer(path) {
        Some(JsonValue::String(s)) => {
            assert(strings_view(missing@) =~= strings_view(old(missing)@) + Seq::<Seq<char>>::empty());
            Some(to_owned_string(s.as_str()))
        },
        Some(JsonValue::Null) => {
            assert(strings_view(missing@) =~= strings_view(old(missing)@) + Seq::<Seq<char>>::empty());
            None
        },
        _ => {
            record_missing(missing, path);
            assert(strings_view(missing@) =~= strings_view(old(missing)@) + seq![path@]);
            None
        },
    }
}

} // verus!
