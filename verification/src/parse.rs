//! From text to a structured value. The text is parsed by `serde_json`, and
//! the tree that it returns is rebuilt as a [`Json`].
//!
//! The items of this file that are marked `external_body` say what is taken
//! on trust from `serde_json`: what its parser returns is only named, and
//! each accessor of its tree is held to its documentation. The walk through
//! the tree is verified against them.

use crate::error::{agrees, DecodeError, Failure};
use crate::json::{items_of, members_of, Json, JsonValue, Member, Number};
use vstd::prelude::*;

verus! {

/// `serde_json::Value`, the tree that the parser returns. Nothing is known
/// of it but what the accessors below say.
#[verifier::external_type_specification]
#[verifier::external_body]
pub struct ExValue(serde_json::Value);

/// `serde_json::Error`, the parser's report of a text it refuses. Only the
/// fact of the failure is used.
#[verifier::external_type_specification]
#[verifier::external_body]
pub struct ExError(serde_json::Error);

/// What `serde_json::from_str` makes of a text when it is asked for a
/// `serde_json::Value`: the value it returns, or nothing where it reports an
/// error. Nothing more is claimed of it than that it depends on the text
/// alone.
pub uninterp spec fn parsed(text: Seq<char>) -> Option<JsonValue>;

/// What a `serde_json::Value` holds: its variant and, in order of iteration,
/// its items or members; a number by the text that it prints.
pub uninterp spec fn value_of(v: serde_json::Value) -> JsonValue;

/// What the items of an array hold, in order.
pub open spec fn values_of(items: Seq<serde_json::Value>) -> Seq<JsonValue> {
    Seq::new(items.len(), |i: int| value_of(items[i]))
}

/// What the entries of an object hold, in order.
pub open spec fn entries_of(entries: Seq<(&String, &serde_json::Value)>) -> Seq<
    (Seq<char>, JsonValue),
> {
    Seq::new(entries.len(), |i: int| (entries[i].0@, value_of(*entries[i].1)))
}

/// Calls `serde_json::from_str` for a `serde_json::Value`. The contract only
/// names the outcome: success exactly where `parsed` has a value, which the
/// returned value then holds.
#[verifier::external_body]
fn parse_value(text: &str) -> (r: Result<serde_json::Value, serde_json::Error>)
    ensures
        match r {
            Ok(v) => parsed(text@) == Some(value_of(v)),
            Err(_) => parsed(text@) is None,
        },
{
    serde_json::from_str::<serde_json::Value>(text)
}

/// `serde_json::Value::is_null`: true exactly for the null value.
#[verifier::external_body]
fn value_is_null(v: &serde_json::Value) -> (r: bool)
    ensures
        r == (value_of(*v) is Null),
{
    v.is_null()
}

/// `serde_json::Value::as_bool`: the truth value of a Boolean, `None` for
/// every other value.
#[verifier::external_body]
fn value_as_bool(v: &serde_json::Value) -> (r: Option<bool>)
    ensures
        match r {
            Some(b) => value_of(*v) == JsonValue::Bool(b),
            None => !(value_of(*v) is Bool),
        },
{
    v.as_bool()
}

/// `serde_json::Value::as_number`, and the text that `serde_json` prints for
/// the number: `None` for every value that is no number.
#[verifier::external_body]
fn value_as_number_text(v: &serde_json::Value) -> (r: Option<String>)
    ensures
        match r {
            Some(t) => value_of(*v) == JsonValue::Number(t@),
            None => !(value_of(*v) is Number),
        },
{
    v.as_number().map(|n| n.to_string())
}

/// `serde_json::Value::as_str`: the characters of a string, `None` for
/// every other value.
#[verifier::external_body]
fn value_as_str(v: &serde_json::Value) -> (r: Option<&str>)
    ensures
        match r {
            Some(s) => value_of(*v) == JsonValue::Text(s@),
            None => !(value_of(*v) is Text),
        },
{
    v.as_str()
}

/// `serde_json::Value::as_array`: the items of an array, `None` for every
/// other value.
#[verifier::external_body]
fn value_as_array(v: &serde_json::Value) -> (r: Option<&Vec<serde_json::Value>>)
    ensures
        match r {
            Some(items) => value_of(*v) == JsonValue::Array(values_of(items@)),
            None => !(value_of(*v) is Array),
        },
{
    v.as_array()
}

/// `serde_json::Value::as_object`, and the entries of the map in the order
/// in which `serde_json::Map::iter` hands them out: `None` for every value
/// that is no object.
#[verifier::external_body]
fn value_as_entries(v: &serde_json::Value) -> (r: Option<Vec<(&String, &serde_json::Value)>>)
    ensures
        match r {
            Some(entries) => value_of(*v) == JsonValue::Object(entries_of(entries@)),
            None => !(value_of(*v) is Object),
        },
{
    v.as_object().map(|m| m.iter().collect())
}

/// Rebuilds the tree of the parser as a [`Json`] that holds the same.
fn lift(v: &serde_json::Value) -> (j: Json)
    ensures
        j.deep_view() == value_of(*v),
    decreases value_of(*v),
{
    if value_is_null(v) {
        return Json::Null;
    }
    if let Some(b) = value_as_bool(v) {
        return Json::Bool(b);
    }
    if let Some(text) = value_as_number_text(v) {
        return Json::Number(Number { text });
    }
    if let Some(s) = value_as_str(v) {
        return Json::Text(s.to_owned());
    }
    if let Some(items) = value_as_array(v) {
        let mut out: Vec<Json> = Vec::new();
        let mut i: usize = 0;
        while i < items.len()
            invariant
                value_of(*v) == JsonValue::Array(values_of(items@)),
                0 <= i <= items.len(),
                out.len() == i,
                forall|k: int| 0 <= k < i ==> out[k].deep_view() == value_of(items[k]),
            decreases items.len() - i,
        {
            proof {
                assert(values_of(items@)[i as int] == value_of(items[i as int]));
                assert(decreases_to!(value_of(*v) => value_of(*v)->Array_0));
            }
            out.push(lift(&items[i]));
            i = i + 1;
        }
        assert(items_of(out@) =~= values_of(items@));
        return Json::Array(out);
    }
    match value_as_entries(v) {
        Some(entries) => {
            let mut out: Vec<Member> = Vec::new();
            let mut i: usize = 0;
            while i < entries.len()
                invariant
                    value_of(*v) == JsonValue::Object(entries_of(entries@)),
                    0 <= i <= entries.len(),
                    out.len() == i,
                    forall|k: int|
                        0 <= k < i ==> out[k].name@ == entries[k].0@ && out[k].value.deep_view()
                            == value_of(*entries[k].1),
                decreases entries.len() - i,
            {
                proof {
                    assert(entries_of(entries@)[i as int].1 == value_of(*entries[i as int].1));
                    assert(decreases_to!(value_of(*v) => value_of(*v)->Object_0));
                }
                let name = entries[i].0.clone();
                let value = lift(entries[i].1);
                out.push(Member { name, value });
                i = i + 1;
            }
            assert(members_of(out@) =~= entries_of(entries@));
            Json::Object(out)
        },
        None => vstd::pervasive::unreached(),
    }
}

/// Parses a text into a structured value. A text that is not well-formed
/// gives the error [`crate::error::ErrorKind::Malformed`] with an empty
/// path.
///
/// Where the text names a member of an object more than once, the parser
/// keeps the last of them, so the value that comes back never repeats a
/// name within one object.
pub fn parse(text: &str) -> (r: Result<Json, DecodeError>)
    ensures
        match parsed(text@) {
            Some(v) => agrees(r, Ok(v)),
            None => agrees(r, Err(Failure::malformed())),
        },
{
    match parse_value(text) {
        Ok(v) => Ok(lift(&v)),
        Err(_) => Err(DecodeError::malformed()),
    }
}

} // verus!
