//! Reading scalars and the fields of a record: what is required, what may be
//! absent, and what falls back to a default.

use crate::error::{agrees, below, matches_plain, DecodeError, Failure, Place};
use crate::json::{
    find, i32_of, is_number, lookup, members_of, same_text, Json, JsonValue, Member, Number,
};
use vstd::prelude::*;

verus! {

/// A string, read from a string value.
pub open spec fn text_of(v: JsonValue) -> Result<Seq<char>, Failure> {
    match v {
        JsonValue::Text(s) => Ok(s),
        _ => Err(Failure::mismatch()),
    }
}

/// A truth value, read from `true` or `false`.
pub open spec fn flag_of(v: JsonValue) -> Result<bool, Failure> {
    match v {
        JsonValue::Bool(b) => Ok(b),
        _ => Err(Failure::mismatch()),
    }
}

/// A real number, read from any number whose text writes one, and kept as
/// that text.
pub open spec fn number_of(v: JsonValue) -> Result<Seq<char>, Failure> {
    match v {
        JsonValue::Number(t) => if is_number(t) {
            Ok(t)
        } else {
            Err(Failure::mismatch())
        },
        _ => Err(Failure::mismatch()),
    }
}

/// A 32-bit integer, read from a number that writes one. A number with a
/// fraction or an exponent, or out of range, is a mismatch: a real is never
/// coerced to an integer.
pub open spec fn int_of(v: JsonValue) -> Result<i32, Failure> {
    match v {
        JsonValue::Number(t) => match i32_of(t) {
            Some(n) => Ok(n),
            None => Err(Failure::mismatch()),
        },
        _ => Err(Failure::mismatch()),
    }
}

/// A value of a closed vocabulary, read from a string that holds one of its
/// tokens: anything but a string is a mismatch, a string outside the
/// vocabulary an unknown variant that carries the string.
pub open spec fn token_of<T>(v: JsonValue, vocabulary: spec_fn(Seq<char>) -> Option<T>) -> Result<
    T,
    Failure,
> {
    match v {
        JsonValue::Text(t) => match vocabulary(t) {
            Some(x) => Ok(x),
            None => Err(Failure::unknown(t)),
        },
        _ => Err(Failure::mismatch()),
    }
}

/// The members of a record, read from an object.
pub open spec fn record_of(v: JsonValue) -> Result<Seq<(Seq<char>, JsonValue)>, Failure> {
    match v {
        JsonValue::Object(m) => Ok(m),
        _ => Err(Failure::mismatch()),
    }
}

/// A field that must be there: absent, it is a missing field; present, it is
/// read, and a failure inside it is reported under the field's name.
pub open spec fn required<T>(
    m: Seq<(Seq<char>, JsonValue)>,
    name: Seq<char>,
    read: spec_fn(JsonValue) -> Result<T, Failure>,
) -> Result<T, Failure> {
    match lookup(m, name) {
        Some(v) => below(Place::Field(name), read(v)),
        None => Err(Failure::missing(name)),
    }
}

/// A field that may be unset: absent or `null`, it is `None`; otherwise it
/// is read like a required one.
pub open spec fn optional<T>(
    m: Seq<(Seq<char>, JsonValue)>,
    name: Seq<char>,
    read: spec_fn(JsonValue) -> Result<T, Failure>,
) -> Result<Option<T>, Failure> {
    match lookup(m, name) {
        None => Ok(None),
        Some(JsonValue::Null) => Ok(None),
        Some(v) => match read(v) {
            Ok(x) => Ok(Some(x)),
            Err(f) => Err(f.under(Place::Field(name))),
        },
    }
}

/// A field with a default: absent, it is the default; present, it is read
/// like a required one, so a present value of the wrong shape is never
/// replaced by the default.
pub open spec fn defaulted<T>(
    m: Seq<(Seq<char>, JsonValue)>,
    name: Seq<char>,
    read: spec_fn(JsonValue) -> Result<T, Failure>,
    default: T,
) -> Result<T, Failure> {
    match lookup(m, name) {
        Some(v) => below(Place::Field(name), read(v)),
        None => Ok(default),
    }
}

/// The index of the first failure among `rs`.
pub open spec fn first_failure<T>(rs: Seq<Result<T, Failure>>) -> int {
    choose|i: int|
        0 <= i < rs.len() && rs[i] is Err && forall|k: int|
            0 <= k < i ==> (#[trigger] rs[k]) is Ok
}

/// All-or-nothing: the values of `rs` in order where every one is there,
/// else the first failure.
pub open spec fn all_or_first<T>(rs: Seq<Result<T, Failure>>) -> Result<Seq<T>, Failure> {
    if forall|i: int| 0 <= i < rs.len() ==> (#[trigger] rs[i]) is Ok {
        Ok(Seq::new(rs.len(), |i: int| rs[i]->Ok_0))
    } else {
        Err(rs[first_failure(rs)]->Err_0)
    }
}

/// The items of an array, each read by `read` and reported under its index.
pub open spec fn each<T>(v: JsonValue, read: spec_fn(JsonValue) -> Result<T, Failure>) -> Result<
    Seq<T>,
    Failure,
> {
    match v {
        JsonValue::Array(items) => all_or_first(
            Seq::new(items.len(), |i: int| below(Place::Index(i), read(items[i]))),
        ),
        _ => Err(Failure::mismatch()),
    }
}

/// Whether the name of member `k` already occurs among the members before
/// it.
pub open spec fn repeats(m: Seq<(Seq<char>, JsonValue)>, k: int) -> bool {
    exists|t: int| 0 <= t < k && (#[trigger] m[t]).0 == m[k].0
}

/// What member `k` of a registry comes to: a duplicate key where its name
/// repeats an earlier one; otherwise its name and its record, read by
/// `read`, a failure inside the record being reported under the name.
pub open spec fn entry_of<T>(
    m: Seq<(Seq<char>, JsonValue)>,
    k: int,
    read: spec_fn(JsonValue) -> Result<T, Failure>,
) -> Result<(Seq<char>, T), Failure> {
    if repeats(m, k) {
        Err(Failure::duplicate(m[k].0))
    } else {
        match read(m[k].1) {
            Ok(x) => Ok((m[k].0, x)),
            Err(f) => Err(f.under(Place::Field(m[k].0))),
        }
    }
}

/// A registry, read from an object: one entry for each member, in order,
/// under the member's name as its key. A key that occurs twice is refused.
pub open spec fn registry_of<T>(
    v: JsonValue,
    read: spec_fn(JsonValue) -> Result<T, Failure>,
) -> Result<Seq<(Seq<char>, T)>, Failure> {
    match v {
        JsonValue::Object(m) => all_or_first(Seq::new(m.len(), |k: int| entry_of(m, k, read))),
        _ => Err(Failure::mismatch()),
    }
}

/// Whether the first `k` members of a registry come to the first `k`
/// entries of `out`.
pub open spec fn entries_agree<T>(
    m: Seq<(Seq<char>, JsonValue)>,
    read: spec_fn(JsonValue) -> Result<T, Failure>,
    out: Seq<(Seq<char>, T)>,
    k: int,
) -> bool {
    forall|t: int|
        0 <= t < k ==> #[trigger] entry_of(m, t, read) == Ok::<(Seq<char>, T), Failure>(out[t])
}

/// Whether no key occurs twice among `entries`.
pub open spec fn distinct_keys<T>(entries: Seq<(Seq<char>, T)>) -> bool {
    forall|a: int, b: int|
        0 <= a < b < entries.len() ==> (#[trigger] entries[a]).0 != (#[trigger] entries[b]).0
}

/// A failure that no earlier failure precedes is the one reported.
pub proof fn lemma_first_failure<T>(rs: Seq<Result<T, Failure>>, i: int)
    requires
        0 <= i < rs.len(),
        rs[i] is Err,
        forall|k: int| 0 <= k < i ==> (#[trigger] rs[k]) is Ok,
    ensures
        all_or_first(rs) == Err::<Seq<T>, Failure>(rs[i]->Err_0),
{
    let j = first_failure(rs);
    assert(0 <= j < rs.len() && rs[j] is Err && forall|k: int|
        0 <= k < j ==> (#[trigger] rs[k]) is Ok);
    if j < i {
        assert(rs[j] is Ok);
    }
    if i < j {
        assert(rs[i] is Ok);
    }
}

/// Where all-or-nothing succeeds, its values are those of `rs`, one for
/// one and in the same order.
pub proof fn lemma_all_in_order<T>(rs: Seq<Result<T, Failure>>)
    requires
        all_or_first(rs) is Ok,
    ensures
        all_or_first(rs)->Ok_0.len() == rs.len(),
        forall|k: int|
            0 <= k < rs.len() ==> #[trigger] rs[k] == Ok::<T, Failure>(all_or_first(rs)->Ok_0[k]),
{
}

/// Where an item fails and every item before it is read, `each` reports
/// that item's failure under its index.
pub proof fn lemma_each_failure<T>(
    v: JsonValue,
    read: spec_fn(JsonValue) -> Result<T, Failure>,
    i: int,
)
    requires
        v is Array,
        0 <= i < v->Array_0.len(),
        read(v->Array_0[i]) is Err,
        forall|k: int| 0 <= k < i ==> read(#[trigger] v->Array_0[k]) is Ok,
    ensures
        each(v, read) == Err::<Seq<T>, Failure>(read(v->Array_0[i])->Err_0.under(Place::Index(i))),
{
    let items = v->Array_0;
    let rs = Seq::new(items.len(), |i: int| below(Place::Index(i), read(items[i])));
    assert forall|k: int| 0 <= k < i implies (#[trigger] rs[k]) is Ok by {
        assert(read(items[k]) is Ok);
    }
    lemma_first_failure(rs, i);
}

/// Where every item is read, `each` is the sequence of what was read.
pub proof fn lemma_each_ok<T>(
    v: JsonValue,
    read: spec_fn(JsonValue) -> Result<T, Failure>,
    out: Seq<T>,
)
    requires
        v is Array,
        out.len() == v->Array_0.len(),
        forall|k: int|
            0 <= k < out.len() ==> read(#[trigger] v->Array_0[k]) == Ok::<T, Failure>(out[k]),
    ensures
        each(v, read) == Ok::<Seq<T>, Failure>(out),
{
    let items = v->Array_0;
    let rs = Seq::new(items.len(), |i: int| below(Place::Index(i), read(items[i])));
    assert forall|k: int| 0 <= k < rs.len() implies (#[trigger] rs[k]) is Ok by {
        assert(read(items[k]) == Ok::<T, Failure>(out[k]));
    }
    assert(Seq::new(rs.len(), |i: int| rs[i]->Ok_0) =~= out) by {
        assert forall|k: int| 0 <= k < rs.len() implies rs[k]->Ok_0 == out[k] by {
            assert(read(items[k]) == Ok::<T, Failure>(out[k]));
        }
    }
}

/// Order preservation: where `each` succeeds, the result has one value
/// for each item of the array, in the order of the array, and each value
/// is what its own item reads as.
pub proof fn lemma_each_in_order<T>(v: JsonValue, read: spec_fn(JsonValue) -> Result<T, Failure>)
    requires
        each(v, read) is Ok,
    ensures
        v is Array,
        each(v, read)->Ok_0.len() == v->Array_0.len(),
        forall|k: int|
            0 <= k < v->Array_0.len() ==> read(#[trigger] v->Array_0[k]) == Ok::<T, Failure>(
                each(v, read)->Ok_0[k],
            ),
{
    let items = v->Array_0;
    let rs = Seq::new(items.len(), |i: int| below(Place::Index(i), read(items[i])));
    lemma_all_in_order(rs);
    assert forall|k: int| 0 <= k < items.len() implies read(#[trigger] items[k]) == Ok::<
        T,
        Failure,
    >(each(v, read)->Ok_0[k]) by {
        assert(rs[k] == Ok::<T, Failure>(all_or_first(rs)->Ok_0[k]));
    }
}

/// Where an entry fails and every entry before it is read, the registry
/// reports that entry's failure.
pub proof fn lemma_registry_failure<T>(
    v: JsonValue,
    read: spec_fn(JsonValue) -> Result<T, Failure>,
    i: int,
    out: Seq<(Seq<char>, T)>,
)
    requires
        v is Object,
        0 <= i < v->Object_0.len(),
        entry_of(v->Object_0, i, read) is Err,
        entries_agree(v->Object_0, read, out, i),
    ensures
        registry_of(v, read) == Err::<Seq<(Seq<char>, T)>, Failure>(
            entry_of(v->Object_0, i, read)->Err_0,
        ),
{
    let m = v->Object_0;
    let rs = Seq::new(m.len(), |k: int| entry_of(m, k, read));
    assert forall|k: int| 0 <= k < i implies (#[trigger] rs[k]) is Ok by {
        assert(entry_of(m, k, read) is Ok);
    }
    lemma_first_failure(rs, i);
}

/// Where every entry is read, the registry is the sequence of the entries.
pub proof fn lemma_registry_ok<T>(
    v: JsonValue,
    read: spec_fn(JsonValue) -> Result<T, Failure>,
    out: Seq<(Seq<char>, T)>,
)
    requires
        v is Object,
        out.len() == v->Object_0.len(),
        entries_agree(v->Object_0, read, out, out.len() as int),
    ensures
        registry_of(v, read) == Ok::<Seq<(Seq<char>, T)>, Failure>(out),
{
    let m = v->Object_0;
    let rs = Seq::new(m.len(), |k: int| entry_of(m, k, read));
    assert forall|k: int| 0 <= k < rs.len() implies (#[trigger] rs[k]) is Ok by {
        assert(entry_of(m, k, read) == Ok::<(Seq<char>, T), Failure>(out[k]));
    }
    assert(Seq::new(rs.len(), |i: int| rs[i]->Ok_0) =~= out) by {
        assert forall|k: int| 0 <= k < rs.len() implies rs[k]->Ok_0 == out[k] by {
            assert(entry_of(m, k, read) == Ok::<(Seq<char>, T), Failure>(out[k]));
        }
    }
}

/// A registry that decodes holds every key once.
pub proof fn lemma_registry_keys_distinct<T>(
    v: JsonValue,
    read: spec_fn(JsonValue) -> Result<T, Failure>,
)
    requires
        registry_of(v, read) is Ok,
    ensures
        distinct_keys(registry_of(v, read)->Ok_0),
{
    let m = v->Object_0;
    let rs = Seq::new(m.len(), |k: int| entry_of(m, k, read));
    let entries = registry_of(v, read)->Ok_0;
    assert forall|a: int, b: int| 0 <= a < b < entries.len() implies (#[trigger] entries[a]).0 != (
    #[trigger] entries[b]).0 by {
        assert(rs[a] is Ok);
        assert(rs[b] is Ok);
        assert(!repeats(m, b));
        assert(m[a].0 != m[b].0);
    }
}

/// Duplicate keys are refused: a registry in which two members share a
/// name never decodes.
pub proof fn lemma_registry_refuses_repeats<T>(
    v: JsonValue,
    read: spec_fn(JsonValue) -> Result<T, Failure>,
    a: int,
    b: int,
)
    requires
        v is Object,
        0 <= a < b < v->Object_0.len(),
        v->Object_0[a].0 == v->Object_0[b].0,
    ensures
        registry_of(v, read) is Err,
{
    let m = v->Object_0;
    let rs = Seq::new(m.len(), |k: int| entry_of(m, k, read));
    assert(repeats(m, b));
    assert(rs[b] is Err);
}

/// Where the first entry that fails is one whose key repeats an earlier
/// key, the registry fails with a duplicate-key error that names the key.
pub proof fn lemma_repeat_is_duplicate_key<T>(
    v: JsonValue,
    read: spec_fn(JsonValue) -> Result<T, Failure>,
    b: int,
)
    requires
        v is Object,
        0 <= b < v->Object_0.len(),
        repeats(v->Object_0, b),
        forall|k: int| 0 <= k < b ==> (#[trigger] entry_of(v->Object_0, k, read)) is Ok,
    ensures
        registry_of(v, read) == Err::<Seq<(Seq<char>, T)>, Failure>(
            Failure::duplicate(v->Object_0[b].0),
        ),
{
    let m = v->Object_0;
    let rs = Seq::new(m.len(), |k: int| entry_of(m, k, read));
    assert forall|k: int| 0 <= k < b implies (#[trigger] rs[k]) is Ok by {
        assert(entry_of(m, k, read) is Ok);
    }
    lemma_first_failure(rs, b);
}

/// Whether the name of member `k` already occurs among the members before
/// it.
pub fn repeated(m: &Vec<Member>, k: usize) -> (r: bool)
    requires
        k < m.len(),
    ensures
        r == repeats(members_of(m@), k as int),
{
    let ghost all = members_of(m@);
    let mut t: usize = 0;
    while t < k
        invariant
            0 <= t <= k < m.len(),
            all == members_of(m@),
            forall|u: int| 0 <= u < t ==> (#[trigger] all[u]).0 != all[k as int].0,
        decreases k - t,
    {
        if same_text(m[t].name.as_str(), m[k].name.as_str()) {
            assert(all[t as int].0 == all[k as int].0);
            return true;
        }
        t = t + 1;
    }
    false
}

/// Reads a string.
pub fn read_text(j: &Json) -> (r: Result<String, DecodeError>)
    ensures
        agrees(r, text_of(j.deep_view())),
{
    match j {
        Json::Text(s) => Ok(s.clone()),
        _ => Err(DecodeError::mismatch()),
    }
}

/// Reads a truth value.
pub fn read_flag(j: &Json) -> (r: Result<bool, DecodeError>)
    ensures
        matches_plain(r, flag_of(j.deep_view())),
{
    match j {
        Json::Bool(b) => Ok(*b),
        _ => Err(DecodeError::mismatch()),
    }
}

/// Reads a real number, keeping its text.
pub fn read_number(j: &Json) -> (r: Result<Number, DecodeError>)
    ensures
        agrees(r, number_of(j.deep_view())),
{
    match j {
        Json::Number(n) => if n.is_well_formed() {
            Ok(n.copy())
        } else {
            Err(DecodeError::mismatch())
        },
        _ => Err(DecodeError::mismatch()),
    }
}

/// Reads a 32-bit integer.
pub fn read_int(j: &Json) -> (r: Result<i32, DecodeError>)
    ensures
        matches_plain(r, int_of(j.deep_view())),
{
    match j {
        Json::Number(n) => match n.to_i32() {
            Some(x) => Ok(x),
            None => Err(DecodeError::mismatch()),
        },
        _ => Err(DecodeError::mismatch()),
    }
}

/// The members of an object; anything else is a type mismatch.
pub fn read_record(j: &Json) -> (r: Result<&Vec<Member>, DecodeError>)
    ensures
        match r {
            Ok(m) => *j == Json::Object(*m) && record_of(j.deep_view()) == Ok::<_, Failure>(
                members_of(m@),
            ),
            Err(e) => record_of(j.deep_view()) == Err::<Seq<(Seq<char>, JsonValue)>, Failure>(
                e.deep_view(),
            ),
        },
{
    match j {
        Json::Object(m) => Ok(m),
        _ => Err(DecodeError::mismatch()),
    }
}

/// Reads the required string field `name`.
pub fn required_text(m: &Vec<Member>, name: &str) -> (r: Result<String, DecodeError>)
    ensures
        agrees(r, required(members_of(m@), name@, |v: JsonValue| text_of(v))),
{
    match find(m, name) {
        Some(j) => match read_text(j) {
            Ok(x) => Ok(x),
            Err(e) => Err(e.under_field(name)),
        },
        None => Err(DecodeError::missing(name)),
    }
}

/// Reads the string field `name`, which may be unset.
pub fn optional_text(m: &Vec<Member>, name: &str) -> (r: Result<Option<String>, DecodeError>)
    ensures
        agrees(r, optional(members_of(m@), name@, |v: JsonValue| text_of(v))),
{
    match find(m, name) {
        None => Ok(None),
        Some(Json::Null) => Ok(None),
        Some(j) => match read_text(j) {
            Ok(x) => Ok(Some(x)),
            Err(e) => Err(e.under_field(name)),
        },
    }
}

/// Reads the required integer field `name`.
pub fn required_int(m: &Vec<Member>, name: &str) -> (r: Result<i32, DecodeError>)
    ensures
        matches_plain(r, required(members_of(m@), name@, |v: JsonValue| int_of(v))),
{
    match find(m, name) {
        Some(j) => match read_int(j) {
            Ok(x) => Ok(x),
            Err(e) => Err(e.under_field(name)),
        },
        None => Err(DecodeError::missing(name)),
    }
}

/// Reads the integer field `name`, which is `default` where absent.
pub fn defaulted_int(m: &Vec<Member>, name: &str, default: i32) -> (r: Result<i32, DecodeError>)
    ensures
        matches_plain(r, defaulted(members_of(m@), name@, |v: JsonValue| int_of(v), default)),
{
    match find(m, name) {
        Some(j) => match read_int(j) {
            Ok(x) => Ok(x),
            Err(e) => Err(e.under_field(name)),
        },
        None => Ok(default),
    }
}

/// Reads the required truth-value field `name`.
pub fn required_flag(m: &Vec<Member>, name: &str) -> (r: Result<bool, DecodeError>)
    ensures
        matches_plain(r, required(members_of(m@), name@, |v: JsonValue| flag_of(v))),
{
    match find(m, name) {
        Some(j) => match read_flag(j) {
            Ok(x) => Ok(x),
            Err(e) => Err(e.under_field(name)),
        },
        None => Err(DecodeError::missing(name)),
    }
}

/// Reads the truth-value field `name`, which is `default` where absent.
pub fn defaulted_flag(m: &Vec<Member>, name: &str, default: bool) -> (r: Result<
    bool,
    DecodeError,
>)
    ensures
        matches_plain(r, defaulted(members_of(m@), name@, |v: JsonValue| flag_of(v), default)),
{
    match find(m, name) {
        Some(j) => match read_flag(j) {
            Ok(x) => Ok(x),
            Err(e) => Err(e.under_field(name)),
        },
        None => Ok(default),
    }
}

/// Reads the truth-value field `name`, which may be unset.
pub fn optional_flag(m: &Vec<Member>, name: &str) -> (r: Result<Option<bool>, DecodeError>)
    ensures
        matches_plain(r, optional(members_of(m@), name@, |v: JsonValue| flag_of(v))),
{
    match find(m, name) {
        None => Ok(None),
        Some(Json::Null) => Ok(None),
        Some(j) => match read_flag(j) {
            Ok(x) => Ok(Some(x)),
            Err(e) => Err(e.under_field(name)),
        },
    }
}

/// Reads the required numeric field `name`.
pub fn required_number(m: &Vec<Member>, name: &str) -> (r: Result<Number, DecodeError>)
    ensures
        agrees(r, required(members_of(m@), name@, |v: JsonValue| number_of(v))),
{
    match find(m, name) {
        Some(j) => match read_number(j) {
            Ok(x) => Ok(x),
            Err(e) => Err(e.under_field(name)),
        },
        None => Err(DecodeError::missing(name)),
    }
}

/// Reads the numeric field `name`, which may be unset.
pub fn optional_number(m: &Vec<Member>, name: &str) -> (r: Result<Option<Number>, DecodeError>)
    ensures
        agrees(r, optional(members_of(m@), name@, |v: JsonValue| number_of(v))),
{
    match find(m, name) {
        None => Ok(None),
        Some(Json::Null) => Ok(None),
        Some(j) => match read_number(j) {
            Ok(x) => Ok(Some(x)),
            Err(e) => Err(e.under_field(name)),
        },
    }
}

} // verus!
