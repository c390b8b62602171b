//! The primitive values: fixed-shape records of numbers.
//!
//! A primitive that lacks one of its components has the wrong shape as a
//! whole, so the failure is a type mismatch at the primitive itself; a
//! component of the wrong kind is a type mismatch at that component.

use crate::error::{agrees, below, matches_plain, DecodeError, Failure, Place};
use crate::json::{find, items_of, lookup, members_of, Json, JsonValue, Member, Number};
use crate::wire::{
    all_or_first, each, int_of, lemma_each_failure, lemma_each_ok, lemma_first_failure,
    number_of, read_int, read_number, read_record, required,
};
use vstd::prelude::*;

verus! {

/// A 2D affine matrix: two rows of three integers.
pub type Transform = [[i32; 3]; 2];

/// A length in pixels. Lengths, shares and angles are numbers alike, but
/// each has a type of its own, so that one is never taken for another.
#[derive(Debug, PartialEq, Eq)]
pub struct Pixels {
    pub value: Number,
}

/// A share in percent.
#[derive(Debug, PartialEq, Eq)]
pub struct Percent {
    pub value: Number,
}

/// An angle in degrees.
#[derive(Debug, PartialEq, Eq)]
pub struct Degrees {
    pub value: Number,
}

impl DeepView for Pixels {
    type V = Seq<char>;

    open spec fn deep_view(&self) -> Seq<char> {
        self.value.text@
    }
}

impl DeepView for Percent {
    type V = Seq<char>;

    open spec fn deep_view(&self) -> Seq<char> {
        self.value.text@
    }
}

impl DeepView for Degrees {
    type V = Seq<char>;

    open spec fn deep_view(&self) -> Seq<char> {
        self.value.text@
    }
}

/// A component of a primitive: absent, the primitive has the wrong shape;
/// present, it is read, and a failure inside it is reported under its name.
pub open spec fn component<T>(
    m: Seq<(Seq<char>, JsonValue)>,
    name: Seq<char>,
    read: spec_fn(JsonValue) -> Result<T, Failure>,
) -> Result<T, Failure> {
    match lookup(m, name) {
        Some(v) => below(Place::Field(name), read(v)),
        None => Err(Failure::mismatch()),
    }
}

/// Exactly `n` integers, read from an array of that length.
pub open spec fn ints_of(v: JsonValue, n: nat) -> Result<Seq<i32>, Failure> {
    match v {
        JsonValue::Array(items) => if items.len() == n {
            all_or_first(Seq::new(n, |i: int| below(Place::Index(i), int_of(items[i]))))
        } else {
            Err(Failure::mismatch())
        },
        _ => Err(Failure::mismatch()),
    }
}

/// The rows of a transform, read from an array of two arrays of three
/// integers.
pub open spec fn transform_of(v: JsonValue) -> Result<Seq<Seq<i32>>, Failure> {
    match v {
        JsonValue::Array(rows) => if rows.len() == 2 {
            all_or_first(Seq::new(2, |r: int| below(Place::Index(r), ints_of(rows[r], 3))))
        } else {
            Err(Failure::mismatch())
        },
        _ => Err(Failure::mismatch()),
    }
}

/// The rows of a transform, as sequences.
pub open spec fn rows_of(t: Transform) -> Seq<Seq<i32>> {
    seq![t@[0]@, t@[1]@]
}

/// Reads the integer component `name` of a primitive.
fn component_int(m: &Vec<Member>, name: &str) -> (r: Result<i32, DecodeError>)
    ensures
        matches_plain(r, component(members_of(m@), name@, |v: JsonValue| int_of(v))),
{
    match find(m, name) {
        Some(j) => match read_int(j) {
            Ok(x) => Ok(x),
            Err(e) => Err(e.under_field(name)),
        },
        None => Err(DecodeError::mismatch()),
    }
}

/// Reads the numeric component `name` of a primitive.
fn component_number(m: &Vec<Member>, name: &str) -> (r: Result<Number, DecodeError>)
    ensures
        agrees(r, component(members_of(m@), name@, |v: JsonValue| number_of(v))),
{
    match find(m, name) {
        Some(j) => match read_number(j) {
            Ok(x) => Ok(x),
            Err(e) => Err(e.under_field(name)),
        },
        None => Err(DecodeError::mismatch()),
    }
}

/// Reads an array of exactly `n` integers.
pub fn read_ints(j: &Json, n: usize) -> (r: Result<Vec<i32>, DecodeError>)
    ensures
        agrees(r, ints_of(j.deep_view(), n as nat)),
{
    let items = match j {
        Json::Array(items) => items,
        _ => { return Err(DecodeError::mismatch()); },
    };
    if items.len() != n {
        return Err(DecodeError::mismatch());
    }
    let ghost values = j.deep_view()->Array_0;
    let ghost rs = Seq::new(n as nat, |i: int| below(Place::Index(i), int_of(values[i])));
    let mut out: Vec<i32> = Vec::new();
    let mut i: usize = 0;
    while i < n
        invariant
            0 <= i <= n,
            n == items.len(),
            j.deep_view() == JsonValue::Array(values),
            values == items_of(items@),
            rs == Seq::new(n as nat, |i: int| below(Place::Index(i), int_of(values[i]))),
            out.len() == i,
            forall|k: int| 0 <= k < i ==> rs[k] == Ok::<i32, Failure>(#[trigger] out[k]),
        decreases n - i,
    {
        match read_int(&items[i]) {
            Ok(x) => {
                out.push(x);
            },
            Err(e) => {
                proof {
                    assert forall|k: int| 0 <= k < i implies (#[trigger] rs[k]) is Ok by {
                        assert(rs[k] == Ok::<i32, Failure>(out[k]));
                    }
                    lemma_first_failure(rs, i as int);
                }
                return Err(e.under_index(i));
            },
        }
        i = i + 1;
    }
    proof {
        assert forall|k: int| 0 <= k < rs.len() implies (#[trigger] rs[k]) is Ok by {
            assert(rs[k] == Ok::<i32, Failure>(out[k]));
        }
        assert(out.deep_view() =~= Seq::new(rs.len(), |i: int| rs[i]->Ok_0)) by {
            assert forall|k: int| 0 <= k < rs.len() implies out.deep_view()[k] == rs[k]->Ok_0 by {
                assert(rs[k] == Ok::<i32, Failure>(out[k]));
            }
        }
    }
    Ok(out)
}

/// Reads one row of a transform.
fn read_row(j: &Json) -> (r: Result<[i32; 3], DecodeError>)
    ensures
        match r {
            Ok(row) => ints_of(j.deep_view(), 3) == Ok::<Seq<i32>, Failure>(row@),
            Err(e) => ints_of(j.deep_view(), 3) == Err::<Seq<i32>, Failure>(e.deep_view()),
        },
{
    match read_ints(j, 3) {
        Ok(v) => {
            assert(v.deep_view().len() == 3);
            let row = [v[0], v[1], v[2]];
            assert(row@ =~= v.deep_view());
            Ok(row)
        },
        Err(e) => Err(e),
    }
}

/// Reads a transform from an array of two rows of three integers each.
pub fn decode_transform(j: &Json) -> (r: Result<Transform, DecodeError>)
    ensures
        match r {
            Ok(t) => transform_of(j.deep_view()) == Ok::<Seq<Seq<i32>>, Failure>(rows_of(t)),
            Err(e) => transform_of(j.deep_view()) == Err::<Seq<Seq<i32>>, Failure>(e.deep_view()),
        },
{
    let rows = match j {
        Json::Array(rows) => rows,
        _ => { return Err(DecodeError::mismatch()); },
    };
    if rows.len() != 2 {
        return Err(DecodeError::mismatch());
    }
    let ghost values = j.deep_view()->Array_0;
    let ghost rs = Seq::new(2, |r: int| below(Place::Index(r), ints_of(values[r], 3)));
    let first = match read_row(&rows[0]) {
        Ok(row) => row,
        Err(e) => {
            proof {
                lemma_first_failure(rs, 0);
            }
            return Err(e.under_index(0));
        },
    };
    let second = match read_row(&rows[1]) {
        Ok(row) => row,
        Err(e) => {
            proof {
                lemma_first_failure(rs, 1);
            }
            return Err(e.under_index(1));
        },
    };
    let t = [first, second];
    proof {
        assert(rows_of(t) =~= Seq::new(rs.len(), |i: int| rs[i]->Ok_0));
    }
    Ok(t)
}

/// A point or an offset in the plane.
#[derive(Clone, Copy, Debug, PartialEq, Eq, Structural)]
pub struct Vector {
    pub x: i32,
    pub y: i32,
}

impl Vector {
    /// A vector, read from the integer components `x` and `y`.
    pub open spec fn of_members(m: Seq<(Seq<char>, JsonValue)>) -> Result<Vector, Failure> {
        let x = component(m, "x"@, |v: JsonValue| int_of(v));
        let y = component(m, "y"@, |v: JsonValue| int_of(v));
        if x is Err {
            Err(x->Err_0)
        } else if y is Err {
            Err(y->Err_0)
        } else {
            Ok(
                Vector {
                    x: x->Ok_0,
                    y: y->Ok_0,
                },
            )
        }
    }

    /// The value read from an object; anything else is a type mismatch.
    pub open spec fn decoded(v: JsonValue) -> Result<Vector, Failure> {
        match v {
            JsonValue::Object(m) => Self::of_members(m),
            _ => Err(Failure::mismatch()),
        }
    }

    /// Decodes a value of this type.
    pub fn decode(j: &Json) -> (r: Result<Vector, DecodeError>)
        ensures
            matches_plain(r, Self::decoded(j.deep_view())),
    {
        let m = read_record(j)?;
        let x = component_int(m, "x")?;
        let y = component_int(m, "y")?;
        Ok(Vector { x, y })
    }

    /// Decodes every item of an array, in order. The first item that fails
    /// decides the error, which is reported under the item's index.
    pub fn decode_all(j: &Json) -> (r: Result<Vec<Vector>, DecodeError>)
        ensures
            match r {
                Ok(v) => each(j.deep_view(), |x: JsonValue| Self::decoded(x)) == Ok::<
                    Seq<Vector>,
                    Failure,
                >(v@),
                Err(e) => each(j.deep_view(), |x: JsonValue| Self::decoded(x)) == Err::<
                    Seq<Vector>,
                    Failure,
                >(e.deep_view()),
            },
    {
        let items = match j {
            Json::Array(items) => items,
            _ => { return Err(DecodeError::mismatch()); },
        };
        let ghost values = items_of(items@);
        let mut out: Vec<Vector> = Vec::new();
        let mut i: usize = 0;
        while i < items.len()
            invariant
                0 <= i <= items.len(),
                j.deep_view() == JsonValue::Array(values),
                values == items_of(items@),
                out.len() == i,
                forall|k: int|
                    0 <= k < i ==> Self::decoded(#[trigger] values[k]) == Ok::<Vector, Failure>(
                        out[k],
                    ),
            decreases items.len() - i,
        {
            match Self::decode(&items[i]) {
                Ok(x) => {
                    out.push(x);
                },
                Err(e) => {
                    proof {
                        lemma_each_failure(
                            j.deep_view(),
                            |x: JsonValue| Self::decoded(x),
                            i as int,
                        );
                    }
                    return Err(e.under_index(i));
                },
            }
            i = i + 1;
        }
        proof {
            lemma_each_ok(j.deep_view(), |x: JsonValue| Self::decoded(x), out@);
        }
        Ok(out)
    }

    /// Decodes the field `name` of a record, which must be there and hold an
    /// array of values of this type.
    pub fn required_all(m: &Vec<Member>, name: &str) -> (r: Result<Vec<Vector>, DecodeError>)
        ensures
            match r {
                Ok(v) => required(
                    members_of(m@),
                    name@,
                    |v: JsonValue| each(v, |x: JsonValue| Self::decoded(x)),
                ) == Ok::<Seq<Vector>, Failure>(v@),
                Err(e) => required(
                    members_of(m@),
                    name@,
                    |v: JsonValue| each(v, |x: JsonValue| Self::decoded(x)),
                ) == Err::<Seq<Vector>, Failure>(e.deep_view()),
            },
    {
        match find(m, name) {
            Some(j) => match Self::decode_all(j) {
                Ok(x) => Ok(x),
                Err(e) => Err(e.under_field(name)),
            },
            None => Err(DecodeError::missing(name)),
        }
    }
}

/// The extent of a box.
#[derive(Clone, Copy, Debug, PartialEq, Eq, Structural)]
pub struct Size {
    pub width: i32,
    pub height: i32,
}

impl Size {
    /// A size, read from the integer components `width` and `height`.
    pub open spec fn of_members(m: Seq<(Seq<char>, JsonValue)>) -> Result<Size, Failure> {
        let width = component(m, "width"@, |v: JsonValue| int_of(v));
        let height = component(m, "height"@, |v: JsonValue| int_of(v));
        if width is Err {
            Err(width->Err_0)
        } else if height is Err {
            Err(height->Err_0)
        } else {
            Ok(
                Size {
                    width: width->Ok_0,
                    height: height->Ok_0,
                },
            )
        }
    }

    /// The value read from an object; anything else is a type mismatch.
    pub open spec fn decoded(v: JsonValue) -> Result<Size, Failure> {
        match v {
            JsonValue::Object(m) => Self::of_members(m),
            _ => Err(Failure::mismatch()),
        }
    }

    /// Decodes a value of this type.
    pub fn decode(j: &Json) -> (r: Result<Size, DecodeError>)
        ensures
            matches_plain(r, Self::decoded(j.deep_view())),
    {
        let m = read_record(j)?;
        let width = component_int(m, "width")?;
        let height = component_int(m, "height")?;
        Ok(Size { width, height })
    }
}

/// A box: its corner and its extent.
#[derive(Clone, Copy, Debug, PartialEq, Eq, Structural)]
pub struct Rectangle {
    pub x: i32,
    pub y: i32,
    pub width: i32,
    pub height: i32,
}

impl Rectangle {
    /// A rectangle, read from the integer components `x`, `y`, `width` and
    /// `height`.
    pub open spec fn of_members(m: Seq<(Seq<char>, JsonValue)>) -> Result<Rectangle, Failure> {
        let x = component(m, "x"@, |v: JsonValue| int_of(v));
        let y = component(m, "y"@, |v: JsonValue| int_of(v));
        let width = component(m, "width"@, |v: JsonValue| int_of(v));
        let height = component(m, "height"@, |v: JsonValue| int_of(v));
        if x is Err {
            Err(x->Err_0)
        } else if y is Err {
            Err(y->Err_0)
        } else if width is Err {
            Err(width->Err_0)
        } else if height is Err {
            Err(height->Err_0)
        } else {
            Ok(
                Rectangle {
                    x: x->Ok_0,
                    y: y->Ok_0,
                    width: width->Ok_0,
                    height: height->Ok_0,
                },
            )
        }
    }

    /// The value read from an object; anything else is a type mismatch.
    pub open spec fn decoded(v: JsonValue) -> Result<Rectangle, Failure> {
        match v {
            JsonValue::Object(m) => Self::of_members(m),
            _ => Err(Failure::mismatch()),
        }
    }

    /// Decodes a value of this type.
    pub fn decode(j: &Json) -> (r: Result<Rectangle, DecodeError>)
        ensures
            matches_plain(r, Self::decoded(j.deep_view())),
    {
        let m = read_record(j)?;
        let x = component_int(m, "x")?;
        let y = component_int(m, "y")?;
        let width = component_int(m, "width")?;
        let height = component_int(m, "height")?;
        Ok(Rectangle { x, y, width, height })
    }
}

/// A color: red, green, blue and alpha, each meant to lie between 0 and 1. The
/// range is not enforced.
#[derive(Debug, PartialEq, Eq)]
pub struct Color {
    pub r: Number,
    pub g: Number,
    pub b: Number,
    pub a: Number,
}

/// The mathematical value of a [`Color`].
pub struct ColorModel {
    pub r: Seq<char>,
    pub g: Seq<char>,
    pub b: Seq<char>,
    pub a: Seq<char>,
}

impl DeepView for Color {
    type V = ColorModel;

    open spec fn deep_view(&self) -> ColorModel {
        ColorModel {
            r: self.r.deep_view(),
            g: self.g.deep_view(),
            b: self.b.deep_view(),
            a: self.a.deep_view(),
        }
    }
}

impl Color {
    /// A color, read from the numeric components `r`, `g`, `b` and `a`.
    pub open spec fn of_members(m: Seq<(Seq<char>, JsonValue)>) -> Result<ColorModel, Failure> {
        let r = component(m, "r"@, |v: JsonValue| number_of(v));
        let g = component(m, "g"@, |v: JsonValue| number_of(v));
        let b = component(m, "b"@, |v: JsonValue| number_of(v));
        let a = component(m, "a"@, |v: JsonValue| number_of(v));
        if r is Err {
            Err(r->Err_0)
        } else if g is Err {
            Err(g->Err_0)
        } else if b is Err {
            Err(b->Err_0)
        } else if a is Err {
            Err(a->Err_0)
        } else {
            Ok(
                ColorModel {
                    r: r->Ok_0,
                    g: g->Ok_0,
                    b: b->Ok_0,
                    a: a->Ok_0,
                },
            )
        }
    }

    /// The value read from an object; anything else is a type mismatch.
    pub open spec fn decoded(v: JsonValue) -> Result<ColorModel, Failure> {
        match v {
            JsonValue::Object(m) => Self::of_members(m),
            _ => Err(Failure::mismatch()),
        }
    }

    /// Decodes a value of this type.
    pub fn decode(j: &Json) -> (r: Result<Color, DecodeError>)
        ensures
            agrees(r, Self::decoded(j.deep_view())),
    {
        let m = read_record(j)?;
        let r = component_number(m, "r")?;
        let g = component_number(m, "g")?;
        let b = component_number(m, "b")?;
        let a = component_number(m, "a")?;
        Ok(Color { r, g, b, a })
    }

    /// Decodes the field `name` of a record, which must be there.
    pub fn required(m: &Vec<Member>, name: &str) -> (r: Result<Color, DecodeError>)
        ensures
            agrees(r, required(members_of(m@), name@, |v: JsonValue| Self::decoded(v))),
    {
        match find(m, name) {
            Some(j) => match Self::decode(j) {
                Ok(x) => Ok(x),
                Err(e) => Err(e.under_field(name)),
            },
            None => Err(DecodeError::missing(name)),
        }
    }

    /// Decodes the component `name` of a primitive.
    pub fn component(m: &Vec<Member>, name: &str) -> (r: Result<Color, DecodeError>)
        ensures
            agrees(r, component(members_of(m@), name@, |v: JsonValue| Self::decoded(v))),
    {
        match find(m, name) {
            Some(j) => match Self::decode(j) {
                Ok(x) => Ok(x),
                Err(e) => Err(e.under_field(name)),
            },
            None => Err(DecodeError::mismatch()),
        }
    }
}

/// One stop of a gradient ramp.
#[derive(Debug, PartialEq, Eq)]
pub struct ColorStop {
    pub position: Number,
    pub color: Color,
}

/// The mathematical value of a [`ColorStop`].
pub struct ColorStopModel {
    pub position: Seq<char>,
    pub color: ColorModel,
}

impl DeepView for ColorStop {
    type V = ColorStopModel;

    open spec fn deep_view(&self) -> ColorStopModel {
        ColorStopModel {
            position: self.position.deep_view(),
            color: self.color.deep_view(),
        }
    }
}

impl ColorStop {
    /// A color stop, read from the numeric component `position` and the
    /// component `color`.
    pub open spec fn of_members(m: Seq<(Seq<char>, JsonValue)>) -> Result<ColorStopModel, Failure> {
        let position = component(m, "position"@, |v: JsonValue| number_of(v));
        let color = component(m, "color"@, |v: JsonValue| Color::decoded(v));
        if position is Err {
            Err(position->Err_0)
        } else if color is Err {
            Err(color->Err_0)
        } else {
            Ok(
                ColorStopModel {
                    position: position->Ok_0,
                    color: color->Ok_0,
                },
            )
        }
    }

    /// The value read from an object; anything else is a type mismatch.
    pub open spec fn decoded(v: JsonValue) -> Result<ColorStopModel, Failure> {
        match v {
            JsonValue::Object(m) => Self::of_members(m),
            _ => Err(Failure::mismatch()),
        }
    }

    /// Decodes a value of this type.
    pub fn decode(j: &Json) -> (r: Result<ColorStop, DecodeError>)
        ensures
            agrees(r, Self::decoded(j.deep_view())),
    {
        let m = read_record(j)?;
        let position = component_number(m, "position")?;
        let color = Color::component(m, "color")?;
        Ok(ColorStop { position, color })
    }

    /// Decodes every item of an array, in order. The first item that fails
    /// decides the error, which is reported under the item's index.
    pub fn decode_all(j: &Json) -> (r: Result<Vec<ColorStop>, DecodeError>)
        ensures
            match r {
                Ok(v) => each(j.deep_view(), |x: JsonValue| Self::decoded(x)) == Ok::<
                    Seq<ColorStopModel>,
                    Failure,
                >(v.deep_view()),
                Err(e) => each(j.deep_view(), |x: JsonValue| Self::decoded(x)) == Err::<
                    Seq<ColorStopModel>,
                    Failure,
                >(e.deep_view()),
            },
    {
        let items = match j {
            Json::Array(items) => items,
            _ => { return Err(DecodeError::mismatch()); },
        };
        let ghost values = items_of(items@);
        let mut out: Vec<ColorStop> = Vec::new();
        let mut i: usize = 0;
        while i < items.len()
            invariant
                0 <= i <= items.len(),
                j.deep_view() == JsonValue::Array(values),
                values == items_of(items@),
                out.len() == i,
                forall|k: int|
                    0 <= k < i ==> Self::decoded(#[trigger] values[k]) == Ok::<
                        ColorStopModel,
                        Failure,
                    >(
                        out[k].deep_view(),
                    ),
            decreases items.len() - i,
        {
            match Self::decode(&items[i]) {
                Ok(x) => {
                    out.push(x);
                },
                Err(e) => {
                    proof {
                        lemma_each_failure(
                            j.deep_view(),
                            |x: JsonValue| Self::decoded(x),
                            i as int,
                        );
                    }
                    return Err(e.under_index(i));
                },
            }
            i = i + 1;
        }
        proof {
            lemma_each_ok(j.deep_view(), |x: JsonValue| Self::decoded(x), out.deep_view());
        }
        Ok(out)
    }

    /// Decodes the field `name` of a record, which must be there and hold an
    /// array of values of this type.
    pub fn required_all(m: &Vec<Member>, name: &str) -> (r: Result<Vec<ColorStop>, DecodeError>)
        ensures
            match r {
                Ok(v) => required(
                    members_of(m@),
                    name@,
                    |v: JsonValue| each(v, |x: JsonValue| Self::decoded(x)),
                ) == Ok::<Seq<ColorStopModel>, Failure>(v.deep_view()),
                Err(e) => required(
                    members_of(m@),
                    name@,
                    |v: JsonValue| each(v, |x: JsonValue| Self::decoded(x)),
                ) == Err::<Seq<ColorStopModel>, Failure>(e.deep_view()),
            },
    {
        match find(m, name) {
            Some(j) => match Self::decode_all(j) {
                Ok(x) => Ok(x),
                Err(e) => Err(e.under_field(name)),
            },
            None => Err(DecodeError::missing(name)),
        }
    }
}

} // verus!
