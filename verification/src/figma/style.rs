//! The composite style records: text style, layout constraint, layout grid,
//! export setting and padding.

use crate::error::{agrees, matches_plain, DecodeError, Failure, Place};
use crate::figma::enums::{
    HorizontalLayoutConstraint, LayoutAlign, LayoutGridPattern, LineHeightUnit,
    TextAutoResizeType, TextCase, TextHorizontalAlignment, TextVerticalAlignment,
    VerticalLayoutConstraint,
};
use crate::figma::primitives::{Color, ColorModel, Percent, Pixels};
use crate::json::{find, items_of, lookup, members_of, same_text, Json, JsonValue, Member};
use crate::wire::{
    defaulted, defaulted_flag, defaulted_int, each, flag_of, int_of, lemma_each_failure,
    lemma_each_ok, number_of, optional, optional_text, read_record, required, required_flag,
    required_int, required_number, required_text, text_of,
};
use vstd::prelude::*;

verus! {

/// The size that an export is held to. On the wire it is a record with the
/// tag `type`, one of `SCALE`, `WIDTH` and `HEIGHT`, and the integer `value`.
#[derive(Clone, Copy, Debug, PartialEq, Eq, Structural)]
pub enum Constraint {
    Scale { value: i32 },
    Width { value: i32 },
    Height { value: i32 },
}

impl Constraint {
    /// The constraint with the given tag and value, if the tag is one of the
    /// three.
    pub open spec fn tagged(tag: Seq<char>, value: i32) -> Option<Constraint> {
        if tag == "SCALE"@ {
            Some(Constraint::Scale { value })
        } else if tag == "WIDTH"@ {
            Some(Constraint::Width { value })
        } else if tag == "HEIGHT"@ {
            Some(Constraint::Height { value })
        } else {
            None
        }
    }

    /// The value read from the members of a record: the tag first, then the
    /// value. A tag outside the vocabulary is an unknown variant at `type`.
    pub open spec fn of_members(m: Seq<(Seq<char>, JsonValue)>) -> Result<Constraint, Failure> {
        let tag = required(m, "type"@, |v: JsonValue| text_of(v));
        let value = required(m, "value"@, |v: JsonValue| int_of(v));
        if tag is Err {
            Err(tag->Err_0)
        } else if Self::tagged(tag->Ok_0, 0) is None {
            Err(Failure::unknown(tag->Ok_0).under(Place::Field("type"@)))
        } else if value is Err {
            Err(value->Err_0)
        } else {
            Ok(Self::tagged(tag->Ok_0, value->Ok_0)->0)
        }
    }

    /// The value read from an object; anything else is a type mismatch.
    pub open spec fn decoded(v: JsonValue) -> Result<Constraint, Failure> {
        match v {
            JsonValue::Object(m) => Self::of_members(m),
            _ => Err(Failure::mismatch()),
        }
    }

    /// Decodes a value of this type.
    pub fn decode(j: &Json) -> (r: Result<Constraint, DecodeError>)
        ensures
            matches_plain(r, Self::decoded(j.deep_view())),
    {
        let m = read_record(j)?;
        let tag = required_text(m, "type")?;
        if same_text(tag.as_str(), "SCALE") {
            let value = required_int(m, "value")?;
            Ok(Constraint::Scale { value })
        } else if same_text(tag.as_str(), "WIDTH") {
            let value = required_int(m, "value")?;
            Ok(Constraint::Width { value })
        } else if same_text(tag.as_str(), "HEIGHT") {
            let value = required_int(m, "value")?;
            Ok(Constraint::Height { value })
        } else {
            Err(DecodeError::unknown(tag.as_str()).under_field("type"))
        }
    }

    /// Decodes the field `name` of a record, which must be there.
    pub fn required(m: &Vec<Member>, name: &str) -> (r: Result<Constraint, DecodeError>)
        ensures
            matches_plain(r, required(members_of(m@), name@, |v: JsonValue| Self::decoded(v))),
    {
        match find(m, name) {
            Some(j) => match Self::decode(j) {
                Ok(x) => Ok(x),
                Err(e) => Err(e.under_field(name)),
            },
            None => Err(DecodeError::missing(name)),
        }
    }
}

/// The appearance of text.
#[derive(Debug, PartialEq, Eq)]
pub struct TypeStyle {
    pub font_family: String,
    /// Unset where the style does not give it.
    pub font_post_script_name: Option<String>,
    /// Zero where the style does not give it.
    pub paragraph_spacing: i32,
    /// Zero where the style does not give it.
    pub paragraph_indent: i32,
    /// False where the style does not give it.
    pub italic: bool,
    pub font_weight: i32,
    /// [`TextAutoResizeType::Off`] where the style does not give it.
    pub text_auto_resize: TextAutoResizeType,
    pub font_size: Pixels,
    /// [`TextCase::Original`] where the style does not give it.
    pub text_case: TextCase,
    pub text_align_horizontal: TextHorizontalAlignment,
    pub text_align_vertical: TextVerticalAlignment,
    pub letter_spacing: Pixels,
    pub line_height_px: Pixels,
    pub line_height_percent: Percent,
    pub line_height_unit: LineHeightUnit,
}

/// The mathematical value of a [`TypeStyle`].
pub struct TypeStyleModel {
    pub font_family: Seq<char>,
    pub font_post_script_name: Option<Seq<char>>,
    pub paragraph_spacing: i32,
    pub paragraph_indent: i32,
    pub italic: bool,
    pub font_weight: i32,
    pub text_auto_resize: TextAutoResizeType,
    pub font_size: Seq<char>,
    pub text_case: TextCase,
    pub text_align_horizontal: TextHorizontalAlignment,
    pub text_align_vertical: TextVerticalAlignment,
    pub letter_spacing: Seq<char>,
    pub line_height_px: Seq<char>,
    pub line_height_percent: Seq<char>,
    pub line_height_unit: LineHeightUnit,
}

impl DeepView for TypeStyle {
    type V = TypeStyleModel;

    open spec fn deep_view(&self) -> TypeStyleModel {
        TypeStyleModel {
            font_family: self.font_family@,
            font_post_script_name: self.font_post_script_name.deep_view(),
            paragraph_spacing: self.paragraph_spacing,
            paragraph_indent: self.paragraph_indent,
            italic: self.italic,
            font_weight: self.font_weight,
            text_auto_resize: self.text_auto_resize,
            font_size: self.font_size.deep_view(),
            text_case: self.text_case,
            text_align_horizontal: self.text_align_horizontal,
            text_align_vertical: self.text_align_vertical,
            letter_spacing: self.letter_spacing.deep_view(),
            line_height_px: self.line_height_px.deep_view(),
            line_height_percent: self.line_height_percent.deep_view(),
            line_height_unit: self.line_height_unit,
        }
    }
}

impl TypeStyle {
    /// A text style, read from the members of a record. Every field is either
    /// required or has the default that its declaration names. The fields are
    /// read in the order of their declaration, and the first failure is the
    /// one reported.
    pub open spec fn of_members(m: Seq<(Seq<char>, JsonValue)>) -> Result<TypeStyleModel, Failure> {
        let font_family = required(m, "fontFamily"@, |v: JsonValue| text_of(v));
        let font_post_script_name = optional(m, "fontPostScriptName"@, |v: JsonValue| text_of(v));
        let paragraph_spacing = defaulted(m, "paragraphSpacing"@, |v: JsonValue| int_of(v), 0i32);
        let paragraph_indent = defaulted(m, "paragraphIndent"@, |v: JsonValue| int_of(v), 0i32);
        let italic = defaulted(m, "italic"@, |v: JsonValue| flag_of(v), false);
        let font_weight = required(m, "fontWeight"@, |v: JsonValue| int_of(v));
        let text_auto_resize = defaulted(
            m,
            "textAutoResize"@,
            |v: JsonValue| TextAutoResizeType::decoded(v),
            TextAutoResizeType::Off,
        );
        let font_size = required(m, "fontSize"@, |v: JsonValue| number_of(v));
        let text_case = defaulted(
            m,
            "textCase"@,
            |v: JsonValue| TextCase::decoded(v),
            TextCase::Original,
        );
        let text_align_horizontal = required(
            m,
            "textAlignHorizontal"@,
            |v: JsonValue| TextHorizontalAlignment::decoded(v),
        );
        let text_align_vertical = required(
            m,
            "textAlignVertical"@,
            |v: JsonValue| TextVerticalAlignment::decoded(v),
        );
        let letter_spacing = required(m, "letterSpacing"@, |v: JsonValue| number_of(v));
        let line_height_px = required(m, "lineHeightPx"@, |v: JsonValue| number_of(v));
        let line_height_percent = required(m, "lineHeightPercent"@, |v: JsonValue| number_of(v));
        let line_height_unit = required(
            m,
            "lineHeightUnit"@,
            |v: JsonValue| LineHeightUnit::decoded(v),
        );
        if font_family is Err {
            Err(font_family->Err_0)
        } else if font_post_script_name is Err {
            Err(font_post_script_name->Err_0)
        } else if paragraph_spacing is Err {
            Err(paragraph_spacing->Err_0)
        } else if paragraph_indent is Err {
            Err(paragraph_indent->Err_0)
        } else if italic is Err {
            Err(italic->Err_0)
        } else if font_weight is Err {
            Err(font_weight->Err_0)
        } else if text_auto_resize is Err {
            Err(text_auto_resize->Err_0)
        } else if font_size is Err {
            Err(font_size->Err_0)
        } else if text_case is Err {
            Err(text_case->Err_0)
        } else if text_align_horizontal is Err {
            Err(text_align_horizontal->Err_0)
        } else if text_align_vertical is Err {
            Err(text_align_vertical->Err_0)
        } else if letter_spacing is Err {
            Err(letter_spacing->Err_0)
        } else if line_height_px is Err {
            Err(line_height_px->Err_0)
        } else if line_height_percent is Err {
            Err(line_height_percent->Err_0)
        } else if line_height_unit is Err {
            Err(line_height_unit->Err_0)
        } else {
            Ok(
                TypeStyleModel {
                    font_family: font_family->Ok_0,
                    font_post_script_name: font_post_script_name->Ok_0,
                    paragraph_spacing: paragraph_spacing->Ok_0,
                    paragraph_indent: paragraph_indent->Ok_0,
                    italic: italic->Ok_0,
                    font_weight: font_weight->Ok_0,
                    text_auto_resize: text_auto_resize->Ok_0,
                    font_size: font_size->Ok_0,
                    text_case: text_case->Ok_0,
                    text_align_horizontal: text_align_horizontal->Ok_0,
                    text_align_vertical: text_align_vertical->Ok_0,
                    letter_spacing: letter_spacing->Ok_0,
                    line_height_px: line_height_px->Ok_0,
                    line_height_percent: line_height_percent->Ok_0,
                    line_height_unit: line_height_unit->Ok_0,
                },
            )
        }
    }

    /// The value read from an object; anything else is a type mismatch.
    pub open spec fn decoded(v: JsonValue) -> Result<TypeStyleModel, Failure> {
        match v {
            JsonValue::Object(m) => Self::of_members(m),
            _ => Err(Failure::mismatch()),
        }
    }

    /// Decodes a value of this type.
    pub fn decode(j: &Json) -> (r: Result<TypeStyle, DecodeError>)
        ensures
            agrees(r, Self::decoded(j.deep_view())),
    {
        let m = read_record(j)?;
        let font_family = required_text(m, "fontFamily")?;
        let font_post_script_name = optional_text(m, "fontPostScriptName")?;
        let paragraph_spacing = defaulted_int(m, "paragraphSpacing", 0i32)?;
        let paragraph_indent = defaulted_int(m, "paragraphIndent", 0i32)?;
        let italic = defaulted_flag(m, "italic", false)?;
        let font_weight = required_int(m, "fontWeight")?;
        let text_auto_resize = TextAutoResizeType::or_default(m, "textAutoResize")?;
        let font_size = Pixels { value: required_number(m, "fontSize")? };
        let text_case = TextCase::or_default(m, "textCase")?;
        let text_align_horizontal = TextHorizontalAlignment::required(m, "textAlignHorizontal")?;
        let text_align_vertical = TextVerticalAlignment::required(m, "textAlignVertical")?;
        let letter_spacing = Pixels { value: required_number(m, "letterSpacing")? };
        let line_height_px = Pixels { value: required_number(m, "lineHeightPx")? };
        let line_height_percent = Percent { value: required_number(m, "lineHeightPercent")? };
        let line_height_unit = LineHeightUnit::required(m, "lineHeightUnit")?;
        Ok(
            TypeStyle {
                font_family,
                font_post_script_name,
                paragraph_spacing,
                paragraph_indent,
                italic,
                font_weight,
                text_auto_resize,
                font_size,
                text_case,
                text_align_horizontal,
                text_align_vertical,
                letter_spacing,
                line_height_px,
                line_height_percent,
                line_height_unit,
            },
        )
    }

    /// Default application: a text style that decodes has, for each field
    /// with a default that its record does not give, that default: the
    /// original case, no automatic resizing, no paragraph spacing, no
    /// paragraph indent, and upright letters.
    pub proof fn lemma_defaults(m: Seq<(Seq<char>, JsonValue)>)
        requires
            Self::of_members(m) is Ok,
        ensures
            lookup(m, "textCase"@) is None ==> Self::of_members(m)->Ok_0.text_case
                == TextCase::Original,
            lookup(m, "textAutoResize"@) is None ==> Self::of_members(m)->Ok_0.text_auto_resize
                == TextAutoResizeType::Off,
            lookup(m, "paragraphSpacing"@) is None ==> Self::of_members(m)->Ok_0.paragraph_spacing
                == 0,
            lookup(m, "paragraphIndent"@) is None ==> Self::of_members(m)->Ok_0.paragraph_indent
                == 0,
            lookup(m, "italic"@) is None ==> Self::of_members(m)->Ok_0.italic == false,
    {
    }

    /// A default never stands in for a value that is there but malformed:
    /// a text style whose `textCase` or `textAutoResize` is present and
    /// does not decode fails.
    pub proof fn lemma_no_default_for_malformed(m: Seq<(Seq<char>, JsonValue)>)
        ensures
            lookup(m, "textCase"@) matches Some(v) && TextCase::decoded(v) is Err
                ==> Self::of_members(m) is Err,
            lookup(m, "textAutoResize"@) matches Some(v) && TextAutoResizeType::decoded(v) is Err
                ==> Self::of_members(m) is Err,
    {
    }

    /// Decodes the field `name` of a record, which must be there.
    pub fn required(m: &Vec<Member>, name: &str) -> (r: Result<TypeStyle, DecodeError>)
        ensures
            agrees(r, required(members_of(m@), name@, |v: JsonValue| Self::decoded(v))),
    {
        match find(m, name) {
            Some(j) => match Self::decode(j) {
                Ok(x) => Ok(x),
                Err(e) => Err(e.under_field(name)),
            },
            None => Err(DecodeError::missing(name)),
        }
    }
}

/// How a node follows its parent when the parent is resized. The two fields
/// are written in upper case: `VERTICAL` and `HORIZONTAL`.
#[derive(Clone, Copy, Debug, PartialEq, Eq, Structural)]
pub struct LayoutConstraint {
    pub vertical: VerticalLayoutConstraint,
    pub horizontal: HorizontalLayoutConstraint,
}

impl LayoutConstraint {
    /// The value read from the members of a record. The fields are read in the
    /// order of their declaration, and the first failure is the one reported.
    pub open spec fn of_members(m: Seq<(Seq<char>, JsonValue)>) -> Result<
        LayoutConstraint,
        Failure,
    > {
        let vertical = required(
            m,
            "VERTICAL"@,
            |v: JsonValue| VerticalLayoutConstraint::decoded(v),
        );
        let horizontal = required(
            m,
            "HORIZONTAL"@,
            |v: JsonValue| HorizontalLayoutConstraint::decoded(v),
        );
        if vertical is Err {
            Err(vertical->Err_0)
        } else if horizontal is Err {
            Err(horizontal->Err_0)
        } else {
            Ok(
                LayoutConstraint {
                    vertical: vertical->Ok_0,
                    horizontal: horizontal->Ok_0,
                },
            )
        }
    }

    /// The value read from an object; anything else is a type mismatch.
    pub open spec fn decoded(v: JsonValue) -> Result<LayoutConstraint, Failure> {
        match v {
            JsonValue::Object(m) => Self::of_members(m),
            _ => Err(Failure::mismatch()),
        }
    }

    /// Decodes a value of this type.
    pub fn decode(j: &Json) -> (r: Result<LayoutConstraint, DecodeError>)
        ensures
            matches_plain(r, Self::decoded(j.deep_view())),
    {
        let m = read_record(j)?;
        let vertical = VerticalLayoutConstraint::required(m, "VERTICAL")?;
        let horizontal = HorizontalLayoutConstraint::required(m, "HORIZONTAL")?;
        Ok(LayoutConstraint { vertical, horizontal })
    }
}

/// A guide grid laid over a frame.
#[derive(Debug, PartialEq, Eq)]
pub struct LayoutGrid {
    pub pattern: LayoutGridPattern,
    pub section_size: i32,
    pub visible: bool,
    pub color: Color,
    pub alignment: LayoutAlign,
    pub gutter_size: i32,
    pub offset: i32,
    pub count: i32,
}

/// The mathematical value of a [`LayoutGrid`].
pub struct LayoutGridModel {
    pub pattern: LayoutGridPattern,
    pub section_size: i32,
    pub visible: bool,
    pub color: ColorModel,
    pub alignment: LayoutAlign,
    pub gutter_size: i32,
    pub offset: i32,
    pub count: i32,
}

impl DeepView for LayoutGrid {
    type V = LayoutGridModel;

    open spec fn deep_view(&self) -> LayoutGridModel {
        LayoutGridModel {
            pattern: self.pattern,
            section_size: self.section_size,
            visible: self.visible,
            color: self.color.deep_view(),
            alignment: self.alignment,
            gutter_size: self.gutter_size,
            offset: self.offset,
            count: self.count,
        }
    }
}

impl LayoutGrid {
    /// The value read from the members of a record. The fields are read in the
    /// order of their declaration, and the first failure is the one reported.
    pub open spec fn of_members(m: Seq<(Seq<char>, JsonValue)>) -> Result<
        LayoutGridModel,
        Failure,
    > {
        let pattern = required(m, "pattern"@, |v: JsonValue| LayoutGridPattern::decoded(v));
        let section_size = required(m, "sectionSize"@, |v: JsonValue| int_of(v));
        let visible = required(m, "visible"@, |v: JsonValue| flag_of(v));
        let color = required(m, "color"@, |v: JsonValue| Color::decoded(v));
        let alignment = required(m, "alignment"@, |v: JsonValue| LayoutAlign::decoded(v));
        let gutter_size = required(m, "gutterSize"@, |v: JsonValue| int_of(v));
        let offset = required(m, "offset"@, |v: JsonValue| int_of(v));
        let count = required(m, "count"@, |v: JsonValue| int_of(v));
        if pattern is Err {
            Err(pattern->Err_0)
        } else if section_size is Err {
            Err(section_size->Err_0)
        } else if visible is Err {
            Err(visible->Err_0)
        } else if color is Err {
            Err(color->Err_0)
        } else if alignment is Err {
            Err(alignment->Err_0)
        } else if gutter_size is Err {
            Err(gutter_size->Err_0)
        } else if offset is Err {
            Err(offset->Err_0)
        } else if count is Err {
            Err(count->Err_0)
        } else {
            Ok(
                LayoutGridModel {
                    pattern: pattern->Ok_0,
                    section_size: section_size->Ok_0,
                    visible: visible->Ok_0,
                    color: color->Ok_0,
                    alignment: alignment->Ok_0,
                    gutter_size: gutter_size->Ok_0,
                    offset: offset->Ok_0,
                    count: count->Ok_0,
                },
            )
        }
    }

    /// The value read from an object; anything else is a type mismatch.
    pub open spec fn decoded(v: JsonValue) -> Result<LayoutGridModel, Failure> {
        match v {
            JsonValue::Object(m) => Self::of_members(m),
            _ => Err(Failure::mismatch()),
        }
    }

    /// Decodes a value of this type.
    pub fn decode(j: &Json) -> (r: Result<LayoutGrid, DecodeError>)
        ensures
            agrees(r, Self::decoded(j.deep_view())),
    {
        let m = read_record(j)?;
        let pattern = LayoutGridPattern::required(m, "pattern")?;
        let section_size = required_int(m, "sectionSize")?;
        let visible = required_flag(m, "visible")?;
        let color = Color::required(m, "color")?;
        let alignment = LayoutAlign::required(m, "alignment")?;
        let gutter_size = required_int(m, "gutterSize")?;
        let offset = required_int(m, "offset")?;
        let count = required_int(m, "count")?;
        Ok(
            LayoutGrid {
                pattern,
                section_size,
                visible,
                color,
                alignment,
                gutter_size,
                offset,
                count,
            },
        )
    }
}

/// How a node is exported.
#[derive(Debug, PartialEq, Eq)]
pub struct ExportSetting {
    pub suffix: String,
    pub format: String,
    pub constraint: Constraint,
}

/// The mathematical value of a [`ExportSetting`].
pub struct ExportSettingModel {
    pub suffix: Seq<char>,
    pub format: Seq<char>,
    pub constraint: Constraint,
}

impl DeepView for ExportSetting {
    type V = ExportSettingModel;

    open spec fn deep_view(&self) -> ExportSettingModel {
        ExportSettingModel {
            suffix: self.suffix@,
            format: self.format@,
            constraint: self.constraint,
        }
    }
}

impl ExportSetting {
    /// The value read from the members of a record. The fields are read in the
    /// order of their declaration, and the first failure is the one reported.
    pub open spec fn of_members(m: Seq<(Seq<char>, JsonValue)>) -> Result<
        ExportSettingModel,
        Failure,
    > {
        let suffix = required(m, "suffix"@, |v: JsonValue| text_of(v));
        let format = required(m, "format"@, |v: JsonValue| text_of(v));
        let constraint = required(m, "constraint"@, |v: JsonValue| Constraint::decoded(v));
        if suffix is Err {
            Err(suffix->Err_0)
        } else if format is Err {
            Err(format->Err_0)
        } else if constraint is Err {
            Err(constraint->Err_0)
        } else {
            Ok(
                ExportSettingModel {
                    suffix: suffix->Ok_0,
                    format: format->Ok_0,
                    constraint: constraint->Ok_0,
                },
            )
        }
    }

    /// The value read from an object; anything else is a type mismatch.
    pub open spec fn decoded(v: JsonValue) -> Result<ExportSettingModel, Failure> {
        match v {
            JsonValue::Object(m) => Self::of_members(m),
            _ => Err(Failure::mismatch()),
        }
    }

    /// Decodes a value of this type.
    pub fn decode(j: &Json) -> (r: Result<ExportSetting, DecodeError>)
        ensures
            agrees(r, Self::decoded(j.deep_view())),
    {
        let m = read_record(j)?;
        let suffix = required_text(m, "suffix")?;
        let format = required_text(m, "format")?;
        let constraint = Constraint::required(m, "constraint")?;
        Ok(ExportSetting { suffix, format, constraint })
    }

    /// Decodes every item of an array, in order. The first item that fails
    /// decides the error, which is reported under the item's index.
    pub fn decode_all(j: &Json) -> (r: Result<Vec<ExportSetting>, DecodeError>)
        ensures
            match r {
                Ok(v) => each(j.deep_view(), |x: JsonValue| Self::decoded(x)) == Ok::<
                    Seq<ExportSettingModel>,
                    Failure,
                >(v.deep_view()),
                Err(e) => each(j.deep_view(), |x: JsonValue| Self::decoded(x)) == Err::<
                    Seq<ExportSettingModel>,
                    Failure,
                >(e.deep_view()),
            },
    {
        let items = match j {
            Json::Array(items) => items,
            _ => { return Err(DecodeError::mismatch()); },
        };
        let ghost values = items_of(items@);
        let mut out: Vec<ExportSetting> = Vec::new();
        let mut i: usize = 0;
        while i < items.len()
            invariant
                0 <= i <= items.len(),
                j.deep_view() == JsonValue::Array(values),
                values == items_of(items@),
                out.len() == i,
                forall|k: int|
                    0 <= k < i ==> Self::decoded(#[trigger] values[k]) == Ok::<
                        ExportSettingModel,
                        Failure,
                    >(
                        out[k].deep_view(),
                    ),
            decreases items.len() - i,
        {
            match Self::decode(&items[i]) {
                Ok(x) => {
                    out.push(x);
                },
                Err(e) => {
                    proof {
                        lemma_each_failure(
                            j.deep_view(),
                            |x: JsonValue| Self::decoded(x),
                            i as int,
                        );
                    }
                    return Err(e.under_index(i));
                },
            }
            i = i + 1;
        }
        proof {
            lemma_each_ok(j.deep_view(), |x: JsonValue| Self::decoded(x), out.deep_view());
        }
        Ok(out)
    }

    /// Decodes the field `name` of a record, which must be there and hold an
    /// array of values of this type.
    pub fn required_all(m: &Vec<Member>, name: &str) -> (r: Result<Vec<ExportSetting>, DecodeError>)
        ensures
            match r {
                Ok(v) => required(
                    members_of(m@),
                    name@,
                    |v: JsonValue| each(v, |x: JsonValue| Self::decoded(x)),
                ) == Ok::<Seq<ExportSettingModel>, Failure>(v.deep_view()),
                Err(e) => required(
                    members_of(m@),
                    name@,
                    |v: JsonValue| each(v, |x: JsonValue| Self::decoded(x)),
                ) == Err::<Seq<ExportSettingModel>, Failure>(e.deep_view()),
            },
    {
        match find(m, name) {
            Some(j) => match Self::decode_all(j) {
                Ok(x) => Ok(x),
                Err(e) => Err(e.under_field(name)),
            },
            None => Err(DecodeError::missing(name)),
        }
    }
}

/// The padding of an automatic layout, side by side.
#[derive(Clone, Copy, Debug, PartialEq, Eq, Structural)]
pub struct Padding {
    pub padding_left: i32,
    pub padding_right: i32,
    pub padding_top: i32,
    pub padding_bottom: i32,
}

impl Padding {
    /// The value read from the members of a record. The fields are read in the
    /// order of their declaration, and the first failure is the one reported.
    pub open spec fn of_members(m: Seq<(Seq<char>, JsonValue)>) -> Result<Padding, Failure> {
        let padding_left = required(m, "paddingLeft"@, |v: JsonValue| int_of(v));
        let padding_right = required(m, "paddingRight"@, |v: JsonValue| int_of(v));
        let padding_top = required(m, "paddingTop"@, |v: JsonValue| int_of(v));
        let padding_bottom = required(m, "paddingBottom"@, |v: JsonValue| int_of(v));
        if padding_left is Err {
            Err(padding_left->Err_0)
        } else if padding_right is Err {
            Err(padding_right->Err_0)
        } else if padding_top is Err {
            Err(padding_top->Err_0)
        } else if padding_bottom is Err {
            Err(padding_bottom->Err_0)
        } else {
            Ok(
                Padding {
                    padding_left: padding_left->Ok_0,
                    padding_right: padding_right->Ok_0,
                    padding_top: padding_top->Ok_0,
                    padding_bottom: padding_bottom->Ok_0,
                },
            )
        }
    }

    /// The value read from an object; anything else is a type mismatch.
    pub open spec fn decoded(v: JsonValue) -> Result<Padding, Failure> {
        match v {
            JsonValue::Object(m) => Self::of_members(m),
            _ => Err(Failure::mismatch()),
        }
    }

    /// Decodes a value of this type.
    pub fn decode(j: &Json) -> (r: Result<Padding, DecodeError>)
        ensures
            matches_plain(r, Self::decoded(j.deep_view())),
    {
        let m = read_record(j)?;
        let padding_left = required_int(m, "paddingLeft")?;
        let padding_right = required_int(m, "paddingRight")?;
        let padding_top = required_int(m, "paddingTop")?;
        let padding_bottom = required_int(m, "paddingBottom")?;
        Ok(Padding { padding_left, padding_right, padding_top, padding_bottom })
    }
}

} // verus!
