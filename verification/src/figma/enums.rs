//! The closed enumerations of the document format. Each value has one
//! token, the string that stands for it on the wire.

use crate::error::{matches_plain, DecodeError, Failure};
use crate::json::{find, members_of, same_text, Json, JsonValue, Member};
use crate::wire::{defaulted, required, token_of};
use vstd::prelude::*;

verus! {

/// How a text box grows with its content.
#[derive(Clone, Copy, Debug, PartialEq, Eq, Structural)]
pub enum TextAutoResizeType {
    /// Written `HEIGHT`.
    Height,
    /// Written `WIDTH_AND_HEIGHT`.
    WidthAndHeight,
    /// Written `NONE`.
    Off,
}

impl TextAutoResizeType {
    /// The value that a token stands for, if it is one of the vocabulary.
    pub open spec fn of_token(t: Seq<char>) -> Option<Self> {
        if t == "HEIGHT"@ {
            Some(TextAutoResizeType::Height)
        } else if t == "WIDTH_AND_HEIGHT"@ {
            Some(TextAutoResizeType::WidthAndHeight)
        } else if t == "NONE"@ {
            Some(TextAutoResizeType::Off)
        } else {
            None
        }
    }

    /// The value read from a string that holds one of the tokens.
    pub open spec fn decoded(v: JsonValue) -> Result<Self, Failure> {
        token_of(v, |t: Seq<char>| Self::of_token(t))
    }

    /// The value of a text style that does not say how its box resizes.
    pub fn default() -> (r: Self)
        ensures
            r == TextAutoResizeType::Off,
    {
        TextAutoResizeType::Off
    }

    /// Maps a token to its value; tokens are matched letter for letter.
    pub fn from_token(t: &str) -> (r: Option<Self>)
        ensures
            r == Self::of_token(t@),
    {
        if same_text(t, "HEIGHT") {
            Some(TextAutoResizeType::Height)
        } else if same_text(t, "WIDTH_AND_HEIGHT") {
            Some(TextAutoResizeType::WidthAndHeight)
        } else if same_text(t, "NONE") {
            Some(TextAutoResizeType::Off)
        } else {
            None
        }
    }

    /// Reads a value from a string. Anything but a string is a type
    /// mismatch; a string outside the vocabulary is an unknown variant.
    pub fn decode(j: &Json) -> (r: Result<Self, DecodeError>)
        ensures
            matches_plain(r, Self::decoded(j.deep_view())),
    {
        match j {
            Json::Text(t) => match Self::from_token(t.as_str()) {
                Some(x) => Ok(x),
                None => Err(DecodeError::unknown(t.as_str())),
            },
            _ => Err(DecodeError::mismatch()),
        }
    }

    /// Decodes the field `name` of a record; where the record has no such
    /// field, the result is the default.
    pub fn or_default(m: &Vec<Member>, name: &str) -> (r: Result<TextAutoResizeType, DecodeError>)
        ensures
            matches_plain(
                r,
                defaulted(
                    members_of(m@),
                    name@,
                    |v: JsonValue| Self::decoded(v),
                    TextAutoResizeType::Off,
                ),
            ),
    {
        match find(m, name) {
            Some(j) => match Self::decode(j) {
                Ok(x) => Ok(x),
                Err(e) => Err(e.under_field(name)),
            },
            None => Ok(Self::default()),
        }
    }
}

/// Horizontal alignment of text within its box.
#[derive(Clone, Copy, Debug, PartialEq, Eq, Structural)]
pub enum TextHorizontalAlignment {
    /// Written `LEFT`.
    Left,
    /// Written `RIGHT`.
    Right,
    /// Written `CENTER`.
    Center,
    /// Written `JUSTIFIED`.
    Justified,
}

impl TextHorizontalAlignment {
    /// The value that a token stands for, if it is one of the vocabulary.
    pub open spec fn of_token(t: Seq<char>) -> Option<Self> {
        if t == "LEFT"@ {
            Some(TextHorizontalAlignment::Left)
        } else if t == "RIGHT"@ {
            Some(TextHorizontalAlignment::Right)
        } else if t == "CENTER"@ {
            Some(TextHorizontalAlignment::Center)
        } else if t == "JUSTIFIED"@ {
            Some(TextHorizontalAlignment::Justified)
        } else {
            None
        }
    }

    /// The value read from a string that holds one of the tokens.
    pub open spec fn decoded(v: JsonValue) -> Result<Self, Failure> {
        token_of(v, |t: Seq<char>| Self::of_token(t))
    }

    /// Maps a token to its value; tokens are matched letter for letter.
    pub fn from_token(t: &str) -> (r: Option<Self>)
        ensures
            r == Self::of_token(t@),
    {
        if same_text(t, "LEFT") {
            Some(TextHorizontalAlignment::Left)
        } else if same_text(t, "RIGHT") {
            Some(TextHorizontalAlignment::Right)
        } else if same_text(t, "CENTER") {
            Some(TextHorizontalAlignment::Center)
        } else if same_text(t, "JUSTIFIED") {
            Some(TextHorizontalAlignment::Justified)
        } else {
            None
        }
    }

    /// Reads a value from a string. Anything but a string is a type
    /// mismatch; a string outside the vocabulary is an unknown variant.
    pub fn decode(j: &Json) -> (r: Result<Self, DecodeError>)
        ensures
            matches_plain(r, Self::decoded(j.deep_view())),
    {
        match j {
            Json::Text(t) => match Self::from_token(t.as_str()) {
                Some(x) => Ok(x),
                None => Err(DecodeError::unknown(t.as_str())),
            },
            _ => Err(DecodeError::mismatch()),
        }
    }

    /// Decodes the field `name` of a record, which must be there.
    pub fn required(m: &Vec<Member>, name: &str) -> (r: Result<
        TextHorizontalAlignment,
        DecodeError,
    >)
        ensures
            matches_plain(r, required(members_of(m@), name@, |v: JsonValue| Self::decoded(v))),
    {
        match find(m, name) {
            Some(j) => match Self::decode(j) {
                Ok(x) => Ok(x),
                Err(e) => Err(e.under_field(name)),
            },
            None => Err(DecodeError::missing(name)),
        }
    }
}

/// Vertical alignment of text within its box.
#[derive(Clone, Copy, Debug, PartialEq, Eq, Structural)]
pub enum TextVerticalAlignment {
    /// Written `TOP`.
    Top,
    /// Written `CENTER`.
    Center,
    /// Written `BOTTOM`.
    Bottom,
}

impl TextVerticalAlignment {
    /// The value that a token stands for, if it is one of the vocabulary.
    pub open spec fn of_token(t: Seq<char>) -> Option<Self> {
        if t == "TOP"@ {
            Some(TextVerticalAlignment::Top)
        } else if t == "CENTER"@ {
            Some(TextVerticalAlignment::Center)
        } else if t == "BOTTOM"@ {
            Some(TextVerticalAlignment::Bottom)
        } else {
            None
        }
    }

    /// The value read from a string that holds one of the tokens.
    pub open spec fn decoded(v: JsonValue) -> Result<Self, Failure> {
        token_of(v, |t: Seq<char>| Self::of_token(t))
    }

    /// Maps a token to its value; tokens are matched letter for letter.
    pub fn from_token(t: &str) -> (r: Option<Self>)
        ensures
            r == Self::of_token(t@),
    {
        if same_text(t, "TOP") {
            Some(TextVerticalAlignment::Top)
        } else if same_text(t, "CENTER") {
            Some(TextVerticalAlignment::Center)
        } else if same_text(t, "BOTTOM") {
            Some(TextVerticalAlignment::Bottom)
        } else {
            None
        }
    }

    /// Reads a value from a string. Anything but a string is a type
    /// mismatch; a string outside the vocabulary is an unknown variant.
    pub fn decode(j: &Json) -> (r: Result<Self, DecodeError>)
        ensures
            matches_plain(r, Self::decoded(j.deep_view())),
    {
        match j {
            Json::Text(t) => match Self::from_token(t.as_str()) {
                Some(x) => Ok(x),
                None => Err(DecodeError::unknown(t.as_str())),
            },
            _ => Err(DecodeError::mismatch()),
        }
    }

    /// Decodes the field `name` of a record, which must be there.
    pub fn required(m: &Vec<Member>, name: &str) -> (r: Result<TextVerticalAlignment, DecodeError>)
        ensures
            matches_plain(r, required(members_of(m@), name@, |v: JsonValue| Self::decoded(v))),
    {
        match find(m, name) {
            Some(j) => match Self::decode(j) {
                Ok(x) => Ok(x),
                Err(e) => Err(e.under_field(name)),
            },
            None => Err(DecodeError::missing(name)),
        }
    }
}

/// The unit in which a line height is given. Two of its tokens end in a
/// percent sign.
#[derive(Clone, Copy, Debug, PartialEq, Eq, Structural)]
pub enum LineHeightUnit {
    /// Written `PIXELS`.
    Pixels,
    /// Written `FONT_SIZE_%`.
    FontSize,
    /// Written `INTRINSIC_%`.
    Intrinsic,
}

impl LineHeightUnit {
    /// The value that a token stands for, if it is one of the vocabulary.
    pub open spec fn of_token(t: Seq<char>) -> Option<Self> {
        if t == "PIXELS"@ {
            Some(LineHeightUnit::Pixels)
        } else if t == "FONT_SIZE_%"@ {
            Some(LineHeightUnit::FontSize)
        } else if t == "INTRINSIC_%"@ {
            Some(LineHeightUnit::Intrinsic)
        } else {
            None
        }
    }

    /// The value read from a string that holds one of the tokens.
    pub open spec fn decoded(v: JsonValue) -> Result<Self, Failure> {
        token_of(v, |t: Seq<char>| Self::of_token(t))
    }

    /// Maps a token to its value; tokens are matched letter for letter.
    pub fn from_token(t: &str) -> (r: Option<Self>)
        ensures
            r == Self::of_token(t@),
    {
        if same_text(t, "PIXELS") {
            Some(LineHeightUnit::Pixels)
        } else if same_text(t, "FONT_SIZE_%") {
            Some(LineHeightUnit::FontSize)
        } else if same_text(t, "INTRINSIC_%") {
            Some(LineHeightUnit::Intrinsic)
        } else {
            None
        }
    }

    /// Reads a value from a string. Anything but a string is a type
    /// mismatch; a string outside the vocabulary is an unknown variant.
    pub fn decode(j: &Json) -> (r: Result<Self, DecodeError>)
        ensures
            matches_plain(r, Self::decoded(j.deep_view())),
    {
        match j {
            Json::Text(t) => match Self::from_token(t.as_str()) {
                Some(x) => Ok(x),
                None => Err(DecodeError::unknown(t.as_str())),
            },
            _ => Err(DecodeError::mismatch()),
        }
    }

    /// Decodes the field `name` of a record, which must be there.
    pub fn required(m: &Vec<Member>, name: &str) -> (r: Result<LineHeightUnit, DecodeError>)
        ensures
            matches_plain(r, required(members_of(m@), name@, |v: JsonValue| Self::decoded(v))),
    {
        match find(m, name) {
            Some(j) => match Self::decode(j) {
                Ok(x) => Ok(x),
                Err(e) => Err(e.under_field(name)),
            },
            None => Err(DecodeError::missing(name)),
        }
    }
}

/// Case transformation applied to text.
#[derive(Clone, Copy, Debug, PartialEq, Eq, Structural)]
pub enum TextCase {
    /// Written `UPPER`.
    Upper,
    /// Written `LOWER`.
    Lower,
    /// Written `TITLE`.
    Title,
    /// Written `SMALL_CAPS`.
    SmallCaps,
    /// Written `SMALL_CAPS_FORCED`.
    SmallCapsForced,
    /// Written `ORIGINAL`.
    Original,
}

impl TextCase {
    /// The value that a token stands for, if it is one of the vocabulary.
    pub open spec fn of_token(t: Seq<char>) -> Option<Self> {
        if t == "UPPER"@ {
            Some(TextCase::Upper)
        } else if t == "LOWER"@ {
            Some(TextCase::Lower)
        } else if t == "TITLE"@ {
            Some(TextCase::Title)
        } else if t == "SMALL_CAPS"@ {
            Some(TextCase::SmallCaps)
        } else if t == "SMALL_CAPS_FORCED"@ {
            Some(TextCase::SmallCapsForced)
        } else if t == "ORIGINAL"@ {
            Some(TextCase::Original)
        } else {
            None
        }
    }

    /// The value read from a string that holds one of the tokens.
    pub open spec fn decoded(v: JsonValue) -> Result<Self, Failure> {
        token_of(v, |t: Seq<char>| Self::of_token(t))
    }

    /// The value of a text style that does not name a case.
    pub fn default() -> (r: Self)
        ensures
            r == TextCase::Original,
    {
        TextCase::Original
    }

    /// Maps a token to its value; tokens are matched letter for letter.
    pub fn from_token(t: &str) -> (r: Option<Self>)
        ensures
            r == Self::of_token(t@),
    {
        if same_text(t, "UPPER") {
            Some(TextCase::Upper)
        } else if same_text(t, "LOWER") {
            Some(TextCase::Lower)
        } else if same_text(t, "TITLE") {
            Some(TextCase::Title)
        } else if same_text(t, "SMALL_CAPS") {
            Some(TextCase::SmallCaps)
        } else if same_text(t, "SMALL_CAPS_FORCED") {
            Some(TextCase::SmallCapsForced)
        } else if same_text(t, "ORIGINAL") {
            Some(TextCase::Original)
        } else {
            None
        }
    }

    /// Reads a value from a string. Anything but a string is a type
    /// mismatch; a string outside the vocabulary is an unknown variant.
    pub fn decode(j: &Json) -> (r: Result<Self, DecodeError>)
        ensures
            matches_plain(r, Self::decoded(j.deep_view())),
    {
        match j {
            Json::Text(t) => match Self::from_token(t.as_str()) {
                Some(x) => Ok(x),
                None => Err(DecodeError::unknown(t.as_str())),
            },
            _ => Err(DecodeError::mismatch()),
        }
    }

    /// Decodes the field `name` of a record; where the record has no such
    /// field, the result is the default.
    pub fn or_default(m: &Vec<Member>, name: &str) -> (r: Result<TextCase, DecodeError>)
        ensures
            matches_plain(
                r,
                defaulted(
                    members_of(m@),
                    name@,
                    |v: JsonValue| Self::decoded(v),
                    TextCase::Original,
                ),
            ),
    {
        match find(m, name) {
            Some(j) => match Self::decode(j) {
                Ok(x) => Ok(x),
                Err(e) => Err(e.under_field(name)),
            },
            None => Ok(Self::default()),
        }
    }
}

/// How a layer blends with what lies below it.
#[derive(Clone, Copy, Debug, PartialEq, Eq, Structural)]
pub enum BlendMode {
    /// Written `PASS_THROUGH`.
    PassThrough,
    /// Written `NORMAL`.
    Normal,
    /// Written `DARKEN`.
    Darken,
    /// Written `MULTIPLY`.
    Multiply,
    /// Written `LINEAR_BURN`.
    LinearBurn,
    /// Written `COLOR_BURN`.
    ColorBurn,
    /// Written `LIGHTEN`.
    Lighten,
    /// Written `SCREEN`.
    Screen,
    /// Written `LINEAR_DODGE`.
    LinearDodge,
    /// Written `COLOR_DODGE`.
    ColorDodge,
    /// Written `OVERLAY`.
    Overlay,
    /// Written `SOFT_LIGHT`.
    SoftLight,
    /// Written `HARD_LIGHT`.
    HardLight,
    /// Written `DIFFERENCE`.
    Difference,
    /// Written `EXCLUSION`.
    Exclusion,
    /// Written `HUE`.
    Hue,
    /// Written `SATURATION`.
    Saturation,
    /// Written `COLOR`.
    Color,
    /// Written `LUMINOSITY`.
    Luminosity,
}

impl BlendMode {
    /// The value that a token stands for, if it is one of the vocabulary.
    pub open spec fn of_token(t: Seq<char>) -> Option<Self> {
        if t == "PASS_THROUGH"@ {
            Some(BlendMode::PassThrough)
        } else if t == "NORMAL"@ {
            Some(BlendMode::Normal)
        } else if t == "DARKEN"@ {
            Some(BlendMode::Darken)
        } else if t == "MULTIPLY"@ {
            Some(BlendMode::Multiply)
        } else if t == "LINEAR_BURN"@ {
            Some(BlendMode::LinearBurn)
        } else if t == "COLOR_BURN"@ {
            Some(BlendMode::ColorBurn)
        } else if t == "LIGHTEN"@ {
            Some(BlendMode::Lighten)
        } else if t == "SCREEN"@ {
            Some(BlendMode::Screen)
        } else if t == "LINEAR_DODGE"@ {
            Some(BlendMode::LinearDodge)
        } else if t == "COLOR_DODGE"@ {
            Some(BlendMode::ColorDodge)
        } else if t == "OVERLAY"@ {
            Some(BlendMode::Overlay)
        } else if t == "SOFT_LIGHT"@ {
            Some(BlendMode::SoftLight)
        } else if t == "HARD_LIGHT"@ {
            Some(BlendMode::HardLight)
        } else if t == "DIFFERENCE"@ {
            Some(BlendMode::Difference)
        } else if t == "EXCLUSION"@ {
            Some(BlendMode::Exclusion)
        } else if t == "HUE"@ {
            Some(BlendMode::Hue)
        } else if t == "SATURATION"@ {
            Some(BlendMode::Saturation)
        } else if t == "COLOR"@ {
            Some(BlendMode::Color)
        } else if t == "LUMINOSITY"@ {
            Some(BlendMode::Luminosity)
        } else {
            None
        }
    }

    /// The value read from a string that holds one of the tokens.
    pub open spec fn decoded(v: JsonValue) -> Result<Self, Failure> {
        token_of(v, |t: Seq<char>| Self::of_token(t))
    }

    /// Maps a token to its value; tokens are matched letter for letter.
    pub fn from_token(t: &str) -> (r: Option<Self>)
        ensures
            r == Self::of_token(t@),
    {
        if same_text(t, "PASS_THROUGH") {
            Some(BlendMode::PassThrough)
        } else if same_text(t, "NORMAL") {
            Some(BlendMode::Normal)
        } else if same_text(t, "DARKEN") {
            Some(BlendMode::Darken)
        } else if same_text(t, "MULTIPLY") {
            Some(BlendMode::Multiply)
        } else if same_text(t, "LINEAR_BURN") {
            Some(BlendMode::LinearBurn)
        } else if same_text(t, "COLOR_BURN") {
            Some(BlendMode::ColorBurn)
        } else if same_text(t, "LIGHTEN") {
            Some(BlendMode::Lighten)
        } else if same_text(t, "SCREEN") {
            Some(BlendMode::Screen)
        } else if same_text(t, "LINEAR_DODGE") {
            Some(BlendMode::LinearDodge)
        } else if same_text(t, "COLOR_DODGE") {
            Some(BlendMode::ColorDodge)
        } else if same_text(t, "OVERLAY") {
            Some(BlendMode::Overlay)
        } else if same_text(t, "SOFT_LIGHT") {
            Some(BlendMode::SoftLight)
        } else if same_text(t, "HARD_LIGHT") {
            Some(BlendMode::HardLight)
        } else if same_text(t, "DIFFERENCE") {
            Some(BlendMode::Difference)
        } else if same_text(t, "EXCLUSION") {
            Some(BlendMode::Exclusion)
        } else if same_text(t, "HUE") {
            Some(BlendMode::Hue)
        } else if same_text(t, "SATURATION") {
            Some(BlendMode::Saturation)
        } else if same_text(t, "COLOR") {
            Some(BlendMode::Color)
        } else if same_text(t, "LUMINOSITY") {
            Some(BlendMode::Luminosity)
        } else {
            None
        }
    }

    /// Reads a value from a string. Anything but a string is a type
    /// mismatch; a string outside the vocabulary is an unknown variant.
    pub fn decode(j: &Json) -> (r: Result<Self, DecodeError>)
        ensures
            matches_plain(r, Self::decoded(j.deep_view())),
    {
        match j {
            Json::Text(t) => match Self::from_token(t.as_str()) {
                Some(x) => Ok(x),
                None => Err(DecodeError::unknown(t.as_str())),
            },
            _ => Err(DecodeError::mismatch()),
        }
    }

    /// Decodes the field `name` of a record, which must be there.
    pub fn required(m: &Vec<Member>, name: &str) -> (r: Result<BlendMode, DecodeError>)
        ensures
            matches_plain(r, required(members_of(m@), name@, |v: JsonValue| Self::decoded(v))),
    {
        match find(m, name) {
            Some(j) => match Self::decode(j) {
                Ok(x) => Ok(x),
                Err(e) => Err(e.under_field(name)),
            },
            None => Err(DecodeError::missing(name)),
        }
    }
}

/// How an image fills its box.
#[derive(Clone, Copy, Debug, PartialEq, Eq, Structural)]
pub enum ScaleMode {
    /// Written `FILL`.
    Fill,
    /// Written `FIT`.
    Fit,
    /// Written `TILE`.
    Tile,
    /// Written `STRETCH`.
    Stretch,
}

impl ScaleMode {
    /// The value that a token stands for, if it is one of the vocabulary.
    pub open spec fn of_token(t: Seq<char>) -> Option<Self> {
        if t == "FILL"@ {
            Some(ScaleMode::Fill)
        } else if t == "FIT"@ {
            Some(ScaleMode::Fit)
        } else if t == "TILE"@ {
            Some(ScaleMode::Tile)
        } else if t == "STRETCH"@ {
            Some(ScaleMode::Stretch)
        } else {
            None
        }
    }

    /// The value read from a string that holds one of the tokens.
    pub open spec fn decoded(v: JsonValue) -> Result<Self, Failure> {
        token_of(v, |t: Seq<char>| Self::of_token(t))
    }

    /// Maps a token to its value; tokens are matched letter for letter.
    pub fn from_token(t: &str) -> (r: Option<Self>)
        ensures
            r == Self::of_token(t@),
    {
        if same_text(t, "FILL") {
            Some(ScaleMode::Fill)
        } else if same_text(t, "FIT") {
            Some(ScaleMode::Fit)
        } else if same_text(t, "TILE") {
            Some(ScaleMode::Tile)
        } else if same_text(t, "STRETCH") {
            Some(ScaleMode::Stretch)
        } else {
            None
        }
    }

    /// Reads a value from a string. Anything but a string is a type
    /// mismatch; a string outside the vocabulary is an unknown variant.
    pub fn decode(j: &Json) -> (r: Result<Self, DecodeError>)
        ensures
            matches_plain(r, Self::decoded(j.deep_view())),
    {
        match j {
            Json::Text(t) => match Self::from_token(t.as_str()) {
                Some(x) => Ok(x),
                None => Err(DecodeError::unknown(t.as_str())),
            },
            _ => Err(DecodeError::mismatch()),
        }
    }

    /// Decodes the field `name` of a record, which must be there.
    pub fn required(m: &Vec<Member>, name: &str) -> (r: Result<ScaleMode, DecodeError>)
        ensures
            matches_plain(r, required(members_of(m@), name@, |v: JsonValue| Self::decoded(v))),
    {
        match find(m, name) {
            Some(j) => match Self::decode(j) {
                Ok(x) => Ok(x),
                Err(e) => Err(e.under_field(name)),
            },
            None => Err(DecodeError::missing(name)),
        }
    }
}

/// Where a stroke lies relative to the outline.
#[derive(Clone, Copy, Debug, PartialEq, Eq, Structural)]
pub enum StrokeAlign {
    /// Written `INSIDE`.
    Inside,
    /// Written `OUTSIDE`.
    Outside,
    /// Written `CENTER`.
    Center,
}

impl StrokeAlign {
    /// The value that a token stands for, if it is one of the vocabulary.
    pub open spec fn of_token(t: Seq<char>) -> Option<Self> {
        if t == "INSIDE"@ {
            Some(StrokeAlign::Inside)
        } else if t == "OUTSIDE"@ {
            Some(StrokeAlign::Outside)
        } else if t == "CENTER"@ {
            Some(StrokeAlign::Center)
        } else {
            None
        }
    }

    /// The value read from a string that holds one of the tokens.
    pub open spec fn decoded(v: JsonValue) -> Result<Self, Failure> {
        token_of(v, |t: Seq<char>| Self::of_token(t))
    }

    /// Maps a token to its value; tokens are matched letter for letter.
    pub fn from_token(t: &str) -> (r: Option<Self>)
        ensures
            r == Self::of_token(t@),
    {
        if same_text(t, "INSIDE") {
            Some(StrokeAlign::Inside)
        } else if same_text(t, "OUTSIDE") {
            Some(StrokeAlign::Outside)
        } else if same_text(t, "CENTER") {
            Some(StrokeAlign::Center)
        } else {
            None
        }
    }

    /// Reads a value from a string. Anything but a string is a type
    /// mismatch; a string outside the vocabulary is an unknown variant.
    pub fn decode(j: &Json) -> (r: Result<Self, DecodeError>)
        ensures
            matches_plain(r, Self::decoded(j.deep_view())),
    {
        match j {
            Json::Text(t) => match Self::from_token(t.as_str()) {
                Some(x) => Ok(x),
                None => Err(DecodeError::unknown(t.as_str())),
            },
            _ => Err(DecodeError::mismatch()),
        }
    }
}

/// How a node follows its parent vertically.
#[derive(Clone, Copy, Debug, PartialEq, Eq, Structural)]
pub enum VerticalLayoutConstraint {
    /// Written `TOP`.
    Top,
    /// Written `BOTTOM`.
    Bottom,
    /// Written `CENTER`.
    Center,
    /// Written `TOP_BOTTOM`.
    TopBottom,
    /// Written `SCALE`.
    Scale,
}

impl VerticalLayoutConstraint {
    /// The value that a token stands for, if it is one of the vocabulary.
    pub open spec fn of_token(t: Seq<char>) -> Option<Self> {
        if t == "TOP"@ {
            Some(VerticalLayoutConstraint::Top)
        } else if t == "BOTTOM"@ {
            Some(VerticalLayoutConstraint::Bottom)
        } else if t == "CENTER"@ {
            Some(VerticalLayoutConstraint::Center)
        } else if t == "TOP_BOTTOM"@ {
            Some(VerticalLayoutConstraint::TopBottom)
        } else if t == "SCALE"@ {
            Some(VerticalLayoutConstraint::Scale)
        } else {
            None
        }
    }

    /// The value read from a string that holds one of the tokens.
    pub open spec fn decoded(v: JsonValue) -> Result<Self, Failure> {
        token_of(v, |t: Seq<char>| Self::of_token(t))
    }

    /// Maps a token to its value; tokens are matched letter for letter.
    pub fn from_token(t: &str) -> (r: Option<Self>)
        ensures
            r == Self::of_token(t@),
    {
        if same_text(t, "TOP") {
            Some(VerticalLayoutConstraint::Top)
        } else if same_text(t, "BOTTOM") {
            Some(VerticalLayoutConstraint::Bottom)
        } else if same_text(t, "CENTER") {
            Some(VerticalLayoutConstraint::Center)
        } else if same_text(t, "TOP_BOTTOM") {
            Some(VerticalLayoutConstraint::TopBottom)
        } else if same_text(t, "SCALE") {
            Some(VerticalLayoutConstraint::Scale)
        } else {
            None
        }
    }

    /// Reads a value from a string. Anything but a string is a type
    /// mismatch; a string outside the vocabulary is an unknown variant.
    pub fn decode(j: &Json) -> (r: Result<Self, DecodeError>)
        ensures
            matches_plain(r, Self::decoded(j.deep_view())),
    {
        match j {
            Json::Text(t) => match Self::from_token(t.as_str()) {
                Some(x) => Ok(x),
                None => Err(DecodeError::unknown(t.as_str())),
            },
            _ => Err(DecodeError::mismatch()),
        }
    }

    /// Decodes the field `name` of a record, which must be there.
    pub fn required(m: &Vec<Member>, name: &str) -> (r: Result<
        VerticalLayoutConstraint,
        DecodeError,
    >)
        ensures
            matches_plain(r, required(members_of(m@), name@, |v: JsonValue| Self::decoded(v))),
    {
        match find(m, name) {
            Some(j) => match Self::decode(j) {
                Ok(x) => Ok(x),
                Err(e) => Err(e.under_field(name)),
            },
            None => Err(DecodeError::missing(name)),
        }
    }
}

/// How a node follows its parent horizontally.
#[derive(Clone, Copy, Debug, PartialEq, Eq, Structural)]
pub enum HorizontalLayoutConstraint {
    /// Written `LEFT`.
    Left,
    /// Written `RIGHT`.
    Right,
    /// Written `CENTER`.
    Center,
    /// Written `LEFT_RIGHT`.
    LeftRight,
    /// Written `SCALE`.
    Scale,
}

impl HorizontalLayoutConstraint {
    /// The value that a token stands for, if it is one of the vocabulary.
    pub open spec fn of_token(t: Seq<char>) -> Option<Self> {
        if t == "LEFT"@ {
            Some(HorizontalLayoutConstraint::Left)
        } else if t == "RIGHT"@ {
            Some(HorizontalLayoutConstraint::Right)
        } else if t == "CENTER"@ {
            Some(HorizontalLayoutConstraint::Center)
        } else if t == "LEFT_RIGHT"@ {
            Some(HorizontalLayoutConstraint::LeftRight)
        } else if t == "SCALE"@ {
            Some(HorizontalLayoutConstraint::Scale)
        } else {
            None
        }
    }

    /// The value read from a string that holds one of the tokens.
    pub open spec fn decoded(v: JsonValue) -> Result<Self, Failure> {
        token_of(v, |t: Seq<char>| Self::of_token(t))
    }

    /// Maps a token to its value; tokens are matched letter for letter.
    pub fn from_token(t: &str) -> (r: Option<Self>)
        ensures
            r == Self::of_token(t@),
    {
        if same_text(t, "LEFT") {
            Some(HorizontalLayoutConstraint::Left)
        } else if same_text(t, "RIGHT") {
            Some(HorizontalLayoutConstraint::Right)
        } else if same_text(t, "CENTER") {
            Some(HorizontalLayoutConstraint::Center)
        } else if same_text(t, "LEFT_RIGHT") {
            Some(HorizontalLayoutConstraint::LeftRight)
        } else if same_text(t, "SCALE") {
            Some(HorizontalLayoutConstraint::Scale)
        } else {
            None
        }
    }

    /// Reads a value from a string. Anything but a string is a type
    /// mismatch; a string outside the vocabulary is an unknown variant.
    pub fn decode(j: &Json) -> (r: Result<Self, DecodeError>)
        ensures
            matches_plain(r, Self::decoded(j.deep_view())),
    {
        match j {
            Json::Text(t) => match Self::from_token(t.as_str()) {
                Some(x) => Ok(x),
                None => Err(DecodeError::unknown(t.as_str())),
            },
            _ => Err(DecodeError::mismatch()),
        }
    }

    /// Decodes the field `name` of a record, which must be there.
    pub fn required(m: &Vec<Member>, name: &str) -> (r: Result<
        HorizontalLayoutConstraint,
        DecodeError,
    >)
        ensures
            matches_plain(r, required(members_of(m@), name@, |v: JsonValue| Self::decoded(v))),
    {
        match find(m, name) {
            Some(j) => match Self::decode(j) {
                Ok(x) => Ok(x),
                Err(e) => Err(e.under_field(name)),
            },
            None => Err(DecodeError::missing(name)),
        }
    }
}

/// Alignment of a layout grid or of a child within an automatic layout.
#[derive(Clone, Copy, Debug, PartialEq, Eq, Structural)]
pub enum LayoutAlign {
    /// Written `INHERIT`.
    Inherit,
    /// Written `STRETCH`.
    Stretch,
    /// Written `MIN`.
    Min,
    /// Written `CENTER`.
    Center,
    /// Written `MAX`.
    Max,
}

impl LayoutAlign {
    /// The value that a token stands for, if it is one of the vocabulary.
    pub open spec fn of_token(t: Seq<char>) -> Option<Self> {
        if t == "INHERIT"@ {
            Some(LayoutAlign::Inherit)
        } else if t == "STRETCH"@ {
            Some(LayoutAlign::Stretch)
        } else if t == "MIN"@ {
            Some(LayoutAlign::Min)
        } else if t == "CENTER"@ {
            Some(LayoutAlign::Center)
        } else if t == "MAX"@ {
            Some(LayoutAlign::Max)
        } else {
            None
        }
    }

    /// The value read from a string that holds one of the tokens.
    pub open spec fn decoded(v: JsonValue) -> Result<Self, Failure> {
        token_of(v, |t: Seq<char>| Self::of_token(t))
    }

    /// Maps a token to its value; tokens are matched letter for letter.
    pub fn from_token(t: &str) -> (r: Option<Self>)
        ensures
            r == Self::of_token(t@),
    {
        if same_text(t, "INHERIT") {
            Some(LayoutAlign::Inherit)
        } else if same_text(t, "STRETCH") {
            Some(LayoutAlign::Stretch)
        } else if same_text(t, "MIN") {
            Some(LayoutAlign::Min)
        } else if same_text(t, "CENTER") {
            Some(LayoutAlign::Center)
        } else if same_text(t, "MAX") {
            Some(LayoutAlign::Max)
        } else {
            None
        }
    }

    /// Reads a value from a string. Anything but a string is a type
    /// mismatch; a string outside the vocabulary is an unknown variant.
    pub fn decode(j: &Json) -> (r: Result<Self, DecodeError>)
        ensures
            matches_plain(r, Self::decoded(j.deep_view())),
    {
        match j {
            Json::Text(t) => match Self::from_token(t.as_str()) {
                Some(x) => Ok(x),
                None => Err(DecodeError::unknown(t.as_str())),
            },
            _ => Err(DecodeError::mismatch()),
        }
    }

    /// Decodes the field `name` of a record, which must be there.
    pub fn required(m: &Vec<Member>, name: &str) -> (r: Result<LayoutAlign, DecodeError>)
        ensures
            matches_plain(r, required(members_of(m@), name@, |v: JsonValue| Self::decoded(v))),
    {
        match find(m, name) {
            Some(j) => match Self::decode(j) {
                Ok(x) => Ok(x),
                Err(e) => Err(e.under_field(name)),
            },
            None => Err(DecodeError::missing(name)),
        }
    }
}

/// Direction of an automatic layout.
#[derive(Clone, Copy, Debug, PartialEq, Eq, Structural)]
pub enum LayoutMode {
    /// Written `NONE`.
    Off,
    /// Written `HORIZONTAL`.
    Horizontal,
    /// Written `VERTICAL`.
    Vertical,
}

impl LayoutMode {
    /// The value that a token stands for, if it is one of the vocabulary.
    pub open spec fn of_token(t: Seq<char>) -> Option<Self> {
        if t == "NONE"@ {
            Some(LayoutMode::Off)
        } else if t == "HORIZONTAL"@ {
            Some(LayoutMode::Horizontal)
        } else if t == "VERTICAL"@ {
            Some(LayoutMode::Vertical)
        } else {
            None
        }
    }

    /// The value read from a string that holds one of the tokens.
    pub open spec fn decoded(v: JsonValue) -> Result<Self, Failure> {
        token_of(v, |t: Seq<char>| Self::of_token(t))
    }

    /// Maps a token to its value; tokens are matched letter for letter.
    pub fn from_token(t: &str) -> (r: Option<Self>)
        ensures
            r == Self::of_token(t@),
    {
        if same_text(t, "NONE") {
            Some(LayoutMode::Off)
        } else if same_text(t, "HORIZONTAL") {
            Some(LayoutMode::Horizontal)
        } else if same_text(t, "VERTICAL") {
            Some(LayoutMode::Vertical)
        } else {
            None
        }
    }

    /// Reads a value from a string. Anything but a string is a type
    /// mismatch; a string outside the vocabulary is an unknown variant.
    pub fn decode(j: &Json) -> (r: Result<Self, DecodeError>)
        ensures
            matches_plain(r, Self::decoded(j.deep_view())),
    {
        match j {
            Json::Text(t) => match Self::from_token(t.as_str()) {
                Some(x) => Ok(x),
                None => Err(DecodeError::unknown(t.as_str())),
            },
            _ => Err(DecodeError::mismatch()),
        }
    }
}

/// Orientation of a layout grid.
#[derive(Clone, Copy, Debug, PartialEq, Eq, Structural)]
pub enum LayoutGridPattern {
    /// Written `COLUMNS`.
    Columns,
    /// Written `ROWS`.
    Rows,
    /// Written `GRID`.
    Grid,
}

impl LayoutGridPattern {
    /// The value that a token stands for, if it is one of the vocabulary.
    pub open spec fn of_token(t: Seq<char>) -> Option<Self> {
        if t == "COLUMNS"@ {
            Some(LayoutGridPattern::Columns)
        } else if t == "ROWS"@ {
            Some(LayoutGridPattern::Rows)
        } else if t == "GRID"@ {
            Some(LayoutGridPattern::Grid)
        } else {
            None
        }
    }

    /// The value read from a string that holds one of the tokens.
    pub open spec fn decoded(v: JsonValue) -> Result<Self, Failure> {
        token_of(v, |t: Seq<char>| Self::of_token(t))
    }

    /// Maps a token to its value; tokens are matched letter for letter.
    pub fn from_token(t: &str) -> (r: Option<Self>)
        ensures
            r == Self::of_token(t@),
    {
        if same_text(t, "COLUMNS") {
            Some(LayoutGridPattern::Columns)
        } else if same_text(t, "ROWS") {
            Some(LayoutGridPattern::Rows)
        } else if same_text(t, "GRID") {
            Some(LayoutGridPattern::Grid)
        } else {
            None
        }
    }

    /// Reads a value from a string. Anything but a string is a type
    /// mismatch; a string outside the vocabulary is an unknown variant.
    pub fn decode(j: &Json) -> (r: Result<Self, DecodeError>)
        ensures
            matches_plain(r, Self::decoded(j.deep_view())),
    {
        match j {
            Json::Text(t) => match Self::from_token(t.as_str()) {
                Some(x) => Ok(x),
                None => Err(DecodeError::unknown(t.as_str())),
            },
            _ => Err(DecodeError::mismatch()),
        }
    }

    /// Decodes the field `name` of a record, which must be there.
    pub fn required(m: &Vec<Member>, name: &str) -> (r: Result<LayoutGridPattern, DecodeError>)
        ensures
            matches_plain(r, required(members_of(m@), name@, |v: JsonValue| Self::decoded(v))),
    {
        match find(m, name) {
            Some(j) => match Self::decode(j) {
                Ok(x) => Ok(x),
                Err(e) => Err(e.under_field(name)),
            },
            None => Err(DecodeError::missing(name)),
        }
    }
}

/// Easing curve of a transition.
#[derive(Clone, Copy, Debug, PartialEq, Eq, Structural)]
pub enum EasingType {
    /// Written `EASE_IN`.
    EaseIn,
    /// Written `EASE_OUT`.
    EaseOut,
    /// Written `EASE_IN_AND_OUT`.
    EaseInAndOut,
    /// Written `LINEAR`.
    Linear,
}

impl EasingType {
    /// The value that a token stands for, if it is one of the vocabulary.
    pub open spec fn of_token(t: Seq<char>) -> Option<Self> {
        if t == "EASE_IN"@ {
            Some(EasingType::EaseIn)
        } else if t == "EASE_OUT"@ {
            Some(EasingType::EaseOut)
        } else if t == "EASE_IN_AND_OUT"@ {
            Some(EasingType::EaseInAndOut)
        } else if t == "LINEAR"@ {
            Some(EasingType::Linear)
        } else {
            None
        }
    }

    /// The value read from a string that holds one of the tokens.
    pub open spec fn decoded(v: JsonValue) -> Result<Self, Failure> {
        token_of(v, |t: Seq<char>| Self::of_token(t))
    }

    /// Maps a token to its value; tokens are matched letter for letter.
    pub fn from_token(t: &str) -> (r: Option<Self>)
        ensures
            r == Self::of_token(t@),
    {
        if same_text(t, "EASE_IN") {
            Some(EasingType::EaseIn)
        } else if same_text(t, "EASE_OUT") {
            Some(EasingType::EaseOut)
        } else if same_text(t, "EASE_IN_AND_OUT") {
            Some(EasingType::EaseInAndOut)
        } else if same_text(t, "LINEAR") {
            Some(EasingType::Linear)
        } else {
            None
        }
    }

    /// Reads a value from a string. Anything but a string is a type
    /// mismatch; a string outside the vocabulary is an unknown variant.
    pub fn decode(j: &Json) -> (r: Result<Self, DecodeError>)
        ensures
            matches_plain(r, Self::decoded(j.deep_view())),
    {
        match j {
            Json::Text(t) => match Self::from_token(t.as_str()) {
                Some(x) => Ok(x),
                None => Err(DecodeError::unknown(t.as_str())),
            },
            _ => Err(DecodeError::mismatch()),
        }
    }
}

/// Whether an axis of an automatic layout has a fixed or a fitted size.
#[derive(Clone, Copy, Debug, PartialEq, Eq, Structural)]
pub enum SizingMode {
    /// Written `FIXED`.
    Fixed,
    /// Written `AUTO`.
    Auto,
}

impl SizingMode {
    /// The value that a token stands for, if it is one of the vocabulary.
    pub open spec fn of_token(t: Seq<char>) -> Option<Self> {
        if t == "FIXED"@ {
            Some(SizingMode::Fixed)
        } else if t == "AUTO"@ {
            Some(SizingMode::Auto)
        } else {
            None
        }
    }

    /// The value read from a string that holds one of the tokens.
    pub open spec fn decoded(v: JsonValue) -> Result<Self, Failure> {
        token_of(v, |t: Seq<char>| Self::of_token(t))
    }

    /// Maps a token to its value; tokens are matched letter for letter.
    pub fn from_token(t: &str) -> (r: Option<Self>)
        ensures
            r == Self::of_token(t@),
    {
        if same_text(t, "FIXED") {
            Some(SizingMode::Fixed)
        } else if same_text(t, "AUTO") {
            Some(SizingMode::Auto)
        } else {
            None
        }
    }

    /// Reads a value from a string. Anything but a string is a type
    /// mismatch; a string outside the vocabulary is an unknown variant.
    pub fn decode(j: &Json) -> (r: Result<Self, DecodeError>)
        ensures
            matches_plain(r, Self::decoded(j.deep_view())),
    {
        match j {
            Json::Text(t) => match Self::from_token(t.as_str()) {
                Some(x) => Ok(x),
                None => Err(DecodeError::unknown(t.as_str())),
            },
            _ => Err(DecodeError::mismatch()),
        }
    }
}

/// Alignment of children along an axis of an automatic layout.
#[derive(Clone, Copy, Debug, PartialEq, Eq, Structural)]
pub enum AlignItems {
    /// Written `MIN`.
    Min,
    /// Written `CENTER`.
    Center,
    /// Written `MAX`.
    Max,
    /// Written `SPACE_BETWEEN`.
    SpaceBetween,
}

impl AlignItems {
    /// The value that a token stands for, if it is one of the vocabulary.
    pub open spec fn of_token(t: Seq<char>) -> Option<Self> {
        if t == "MIN"@ {
            Some(AlignItems::Min)
        } else if t == "CENTER"@ {
            Some(AlignItems::Center)
        } else if t == "MAX"@ {
            Some(AlignItems::Max)
        } else if t == "SPACE_BETWEEN"@ {
            Some(AlignItems::SpaceBetween)
        } else {
            None
        }
    }

    /// The value read from a string that holds one of the tokens.
    pub open spec fn decoded(v: JsonValue) -> Result<Self, Failure> {
        token_of(v, |t: Seq<char>| Self::of_token(t))
    }

    /// Maps a token to its value; tokens are matched letter for letter.
    pub fn from_token(t: &str) -> (r: Option<Self>)
        ensures
            r == Self::of_token(t@),
    {
        if same_text(t, "MIN") {
            Some(AlignItems::Min)
        } else if same_text(t, "CENTER") {
            Some(AlignItems::Center)
        } else if same_text(t, "MAX") {
            Some(AlignItems::Max)
        } else if same_text(t, "SPACE_BETWEEN") {
            Some(AlignItems::SpaceBetween)
        } else {
            None
        }
    }

    /// Reads a value from a string. Anything but a string is a type
    /// mismatch; a string outside the vocabulary is an unknown variant.
    pub fn decode(j: &Json) -> (r: Result<Self, DecodeError>)
        ensures
            matches_plain(r, Self::decoded(j.deep_view())),
    {
        match j {
            Json::Text(t) => match Self::from_token(t.as_str()) {
                Some(x) => Ok(x),
                None => Err(DecodeError::unknown(t.as_str())),
            },
            _ => Err(DecodeError::mismatch()),
        }
    }
}

/// The tag of a paint: the value of its field `type`, which selects its shape.
#[derive(Clone, Copy, Debug, PartialEq, Eq, Structural)]
pub enum PaintKind {
    /// Written `SOLID`.
    Solid,
    /// Written `GRADIENT_LINEAR`.
    GradientLinear,
    /// Written `GRADIENT_RADIAL`.
    GradientRadial,
    /// Written `GRADIENT_ANGULAR`.
    GradientAngular,
    /// Written `GRADIENT_DIAMOND`.
    GradientDiamond,
    /// Written `IMAGE`.
    Image,
}

impl PaintKind {
    /// The value that a token stands for, if it is one of the vocabulary.
    pub open spec fn of_token(t: Seq<char>) -> Option<Self> {
        if t == "SOLID"@ {
            Some(PaintKind::Solid)
        } else if t == "GRADIENT_LINEAR"@ {
            Some(PaintKind::GradientLinear)
        } else if t == "GRADIENT_RADIAL"@ {
            Some(PaintKind::GradientRadial)
        } else if t == "GRADIENT_ANGULAR"@ {
            Some(PaintKind::GradientAngular)
        } else if t == "GRADIENT_DIAMOND"@ {
            Some(PaintKind::GradientDiamond)
        } else if t == "IMAGE"@ {
            Some(PaintKind::Image)
        } else {
            None
        }
    }

    /// The value read from a string that holds one of the tokens.
    pub open spec fn decoded(v: JsonValue) -> Result<Self, Failure> {
        token_of(v, |t: Seq<char>| Self::of_token(t))
    }

    /// Maps a token to its value; tokens are matched letter for letter.
    pub fn from_token(t: &str) -> (r: Option<Self>)
        ensures
            r == Self::of_token(t@),
    {
        if same_text(t, "SOLID") {
            Some(PaintKind::Solid)
        } else if same_text(t, "GRADIENT_LINEAR") {
            Some(PaintKind::GradientLinear)
        } else if same_text(t, "GRADIENT_RADIAL") {
            Some(PaintKind::GradientRadial)
        } else if same_text(t, "GRADIENT_ANGULAR") {
            Some(PaintKind::GradientAngular)
        } else if same_text(t, "GRADIENT_DIAMOND") {
            Some(PaintKind::GradientDiamond)
        } else if same_text(t, "IMAGE") {
            Some(PaintKind::Image)
        } else {
            None
        }
    }

    /// Reads a value from a string. Anything but a string is a type
    /// mismatch; a string outside the vocabulary is an unknown variant.
    pub fn decode(j: &Json) -> (r: Result<Self, DecodeError>)
        ensures
            matches_plain(r, Self::decoded(j.deep_view())),
    {
        match j {
            Json::Text(t) => match Self::from_token(t.as_str()) {
                Some(x) => Ok(x),
                None => Err(DecodeError::unknown(t.as_str())),
            },
            _ => Err(DecodeError::mismatch()),
        }
    }

    /// Decodes the field `name` of a record, which must be there.
    pub fn required(m: &Vec<Member>, name: &str) -> (r: Result<PaintKind, DecodeError>)
        ensures
            matches_plain(r, required(members_of(m@), name@, |v: JsonValue| Self::decoded(v))),
    {
        match find(m, name) {
            Some(j) => match Self::decode(j) {
                Ok(x) => Ok(x),
                Err(e) => Err(e.under_field(name)),
            },
            None => Err(DecodeError::missing(name)),
        }
    }
}

/// The tag of a node: the value of its field `type`, which selects its shape.
/// The vocabulary is distinct from that of the paints.
#[derive(Clone, Copy, Debug, PartialEq, Eq, Structural)]
pub enum NodeKind {
    /// Written `DOCUMENT`.
    Document,
    /// Written `CANVAS`.
    Canvas,
    /// Written `FRAME`.
    Frame,
    /// Written `GROUP`.
    Group,
    /// Written `VECTOR`.
    Vector,
    /// Written `BOOLEAN_OPERATION`.
    BooleanOperation,
    /// Written `STAR`.
    Star,
    /// Written `LINE`.
    Line,
    /// Written `ELLIPSE`.
    Ellipse,
    /// Written `REGULAR_POLYGON`.
    RegularPolygon,
    /// Written `RECTANGLE`.
    Rectangle,
    /// Written `TEXT`.
    Text,
    /// Written `SLICE`.
    Slice,
    /// Written `COMPONENT`.
    Component,
    /// Written `COMPONENT_SET`.
    ComponentSet,
    /// Written `INSTANCE`.
    Instance,
}

impl NodeKind {
    /// The value that a token stands for, if it is one of the vocabulary.
    pub open spec fn of_token(t: Seq<char>) -> Option<Self> {
        if t == "DOCUMENT"@ {
            Some(NodeKind::Document)
        } else if t == "CANVAS"@ {
            Some(NodeKind::Canvas)
        } else if t == "FRAME"@ {
            Some(NodeKind::Frame)
        } else if t == "GROUP"@ {
            Some(NodeKind::Group)
        } else if t == "VECTOR"@ {
            Some(NodeKind::Vector)
        } else if t == "BOOLEAN_OPERATION"@ {
            Some(NodeKind::BooleanOperation)
        } else if t == "STAR"@ {
            Some(NodeKind::Star)
        } else if t == "LINE"@ {
            Some(NodeKind::Line)
        } else if t == "ELLIPSE"@ {
            Some(NodeKind::Ellipse)
        } else if t == "REGULAR_POLYGON"@ {
            Some(NodeKind::RegularPolygon)
        } else if t == "RECTANGLE"@ {
            Some(NodeKind::Rectangle)
        } else if t == "TEXT"@ {
            Some(NodeKind::Text)
        } else if t == "SLICE"@ {
            Some(NodeKind::Slice)
        } else if t == "COMPONENT"@ {
            Some(NodeKind::Component)
        } else if t == "COMPONENT_SET"@ {
            Some(NodeKind::ComponentSet)
        } else if t == "INSTANCE"@ {
            Some(NodeKind::Instance)
        } else {
            None
        }
    }

    /// The value read from a string that holds one of the tokens.
    pub open spec fn decoded(v: JsonValue) -> Result<Self, Failure> {
        token_of(v, |t: Seq<char>| Self::of_token(t))
    }

    /// Maps a token to its value; tokens are matched letter for letter.
    pub fn from_token(t: &str) -> (r: Option<Self>)
        ensures
            r == Self::of_token(t@),
    {
        if same_text(t, "DOCUMENT") {
            Some(NodeKind::Document)
        } else if same_text(t, "CANVAS") {
            Some(NodeKind::Canvas)
        } else if same_text(t, "FRAME") {
            Some(NodeKind::Frame)
        } else if same_text(t, "GROUP") {
            Some(NodeKind::Group)
        } else if same_text(t, "VECTOR") {
            Some(NodeKind::Vector)
        } else if same_text(t, "BOOLEAN_OPERATION") {
            Some(NodeKind::BooleanOperation)
        } else if same_text(t, "STAR") {
            Some(NodeKind::Star)
        } else if same_text(t, "LINE") {
            Some(NodeKind::Line)
        } else if same_text(t, "ELLIPSE") {
            Some(NodeKind::Ellipse)
        } else if same_text(t, "REGULAR_POLYGON") {
            Some(NodeKind::RegularPolygon)
        } else if same_text(t, "RECTANGLE") {
            Some(NodeKind::Rectangle)
        } else if same_text(t, "TEXT") {
            Some(NodeKind::Text)
        } else if same_text(t, "SLICE") {
            Some(NodeKind::Slice)
        } else if same_text(t, "COMPONENT") {
            Some(NodeKind::Component)
        } else if same_text(t, "COMPONENT_SET") {
            Some(NodeKind::ComponentSet)
        } else if same_text(t, "INSTANCE") {
            Some(NodeKind::Instance)
        } else {
            None
        }
    }

    /// Reads a value from a string. Anything but a string is a type
    /// mismatch; a string outside the vocabulary is an unknown variant.
    pub fn decode(j: &Json) -> (r: Result<Self, DecodeError>)
        ensures
            matches_plain(r, Self::decoded(j.deep_view())),
    {
        match j {
            Json::Text(t) => match Self::from_token(t.as_str()) {
                Some(x) => Ok(x),
                None => Err(DecodeError::unknown(t.as_str())),
            },
            _ => Err(DecodeError::mismatch()),
        }
    }

    /// Decodes the field `name` of a record, which must be there.
    pub fn required(m: &Vec<Member>, name: &str) -> (r: Result<NodeKind, DecodeError>)
        ensures
            matches_plain(r, required(members_of(m@), name@, |v: JsonValue| Self::decoded(v))),
    {
        match find(m, name) {
            Some(j) => match Self::decode(j) {
                Ok(x) => Ok(x),
                Err(e) => Err(e.under_field(name)),
            },
            None => Err(DecodeError::missing(name)),
        }
    }
}

} // verus!
