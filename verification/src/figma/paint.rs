//! Paints: one fill or stroke layer, in one of six shapes that the tag
//! `type` selects.

use crate::error::{agrees, DecodeError, Failure, Place};
use crate::figma::enums::{BlendMode, PaintKind, ScaleMode};
use crate::figma::primitives::{
    decode_transform, rows_of, transform_of, Color, ColorModel, ColorStop, ColorStopModel,
    Degrees, Transform, Vector,
};
use crate::json::{find, lookup, members_of, Json, JsonValue, Member, Number};
use crate::wire::{
    each, flag_of, lemma_each_in_order, number_of, optional, optional_flag, optional_number,
    optional_text, read_record, required, text_of,
};
use vstd::prelude::*;

verus! {

/// One fill or stroke layer.
///
/// `visible` and `opacity` are kept as they came: where the input does not
/// give them they are `None`, which is neither `false` nor zero.
///
/// An image may name a static image, an animated one, both or neither; the
/// two references are kept side by side and none is preferred.
#[derive(Debug, PartialEq, Eq)]
pub enum Paint {
    Solid { visible: Option<bool>, opacity: Option<Number>, color: Color },
    GradientLinear {
        visible: Option<bool>,
        opacity: Option<Number>,
        blend_mode: BlendMode,
        gradient_handle_positions: Vec<Vector>,
        gradient_stops: Vec<ColorStop>,
    },
    GradientRadial {
        visible: Option<bool>,
        opacity: Option<Number>,
        blend_mode: BlendMode,
        gradient_handle_positions: Vec<Vector>,
        gradient_stops: Vec<ColorStop>,
    },
    GradientAngular {
        visible: Option<bool>,
        opacity: Option<Number>,
        blend_mode: BlendMode,
        gradient_handle_positions: Vec<Vector>,
        gradient_stops: Vec<ColorStop>,
    },
    GradientDiamond {
        visible: Option<bool>,
        opacity: Option<Number>,
        blend_mode: BlendMode,
        gradient_handle_positions: Vec<Vector>,
        gradient_stops: Vec<ColorStop>,
    },
    Image {
        visible: Option<bool>,
        opacity: Option<Number>,
        blend_mode: BlendMode,
        scale_mode: ScaleMode,
        image_transform: Option<Transform>,
        scaling_factor: Option<Number>,
        rotation: Option<Degrees>,
        image_ref: Option<String>,
        gif_ref: Option<String>,
    },
}

/// The mathematical value of a [`Paint`].
pub enum PaintModel {
    Solid { visible: Option<bool>, opacity: Option<Seq<char>>, color: ColorModel },
    GradientLinear {
        visible: Option<bool>,
        opacity: Option<Seq<char>>,
        blend_mode: BlendMode,
        gradient_handle_positions: Seq<Vector>,
        gradient_stops: Seq<ColorStopModel>,
    },
    GradientRadial {
        visible: Option<bool>,
        opacity: Option<Seq<char>>,
        blend_mode: BlendMode,
        gradient_handle_positions: Seq<Vector>,
        gradient_stops: Seq<ColorStopModel>,
    },
    GradientAngular {
        visible: Option<bool>,
        opacity: Option<Seq<char>>,
        blend_mode: BlendMode,
        gradient_handle_positions: Seq<Vector>,
        gradient_stops: Seq<ColorStopModel>,
    },
    GradientDiamond {
        visible: Option<bool>,
        opacity: Option<Seq<char>>,
        blend_mode: BlendMode,
        gradient_handle_positions: Seq<Vector>,
        gradient_stops: Seq<ColorStopModel>,
    },
    Image {
        visible: Option<bool>,
        opacity: Option<Seq<char>>,
        blend_mode: BlendMode,
        scale_mode: ScaleMode,
        image_transform: Option<Seq<Seq<i32>>>,
        scaling_factor: Option<Seq<char>>,
        rotation: Option<Seq<char>>,
        image_ref: Option<Seq<char>>,
        gif_ref: Option<Seq<char>>,
    },
}

/// The rows of a transform that may be unset.
pub open spec fn optional_rows(t: Option<Transform>) -> Option<Seq<Seq<i32>>> {
    match t {
        Some(t) => Some(rows_of(t)),
        None => None,
    }
}

impl DeepView for Paint {
    type V = PaintModel;

    open spec fn deep_view(&self) -> PaintModel {
        match self {
            Paint::Solid { visible, opacity, color } => PaintModel::Solid {
                visible: *visible,
                opacity: opacity.deep_view(),
                color: color.deep_view(),
            },
            Paint::GradientLinear {
                visible,
                opacity,
                blend_mode,
                gradient_handle_positions,
                gradient_stops,
            } => PaintModel::GradientLinear {
                visible: *visible,
                opacity: opacity.deep_view(),
                blend_mode: *blend_mode,
                gradient_handle_positions: gradient_handle_positions@,
                gradient_stops: gradient_stops.deep_view(),
            },
            Paint::GradientRadial {
                visible,
                opacity,
                blend_mode,
                gradient_handle_positions,
                gradient_stops,
            } => PaintModel::GradientRadial {
                visible: *visible,
                opacity: opacity.deep_view(),
                blend_mode: *blend_mode,
                gradient_handle_positions: gradient_handle_positions@,
                gradient_stops: gradient_stops.deep_view(),
            },
            Paint::GradientAngular {
                visible,
                opacity,
                blend_mode,
                gradient_handle_positions,
                gradient_stops,
            } => PaintModel::GradientAngular {
                visible: *visible,
                opacity: opacity.deep_view(),
                blend_mode: *blend_mode,
                gradient_handle_positions: gradient_handle_positions@,
                gradient_stops: gradient_stops.deep_view(),
            },
            Paint::GradientDiamond {
                visible,
                opacity,
                blend_mode,
                gradient_handle_positions,
                gradient_stops,
            } => PaintModel::GradientDiamond {
                visible: *visible,
                opacity: opacity.deep_view(),
                blend_mode: *blend_mode,
                gradient_handle_positions: gradient_handle_positions@,
                gradient_stops: gradient_stops.deep_view(),
            },
            Paint::Image {
                visible,
                opacity,
                blend_mode,
                scale_mode,
                image_transform,
                scaling_factor,
                rotation,
                image_ref,
                gif_ref,
            } => PaintModel::Image {
                visible: *visible,
                opacity: opacity.deep_view(),
                blend_mode: *blend_mode,
                scale_mode: *scale_mode,
                image_transform: optional_rows(*image_transform),
                scaling_factor: scaling_factor.deep_view(),
                rotation: rotation.deep_view(),
                image_ref: image_ref.deep_view(),
                gif_ref: gif_ref.deep_view(),
            },
        }
    }
}

impl PaintModel {
    /// The gradient of the given kind; `kind` is one of the four gradients.
    pub open spec fn gradient(
        kind: PaintKind,
        visible: Option<bool>,
        opacity: Option<Seq<char>>,
        blend_mode: BlendMode,
        gradient_handle_positions: Seq<Vector>,
        gradient_stops: Seq<ColorStopModel>,
    ) -> PaintModel {
        match kind {
            PaintKind::GradientLinear => PaintModel::GradientLinear {
                visible,
                opacity,
                blend_mode,
                gradient_handle_positions,
                gradient_stops,
            },
            PaintKind::GradientRadial => PaintModel::GradientRadial {
                visible,
                opacity,
                blend_mode,
                gradient_handle_positions,
                gradient_stops,
            },
            PaintKind::GradientAngular => PaintModel::GradientAngular {
                visible,
                opacity,
                blend_mode,
                gradient_handle_positions,
                gradient_stops,
            },
            _ => PaintModel::GradientDiamond {
                visible,
                opacity,
                blend_mode,
                gradient_handle_positions,
                gradient_stops,
            },
        }
    }
}

impl PaintModel {
    /// Whether the paint is one of the four gradients.
    pub open spec fn is_gradient(self) -> bool {
        self is GradientLinear || self is GradientRadial || self is GradientAngular
            || self is GradientDiamond
    }

    /// The stops of a gradient; another paint has none.
    pub open spec fn stops(self) -> Seq<ColorStopModel> {
        match self {
            PaintModel::GradientLinear { gradient_stops, .. } => gradient_stops,
            PaintModel::GradientRadial { gradient_stops, .. } => gradient_stops,
            PaintModel::GradientAngular { gradient_stops, .. } => gradient_stops,
            PaintModel::GradientDiamond { gradient_stops, .. } => gradient_stops,
            _ => Seq::empty(),
        }
    }

    /// The handle positions of a gradient; another paint has none.
    pub open spec fn handles(self) -> Seq<Vector> {
        match self {
            PaintModel::GradientLinear { gradient_handle_positions, .. } => {
                gradient_handle_positions
            },
            PaintModel::GradientRadial { gradient_handle_positions, .. } => {
                gradient_handle_positions
            },
            PaintModel::GradientAngular { gradient_handle_positions, .. } => {
                gradient_handle_positions
            },
            PaintModel::GradientDiamond { gradient_handle_positions, .. } => {
                gradient_handle_positions
            },
            _ => Seq::empty(),
        }
    }
}

impl Paint {
    /// A solid fill: `visible` and `opacity` may be unset, `color` is
    /// required.
    pub open spec fn solid_of(m: Seq<(Seq<char>, JsonValue)>) -> Result<PaintModel, Failure> {
        let visible = optional(m, "visible"@, |v: JsonValue| flag_of(v));
        let opacity = optional(m, "opacity"@, |v: JsonValue| number_of(v));
        let color = required(m, "color"@, |v: JsonValue| Color::decoded(v));
        if visible is Err {
            Err(visible->Err_0)
        } else if opacity is Err {
            Err(opacity->Err_0)
        } else if color is Err {
            Err(color->Err_0)
        } else {
            Ok(
                PaintModel::Solid {
                    visible: visible->Ok_0,
                    opacity: opacity->Ok_0,
                    color: color->Ok_0,
                },
            )
        }
    }

    /// A gradient of the given kind: besides the blend mode it requires the
    /// handle positions and the stops, both kept in the order of the input.
    pub open spec fn gradient_of(kind: PaintKind, m: Seq<(Seq<char>, JsonValue)>) -> Result<
        PaintModel,
        Failure,
    > {
        let visible = optional(m, "visible"@, |v: JsonValue| flag_of(v));
        let opacity = optional(m, "opacity"@, |v: JsonValue| number_of(v));
        let blend_mode = required(m, "blendMode"@, |v: JsonValue| BlendMode::decoded(v));
        let handles = required(
            m,
            "gradientHandlePositions"@,
            |v: JsonValue| each(v, |x: JsonValue| Vector::decoded(x)),
        );
        let stops = required(
            m,
            "gradientStops"@,
            |v: JsonValue| each(v, |x: JsonValue| ColorStop::decoded(x)),
        );
        if visible is Err {
            Err(visible->Err_0)
        } else if opacity is Err {
            Err(opacity->Err_0)
        } else if blend_mode is Err {
            Err(blend_mode->Err_0)
        } else if handles is Err {
            Err(handles->Err_0)
        } else if stops is Err {
            Err(stops->Err_0)
        } else {
            Ok(
                PaintModel::gradient(
                    kind,
                    visible->Ok_0,
                    opacity->Ok_0,
                    blend_mode->Ok_0,
                    handles->Ok_0,
                    stops->Ok_0,
                ),
            )
        }
    }

    /// An image fill: blend mode and scale mode are required, everything
    /// else may be unset. No field is checked against another.
    pub open spec fn image_of(m: Seq<(Seq<char>, JsonValue)>) -> Result<PaintModel, Failure> {
        let visible = optional(m, "visible"@, |v: JsonValue| flag_of(v));
        let opacity = optional(m, "opacity"@, |v: JsonValue| number_of(v));
        let blend_mode = required(m, "blendMode"@, |v: JsonValue| BlendMode::decoded(v));
        let scale_mode = required(m, "scaleMode"@, |v: JsonValue| ScaleMode::decoded(v));
        let image_transform = optional(m, "imageTransform"@, |v: JsonValue| transform_of(v));
        let scaling_factor = optional(m, "scalingFactor"@, |v: JsonValue| number_of(v));
        let rotation = optional(m, "rotation"@, |v: JsonValue| number_of(v));
        let image_ref = optional(m, "imageRef"@, |v: JsonValue| text_of(v));
        let gif_ref = optional(m, "gifRef"@, |v: JsonValue| text_of(v));
        if visible is Err {
            Err(visible->Err_0)
        } else if opacity is Err {
            Err(opacity->Err_0)
        } else if blend_mode is Err {
            Err(blend_mode->Err_0)
        } else if scale_mode is Err {
            Err(scale_mode->Err_0)
        } else if image_transform is Err {
            Err(image_transform->Err_0)
        } else if scaling_factor is Err {
            Err(scaling_factor->Err_0)
        } else if rotation is Err {
            Err(rotation->Err_0)
        } else if image_ref is Err {
            Err(image_ref->Err_0)
        } else if gif_ref is Err {
            Err(gif_ref->Err_0)
        } else {
            Ok(
                PaintModel::Image {
                    visible: visible->Ok_0,
                    opacity: opacity->Ok_0,
                    blend_mode: blend_mode->Ok_0,
                    scale_mode: scale_mode->Ok_0,
                    image_transform: image_transform->Ok_0,
                    scaling_factor: scaling_factor->Ok_0,
                    rotation: rotation->Ok_0,
                    image_ref: image_ref->Ok_0,
                    gif_ref: gif_ref->Ok_0,
                },
            )
        }
    }

    /// The paint read from the members of a record: the tag `type` is read
    /// first and selects the shape, and only the fields of that shape are
    /// read. A missing tag is a missing field, a tag outside the vocabulary
    /// an unknown variant that carries the tag, both at `type`.
    pub open spec fn of_members(m: Seq<(Seq<char>, JsonValue)>) -> Result<PaintModel, Failure> {
        match required(m, "type"@, |v: JsonValue| PaintKind::decoded(v)) {
            Err(f) => Err(f),
            Ok(PaintKind::Solid) => Self::solid_of(m),
            Ok(PaintKind::Image) => Self::image_of(m),
            Ok(kind) => Self::gradient_of(kind, m),
        }
    }

    /// The paint read from an object; anything else is a type mismatch.
    pub open spec fn decoded(v: JsonValue) -> Result<PaintModel, Failure> {
        match v {
            JsonValue::Object(m) => Self::of_members(m),
            _ => Err(Failure::mismatch()),
        }
    }

    /// Order preservation: a gradient that decodes has one stop for each
    /// item of its field `gradientStops` and one handle position for each
    /// item of `gradientHandlePositions`, in the order of the input, and
    /// each is what its own item decodes to.
    pub proof fn lemma_gradient_in_order(m: Seq<(Seq<char>, JsonValue)>)
        requires
            Self::of_members(m) is Ok,
            Self::of_members(m)->Ok_0.is_gradient(),
        ensures
            lookup(m, "gradientStops"@) matches Some(JsonValue::Array(items)) && {
                let stops = Self::of_members(m)->Ok_0.stops();
                &&& stops.len() == items.len()
                &&& forall|k: int|
                    0 <= k < items.len() ==> ColorStop::decoded(#[trigger] items[k]) == Ok::<
                        ColorStopModel,
                        Failure,
                    >(stops[k])
            },
            lookup(m, "gradientHandlePositions"@) matches Some(JsonValue::Array(items)) && {
                let handles = Self::of_members(m)->Ok_0.handles();
                &&& handles.len() == items.len()
                &&& forall|k: int|
                    0 <= k < items.len() ==> Vector::decoded(#[trigger] items[k]) == Ok::<
                        Vector,
                        Failure,
                    >(handles[k])
            },
    {
        lemma_each_in_order(lookup(m, "gradientStops"@)->0, |x: JsonValue| ColorStop::decoded(x));
        lemma_each_in_order(
            lookup(m, "gradientHandlePositions"@)->0,
            |x: JsonValue| Vector::decoded(x),
        );
    }

    /// A tag outside the vocabulary is refused as an unknown variant that
    /// carries the tag, at `type`.
    pub proof fn lemma_unknown_tag(m: Seq<(Seq<char>, JsonValue)>, tag: Seq<char>)
        requires
            lookup(m, "type"@) == Some(JsonValue::Text(tag)),
            PaintKind::of_token(tag) is None,
        ensures
            Self::of_members(m) == Err::<PaintModel, Failure>(
                Failure::unknown(tag).under(Place::Field("type"@)),
            ),
    {
    }

    fn decode_solid(m: &Vec<Member>) -> (r: Result<Paint, DecodeError>)
        ensures
            agrees(r, Self::solid_of(members_of(m@))),
    {
        let visible = optional_flag(m, "visible")?;
        let opacity = optional_number(m, "opacity")?;
        let color = Color::required(m, "color")?;
        Ok(Paint::Solid { visible, opacity, color })
    }

    fn decode_gradient(kind: PaintKind, m: &Vec<Member>) -> (r: Result<Paint, DecodeError>)
        requires
            kind != PaintKind::Solid,
            kind != PaintKind::Image,
        ensures
            agrees(r, Self::gradient_of(kind, members_of(m@))),
    {
        let visible = optional_flag(m, "visible")?;
        let opacity = optional_number(m, "opacity")?;
        let blend_mode = BlendMode::required(m, "blendMode")?;
        let gradient_handle_positions = Vector::required_all(m, "gradientHandlePositions")?;
        let gradient_stops = ColorStop::required_all(m, "gradientStops")?;
        Ok(
            match kind {
                PaintKind::GradientLinear => Paint::GradientLinear {
                    visible,
                    opacity,
                    blend_mode,
                    gradient_handle_positions,
                    gradient_stops,
                },
                PaintKind::GradientRadial => Paint::GradientRadial {
                    visible,
                    opacity,
                    blend_mode,
                    gradient_handle_positions,
                    gradient_stops,
                },
                PaintKind::GradientAngular => Paint::GradientAngular {
                    visible,
                    opacity,
                    blend_mode,
                    gradient_handle_positions,
                    gradient_stops,
                },
                _ => Paint::GradientDiamond {
                    visible,
                    opacity,
                    blend_mode,
                    gradient_handle_positions,
                    gradient_stops,
                },
            },
        )
    }

    fn decode_image(m: &Vec<Member>) -> (r: Result<Paint, DecodeError>)
        ensures
            agrees(r, Self::image_of(members_of(m@))),
    {
        let visible = optional_flag(m, "visible")?;
        let opacity = optional_number(m, "opacity")?;
        let blend_mode = BlendMode::required(m, "blendMode")?;
        let scale_mode = ScaleMode::required(m, "scaleMode")?;
        let image_transform = match find(m, "imageTransform") {
            None => None,
            Some(Json::Null) => None,
            Some(j) => match decode_transform(j) {
                Ok(t) => Some(t),
                Err(e) => { return Err(e.under_field("imageTransform")); },
            },
        };
        let scaling_factor = optional_number(m, "scalingFactor")?;
        let rotation = match optional_number(m, "rotation")? {
            Some(value) => Some(Degrees { value }),
            None => None,
        };
        let image_ref = optional_text(m, "imageRef")?;
        let gif_ref = optional_text(m, "gifRef")?;
        Ok(
            Paint::Image {
                visible,
                opacity,
                blend_mode,
                scale_mode,
                image_transform,
                scaling_factor,
                rotation,
                image_ref,
                gif_ref,
            },
        )
    }

    /// Decodes a paint.
    pub fn decode(j: &Json) -> (r: Result<Paint, DecodeError>)
        ensures
            agrees(r, Self::decoded(j.deep_view())),
    {
        let m = read_record(j)?;
        match PaintKind::required(m, "type")? {
            PaintKind::Solid => Self::decode_solid(m),
            PaintKind::Image => Self::decode_image(m),
            kind => Self::decode_gradient(kind, m),
        }
    }
}

} // verus!
