use icon_library::error::{DecodeError, ErrorKind, Step};
use icon_library::figma::{
    BlendMode, Color, ColorStop, Degrees, Paint, ScaleMode, Vector,
};
use icon_library::json::{Json, Number};
use icon_library::parse::parse;

fn value(text: &str) -> Json {
    parse(text).unwrap()
}

fn number(text: &str) -> Number {
    Number { text: text.to_string() }
}

fn field(name: &str) -> Step {
    Step::Field(name.to_string())
}

fn error(kind: ErrorKind, path: Vec<Step>) -> DecodeError {
    DecodeError { kind, path }
}

fn white() -> Color {
    Color { r: number("1"), g: number("1"), b: number("1"), a: number("1") }
}

fn gradient(tag: &str) -> Json {
    value(&format!(
        r#"{{"type": "{}", "blendMode": "NORMAL", "gradientHandlePositions": [], "gradientStops": []}}"#,
        tag
    ))
}

#[test]
fn solid_minimal() {
    assert_eq!(
        Paint::decode(&value(r#"{"type": "SOLID", "color": {"r": 1, "g": 1, "b": 1, "a": 1}}"#)),
        Ok(Paint::Solid { visible: None, opacity: None, color: white() })
    );
}

#[test]
fn gradient_linear_minimal() {
    assert_eq!(
        Paint::decode(&gradient("GRADIENT_LINEAR")),
        Ok(Paint::GradientLinear {
            visible: None,
            opacity: None,
            blend_mode: BlendMode::Normal,
            gradient_handle_positions: vec![],
            gradient_stops: vec![],
        })
    );
}

#[test]
fn gradient_radial_minimal() {
    assert_eq!(
        Paint::decode(&gradient("GRADIENT_RADIAL")),
        Ok(Paint::GradientRadial {
            visible: None,
            opacity: None,
            blend_mode: BlendMode::Normal,
            gradient_handle_positions: vec![],
            gradient_stops: vec![],
        })
    );
}

#[test]
fn gradient_angular_minimal() {
    assert_eq!(
        Paint::decode(&gradient("GRADIENT_ANGULAR")),
        Ok(Paint::GradientAngular {
            visible: None,
            opacity: None,
            blend_mode: BlendMode::Normal,
            gradient_handle_positions: vec![],
            gradient_stops: vec![],
        })
    );
}

#[test]
fn gradient_diamond_minimal() {
    assert_eq!(
        Paint::decode(&gradient("GRADIENT_DIAMOND")),
        Ok(Paint::GradientDiamond {
            visible: None,
            opacity: None,
            blend_mode: BlendMode::Normal,
            gradient_handle_positions: vec![],
            gradient_stops: vec![],
        })
    );
}

#[test]
fn image_minimal() {
    assert_eq!(
        Paint::decode(&value(r#"{"type": "IMAGE", "blendMode": "MULTIPLY", "scaleMode": "FIT"}"#)),
        Ok(Paint::Image {
            visible: None,
            opacity: None,
            blend_mode: BlendMode::Multiply,
            scale_mode: ScaleMode::Fit,
            image_transform: None,
            scaling_factor: None,
            rotation: None,
            image_ref: None,
            gif_ref: None,
        })
    );
}

#[test]
fn unknown_paint_tag_is_an_unknown_variant() {
    assert_eq!(
        Paint::decode(&value(r#"{"type": "EMOJI"}"#)),
        Err(error(ErrorKind::UnknownVariant("EMOJI".to_string()), vec![field("type")]))
    );
    assert_eq!(
        Paint::decode(&value(r#"{"type": "solid", "color": {"r": 1, "g": 1, "b": 1, "a": 1}}"#)),
        Err(error(ErrorKind::UnknownVariant("solid".to_string()), vec![field("type")]))
    );
    assert_eq!(
        Paint::decode(&value(r#"{"type": "FRAME"}"#)),
        Err(error(ErrorKind::UnknownVariant("FRAME".to_string()), vec![field("type")]))
    );
}

#[test]
fn paint_without_tag_is_a_missing_field() {
    assert_eq!(
        Paint::decode(&value(r#"{"color": {"r": 1, "g": 1, "b": 1, "a": 1}}"#)),
        Err(error(ErrorKind::MissingField, vec![field("type")]))
    );
    assert_eq!(
        Paint::decode(&value(r#"{"type": 1}"#)),
        Err(error(ErrorKind::TypeMismatch, vec![field("type")]))
    );
    assert_eq!(Paint::decode(&value("[]")), Err(error(ErrorKind::TypeMismatch, vec![])));
}

#[test]
fn unset_is_neither_false_nor_zero() {
    let unset = Paint::decode(&value(
        r#"{"type": "SOLID", "color": {"r": 1, "g": 1, "b": 1, "a": 1}}"#,
    ))
    .unwrap();
    let set = Paint::decode(&value(
        r#"{"type": "SOLID", "visible": false, "opacity": 0, "color": {"r": 1, "g": 1, "b": 1, "a": 1}}"#,
    ))
    .unwrap();
    let null = Paint::decode(&value(
        r#"{"type": "SOLID", "visible": null, "opacity": null, "color": {"r": 1, "g": 1, "b": 1, "a": 1}}"#,
    ))
    .unwrap();
    assert_eq!(unset, Paint::Solid { visible: None, opacity: None, color: white() });
    assert_eq!(
        set,
        Paint::Solid { visible: Some(false), opacity: Some(number("0")), color: white() }
    );
    assert_eq!(null, unset);
    assert_ne!(set, unset);
}

#[test]
fn solid_failures() {
    assert_eq!(
        Paint::decode(&value(r#"{"type": "SOLID"}"#)),
        Err(error(ErrorKind::MissingField, vec![field("color")]))
    );
    assert_eq!(
        Paint::decode(&value(
            r#"{"type": "SOLID", "visible": 1, "color": {"r": 1, "g": 1, "b": 1, "a": 1}}"#
        )),
        Err(error(ErrorKind::TypeMismatch, vec![field("visible")]))
    );
    assert_eq!(
        Paint::decode(&value(
            r#"{"type": "SOLID", "opacity": "half", "color": {"r": 1, "g": 1, "b": 1, "a": 1}}"#
        )),
        Err(error(ErrorKind::TypeMismatch, vec![field("opacity")]))
    );
    assert_eq!(
        Paint::decode(&value(r#"{"type": "SOLID", "color": {"r": 1, "g": 1, "b": 1}}"#)),
        Err(error(ErrorKind::TypeMismatch, vec![field("color")]))
    );
}

#[test]
fn solid_reads_only_the_fields_of_its_shape() {
    assert_eq!(
        Paint::decode(&value(
            r#"{"type": "SOLID", "blendMode": "NO_SUCH_MODE", "gradientStops": 5,
                "color": {"r": 1, "g": 1, "b": 1, "a": 1}}"#
        )),
        Ok(Paint::Solid { visible: None, opacity: None, color: white() })
    );
}

#[test]
fn gradient_keeps_the_order_of_stops_and_handles() {
    let j = value(
        r#"{
        "type": "GRADIENT_LINEAR",
        "visible": true,
        "opacity": 0.5,
        "blendMode": "SCREEN",
        "gradientHandlePositions": [{"x": 0, "y": 1}, {"x": 1, "y": 0}, {"x": 2, "y": 2}],
        "gradientStops": [
            {"position": 1, "color": {"r": 0, "g": 0, "b": 0, "a": 1}},
            {"position": 0, "color": {"r": 1, "g": 1, "b": 1, "a": 1}},
            {"position": 0.5, "color": {"r": 0.5, "g": 0.5, "b": 0.5, "a": 1}}
        ]
    }"#,
    );
    assert_eq!(
        Paint::decode(&j),
        Ok(Paint::GradientLinear {
            visible: Some(true),
            opacity: Some(number("0.5")),
            blend_mode: BlendMode::Screen,
            gradient_handle_positions: vec![
                Vector { x: 0, y: 1 },
                Vector { x: 1, y: 0 },
                Vector { x: 2, y: 2 },
            ],
            gradient_stops: vec![
                ColorStop {
                    position: number("1"),
                    color: Color { r: number("0"), g: number("0"), b: number("0"), a: number("1") },
                },
                ColorStop { position: number("0"), color: white() },
                ColorStop {
                    position: number("0.5"),
                    color: Color {
                        r: number("0.5"),
                        g: number("0.5"),
                        b: number("0.5"),
                        a: number("1"),
                    },
                },
            ],
        })
    );
}

#[test]
fn gradient_failures() {
    assert_eq!(
        Paint::decode(&value(r#"{"type": "GRADIENT_RADIAL"}"#)),
        Err(error(ErrorKind::MissingField, vec![field("blendMode")]))
    );
    assert_eq!(
        Paint::decode(&value(r#"{"type": "GRADIENT_RADIAL", "blendMode": "NORMAL"}"#)),
        Err(error(ErrorKind::MissingField, vec![field("gradientHandlePositions")]))
    );
    assert_eq!(
        Paint::decode(&value(
            r#"{"type": "GRADIENT_RADIAL", "blendMode": "NORMAL", "gradientHandlePositions": []}"#
        )),
        Err(error(ErrorKind::MissingField, vec![field("gradientStops")]))
    );
    assert_eq!(
        Paint::decode(&value(
            r#"{"type": "GRADIENT_ANGULAR", "blendMode": "BRIGHT",
                "gradientHandlePositions": [], "gradientStops": []}"#
        )),
        Err(error(ErrorKind::UnknownVariant("BRIGHT".to_string()), vec![field("blendMode")]))
    );
    assert_eq!(
        Paint::decode(&value(
            r#"{"type": "GRADIENT_DIAMOND", "blendMode": "NORMAL",
                "gradientHandlePositions": [{"x": 0, "y": 0}, {"x": 0}],
                "gradientStops": []}"#
        )),
        Err(error(
            ErrorKind::TypeMismatch,
            vec![field("gradientHandlePositions"), Step::Index(1)]
        ))
    );
    assert_eq!(
        Paint::decode(&value(
            r#"{"type": "GRADIENT_DIAMOND", "blendMode": "NORMAL",
                "gradientHandlePositions": [],
                "gradientStops": [{"position": "a", "color": {"r": 0, "g": 0, "b": 0, "a": 1}}]}"#
        )),
        Err(error(
            ErrorKind::TypeMismatch,
            vec![field("gradientStops"), Step::Index(0), field("position")]
        ))
    );
    assert_eq!(
        Paint::decode(&value(
            r#"{"type": "GRADIENT_LINEAR", "blendMode": "NORMAL",
                "gradientHandlePositions": null, "gradientStops": []}"#
        )),
        Err(error(ErrorKind::TypeMismatch, vec![field("gradientHandlePositions")]))
    );
}

#[test]
fn image_reads_every_field_and_accepts_both_references() {
    let j = value(
        r#"{
        "type": "IMAGE",
        "visible": false,
        "opacity": 1,
        "blendMode": "NORMAL",
        "scaleMode": "STRETCH",
        "imageTransform": [[1, 0, 0], [0, 1, 0]],
        "scalingFactor": 0.5,
        "rotation": 90,
        "imageRef": "abc",
        "gifRef": "def"
    }"#,
    );
    assert_eq!(
        Paint::decode(&j),
        Ok(Paint::Image {
            visible: Some(false),
            opacity: Some(number("1")),
            blend_mode: BlendMode::Normal,
            scale_mode: ScaleMode::Stretch,
            image_transform: Some([[1, 0, 0], [0, 1, 0]]),
            scaling_factor: Some(number("0.5")),
            rotation: Some(Degrees { value: number("90") }),
            image_ref: Some("abc".to_string()),
            gif_ref: Some("def".to_string()),
        })
    );
}

#[test]
fn image_failures() {
    assert_eq!(
        Paint::decode(&value(r#"{"type": "IMAGE", "blendMode": "NORMAL"}"#)),
        Err(error(ErrorKind::MissingField, vec![field("scaleMode")]))
    );
    assert_eq!(
        Paint::decode(&value(
            r#"{"type": "IMAGE", "blendMode": "NORMAL", "scaleMode": "FILL",
                "imageTransform": [[1, 0], [0, 1]]}"#
        )),
        Err(error(ErrorKind::TypeMismatch, vec![field("imageTransform"), Step::Index(0)]))
    );
    assert_eq!(
        Paint::decode(&value(
            r#"{"type": "IMAGE", "blendMode": "NORMAL", "scaleMode": "FILL", "rotation": "90"}"#
        )),
        Err(error(ErrorKind::TypeMismatch, vec![field("rotation")]))
    );
    assert_eq!(
        Paint::decode(&value(
            r#"{"type": "IMAGE", "blendMode": "NORMAL", "scaleMode": "FILL", "gifRef": 7}"#
        )),
        Err(error(ErrorKind::TypeMismatch, vec![field("gifRef")]))
    );
}
