use icon_library::error::{DecodeError, ErrorKind, Step};
use icon_library::figma::{
    Color, Constraint, ExportSetting, HorizontalLayoutConstraint, LayoutAlign, LayoutConstraint,
    LayoutGrid, LayoutGridPattern, LineHeightUnit, Padding, Percent, Pixels, TextAutoResizeType,
    TextCase, TextHorizontalAlignment, TextVerticalAlignment, TypeStyle,
    VerticalLayoutConstraint,
};
use icon_library::json::{Json, Number};
use icon_library::parse::parse;

fn value(text: &str) -> Json {
    parse(text).unwrap()
}

fn number(text: &str) -> Number {
    Number { text: text.to_string() }
}

fn field(name: &str) -> Step {
    Step::Field(name.to_string())
}

fn error(kind: ErrorKind, path: Vec<Step>) -> DecodeError {
    DecodeError { kind, path }
}

const MINIMAL_STYLE: &str = r#"{
    "fontFamily": "Inter",
    "fontWeight": 400,
    "fontSize": 12,
    "textAlignHorizontal": "LEFT",
    "textAlignVertical": "TOP",
    "letterSpacing": 0,
    "lineHeightPx": 14.0625,
    "lineHeightPercent": 100,
    "lineHeightUnit": "INTRINSIC_%"
}"#;

#[test]
fn type_style_applies_every_default() {
    assert_eq!(
        TypeStyle::decode(&value(MINIMAL_STYLE)),
        Ok(TypeStyle {
            font_family: "Inter".to_string(),
            font_post_script_name: None,
            paragraph_spacing: 0,
            paragraph_indent: 0,
            italic: false,
            font_weight: 400,
            text_auto_resize: TextAutoResizeType::Off,
            font_size: Pixels { value: number("12") },
            text_case: TextCase::Original,
            text_align_horizontal: TextHorizontalAlignment::Left,
            text_align_vertical: TextVerticalAlignment::Top,
            letter_spacing: Pixels { value: number("0") },
            line_height_px: Pixels { value: number("14.0625") },
            line_height_percent: Percent { value: number("100") },
            line_height_unit: LineHeightUnit::Intrinsic,
        })
    );
}

#[test]
fn type_style_without_text_case_is_original() {
    let style = TypeStyle::decode(&value(MINIMAL_STYLE)).unwrap();
    assert_eq!(style.text_case, TextCase::Original);
}

#[test]
fn type_style_without_text_auto_resize_is_off() {
    let style = TypeStyle::decode(&value(MINIMAL_STYLE)).unwrap();
    assert_eq!(style.text_auto_resize, TextAutoResizeType::Off);
}

#[test]
fn type_style_reads_every_field() {
    let j = value(
        r#"{
        "fontFamily": "Inter",
        "fontPostScriptName": "Inter-Bold",
        "paragraphSpacing": 8,
        "paragraphIndent": 4,
        "italic": true,
        "fontWeight": 700,
        "textAutoResize": "WIDTH_AND_HEIGHT",
        "fontSize": 12.5,
        "textCase": "SMALL_CAPS_FORCED",
        "textAlignHorizontal": "JUSTIFIED",
        "textAlignVertical": "BOTTOM",
        "letterSpacing": -0.5,
        "lineHeightPx": 20,
        "lineHeightPercent": 120.5,
        "lineHeightUnit": "FONT_SIZE_%"
    }"#,
    );
    assert_eq!(
        TypeStyle::decode(&j),
        Ok(TypeStyle {
            font_family: "Inter".to_string(),
            font_post_script_name: Some("Inter-Bold".to_string()),
            paragraph_spacing: 8,
            paragraph_indent: 4,
            italic: true,
            font_weight: 700,
            text_auto_resize: TextAutoResizeType::WidthAndHeight,
            font_size: Pixels { value: number("12.5") },
            text_case: TextCase::SmallCapsForced,
            text_align_horizontal: TextHorizontalAlignment::Justified,
            text_align_vertical: TextVerticalAlignment::Bottom,
            letter_spacing: Pixels { value: number("-0.5") },
            line_height_px: Pixels { value: number("20") },
            line_height_percent: Percent { value: number("120.5") },
            line_height_unit: LineHeightUnit::FontSize,
        })
    );
}

fn style_with(extra: &str) -> Json {
    let mut text = MINIMAL_STYLE.trim_end().trim_end_matches('}').to_string();
    text.push_str(", ");
    text.push_str(extra);
    text.push('}');
    value(&text)
}

fn style_without(name: &str) -> Json {
    match value(MINIMAL_STYLE) {
        Json::Object(members) => {
            Json::Object(members.into_iter().filter(|m| m.name != name).collect())
        }
        _ => unreachable!(),
    }
}

#[test]
fn type_style_null_for_an_optional_field_is_unset() {
    let style = TypeStyle::decode(&style_with(r#""fontPostScriptName": null"#)).unwrap();
    assert_eq!(style.font_post_script_name, None);
}

#[test]
fn type_style_never_replaces_a_malformed_value_by_the_default() {
    assert_eq!(
        TypeStyle::decode(&style_with(r#""textCase": "SHOUTING""#)),
        Err(error(ErrorKind::UnknownVariant("SHOUTING".to_string()), vec![field("textCase")]))
    );
    assert_eq!(
        TypeStyle::decode(&style_with(r#""textCase": null"#)),
        Err(error(ErrorKind::TypeMismatch, vec![field("textCase")]))
    );
    assert_eq!(
        TypeStyle::decode(&style_with(r#""textAutoResize": 1"#)),
        Err(error(ErrorKind::TypeMismatch, vec![field("textAutoResize")]))
    );
    assert_eq!(
        TypeStyle::decode(&style_with(r#""italic": "no""#)),
        Err(error(ErrorKind::TypeMismatch, vec![field("italic")]))
    );
    assert_eq!(
        TypeStyle::decode(&style_with(r#""italic": null"#)),
        Err(error(ErrorKind::TypeMismatch, vec![field("italic")]))
    );
    assert_eq!(
        TypeStyle::decode(&style_with(r#""paragraphSpacing": 1.5"#)),
        Err(error(ErrorKind::TypeMismatch, vec![field("paragraphSpacing")]))
    );
}

#[test]
fn type_style_names_each_missing_required_field() {
    for name in [
        "fontFamily",
        "fontWeight",
        "fontSize",
        "textAlignHorizontal",
        "textAlignVertical",
        "letterSpacing",
        "lineHeightPx",
        "lineHeightPercent",
        "lineHeightUnit",
    ] {
        assert_eq!(
            TypeStyle::decode(&style_without(name)),
            Err(error(ErrorKind::MissingField, vec![field(name)]))
        );
    }
}

#[test]
fn type_style_reports_the_first_failure_in_declaration_order() {
    let j = value(r#"{"fontFamily": 1, "fontWeight": "x"}"#);
    assert_eq!(TypeStyle::decode(&j), Err(error(ErrorKind::TypeMismatch, vec![field("fontFamily")])));
    let j = value(r#"{"fontFamily": "Inter", "italic": 3}"#);
    assert_eq!(TypeStyle::decode(&j), Err(error(ErrorKind::TypeMismatch, vec![field("italic")])));
}

#[test]
fn type_style_from_what_is_no_object_is_a_mismatch() {
    assert_eq!(TypeStyle::decode(&value("[]")), Err(error(ErrorKind::TypeMismatch, vec![])));
}

#[test]
fn layout_constraint_fields_are_written_in_upper_case() {
    assert_eq!(
        LayoutConstraint::decode(&value(r#"{"VERTICAL": "TOP_BOTTOM", "HORIZONTAL": "SCALE"}"#)),
        Ok(LayoutConstraint {
            vertical: VerticalLayoutConstraint::TopBottom,
            horizontal: HorizontalLayoutConstraint::Scale,
        })
    );
    assert_eq!(
        LayoutConstraint::decode(&value(r#"{"vertical": "TOP", "horizontal": "LEFT"}"#)),
        Err(error(ErrorKind::MissingField, vec![field("VERTICAL")]))
    );
    assert_eq!(
        LayoutConstraint::decode(&value(r#"{"VERTICAL": "TOP", "HORIZONTAL": "TOP"}"#)),
        Err(error(ErrorKind::UnknownVariant("TOP".to_string()), vec![field("HORIZONTAL")]))
    );
}

#[test]
fn layout_grid_decodes() {
    let j = value(
        r#"{
        "pattern": "COLUMNS", "sectionSize": 10, "visible": true,
        "color": {"r": 1, "g": 0, "b": 0, "a": 0.1},
        "alignment": "STRETCH", "gutterSize": 20, "offset": 0, "count": 12
    }"#,
    );
    assert_eq!(
        LayoutGrid::decode(&j),
        Ok(LayoutGrid {
            pattern: LayoutGridPattern::Columns,
            section_size: 10,
            visible: true,
            color: Color { r: number("1"), g: number("0"), b: number("0"), a: number("0.1") },
            alignment: LayoutAlign::Stretch,
            gutter_size: 20,
            offset: 0,
            count: 12,
        })
    );
}

#[test]
fn layout_grid_requires_visible() {
    let j = value(
        r#"{
        "pattern": "COLUMNS", "sectionSize": 10,
        "color": {"r": 1, "g": 0, "b": 0, "a": 0.1},
        "alignment": "STRETCH", "gutterSize": 20, "offset": 0, "count": 12
    }"#,
    );
    assert_eq!(LayoutGrid::decode(&j), Err(error(ErrorKind::MissingField, vec![field("visible")])));
}

#[test]
fn layout_grid_reports_a_failure_inside_its_color() {
    let j = value(
        r#"{
        "pattern": "ROWS", "sectionSize": 10, "visible": false,
        "color": {"r": 1, "g": "0", "b": 0, "a": 0.1},
        "alignment": "MIN", "gutterSize": 20, "offset": 0, "count": 12
    }"#,
    );
    assert_eq!(
        LayoutGrid::decode(&j),
        Err(error(ErrorKind::TypeMismatch, vec![field("color"), field("g")]))
    );
}

#[test]
fn constraint_decodes_each_tag() {
    assert_eq!(
        Constraint::decode(&value(r#"{"type": "SCALE", "value": 2}"#)),
        Ok(Constraint::Scale { value: 2 })
    );
    assert_eq!(
        Constraint::decode(&value(r#"{"type": "WIDTH", "value": 100}"#)),
        Ok(Constraint::Width { value: 100 })
    );
    assert_eq!(
        Constraint::decode(&value(r#"{"type": "HEIGHT", "value": 50}"#)),
        Ok(Constraint::Height { value: 50 })
    );
}

#[test]
fn constraint_failures() {
    assert_eq!(
        Constraint::decode(&value(r#"{"value": 2}"#)),
        Err(error(ErrorKind::MissingField, vec![field("type")]))
    );
    assert_eq!(
        Constraint::decode(&value(r#"{"type": "Scale", "value": 2}"#)),
        Err(error(ErrorKind::UnknownVariant("Scale".to_string()), vec![field("type")]))
    );
    assert_eq!(
        Constraint::decode(&value(r#"{"type": "DEPTH"}"#)),
        Err(error(ErrorKind::UnknownVariant("DEPTH".to_string()), vec![field("type")]))
    );
    assert_eq!(
        Constraint::decode(&value(r#"{"type": 3, "value": 2}"#)),
        Err(error(ErrorKind::TypeMismatch, vec![field("type")]))
    );
    assert_eq!(
        Constraint::decode(&value(r#"{"type": "SCALE"}"#)),
        Err(error(ErrorKind::MissingField, vec![field("value")]))
    );
    assert_eq!(
        Constraint::decode(&value(r#"{"type": "SCALE", "value": 0.5}"#)),
        Err(error(ErrorKind::TypeMismatch, vec![field("value")]))
    );
}

#[test]
fn export_setting_decodes() {
    let j = value(
        r#"{"suffix": "@2x", "format": "PNG", "constraint": {"type": "SCALE", "value": 2}}"#,
    );
    assert_eq!(
        ExportSetting::decode(&j),
        Ok(ExportSetting {
            suffix: "@2x".to_string(),
            format: "PNG".to_string(),
            constraint: Constraint::Scale { value: 2 },
        })
    );
}

#[test]
fn export_setting_failures() {
    assert_eq!(
        ExportSetting::decode(&value(r#"{"suffix": "", "format": "PNG"}"#)),
        Err(error(ErrorKind::MissingField, vec![field("constraint")]))
    );
    assert_eq!(
        ExportSetting::decode(&value(
            r#"{"suffix": "", "format": "PNG", "constraint": {"type": "AREA", "value": 1}}"#
        )),
        Err(error(
            ErrorKind::UnknownVariant("AREA".to_string()),
            vec![field("constraint"), field("type")]
        ))
    );
    assert_eq!(
        ExportSetting::decode_all(&value(
            r#"[{"suffix": "", "format": "PNG", "constraint": {"type": "WIDTH", "value": 1}},
                {"suffix": "", "constraint": {"type": "WIDTH", "value": 1}}]"#
        )),
        Err(error(ErrorKind::MissingField, vec![Step::Index(1), field("format")]))
    );
}

#[test]
fn padding_decodes() {
    assert_eq!(
        Padding::decode(&value(
            r#"{"paddingLeft": 1, "paddingRight": 2, "paddingTop": 3, "paddingBottom": 4}"#
        )),
        Ok(Padding { padding_left: 1, padding_right: 2, padding_top: 3, padding_bottom: 4 })
    );
    assert_eq!(
        Padding::decode(&value(r#"{"paddingLeft": 1, "paddingRight": 2, "paddingTop": 3}"#)),
        Err(error(ErrorKind::MissingField, vec![field("paddingBottom")]))
    );
}
