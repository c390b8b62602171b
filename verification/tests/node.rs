use icon_library::error::{DecodeError, ErrorKind, Step};
use icon_library::figma::{
    BaseNode, Color, Constraint, ExportSetting, LineHeightUnit, Node, NodeKind, Percent, Pixels,
    TextAutoResizeType, TextCase, TextHorizontalAlignment, TextVerticalAlignment, TypeStyle,
};
use icon_library::json::{Json, Member, Number};
use icon_library::parse::parse;

fn value(text: &str) -> Json {
    parse(text).unwrap()
}

fn number(text: &str) -> Number {
    Number { text: text.to_string() }
}

fn field(name: &str) -> Step {
    Step::Field(name.to_string())
}

fn error(kind: ErrorKind, path: Vec<Step>) -> DecodeError {
    DecodeError { kind, path }
}

fn base(id: &str, name: &str) -> BaseNode {
    BaseNode { id: id.to_string(), name: name.to_string(), visible: false, plugin_data: None }
}

fn leaf(tag: &str) -> Json {
    value(&format!(r#"{{"type": "{}", "id": "1:1", "name": "n"}}"#, tag))
}

fn container(tag: &str) -> Json {
    value(&format!(r#"{{"type": "{}", "id": "1:1", "name": "n", "children": []}}"#, tag))
}

const STYLE: &str = r#"{
    "fontFamily": "Inter", "fontWeight": 400, "fontSize": 12,
    "textAlignHorizontal": "LEFT", "textAlignVertical": "TOP", "letterSpacing": 0,
    "lineHeightPx": 14, "lineHeightPercent": 100, "lineHeightUnit": "PIXELS"
}"#;

fn style() -> TypeStyle {
    TypeStyle {
        font_family: "Inter".to_string(),
        font_post_script_name: None,
        paragraph_spacing: 0,
        paragraph_indent: 0,
        italic: false,
        font_weight: 400,
        text_auto_resize: TextAutoResizeType::Off,
        font_size: Pixels { value: number("12") },
        text_case: TextCase::Original,
        text_align_horizontal: TextHorizontalAlignment::Left,
        text_align_vertical: TextVerticalAlignment::Top,
        letter_spacing: Pixels { value: number("0") },
        line_height_px: Pixels { value: number("14") },
        line_height_percent: Percent { value: number("100") },
        line_height_unit: LineHeightUnit::Pixels,
    }
}

#[test]
fn document_minimal() {
    assert_eq!(
        Node::decode(&container("DOCUMENT")),
        Ok(Node::Document { children: vec![], node: base("1:1", "n") })
    );
}

#[test]
fn canvas_minimal() {
    let j = value(
        r#"{"type": "CANVAS", "id": "0:1", "name": "Page 1", "children": [],
            "backgroundColor": {"r": 0.9, "g": 0.9, "b": 0.9, "a": 1},
            "exportSettings": []}"#,
    );
    assert_eq!(
        Node::decode(&j),
        Ok(Node::Canvas {
            children: vec![],
            background_color: Color {
                r: number("0.9"),
                g: number("0.9"),
                b: number("0.9"),
                a: number("1"),
            },
            prototype_start_node_id: None,
            export_settings: vec![],
            node: base("0:1", "Page 1"),
        })
    );
}

#[test]
fn frame_minimal() {
    assert_eq!(
        Node::decode(&container("FRAME")),
        Ok(Node::Frame { children: vec![], node: base("1:1", "n") })
    );
}

#[test]
fn group_minimal() {
    assert_eq!(
        Node::decode(&container("GROUP")),
        Ok(Node::Group { children: vec![], node: base("1:1", "n") })
    );
}

#[test]
fn vector_minimal() {
    assert_eq!(Node::decode(&leaf("VECTOR")), Ok(Node::Vector { node: base("1:1", "n") }));
}

#[test]
fn boolean_operation_minimal() {
    assert_eq!(
        Node::decode(&container("BOOLEAN_OPERATION")),
        Ok(Node::BooleanOperation { children: vec![], node: base("1:1", "n") })
    );
}

#[test]
fn star_minimal() {
    assert_eq!(Node::decode(&leaf("STAR")), Ok(Node::Star { node: base("1:1", "n") }));
}

#[test]
fn line_minimal() {
    assert_eq!(Node::decode(&leaf("LINE")), Ok(Node::Line { node: base("1:1", "n") }));
}

#[test]
fn ellipse_minimal() {
    assert_eq!(Node::decode(&leaf("ELLIPSE")), Ok(Node::Ellipse { node: base("1:1", "n") }));
}

#[test]
fn regular_polygon_minimal() {
    assert_eq!(
        Node::decode(&leaf("REGULAR_POLYGON")),
        Ok(Node::RegularPolygon { node: base("1:1", "n") })
    );
}

#[test]
fn rectangle_minimal() {
    assert_eq!(
        Node::decode(&leaf("RECTANGLE")),
        Ok(Node::Rectangle {
            corner_radius: None,
            rectangle_corner_radii: None,
            node: base("1:1", "n"),
        })
    );
}

#[test]
fn text_minimal() {
    let j = value(&format!(
        r#"{{"type": "TEXT", "id": "1:1", "name": "n", "characters": "Hello", "style": {}}}"#,
        STYLE
    ));
    assert_eq!(
        Node::decode(&j),
        Ok(Node::Text { characters: "Hello".to_string(), style: style(), node: base("1:1", "n") })
    );
}

#[test]
fn slice_minimal() {
    let j = value(r#"{"type": "SLICE", "id": "1:1", "name": "n", "characters": "s"}"#);
    assert_eq!(
        Node::decode(&j),
        Ok(Node::Slice { characters: "s".to_string(), node: base("1:1", "n") })
    );
}

#[test]
fn component_minimal() {
    assert_eq!(
        Node::decode(&container("COMPONENT")),
        Ok(Node::Component { children: vec![], node: base("1:1", "n") })
    );
}

#[test]
fn component_set_minimal() {
    assert_eq!(
        Node::decode(&container("COMPONENT_SET")),
        Ok(Node::ComponentSet { children: vec![], node: base("1:1", "n") })
    );
}

#[test]
fn instance_minimal() {
    assert_eq!(
        Node::decode(&container("INSTANCE")),
        Ok(Node::Instance { children: vec![], node: base("1:1", "n") })
    );
}

#[test]
fn unknown_node_tag_is_an_unknown_variant() {
    assert_eq!(
        Node::decode(&leaf("SPIRAL")),
        Err(error(ErrorKind::UnknownVariant("SPIRAL".to_string()), vec![field("type")]))
    );
    assert_eq!(
        Node::decode(&leaf("SOLID")),
        Err(error(ErrorKind::UnknownVariant("SOLID".to_string()), vec![field("type")]))
    );
    assert_eq!(
        Node::decode(&leaf("Frame")),
        Err(error(ErrorKind::UnknownVariant("Frame".to_string()), vec![field("type")]))
    );
}

#[test]
fn node_without_type_is_a_missing_field_that_names_type() {
    assert_eq!(
        Node::decode(&value(r#"{"id": "1:2", "name": "n", "children": []}"#)),
        Err(error(ErrorKind::MissingField, vec![field("type")]))
    );
}

#[test]
fn nested_node_without_type_is_reported_at_its_path() {
    let j = value(
        r#"{"type": "FRAME", "id": "1", "name": "f", "children": [
            {"type": "VECTOR", "id": "2", "name": "a"},
            {"type": "GROUP", "id": "3", "name": "g", "children": [
                {"id": "4", "name": "b"}
            ]}
        ]}"#,
    );
    assert_eq!(
        Node::decode(&j),
        Err(error(
            ErrorKind::MissingField,
            vec![field("children"), Step::Index(1), field("children"), Step::Index(0), field("type")]
        ))
    );
}

#[test]
fn node_tag_of_the_wrong_kind_is_a_mismatch() {
    assert_eq!(
        Node::decode(&value(r#"{"type": 5, "id": "1", "name": "n"}"#)),
        Err(error(ErrorKind::TypeMismatch, vec![field("type")]))
    );
    assert_eq!(Node::decode(&value("[]")), Err(error(ErrorKind::TypeMismatch, vec![])));
    assert_eq!(Node::decode(&value(r#""FRAME""#)), Err(error(ErrorKind::TypeMismatch, vec![])));
}

#[test]
fn visible_defaults_to_false() {
    let node = Node::decode(&leaf("VECTOR")).unwrap();
    match node {
        Node::Vector { node } => assert_eq!(node.visible, false),
        _ => panic!("not a vector"),
    }
}

#[test]
fn visible_is_read_where_it_is_given() {
    let j = value(r#"{"type": "STAR", "id": "1", "name": "n", "visible": true}"#);
    assert_eq!(
        Node::decode(&j),
        Ok(Node::Star {
            node: BaseNode {
                id: "1".to_string(),
                name: "n".to_string(),
                visible: true,
                plugin_data: None,
            },
        })
    );
}

#[test]
fn visible_of_the_wrong_kind_is_not_defaulted() {
    assert_eq!(
        Node::decode(&value(r#"{"type": "STAR", "id": "1", "name": "n", "visible": "yes"}"#)),
        Err(error(ErrorKind::TypeMismatch, vec![field("visible")]))
    );
    assert_eq!(
        Node::decode(&value(r#"{"type": "STAR", "id": "1", "name": "n", "visible": null}"#)),
        Err(error(ErrorKind::TypeMismatch, vec![field("visible")]))
    );
}

#[test]
fn base_attributes_are_required() {
    assert_eq!(
        Node::decode(&value(r#"{"type": "LINE", "name": "n"}"#)),
        Err(error(ErrorKind::MissingField, vec![field("id")]))
    );
    assert_eq!(
        Node::decode(&value(r#"{"type": "LINE", "id": "1"}"#)),
        Err(error(ErrorKind::MissingField, vec![field("name")]))
    );
    assert_eq!(
        Node::decode(&value(r#"{"type": "LINE", "id": 1, "name": "n"}"#)),
        Err(error(ErrorKind::TypeMismatch, vec![field("id")]))
    );
}

#[test]
fn plugin_data_is_kept_as_it_came() {
    let j = value(
        r#"{"type": "ELLIPSE", "id": "1", "name": "n",
            "pluginData": {"z": [1, 2.5, "x", null, {"deep": true}], "a": "b"}}"#,
    );
    let payload = value(r#"{"z": [1, 2.5, "x", null, {"deep": true}], "a": "b"}"#);
    assert_eq!(
        Node::decode(&j),
        Ok(Node::Ellipse {
            node: BaseNode {
                id: "1".to_string(),
                name: "n".to_string(),
                visible: false,
                plugin_data: Some(payload),
            },
        })
    );
}

#[test]
fn plugin_data_may_be_any_value_and_null_is_unset() {
    let j = value(r#"{"type": "ELLIPSE", "id": "1", "name": "n", "pluginData": 7}"#);
    match Node::decode(&j).unwrap() {
        Node::Ellipse { node } => assert_eq!(node.plugin_data, Some(Json::Number(number("7")))),
        _ => panic!("not an ellipse"),
    }
    let j = value(r#"{"type": "ELLIPSE", "id": "1", "name": "n", "pluginData": null}"#);
    match Node::decode(&j).unwrap() {
        Node::Ellipse { node } => assert_eq!(node.plugin_data, None),
        _ => panic!("not an ellipse"),
    }
}

#[test]
fn frame_keeps_the_order_of_its_children() {
    let j = value(
        r#"{"type": "FRAME", "id": "0", "name": "f", "children": [
            {"type": "VECTOR", "id": "A", "name": "a"},
            {"type": "STAR", "id": "B", "name": "b"},
            {"type": "LINE", "id": "C", "name": "c"}
        ]}"#,
    );
    assert_eq!(
        Node::decode(&j),
        Ok(Node::Frame {
            children: vec![
                Node::Vector { node: base("A", "a") },
                Node::Star { node: base("B", "b") },
                Node::Line { node: base("C", "c") },
            ],
            node: base("0", "f"),
        })
    );
}

#[test]
fn container_requires_children() {
    assert_eq!(
        Node::decode(&leaf("FRAME")),
        Err(error(ErrorKind::MissingField, vec![field("children")]))
    );
    assert_eq!(
        Node::decode(&value(r#"{"type": "GROUP", "id": "1", "name": "n", "children": null}"#)),
        Err(error(ErrorKind::TypeMismatch, vec![field("children")]))
    );
    assert_eq!(
        Node::decode(&value(r#"{"type": "GROUP", "id": "1", "name": "n", "children": {}}"#)),
        Err(error(ErrorKind::TypeMismatch, vec![field("children")]))
    );
}

#[test]
fn leaf_never_looks_at_children() {
    let j = value(r#"{"type": "VECTOR", "id": "1:1", "name": "n", "children": "bogus"}"#);
    assert_eq!(Node::decode(&j), Ok(Node::Vector { node: base("1:1", "n") }));
}

#[test]
fn first_failing_child_fails_the_parent() {
    let j = value(
        r#"{"type": "FRAME", "id": "0", "name": "f", "children": [
            {"type": "VECTOR", "id": "A", "name": "a"},
            {"type": "STAR", "id": "B"},
            {"type": "NOPE", "id": "C", "name": "c"}
        ]}"#,
    );
    assert_eq!(
        Node::decode(&j),
        Err(error(ErrorKind::MissingField, vec![field("children"), Step::Index(1), field("name")]))
    );
}

#[test]
fn child_that_is_no_object_fails_the_parent() {
    let j = value(r#"{"type": "FRAME", "id": "0", "name": "f", "children": [7]}"#);
    assert_eq!(
        Node::decode(&j),
        Err(error(ErrorKind::TypeMismatch, vec![field("children"), Step::Index(0)]))
    );
}

#[test]
fn children_fail_before_the_base_attributes() {
    let j = value(r#"{"type": "FRAME", "children": [{"type": "NOPE"}]}"#);
    assert_eq!(
        Node::decode(&j),
        Err(error(
            ErrorKind::UnknownVariant("NOPE".to_string()),
            vec![field("children"), Step::Index(0), field("type")]
        ))
    );
}

#[test]
fn chain_of_depth_five_keeps_identity_at_each_level() {
    let j = value(
        r#"{"type": "DOCUMENT", "id": "0:0", "name": "Document", "children": [
            {"type": "CANVAS", "id": "0:1", "name": "Page 1",
             "backgroundColor": {"r": 1, "g": 1, "b": 1, "a": 1}, "exportSettings": [],
             "children": [
                {"type": "FRAME", "id": "1:2", "name": "Frame ü", "children": [
                    {"type": "GROUP", "id": "1:3", "name": "Group", "children": [
                        {"type": "VECTOR", "id": "1:4", "name": "Vector \"v\""}
                    ]}
                ]}
            ]}
        ]}"#,
    );
    assert_eq!(
        Node::decode(&j),
        Ok(Node::Document {
            children: vec![Node::Canvas {
                children: vec![Node::Frame {
                    children: vec![Node::Group {
                        children: vec![Node::Vector { node: base("1:4", "Vector \"v\"") }],
                        node: base("1:3", "Group"),
                    }],
                    node: base("1:2", "Frame ü"),
                }],
                background_color: Color {
                    r: number("1"),
                    g: number("1"),
                    b: number("1"),
                    a: number("1"),
                },
                prototype_start_node_id: None,
                export_settings: vec![],
                node: base("0:1", "Page 1"),
            }],
            node: base("0:0", "Document"),
        })
    );
}

#[test]
fn canvas_reads_every_field() {
    let j = value(
        r#"{"type": "CANVAS", "id": "0:1", "name": "Page 1", "children": [],
            "backgroundColor": {"r": 0, "g": 0, "b": 0, "a": 1},
            "prototypeStartNodeId": "1:2",
            "exportSettings": [
                {"suffix": "", "format": "SVG", "constraint": {"type": "SCALE", "value": 1}},
                {"suffix": "@2x", "format": "PNG", "constraint": {"type": "WIDTH", "value": 64}}
            ]}"#,
    );
    assert_eq!(
        Node::decode(&j),
        Ok(Node::Canvas {
            children: vec![],
            background_color: Color {
                r: number("0"),
                g: number("0"),
                b: number("0"),
                a: number("1"),
            },
            prototype_start_node_id: Some("1:2".to_string()),
            export_settings: vec![
                ExportSetting {
                    suffix: "".to_string(),
                    format: "SVG".to_string(),
                    constraint: Constraint::Scale { value: 1 },
                },
                ExportSetting {
                    suffix: "@2x".to_string(),
                    format: "PNG".to_string(),
                    constraint: Constraint::Width { value: 64 },
                },
            ],
            node: base("0:1", "Page 1"),
        })
    );
}

#[test]
fn canvas_failures() {
    assert_eq!(
        Node::decode(&value(
            r#"{"type": "CANVAS", "id": "0:1", "name": "p", "children": [], "exportSettings": []}"#
        )),
        Err(error(ErrorKind::MissingField, vec![field("backgroundColor")]))
    );
    assert_eq!(
        Node::decode(&value(
            r#"{"type": "CANVAS", "id": "0:1", "name": "p", "children": [],
                "backgroundColor": {"r": 0, "g": 0, "b": 0, "a": 1}}"#
        )),
        Err(error(ErrorKind::MissingField, vec![field("exportSettings")]))
    );
    assert_eq!(
        Node::decode(&value(
            r#"{"type": "CANVAS", "id": "0:1", "name": "p", "children": [],
                "backgroundColor": {"r": 0, "g": 0, "b": 0, "a": 1},
                "prototypeStartNodeId": 12, "exportSettings": []}"#
        )),
        Err(error(ErrorKind::TypeMismatch, vec![field("prototypeStartNodeId")]))
    );
}

#[test]
fn rectangle_keeps_both_radii_side_by_side() {
    let j = value(
        r#"{"type": "RECTANGLE", "id": "1", "name": "r",
            "corner_radius": 4.5, "rectangle_corner_radii": [1, 2, 3, 4]}"#,
    );
    assert_eq!(
        Node::decode(&j),
        Ok(Node::Rectangle {
            corner_radius: Some(Pixels { value: number("4.5") }),
            rectangle_corner_radii: Some([1, 2, 3, 4]),
            node: base("1", "r"),
        })
    );
}

#[test]
fn rectangle_with_one_radius_only() {
    let j = value(r#"{"type": "RECTANGLE", "id": "1", "name": "r", "corner_radius": 4}"#);
    assert_eq!(
        Node::decode(&j),
        Ok(Node::Rectangle {
            corner_radius: Some(Pixels { value: number("4") }),
            rectangle_corner_radii: None,
            node: base("1", "r"),
        })
    );
    let j = value(
        r#"{"type": "RECTANGLE", "id": "1", "name": "r", "rectangle_corner_radii": [0, 0, 8, 8]}"#,
    );
    assert_eq!(
        Node::decode(&j),
        Ok(Node::Rectangle {
            corner_radius: None,
            rectangle_corner_radii: Some([0, 0, 8, 8]),
            node: base("1", "r"),
        })
    );
}

#[test]
fn rectangle_failures() {
    assert_eq!(
        Node::decode(&value(
            r#"{"type": "RECTANGLE", "id": "1", "name": "r", "rectangle_corner_radii": [1, 2, 3]}"#
        )),
        Err(error(ErrorKind::TypeMismatch, vec![field("rectangle_corner_radii")]))
    );
    assert_eq!(
        Node::decode(&value(
            r#"{"type": "RECTANGLE", "id": "1", "name": "r", "rectangle_corner_radii": [1, 2, 3, 0.5]}"#
        )),
        Err(error(
            ErrorKind::TypeMismatch,
            vec![field("rectangle_corner_radii"), Step::Index(3)]
        ))
    );
    assert_eq!(
        Node::decode(&value(
            r#"{"type": "RECTANGLE", "id": "1", "name": "r", "corner_radius": "4"}"#
        )),
        Err(error(ErrorKind::TypeMismatch, vec![field("corner_radius")]))
    );
}

#[test]
fn text_failures() {
    assert_eq!(
        Node::decode(&value(r#"{"type": "TEXT", "id": "1", "name": "t"}"#)),
        Err(error(ErrorKind::MissingField, vec![field("characters")]))
    );
    assert_eq!(
        Node::decode(&value(r#"{"type": "TEXT", "id": "1", "name": "t", "characters": "x"}"#)),
        Err(error(ErrorKind::MissingField, vec![field("style")]))
    );
    assert_eq!(
        Node::decode(&value(
            r#"{"type": "TEXT", "id": "1", "name": "t", "characters": "x", "style": {}}"#
        )),
        Err(error(ErrorKind::MissingField, vec![field("style"), field("fontFamily")]))
    );
    assert_eq!(
        Node::decode(&value(r#"{"type": "SLICE", "id": "1", "name": "t"}"#)),
        Err(error(ErrorKind::MissingField, vec![field("characters")]))
    );
}

#[test]
fn hand_built_record_with_a_repeated_field_reads_the_last() {
    let j = Json::Object(vec![
        Member { name: "type".to_string(), value: Json::Text("VECTOR".to_string()) },
        Member { name: "id".to_string(), value: Json::Text("1".to_string()) },
        Member { name: "name".to_string(), value: Json::Text("first".to_string()) },
        Member { name: "name".to_string(), value: Json::Text("second".to_string()) },
    ]);
    assert_eq!(Node::decode(&j), Ok(Node::Vector { node: base("1", "second") }));
}

#[test]
fn decoding_twice_gives_equal_results() {
    let j = value(
        r#"{"type": "FRAME", "id": "0", "name": "f", "pluginData": {"k": [1, 2]}, "children": [
            {"type": "VECTOR", "id": "A", "name": "a"},
            {"type": "RECTANGLE", "id": "B", "name": "b", "corner_radius": 1}
        ]}"#,
    );
    assert_eq!(Node::decode(&j), Node::decode(&j));
    let bad = value(r#"{"type": "FRAME", "id": "0", "name": "f", "children": [{}]}"#);
    assert_eq!(Node::decode(&bad), Node::decode(&bad));
    assert!(Node::decode(&bad).is_err());
}

#[test]
fn every_shape_exposes_its_tag_and_the_base_attributes() {
    let containers = [
        ("DOCUMENT", NodeKind::Document),
        ("FRAME", NodeKind::Frame),
        ("GROUP", NodeKind::Group),
        ("BOOLEAN_OPERATION", NodeKind::BooleanOperation),
        ("COMPONENT", NodeKind::Component),
        ("COMPONENT_SET", NodeKind::ComponentSet),
        ("INSTANCE", NodeKind::Instance),
    ];
    for (tag, kind) in containers {
        let node = Node::decode(&container(tag)).unwrap();
        assert_eq!(node.kind(), kind);
        assert_eq!(node.base(), &base("1:1", "n"));
        assert_eq!(node.children(), Some(&vec![]));
    }
    let leaves = [
        ("VECTOR", NodeKind::Vector),
        ("STAR", NodeKind::Star),
        ("LINE", NodeKind::Line),
        ("ELLIPSE", NodeKind::Ellipse),
        ("REGULAR_POLYGON", NodeKind::RegularPolygon),
        ("RECTANGLE", NodeKind::Rectangle),
    ];
    for (tag, kind) in leaves {
        let node = Node::decode(&leaf(tag)).unwrap();
        assert_eq!(node.kind(), kind);
        assert_eq!(node.base(), &base("1:1", "n"));
        assert_eq!(node.children(), None);
    }
}

#[test]
fn accessors_of_the_shapes_with_fields_of_their_own() {
    let canvas = Node::decode(&value(
        r#"{"type": "CANVAS", "id": "0:1", "name": "Page 1",
            "children": [{"type": "LINE", "id": "2", "name": "l"}],
            "backgroundColor": {"r": 0, "g": 0, "b": 0, "a": 1}, "exportSettings": []}"#,
    ))
    .unwrap();
    assert_eq!(canvas.kind(), NodeKind::Canvas);
    assert_eq!(canvas.base(), &base("0:1", "Page 1"));
    assert_eq!(canvas.children(), Some(&vec![Node::Line { node: base("2", "l") }]));
    let text = Node::decode(&value(&format!(
        r#"{{"type": "TEXT", "id": "3", "name": "t", "characters": "x", "style": {}}}"#,
        STYLE
    )))
    .unwrap();
    assert_eq!(text.kind(), NodeKind::Text);
    assert_eq!(text.base(), &base("3", "t"));
    assert_eq!(text.children(), None);
    let slice =
        Node::decode(&value(r#"{"type": "SLICE", "id": "4", "name": "s", "characters": "x"}"#))
            .unwrap();
    assert_eq!(slice.kind(), NodeKind::Slice);
    assert_eq!(slice.base(), &base("4", "s"));
    assert_eq!(slice.children(), None);
}
