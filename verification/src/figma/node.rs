//! Nodes: the tree of a document. The tag `type` selects the shape of a
//! node; every shape carries the base attributes beside its own fields, and
//! some shapes own an ordered sequence of child nodes.

use crate::error::{agrees, below, DecodeError, Failure, Place};
use crate::figma::enums::NodeKind;
use crate::figma::primitives::{ints_of, read_ints, Color, ColorModel, Pixels};
use crate::figma::style::{ExportSetting, ExportSettingModel, TypeStyle, TypeStyleModel};
use crate::json::{
    find, items_of, lemma_position, locate, lookup, members_of, position, Json, JsonValue,
    Member,
};
use crate::wire::{
    all_or_first, defaulted, defaulted_flag, each, flag_of, lemma_all_in_order,
    lemma_first_failure, number_of, optional, optional_number, optional_text, read_record,
    required, required_text, text_of,
};
use vstd::prelude::*;

verus! {

/// What every node has, whatever its shape.
#[derive(Debug, PartialEq, Eq)]
pub struct BaseNode {
    /// Unique within one document. A single node cannot tell, so nothing
    /// here enforces it.
    pub id: String,
    pub name: String,
    /// False where the input does not give it.
    pub visible: bool,
    /// Kept as it came and never looked into.
    pub plugin_data: Option<Json>,
}

/// The mathematical value of a [`BaseNode`].
pub struct BaseNodeModel {
    pub id: Seq<char>,
    pub name: Seq<char>,
    pub visible: bool,
    pub plugin_data: Option<JsonValue>,
}

impl DeepView for BaseNode {
    type V = BaseNodeModel;

    open spec fn deep_view(&self) -> BaseNodeModel {
        BaseNodeModel {
            id: self.id@,
            name: self.name@,
            visible: self.visible,
            plugin_data: self.plugin_data.deep_view(),
        }
    }
}

impl BaseNode {
    /// The base attributes, read from the members of a node's record: `id`
    /// and `name` are required, `visible` is false where absent, and
    /// `pluginData`, where it is there and not `null`, is taken over whole.
    pub open spec fn of_members(m: Seq<(Seq<char>, JsonValue)>) -> Result<
        BaseNodeModel,
        Failure,
    > {
        let id = required(m, "id"@, |v: JsonValue| text_of(v));
        let name = required(m, "name"@, |v: JsonValue| text_of(v));
        let visible = defaulted(m, "visible"@, |v: JsonValue| flag_of(v), false);
        let plugin_data = optional(m, "pluginData"@, |v: JsonValue| Ok::<JsonValue, Failure>(v));
        if id is Err {
            Err(id->Err_0)
        } else if name is Err {
            Err(name->Err_0)
        } else if visible is Err {
            Err(visible->Err_0)
        } else {
            Ok(
                BaseNodeModel {
                    id: id->Ok_0,
                    name: name->Ok_0,
                    visible: visible->Ok_0,
                    plugin_data: plugin_data->Ok_0,
                },
            )
        }
    }

    /// Decodes the base attributes from the members of a node's record.
    pub fn decode_members(m: &Vec<Member>) -> (r: Result<BaseNode, DecodeError>)
        ensures
            agrees(r, Self::of_members(members_of(m@))),
    {
        let id = required_text(m, "id")?;
        let name = required_text(m, "name")?;
        let visible = defaulted_flag(m, "visible", false)?;
        let plugin_data = match find(m, "pluginData") {
            None => None,
            Some(Json::Null) => None,
            Some(j) => Some(j.copy()),
        };
        Ok(BaseNode { id, name, visible, plugin_data })
    }
}

/// One element of the document tree.
///
/// The shapes with `children` own them, in the order of the input; the
/// other shapes are the leaves of the tree.
///
/// A rectangle may give one corner radius, four of them, both or neither;
/// the two are kept side by side and none is preferred. Its two own fields
/// are written in snake case on the wire: `corner_radius` and
/// `rectangle_corner_radii`.
#[derive(Debug, PartialEq, Eq)]
pub enum Node {
    Document { children: Vec<Node>, node: BaseNode },
    Canvas {
        children: Vec<Node>,
        background_color: Color,
        prototype_start_node_id: Option<String>,
        export_settings: Vec<ExportSetting>,
        node: BaseNode,
    },
    Frame { children: Vec<Node>, node: BaseNode },
    Group { children: Vec<Node>, node: BaseNode },
    Vector { node: BaseNode },
    BooleanOperation { children: Vec<Node>, node: BaseNode },
    Star { node: BaseNode },
    Line { node: BaseNode },
    Ellipse { node: BaseNode },
    RegularPolygon { node: BaseNode },
    Rectangle {
        corner_radius: Option<Pixels>,
        rectangle_corner_radii: Option<[i32; 4]>,
        node: BaseNode,
    },
    Text { characters: String, style: TypeStyle, node: BaseNode },
    Slice { characters: String, node: BaseNode },
    Component { children: Vec<Node>, node: BaseNode },
    ComponentSet { children: Vec<Node>, node: BaseNode },
    Instance { children: Vec<Node>, node: BaseNode },
}

/// The mathematical value of a [`Node`].
pub enum NodeModel {
    Document { children: Seq<NodeModel>, node: BaseNodeModel },
    Canvas {
        children: Seq<NodeModel>,
        background_color: ColorModel,
        prototype_start_node_id: Option<Seq<char>>,
        export_settings: Seq<ExportSettingModel>,
        node: BaseNodeModel,
    },
    Frame { children: Seq<NodeModel>, node: BaseNodeModel },
    Group { children: Seq<NodeModel>, node: BaseNodeModel },
    Vector { node: BaseNodeModel },
    BooleanOperation { children: Seq<NodeModel>, node: BaseNodeModel },
    Star { node: BaseNodeModel },
    Line { node: BaseNodeModel },
    Ellipse { node: BaseNodeModel },
    RegularPolygon { node: BaseNodeModel },
    Rectangle {
        corner_radius: Option<Seq<char>>,
        rectangle_corner_radii: Option<Seq<i32>>,
        node: BaseNodeModel,
    },
    Text { characters: Seq<char>, style: TypeStyleModel, node: BaseNodeModel },
    Slice { characters: Seq<char>, node: BaseNodeModel },
    Component { children: Seq<NodeModel>, node: BaseNodeModel },
    ComponentSet { children: Seq<NodeModel>, node: BaseNodeModel },
    Instance { children: Seq<NodeModel>, node: BaseNodeModel },
}

/// The values of a sequence of nodes, in order.
pub open spec fn nodes_of(nodes: Seq<Node>) -> Seq<NodeModel>
    decreases nodes,
{
    Seq::new(
        nodes.len(),
        |i: int|
            if 0 <= i < nodes.len() {
                nodes[i].deep_view()
            } else {
                arbitrary()
            },
    )
}

/// Four radii that may be unset, as a sequence.
pub open spec fn optional_radii(radii: Option<[i32; 4]>) -> Option<Seq<i32>> {
    match radii {
        Some(a) => Some(a@),
        None => None,
    }
}

impl DeepView for Node {
    type V = NodeModel;

    open spec fn deep_view(&self) -> NodeModel
        decreases self,
    {
        match self {
            Node::Document { children, node } => NodeModel::Document {
                children: nodes_of(children@),
                node: node.deep_view(),
            },
            Node::Canvas {
                children,
                background_color,
                prototype_start_node_id,
                export_settings,
                node,
            } => NodeModel::Canvas {
                children: nodes_of(children@),
                background_color: background_color.deep_view(),
                prototype_start_node_id: prototype_start_node_id.deep_view(),
                export_settings: export_settings.deep_view(),
                node: node.deep_view(),
            },
            Node::Frame { children, node } => NodeModel::Frame {
                children: nodes_of(children@),
                node: node.deep_view(),
            },
            Node::Group { children, node } => NodeModel::Group {
                children: nodes_of(children@),
                node: node.deep_view(),
            },
            Node::Vector { node } => NodeModel::Vector { node: node.deep_view() },
            Node::BooleanOperation { children, node } => NodeModel::BooleanOperation {
                children: nodes_of(children@),
                node: node.deep_view(),
            },
            Node::Star { node } => NodeModel::Star { node: node.deep_view() },
            Node::Line { node } => NodeModel::Line { node: node.deep_view() },
            Node::Ellipse { node } => NodeModel::Ellipse { node: node.deep_view() },
            Node::RegularPolygon { node } => NodeModel::RegularPolygon { node: node.deep_view() },
            Node::Rectangle { corner_radius, rectangle_corner_radii, node } => {
                NodeModel::Rectangle {
                    corner_radius: corner_radius.deep_view(),
                    rectangle_corner_radii: optional_radii(*rectangle_corner_radii),
                    node: node.deep_view(),
                }
            },
            Node::Text { characters, style, node } => NodeModel::Text {
                characters: characters@,
                style: style.deep_view(),
                node: node.deep_view(),
            },
            Node::Slice { characters, node } => NodeModel::Slice {
                characters: characters@,
                node: node.deep_view(),
            },
            Node::Component { children, node } => NodeModel::Component {
                children: nodes_of(children@),
                node: node.deep_view(),
            },
            Node::ComponentSet { children, node } => NodeModel::ComponentSet {
                children: nodes_of(children@),
                node: node.deep_view(),
            },
            Node::Instance { children, node } => NodeModel::Instance {
                children: nodes_of(children@),
                node: node.deep_view(),
            },
        }
    }
}

impl NodeKind {
    /// The shapes that own nothing but children and the base attributes.
    pub open spec fn is_container(self) -> bool {
        self == NodeKind::Document || self == NodeKind::Frame || self == NodeKind::Group || self
            == NodeKind::BooleanOperation || self == NodeKind::Component || self
            == NodeKind::ComponentSet || self == NodeKind::Instance
    }

    /// The shapes that own nothing but the base attributes.
    pub open spec fn is_plain_leaf(self) -> bool {
        self == NodeKind::Vector || self == NodeKind::Star || self == NodeKind::Line || self
            == NodeKind::Ellipse || self == NodeKind::RegularPolygon
    }

    /// The shapes that have a field `children`; every other shape is a
    /// leaf of the tree.
    pub open spec fn has_children(self) -> bool {
        self.is_container() || self == NodeKind::Canvas
    }
}

impl NodeModel {
    /// The container of the given kind.
    pub open spec fn container(
        kind: NodeKind,
        children: Seq<NodeModel>,
        node: BaseNodeModel,
    ) -> NodeModel
        recommends
            kind.is_container(),
    {
        match kind {
            NodeKind::Document => NodeModel::Document { children, node },
            NodeKind::Frame => NodeModel::Frame { children, node },
            NodeKind::Group => NodeModel::Group { children, node },
            NodeKind::BooleanOperation => NodeModel::BooleanOperation { children, node },
            NodeKind::Component => NodeModel::Component { children, node },
            NodeKind::ComponentSet => NodeModel::ComponentSet { children, node },
            _ => NodeModel::Instance { children, node },
        }
    }

    /// The leaf of the given kind.
    pub open spec fn plain_leaf(kind: NodeKind, node: BaseNodeModel) -> NodeModel
        recommends
            kind.is_plain_leaf(),
    {
        match kind {
            NodeKind::Vector => NodeModel::Vector { node },
            NodeKind::Star => NodeModel::Star { node },
            NodeKind::Line => NodeModel::Line { node },
            NodeKind::Ellipse => NodeModel::Ellipse { node },
            _ => NodeModel::RegularPolygon { node },
        }
    }

    /// The tag of a node's shape.
    pub open spec fn kind(self) -> NodeKind {
        match self {
            NodeModel::Document { .. } => NodeKind::Document,
            NodeModel::Canvas { .. } => NodeKind::Canvas,
            NodeModel::Frame { .. } => NodeKind::Frame,
            NodeModel::Group { .. } => NodeKind::Group,
            NodeModel::Vector { .. } => NodeKind::Vector,
            NodeModel::BooleanOperation { .. } => NodeKind::BooleanOperation,
            NodeModel::Star { .. } => NodeKind::Star,
            NodeModel::Line { .. } => NodeKind::Line,
            NodeModel::Ellipse { .. } => NodeKind::Ellipse,
            NodeModel::RegularPolygon { .. } => NodeKind::RegularPolygon,
            NodeModel::Rectangle { .. } => NodeKind::Rectangle,
            NodeModel::Text { .. } => NodeKind::Text,
            NodeModel::Slice { .. } => NodeKind::Slice,
            NodeModel::Component { .. } => NodeKind::Component,
            NodeModel::ComponentSet { .. } => NodeKind::ComponentSet,
            NodeModel::Instance { .. } => NodeKind::Instance,
        }
    }

    /// The base attributes of a node.
    pub open spec fn base(self) -> BaseNodeModel {
        match self {
            NodeModel::Document { node, .. } => node,
            NodeModel::Canvas { node, .. } => node,
            NodeModel::Frame { node, .. } => node,
            NodeModel::Group { node, .. } => node,
            NodeModel::Vector { node } => node,
            NodeModel::BooleanOperation { node, .. } => node,
            NodeModel::Star { node } => node,
            NodeModel::Line { node } => node,
            NodeModel::Ellipse { node } => node,
            NodeModel::RegularPolygon { node } => node,
            NodeModel::Rectangle { node, .. } => node,
            NodeModel::Text { node, .. } => node,
            NodeModel::Slice { node, .. } => node,
            NodeModel::Component { node, .. } => node,
            NodeModel::ComponentSet { node, .. } => node,
            NodeModel::Instance { node, .. } => node,
        }
    }

    /// The children of a node; a leaf has none.
    pub open spec fn children(self) -> Seq<NodeModel> {
        match self {
            NodeModel::Document { children, .. } => children,
            NodeModel::Canvas { children, .. } => children,
            NodeModel::Frame { children, .. } => children,
            NodeModel::Group { children, .. } => children,
            NodeModel::BooleanOperation { children, .. } => children,
            NodeModel::Component { children, .. } => children,
            NodeModel::ComponentSet { children, .. } => children,
            NodeModel::Instance { children, .. } => children,
            _ => Seq::empty(),
        }
    }
}

impl Node {
    /// A container: its children, then the base attributes.
    pub open spec fn container_of(
        kind: NodeKind,
        m: Seq<(Seq<char>, JsonValue)>,
        children: Result<Seq<NodeModel>, Failure>,
    ) -> Result<NodeModel, Failure> {
        let node = BaseNode::of_members(m);
        if children is Err {
            Err(children->Err_0)
        } else if node is Err {
            Err(node->Err_0)
        } else {
            Ok(NodeModel::container(kind, children->Ok_0, node->Ok_0))
        }
    }

    /// A canvas: its children, the required background color, the start
    /// node of the prototype, which may be unset, the required export
    /// settings, then the base attributes.
    pub open spec fn canvas_of(
        m: Seq<(Seq<char>, JsonValue)>,
        children: Result<Seq<NodeModel>, Failure>,
    ) -> Result<NodeModel, Failure> {
        let background_color = required(m, "backgroundColor"@, |v: JsonValue| Color::decoded(v));
        let prototype_start_node_id = optional(
            m,
            "prototypeStartNodeId"@,
            |v: JsonValue| text_of(v),
        );
        let export_settings = required(
            m,
            "exportSettings"@,
            |v: JsonValue| each(v, |x: JsonValue| ExportSetting::decoded(x)),
        );
        let node = BaseNode::of_members(m);
        if children is Err {
            Err(children->Err_0)
        } else if background_color is Err {
            Err(background_color->Err_0)
        } else if prototype_start_node_id is Err {
            Err(prototype_start_node_id->Err_0)
        } else if export_settings is Err {
            Err(export_settings->Err_0)
        } else if node is Err {
            Err(node->Err_0)
        } else {
            Ok(
                NodeModel::Canvas {
                    children: children->Ok_0,
                    background_color: background_color->Ok_0,
                    prototype_start_node_id: prototype_start_node_id->Ok_0,
                    export_settings: export_settings->Ok_0,
                    node: node->Ok_0,
                },
            )
        }
    }

    /// A leaf with nothing of its own: the base attributes.
    pub open spec fn plain_leaf_of(kind: NodeKind, m: Seq<(Seq<char>, JsonValue)>) -> Result<
        NodeModel,
        Failure,
    > {
        match BaseNode::of_members(m) {
            Ok(node) => Ok(NodeModel::plain_leaf(kind, node)),
            Err(f) => Err(f),
        }
    }

    /// A rectangle: one corner radius and four corner radii, each of which
    /// may be unset, then the base attributes.
    pub open spec fn rectangle_of(m: Seq<(Seq<char>, JsonValue)>) -> Result<NodeModel, Failure> {
        let corner_radius = optional(m, "corner_radius"@, |v: JsonValue| number_of(v));
        let rectangle_corner_radii = optional(
            m,
            "rectangle_corner_radii"@,
            |v: JsonValue| ints_of(v, 4),
        );
        let node = BaseNode::of_members(m);
        if corner_radius is Err {
            Err(corner_radius->Err_0)
        } else if rectangle_corner_radii is Err {
            Err(rectangle_corner_radii->Err_0)
        } else if node is Err {
            Err(node->Err_0)
        } else {
            Ok(
                NodeModel::Rectangle {
                    corner_radius: corner_radius->Ok_0,
                    rectangle_corner_radii: rectangle_corner_radii->Ok_0,
                    node: node->Ok_0,
                },
            )
        }
    }

    /// A text: its characters and its style, both required, then the base
    /// attributes.
    pub open spec fn text_node_of(m: Seq<(Seq<char>, JsonValue)>) -> Result<NodeModel, Failure> {
        let characters = required(m, "characters"@, |v: JsonValue| text_of(v));
        let style = required(m, "style"@, |v: JsonValue| TypeStyle::decoded(v));
        let node = BaseNode::of_members(m);
        if characters is Err {
            Err(characters->Err_0)
        } else if style is Err {
            Err(style->Err_0)
        } else if node is Err {
            Err(node->Err_0)
        } else {
            Ok(
                NodeModel::Text {
                    characters: characters->Ok_0,
                    style: style->Ok_0,
                    node: node->Ok_0,
                },
            )
        }
    }

    /// A slice: its required characters, then the base attributes.
    pub open spec fn slice_of(m: Seq<(Seq<char>, JsonValue)>) -> Result<NodeModel, Failure> {
        let characters = required(m, "characters"@, |v: JsonValue| text_of(v));
        let node = BaseNode::of_members(m);
        if characters is Err {
            Err(characters->Err_0)
        } else if node is Err {
            Err(node->Err_0)
        } else {
            Ok(NodeModel::Slice { characters: characters->Ok_0, node: node->Ok_0 })
        }
    }

    /// The node of the given kind, read from the members of its record;
    /// `children` is what the field `children` decodes to. Only the fields
    /// of the kind's shape are read, so a leaf never looks at `children`.
    pub open spec fn shaped(
        kind: NodeKind,
        m: Seq<(Seq<char>, JsonValue)>,
        children: Result<Seq<NodeModel>, Failure>,
    ) -> Result<NodeModel, Failure> {
        if kind == NodeKind::Canvas {
            Self::canvas_of(m, children)
        } else if kind == NodeKind::Rectangle {
            Self::rectangle_of(m)
        } else if kind == NodeKind::Text {
            Self::text_node_of(m)
        } else if kind == NodeKind::Slice {
            Self::slice_of(m)
        } else if kind.is_plain_leaf() {
            Self::plain_leaf_of(kind, m)
        } else {
            Self::container_of(kind, m, children)
        }
    }

    /// What each item of a field `children` decodes to, the failures already
    /// under the item's index.
    pub open spec fn child_results(items: Seq<JsonValue>) -> Seq<Result<NodeModel, Failure>>
        decreases items,
    {
        Seq::new(
            items.len(),
            |k: int|
                if 0 <= k < items.len() {
                    below(Place::Index(k), Self::decoded(items[k]))
                } else {
                    Err(Failure::mismatch())
                },
        )
    }

    /// What the field `children` of a record decodes to: it must be there
    /// and hold an array, each item of which is decoded as a node, in
    /// order. The first child that fails decides the error, which is
    /// reported under `children` and the child's index.
    pub open spec fn children_of(m: Seq<(Seq<char>, JsonValue)>) -> Result<Seq<NodeModel>, Failure>
        decreases m,
    {
        let i = position(m, "children"@);
        if 0 <= i < m.len() {
            match m[i].1 {
                JsonValue::Array(items) => below(
                    Place::Field("children"@),
                    all_or_first(Self::child_results(items)),
                ),
                _ => Err(Failure::mismatch().under(Place::Field("children"@))),
            }
        } else {
            Err(Failure::missing("children"@))
        }
    }

    /// The node read from a value. Anything but an object is a type
    /// mismatch. The tag `type` is read first: missing, it is a missing
    /// field; outside the vocabulary, an unknown variant that carries the
    /// tag; both at `type`. The tag selects the shape, and the fields of
    /// that shape are read in the order of their declaration.
    pub open spec fn decoded(v: JsonValue) -> Result<NodeModel, Failure>
        decreases v,
    {
        match v {
            JsonValue::Object(m) => match required(
                m,
                "type"@,
                |t: JsonValue| NodeKind::decoded(t),
            ) {
                Ok(kind) => Self::shaped(kind, m, Self::children_of(m)),
                Err(f) => Err(f),
            },
            _ => Err(Failure::mismatch()),
        }
    }
    /// A record without the field `type` is refused as a missing field
    /// that names `type`, whatever else the record holds.
    pub proof fn lemma_missing_tag(m: Seq<(Seq<char>, JsonValue)>)
        requires
            lookup(m, "type"@) is None,
        ensures
            Self::decoded(JsonValue::Object(m)) == Err::<NodeModel, Failure>(
                Failure::missing("type"@),
            ),
    {
    }

    /// Default application: a node whose record has no field `visible` is
    /// not visible.
    pub proof fn lemma_visible_defaults_to_false(m: Seq<(Seq<char>, JsonValue)>)
        requires
            lookup(m, "visible"@) is None,
            Self::decoded(JsonValue::Object(m)) is Ok,
        ensures
            Self::decoded(JsonValue::Object(m))->Ok_0.base().visible == false,
    {
    }

    /// Every node that decodes has the shape that its tag names.
    pub proof fn lemma_shape_follows_tag(m: Seq<(Seq<char>, JsonValue)>)
        requires
            Self::decoded(JsonValue::Object(m)) is Ok,
        ensures
            lookup(m, "type"@) is Some,
            NodeKind::decoded(lookup(m, "type"@)->0) == Ok::<NodeKind, Failure>(
                Self::decoded(JsonValue::Object(m))->Ok_0.kind(),
            ),
    {
    }

    /// Order preservation: a node with children that decodes has one child
    /// for each item of its field `children`, in the order of the input,
    /// and each child is what its own item decodes to.
    pub proof fn lemma_children_in_order(m: Seq<(Seq<char>, JsonValue)>)
        requires
            Self::decoded(JsonValue::Object(m)) is Ok,
            Self::decoded(JsonValue::Object(m))->Ok_0.kind().has_children(),
        ensures
            lookup(m, "children"@) matches Some(JsonValue::Array(items)) && {
                let children = Self::decoded(JsonValue::Object(m))->Ok_0.children();
                &&& children.len() == items.len()
                &&& forall|k: int|
                    0 <= k < items.len() ==> Self::decoded(#[trigger] items[k]) == Ok::<
                        NodeModel,
                        Failure,
                    >(children[k])
            },
    {
        lemma_position(m, "children"@);
        let i = position(m, "children"@);
        let items = m[i].1->Array_0;
        let rs = Self::child_results(items);
        lemma_all_in_order(rs);
        let children = Self::decoded(JsonValue::Object(m))->Ok_0.children();
        assert(children == all_or_first(rs)->Ok_0);
        assert forall|k: int| 0 <= k < items.len() implies Self::decoded(#[trigger] items[k])
            == Ok::<NodeModel, Failure>(children[k]) by {
            assert(rs[k] == Ok::<NodeModel, Failure>(children[k]));
        }
    }

    /// All-or-nothing: where a child of a node fails to decode and every
    /// child before it decodes, the node fails with the child's failure,
    /// reported under `children` and the child's index.
    pub proof fn lemma_child_failure(m: Seq<(Seq<char>, JsonValue)>, kind: NodeKind, k: int)
        requires
            required(m, "type"@, |t: JsonValue| NodeKind::decoded(t)) == Ok::<NodeKind, Failure>(
                kind,
            ),
            kind.has_children(),
            lookup(m, "children"@) matches Some(JsonValue::Array(items)) && {
                &&& 0 <= k < items.len()
                &&& Self::decoded(items[k]) is Err
                &&& forall|t: int| 0 <= t < k ==> Self::decoded(#[trigger] items[t]) is Ok
            },
        ensures
            Self::decoded(JsonValue::Object(m)) == Err::<NodeModel, Failure>(
                Self::decoded(lookup(m, "children"@)->0->Array_0[k])->Err_0.under(
                    Place::Index(k),
                ).under(Place::Field("children"@)),
            ),
    {
        lemma_position(m, "children"@);
        let items = lookup(m, "children"@)->0->Array_0;
        let rs = Self::child_results(items);
        assert forall|t: int| 0 <= t < k implies (#[trigger] rs[t]) is Ok by {
            assert(Self::decoded(items[t]) is Ok);
        }
        lemma_first_failure(rs, k);
    }

    fn container(kind: NodeKind, children: Vec<Node>, node: BaseNode) -> (n: Node)
        requires
            kind.is_container(),
        ensures
            n.deep_view() == NodeModel::container(kind, nodes_of(children@), node.deep_view()),
    {
        match kind {
            NodeKind::Document => Node::Document { children, node },
            NodeKind::Frame => Node::Frame { children, node },
            NodeKind::Group => Node::Group { children, node },
            NodeKind::BooleanOperation => Node::BooleanOperation { children, node },
            NodeKind::Component => Node::Component { children, node },
            NodeKind::ComponentSet => Node::ComponentSet { children, node },
            _ => Node::Instance { children, node },
        }
    }

    fn plain_leaf(kind: NodeKind, node: BaseNode) -> (n: Node)
        requires
            kind.is_plain_leaf(),
        ensures
            n.deep_view() == NodeModel::plain_leaf(kind, node.deep_view()),
    {
        match kind {
            NodeKind::Vector => Node::Vector { node },
            NodeKind::Star => Node::Star { node },
            NodeKind::Line => Node::Line { node },
            NodeKind::Ellipse => Node::Ellipse { node },
            _ => Node::RegularPolygon { node },
        }
    }

    fn finish_canvas(m: &Vec<Member>, children: Vec<Node>) -> (r: Result<Node, DecodeError>)
        ensures
            agrees(
                r,
                Self::canvas_of(members_of(m@), Ok::<Seq<NodeModel>, Failure>(nodes_of(children@))),
            ),
    {
        let background_color = Color::required(m, "backgroundColor")?;
        let prototype_start_node_id = optional_text(m, "prototypeStartNodeId")?;
        let export_settings = ExportSetting::required_all(m, "exportSettings")?;
        let node = BaseNode::decode_members(m)?;
        Ok(
            Node::Canvas {
                children,
                background_color,
                prototype_start_node_id,
                export_settings,
                node,
            },
        )
    }

    fn decode_rectangle(m: &Vec<Member>) -> (r: Result<Node, DecodeError>)
        ensures
            agrees(r, Self::rectangle_of(members_of(m@))),
    {
        let corner_radius = match optional_number(m, "corner_radius")? {
            Some(value) => Some(Pixels { value }),
            None => None,
        };
        let rectangle_corner_radii = match find(m, "rectangle_corner_radii") {
            None => None,
            Some(Json::Null) => None,
            Some(j) => match read_ints(j, 4) {
                Ok(v) => {
                    assert(v.deep_view().len() == 4);
                    let radii = [v[0], v[1], v[2], v[3]];
                    assert(radii@ =~= v.deep_view());
                    Some(radii)
                },
                Err(e) => { return Err(e.under_field("rectangle_corner_radii")); },
            },
        };
        let node = BaseNode::decode_members(m)?;
        Ok(Node::Rectangle { corner_radius, rectangle_corner_radii, node })
    }

    fn decode_text(m: &Vec<Member>) -> (r: Result<Node, DecodeError>)
        ensures
            agrees(r, Self::text_node_of(members_of(m@))),
    {
        let characters = required_text(m, "characters")?;
        let style = TypeStyle::required(m, "style")?;
        let node = BaseNode::decode_members(m)?;
        Ok(Node::Text { characters, style, node })
    }

    fn decode_slice(m: &Vec<Member>) -> (r: Result<Node, DecodeError>)
        ensures
            agrees(r, Self::slice_of(members_of(m@))),
    {
        let characters = required_text(m, "characters")?;
        let node = BaseNode::decode_members(m)?;
        Ok(Node::Slice { characters, node })
    }

    /// The tag of the node's shape.
    pub fn kind(&self) -> (k: NodeKind)
        ensures
            k == self.deep_view().kind(),
    {
        match self {
            Node::Document { .. } => NodeKind::Document,
            Node::Canvas { .. } => NodeKind::Canvas,
            Node::Frame { .. } => NodeKind::Frame,
            Node::Group { .. } => NodeKind::Group,
            Node::Vector { .. } => NodeKind::Vector,
            Node::BooleanOperation { .. } => NodeKind::BooleanOperation,
            Node::Star { .. } => NodeKind::Star,
            Node::Line { .. } => NodeKind::Line,
            Node::Ellipse { .. } => NodeKind::Ellipse,
            Node::RegularPolygon { .. } => NodeKind::RegularPolygon,
            Node::Rectangle { .. } => NodeKind::Rectangle,
            Node::Text { .. } => NodeKind::Text,
            Node::Slice { .. } => NodeKind::Slice,
            Node::Component { .. } => NodeKind::Component,
            Node::ComponentSet { .. } => NodeKind::ComponentSet,
            Node::Instance { .. } => NodeKind::Instance,
        }
    }

    /// The base attributes, which a node of every shape has.
    pub fn base(&self) -> (b: &BaseNode)
        ensures
            b.deep_view() == self.deep_view().base(),
    {
        match self {
            Node::Document { node, .. } => node,
            Node::Canvas { node, .. } => node,
            Node::Frame { node, .. } => node,
            Node::Group { node, .. } => node,
            Node::Vector { node } => node,
            Node::BooleanOperation { node, .. } => node,
            Node::Star { node } => node,
            Node::Line { node } => node,
            Node::Ellipse { node } => node,
            Node::RegularPolygon { node } => node,
            Node::Rectangle { node, .. } => node,
            Node::Text { node, .. } => node,
            Node::Slice { node, .. } => node,
            Node::Component { node, .. } => node,
            Node::ComponentSet { node, .. } => node,
            Node::Instance { node, .. } => node,
        }
    }

    /// The children of a node of a shape that owns children; `None` for a
    /// leaf of the tree.
    pub fn children(&self) -> (c: Option<&Vec<Node>>)
        ensures
            c is Some <==> self.deep_view().kind().has_children(),
            c matches Some(nodes) ==> nodes_of(nodes@) == self.deep_view().children(),
    {
        match self {
            Node::Document { children, .. } => Some(children),
            Node::Canvas { children, .. } => Some(children),
            Node::Frame { children, .. } => Some(children),
            Node::Group { children, .. } => Some(children),
            Node::BooleanOperation { children, .. } => Some(children),
            Node::Component { children, .. } => Some(children),
            Node::ComponentSet { children, .. } => Some(children),
            Node::Instance { children, .. } => Some(children),
            _ => None,
        }
    }

    /// Decodes the field `children` of a node's record.
    fn decode_children(m: &Vec<Member>) -> (r: Result<Vec<Node>, DecodeError>)
        ensures
            match r {
                Ok(c) => Self::children_of(members_of(m@)) == Ok::<Seq<NodeModel>, Failure>(
                    nodes_of(c@),
                ),
                Err(e) => Self::children_of(members_of(m@)) == Err::<Seq<NodeModel>, Failure>(
                    e.deep_view(),
                ),
            },
        decreases m,
    {
        proof {
            lemma_position(members_of(m@), "children"@);
        }
        let i = match locate(m, "children") {
            Some(i) => i,
            None => { return Err(DecodeError::missing("children")); },
        };
        let items = match &m[i].value {
            Json::Array(items) => items,
            _ => { return Err(DecodeError::mismatch().under_field("children")); },
        };
        let ghost values = items_of(items@);
        let ghost rs = Self::child_results(values);
        let mut out: Vec<Node> = Vec::new();
        let mut k: usize = 0;
        while k < items.len()
            invariant
                0 <= k <= items.len(),
                0 <= i < m.len(),
                m[i as int].value == Json::Array(*items),
                values == items_of(items@),
                rs == Self::child_results(values),
                Self::children_of(members_of(m@)) == below(
                    Place::Field("children"@),
                    all_or_first(rs),
                ),
                out.len() == k,
                forall|t: int|
                    0 <= t < k ==> Self::decoded(#[trigger] values[t]) == Ok::<NodeModel, Failure>(
                        out[t].deep_view(),
                    ),
            decreases items.len() - k,
        {
            proof {
                // the child lies inside the record that this call was given
                vstd::std_specs::vec::axiom_vec_index_decreases(*m, i as int);
                vstd::std_specs::vec::axiom_vec_index_decreases(*items, k as int);
                assert(decreases_to!(m[i as int] => m[i as int].value));
                assert(decreases_to!(m[i as int].value => m[i as int].value->Array_0));
            }
            match Self::decode(&items[k]) {
                Ok(x) => {
                    out.push(x);
                },
                Err(e) => {
                    proof {
                        assert forall|t: int| 0 <= t < k implies (#[trigger] rs[t]) is Ok by {
                            assert(Self::decoded(values[t]) is Ok);
                        }
                        lemma_first_failure(rs, k as int);
                    }
                    return Err(e.under_index(k).under_field("children"));
                },
            }
            k = k + 1;
        }
        proof {
            assert forall|t: int| 0 <= t < rs.len() implies (#[trigger] rs[t]) is Ok by {
                assert(Self::decoded(values[t]) is Ok);
            }
            assert(Seq::new(rs.len(), |t: int| rs[t]->Ok_0) =~= nodes_of(out@)) by {
                assert forall|t: int| 0 <= t < rs.len() implies rs[t]->Ok_0 == nodes_of(
                    out@,
                )[t] by {
                    assert(Self::decoded(values[t]) is Ok);
                }
            }
        }
        Ok(out)
    }

    /// Decodes a node and, through its children, the whole tree below it.
    /// The decode is all-or-nothing: a failure anywhere in the tree fails
    /// the call, with the path from this node to the place of the failure.
    pub fn decode(j: &Json) -> (r: Result<Node, DecodeError>)
        ensures
            agrees(r, Self::decoded(j.deep_view())),
        decreases j,
    {
        let m = read_record(j)?;
        let kind = NodeKind::required(m, "type")?;
        match kind {
            NodeKind::Canvas => {
                let children = Self::decode_children(m)?;
                Self::finish_canvas(m, children)
            },
            NodeKind::Rectangle => Self::decode_rectangle(m),
            NodeKind::Text => Self::decode_text(m),
            NodeKind::Slice => Self::decode_slice(m),
            NodeKind::Vector | NodeKind::Star | NodeKind::Line | NodeKind::Ellipse
            | NodeKind::RegularPolygon => {
                let node = BaseNode::decode_members(m)?;
                Ok(Self::plain_leaf(kind, node))
            },
            _ => {
                let children = Self::decode_children(m)?;
                let node = BaseNode::decode_members(m)?;
                Ok(Self::container(kind, children, node))
            },
        }
    }
}

} // verus!
