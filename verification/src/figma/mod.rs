//! The document model: primitives, enumerations, style records, paints,
//! nodes and the file aggregate.

pub mod enums;
pub mod file;
pub mod node;
pub mod paint;
pub mod primitives;
pub mod style;

pub use enums::{
    AlignItems, BlendMode, EasingType, HorizontalLayoutConstraint, LayoutAlign,
    LayoutGridPattern, LayoutMode, LineHeightUnit, NodeKind, PaintKind, ScaleMode, SizingMode,
    StrokeAlign, TextAutoResizeType, TextCase, TextHorizontalAlignment, TextVerticalAlignment,
    VerticalLayoutConstraint,
};
pub use file::{Component, File, Style};
pub use node::{BaseNode, Node};
pub use paint::Paint;
pub use primitives::{
    Color, ColorStop, Degrees, Percent, Pixels, Rectangle, Size, Transform, Vector,
};
pub use style::{Constraint, ExportSetting, LayoutConstraint, LayoutGrid, Padding, TypeStyle};
