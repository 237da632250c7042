//! The display list that layout hands over: a flat sequence of display
//! items in paint order, and the clip and scroll nodes that the items refer
//! to by index.

use crate::cursor::Cursor;
use crate::geometry::AuRect;
use crate::scene::StickyMargins;
use crate::scroll_tree::ScrollSensitivity;
use vstd::prelude::*;
use webrender_api::units::{LayoutRect, LayoutSideOffsets, LayoutSize, LayoutTransform, LayoutVector2D};
use webrender_api::{
    AlphaType, BorderDetails, BorderRadius, BoxShadowClipMode, ColorF, ComplexClipRegion,
    ExternalScrollId, FilterOp, FontInstanceKey, GlyphInstance, GlyphOptions, Gradient,
    GradientStop, ImageKey, ImageRendering, LineOrientation, LineStyle, MixBlendMode, PipelineId,
    RadialGradient, Shadow, StickyOffsetBounds, TransformStyle,
};

verus! {

/// The index of a clip and scroll node of a display list.
#[derive(Clone, Copy, Debug, PartialEq, Eq, Structural)]
pub struct ClipScrollNodeIndex(pub usize);

impl ClipScrollNodeIndex {
    /// The index of the root reference frame.
    pub fn root_reference_frame() -> (i: ClipScrollNodeIndex)
        ensures
            i.0 == 0,
    {
        ClipScrollNodeIndex(0)
    }

    /// The index of the root scroll node.
    pub fn root_scroll_node() -> (i: ClipScrollNodeIndex)
        ensures
            i.0 == 1,
    {
        ClipScrollNodeIndex(1)
    }

    /// The index as a position in the node list.
    pub fn to_index(self) -> (i: usize)
        ensures
            i == self.0,
    {
        self.0
    }
}

/// The scroll node that an item moves with and, where it differs from that
/// node's own clip, the node that clips the item.
#[derive(Clone, Copy, Debug, PartialEq, Eq, Structural)]
pub struct ClippingAndScrolling {
    pub scrolling: ClipScrollNodeIndex,
    pub clipping: Option<ClipScrollNodeIndex>,
}

impl ClippingAndScrolling {
    /// The node that clips the item: the clipping node where one is given,
    /// else the scroll node.
    pub open spec fn clip_index(self) -> int {
        match self.clipping {
            Some(c) => c.0 as int,
            None => self.scrolling.0 as int,
        }
    }

    /// The node that clips the item.
    pub fn clipping_index(self) -> (i: usize)
        ensures
            i == self.clip_index(),
    {
        match self.clipping {
            Some(c) => c.to_index(),
            None => self.scrolling.to_index(),
        }
    }
}

/// Where an item comes from: the node that painted it and the cursor to show
/// over it, if pointer events reach it.
#[derive(Clone, Copy, Debug, PartialEq, Eq, Structural)]
pub struct DisplayItemMetadata {
    pub node: u64,
    pub cursor: Option<Cursor>,
}

/// What every display item carries.
#[derive(Clone, Copy)]
pub struct BaseDisplayItem {
    pub clip_rect: LayoutRect,
    pub metadata: DisplayItemMetadata,
    pub clipping_and_scrolling: ClippingAndScrolling,
}

/// A grouping of items that paint together, optionally in a coordinate space
/// of its own.
pub struct StackingContext {
    /// Where the context lies, in app units.
    pub bounds: AuRect,
    pub transform: Option<LayoutTransform>,
    pub perspective: Option<LayoutTransform>,
    pub transform_style: TransformStyle,
    pub mix_blend_mode: MixBlendMode,
    pub filters: Vec<FilterOp>,
    /// The node that stands for the context's reference frame, where it
    /// establishes one.
    pub established_reference_frame: Option<ClipScrollNodeIndex>,
}

/// The shape of a clip.
#[derive(Clone, Copy)]
pub enum ClipType {
    Rounded(ComplexClipRegion),
    Rect,
}

/// How a sticky frame sticks.
#[derive(Clone, Copy)]
pub struct StickyFrameData {
    pub margins: StickyMargins,
    pub vertical_offset_bounds: StickyOffsetBounds,
    pub horizontal_offset_bounds: StickyOffsetBounds,
}

/// What a clip and scroll node is.
#[derive(Clone, Copy)]
pub enum ClipScrollNodeType {
    /// A node that layout has not resolved. No item may define it.
    Placeholder,
    ScrollFrame(ScrollSensitivity, ExternalScrollId),
    StickyFrame(StickyFrameData),
    Clip(ClipType),
}

/// A clip and scroll node. Its geometry is in app units.
#[derive(Clone, Copy)]
pub struct ClipScrollNode {
    pub parent_index: ClipScrollNodeIndex,
    /// The rectangle that the node clips to.
    pub clip: AuRect,
    /// The extent of what the node holds.
    pub content_rect: AuRect,
    pub node_type: ClipScrollNodeType,
}

/// One display item. What an item paints is held as the rasterizer takes
/// it; what the lowering computes on is held in app units.
#[allow(inconsistent_fields)]
pub enum DisplayItem {
    /// A rectangle of one colour that fills the item's clip rectangle.
    Rectangle { base: BaseDisplayItem, color: ColorF },
    /// A run of glyphs.
    Text {
        base: BaseDisplayItem,
        bounds: LayoutRect,
        font_key: FontInstanceKey,
        color: ColorF,
        glyph_options: Option<GlyphOptions>,
        glyphs: Vec<GlyphInstance>,
    },
    /// An image, drawn once.
    Image {
        base: BaseDisplayItem,
        bounds: LayoutRect,
        image_rendering: ImageRendering,
        alpha_type: AlphaType,
        image_key: ImageKey,
        color: ColorF,
    },
    /// An image, tiled.
    RepeatingImage {
        base: BaseDisplayItem,
        bounds: LayoutRect,
        stretch_size: LayoutSize,
        tile_spacing: LayoutSize,
        image_rendering: ImageRendering,
        alpha_type: AlphaType,
        image_key: ImageKey,
        color: ColorF,
    },
    /// A border; the stops are those of a gradient border.
    Border {
        base: BaseDisplayItem,
        bounds: LayoutRect,
        widths: LayoutSideOffsets,
        details: BorderDetails,
        stops: Vec<GradientStop>,
    },
    /// A linear gradient with its stops.
    Gradient {
        base: BaseDisplayItem,
        bounds: LayoutRect,
        gradient: Gradient,
        tile_size: LayoutSize,
        tile_spacing: LayoutSize,
        stops: Vec<GradientStop>,
    },
    /// A radial gradient with its stops.
    RadialGradient {
        base: BaseDisplayItem,
        bounds: LayoutRect,
        gradient: RadialGradient,
        tile_size: LayoutSize,
        tile_spacing: LayoutSize,
        stops: Vec<GradientStop>,
    },
    /// A decoration line; the thickness of a wavy line is in app units.
    Line {
        base: BaseDisplayItem,
        area: LayoutRect,
        wavy_line_thickness: i32,
        orientation: LineOrientation,
        color: ColorF,
        style: LineStyle,
    },
    /// The shadow of a box; blur and spread are in app units.
    BoxShadow {
        base: BaseDisplayItem,
        box_bounds: LayoutRect,
        offset: LayoutVector2D,
        color: ColorF,
        blur_radius: i32,
        spread_radius: i32,
        border_radius: BorderRadius,
        clip_mode: BoxShadowClipMode,
    },
    /// Starts a shadow under the text that follows.
    PushTextShadow { base: BaseDisplayItem, shadow: Shadow },
    /// Ends all text shadows.
    PopAllTextShadows { base: BaseDisplayItem },
    /// An embedded document.
    Iframe { base: BaseDisplayItem, bounds: LayoutRect, iframe: PipelineId },
    /// Opens a stacking context; the items up to the matching pop are in it.
    PushStackingContext { base: BaseDisplayItem, stacking_context: StackingContext },
    /// Closes the innermost stacking context, and its reference frame if it
    /// established one.
    PopStackingContext { base: BaseDisplayItem, established_reference_frame: bool },
    /// Defines the clip and scroll node of the given index, so that later
    /// items can refer to it.
    DefineClipScrollNode { base: BaseDisplayItem, node_index: ClipScrollNodeIndex },
}

impl DisplayItem {
    /// What the item carries whatever its kind.
    pub open spec fn base_of(&self) -> BaseDisplayItem {
        match *self {
            DisplayItem::Rectangle { base, .. } => base,
            DisplayItem::Text { base, .. } => base,
            DisplayItem::Image { base, .. } => base,
            DisplayItem::RepeatingImage { base, .. } => base,
            DisplayItem::Border { base, .. } => base,
            DisplayItem::Gradient { base, .. } => base,
            DisplayItem::RadialGradient { base, .. } => base,
            DisplayItem::Line { base, .. } => base,
            DisplayItem::BoxShadow { base, .. } => base,
            DisplayItem::PushTextShadow { base, .. } => base,
            DisplayItem::PopAllTextShadows { base } => base,
            DisplayItem::Iframe { base, .. } => base,
            DisplayItem::PushStackingContext { base, .. } => base,
            DisplayItem::PopStackingContext { base, .. } => base,
            DisplayItem::DefineClipScrollNode { base, .. } => base,
        }
    }

    /// What the item carries whatever its kind.
    pub fn base(&self) -> (b: &BaseDisplayItem)
        ensures
            *b == self.base_of(),
    {
        match self {
            DisplayItem::Rectangle { base, .. } => base,
            DisplayItem::Text { base, .. } => base,
            DisplayItem::Image { base, .. } => base,
            DisplayItem::RepeatingImage { base, .. } => base,
            DisplayItem::Border { base, .. } => base,
            DisplayItem::Gradient { base, .. } => base,
            DisplayItem::RadialGradient { base, .. } => base,
            DisplayItem::Line { base, .. } => base,
            DisplayItem::BoxShadow { base, .. } => base,
            DisplayItem::PushTextShadow { base, .. } => base,
            DisplayItem::PopAllTextShadows { base } => base,
            DisplayItem::Iframe { base, .. } => base,
            DisplayItem::PushStackingContext { base, .. } => base,
            DisplayItem::PopStackingContext { base, .. } => base,
            DisplayItem::DefineClipScrollNode { base, .. } => base,
        }
    }

    /// Whether the item is content for paint timing: text and images are,
    /// nothing else is.
    pub open spec fn contentful(&self) -> bool {
        *self is Text || *self is Image || *self is RepeatingImage
    }

    /// Whether the item is content for paint timing.
    pub fn is_contentful(&self) -> (c: bool)
        ensures
            c == self.contentful(),
    {
        match self {
            DisplayItem::Text { .. } => true,
            DisplayItem::Image { .. } => true,
            DisplayItem::RepeatingImage { .. } => true,
            _ => false,
        }
    }
}

/// A display list: the items in paint order, and the nodes that they refer to.
pub struct DisplayList {
    pub list: Vec<DisplayItem>,
    pub clip_scroll_nodes: Vec<ClipScrollNode>,
    /// The extent of the document, in app units.
    pub bounds: AuRect,
}

} // verus!
