//! The fragments that layout produces, with their geometry in app units and
//! their style resolved.

use crate::cursor::CursorKind;
use crate::geometry::{AuPoint, AuRect, AuSideOffsets, AuSize};
use crate::radii::{is_extent_size, CornerRadii};
use crate::style::{
    BackgroundClip, Color, ComputedBorderStyle, ComputedImageRendering, OutlineStyle,
    PointerEvents, Rgba, TextDecorationLine, TextDecorationStyle, Visibility,
};
use vstd::prelude::*;
use webrender_api::{FontInstanceKey, Gradient, GradientStop, ImageKey, PipelineId, RadialGradient};

verus! {

/// The node that a fragment was made for.
#[derive(Clone, Copy, Debug, PartialEq, Eq, Structural)]
pub struct Tag {
    pub node: u64,
}

/// An image that the rasterizer may know: its size in image pixels and,
/// once it is loaded, its key.
#[derive(Clone, Copy)]
pub struct WebRenderImageInfo {
    pub width: u32,
    pub height: u32,
    pub key: Option<ImageKey>,
}

/// A gradient, ready for the rasterizer.
#[derive(Clone, Copy)]
pub enum GradientKind {
    Linear(Gradient),
    Radial(RadialGradient),
}

/// Where a background layer's image goes: the area it covers, the size of
/// one tile, the gap between tiles, and whether it is tiled at all.
#[derive(Clone, Copy, Debug, PartialEq, Eq, Structural)]
pub struct LayerPlacement {
    pub bounds: AuRect,
    pub tile_size: AuSize,
    pub tile_spacing: AuSize,
    pub repeat: bool,
}

/// The image of a background layer.
pub enum LayerImage {
    /// The keyword `none`.
    NoImage,
    Gradient { kind: GradientKind, stops: Vec<GradientStop> },
    /// An image by address: what the image cache answered, if the address is
    /// valid and the cache knows the image.
    Url { image: Option<WebRenderImageInfo> },
}

/// One layer of a background. Layers are listed top layer first.
pub struct BackgroundLayer {
    pub image: LayerImage,
    pub clip: BackgroundClip,
    /// Where the image goes; `None` where it covers nothing.
    pub placement: Option<LayerPlacement>,
}

/// Colour and style of the four sides of a border.
#[derive(Clone, Copy, Debug, PartialEq, Eq, Structural)]
pub struct BorderSides {
    pub top_style: ComputedBorderStyle,
    pub top_color: Color,
    pub right_style: ComputedBorderStyle,
    pub right_color: Color,
    pub bottom_style: ComputedBorderStyle,
    pub bottom_color: Color,
    pub left_style: ComputedBorderStyle,
    pub left_color: Color,
}

/// The outline of a box; width and offset are in app units.
#[derive(Clone, Copy, Debug, PartialEq, Eq, Structural)]
pub struct Outline {
    pub width: i32,
    pub offset: i32,
    pub style: OutlineStyle,
    pub color: Color,
}

/// What painting reads of a box's style.
pub struct BoxStyle {
    pub visibility: Visibility,
    pub pointer_events: PointerEvents,
    pub cursor: CursorKind,
    pub backface_visible: bool,
    /// The text colour, which `currentcolor` stands for.
    pub color: Rgba,
    pub background_color: Color,
    /// The background layers, top layer first. There is always one.
    pub background_layers: Vec<BackgroundLayer>,
    pub border_widths: AuSideOffsets,
    pub border_sides: BorderSides,
    /// The corner radii, resolved against the border box, as specified.
    pub border_radius: CornerRadii,
    pub outline: Outline,
    pub image_rendering: ComputedImageRendering,
}

/// A box. Its rectangles are relative to its containing block.
pub struct BoxFragment {
    pub tag: Option<Tag>,
    pub border_rect: AuRect,
    pub padding_rect: AuRect,
    pub content_rect: AuRect,
    pub border: AuSideOffsets,
    pub padding: AuSideOffsets,
    pub style: BoxStyle,
}

impl BoxFragment {
    /// The box has a background layer, its corner radii are extents, and its
    /// border rectangle has an extent for a size.
    pub open spec fn wf(&self) -> bool {
        &&& self.style.background_layers@.len() > 0
        &&& self.style.border_radius.wf()
        &&& is_extent_size(self.border_rect.size)
    }

    /// Whether the box was made for `node`.
    pub open spec fn is_for(&self, node: u64) -> bool {
        self.tag == Some(Tag { node })
    }

    /// Whether the box was made for `node`.
    pub fn is_for_node(&self, node: u64) -> (r: bool)
        ensures
            r == self.is_for(node),
    {
        match self.tag {
            Some(tag) => tag.node == node,
            None => false,
        }
    }
}

/// What painting reads of the style of an image or a frame.
#[derive(Clone, Copy, Debug, PartialEq, Eq, Structural)]
pub struct ReplacedStyle {
    pub visibility: Visibility,
    pub backface_visible: bool,
    pub image_rendering: ComputedImageRendering,
}

/// An image. Its rectangle is relative to its containing block.
#[derive(Clone, Copy)]
pub struct ImageFragment {
    pub rect: AuRect,
    pub style: ReplacedStyle,
    pub image_key: ImageKey,
}

/// An embedded document. Its rectangle is relative to its containing block.
#[derive(Clone, Copy)]
pub struct IFrameFragment {
    pub rect: AuRect,
    pub style: ReplacedStyle,
    pub browsing_context_id: u64,
    pub pipeline_id: PipelineId,
}

/// The metrics of a font that text painting reads, in app units.
#[derive(Clone, Copy, Debug, PartialEq, Eq, Structural)]
pub struct FontMetrics {
    pub ascent: i32,
    pub underline_offset: i32,
    pub underline_size: i32,
    pub strikeout_offset: i32,
    pub strikeout_size: i32,
}

/// A shaped glyph: its index in the font, how far it advances the pen, and
/// where it is drawn relative to the pen.
#[derive(Clone, Copy, Debug, PartialEq, Eq, Structural)]
pub struct Glyph {
    pub id: u32,
    pub advance: i32,
    pub offset: Option<AuPoint>,
}

/// A run of shaped glyphs.
pub struct GlyphRun {
    pub glyphs: Vec<Glyph>,
    pub is_whitespace: bool,
}

/// What painting reads of the style of a text's parent.
#[derive(Clone, Copy, Debug, PartialEq, Eq, Structural)]
pub struct TextStyle {
    pub visibility: Visibility,
    pub pointer_events: PointerEvents,
    pub cursor: CursorKind,
    pub backface_visible: bool,
    pub color: Rgba,
    pub text_decoration_color: Color,
    pub text_decoration_style: TextDecorationStyle,
}

/// A piece of text. Its rectangle is relative to its containing block.
pub struct TextFragment {
    pub tag: Option<Tag>,
    pub rect: AuRect,
    pub parent_style: TextStyle,
    pub font_metrics: FontMetrics,
    pub font_key: FontInstanceKey,
    pub glyphs: Vec<GlyphRun>,
    pub text_decoration_line: TextDecorationLine,
}

/// A fragment of the fragment tree.
pub enum Fragment {
    Box(BoxFragment),
    AbsoluteOrFixedPositioned,
    Anonymous,
    Image(ImageFragment),
    IFrame(IFrameFragment),
    Text(TextFragment),
}

/// The part of a stacking context that a fragment is painted in.
#[derive(Clone, Copy, Debug, PartialEq, Eq, Structural)]
pub enum StackingContextSection {
    BackgroundsAndBorders,
    BlockBackgroundsAndBorders,
    Content,
    Outline,
}

} // verus!
