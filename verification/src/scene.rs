//! The scene under construction: what the rasterizer's builder holds, as a
//! sequence of items, and one function for each builder call that the
//! library makes.
//!
//! The builder serialises what it is given. [`builder_items`] names the
//! items that a builder holds, in the order in which they were pushed; the
//! contract of each function below says which item the call adds.

use crate::scroll_tree::ScrollSensitivity;
use app_units::Au;
use vstd::prelude::*;
use webrender_api::units::{
    LayoutPoint, LayoutRect, LayoutSideOffsets, LayoutSize, LayoutTransform, LayoutVector2D,
};
use webrender_api::{
    AlphaType, BorderDetails, BorderRadius, BoxShadowClipMode, ClipId, ColorF, ComplexClipRegion,
    DisplayListBuilder, ExternalScrollId, FilterOp, FontInstanceKey, GlyphInstance, GlyphOptions,
    Gradient, GradientStop, ImageKey, ImageRendering, LineOrientation, LineStyle, MixBlendMode,
    PipelineId, RadialGradient, Shadow, SpatialId, StickyOffsetBounds, TransformStyle,
};

verus! {

/// What every primitive carries: the rectangle it is clipped to, its
/// coordinate space, its clip, its hit-test tag and whether its back face
/// shows.
#[derive(Clone, Copy)]
pub struct CommonProps {
    pub clip_rect: LayoutRect,
    pub spatial_id: SpatialId,
    pub clip_id: ClipId,
    pub hit_info: Option<(u64, u16)>,
    pub backface_visible: bool,
}

/// A coordinate space together with a clip.
#[derive(Clone, Copy)]
pub struct SpaceAndClip {
    pub spatial_id: SpatialId,
    pub clip_id: ClipId,
}

/// What a reference frame's matrix stands for: a transform, or a
/// perspective, which may scroll with a scroll frame.
#[derive(Clone, Copy)]
pub enum ReferenceFrameKind {
    Transform,
    Perspective { scrolling_relative_to: Option<ExternalScrollId> },
}

/// The space in which a stacking context is rasterized.
#[derive(Clone, Copy, Debug, PartialEq, Eq, Structural)]
pub enum RasterSpace {
    Screen,
}

/// The distances that a sticky frame keeps from the edges of its viewport,
/// in app units; `None` where it does not stick to that edge.
#[derive(Clone, Copy)]
pub struct StickyMargins {
    pub top: Option<i32>,
    pub right: Option<i32>,
    pub bottom: Option<i32>,
    pub left: Option<i32>,
}

/// The margins of a sticky frame as the rasterizer holds them: each distance
/// is the rasterizer's number, by its bits.
pub struct StickyMarginBits {
    pub top: Option<u32>,
    pub right: Option<u32>,
    pub bottom: Option<u32>,
    pub left: Option<u32>,
}

/// The rasterizer's number for a length in app units, a 32-bit float in CSS
/// pixels, by its bits.
pub uninterp spec fn px_bits_of(au: i32) -> u32;

/// The rasterizer's number for a distance that may be absent.
pub open spec fn optional_px_bits(au: Option<i32>) -> Option<u32> {
    match au {
        Some(v) => Some(px_bits_of(v)),
        None => None,
    }
}

/// The margins of a sticky frame as the rasterizer holds them.
pub open spec fn margin_bits(margins: StickyMargins) -> StickyMarginBits {
    StickyMarginBits {
        top: optional_px_bits(margins.top),
        right: optional_px_bits(margins.right),
        bottom: optional_px_bits(margins.bottom),
        left: optional_px_bits(margins.left),
    }
}

/// One item of a scene.
#[allow(inconsistent_fields)]
pub enum SceneItem {
    Rectangle { common: CommonProps, color: ColorF },
    HitTest { common: CommonProps },
    /// A text run; the glyphs follow in a `Glyphs` item.
    Text {
        common: CommonProps,
        bounds: LayoutRect,
        font_key: FontInstanceKey,
        color: ColorF,
        glyph_options: Option<GlyphOptions>,
    },
    Glyphs { glyphs: Seq<GlyphInstance> },
    Image {
        common: CommonProps,
        bounds: LayoutRect,
        image_rendering: ImageRendering,
        alpha_type: AlphaType,
        key: ImageKey,
        color: ColorF,
    },
    RepeatingImage {
        common: CommonProps,
        bounds: LayoutRect,
        stretch_size: LayoutSize,
        tile_spacing: LayoutSize,
        image_rendering: ImageRendering,
        alpha_type: AlphaType,
        key: ImageKey,
        color: ColorF,
    },
    /// The stops of the gradient that follows.
    GradientStops { stops: Seq<GradientStop> },
    Border {
        common: CommonProps,
        bounds: LayoutRect,
        widths: LayoutSideOffsets,
        details: BorderDetails,
    },
    Gradient {
        common: CommonProps,
        bounds: LayoutRect,
        gradient: Gradient,
        tile_size: LayoutSize,
        tile_spacing: LayoutSize,
    },
    RadialGradient {
        common: CommonProps,
        bounds: LayoutRect,
        gradient: RadialGradient,
        tile_size: LayoutSize,
        tile_spacing: LayoutSize,
    },
    /// A decoration line. The thickness of a wavy line is the rasterizer's
    /// number, by its bits.
    Line {
        common: CommonProps,
        area: LayoutRect,
        wavy_line_thickness: u32,
        orientation: LineOrientation,
        color: ColorF,
        style: LineStyle,
    },
    /// A box shadow. Blur and spread are the rasterizer's numbers, by their
    /// bits.
    BoxShadow {
        common: CommonProps,
        box_bounds: LayoutRect,
        offset: LayoutVector2D,
        color: ColorF,
        blur_radius: u32,
        spread_radius: u32,
        border_radius: BorderRadius,
        clip_mode: BoxShadowClipMode,
    },
    PushShadow { space_and_clip: SpaceAndClip, shadow: Shadow, should_inflate: bool },
    PopAllShadows,
    Iframe {
        bounds: LayoutRect,
        clip_rect: LayoutRect,
        space_and_clip: SpaceAndClip,
        pipeline_id: PipelineId,
        ignore_missing_pipeline: bool,
    },
    /// A new coordinate space `id`, which the builder chose.
    PushReferenceFrame {
        origin: LayoutPoint,
        parent_spatial_id: SpatialId,
        transform_style: TransformStyle,
        transform: LayoutTransform,
        kind: ReferenceFrameKind,
        id: SpatialId,
    },
    PopReferenceFrame,
    /// The filters of the stacking context that follows.
    FilterOps { filters: Seq<FilterOp> },
    PushStackingContext {
        origin: LayoutPoint,
        spatial_id: SpatialId,
        backface_visible: bool,
        clip_id: Option<ClipId>,
        transform_style: TransformStyle,
        mix_blend_mode: MixBlendMode,
        raster_space: RasterSpace,
        cache_tiles: bool,
        is_backdrop_root: bool,
    },
    PopStackingContext,
    /// A new clip `id`, which the builder chose.
    Clip {
        id: ClipId,
        parent: SpaceAndClip,
        clip_rect: LayoutRect,
        complex: Option<ComplexClipRegion>,
    },
    /// A new scroll frame: a clip and a coordinate space, which the builder
    /// chose.
    ScrollFrame {
        made: SpaceAndClip,
        parent: SpaceAndClip,
        external_id: Option<ExternalScrollId>,
        content_rect: LayoutRect,
        clip_rect: LayoutRect,
        scroll_sensitivity: ScrollSensitivity,
        external_scroll_offset: LayoutVector2D,
    },
    /// A new sticky coordinate space `id`, which the builder chose.
    StickyFrame {
        id: SpatialId,
        parent_spatial_id: SpatialId,
        bounds: LayoutRect,
        margins: StickyMarginBits,
        vertical_offset_bounds: StickyOffsetBounds,
        horizontal_offset_bounds: StickyOffsetBounds,
        previously_applied_offset: LayoutVector2D,
    },
}

/// The items that a builder holds, oldest first.
pub uninterp spec fn builder_items(b: DisplayListBuilder) -> Seq<SceneItem>;

/// The longest run of glyphs that one text item carries.
pub const MAX_TEXT_RUN_LENGTH: usize = 2040;

/// The items of a text run: one `Text` item followed by its glyphs for each
/// stretch of at most `MAX_TEXT_RUN_LENGTH` glyphs; none for no glyphs.
pub open spec fn text_run_items(
    common: CommonProps,
    bounds: LayoutRect,
    glyphs: Seq<GlyphInstance>,
    font_key: FontInstanceKey,
    color: ColorF,
    glyph_options: Option<GlyphOptions>,
) -> Seq<SceneItem>
    decreases glyphs.len(),
{
    if glyphs.len() == 0 {
        Seq::empty()
    } else if glyphs.len() <= MAX_TEXT_RUN_LENGTH {
        seq![
            SceneItem::Text { common, bounds, font_key, color, glyph_options },
            SceneItem::Glyphs { glyphs },
        ]
    } else {
        seq![
            SceneItem::Text { common, bounds, font_key, color, glyph_options },
            SceneItem::Glyphs { glyphs: glyphs.take(MAX_TEXT_RUN_LENGTH as int) },
        ] + text_run_items(
            common,
            bounds,
            glyphs.skip(MAX_TEXT_RUN_LENGTH as int),
            font_key,
            color,
            glyph_options,
        )
    }
}

/// The filters of a stacking context as an item of their own, if there are any.
pub open spec fn filter_items(filters: Seq<FilterOp>) -> Seq<SceneItem> {
    if filters.len() == 0 {
        Seq::empty()
    } else {
        seq![SceneItem::FilterOps { filters }]
    }
}

/// The stops of a gradient as an item of their own, if there are any.
pub open spec fn stop_items(stops: Seq<GradientStop>) -> Seq<SceneItem> {
    if stops.len() == 0 {
        Seq::empty()
    } else {
        seq![SceneItem::GradientStops { stops }]
    }
}

/// `DisplayListBuilder::with_capacity`: a builder that holds no item yet.
#[verifier::external_body]
pub(crate) fn new_builder(pipeline_id: PipelineId, content_size: LayoutSize, capacity: usize) -> (b:
    DisplayListBuilder)
    ensures
        builder_items(b) == Seq::<SceneItem>::empty(),
{
    DisplayListBuilder::with_capacity(pipeline_id, content_size, capacity)
}

/// `DisplayListBuilder::push_rect`: adds a rectangle item of the given
/// properties and colour.
#[verifier::external_body]
pub(crate) fn push_rect(
    b: &mut DisplayListBuilder,
    common: &CommonProps,
    color: ColorF,
)
    ensures
        builder_items(*final(b)) == builder_items(*old(b)).push(
            SceneItem::Rectangle { common: *common, color },
        ),
{
    let mut flags = webrender_api::PrimitiveFlags::empty();
    flags.set(webrender_api::PrimitiveFlags::IS_BACKFACE_VISIBLE, common.backface_visible);
    let (clip_rect, clip_id) = (common.clip_rect, common.clip_id);
    let (spatial_id, hit_info) = (common.spatial_id, common.hit_info);
    let common = webrender_api::CommonItemProperties { clip_rect, clip_id, spatial_id, hit_info, flags };
    b.push_rect(&common, color);
}

/// `DisplayListBuilder::push_hit_test`: adds a hit-test item of the given
/// properties.
#[verifier::external_body]
pub(crate) fn push_hit_test(
    b: &mut DisplayListBuilder,
    common: &CommonProps,
)
    ensures
        builder_items(*final(b)) == builder_items(*old(b)).push(
            SceneItem::HitTest { common: *common },
        ),
{
    let mut flags = webrender_api::PrimitiveFlags::empty();
    flags.set(webrender_api::PrimitiveFlags::IS_BACKFACE_VISIBLE, common.backface_visible);
    let (clip_rect, clip_id) = (common.clip_rect, common.clip_id);
    let (spatial_id, hit_info) = (common.spatial_id, common.hit_info);
    let common = webrender_api::CommonItemProperties { clip_rect, clip_id, spatial_id, hit_info, flags };
    b.push_hit_test(&common);
}

/// `DisplayListBuilder::push_text`: for each stretch of at most
/// `MAX_TEXT_RUN_LENGTH` glyphs, adds a text item and then the glyphs of
/// the stretch; adds nothing for no glyphs.
#[verifier::external_body]
pub(crate) fn push_text(
    b: &mut DisplayListBuilder,
    common: &CommonProps,
    bounds: LayoutRect,
    glyphs: &Vec<GlyphInstance>,
    font_key: FontInstanceKey,
    color: ColorF,
    glyph_options: Option<GlyphOptions>,
)
    ensures
        builder_items(*final(b)) == builder_items(*old(b)) + text_run_items(
            *common,
            bounds,
            glyphs@,
            font_key,
            color,
            glyph_options,
        ),
{
    let mut flags = webrender_api::PrimitiveFlags::empty();
    flags.set(webrender_api::PrimitiveFlags::IS_BACKFACE_VISIBLE, common.backface_visible);
    let (clip_rect, clip_id) = (common.clip_rect, common.clip_id);
    let (spatial_id, hit_info) = (common.spatial_id, common.hit_info);
    let common = webrender_api::CommonItemProperties { clip_rect, clip_id, spatial_id, hit_info, flags };
    b.push_text(&common, bounds, glyphs, font_key, color, glyph_options);
}

/// `DisplayListBuilder::push_image`: adds an image item.
#[verifier::external_body]
pub(crate) fn push_image(
    b: &mut DisplayListBuilder,
    common: &CommonProps,
    bounds: LayoutRect,
    image_rendering: ImageRendering,
    alpha_type: AlphaType,
    key: ImageKey,
    color: ColorF,
)
    ensures
        builder_items(*final(b)) == builder_items(*old(b)).push(
            SceneItem::Image { common: *common, bounds, image_rendering, alpha_type, key, color },
        ),
{
    let mut flags = webrender_api::PrimitiveFlags::empty();
    flags.set(webrender_api::PrimitiveFlags::IS_BACKFACE_VISIBLE, common.backface_visible);
    let (clip_rect, clip_id) = (common.clip_rect, common.clip_id);
    let (spatial_id, hit_info) = (common.spatial_id, common.hit_info);
    let common = webrender_api::CommonItemProperties { clip_rect, clip_id, spatial_id, hit_info, flags };
    b.push_image(&common, bounds, image_rendering, alpha_type, key, color);
}

/// `DisplayListBuilder::push_repeating_image`: adds a tiled image item.
#[verifier::external_body]
pub(crate) fn push_repeating_image(
    b: &mut DisplayListBuilder,
    common: &CommonProps,
    bounds: LayoutRect,
    stretch_size: LayoutSize,
    tile_spacing: LayoutSize,
    image_rendering: ImageRendering,
    alpha_type: AlphaType,
    key: ImageKey,
    color: ColorF,
)
    ensures
        builder_items(*final(b)) == builder_items(*old(b)).push(
            SceneItem::RepeatingImage {
                common: *common,
                bounds,
                stretch_size,
                tile_spacing,
                image_rendering,
                alpha_type,
                key,
                color,
            },
        ),
{
    let mut flags = webrender_api::PrimitiveFlags::empty();
    flags.set(webrender_api::PrimitiveFlags::IS_BACKFACE_VISIBLE, common.backface_visible);
    let (clip_rect, clip_id) = (common.clip_rect, common.clip_id);
    let (spatial_id, hit_info) = (common.spatial_id, common.hit_info);
    let common = webrender_api::CommonItemProperties { clip_rect, clip_id, spatial_id, hit_info, flags };
    b.push_repeating_image(
        &common, bounds, stretch_size, tile_spacing, image_rendering, alpha_type, key, color,
    );
}

/// `DisplayListBuilder::push_stops`: adds the stops as an item of their own,
/// and nothing where there is no stop.
#[verifier::external_body]
pub(crate) fn push_stops(
    b: &mut DisplayListBuilder,
    stops: &Vec<GradientStop>,
)
    ensures
        builder_items(*final(b)) == builder_items(*old(b)) + stop_items(stops@),
{
    b.push_stops(stops);
}

/// `DisplayListBuilder::push_border`: adds a border item.
#[verifier::external_body]
pub(crate) fn push_border(
    b: &mut DisplayListBuilder,
    common: &CommonProps,
    bounds: LayoutRect,
    widths: LayoutSideOffsets,
    details: BorderDetails,
)
    ensures
        builder_items(*final(b)) == builder_items(*old(b)).push(
            SceneItem::Border { common: *common, bounds, widths, details },
        ),
{
    let mut flags = webrender_api::PrimitiveFlags::empty();
    flags.set(webrender_api::PrimitiveFlags::IS_BACKFACE_VISIBLE, common.backface_visible);
    let (clip_rect, clip_id) = (common.clip_rect, common.clip_id);
    let (spatial_id, hit_info) = (common.spatial_id, common.hit_info);
    let common = webrender_api::CommonItemProperties { clip_rect, clip_id, spatial_id, hit_info, flags };
    b.push_border(&common, bounds, widths, details);
}

/// `DisplayListBuilder::push_gradient`: adds a linear gradient item.
#[verifier::external_body]
pub(crate) fn push_gradient(
    b: &mut DisplayListBuilder,
    common: &CommonProps,
    bounds: LayoutRect,
    gradient: Gradient,
    tile_size: LayoutSize,
    tile_spacing: LayoutSize,
)
    ensures
        builder_items(*final(b)) == builder_items(*old(b)).push(
            SceneItem::Gradient { common: *common, bounds, gradient, tile_size, tile_spacing },
        ),
{
    let mut flags = webrender_api::PrimitiveFlags::empty();
    flags.set(webrender_api::PrimitiveFlags::IS_BACKFACE_VISIBLE, common.backface_visible);
    let (clip_rect, clip_id) = (common.clip_rect, common.clip_id);
    let (spatial_id, hit_info) = (common.spatial_id, common.hit_info);
    let common = webrender_api::CommonItemProperties { clip_rect, clip_id, spatial_id, hit_info, flags };
    b.push_gradient(&common, bounds, gradient, tile_size, tile_spacing);
}

/// `DisplayListBuilder::push_radial_gradient`: adds a radial gradient item.
#[verifier::external_body]
pub(crate) fn push_radial_gradient(
    b: &mut DisplayListBuilder,
    common: &CommonProps,
    bounds: LayoutRect,
    gradient: RadialGradient,
    tile_size: LayoutSize,
    tile_spacing: LayoutSize,
)
    ensures
        builder_items(*final(b)) == builder_items(*old(b)).push(
            SceneItem::RadialGradient { common: *common, bounds, gradient, tile_size, tile_spacing },
        ),
{
    let mut flags = webrender_api::PrimitiveFlags::empty();
    flags.set(webrender_api::PrimitiveFlags::IS_BACKFACE_VISIBLE, common.backface_visible);
    let (clip_rect, clip_id) = (common.clip_rect, common.clip_id);
    let (spatial_id, hit_info) = (common.spatial_id, common.hit_info);
    let common = webrender_api::CommonItemProperties { clip_rect, clip_id, spatial_id, hit_info, flags };
    b.push_radial_gradient(&common, bounds, gradient, tile_size, tile_spacing);
}

/// `DisplayListBuilder::push_line`: adds a decoration line item. The
/// thickness of a wavy line is handed over in CSS pixels
/// (`app_units::Au::to_f32_px`).
#[verifier::external_body]
pub(crate) fn push_line(
    b: &mut DisplayListBuilder,
    common: &CommonProps,
    area: &LayoutRect,
    wavy_line_thickness: i32,
    orientation: LineOrientation,
    color: &ColorF,
    style: LineStyle,
)
    ensures
        builder_items(*final(b)) == builder_items(*old(b)).push(
            SceneItem::Line {
                common: *common,
                area: *area,
                wavy_line_thickness: px_bits_of(wavy_line_thickness),
                orientation,
                color: *color,
                style,
            },
        ),
{
    let mut flags = webrender_api::PrimitiveFlags::empty();
    flags.set(webrender_api::PrimitiveFlags::IS_BACKFACE_VISIBLE, common.backface_visible);
    let (clip_rect, clip_id) = (common.clip_rect, common.clip_id);
    let (spatial_id, hit_info) = (common.spatial_id, common.hit_info);
    let common = webrender_api::CommonItemProperties { clip_rect, clip_id, spatial_id, hit_info, flags };
    let thickness = Au(wavy_line_thickness).to_f32_px();
    b.push_line(&common, area, thickness, orientation, color, style);
}

/// `DisplayListBuilder::push_box_shadow`: adds a box shadow item. Blur and
/// spread are handed over in CSS pixels (`app_units::Au::to_f32_px`).
#[verifier::external_body]
pub(crate) fn push_box_shadow(
    b: &mut DisplayListBuilder,
    common: &CommonProps,
    box_bounds: LayoutRect,
    offset: LayoutVector2D,
    color: ColorF,
    blur_radius: i32,
    spread_radius: i32,
    border_radius: BorderRadius,
    clip_mode: BoxShadowClipMode,
)
    ensures
        builder_items(*final(b)) == builder_items(*old(b)).push(
            SceneItem::BoxShadow {
                common: *common,
                box_bounds,
                offset,
                color,
                blur_radius: px_bits_of(blur_radius),
                spread_radius: px_bits_of(spread_radius),
                border_radius,
                clip_mode,
            },
        ),
{
    let mut flags = webrender_api::PrimitiveFlags::empty();
    flags.set(webrender_api::PrimitiveFlags::IS_BACKFACE_VISIBLE, common.backface_visible);
    let (clip_rect, clip_id) = (common.clip_rect, common.clip_id);
    let (spatial_id, hit_info) = (common.spatial_id, common.hit_info);
    let common = webrender_api::CommonItemProperties { clip_rect, clip_id, spatial_id, hit_info, flags };
    let (blur, spread) = (Au(blur_radius).to_f32_px(), Au(spread_radius).to_f32_px());
    b.push_box_shadow(&common, box_bounds, offset, color, blur, spread, border_radius, clip_mode);
}

/// `DisplayListBuilder::push_shadow`: adds an item that starts a shadow for
/// the text that follows.
#[verifier::external_body]
pub(crate) fn push_shadow(
    b: &mut DisplayListBuilder,
    space_and_clip: &SpaceAndClip,
    shadow: Shadow,
    should_inflate: bool,
)
    ensures
        builder_items(*final(b)) == builder_items(*old(b)).push(
            SceneItem::PushShadow { space_and_clip: *space_and_clip, shadow, should_inflate },
        ),
{
    let info = webrender_api::SpaceAndClipInfo {
        spatial_id: space_and_clip.spatial_id,
        clip_id: space_and_clip.clip_id,
    };
    b.push_shadow(&info, shadow, should_inflate);
}

/// `DisplayListBuilder::pop_all_shadows`: adds an item that ends all shadows.
#[verifier::external_body]
pub(crate) fn pop_all_shadows(
    b: &mut DisplayListBuilder,
)
    ensures
        builder_items(*final(b)) == builder_items(*old(b)).push(
            SceneItem::PopAllShadows,
        ),
{
    b.pop_all_shadows();
}

/// `DisplayListBuilder::push_iframe`: adds an item that embeds another
/// pipeline's scene.
#[verifier::external_body]
pub(crate) fn push_iframe(
    b: &mut DisplayListBuilder,
    bounds: LayoutRect,
    clip_rect: LayoutRect,
    space_and_clip: &SpaceAndClip,
    pipeline_id: PipelineId,
    ignore_missing_pipeline: bool,
)
    ensures
        builder_items(*final(b)) == builder_items(*old(b)).push(
            SceneItem::Iframe {
                bounds,
                clip_rect,
                space_and_clip: *space_and_clip,
                pipeline_id,
                ignore_missing_pipeline,
            },
        ),
{
    let info = webrender_api::SpaceAndClipInfo {
        spatial_id: space_and_clip.spatial_id,
        clip_id: space_and_clip.clip_id,
    };
    b.push_iframe(bounds, clip_rect, &info, pipeline_id, ignore_missing_pipeline);
}

/// `DisplayListBuilder::push_reference_frame`: adds an item that opens a new
/// coordinate space with a fixed matrix, and returns the handle that the
/// builder gave to that space.
#[verifier::external_body]
pub(crate) fn push_reference_frame(
    b: &mut DisplayListBuilder,
    origin: LayoutPoint,
    parent_spatial_id: SpatialId,
    transform_style: TransformStyle,
    transform: LayoutTransform,
    kind: ReferenceFrameKind,
) -> (id: SpatialId)
    ensures
        builder_items(*final(b)) == builder_items(*old(b)).push(
            SceneItem::PushReferenceFrame {
                origin,
                parent_spatial_id,
                transform_style,
                transform,
                kind,
                id,
            },
        ),
{
    let binding = webrender_api::PropertyBinding::Value(transform);
    let wr_kind = match kind {
        ReferenceFrameKind::Transform => webrender_api::ReferenceFrameKind::Transform,
        ReferenceFrameKind::Perspective { scrolling_relative_to } => {
            webrender_api::ReferenceFrameKind::Perspective { scrolling_relative_to }
        },
    };
    b.push_reference_frame(origin, parent_spatial_id, transform_style, binding, wr_kind)
}

/// `DisplayListBuilder::pop_reference_frame`: adds an item that closes the
/// innermost reference frame.
#[verifier::external_body]
pub(crate) fn pop_reference_frame(
    b: &mut DisplayListBuilder,
)
    ensures
        builder_items(*final(b)) == builder_items(*old(b)).push(
            SceneItem::PopReferenceFrame,
        ),
{
    b.pop_reference_frame();
}

/// `DisplayListBuilder::push_stacking_context`, called without filter data
/// and filter primitives: adds the filters as an item of their own, where
/// there are any, and then an item that opens a stacking context.
#[verifier::external_body]
pub(crate) fn push_stacking_context(
    b: &mut DisplayListBuilder,
    origin: LayoutPoint,
    spatial_id: SpatialId,
    backface_visible: bool,
    clip_id: Option<ClipId>,
    transform_style: TransformStyle,
    mix_blend_mode: MixBlendMode,
    filters: &Vec<FilterOp>,
    raster_space: RasterSpace,
    cache_tiles: bool,
    is_backdrop_root: bool,
)
    ensures
        builder_items(*final(b)) == (builder_items(*old(b)) + filter_items(filters@)).push(
            SceneItem::PushStackingContext {
                origin,
                spatial_id,
                backface_visible,
                clip_id,
                transform_style,
                mix_blend_mode,
                raster_space,
                cache_tiles,
                is_backdrop_root,
            },
        ),
{
    let mut flags = webrender_api::PrimitiveFlags::empty();
    flags.set(webrender_api::PrimitiveFlags::IS_BACKFACE_VISIBLE, backface_visible);
    let space = match raster_space {
        RasterSpace::Screen => webrender_api::RasterSpace::Screen,
    };
    b.push_stacking_context(
        origin, spatial_id, flags, clip_id, transform_style, mix_blend_mode,
        filters, &[], &[], space, cache_tiles, is_backdrop_root,
    );
}

/// `DisplayListBuilder::pop_stacking_context`: adds an item that closes the
/// innermost stacking context.
#[verifier::external_body]
pub(crate) fn pop_stacking_context(
    b: &mut DisplayListBuilder,
)
    ensures
        builder_items(*final(b)) == builder_items(*old(b)).push(
            SceneItem::PopStackingContext,
        ),
{
    b.pop_stacking_context();
}

/// `DisplayListBuilder::define_clip`, called without an image mask and with
/// at most one rounded rectangle: adds an item that defines a clip under
/// `parent`, and returns the handle that the builder gave to the clip.
#[verifier::external_body]
pub(crate) fn define_clip(
    b: &mut DisplayListBuilder,
    parent: &SpaceAndClip,
    clip_rect: LayoutRect,
    complex: Option<ComplexClipRegion>,
) -> (id: ClipId)
    ensures
        builder_items(*final(b)) == builder_items(*old(b)).push(
            SceneItem::Clip { id, parent: *parent, clip_rect, complex },
        ),
{
    let info = webrender_api::SpaceAndClipInfo {
        spatial_id: parent.spatial_id,
        clip_id: parent.clip_id,
    };
    b.define_clip(&info, clip_rect, complex, None)
}

/// `DisplayListBuilder::define_scroll_frame`, called without rounded
/// rectangles and without an image mask: adds an item that defines a scroll
/// frame under `parent`, and returns the clip and the coordinate space that
/// the builder made for it.
#[verifier::external_body]
pub(crate) fn define_scroll_frame(
    b: &mut DisplayListBuilder,
    parent: &SpaceAndClip,
    external_id: Option<ExternalScrollId>,
    content_rect: LayoutRect,
    clip_rect: LayoutRect,
    scroll_sensitivity: ScrollSensitivity,
    external_scroll_offset: LayoutVector2D,
) -> (made: SpaceAndClip)
    ensures
        builder_items(*final(b)) == builder_items(*old(b)).push(
            SceneItem::ScrollFrame {
                made,
                parent: *parent,
                external_id,
                content_rect,
                clip_rect,
                scroll_sensitivity,
                external_scroll_offset,
            },
        ),
{
    let info = webrender_api::SpaceAndClipInfo {
        spatial_id: parent.spatial_id,
        clip_id: parent.clip_id,
    };
    let sensitivity = match scroll_sensitivity {
        ScrollSensitivity::ScriptAndInputEvents => webrender_api::ScrollSensitivity::ScriptAndInputEvents,
        ScrollSensitivity::Script => webrender_api::ScrollSensitivity::Script,
    };
    let made = b.define_scroll_frame(
        &info, external_id, content_rect, clip_rect, None, None, sensitivity, external_scroll_offset,
    );
    SpaceAndClip { spatial_id: made.spatial_id, clip_id: made.clip_id }
}

/// `DisplayListBuilder::define_sticky_frame`: adds an item that defines a
/// sticky coordinate space under `parent_spatial_id`, and returns the handle
/// that the builder gave to it. The margins are handed over in CSS pixels
/// (`app_units::Au::to_f32_px`).
#[verifier::external_body]
pub(crate) fn define_sticky_frame(
    b: &mut DisplayListBuilder,
    parent_spatial_id: SpatialId,
    frame_rect: LayoutRect,
    margins: StickyMargins,
    vertical_offset_bounds: StickyOffsetBounds,
    horizontal_offset_bounds: StickyOffsetBounds,
    previously_applied_offset: LayoutVector2D,
) -> (id: SpatialId)
    ensures
        builder_items(*final(b)) == builder_items(*old(b)).push(
            SceneItem::StickyFrame {
                id,
                parent_spatial_id,
                bounds: frame_rect,
                margins: margin_bits(margins),
                vertical_offset_bounds,
                horizontal_offset_bounds,
                previously_applied_offset,
            },
        ),
{
    let px = |v: i32| Au(v).to_f32_px();
    let sides = euclid::SideOffsets2D::new(
        margins.top.map(px), margins.right.map(px), margins.bottom.map(px), margins.left.map(px),
    );
    b.define_sticky_frame(
        parent_spatial_id, frame_rect, sides, vertical_offset_bounds, horizontal_offset_bounds,
        previously_applied_offset,
    )
}

} // verus!
