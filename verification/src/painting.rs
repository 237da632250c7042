//! Painting of fragments: what a fragment adds to the scene, in which order.

use crate::convert::{
    alpha_type, alpha_type_of, color_of, glyph_instance, glyph_of, image_rendering,
    image_rendering_of, line_orientation, line_orientation_of, line_style, line_style_of, rgba,
};
use crate::cursor::{cursor, cursor_for, Cursor, CursorKind};
use crate::fragments::{
    FontMetrics, Glyph, GlyphRun, IFrameFragment, ImageFragment, Tag, TextFragment, TextStyle,
};
use crate::geometry::{
    au_add, au_sub, clamp_au, layout_rect, layout_rect_of, layout_size, AuPoint, AuRect, AuSize,
    MAX_AU,
};
use crate::scene::{
    builder_items, new_builder, push_iframe, push_image, push_line, push_text, px_bits_of,
    text_run_items, CommonProps, SceneItem, SpaceAndClip,
};
use crate::scroll_tree::{hit_tests_after, CompositorDisplayListInfo, HitTestInfo, ScrollTreeNodeId};
use crate::style::{PointerEvents, Rgba, TextDecorationStyle};
use fnv::FnvHashMap;
use vstd::prelude::*;
use webrender_api::units::LayoutRect;
use webrender_api::{ClipId, DisplayListBuilder, Epoch, GlyphInstance, PipelineId};

verus! {

/// A scene under construction together with the compositor's record of it.
pub struct DisplayList {
    /// The rasterizer's builder that collects the scene.
    pub wr: DisplayListBuilder,
    /// The pipeline that the scene belongs to.
    pub pipeline_id: PipelineId,
    /// The compositor's record: hit-test entries and scroll tree.
    pub compositor_info: CompositorDisplayListInfo,
}

impl DisplayList {
    /// An empty scene of the given pipeline, for a document of the given
    /// sizes.
    pub fn new(
        viewport_size: AuSize,
        content_size: AuSize,
        pipeline_id: PipelineId,
        epoch: Epoch,
    ) -> (list: DisplayList)
        ensures
            builder_items(list.wr) == Seq::<SceneItem>::empty(),
            list.pipeline_id == pipeline_id,
            list.compositor_info.empty_for(viewport_size, content_size, pipeline_id, epoch),
    {
        DisplayList {
            wr: new_builder(pipeline_id, layout_size(content_size), 0),
            pipeline_id,
            compositor_info: CompositorDisplayListInfo::new(
                viewport_size,
                content_size,
                pipeline_id,
                epoch,
            ),
        }
    }
}

/// The ratio of device pixels to CSS pixels, as a fraction.
#[derive(Clone, Copy, Debug, PartialEq, Eq, Structural)]
pub struct DevicePixelRatio {
    pub numerator: u16,
    pub denominator: u16,
}

impl DevicePixelRatio {
    /// Numerator and denominator are positive.
    pub open spec fn wf(self) -> bool {
        self.numerator > 0 && self.denominator > 0
    }
}

/// A map from browsing context to the size of its frame.
pub type IframeSizes = FnvHashMap<u64, AuSize>;

/// What a map of frame sizes holds.
pub uninterp spec fn iframe_sizes_of(sizes: IframeSizes) -> Map<u64, AuSize>;

/// `FnvHashMap::default`: a map that holds nothing.
#[verifier::external_body]
pub(crate) fn no_iframe_sizes() -> (made: IframeSizes)
    ensures
        iframe_sizes_of(made) =~= Map::empty(),
{
    FnvHashMap::default()
}

/// `HashMap::insert`: the map holds `size` for `id` afterwards, in place of
/// what it held for `id` before, and is otherwise as it was.
#[verifier::external_body]
pub(crate) fn record_iframe_size(sizes: &mut IframeSizes, id: u64, size: AuSize)
    ensures
        iframe_sizes_of(*final(sizes)) == iframe_sizes_of(*old(sizes)).insert(id, size),
{
    sizes.insert(id, size);
}

/// What painting carries from fragment to fragment.
pub struct PaintState {
    /// The scroll node that fragments are painted under.
    pub current_scroll_node_id: ScrollTreeNodeId,
    /// The clip that fragments are painted under.
    pub current_clip_id: ClipId,
    /// The node whose background was painted for the canvas.
    pub element_for_canvas_background: u64,
    /// The ratio that decoration lines are rounded to.
    pub device_pixel_ratio: DevicePixelRatio,
    /// The sizes of the frames met so far.
    pub iframe_sizes: IframeSizes,
    /// Whether text or an image has been painted.
    pub is_contentful: bool,
}

/// The hit-test tag of a fragment, where it has one: a fragment that takes
/// pointer events and has a node gets the position of its hit-test entry.
pub open spec fn hit_tag(
    pointer_events: PointerEvents,
    tag: Option<Tag>,
    hits_after: Seq<HitTestInfo>,
) -> Option<(u64, u16)> {
    if pointer_events == PointerEvents::NoEvents || tag is None {
        None
    } else {
        Some((((hits_after.len() - 1) as usize) as u64, 0u16))
    }
}

/// The hit-test list after a fragment has asked for its tag.
pub open spec fn hits_after_tag(
    hits: Seq<HitTestInfo>,
    pointer_events: PointerEvents,
    cursor_kind: CursorKind,
    tag: Option<Tag>,
    auto_cursor: Cursor,
    scroll_node: ScrollTreeNodeId,
) -> Seq<HitTestInfo> {
    if pointer_events == PointerEvents::NoEvents || tag is None {
        hits
    } else {
        hit_tests_after(hits, tag->0.node, Some(cursor_for(cursor_kind, auto_cursor)), scroll_node)
    }
}

impl PaintState {
    /// The common properties of a primitive painted now: the current
    /// coordinate space and clip, and no hit-test tag.
    pub open spec fn common(&self, clip_rect: LayoutRect, backface_visible: bool) -> CommonProps {
        CommonProps {
            clip_rect,
            spatial_id: self.current_scroll_node_id.spatial_id,
            clip_id: self.current_clip_id,
            hit_info: None,
            backface_visible,
        }
    }

    /// The common properties of a primitive painted now.
    pub fn common_properties(&self, clip_rect: LayoutRect, backface_visible: bool) -> (common:
        CommonProps)
        ensures
            common == self.common(clip_rect, backface_visible),
    {
        CommonProps {
            clip_rect,
            spatial_id: self.current_scroll_node_id.spatial_id,
            clip_id: self.current_clip_id,
            hit_info: None,
            backface_visible,
        }
    }

    /// The hit-test tag of a fragment. A fragment that takes no pointer
    /// events or has no node gets none; for any other a hit-test entry is
    /// registered with the cursor that its style asks for.
    pub fn hit_info(
        &self,
        display_list: &mut DisplayList,
        pointer_events: PointerEvents,
        cursor_kind: CursorKind,
        tag: Option<Tag>,
        auto_cursor: Cursor,
    ) -> (hit: Option<(u64, u16)>)
        ensures
            final(display_list).compositor_info.hit_test_info@ == hits_after_tag(
                old(display_list).compositor_info.hit_test_info@,
                pointer_events,
                cursor_kind,
                tag,
                auto_cursor,
                self.current_scroll_node_id,
            ),
            hit == hit_tag(pointer_events, tag, final(display_list).compositor_info.hit_test_info@),
            final(display_list).wr == old(display_list).wr,
            final(display_list).pipeline_id == old(display_list).pipeline_id,
            final(display_list).compositor_info.scroll_tree == old(
                display_list,
            ).compositor_info.scroll_tree,
    {
        if pointer_events == PointerEvents::NoEvents {
            return None;
        }
        let node = match tag {
            Some(tag) => tag.node,
            None => {
                return None;
            },
        };
        let hit_test_index = display_list.compositor_info.add_hit_test_info(
            node,
            Some(cursor(cursor_kind, auto_cursor)),
            self.current_scroll_node_id,
        );
        Some((hit_test_index as u64, 0u16))
    }
}


/// Where the pen stands after a run of glyphs: every glyph advances it.
pub open spec fn pen_after(glyphs: Seq<Glyph>, pen_x: int) -> int
    decreases glyphs.len(),
{
    if glyphs.len() == 0 {
        pen_x
    } else {
        clamp_au(pen_after(glyphs.drop_last(), pen_x) + glyphs.last().advance)
    }
}

/// Where a glyph is drawn when the pen stands at `(pen_x, y)`.
pub open spec fn glyph_point(glyph: Glyph, pen_x: int, y: int) -> AuPoint {
    match glyph.offset {
        Some(offset) => AuPoint {
            x: clamp_au(pen_x + offset.x) as i32,
            y: clamp_au(y + offset.y) as i32,
        },
        None => AuPoint { x: clamp_au(pen_x) as i32, y: clamp_au(y) as i32 },
    }
}

/// The glyphs of one run with the places where they are drawn. A run of
/// white space draws nothing.
pub open spec fn run_placed(run: GlyphRun, pen_x: int, y: int) -> Seq<(u32, AuPoint)> {
    if run.is_whitespace {
        Seq::empty()
    } else {
        Seq::new(
            run.glyphs@.len(),
            |i: int| (run.glyphs@[i].id, glyph_point(run.glyphs@[i], pen_after(run.glyphs@.take(i), pen_x), y)),
        )
    }
}

/// Where the pen stands after a sequence of runs.
pub open spec fn pen_after_runs(runs: Seq<GlyphRun>, pen_x: int) -> int
    decreases runs.len(),
{
    if runs.len() == 0 {
        pen_x
    } else {
        pen_after(runs.last().glyphs@, pen_after_runs(runs.drop_last(), pen_x))
    }
}

/// The glyphs of a sequence of runs with the places where they are drawn:
/// the pen starts at `origin` and moves on with every glyph, also through
/// white space.
pub open spec fn placed_glyphs(runs: Seq<GlyphRun>, origin: AuPoint) -> Seq<(u32, AuPoint)>
    decreases runs.len(),
{
    if runs.len() == 0 {
        Seq::empty()
    } else {
        placed_glyphs(runs.drop_last(), origin) + run_placed(
            runs.last(),
            pen_after_runs(runs.drop_last(), origin.x as int),
            origin.y as int,
        )
    }
}

/// The rasterizer's glyphs for placed glyphs.
pub open spec fn glyph_instances(placed: Seq<(u32, AuPoint)>) -> Seq<GlyphInstance> {
    Seq::new(placed.len(), |i: int| glyph_of(placed[i].0, placed[i].1))
}

/// Places the glyphs of the runs along a baseline that starts at `origin`.
pub fn glyphs(glyph_runs: &Vec<GlyphRun>, origin: AuPoint) -> (out: Vec<GlyphInstance>)
    ensures
        out@ == glyph_instances(placed_glyphs(glyph_runs@, origin)),
{
    let mut out: Vec<GlyphInstance> = Vec::new();
    let mut pen_x: i32 = origin.x;
    let mut r: usize = 0;
    while r < glyph_runs.len()
        invariant
            r <= glyph_runs@.len(),
            pen_x == pen_after_runs(glyph_runs@.take(r as int), origin.x as int),
            out@ == glyph_instances(placed_glyphs(glyph_runs@.take(r as int), origin)),
        decreases glyph_runs@.len() - r,
    {
        let run = &glyph_runs[r];
        let ghost start = pen_x as int;
        let ghost before = out@;
        let mut g: usize = 0;
        while g < run.glyphs.len()
            invariant
                g <= run.glyphs@.len(),
                pen_x == pen_after(run.glyphs@.take(g as int), start),
                run.is_whitespace ==> out@ == before,
                !run.is_whitespace ==> out@ == before + glyph_instances(
                    Seq::new(
                        g as nat,
                        |i: int|
                            (
                                run.glyphs@[i].id,
                                glyph_point(
                                    run.glyphs@[i],
                                    pen_after(run.glyphs@.take(i), start),
                                    origin.y as int,
                                ),
                            ),
                    ),
                ),
            decreases run.glyphs@.len() - g,
        {
            let glyph = run.glyphs[g];
            if !run.is_whitespace {
                let point = match glyph.offset {
                    Some(offset) => AuPoint {
                        x: au_add(pen_x, offset.x),
                        y: au_add(origin.y, offset.y),
                    },
                    None => AuPoint { x: au_add(pen_x, 0), y: au_add(origin.y, 0) },
                };
                out.push(glyph_instance(glyph.id, point));
                proof {
                    let upto = |n: nat|
                        Seq::new(
                            n,
                            |i: int|
                                (
                                    run.glyphs@[i].id,
                                    glyph_point(
                                        run.glyphs@[i],
                                        pen_after(run.glyphs@.take(i), start),
                                        origin.y as int,
                                    ),
                                ),
                        );
                    assert(upto((g + 1) as nat) =~= upto(g as nat).push((glyph.id, point)));
                    assert(glyph_instances(upto((g + 1) as nat)) =~= glyph_instances(
                        upto(g as nat),
                    ).push(glyph_of(glyph.id, point)));
                    assert(out@ =~= before + glyph_instances(upto((g + 1) as nat)));
                }
            }
            proof {
                assert(run.glyphs@.take(g + 1).drop_last() =~= run.glyphs@.take(g as int));
            }
            pen_x = au_add(pen_x, glyph.advance);
            g += 1;
        }
        proof {
            let runs_next = glyph_runs@.take(r + 1);
            assert(runs_next.drop_last() =~= glyph_runs@.take(r as int));
            assert(runs_next.last() == glyph_runs@[r as int]);
            assert(run.glyphs@.take(g as int) =~= run.glyphs@);
            let placed_before = placed_glyphs(glyph_runs@.take(r as int), origin);
            let placed_run = run_placed(*run, start, origin.y as int);
            assert(placed_glyphs(runs_next, origin) == placed_before + placed_run);
            assert(glyph_instances(placed_before + placed_run) =~= glyph_instances(placed_before)
                + glyph_instances(placed_run));
            if run.is_whitespace {
                assert(glyph_instances(placed_run) =~= Seq::<GlyphInstance>::empty());
                assert(out@ =~= before + glyph_instances(placed_run));
            }
        }
        r += 1;
    }
    proof {
        assert(glyph_runs@.take(r as int) =~= glyph_runs@);
    }
    out
}

/// The number of whole device pixels nearest to a length, and at least one.
pub open spec fn device_pixels(value: int, ratio: DevicePixelRatio) -> int {
    let doubled = 2 * value * ratio.numerator + 60 * ratio.denominator;
    if value <= 0 || doubled / (120 * ratio.denominator) < 1 {
        1
    } else {
        doubled / (120 * ratio.denominator)
    }
}

/// A length rounded to the nearest whole number of device pixels, and to
/// one device pixel at least; the result is again in app units, to the
/// nearest app unit.
pub open spec fn rounded_to_device_pixel(value: int, ratio: DevicePixelRatio) -> int {
    let pixels = device_pixels(value, ratio);
    let au = (2 * pixels * 60 * ratio.denominator + ratio.numerator) / (2 * ratio.numerator);
    if au > MAX_AU {
        MAX_AU as int
    } else {
        au
    }
}

/// Rounds the thickness of a decoration line to whole device pixels, so
/// that the line is sharp, and to one device pixel at least.
pub fn round_to_nearest_device_pixel(value: i32, ratio: DevicePixelRatio) -> (out: i32)
    requires
        ratio.wf(),
    ensures
        out == rounded_to_device_pixel(value as int, ratio),
        out >= 0,
{
    let n: i128 = ratio.numerator as i128;
    let d: i128 = ratio.denominator as i128;
    let v: i128 = value as i128;
    assert(-0x1_0000_0000_0000 <= 2 * v * n <= 0x1_0000_0000_0000) by (nonlinear_arith)
        requires
            -0x8000_0000 <= v <= 0x7fff_ffff,
            0 < n <= 0xffff,
    ;
    let doubled: i128 = 2 * v * n + 60 * d;
    let mut pixels: i128 = 1;
    if value > 0 {
        let nearest: i128 = doubled / (120 * d);
        assert(0 <= nearest <= doubled) by (nonlinear_arith)
            requires
                nearest == (doubled as int) / (120 * d),
                0 <= doubled,
                0 < d,
        ;
        if nearest >= 1 {
            pixels = nearest;
        }
    }
    assert(pixels == device_pixels(value as int, ratio));
    assert(0 < 2 * pixels * 60 * d <= 0x2_0000_0000_0000 * 120 * 0xffff) by (nonlinear_arith)
        requires
            1 <= pixels <= 0x2_0000_0000_0000,
            0 < d <= 0xffff,
    ;
    let au: i128 = (2 * pixels * 60 * d + n) / (2 * n);
    assert(au >= 0) by (nonlinear_arith)
        requires
            au == (2 * pixels * 60 * d + n) / (2 * n),
            1 <= pixels,
            1 <= d,
            0 < n <= 0xffff,
    ;
    if au > 0x3fff_ffff {
        MAX_AU
    } else {
        au as i32
    }
}

/// The thickness of the wave of a wavy line over a decoration of the given
/// height: a third of the height, near enough, and a whole number of CSS
/// pixels, rounded up.
pub open spec fn wavy_thickness(height: int) -> int {
    clamp_au(((33 * height + 5999) / 6000) * 60)
}

/// The thickness of the wave of a wavy decoration line.
pub fn wavy_line_thickness(height: i32) -> (out: i32)
    ensures
        out == wavy_thickness(height as int),
{
    let h: i64 = height as i64;
    let scaled: i64 = 33 * h + 5999;
    let pixels: i64 = if scaled >= 0 {
        scaled / 6000
    } else {
        let up: i64 = (-scaled + 5999) / 6000;
        assert(-up == (scaled as int) / 6000) by (nonlinear_arith)
            requires
                scaled < 0,
                up == (-scaled + 5999) / 6000,
        ;
        -up
    };
    crate::geometry::clamp_to_au(pixels * 60)
}


/// The rectangle of an underline: as wide as the text, below the baseline
/// by the font's underline offset, and as high as the font's underline size
/// rounded to device pixels.
pub open spec fn underline_rect(rect: AuRect, metrics: FontMetrics, ratio: DevicePixelRatio) -> AuRect {
    AuRect {
        origin: AuPoint {
            x: rect.origin.x,
            y: clamp_au(clamp_au(rect.origin.y + metrics.ascent) - metrics.underline_offset) as i32,
        },
        size: AuSize {
            width: rect.size.width,
            height: rounded_to_device_pixel(metrics.underline_size as int, ratio) as i32,
        },
    }
}

/// The rectangle of an overline: at the top of the text, and as high as the
/// font's underline size rounded to device pixels.
pub open spec fn overline_rect(rect: AuRect, metrics: FontMetrics, ratio: DevicePixelRatio) -> AuRect {
    AuRect {
        origin: rect.origin,
        size: AuSize {
            width: rect.size.width,
            height: rounded_to_device_pixel(metrics.underline_size as int, ratio) as i32,
        },
    }
}

/// The rectangle of a line through the text: below the baseline by the
/// font's strikeout offset, and as high as the font's strikeout size rounded
/// to device pixels.
pub open spec fn line_through_rect(rect: AuRect, metrics: FontMetrics, ratio: DevicePixelRatio) -> AuRect {
    AuRect {
        origin: AuPoint {
            x: rect.origin.x,
            y: clamp_au(clamp_au(rect.origin.y + metrics.ascent) - metrics.strikeout_offset) as i32,
        },
        size: AuSize {
            width: rect.size.width,
            height: rounded_to_device_pixel(metrics.strikeout_size as int, ratio) as i32,
        },
    }
}

/// The line item of one decoration over `rect`; none where the decoration
/// style suppresses the line.
pub open spec fn decoration_items(state: PaintState, style: TextStyle, rect: AuRect) -> Seq<SceneItem> {
    if style.text_decoration_style == TextDecorationStyle::MozNone {
        Seq::empty()
    } else {
        seq![
            SceneItem::Line {
                common: state.common(layout_rect_of(rect), style.backface_visible),
                area: layout_rect_of(rect),
                wavy_line_thickness: px_bits_of(wavy_thickness(rect.size.height as int) as i32),
                orientation: line_orientation_of(true),
                color: color_of(style.text_decoration_color.resolved(style.color)),
                style: line_style_of(style.text_decoration_style.line()),
            },
        ]
    }
}

/// The decoration lines that are painted under the glyphs: the underline
/// and then the overline, each where the text has it.
pub open spec fn lines_under_text(state: PaintState, fragment: TextFragment, rect: AuRect) -> Seq<SceneItem> {
    let under = if fragment.text_decoration_line.underline {
        decoration_items(
            state,
            fragment.parent_style,
            underline_rect(rect, fragment.font_metrics, state.device_pixel_ratio),
        )
    } else {
        Seq::empty()
    };
    let over = if fragment.text_decoration_line.overline {
        decoration_items(
            state,
            fragment.parent_style,
            overline_rect(rect, fragment.font_metrics, state.device_pixel_ratio),
        )
    } else {
        Seq::empty()
    };
    under + over
}

/// The decoration line that is painted over the glyphs: the line through
/// the text, where the text has it.
pub open spec fn lines_over_text(state: PaintState, fragment: TextFragment, rect: AuRect) -> Seq<SceneItem> {
    if fragment.text_decoration_line.line_through {
        decoration_items(
            state,
            fragment.parent_style,
            line_through_rect(rect, fragment.font_metrics, state.device_pixel_ratio),
        )
    } else {
        Seq::empty()
    }
}

/// The glyphs of a text with their places: the baseline starts at the
/// text's origin, lowered by the font's ascent.
pub open spec fn text_glyphs(fragment: TextFragment, rect: AuRect) -> Seq<(u32, AuPoint)> {
    placed_glyphs(
        fragment.glyphs@,
        AuPoint {
            x: rect.origin.x,
            y: clamp_au(rect.origin.y + fragment.font_metrics.ascent) as i32,
        },
    )
}

/// The run of glyphs of a text, in the text's colour and with its hit-test tag.
pub open spec fn glyph_run_items(
    state: PaintState,
    fragment: TextFragment,
    rect: AuRect,
    hit: Option<(u64, u16)>,
) -> Seq<SceneItem> {
    text_run_items(
        CommonProps {
            clip_rect: layout_rect_of(rect),
            spatial_id: state.current_scroll_node_id.spatial_id,
            clip_id: state.current_clip_id,
            hit_info: hit,
            backface_visible: fragment.parent_style.backface_visible,
        },
        layout_rect_of(rect),
        glyph_instances(text_glyphs(fragment, rect)),
        fragment.font_key,
        color_of(fragment.parent_style.color),
        None,
    )
}

/// What a text that has glyphs adds to the scene: underline, overline, the
/// glyphs, and the line through them, in this order.
pub open spec fn text_items(
    state: PaintState,
    fragment: TextFragment,
    rect: AuRect,
    hit: Option<(u64, u16)>,
) -> Seq<SceneItem> {
    lines_under_text(state, fragment, rect) + glyph_run_items(state, fragment, rect, hit)
        + lines_over_text(state, fragment, rect)
}

/// Text is painted in a fixed order: every item before the glyph run is a
/// decoration line, namely underline and overline, and every item after it
/// is a decoration line, namely the line through the text.
pub proof fn text_paint_order(
    state: PaintState,
    fragment: TextFragment,
    rect: AuRect,
    hit: Option<(u64, u16)>,
)
    ensures
        ({
            let items = text_items(state, fragment, rect, hit);
            let under = lines_under_text(state, fragment, rect).len();
            let run = glyph_run_items(state, fragment, rect, hit).len();
            &&& forall|i: int| 0 <= i < under ==> #[trigger] items[i] is Line
            &&& forall|i: int|
                under <= i < under + run ==> (#[trigger] items[i] is Text || items[i] is Glyphs)
            &&& forall|i: int| under + run <= i < items.len() ==> #[trigger] items[i] is Line
            &&& items.len() <= under + run + 1
            &&& under <= 2
        }),
{
    let under = lines_under_text(state, fragment, rect);
    let run = glyph_run_items(state, fragment, rect, hit);
    let over = lines_over_text(state, fragment, rect);
    let items = text_items(state, fragment, rect, hit);
    text_run_holds_text(
        CommonProps {
            clip_rect: layout_rect_of(rect),
            spatial_id: state.current_scroll_node_id.spatial_id,
            clip_id: state.current_clip_id,
            hit_info: hit,
            backface_visible: fragment.parent_style.backface_visible,
        },
        layout_rect_of(rect),
        glyph_instances(text_glyphs(fragment, rect)),
        fragment.font_key,
        color_of(fragment.parent_style.color),
        None,
    );
    assert forall|i: int| 0 <= i < under.len() implies #[trigger] items[i] is Line by {
        assert(items[i] == under[i]);
    }
    assert forall|i: int| under.len() <= i < under.len() + run.len() implies (
    #[trigger] items[i] is Text || items[i] is Glyphs) by {
        assert(items[i] == run[i - under.len()]);
    }
    assert forall|i: int| under.len() + run.len() <= i < items.len() implies #[trigger] items[i] is Line by {
        assert(items[i] == over[i - under.len() - run.len()]);
    }
}

/// A text run consists of text items and glyph items only.
pub proof fn text_run_holds_text(
    common: CommonProps,
    bounds: LayoutRect,
    glyphs: Seq<GlyphInstance>,
    font_key: webrender_api::FontInstanceKey,
    color: webrender_api::ColorF,
    glyph_options: Option<webrender_api::GlyphOptions>,
)
    ensures
        forall|i: int|
            0 <= i < text_run_items(common, bounds, glyphs, font_key, color, glyph_options).len()
                ==> {
                let item = #[trigger] text_run_items(
                    common,
                    bounds,
                    glyphs,
                    font_key,
                    color,
                    glyph_options,
                )[i];
                item is Text || item is Glyphs
            },
    decreases glyphs.len(),
{
    if glyphs.len() > crate::scene::MAX_TEXT_RUN_LENGTH {
        text_run_holds_text(
            common,
            bounds,
            glyphs.skip(crate::scene::MAX_TEXT_RUN_LENGTH as int),
            font_key,
            color,
            glyph_options,
        );
    }
}

/// Paints one decoration line over `rect`, unless the decoration style
/// suppresses it.
pub fn build_display_list_for_text_decoration(
    state: &PaintState,
    display_list: &mut DisplayList,
    style: &TextStyle,
    rect: &AuRect,
)
    ensures
        builder_items(final(display_list).wr) == builder_items(old(display_list).wr)
            + decoration_items(*state, *style, *rect),
        final(display_list).compositor_info == old(display_list).compositor_info,
        final(display_list).pipeline_id == old(display_list).pipeline_id,
{
    let area = layout_rect(*rect);
    let thickness = wavy_line_thickness(rect.size.height);
    let text_decoration_color = style.text_decoration_color.to_rgba(style.color);
    if style.text_decoration_style == TextDecorationStyle::MozNone {
        assert(builder_items(display_list.wr) =~= builder_items(display_list.wr)
            + decoration_items(*state, *style, *rect));
        return ;
    }
    let ghost before = builder_items(display_list.wr);
    push_line(
        &mut display_list.wr,
        &state.common_properties(area, style.backface_visible),
        &area,
        thickness,
        line_orientation(true),
        &rgba(text_decoration_color),
        line_style(style.text_decoration_style.line_style()),
    );
    assert(builder_items(display_list.wr) =~= before + decoration_items(*state, *style, *rect));
}

/// Paints a text: underline, overline, glyphs, line through, in that order.
/// A text without glyphs to draw paints nothing. The scene counts as
/// contentful from here on.
pub fn build_display_list_for_text_fragment(
    state: &mut PaintState,
    display_list: &mut DisplayList,
    fragment: &TextFragment,
    containing_block: &AuRect,
)
    requires
        old(state).device_pixel_ratio.wf(),
    ensures
        *final(state) == (PaintState { is_contentful: true, ..*old(state) }),
        final(display_list).pipeline_id == old(display_list).pipeline_id,
        final(display_list).compositor_info.scroll_tree == old(
            display_list,
        ).compositor_info.scroll_tree,
        ({
            let rect = fragment.rect.translated(containing_block.origin);
            let hits = old(display_list).compositor_info.hit_test_info@;
            if text_glyphs(*fragment, rect).len() == 0 {
                &&& final(display_list).compositor_info.hit_test_info@ == hits
                &&& builder_items(final(display_list).wr) == builder_items(old(display_list).wr)
            } else {
                &&& final(display_list).compositor_info.hit_test_info@ == hits_after_tag(
                    hits,
                    fragment.parent_style.pointer_events,
                    fragment.parent_style.cursor,
                    fragment.tag,
                    Cursor::Text,
                    old(state).current_scroll_node_id,
                )
                &&& builder_items(final(display_list).wr) == builder_items(old(display_list).wr)
                    + text_items(
                    *old(state),
                    *fragment,
                    rect,
                    hit_tag(
                        fragment.parent_style.pointer_events,
                        fragment.tag,
                        final(display_list).compositor_info.hit_test_info@,
                    ),
                )
            }
        }),
{
    state.is_contentful = true;
    let ghost before = builder_items(display_list.wr);
    let ghost state0 = *old(state);
    let rect = fragment.rect.translate(containing_block.origin);
    let baseline_origin = AuPoint {
        x: rect.origin.x,
        y: au_add(rect.origin.y, fragment.font_metrics.ascent),
    };
    let glyphs = glyphs(&fragment.glyphs, baseline_origin);
    if glyphs.len() == 0 {
        return ;
    }
    let style = &fragment.parent_style;
    let mut common = state.common_properties(layout_rect(rect), style.backface_visible);
    common.hit_info = state.hit_info(
        display_list,
        style.pointer_events,
        style.cursor,
        fragment.tag,
        Cursor::Text,
    );
    let font_metrics = &fragment.font_metrics;
    let ratio = state.device_pixel_ratio;

    if fragment.text_decoration_line.underline {
        let mut line = rect;
        line.origin.y = au_sub(au_add(rect.origin.y, font_metrics.ascent), font_metrics.underline_offset);
        line.size.height = round_to_nearest_device_pixel(font_metrics.underline_size, ratio);
        build_display_list_for_text_decoration(state, display_list, style, &line);
    }
    if fragment.text_decoration_line.overline {
        let mut line = rect;
        line.size.height = round_to_nearest_device_pixel(font_metrics.underline_size, ratio);
        build_display_list_for_text_decoration(state, display_list, style, &line);
    }
    assert(builder_items(display_list.wr) =~= before + lines_under_text(state0, *fragment, rect));

    push_text(
        &mut display_list.wr,
        &common,
        layout_rect(rect),
        &glyphs,
        fragment.font_key,
        rgba(style.color),
        None,
    );

    if fragment.text_decoration_line.line_through {
        let mut line = rect;
        line.origin.y = au_sub(au_add(rect.origin.y, font_metrics.ascent), font_metrics.strikeout_offset);
        line.size.height = round_to_nearest_device_pixel(font_metrics.strikeout_size, ratio);
        build_display_list_for_text_decoration(state, display_list, style, &line);
    }
    assert(builder_items(display_list.wr) =~= before + text_items(
        state0,
        *fragment,
        rect,
        common.hit_info,
    ));
}

/// What an image adds to the scene.
pub open spec fn image_item(state: PaintState, image: ImageFragment, rect: AuRect) -> SceneItem {
    SceneItem::Image {
        common: state.common(layout_rect_of(rect), image.style.backface_visible),
        bounds: layout_rect_of(rect),
        image_rendering: image_rendering_of(image.style.image_rendering),
        alpha_type: alpha_type_of(true),
        key: image.image_key,
        color: color_of(Rgba { red: 255, green: 255, blue: 255, alpha: 255 }),
    }
}

/// What an embedded document adds to the scene.
pub open spec fn iframe_item(state: PaintState, iframe: IFrameFragment, rect: AuRect) -> SceneItem {
    SceneItem::Iframe {
        bounds: layout_rect_of(rect),
        clip_rect: layout_rect_of(rect),
        space_and_clip: SpaceAndClip {
            spatial_id: state.current_scroll_node_id.spatial_id,
            clip_id: state.current_clip_id,
        },
        pipeline_id: iframe.pipeline_id,
        ignore_missing_pipeline: true,
    }
}

/// Paints a visible image. The scene counts as contentful from here on.
pub fn build_display_list_for_image(
    state: &mut PaintState,
    display_list: &mut DisplayList,
    image: &ImageFragment,
    containing_block: &AuRect,
)
    ensures
        *final(state) == (PaintState { is_contentful: true, ..*old(state) }),
        final(display_list).compositor_info == old(display_list).compositor_info,
        final(display_list).pipeline_id == old(display_list).pipeline_id,
        builder_items(final(display_list).wr) == builder_items(old(display_list).wr).push(
            image_item(*old(state), *image, image.rect.translated(containing_block.origin)),
        ),
{
    state.is_contentful = true;
    let rect = image.rect.translate(containing_block.origin);
    let common = state.common_properties(layout_rect(rect), image.style.backface_visible);
    push_image(
        &mut display_list.wr,
        &common,
        layout_rect(rect),
        image_rendering(image.style.image_rendering),
        alpha_type(true),
        image.image_key,
        rgba(Rgba::white()),
    );
}

/// Paints a visible embedded document and records its size for its browsing
/// context. An embedded document does not make the scene contentful.
pub fn build_display_list_for_iframe(
    state: &mut PaintState,
    display_list: &mut DisplayList,
    iframe: &IFrameFragment,
    containing_block: &AuRect,
)
    ensures
        final(state).is_contentful == old(state).is_contentful,
        final(state).current_scroll_node_id == old(state).current_scroll_node_id,
        final(state).current_clip_id == old(state).current_clip_id,
        final(state).element_for_canvas_background == old(state).element_for_canvas_background,
        final(state).device_pixel_ratio == old(state).device_pixel_ratio,
        iframe_sizes_of(final(state).iframe_sizes) == iframe_sizes_of(
            old(state).iframe_sizes,
        ).insert(
            iframe.browsing_context_id,
            iframe.rect.translated(containing_block.origin).size,
        ),
        final(display_list).compositor_info == old(display_list).compositor_info,
        final(display_list).pipeline_id == old(display_list).pipeline_id,
        builder_items(final(display_list).wr) == builder_items(old(display_list).wr).push(
            iframe_item(*old(state), *iframe, iframe.rect.translated(containing_block.origin)),
        ),
{
    let rect = iframe.rect.translate(containing_block.origin);
    record_iframe_size(&mut state.iframe_sizes, iframe.browsing_context_id, rect.size);
    let common = state.common_properties(layout_rect(rect), iframe.style.backface_visible);
    push_iframe(
        &mut display_list.wr,
        layout_rect(rect),
        common.clip_rect,
        &SpaceAndClip { spatial_id: common.spatial_id, clip_id: common.clip_id },
        iframe.pipeline_id,
        true,
    );
}

} // verus!
