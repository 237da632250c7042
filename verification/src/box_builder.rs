//! Painting of one box: hit test, background colour, background images and
//! border, in this order, or its outline.
//!
//! The rounded clips of the border, padding and content edges are defined in
//! the scene when they are first needed and remembered for the rest of the
//! box.

use crate::convert::{
    alpha_type, alpha_type_of, border_radius, border_radius_of, border_side, border_side_of,
    border_style, border_style_of, color_of, image_rendering, image_rendering_of, normal_border,
    normal_border_of, rgba, rounded_clip, rounded_clip_of, ClipSide,
};
use crate::cursor::Cursor;
use crate::fragments::{
    BackgroundLayer, BoxFragment, GradientKind, LayerImage, StackingContextSection,
    WebRenderImageInfo,
};
use crate::geometry::{
    au_add, clamp_au, layout_rect, layout_rect_of, layout_side_offsets,
    layout_side_offsets_of, layout_size, layout_size_of, AuRect, AuSideOffsets,
};
use crate::memo::{
    clip_cell_get, clip_cell_init, clip_cell_value, new_clip_cell, new_rect_cell, rect_cell_get,
    rect_cell_init, rect_cell_value, ClipCell, RectCell,
};
use crate::painting::{hit_tag, hits_after_tag, DisplayList, PaintState};
use crate::radii::{inner_radii, offset_radii, CornerRadii};
use crate::scene::{
    builder_items, define_clip, push_border, push_gradient, push_hit_test, push_image,
    push_radial_gradient, push_rect, push_repeating_image, push_stops, stop_items, CommonProps,
    SceneItem, SpaceAndClip,
};
use crate::style::{BackgroundClip, Color, ComputedBorderStyle, Rgba};
use vstd::prelude::*;
use webrender_api::{BorderSide, ClipId};

verus! {

/// The sum of two sets of side offsets, side by side.
pub open spec fn offsets_sum(a: AuSideOffsets, b: AuSideOffsets) -> AuSideOffsets {
    AuSideOffsets {
        top: clamp_au(a.top + b.top) as i32,
        right: clamp_au(a.right + b.right) as i32,
        bottom: clamp_au(a.bottom + b.bottom) as i32,
        left: clamp_au(a.left + b.left) as i32,
    }
}

/// Adds two sets of side offsets, side by side.
pub fn add_offsets(a: AuSideOffsets, b: AuSideOffsets) -> (s: AuSideOffsets)
    ensures
        s == offsets_sum(a, b),
{
    AuSideOffsets {
        top: au_add(a.top, b.top),
        right: au_add(a.right, b.right),
        bottom: au_add(a.bottom, b.bottom),
        left: au_add(a.left, b.left),
    }
}

/// The item that defines the rounded clip `id` of an edge under the current
/// coordinate space and clip.
pub open spec fn rounded_clip_item(
    id: ClipId,
    state: PaintState,
    rect: AuRect,
    radii: CornerRadii,
) -> SceneItem {
    SceneItem::Clip {
        id,
        parent: SpaceAndClip {
            spatial_id: state.current_scroll_node_id.spatial_id,
            clip_id: state.current_clip_id,
        },
        clip_rect: layout_rect_of(rect),
        complex: Some(
            rounded_clip_of(layout_rect_of(rect), border_radius_of(radii), ClipSide::Inside),
        ),
    }
}

/// What defining the clip of an edge does to the scene: an edge with sharp
/// corners needs no clip, any other gets a rounded clip of its own.
pub open spec fn clip_made(
    radii: CornerRadii,
    rect: AuRect,
    state: PaintState,
    before: Seq<SceneItem>,
    after: Seq<SceneItem>,
    made: Option<ClipId>,
) -> bool {
    if radii.all_zero() {
        made is None && after == before
    } else {
        made is Some && after == before.push(rounded_clip_item(made->0, state, rect, radii))
    }
}

/// Defines the rounded clip of an edge, if the edge has a rounded corner.
pub fn clip_for_radii(
    radii: CornerRadii,
    rect: AuRect,
    state: &PaintState,
    display_list: &mut DisplayList,
) -> (made: Option<ClipId>)
    ensures
        clip_made(
            radii,
            rect,
            *state,
            builder_items(old(display_list).wr),
            builder_items(final(display_list).wr),
            made,
        ),
        final(display_list).compositor_info == old(display_list).compositor_info,
        final(display_list).pipeline_id == old(display_list).pipeline_id,
{
    if radii.is_zero() {
        None
    } else {
        let parent_space_and_clip = SpaceAndClip {
            spatial_id: state.current_scroll_node_id.spatial_id,
            clip_id: state.current_clip_id,
        };
        let area = layout_rect(rect);
        Some(
            define_clip(
                &mut display_list.wr,
                &parent_space_and_clip,
                area,
                Some(rounded_clip(area, border_radius(radii), ClipSide::Inside)),
            ),
        )
    }
}

/// Which of the three edges of a box have been asked for their clip.
#[derive(Clone, Copy, Debug, PartialEq, Eq, Structural)]
pub struct Seen {
    pub border: bool,
    pub padding: bool,
    pub content: bool,
}

impl Seen {
    /// Whether the edge has been asked for.
    pub open spec fn has(self, which: BackgroundClip) -> bool {
        match which {
            BackgroundClip::BorderBox => self.border,
            BackgroundClip::PaddingBox => self.padding,
            BackgroundClip::ContentBox => self.content,
        }
    }

    /// The same, with the edge asked for.
    pub open spec fn with(self, which: BackgroundClip) -> Seen {
        match which {
            BackgroundClip::BorderBox => Seen { border: true, ..self },
            BackgroundClip::PaddingBox => Seen { padding: true, ..self },
            BackgroundClip::ContentBox => Seen { content: true, ..self },
        }
    }
}

/// What is remembered while one box is painted.
pub struct BuilderForBoxFragment<'a> {
    pub fragment: &'a BoxFragment,
    pub containing_block: &'a AuRect,
    /// The border rectangle, in the coordinates of the scene.
    pub border_rect: AuRect,
    /// The padding rectangle, once it has been asked for.
    pub padding_rect: RectCell,
    /// The content rectangle, once it has been asked for.
    pub content_rect: RectCell,
    /// The corner radii of the border edge, after the corner-overlap rule.
    pub border_radius: CornerRadii,
    /// The clip of the border edge, once it has been asked for.
    pub border_edge_clip_id: ClipCell,
    /// The clip of the padding edge, once it has been asked for.
    pub padding_edge_clip_id: ClipCell,
    /// The clip of the content edge, once it has been asked for.
    pub content_edge_clip_id: ClipCell,
}

impl<'a> BuilderForBoxFragment<'a> {
    /// The rectangle of an edge, in the coordinates of the scene.
    pub open spec fn edge_rect(&self, which: BackgroundClip) -> AuRect {
        match which {
            BackgroundClip::BorderBox => self.border_rect,
            BackgroundClip::PaddingBox => self.fragment.padding_rect.translated(
                self.containing_block.origin,
            ),
            BackgroundClip::ContentBox => self.fragment.content_rect.translated(
                self.containing_block.origin,
            ),
        }
    }

    /// The corner radii of an edge: those of the border edge, inset by the
    /// border for the padding edge and by border and padding for the
    /// content edge.
    pub open spec fn edge_radii(&self, which: BackgroundClip) -> CornerRadii {
        match which {
            BackgroundClip::BorderBox => self.border_radius,
            BackgroundClip::PaddingBox => self.border_radius.inset_by(self.fragment.border),
            BackgroundClip::ContentBox => self.border_radius.inset_by(
                offsets_sum(self.fragment.border, self.fragment.padding),
            ),
        }
    }

    /// What is remembered of the clip of an edge: nothing, that the edge
    /// needs no clip, or its clip.
    pub open spec fn memo(&self, which: BackgroundClip) -> Option<Option<ClipId>> {
        match which {
            BackgroundClip::BorderBox => clip_cell_value(self.border_edge_clip_id),
            BackgroundClip::PaddingBox => clip_cell_value(self.padding_edge_clip_id),
            BackgroundClip::ContentBox => clip_cell_value(self.content_edge_clip_id),
        }
    }

    /// The border rectangle and the radii are those of the fragment, and
    /// what is remembered of the rectangles is right.
    pub open spec fn wf(&self) -> bool {
        &&& self.fragment.wf()
        &&& self.border_rect == self.fragment.border_rect.translated(self.containing_block.origin)
        &&& self.border_radius == self.fragment.style.border_radius.normalized(
            self.fragment.border_rect.size,
        )
        &&& (rect_cell_value(self.padding_rect) is Some ==> rect_cell_value(self.padding_rect)->0
            == self.edge_rect(BackgroundClip::PaddingBox))
        &&& (rect_cell_value(self.content_rect) is Some ==> rect_cell_value(self.content_rect)->0
            == self.edge_rect(BackgroundClip::ContentBox))
        &&& self.memo_right(BackgroundClip::BorderBox)
        &&& self.memo_right(BackgroundClip::PaddingBox)
        &&& self.memo_right(BackgroundClip::ContentBox)
    }

    /// What is remembered of an edge is right: the edge has a clip exactly
    /// if it has a rounded corner.
    pub open spec fn memo_right(&self, which: BackgroundClip) -> bool {
        match self.memo(which) {
            Some(answer) => answer is Some <==> !self.edge_radii(which).all_zero(),
            None => true,
        }
    }

    /// The edges that have been asked for.
    pub open spec fn seen(&self) -> Seen {
        Seen {
            border: self.memo(BackgroundClip::BorderBox) is Some,
            padding: self.memo(BackgroundClip::PaddingBox) is Some,
            content: self.memo(BackgroundClip::ContentBox) is Some,
        }
    }

    /// The item that defines the clip of an edge, where the edge is asked for
    /// the first time and has a clip. `self` is the builder after painting,
    /// which remembers the clip.
    pub open spec fn clip_items(&self, seen: Seen, which: BackgroundClip, state: PaintState) -> Seq<
        SceneItem,
    > {
        if seen.has(which) {
            Seq::empty()
        } else {
            match self.memo(which) {
                Some(Some(id)) => seq![
                    rounded_clip_item(id, state, self.edge_rect(which), self.edge_radii(which)),
                ],
                _ => Seq::empty(),
            }
        }
    }

    /// The common properties of what is painted into an edge: clipped to the
    /// edge's rectangle and, where the edge has one, to its rounded clip.
    pub open spec fn area_common(&self, which: BackgroundClip, state: PaintState) -> CommonProps {
        CommonProps {
            clip_rect: layout_rect_of(self.edge_rect(which)),
            spatial_id: state.current_scroll_node_id.spatial_id,
            clip_id: match self.memo(which) {
                Some(Some(id)) => id,
                _ => state.current_clip_id,
            },
            hit_info: None,
            backface_visible: self.fragment.style.backface_visible,
        }
    }

    /// `later` paints the same box, and remembers every clip that `self`
    /// remembers.
    pub open spec fn grows_into(&self, later: &BuilderForBoxFragment<'a>) -> bool {
        &&& later.fragment == self.fragment
        &&& later.containing_block == self.containing_block
        &&& later.border_rect == self.border_rect
        &&& later.border_radius == self.border_radius
        &&& (self.memo(BackgroundClip::BorderBox) is Some ==> later.memo(BackgroundClip::BorderBox)
            == self.memo(BackgroundClip::BorderBox))
        &&& (self.memo(BackgroundClip::PaddingBox) is Some ==> later.memo(
            BackgroundClip::PaddingBox,
        ) == self.memo(BackgroundClip::PaddingBox))
        &&& (self.memo(BackgroundClip::ContentBox) is Some ==> later.memo(
            BackgroundClip::ContentBox,
        ) == self.memo(BackgroundClip::ContentBox))
    }

    /// `later` differs from `self` at most in the rectangles that it
    /// remembers.
    pub open spec fn same_but_rects(&self, later: &BuilderForBoxFragment<'a>) -> bool {
        &&& later.fragment == self.fragment
        &&& later.containing_block == self.containing_block
        &&& later.border_rect == self.border_rect
        &&& later.border_radius == self.border_radius
        &&& later.border_edge_clip_id == self.border_edge_clip_id
        &&& later.padding_edge_clip_id == self.padding_edge_clip_id
        &&& later.content_edge_clip_id == self.content_edge_clip_id
    }

    /// What asking for the clip of the edge `which` does: the answer is
    /// remembered; an edge that was asked for before gives the same answer
    /// and leaves the scene alone, any other has its clip defined now.
    pub open spec fn asked(
        &self,
        later: &BuilderForBoxFragment<'a>,
        which: BackgroundClip,
        state: PaintState,
        before: Seq<SceneItem>,
        after: Seq<SceneItem>,
        answer: Option<ClipId>,
    ) -> bool {
        &&& self.grows_into(later)
        &&& later.memo(which) == Some(answer)
        &&& forall|other: BackgroundClip| other != which ==> later.memo(other) == self.memo(other)
        &&& if self.memo(which) is Some {
            after == before
        } else {
            clip_made(self.edge_radii(which), self.edge_rect(which), state, before, after, answer)
        }
    }

    /// Starts painting a box: places its border rectangle in the scene and
    /// applies the corner-overlap rule to its corner radii, once for the box.
    pub fn new(fragment: &'a BoxFragment, containing_block: &'a AuRect) -> (b: Self)
        requires
            fragment.wf(),
        ensures
            b.wf(),
            b.fragment == fragment,
            b.containing_block == containing_block,
            rect_cell_value(b.padding_rect) is None,
            rect_cell_value(b.content_rect) is None,
            b.seen() == (Seen { border: false, padding: false, content: false }),
            b.border_radius.fits(fragment.border_rect.size),
    {
        let border_rect = fragment.border_rect.translate(containing_block.origin);
        let border_radius = fragment.style.border_radius.normalize(fragment.border_rect.size);
        BuilderForBoxFragment {
            fragment,
            containing_block,
            border_rect,
            border_radius,
            padding_rect: new_rect_cell(),
            content_rect: new_rect_cell(),
            border_edge_clip_id: new_clip_cell(),
            padding_edge_clip_id: new_clip_cell(),
            content_edge_clip_id: new_clip_cell(),
        }
    }

    /// The content rectangle, in the coordinates of the scene. It is worked
    /// out when it is first asked for.
    pub fn content_rect(&mut self) -> (r: AuRect)
        requires
            old(self).wf(),
        ensures
            final(self).wf(),
            r == old(self).edge_rect(BackgroundClip::ContentBox),
            rect_cell_value(final(self).content_rect) == Some(r),
            old(self).same_but_rects(final(self)),
    {
        match rect_cell_get(&self.content_rect) {
            Some(r) => r,
            None => {
                let r = self.fragment.content_rect.translate(self.containing_block.origin);
                rect_cell_init(&mut self.content_rect, r);
                r
            },
        }
    }

    /// The padding rectangle, in the coordinates of the scene. It is worked
    /// out when it is first asked for.
    pub fn padding_rect(&mut self) -> (r: AuRect)
        requires
            old(self).wf(),
        ensures
            final(self).wf(),
            r == old(self).edge_rect(BackgroundClip::PaddingBox),
            rect_cell_value(final(self).padding_rect) == Some(r),
            old(self).same_but_rects(final(self)),
    {
        match rect_cell_get(&self.padding_rect) {
            Some(r) => r,
            None => {
                let r = self.fragment.padding_rect.translate(self.containing_block.origin);
                rect_cell_init(&mut self.padding_rect, r);
                r
            },
        }
    }

    /// The clip of the border edge; none where the edge has sharp corners.
    pub fn border_edge_clip(&mut self, state: &PaintState, display_list: &mut DisplayList) -> (made:
        Option<ClipId>)
        requires
            old(self).wf(),
        ensures
            final(self).wf(),
            old(self).asked(
                final(self),
                BackgroundClip::BorderBox,
                *state,
                builder_items(old(display_list).wr),
                builder_items(final(display_list).wr),
                made,
            ),
            final(display_list).compositor_info == old(display_list).compositor_info,
            final(display_list).pipeline_id == old(display_list).pipeline_id,
    {
        match clip_cell_get(&self.border_edge_clip_id) {
            Some(made) => made,
            None => {
                let made = clip_for_radii(self.border_radius, self.border_rect, state, display_list);
                clip_cell_init(&mut self.border_edge_clip_id, made);
                made
            },
        }
    }

    /// The clip of the padding edge; none where the edge has sharp corners.
    pub fn padding_edge_clip(&mut self, state: &PaintState, display_list: &mut DisplayList) -> (made:
        Option<ClipId>)
        requires
            old(self).wf(),
        ensures
            final(self).wf(),
            old(self).asked(
                final(self),
                BackgroundClip::PaddingBox,
                *state,
                builder_items(old(display_list).wr),
                builder_items(final(display_list).wr),
                made,
            ),
            final(display_list).compositor_info == old(display_list).compositor_info,
            final(display_list).pipeline_id == old(display_list).pipeline_id,
    {
        match clip_cell_get(&self.padding_edge_clip_id) {
            Some(made) => made,
            None => {
                let radii = inner_radii(self.border_radius, self.fragment.border);
                let rect = self.padding_rect();
                let made = clip_for_radii(radii, rect, state, display_list);
                clip_cell_init(&mut self.padding_edge_clip_id, made);
                made
            },
        }
    }

    /// The clip of the content edge; none where the edge has sharp corners.
    pub fn content_edge_clip(&mut self, state: &PaintState, display_list: &mut DisplayList) -> (made:
        Option<ClipId>)
        requires
            old(self).wf(),
        ensures
            final(self).wf(),
            old(self).asked(
                final(self),
                BackgroundClip::ContentBox,
                *state,
                builder_items(old(display_list).wr),
                builder_items(final(display_list).wr),
                made,
            ),
            final(display_list).compositor_info == old(display_list).compositor_info,
            final(display_list).pipeline_id == old(display_list).pipeline_id,
    {
        match clip_cell_get(&self.content_edge_clip_id) {
            Some(made) => made,
            None => {
                let radii = inner_radii(
                    self.border_radius,
                    add_offsets(self.fragment.border, self.fragment.padding),
                );
                let rect = self.content_rect();
                let made = clip_for_radii(radii, rect, state, display_list);
                clip_cell_init(&mut self.content_edge_clip_id, made);
                made
            },
        }
    }
}


impl<'a> BuilderForBoxFragment<'a> {
    /// The rectangle and the common properties of what is painted into the
    /// edge `which`. The clip of the edge is defined now if this is the
    /// first time that the edge is asked for.
    pub fn painting_area(
        &mut self,
        state: &PaintState,
        display_list: &mut DisplayList,
        which: BackgroundClip,
    ) -> (area: (AuRect, CommonProps))
        requires
            old(self).wf(),
        ensures
            final(self).wf(),
            old(self).grows_into(final(self)),
            final(self).seen() == old(self).seen().with(which),
            area.0 == old(self).edge_rect(which),
            area.1 == final(self).area_common(which, *state),
            builder_items(final(display_list).wr) == builder_items(old(display_list).wr)
                + final(self).clip_items(old(self).seen(), which, *state),
            final(display_list).compositor_info == old(display_list).compositor_info,
            final(display_list).pipeline_id == old(display_list).pipeline_id,
    {
        let ghost before = builder_items(display_list.wr);
        let (painting_area, clip) = match which {
            BackgroundClip::ContentBox => {
                let clip = self.content_edge_clip(state, display_list);
                (self.content_rect(), clip)
            },
            BackgroundClip::PaddingBox => {
                let clip = self.padding_edge_clip(state, display_list);
                (self.padding_rect(), clip)
            },
            BackgroundClip::BorderBox => (self.border_rect, self.border_edge_clip(state, display_list)),
        };
        let mut common = state.common_properties(
            layout_rect(painting_area),
            self.fragment.style.backface_visible,
        );
        if let Some(clip_id) = clip {
            common.clip_id = clip_id;
        }
        assert(builder_items(display_list.wr) =~= before + self.clip_items(
            old(self).seen(),
            which,
            *state,
        ));
        (painting_area, common)
    }

    /// Whether the box gets a hit-test item: it takes pointer events, has a
    /// node, and is not the element whose background is the canvas's.
    pub open spec fn takes_hits(&self, state: PaintState) -> bool {
        &&& !self.fragment.is_for(state.element_for_canvas_background)
        &&& self.fragment.style.pointer_events != crate::style::PointerEvents::NoEvents
        &&& self.fragment.tag is Some
    }

    /// The hit-test item of the box, after the clip of its border edge where
    /// that is defined now.
    pub open spec fn hit_test_items(&self, seen: Seen, state: PaintState, hit: Option<(u64, u16)>) -> Seq<
        SceneItem,
    > {
        if self.takes_hits(state) {
            self.clip_items(seen, BackgroundClip::BorderBox, state).push(
                SceneItem::HitTest {
                    common: CommonProps {
                        hit_info: hit,
                        ..self.area_common(BackgroundClip::BorderBox, state)
                    },
                },
            )
        } else {
            Seq::empty()
        }
    }

    /// The edges asked for once the hit test is painted.
    pub open spec fn seen_after_hit_test(&self, seen: Seen, state: PaintState) -> Seen {
        if self.takes_hits(state) {
            seen.with(BackgroundClip::BorderBox)
        } else {
            seen
        }
    }

    /// Paints the hit-test item of the box: it covers the border rectangle
    /// and is clipped to the border edge where that is rounded.
    pub fn build_hit_test(&mut self, state: &PaintState, display_list: &mut DisplayList)
        requires
            old(self).wf(),
        ensures
            final(self).wf(),
            old(self).grows_into(final(self)),
            final(self).seen() == old(self).seen_after_hit_test(old(self).seen(), *state),
            final(display_list).compositor_info.hit_test_info@ == if old(self).takes_hits(*state) {
                hits_after_tag(
                    old(display_list).compositor_info.hit_test_info@,
                    old(self).fragment.style.pointer_events,
                    old(self).fragment.style.cursor,
                    old(self).fragment.tag,
                    Cursor::Default,
                    state.current_scroll_node_id,
                )
            } else {
                old(display_list).compositor_info.hit_test_info@
            },
            builder_items(final(display_list).wr) == builder_items(old(display_list).wr)
                + final(self).hit_test_items(
                old(self).seen(),
                *state,
                hit_tag(
                    old(self).fragment.style.pointer_events,
                    old(self).fragment.tag,
                    final(display_list).compositor_info.hit_test_info@,
                ),
            ),
            final(display_list).compositor_info.scroll_tree == old(
                display_list,
            ).compositor_info.scroll_tree,
            final(display_list).pipeline_id == old(display_list).pipeline_id,
    {
        let ghost before = builder_items(display_list.wr);
        if self.fragment.is_for_node(state.element_for_canvas_background) {
            assert(builder_items(display_list.wr) =~= before + Seq::<SceneItem>::empty());
            return ;
        }
        let hit_info = state.hit_info(
            display_list,
            self.fragment.style.pointer_events,
            self.fragment.style.cursor,
            self.fragment.tag,
            Cursor::Default,
        );
        if hit_info.is_some() {
            let (_, mut common) = self.painting_area(state, display_list, BackgroundClip::BorderBox);
            common.hit_info = hit_info;
            push_hit_test(&mut display_list.wr, &common);
            assert(builder_items(display_list.wr) =~= before + self.hit_test_items(
                old(self).seen(),
                *state,
                hit_info,
            ));
        } else {
            assert(builder_items(display_list.wr) =~= before + Seq::<SceneItem>::empty());
        }
    }

    /// The colour of one side of a border, resolved against the text colour.
    pub open spec fn side_of(&self, style: ComputedBorderStyle, color: Color) -> BorderSide {
        border_side_of(color_of(color.resolved(self.fragment.style.color)), border_style_of(style))
    }

    /// One side of a border for the rasterizer.
    pub fn build_border_side(&self, style: ComputedBorderStyle, color: Color) -> (side: BorderSide)
        ensures
            side == self.side_of(style, color),
    {
        border_side(rgba(color.to_rgba(self.fragment.style.color)), border_style(style))
    }

    /// The border item of the box; none for a border without width.
    pub open spec fn border_items(&self, state: PaintState) -> Seq<SceneItem> {
        let style = self.fragment.style;
        if style.border_widths == (AuSideOffsets { top: 0, right: 0, bottom: 0, left: 0 }) {
            Seq::empty()
        } else {
            seq![
                SceneItem::Border {
                    common: state.common(layout_rect_of(self.border_rect), style.backface_visible),
                    bounds: layout_rect_of(self.border_rect),
                    widths: layout_side_offsets_of(style.border_widths),
                    details: normal_border_of(
                        self.side_of(style.border_sides.top_style, style.border_sides.top_color),
                        self.side_of(style.border_sides.right_style, style.border_sides.right_color),
                        self.side_of(
                            style.border_sides.bottom_style,
                            style.border_sides.bottom_color,
                        ),
                        self.side_of(style.border_sides.left_style, style.border_sides.left_color),
                        border_radius_of(self.border_radius),
                        true,
                    ),
                },
            ]
        }
    }

    /// Paints the border of the box, if a side of it has a width.
    pub fn build_border(&self, state: &PaintState, display_list: &mut DisplayList)
        ensures
            builder_items(final(display_list).wr) == builder_items(old(display_list).wr)
                + self.border_items(*state),
            final(display_list).compositor_info == old(display_list).compositor_info,
            final(display_list).pipeline_id == old(display_list).pipeline_id,
    {
        let ghost before = builder_items(display_list.wr);
        let style = &self.fragment.style;
        if style.border_widths.is_zero() {
            assert(builder_items(display_list.wr) =~= before + self.border_items(*state));
            return ;
        }
        let bounds = layout_rect(self.border_rect);
        let common = state.common_properties(bounds, style.backface_visible);
        let sides = &style.border_sides;
        let details = normal_border(
            self.build_border_side(sides.top_style, sides.top_color),
            self.build_border_side(sides.right_style, sides.right_color),
            self.build_border_side(sides.bottom_style, sides.bottom_color),
            self.build_border_side(sides.left_style, sides.left_color),
            border_radius(self.border_radius),
            true,
        );
        push_border(
            &mut display_list.wr,
            &common,
            bounds,
            layout_side_offsets(style.border_widths),
            details,
        );
        assert(builder_items(display_list.wr) =~= before + self.border_items(*state));
    }

    /// How far outside the border edge the outer edge of the outline lies:
    /// the outline's offset, which cannot pull further in than half the
    /// box's width or height, and its width.
    pub open spec fn outline_reach(&self) -> int {
        let outline = self.fragment.style.outline;
        let half_width = -(self.border_rect.size.width / 2);
        let half_height = -(self.border_rect.size.height / 2);
        let pulled = if outline.offset >= half_width {
            outline.offset as int
        } else {
            half_width
        };
        let offset = if pulled >= half_height {
            pulled
        } else {
            half_height
        };
        clamp_au(offset + outline.width)
    }

    /// The outline item of the box; none for an outline without width.
    pub open spec fn outline_items(&self, state: PaintState) -> Seq<SceneItem> {
        let style = self.fragment.style;
        let outline = style.outline;
        if outline.width == 0 {
            Seq::empty()
        } else {
            let reach = self.outline_reach();
            let rect = self.border_rect.inflated(reach, reach);
            let side = self.side_of(outline.style.painted_as(), outline.color);
            seq![
                SceneItem::Border {
                    common: state.common(layout_rect_of(rect), style.backface_visible),
                    bounds: layout_rect_of(rect),
                    widths: layout_side_offsets_of(
                        AuSideOffsets {
                            top: outline.width,
                            right: outline.width,
                            bottom: outline.width,
                            left: outline.width,
                        },
                    ),
                    details: normal_border_of(
                        side,
                        side,
                        side,
                        side,
                        border_radius_of(self.border_radius.offset_by(reach)),
                        true,
                    ),
                },
            ]
        }
    }

    /// Paints the outline of the box, if it has a width: a border around the
    /// border edge at the outline's reach, with the corners of the border
    /// edge moved out or in by as much.
    pub fn build_outline(&self, state: &PaintState, display_list: &mut DisplayList)
        requires
            self.wf(),
        ensures
            builder_items(final(display_list).wr) == builder_items(old(display_list).wr)
                + self.outline_items(*state),
            final(display_list).compositor_info == old(display_list).compositor_info,
            final(display_list).pipeline_id == old(display_list).pipeline_id,
    {
        let ghost before = builder_items(display_list.wr);
        let style = &self.fragment.style;
        let outline = style.outline;
        let width = outline.width;
        if width == 0 {
            assert(builder_items(display_list.wr) =~= before + self.outline_items(*state));
            return ;
        }
        let half_width: i32 = -(self.border_rect.size.width / 2);
        let half_height: i32 = -(self.border_rect.size.height / 2);
        let mut offset = outline.offset;
        if offset < half_width {
            offset = half_width;
        }
        if offset < half_height {
            offset = half_height;
        }
        let reach = au_add(offset, width);
        let outline_rect = self.border_rect.inflate(reach, reach);
        let bounds = layout_rect(outline_rect);
        let common = state.common_properties(bounds, style.backface_visible);
        let widths = AuSideOffsets::new_all_same(width);
        let side = self.build_border_side(outline.style.border_style(), outline.color);
        let details = normal_border(
            side,
            side,
            side,
            side,
            border_radius(offset_radii(self.border_radius, reach)),
            true,
        );
        push_border(&mut display_list.wr, &common, bounds, layout_side_offsets(widths), details);
        assert(builder_items(display_list.wr) =~= before + self.outline_items(*state));
    }
}


/// Whether a background layer paints anything for a box with or without a
/// node: a gradient that has a place does, and so does an image that has a
/// place, is known to the cache and loaded, on a box that has a node.
pub open spec fn layer_paints(layer: BackgroundLayer, has_node: bool) -> bool {
    layer.placement is Some && match layer.image {
        LayerImage::NoImage => false,
        LayerImage::Gradient { .. } => true,
        LayerImage::Url { image } => has_node && image is Some && image->0.key is Some,
    }
}

impl<'a> BuilderForBoxFragment<'a> {
    /// Whether the box's own backgrounds are painted: not for the element
    /// whose background was painted for the canvas.
    pub open spec fn paints_background(&self, state: PaintState) -> bool {
        !self.fragment.is_for(state.element_for_canvas_background)
    }

    /// The background colour, resolved.
    pub open spec fn background_color(&self) -> Rgba {
        self.fragment.style.background_color.resolved(self.fragment.style.color)
    }

    /// Whether a rectangle of the background colour is painted: the colour
    /// is not fully transparent.
    pub open spec fn paints_color(&self, state: PaintState) -> bool {
        self.paints_background(state) && self.background_color().alpha > 0
    }

    /// The edge that the background colour is clipped to: that of the
    /// bottom-most background layer.
    pub open spec fn color_edge(&self) -> BackgroundClip {
        self.fragment.style.background_layers@.last().clip
    }

    /// The rectangle of the background colour, after the clip of its edge
    /// where that is defined now.
    pub open spec fn color_items(&self, seen: Seen, state: PaintState) -> Seq<SceneItem> {
        if self.paints_color(state) {
            self.clip_items(seen, self.color_edge(), state).push(
                SceneItem::Rectangle {
                    common: self.area_common(self.color_edge(), state),
                    color: color_of(self.background_color()),
                },
            )
        } else {
            Seq::empty()
        }
    }

    /// The edges asked for once the background colour is painted.
    pub open spec fn seen_after_color(&self, seen: Seen, state: PaintState) -> Seen {
        if self.paints_color(state) {
            seen.with(self.color_edge())
        } else {
            seen
        }
    }

    /// What a layer paints, without the clip of its edge: the stops and the
    /// gradient, or the image, tiled or not.
    pub open spec fn layer_paint(&self, layer: BackgroundLayer, state: PaintState) -> Seq<SceneItem> {
        let common = self.area_common(layer.clip, state);
        let place = layer.placement->0;
        match layer.image {
            LayerImage::NoImage => Seq::empty(),
            LayerImage::Gradient { kind, stops } => stop_items(stops@).push(
                match kind {
                    GradientKind::Linear(gradient) => SceneItem::Gradient {
                        common,
                        bounds: layout_rect_of(place.bounds),
                        gradient,
                        tile_size: layout_size_of(place.tile_size),
                        tile_spacing: layout_size_of(place.tile_spacing),
                    },
                    GradientKind::Radial(gradient) => SceneItem::RadialGradient {
                        common,
                        bounds: layout_rect_of(place.bounds),
                        gradient,
                        tile_size: layout_size_of(place.tile_size),
                        tile_spacing: layout_size_of(place.tile_spacing),
                    },
                },
            ),
            LayerImage::Url { image } => seq![
                if place.repeat {
                    SceneItem::RepeatingImage {
                        common,
                        bounds: layout_rect_of(place.bounds),
                        stretch_size: layout_size_of(place.tile_size),
                        tile_spacing: layout_size_of(place.tile_spacing),
                        image_rendering: image_rendering_of(self.fragment.style.image_rendering),
                        alpha_type: alpha_type_of(true),
                        key: image->0.key->0,
                        color: color_of(Rgba { red: 255, green: 255, blue: 255, alpha: 255 }),
                    }
                } else {
                    SceneItem::Image {
                        common,
                        bounds: layout_rect_of(place.bounds),
                        image_rendering: image_rendering_of(self.fragment.style.image_rendering),
                        alpha_type: alpha_type_of(true),
                        key: image->0.key->0,
                        color: color_of(Rgba { red: 255, green: 255, blue: 255, alpha: 255 }),
                    }
                },
            ],
        }
    }

    /// What one layer adds to the scene: nothing if it does not paint, else
    /// the clip of its edge where that is defined now, and what it paints.
    pub open spec fn layer_items(&self, seen: Seen, layer: BackgroundLayer, state: PaintState) -> Seq<
        SceneItem,
    > {
        if layer_paints(layer, self.fragment.tag is Some) {
            self.clip_items(seen, layer.clip, state) + self.layer_paint(layer, state)
        } else {
            Seq::empty()
        }
    }

    /// The edges asked for once a layer is painted.
    pub open spec fn seen_after_layer(&self, seen: Seen, layer: BackgroundLayer) -> Seen {
        if layer_paints(layer, self.fragment.tag is Some) {
            seen.with(layer.clip)
        } else {
            seen
        }
    }

    /// The edges asked for once the layers are painted.
    pub open spec fn seen_after_layers(&self, seen: Seen, layers: Seq<BackgroundLayer>) -> Seen
        decreases layers.len(),
    {
        if layers.len() == 0 {
            seen
        } else {
            self.seen_after_layers(self.seen_after_layer(seen, layers.last()), layers.drop_last())
        }
    }

    /// What the background layers add to the scene. The layers are listed
    /// top layer first and painted bottom layer first: the last of the list
    /// paints first, then the layers above it.
    pub open spec fn image_items(&self, seen: Seen, layers: Seq<BackgroundLayer>, state: PaintState) -> Seq<
        SceneItem,
    >
        decreases layers.len(),
    {
        if layers.len() == 0 {
            Seq::empty()
        } else {
            self.layer_items(seen, layers.last(), state) + self.image_items(
                self.seen_after_layer(seen, layers.last()),
                layers.drop_last(),
                state,
            )
        }
    }
}


impl<'a> BuilderForBoxFragment<'a> {
    /// Painting never forgets an edge: what was asked for stays asked for.
    pub proof fn seen_only_grows(&self, seen: Seen, layers: Seq<BackgroundLayer>)
        ensures
            forall|which: BackgroundClip|
                seen.has(which) ==> #[trigger] self.seen_after_layers(seen, layers).has(which),
        decreases layers.len(),
    {
        if layers.len() > 0 {
            let next = self.seen_after_layer(seen, layers.last());
            self.seen_only_grows(next, layers.drop_last());
            assert forall|which: BackgroundClip| seen.has(which) implies #[trigger] self.seen_after_layers(
                seen,
                layers,
            ).has(which) by {
                assert(next.has(which));
                assert(self.seen_after_layers(next, layers.drop_last()).has(which));
            }
        }
    }

    /// A list of one layer paints that layer.
    proof fn single_layer(&self, seen: Seen, layer: BackgroundLayer, state: PaintState)
        ensures
            self.image_items(seen, seq![layer], state) == self.layer_items(seen, layer, state),
            self.seen_after_layers(seen, seq![layer]) == self.seen_after_layer(seen, layer),
    {
        let one = seq![layer];
        assert(one.last() == layer);
        assert(one.drop_last() =~= Seq::<BackgroundLayer>::empty());
        let next = self.seen_after_layer(seen, layer);
        assert(self.image_items(next, one.drop_last(), state) =~= Seq::<SceneItem>::empty());
        assert(self.seen_after_layers(next, one.drop_last()) == next);
        assert(self.image_items(seen, one, state) =~= self.layer_items(seen, layer, state)
            + self.image_items(next, one.drop_last(), state));
    }

    /// Background layers are painted bottom layer first: of a list of layers,
    /// top layer first, the lower part is painted before the upper part.
    pub proof fn layers_paint_bottom_first(
        &self,
        seen: Seen,
        upper: Seq<BackgroundLayer>,
        lower: Seq<BackgroundLayer>,
        state: PaintState,
    )
        ensures
            self.image_items(seen, upper + lower, state) == self.image_items(seen, lower, state)
                + self.image_items(self.seen_after_layers(seen, lower), upper, state),
            self.seen_after_layers(seen, upper + lower) == self.seen_after_layers(
                self.seen_after_layers(seen, lower),
                upper,
            ),
        decreases lower.len(),
    {
        if lower.len() == 0 {
            assert(upper + lower =~= upper);
            assert(self.image_items(seen, lower, state) + self.image_items(seen, upper, state)
                =~= self.image_items(seen, upper, state));
        } else {
            let all = upper + lower;
            assert(all.drop_last() =~= upper + lower.drop_last());
            assert(all.last() == lower.last());
            let next = self.seen_after_layer(seen, lower.last());
            self.layers_paint_bottom_first(next, upper, lower.drop_last(), state);
            assert(self.image_items(seen, all, state) =~= self.image_items(seen, lower, state)
                + self.image_items(self.seen_after_layers(seen, lower), upper, state));
        }
    }

    /// What layers have added to the scene does not change when more edges
    /// are asked for later.
    proof fn painted_layers_stay(
        &self,
        later: &BuilderForBoxFragment<'a>,
        seen: Seen,
        layers: Seq<BackgroundLayer>,
        state: PaintState,
    )
        requires
            self.grows_into(later),
            forall|which: BackgroundClip| seen.has(which) ==> self.memo(which) is Some,
            forall|which: BackgroundClip|
                #[trigger] self.seen_after_layers(seen, layers).has(which) ==> self.memo(which) is Some,
        ensures
            later.image_items(seen, layers, state) == self.image_items(seen, layers, state),
            later.seen_after_layers(seen, layers) == self.seen_after_layers(seen, layers),
        decreases layers.len(),
    {
        if layers.len() > 0 {
            let next = self.seen_after_layer(seen, layers.last());
            self.seen_only_grows(next, layers.drop_last());
            assert forall|which: BackgroundClip| next.has(which) implies self.memo(which) is Some by {
                assert(self.seen_after_layers(next, layers.drop_last()).has(which));
                assert(self.seen_after_layers(seen, layers).has(which));
            }
            assert forall|which: BackgroundClip| #[trigger]
                self.seen_after_layers(next, layers.drop_last()).has(which) implies self.memo(
                which,
            ) is Some by {
                assert(self.seen_after_layers(seen, layers).has(which));
            }
            self.painted_layers_stay(later, next, layers.drop_last(), state);
            let last = layers.last();
            if layer_paints(last, self.fragment.tag is Some) {
                assert(next.has(last.clip));
                assert(self.memo(last.clip) is Some);
                assert(later.memo(last.clip) == self.memo(last.clip));
                assert(later.edge_rect(last.clip) == self.edge_rect(last.clip));
                assert(later.edge_radii(last.clip) == self.edge_radii(last.clip));
                assert(later.area_common(last.clip, state) == self.area_common(last.clip, state));
                assert(later.clip_items(seen, last.clip, state) == self.clip_items(
                    seen,
                    last.clip,
                    state,
                ));
                assert(later.layer_paint(last, state) == self.layer_paint(last, state));
            }
            assert(later.layer_items(seen, layers.last(), state) == self.layer_items(
                seen,
                layers.last(),
                state,
            ));
        }
    }

    /// Paints one background layer, if it paints at all.
    fn build_background_layer(
        &mut self,
        state: &PaintState,
        display_list: &mut DisplayList,
        layer: &BackgroundLayer,
    )
        requires
            old(self).wf(),
        ensures
            final(self).wf(),
            old(self).grows_into(final(self)),
            final(self).seen() == old(self).seen_after_layer(old(self).seen(), *layer),
            builder_items(final(display_list).wr) == builder_items(old(display_list).wr)
                + final(self).layer_items(old(self).seen(), *layer, *state),
            final(display_list).compositor_info == old(display_list).compositor_info,
            final(display_list).pipeline_id == old(display_list).pipeline_id,
    {
        let ghost before = builder_items(display_list.wr);
        let place = match layer.placement {
            Some(place) => place,
            None => {
                assert(builder_items(display_list.wr) =~= before + Seq::<SceneItem>::empty());
                return ;
            },
        };
        match &layer.image {
            LayerImage::NoImage => {
                assert(builder_items(display_list.wr) =~= before + Seq::<SceneItem>::empty());
            },
            LayerImage::Gradient { kind, stops } => {
                let (_, common) = self.painting_area(state, display_list, layer.clip);
                push_stops(&mut display_list.wr, stops);
                match kind {
                    GradientKind::Linear(gradient) => {
                        push_gradient(
                            &mut display_list.wr,
                            &common,
                            layout_rect(place.bounds),
                            *gradient,
                            layout_size(place.tile_size),
                            layout_size(place.tile_spacing),
                        );
                    },
                    GradientKind::Radial(gradient) => {
                        push_radial_gradient(
                            &mut display_list.wr,
                            &common,
                            layout_rect(place.bounds),
                            *gradient,
                            layout_size(place.tile_size),
                            layout_size(place.tile_spacing),
                        );
                    },
                }
                assert(builder_items(display_list.wr) =~= before + self.layer_items(
                    old(self).seen(),
                    *layer,
                    *state,
                ));
            },
            LayerImage::Url { image } => {
                if self.fragment.tag.is_none() {
                    assert(builder_items(display_list.wr) =~= before + Seq::<SceneItem>::empty());
                    return ;
                }
                let key = match image {
                    Some(WebRenderImageInfo { key: Some(key), .. }) => *key,
                    _ => {
                        assert(builder_items(display_list.wr) =~= before + Seq::<
                            SceneItem,
                        >::empty());
                        return ;
                    },
                };
                let (_, common) = self.painting_area(state, display_list, layer.clip);
                let rendering = image_rendering(self.fragment.style.image_rendering);
                if place.repeat {
                    push_repeating_image(
                        &mut display_list.wr,
                        &common,
                        layout_rect(place.bounds),
                        layout_size(place.tile_size),
                        layout_size(place.tile_spacing),
                        rendering,
                        alpha_type(true),
                        key,
                        rgba(Rgba::white()),
                    );
                } else {
                    push_image(
                        &mut display_list.wr,
                        &common,
                        layout_rect(place.bounds),
                        rendering,
                        alpha_type(true),
                        key,
                        rgba(Rgba::white()),
                    );
                }
                assert(builder_items(display_list.wr) =~= before + self.layer_items(
                    old(self).seen(),
                    *layer,
                    *state,
                ));
            },
        }
    }

    /// Paints the background images and gradients of the box, bottom layer
    /// first, so that the layers above cover the layers below.
    pub fn build_background_image(&mut self, state: &PaintState, display_list: &mut DisplayList)
        requires
            old(self).wf(),
        ensures
            final(self).wf(),
            old(self).grows_into(final(self)),
            final(self).seen() == old(self).seen_after_layers(
                old(self).seen(),
                old(self).fragment.style.background_layers@,
            ),
            builder_items(final(display_list).wr) == builder_items(old(display_list).wr)
                + final(self).image_items(
                old(self).seen(),
                old(self).fragment.style.background_layers@,
                *state,
            ),
            final(display_list).compositor_info == old(display_list).compositor_info,
            final(display_list).pipeline_id == old(display_list).pipeline_id,
    {
        let ghost before = builder_items(display_list.wr);
        let ghost seen0 = self.seen();
        let fragment = self.fragment;
        let layers = &fragment.style.background_layers;
        let mut i: usize = layers.len();
        proof {
            assert(layers@.skip(i as int) =~= Seq::<BackgroundLayer>::empty());
        }
        while i > 0
            invariant
                i <= layers@.len(),
                self.wf(),
                old(self).grows_into(self),
                self.fragment == fragment,
                layers == &fragment.style.background_layers,
                seen0 == old(self).seen(),
                self.seen() == self.seen_after_layers(seen0, layers@.skip(i as int)),
                builder_items(display_list.wr) == before + self.image_items(
                    seen0,
                    layers@.skip(i as int),
                    *state,
                ),
                display_list.compositor_info == old(display_list).compositor_info,
                display_list.pipeline_id == old(display_list).pipeline_id,
            decreases i,
        {
            i -= 1;
            let ghost earlier = *self;
            let ghost painted = builder_items(display_list.wr);
            let ghost done = layers@.skip(i + 1);
            self.build_background_layer(state, display_list, &layers[i]);
            proof {
                let layer = layers@[i as int];
                assert(layers@.skip(i as int) =~= seq![layer] + done);
                assert forall|which: BackgroundClip| seen0.has(which) implies earlier.memo(
                    which,
                ) is Some by {
                    old(self).seen_only_grows(seen0, done);
                    assert(earlier.seen_after_layers(seen0, done) == old(self).seen_after_layers(
                        seen0,
                        done,
                    )) by {
                        old(self).same_fragment_same_seen(&earlier, seen0, done);
                    }
                    assert(earlier.seen().has(which));
                }
                earlier.painted_layers_stay(self, seen0, done, *state);
                self.layers_paint_bottom_first(seen0, seq![layer], done, *state);
                let at = self.seen_after_layers(seen0, done);
                self.single_layer(at, layer, *state);
                assert(builder_items(display_list.wr) =~= before + self.image_items(
                    seen0,
                    layers@.skip(i as int),
                    *state,
                ));
            }
        }
        proof {
            assert(layers@.skip(0) =~= layers@);
            old(self).same_fragment_same_seen(self, seen0, layers@);
        }
    }

    /// Which edges get asked for depends on the box alone.
    proof fn same_fragment_same_seen(
        &self,
        other: &BuilderForBoxFragment<'a>,
        seen: Seen,
        layers: Seq<BackgroundLayer>,
    )
        requires
            self.fragment == other.fragment,
        ensures
            self.seen_after_layers(seen, layers) == other.seen_after_layers(seen, layers),
        decreases layers.len(),
    {
        if layers.len() > 0 {
            self.same_fragment_same_seen(
                other,
                self.seen_after_layer(seen, layers.last()),
                layers.drop_last(),
            );
        }
    }
}


impl<'a> BuilderForBoxFragment<'a> {
    /// What the background of the box adds to the scene: the rectangle of
    /// its colour and then its layers; nothing for the element whose
    /// background was painted for the canvas.
    pub open spec fn background_items(&self, seen: Seen, state: PaintState) -> Seq<SceneItem> {
        if self.paints_background(state) {
            self.color_items(seen, state) + self.image_items(
                self.seen_after_color(seen, state),
                self.fragment.style.background_layers@,
                state,
            )
        } else {
            Seq::empty()
        }
    }

    /// The edges asked for once the background is painted.
    pub open spec fn seen_after_background(&self, seen: Seen, state: PaintState) -> Seen {
        if self.paints_background(state) {
            self.seen_after_layers(
                self.seen_after_color(seen, state),
                self.fragment.style.background_layers@,
            )
        } else {
            seen
        }
    }

    /// What the box adds to the scene outside its outline: hit test,
    /// background and border, in this order.
    pub open spec fn box_items(&self, seen: Seen, state: PaintState, hit: Option<(u64, u16)>) -> Seq<
        SceneItem,
    > {
        self.hit_test_items(seen, state, hit) + self.background_items(
            self.seen_after_hit_test(seen, state),
            state,
        ) + self.border_items(state)
    }

    /// Paints the background of the box: its colour, clipped to the edge of
    /// the bottom-most layer, and then its layers.
    pub fn build_background(&mut self, state: &PaintState, display_list: &mut DisplayList)
        requires
            old(self).wf(),
        ensures
            final(self).wf(),
            old(self).grows_into(final(self)),
            final(self).seen() == old(self).seen_after_background(old(self).seen(), *state),
            builder_items(final(display_list).wr) == builder_items(old(display_list).wr)
                + final(self).background_items(old(self).seen(), *state),
            final(display_list).compositor_info == old(display_list).compositor_info,
            final(display_list).pipeline_id == old(display_list).pipeline_id,
    {
        let ghost before = builder_items(display_list.wr);
        let ghost seen0 = self.seen();
        if self.fragment.is_for_node(state.element_for_canvas_background) {
            assert(builder_items(display_list.wr) =~= before + Seq::<SceneItem>::empty());
            return ;
        }
        let fragment = self.fragment;
        let style = &fragment.style;
        let background_color = style.background_color.to_rgba(style.color);
        if background_color.alpha > 0 {
            let layer_index = style.background_layers.len() - 1;
            let which = style.background_layers[layer_index].clip;
            let (_, common) = self.painting_area(state, display_list, which);
            push_rect(&mut display_list.wr, &common, rgba(background_color));
            assert(builder_items(display_list.wr) =~= before + self.color_items(seen0, *state));
        } else {
            assert(builder_items(display_list.wr) =~= before + self.color_items(seen0, *state));
        }
        let ghost mid = *self;
        let ghost seen1 = self.seen();
        let ghost coloured = builder_items(display_list.wr);
        self.build_background_image(state, display_list);
        proof {
            assert(seen1 == mid.seen_after_color(seen0, *state));
            if mid.paints_color(*state) {
                let which = mid.color_edge();
                assert(mid.memo(which) is Some);
                assert(self.memo(which) == mid.memo(which));
                assert(self.edge_rect(which) == mid.edge_rect(which));
                assert(self.edge_radii(which) == mid.edge_radii(which));
            }
            assert(self.color_items(seen0, *state) == mid.color_items(seen0, *state));
            mid.same_fragment_same_seen(self, seen1, fragment.style.background_layers@);
            old(self).same_fragment_same_seen(self, seen1, fragment.style.background_layers@);
            assert(builder_items(display_list.wr) =~= before + self.background_items(
                seen0,
                *state,
            ));
        }
    }

    /// Paints the box: its outline in the outline section, and hit test,
    /// background and border, in this order, in any other.
    pub fn build(
        &mut self,
        state: &PaintState,
        display_list: &mut DisplayList,
        section: StackingContextSection,
    )
        requires
            old(self).wf(),
        ensures
            final(self).wf(),
            old(self).grows_into(final(self)),
            final(display_list).pipeline_id == old(display_list).pipeline_id,
            final(display_list).compositor_info.scroll_tree == old(
                display_list,
            ).compositor_info.scroll_tree,
            final(self).painted(
                old(self).seen(),
                section,
                *state,
                old(display_list).compositor_info.hit_test_info@,
                final(display_list).compositor_info.hit_test_info@,
                builder_items(old(display_list).wr),
                builder_items(final(display_list).wr),
            ),
    {
        let ghost before = builder_items(display_list.wr);
        let ghost seen0 = self.seen();
        if section == StackingContextSection::Outline {
            self.build_outline(state, display_list);
        } else {
            self.build_hit_test(state, display_list);
            let ghost hit = hit_tag(
                self.fragment.style.pointer_events,
                self.fragment.tag,
                display_list.compositor_info.hit_test_info@,
            );
            let ghost first = *self;
            let ghost seen1 = self.seen();
            self.build_background(state, display_list);
            let ghost second = *self;
            self.build_border(state, display_list);
            proof {
                if first.takes_hits(*state) {
                    let which = BackgroundClip::BorderBox;
                    assert(first.memo(which) is Some);
                    assert(self.memo(which) == first.memo(which));
                    assert(self.edge_rect(which) == first.edge_rect(which));
                    assert(self.edge_radii(which) == first.edge_radii(which));
                }
                assert(self.hit_test_items(seen0, *state, hit) == first.hit_test_items(
                    seen0,
                    *state,
                    hit,
                ));
                assert(builder_items(display_list.wr) =~= before + self.box_items(
                    seen0,
                    *state,
                    hit,
                ));
            }
        }
    }

    /// What painting the box in a section does to the hit-test list and the
    /// scene, where `self` is the builder afterwards and `seen` says which
    /// edges had been asked for before.
    pub open spec fn painted(
        &self,
        seen: Seen,
        section: StackingContextSection,
        state: PaintState,
        hits_before: Seq<crate::scroll_tree::HitTestInfo>,
        hits_after: Seq<crate::scroll_tree::HitTestInfo>,
        before: Seq<SceneItem>,
        after: Seq<SceneItem>,
    ) -> bool {
        if section == StackingContextSection::Outline {
            hits_after == hits_before && after == before + self.outline_items(state)
        } else {
            &&& hits_after == if self.takes_hits(state) {
                hits_after_tag(
                    hits_before,
                    self.fragment.style.pointer_events,
                    self.fragment.style.cursor,
                    self.fragment.tag,
                    Cursor::Default,
                    state.current_scroll_node_id,
                )
            } else {
                hits_before
            }
            &&& after == before + self.box_items(
                seen,
                state,
                hit_tag(self.fragment.style.pointer_events, self.fragment.tag, hits_after),
            )
        }
    }

    /// Layers add no border to the scene.
    proof fn layers_hold_no_border(&self, seen: Seen, layers: Seq<BackgroundLayer>, state: PaintState)
        ensures
            forall|i: int|
                0 <= i < self.image_items(seen, layers, state).len() ==> !(
                #[trigger] self.image_items(seen, layers, state)[i] is Border),
        decreases layers.len(),
    {
        if layers.len() > 0 {
            let next = self.seen_after_layer(seen, layers.last());
            self.layers_hold_no_border(next, layers.drop_last(), state);
            let first = self.layer_items(seen, layers.last(), state);
            let rest = self.image_items(next, layers.drop_last(), state);
            assert forall|i: int| 0 <= i < first.len() implies !(#[trigger] first[i] is Border) by {
                if layer_paints(layers.last(), self.fragment.tag is Some) {
                    let clips = self.clip_items(seen, layers.last().clip, state);
                    let paint = self.layer_paint(layers.last(), state);
                    if i < clips.len() {
                        assert(first[i] == clips[i]);
                    } else {
                        assert(first[i] == paint[i - clips.len()]);
                    }
                }
            }
            assert forall|i: int|
                0 <= i < self.image_items(seen, layers, state).len() implies !(
            #[trigger] self.image_items(seen, layers, state)[i] is Border) by {
                if i < first.len() {
                    assert(self.image_items(seen, layers, state)[i] == first[i]);
                } else {
                    assert(self.image_items(seen, layers, state)[i] == rest[i - first.len()]);
                }
            }
        }
    }

    /// A box is painted in a fixed order: its border, where it has one, is
    /// the last item, and nothing before it is a border. So hit test and
    /// backgrounds, colour and layers alike, lie under the border.
    pub proof fn border_is_painted_last(&self, seen: Seen, state: PaintState, hit: Option<(u64, u16)>)
        ensures
            ({
                let items = self.box_items(seen, state, hit);
                let border = self.border_items(state);
                &&& border.len() <= 1
                &&& items.len() >= border.len()
                &&& forall|i: int|
                    0 <= i < items.len() - border.len() ==> !(#[trigger] items[i] is Border)
                &&& forall|i: int|
                    items.len() - border.len() <= i < items.len() ==> #[trigger] items[i] is Border
            }),
    {
        let hits = self.hit_test_items(seen, state, hit);
        let seen1 = self.seen_after_hit_test(seen, state);
        let background = self.background_items(seen1, state);
        let border = self.border_items(state);
        let items = self.box_items(seen, state, hit);
        let colour = self.color_items(seen1, state);
        let layers = self.image_items(
            self.seen_after_color(seen1, state),
            self.fragment.style.background_layers@,
            state,
        );
        self.layers_hold_no_border(
            self.seen_after_color(seen1, state),
            self.fragment.style.background_layers@,
            state,
        );
        assert forall|i: int| 0 <= i < background.len() implies !(#[trigger] background[i] is Border) by {
            if self.paints_background(state) {
                if i < colour.len() {
                    assert(background[i] == colour[i]);
                } else {
                    assert(background[i] == layers[i - colour.len()]);
                }
            }
        }
        assert forall|i: int| 0 <= i < items.len() - border.len() implies !(#[trigger] items[i] is Border) by {
            if i < hits.len() {
                assert(items[i] == hits[i]);
            } else {
                assert(items[i] == background[i - hits.len()]);
            }
        }
        assert forall|i: int| items.len() - border.len() <= i < items.len() implies #[trigger] items[i] is Border by {
            assert(items[i] == border[i - hits.len() - background.len()]);
        }
    }
}

} // verus!
