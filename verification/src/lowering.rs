//! Lowering of a display list into a scene: one display item after the
//! other becomes calls on the rasterizer's builder, and the nodes that the
//! items define are entered into the clip and scroll registry.

use crate::geometry::{
    layout_point, layout_point_of, layout_rect, layout_rect_of, layout_size, layout_vector,
    layout_vector_of, AuPoint, AuSize, AuVector,
};
use crate::items::{
    BaseDisplayItem, ClipScrollNode, ClipScrollNodeType, ClipType, DisplayItem, DisplayList,
    StackingContext,
};
use crate::registry::ClipScrollState;
use crate::scene::{
    builder_items, define_clip, define_scroll_frame, define_sticky_frame, filter_items,
    margin_bits, new_builder, pop_all_shadows, pop_reference_frame, pop_stacking_context,
    push_border, push_box_shadow, push_gradient, push_iframe, push_image, push_line,
    push_radial_gradient, push_rect, push_reference_frame, push_repeating_image, push_shadow,
    push_stacking_context, push_stops, push_text, px_bits_of, stop_items, text_run_items,
    CommonProps, RasterSpace, ReferenceFrameKind, SceneItem, SpaceAndClip,
};
use crate::scroll_tree::{
    hit_tests_after, CompositorDisplayListInfo, HitTestInfo, ScrollTreeNode, ScrollTreeNodeId,
    ScrollableNodeInfo,
};
use crate::transform::{then, transform_then};
use crate::IsContentful;
use vstd::prelude::*;
use webrender_api::units::LayoutTransform;
use webrender_api::{ClipId, DisplayListBuilder, Epoch, PipelineId};

verus! {

/// Why a display list cannot be lowered. Each of these is a defect of the
/// producer of the list, never of the document.
#[derive(Clone, Copy, Debug, PartialEq, Eq, Structural)]
pub enum LoweringFault {
    /// An item refers to a scroll node that no earlier item has defined.
    ScrollNodeUsedBeforeDefined(usize),
    /// An item refers to a clip that no earlier item has defined.
    ClipUsedBeforeDefined(usize),
    /// An item defines a node for which the display list has no room.
    NodeIndexOutOfRange(usize),
    /// An item defines a node that layout has left unresolved.
    PlaceholderNode(usize),
    /// A stacking context establishes a reference frame without a transform
    /// and without a perspective.
    ReferenceFrameWithoutTransform,
    /// The items that open and close stacking contexts do not pair up.
    UnbalancedStackingContexts,
}

/// The matrix of the reference frame of a stacking context: its perspective
/// followed by its transform where it has both, else the one it has.
pub open spec fn reference_transform(sc: StackingContext) -> LayoutTransform {
    match (sc.transform, sc.perspective) {
        (Some(t), Some(p)) => transform_then(p, t),
        (Some(t), None) => t,
        (None, Some(p)) => p,
        (None, None) => arbitrary(),
    }
}

/// The kind of the reference frame of a stacking context: a perspective
/// frame, which scrolls with nothing, as soon as it has a perspective.
pub open spec fn reference_kind(sc: StackingContext) -> ReferenceFrameKind {
    if sc.perspective is Some {
        ReferenceFrameKind::Perspective { scrolling_relative_to: None }
    } else {
        ReferenceFrameKind::Transform
    }
}

/// Whether lowering the item enters a hit-test record where the item has a
/// cursor: every item that paints does, and so do shadows and frames.
pub open spec fn registers_hit_test(item: DisplayItem) -> bool {
    !(item is PopAllTextShadows || item is PushStackingContext || item is PopStackingContext
        || item is DefineClipScrollNode)
}

/// The hit-test list after an item of this base has been lowered under
/// `scroll_node`: an item without a cursor leaves it as it is.
pub open spec fn hits_for(
    base: BaseDisplayItem,
    scroll_node: ScrollTreeNodeId,
    hits: Seq<HitTestInfo>,
) -> Seq<HitTestInfo> {
    match base.metadata.cursor {
        Some(c) => hit_tests_after(hits, base.metadata.node, Some(c), scroll_node),
        None => hits,
    }
}

/// The common properties of an item: its own clip rectangle, the coordinate
/// space of its scroll node, its clip, and, where it has a cursor, the
/// position of its hit-test record as its tag.
pub open spec fn common_for(
    base: BaseDisplayItem,
    scroll_node: ScrollTreeNodeId,
    clip: ClipId,
    hits: Seq<HitTestInfo>,
) -> CommonProps {
    CommonProps {
        clip_rect: base.clip_rect,
        spatial_id: scroll_node.spatial_id,
        clip_id: clip,
        hit_info: match base.metadata.cursor {
            Some(c) => Some((((hits_for(base, scroll_node, hits).len() - 1) as usize) as u64, 0u16)),
            None => None,
        },
        backface_visible: true,
    }
}

/// The scene items of an item that defines no node and opens no stacking
/// context.
pub open spec fn primitive_items(item: DisplayItem, common: CommonProps) -> Seq<SceneItem> {
    let space_and_clip = SpaceAndClip { spatial_id: common.spatial_id, clip_id: common.clip_id };
    match item {
        DisplayItem::Rectangle { color, .. } => seq![SceneItem::Rectangle { common, color }],
        DisplayItem::Text { bounds, font_key, color, glyph_options, glyphs, .. } => text_run_items(
            common,
            bounds,
            glyphs@,
            font_key,
            color,
            glyph_options,
        ),
        DisplayItem::Image { bounds, image_rendering, alpha_type, image_key, color, .. } => seq![
            SceneItem::Image { common, bounds, image_rendering, alpha_type, key: image_key, color },
        ],
        DisplayItem::RepeatingImage {
            bounds,
            stretch_size,
            tile_spacing,
            image_rendering,
            alpha_type,
            image_key,
            color,
            ..
        } => seq![
            SceneItem::RepeatingImage {
                common,
                bounds,
                stretch_size,
                tile_spacing,
                image_rendering,
                alpha_type,
                key: image_key,
                color,
            },
        ],
        DisplayItem::Border { bounds, widths, details, stops, .. } => stop_items(stops@).push(
            SceneItem::Border { common, bounds, widths, details },
        ),
        DisplayItem::Gradient { bounds, gradient, tile_size, tile_spacing, stops, .. } => stop_items(
            stops@,
        ).push(SceneItem::Gradient { common, bounds, gradient, tile_size, tile_spacing }),
        DisplayItem::RadialGradient {
            bounds,
            gradient,
            tile_size,
            tile_spacing,
            stops,
            ..
        } => stop_items(stops@).push(
            SceneItem::RadialGradient { common, bounds, gradient, tile_size, tile_spacing },
        ),
        DisplayItem::Line { area, wavy_line_thickness, orientation, color, style, .. } => seq![
            SceneItem::Line {
                common,
                area,
                wavy_line_thickness: px_bits_of(wavy_line_thickness),
                orientation,
                color,
                style,
            },
        ],
        DisplayItem::BoxShadow {
            box_bounds,
            offset,
            color,
            blur_radius,
            spread_radius,
            border_radius,
            clip_mode,
            ..
        } => seq![
            SceneItem::BoxShadow {
                common,
                box_bounds,
                offset,
                color,
                blur_radius: px_bits_of(blur_radius),
                spread_radius: px_bits_of(spread_radius),
                border_radius,
                clip_mode,
            },
        ],
        DisplayItem::PushTextShadow { shadow, .. } => seq![
            SceneItem::PushShadow { space_and_clip, shadow, should_inflate: true },
        ],
        DisplayItem::PopAllTextShadows { .. } => seq![SceneItem::PopAllShadows],
        DisplayItem::Iframe { bounds, iframe, .. } => seq![
            SceneItem::Iframe {
                bounds,
                clip_rect: common.clip_rect,
                space_and_clip,
                pipeline_id: iframe,
                ignore_missing_pipeline: true,
            },
        ],
        DisplayItem::PopStackingContext { established_reference_frame, .. } => {
            if established_reference_frame {
                seq![SceneItem::PopStackingContext, SceneItem::PopReferenceFrame]
            } else {
                seq![SceneItem::PopStackingContext]
            }
        },
        DisplayItem::PushStackingContext { .. } => Seq::empty(),
        DisplayItem::DefineClipScrollNode { .. } => Seq::empty(),
    }
}

/// The item that opens a stacking context at `origin` in the space `spatial_id`.
pub open spec fn stacking_context_item(
    sc: StackingContext,
    origin: AuPoint,
    spatial_id: webrender_api::SpatialId,
) -> SceneItem {
    SceneItem::PushStackingContext {
        origin: layout_point_of(origin),
        spatial_id,
        backface_visible: true,
        clip_id: None,
        transform_style: sc.transform_style,
        mix_blend_mode: sc.mix_blend_mode,
        raster_space: RasterSpace::Screen,
        cache_tiles: false,
        is_backdrop_root: false,
    }
}

/// The fault that stops the lowering of `item` in the state `state`, if there
/// is one. The item's own scroll node is looked up first, then its clip, then
/// what the item's kind needs.
pub open spec fn item_fault(
    item: DisplayItem,
    nodes: Seq<ClipScrollNode>,
    state: ClipScrollState,
) -> Option<LoweringFault> {
    let indices = item.base_of().clipping_and_scrolling;
    if !state.scroll_defined(indices.scrolling.0 as int) {
        Some(LoweringFault::ScrollNodeUsedBeforeDefined(indices.scrolling.0))
    } else if !state.clip_defined(indices.clip_index()) {
        Some(LoweringFault::ClipUsedBeforeDefined(indices.clip_index() as usize))
    } else {
        match item {
            DisplayItem::PushStackingContext { stacking_context, .. } => {
                match stacking_context.established_reference_frame {
                    Some(frame) => {
                        if stacking_context.transform is None
                            && stacking_context.perspective is None {
                            Some(LoweringFault::ReferenceFrameWithoutTransform)
                        } else if frame.0 >= state.size() {
                            Some(LoweringFault::NodeIndexOutOfRange(frame.0))
                        } else {
                            None
                        }
                    },
                    None => None,
                }
            },
            DisplayItem::DefineClipScrollNode { node_index, .. } => {
                if node_index.0 >= nodes.len() || node_index.0 >= state.size() {
                    Some(LoweringFault::NodeIndexOutOfRange(node_index.0))
                } else {
                    let parent = nodes[node_index.0 as int].parent_index.0;
                    if !state.scroll_defined(parent as int) {
                        Some(LoweringFault::ScrollNodeUsedBeforeDefined(parent))
                    } else if !state.clip_defined(parent as int) {
                        Some(LoweringFault::ClipUsedBeforeDefined(parent))
                    } else if nodes[node_index.0 as int].node_type is Placeholder {
                        Some(LoweringFault::PlaceholderNode(node_index.0))
                    } else {
                        None
                    }
                }
            },
            _ => None,
        }
    }
}

/// `s1` is `s0` with the hit-test list `hits` and the scroll-tree nodes
/// `nodes`: nothing else of the compositor's record differs.
pub open spec fn record_is(
    s0: ClipScrollState,
    s1: ClipScrollState,
    hits: Seq<HitTestInfo>,
    nodes: Seq<ScrollTreeNode>,
) -> bool {
    &&& s1.compositor_info.hit_test_info@ == hits
    &&& s1.compositor_info.scroll_tree.nodes@ == nodes
    &&& s1.compositor_info.pipeline_id == s0.compositor_info.pipeline_id
    &&& s1.compositor_info.viewport_size == s0.compositor_info.viewport_size
    &&& s1.compositor_info.content_size == s0.compositor_info.content_size
    &&& s1.compositor_info.epoch == s0.compositor_info.epoch
    &&& s1.compositor_info.root_reference_frame_id == s0.compositor_info.root_reference_frame_id
    &&& s1.compositor_info.root_scroll_node_id == s0.compositor_info.root_scroll_node_id
}

/// The scroll-tree handle that a node entered into the tree of `s0` gets,
/// for the coordinate space `spatial_id`.
pub open spec fn next_scroll_node(
    s0: ClipScrollState,
    spatial_id: webrender_api::SpatialId,
) -> ScrollTreeNodeId {
    ScrollTreeNodeId { index: s0.compositor_info.scroll_tree.nodes@.len() as usize, spatial_id }
}

/// What lowering a stacking context that establishes the reference frame
/// `frame` does: a reference frame under the item's scroll node, entered into
/// the registry at `frame` with the item's clip, and then the stacking
/// context at the origin of that frame.
pub open spec fn lowered_reference_frame(
    sc: StackingContext,
    frame: int,
    scroll_node: ScrollTreeNodeId,
    clip: ClipId,
    s0: ClipScrollState,
    b0: Seq<SceneItem>,
    s1: ClipScrollState,
    b1: Seq<SceneItem>,
) -> bool {
    let made = s1.scroll_node_ids@[frame]->0;
    &&& s1.clip_ids@ == s0.clip_ids@.update(frame, Some(clip))
    &&& s1.scroll_node_ids@ == s0.scroll_node_ids@.update(
        frame,
        Some(next_scroll_node(s0, made.spatial_id)),
    )
    &&& record_is(
        s0,
        s1,
        s0.compositor_info.hit_test_info@,
        s0.compositor_info.scroll_tree.nodes@.push(
            ScrollTreeNode { parent: Some(scroll_node), scroll_info: None },
        ),
    )
    &&& b1 == (b0.push(
        SceneItem::PushReferenceFrame {
            origin: layout_point_of(sc.bounds.origin),
            parent_spatial_id: scroll_node.spatial_id,
            transform_style: sc.transform_style,
            transform: reference_transform(sc),
            kind: reference_kind(sc),
            id: made.spatial_id,
        },
    ) + filter_items(sc.filters@)).push(
        stacking_context_item(sc, AuPoint { x: 0, y: 0 }, made.spatial_id),
    )
}

/// What lowering the definition of the node `node` at `index` does, by the
/// node's kind. A clip is defined under its parent and scrolls with it; a
/// scroll frame is defined under its parent and entered into the scroll
/// tree, scrollable by what its content exceeds its clip by; a sticky frame
/// keeps its parent's clip and is entered under the item's own scroll node.
pub open spec fn lowered_node(
    node: ClipScrollNode,
    index: int,
    scroll_node: ScrollTreeNodeId,
    s0: ClipScrollState,
    b0: Seq<SceneItem>,
    s1: ClipScrollState,
    b1: Seq<SceneItem>,
) -> bool {
    let parent_index = node.parent_index.0 as int;
    let parent = SpaceAndClip {
        spatial_id: s0.scroll_node_ids@[parent_index]->0.spatial_id,
        clip_id: s0.clip_ids@[parent_index]->0,
    };
    let hits = s0.compositor_info.hit_test_info@;
    let tree = s0.compositor_info.scroll_tree.nodes@;
    match node.node_type {
        ClipScrollNodeType::Clip(clip_type) => {
            let id = s1.clip_ids@[index]->0;
            &&& s1.clip_ids@ == s0.clip_ids@.update(index, Some(id))
            &&& s1.scroll_node_ids@ == s0.scroll_node_ids@.update(
                index,
                s0.scroll_node_ids@[parent_index],
            )
            &&& record_is(s0, s1, hits, tree)
            &&& b1 == b0.push(
                SceneItem::Clip {
                    id,
                    parent,
                    clip_rect: layout_rect_of(node.clip),
                    complex: match clip_type {
                        ClipType::Rect => None,
                        ClipType::Rounded(complex) => Some(complex),
                    },
                },
            )
        },
        ClipScrollNodeType::ScrollFrame(scroll_sensitivity, external_id) => {
            let made = SpaceAndClip {
                spatial_id: s1.scroll_node_ids@[index]->0.spatial_id,
                clip_id: s1.clip_ids@[index]->0,
            };
            &&& s1.clip_ids@ == s0.clip_ids@.update(index, Some(made.clip_id))
            &&& s1.scroll_node_ids@ == s0.scroll_node_ids@.update(
                index,
                Some(next_scroll_node(s0, made.spatial_id)),
            )
            &&& record_is(
                s0,
                s1,
                hits,
                tree.push(
                    ScrollTreeNode {
                        parent: s0.scroll_node_ids@[parent_index],
                        scroll_info: Some(
                            ScrollableNodeInfo {
                                external_id,
                                scrollable_size: node.content_rect.size.minus(node.clip.size),
                                scroll_sensitivity,
                                offset: AuVector { x: 0, y: 0 },
                            },
                        ),
                    },
                ),
            )
            &&& b1 == b0.push(
                SceneItem::ScrollFrame {
                    made,
                    parent,
                    external_id: Some(external_id),
                    content_rect: layout_rect_of(node.content_rect),
                    clip_rect: layout_rect_of(node.clip),
                    scroll_sensitivity,
                    external_scroll_offset: layout_vector_of(AuVector { x: 0, y: 0 }),
                },
            )
        },
        ClipScrollNodeType::StickyFrame(sticky) => {
            let id = s1.scroll_node_ids@[index]->0.spatial_id;
            &&& s1.clip_ids@ == s0.clip_ids@.update(index, Some(parent.clip_id))
            &&& s1.scroll_node_ids@ == s0.scroll_node_ids@.update(
                index,
                Some(next_scroll_node(s0, id)),
            )
            &&& record_is(
                s0,
                s1,
                hits,
                tree.push(ScrollTreeNode { parent: Some(scroll_node), scroll_info: None }),
            )
            &&& b1 == b0.push(
                SceneItem::StickyFrame {
                    id,
                    parent_spatial_id: parent.spatial_id,
                    bounds: layout_rect_of(node.clip),
                    margins: margin_bits(sticky.margins),
                    vertical_offset_bounds: sticky.vertical_offset_bounds,
                    horizontal_offset_bounds: sticky.horizontal_offset_bounds,
                    previously_applied_offset: layout_vector_of(AuVector { x: 0, y: 0 }),
                },
            )
        },
        ClipScrollNodeType::Placeholder => false,
    }
}

/// What lowering one item does: from the registry `s0` and the scene `b0` to
/// the registry `s1` and the scene `b1`. It is stated for an item that has
/// no fault in `s0`.
pub open spec fn lowered(
    item: DisplayItem,
    nodes: Seq<ClipScrollNode>,
    s0: ClipScrollState,
    b0: Seq<SceneItem>,
    s1: ClipScrollState,
    b1: Seq<SceneItem>,
) -> bool {
    let base = item.base_of();
    let scroll_node = s0.scroll_node_ids@[base.clipping_and_scrolling.scrolling.0 as int]->0;
    let clip = s0.clip_ids@[base.clipping_and_scrolling.clip_index()]->0;
    let hits = s0.compositor_info.hit_test_info@;
    let tree = s0.compositor_info.scroll_tree.nodes@;
    match item {
        DisplayItem::PushStackingContext { stacking_context, .. } => {
            match stacking_context.established_reference_frame {
                Some(frame) => lowered_reference_frame(
                    stacking_context,
                    frame.0 as int,
                    scroll_node,
                    clip,
                    s0,
                    b0,
                    s1,
                    b1,
                ),
                None => {
                    &&& s1.clip_ids@ == s0.clip_ids@
                    &&& s1.scroll_node_ids@ == s0.scroll_node_ids@
                    &&& record_is(s0, s1, hits, tree)
                    &&& b1 == (b0 + filter_items(stacking_context.filters@)).push(
                        stacking_context_item(
                            stacking_context,
                            stacking_context.bounds.origin,
                            scroll_node.spatial_id,
                        ),
                    )
                },
            }
        },
        DisplayItem::DefineClipScrollNode { node_index, .. } => lowered_node(
            nodes[node_index.0 as int],
            node_index.0 as int,
            scroll_node,
            s0,
            b0,
            s1,
            b1,
        ),
        _ => {
            &&& s1.clip_ids@ == s0.clip_ids@
            &&& s1.scroll_node_ids@ == s0.scroll_node_ids@
            &&& record_is(
                s0,
                s1,
                if registers_hit_test(item) {
                    hits_for(base, scroll_node, hits)
                } else {
                    hits
                },
                tree,
            )
            &&& b1 == b0 + primitive_items(item, common_for(base, scroll_node, clip, hits))
        },
    }
}


/// Registers the hit-test record of an item that has a cursor and makes the
/// item's common properties.
fn build_common_item_properties(
    state: &mut ClipScrollState,
    base: &BaseDisplayItem,
    scroll_node: ScrollTreeNodeId,
    clip: ClipId,
) -> (common: CommonProps)
    ensures
        common == common_for(*base, scroll_node, clip, old(state).compositor_info.hit_test_info@),
        final(state).clip_ids == old(state).clip_ids,
        final(state).scroll_node_ids == old(state).scroll_node_ids,
        record_is(
            *old(state),
            *final(state),
            hits_for(*base, scroll_node, old(state).compositor_info.hit_test_info@),
            old(state).compositor_info.scroll_tree.nodes@,
        ),
        final(state).compositor_info.scroll_tree == old(state).compositor_info.scroll_tree,
{
    let tag = match base.metadata.cursor {
        Some(cursor) => {
            let hit_test_index = state.compositor_info.add_hit_test_info(
                base.metadata.node,
                Some(cursor),
                scroll_node,
            );
            Some((hit_test_index as u64, 0u16))
        },
        None => None,
    };
    CommonProps {
        clip_rect: base.clip_rect,
        spatial_id: scroll_node.spatial_id,
        clip_id: clip,
        hit_info: tag,
        backface_visible: true,
    }
}

impl DisplayItem {
    /// The fault that stops the lowering of the item in the given state of the
    /// registry, if there is one.
    pub fn fault_in(&self, clip_scroll_nodes: &Vec<ClipScrollNode>, state: &ClipScrollState) -> (f:
        Option<LoweringFault>)
        requires
            state.wf(),
        ensures
            f == item_fault(*self, clip_scroll_nodes@, *state),
    {
        let indices = self.base().clipping_and_scrolling;
        let scrolling_index = indices.scrolling.to_index();
        if state.scroll_node_id_at(scrolling_index).is_none() {
            return Some(LoweringFault::ScrollNodeUsedBeforeDefined(scrolling_index));
        }
        let clip_index = indices.clipping_index();
        if state.clip_id_at(clip_index).is_none() {
            return Some(LoweringFault::ClipUsedBeforeDefined(clip_index));
        }
        match self {
            DisplayItem::PushStackingContext { stacking_context, .. } => {
                match stacking_context.established_reference_frame {
                    Some(frame) => {
                        if stacking_context.transform.is_none()
                            && stacking_context.perspective.is_none() {
                            Some(LoweringFault::ReferenceFrameWithoutTransform)
                        } else if frame.to_index() >= state.clip_ids.len() {
                            Some(LoweringFault::NodeIndexOutOfRange(frame.to_index()))
                        } else {
                            None
                        }
                    },
                    None => None,
                }
            },
            DisplayItem::DefineClipScrollNode { node_index, .. } => {
                let index = node_index.to_index();
                if index >= clip_scroll_nodes.len() || index >= state.clip_ids.len() {
                    return Some(LoweringFault::NodeIndexOutOfRange(index));
                }
                let parent_index = clip_scroll_nodes[index].parent_index.to_index();
                if state.scroll_node_id_at(parent_index).is_none() {
                    Some(LoweringFault::ScrollNodeUsedBeforeDefined(parent_index))
                } else if state.clip_id_at(parent_index).is_none() {
                    Some(LoweringFault::ClipUsedBeforeDefined(parent_index))
                } else {
                    match clip_scroll_nodes[index].node_type {
                        ClipScrollNodeType::Placeholder => Some(
                            LoweringFault::PlaceholderNode(index),
                        ),
                        _ => None,
                    }
                }
            },
            _ => None,
        }
    }

    /// Lowers one display item: looks up the item's scroll node and clip and
    /// makes the builder calls that the item stands for. An item that defines
    /// a node or establishes a reference frame enters the handles that the
    /// builder returns into the registry.
    ///
    /// The item must have no fault in the registry: what it refers to is
    /// defined, and what it defines is within the registry and resolved. The
    /// result says whether the item is contentful, and whatever was defined
    /// in the registry stays defined.
    pub fn convert_to_webrender(
        &self,
        clip_scroll_nodes: &Vec<ClipScrollNode>,
        state: &mut ClipScrollState,
        builder: &mut DisplayListBuilder,
    ) -> (contentful: IsContentful)
        requires
            old(state).wf(),
            item_fault(*self, clip_scroll_nodes@, *old(state)) is None,
        ensures
            final(state).wf(),
            contentful.0 == self.contentful(),
            lowered(
                *self,
                clip_scroll_nodes@,
                *old(state),
                builder_items(*old(builder)),
                *final(state),
                builder_items(*final(builder)),
            ),
            old(state).defined_stays_in(final(state)),
    {
        let clip_and_scroll_indices = self.base().clipping_and_scrolling;
        let current_scrolling_index = clip_and_scroll_indices.scrolling.to_index();
        let current_scroll_node_id = state.scroll_node_id_from_index(current_scrolling_index);
        let internal_clip_index = clip_and_scroll_indices.clipping_index();
        let current_clip_id = state.webrender_clip_id_for_index(internal_clip_index);
        let space_and_clip = SpaceAndClip {
            spatial_id: current_scroll_node_id.spatial_id,
            clip_id: current_clip_id,
        };
        let ghost b0 = builder_items(*builder);

        match self {
            DisplayItem::Rectangle { base, color } => {
                let common = build_common_item_properties(
                    state,
                    base,
                    current_scroll_node_id,
                    current_clip_id,
                );
                push_rect(builder, &common, *color);
                assert(builder_items(*builder) =~= b0 + primitive_items(*self, common));
                IsContentful(false)
            },
            DisplayItem::Text { base, bounds, font_key, color, glyph_options, glyphs } => {
                let common = build_common_item_properties(
                    state,
                    base,
                    current_scroll_node_id,
                    current_clip_id,
                );
                push_text(builder, &common, *bounds, glyphs, *font_key, *color, *glyph_options);
                IsContentful(true)
            },
            DisplayItem::Image { base, bounds, image_rendering, alpha_type, image_key, color } => {
                let common = build_common_item_properties(
                    state,
                    base,
                    current_scroll_node_id,
                    current_clip_id,
                );
                push_image(
                    builder,
                    &common,
                    *bounds,
                    *image_rendering,
                    *alpha_type,
                    *image_key,
                    *color,
                );
                assert(builder_items(*builder) =~= b0 + primitive_items(*self, common));
                IsContentful(true)
            },
            DisplayItem::RepeatingImage {
                base,
                bounds,
                stretch_size,
                tile_spacing,
                image_rendering,
                alpha_type,
                image_key,
                color,
            } => {
                let common = build_common_item_properties(
                    state,
                    base,
                    current_scroll_node_id,
                    current_clip_id,
                );
                push_repeating_image(
                    builder,
                    &common,
                    *bounds,
                    *stretch_size,
                    *tile_spacing,
                    *image_rendering,
                    *alpha_type,
                    *image_key,
                    *color,
                );
                assert(builder_items(*builder) =~= b0 + primitive_items(*self, common));
                IsContentful(true)
            },
            DisplayItem::Border { base, bounds, widths, details, stops } => {
                let common = build_common_item_properties(
                    state,
                    base,
                    current_scroll_node_id,
                    current_clip_id,
                );
                if stops.len() > 0 {
                    push_stops(builder, stops);
                }
                push_border(builder, &common, *bounds, *widths, *details);
                assert(builder_items(*builder) =~= b0 + primitive_items(*self, common));
                IsContentful(false)
            },
            DisplayItem::Gradient { base, bounds, gradient, tile_size, tile_spacing, stops } => {
                let common = build_common_item_properties(
                    state,
                    base,
                    current_scroll_node_id,
                    current_clip_id,
                );
                push_stops(builder, stops);
                push_gradient(builder, &common, *bounds, *gradient, *tile_size, *tile_spacing);
                assert(builder_items(*builder) =~= b0 + primitive_items(*self, common));
                IsContentful(false)
            },
            DisplayItem::RadialGradient {
                base,
                bounds,
                gradient,
                tile_size,
                tile_spacing,
                stops,
            } => {
                let common = build_common_item_properties(
                    state,
                    base,
                    current_scroll_node_id,
                    current_clip_id,
                );
                push_stops(builder, stops);
                push_radial_gradient(
                    builder,
                    &common,
                    *bounds,
                    *gradient,
                    *tile_size,
                    *tile_spacing,
                );
                assert(builder_items(*builder) =~= b0 + primitive_items(*self, common));
                IsContentful(false)
            },
            DisplayItem::Line { base, area, wavy_line_thickness, orientation, color, style } => {
                let common = build_common_item_properties(
                    state,
                    base,
                    current_scroll_node_id,
                    current_clip_id,
                );
                push_line(
                    builder,
                    &common,
                    area,
                    *wavy_line_thickness,
                    *orientation,
                    color,
                    *style,
                );
                assert(builder_items(*builder) =~= b0 + primitive_items(*self, common));
                IsContentful(false)
            },
            DisplayItem::BoxShadow {
                base,
                box_bounds,
                offset,
                color,
                blur_radius,
                spread_radius,
                border_radius,
                clip_mode,
            } => {
                let common = build_common_item_properties(
                    state,
                    base,
                    current_scroll_node_id,
                    current_clip_id,
                );
                push_box_shadow(
                    builder,
                    &common,
                    *box_bounds,
                    *offset,
                    *color,
                    *blur_radius,
                    *spread_radius,
                    *border_radius,
                    *clip_mode,
                );
                assert(builder_items(*builder) =~= b0 + primitive_items(*self, common));
                IsContentful(false)
            },
            DisplayItem::PushTextShadow { base, shadow } => {
                let common = build_common_item_properties(
                    state,
                    base,
                    current_scroll_node_id,
                    current_clip_id,
                );
                push_shadow(builder, &space_and_clip, *shadow, true);
                assert(builder_items(*builder) =~= b0 + primitive_items(*self, common));
                IsContentful(false)
            },
            DisplayItem::PopAllTextShadows { .. } => {
                pop_all_shadows(builder);
                assert(builder_items(*builder) =~= b0 + seq![SceneItem::PopAllShadows]);
                IsContentful(false)
            },
            DisplayItem::Iframe { base, bounds, iframe } => {
                let common = build_common_item_properties(
                    state,
                    base,
                    current_scroll_node_id,
                    current_clip_id,
                );
                push_iframe(builder, *bounds, common.clip_rect, &space_and_clip, *iframe, true);
                assert(builder_items(*builder) =~= b0 + primitive_items(*self, common));
                IsContentful(false)
            },
            DisplayItem::PushStackingContext { stacking_context, .. } => {
                let mut origin = stacking_context.bounds.origin;
                let spatial_id = match stacking_context.established_reference_frame {
                    Some(frame_index) => {
                        let transform = match (
                            stacking_context.transform,
                            stacking_context.perspective,
                        ) {
                            (None, Some(p)) => p,
                            (Some(t), None) => t,
                            (Some(t), Some(p)) => then(&p, &t),
                            (None, None) => unreached(),
                        };
                        let kind = if stacking_context.perspective.is_some() {
                            ReferenceFrameKind::Perspective { scrolling_relative_to: None }
                        } else {
                            ReferenceFrameKind::Transform
                        };
                        let index = frame_index.to_index();
                        let new_spatial_id = push_reference_frame(
                            builder,
                            layout_point(stacking_context.bounds.origin),
                            current_scroll_node_id.spatial_id,
                            stacking_context.transform_style,
                            transform,
                            kind,
                        );
                        state.add_clip_node_mapping(index, current_clip_id);
                        state.register_spatial_node(
                            index,
                            new_spatial_id,
                            Some(current_scrolling_index),
                            None,
                        );
                        origin = AuPoint::zero();
                        new_spatial_id
                    },
                    None => current_scroll_node_id.spatial_id,
                };
                push_stacking_context(
                    builder,
                    layout_point(origin),
                    spatial_id,
                    true,
                    None,
                    stacking_context.transform_style,
                    stacking_context.mix_blend_mode,
                    &stacking_context.filters,
                    RasterSpace::Screen,
                    false,
                    false,
                );
                IsContentful(false)
            },
            DisplayItem::PopStackingContext { established_reference_frame, .. } => {
                pop_stacking_context(builder);
                if *established_reference_frame {
                    pop_reference_frame(builder);
                }
                assert(builder_items(*builder) =~= b0 + primitive_items(
                    *self,
                    common_for(
                        self.base_of(),
                        current_scroll_node_id,
                        current_clip_id,
                        state.compositor_info.hit_test_info@,
                    ),
                ));
                IsContentful(false)
            },
            DisplayItem::DefineClipScrollNode { node_index, .. } => {
                let index = node_index.to_index();
                let node = clip_scroll_nodes[index];
                let parent_index = node.parent_index.to_index();
                let parent_spatial_id = state.webrender_spatial_id_for_index(parent_index);
                let parent_clip_id = state.webrender_clip_id_for_index(parent_index);
                let parent = SpaceAndClip { spatial_id: parent_spatial_id, clip_id: parent_clip_id };
                match node.node_type {
                    ClipScrollNodeType::Clip(clip_type) => {
                        let complex = match clip_type {
                            ClipType::Rect => None,
                            ClipType::Rounded(complex) => Some(complex),
                        };
                        let clip_id = define_clip(builder, &parent, layout_rect(node.clip), complex);
                        state.add_clip_node_mapping(index, clip_id);
                        state.add_spatial_node_mapping_to_parent_index(index, parent_index);
                    },
                    ClipScrollNodeType::ScrollFrame(scroll_sensitivity, external_id) => {
                        let made = define_scroll_frame(
                            builder,
                            &parent,
                            Some(external_id),
                            layout_rect(node.content_rect),
                            layout_rect(node.clip),
                            scroll_sensitivity,
                            layout_vector(AuVector::zero()),
                        );
                        state.add_clip_node_mapping(index, made.clip_id);
                        state.register_spatial_node(
                            index,
                            made.spatial_id,
                            Some(parent_index),
                            Some(
                                ScrollableNodeInfo {
                                    external_id,
                                    scrollable_size: node.content_rect.size.sub(node.clip.size),
                                    scroll_sensitivity,
                                    offset: AuVector::zero(),
                                },
                            ),
                        );
                    },
                    ClipScrollNodeType::StickyFrame(sticky_data) => {
                        let id = define_sticky_frame(
                            builder,
                            parent_spatial_id,
                            layout_rect(node.clip),
                            sticky_data.margins,
                            sticky_data.vertical_offset_bounds,
                            sticky_data.horizontal_offset_bounds,
                            layout_vector(AuVector::zero()),
                        );
                        state.add_clip_node_mapping(index, parent_clip_id);
                        state.register_spatial_node(index, id, Some(current_scrolling_index), None);
                    },
                    ClipScrollNodeType::Placeholder => unreached(),
                };
                IsContentful(false)
            },
        }
    }
}


/// Whether any of the items is contentful.
pub open spec fn any_contentful(items: Seq<DisplayItem>) -> bool {
    exists|i: int| 0 <= i < items.len() && (#[trigger] items[i]).contentful()
}

/// What lowering a sequence of items does, one after the other, from the
/// registry `s0` and the scene `b0` to the registry `s1` and the scene `b1`:
/// each item is lowered, without a fault, in the state that the items before
/// it have left.
pub open spec fn lowered_all(
    items: Seq<DisplayItem>,
    nodes: Seq<ClipScrollNode>,
    s0: ClipScrollState,
    b0: Seq<SceneItem>,
    s1: ClipScrollState,
    b1: Seq<SceneItem>,
) -> bool
    decreases items.len(),
{
    if items.len() == 0 {
        s1 == s0 && b1 == b0
    } else {
        exists|sm: ClipScrollState, bm: Seq<SceneItem>|
            {
                &&& lowered_all(items.drop_last(), nodes, s0, b0, sm, bm)
                &&& item_fault(items.last(), nodes, sm) is None
                &&& #[trigger] lowered(items.last(), nodes, sm, bm, s1, b1)
            }
    }
}

/// Lowering one more item extends a lowering of the items before it.
proof fn lowered_all_step(
    items: Seq<DisplayItem>,
    nodes: Seq<ClipScrollNode>,
    s0: ClipScrollState,
    b0: Seq<SceneItem>,
    sm: ClipScrollState,
    bm: Seq<SceneItem>,
    s1: ClipScrollState,
    b1: Seq<SceneItem>,
)
    requires
        items.len() > 0,
        lowered_all(items.drop_last(), nodes, s0, b0, sm, bm),
        item_fault(items.last(), nodes, sm) is None,
        lowered(items.last(), nodes, sm, bm, s1, b1),
    ensures
        lowered_all(items, nodes, s0, b0, s1, b1),
{
}

/// The node index that an item defines, if it defines one: the node of a
/// node definition, and the node of the reference frame of a stacking
/// context.
pub open spec fn defines(item: DisplayItem) -> Option<int> {
    match item {
        DisplayItem::DefineClipScrollNode { node_index, .. } => Some(node_index.0 as int),
        DisplayItem::PushStackingContext { stacking_context, .. } => {
            match stacking_context.established_reference_frame {
                Some(frame) => Some(frame.0 as int),
                None => None,
            }
        },
        _ => None,
    }
}

/// Whether the node index is there for the item at position `k`: it was
/// given from the start or an earlier item defines it.
pub open spec fn available(items: Seq<DisplayItem>, k: int, given: Set<int>, index: int) -> bool {
    given.contains(index) || exists|j: int| 0 <= j < k && #[trigger] defines(items[j]) == Some(index)
}

/// Whether the item at position `k` comes after everything that it refers
/// to: its scroll node and its clip are there; a node that it defines is
/// within the `size` of the registry and resolved, with its parent there; a
/// reference frame that it establishes has a matrix.
pub open spec fn item_in_order(
    items: Seq<DisplayItem>,
    nodes: Seq<ClipScrollNode>,
    size: int,
    given: Set<int>,
    k: int,
) -> bool {
    let indices = items[k].base_of().clipping_and_scrolling;
    &&& available(items, k, given, indices.scrolling.0 as int)
    &&& available(items, k, given, indices.clip_index())
    &&& match items[k] {
        DisplayItem::PushStackingContext { stacking_context, .. } => {
            match stacking_context.established_reference_frame {
                Some(frame) => {
                    &&& stacking_context.transform is Some || stacking_context.perspective is Some
                    &&& frame.0 < size
                },
                None => true,
            }
        },
        DisplayItem::DefineClipScrollNode { node_index, .. } => {
            &&& node_index.0 < nodes.len()
            &&& node_index.0 < size
            &&& available(items, k, given, nodes[node_index.0 as int].parent_index.0 as int)
            &&& !(nodes[node_index.0 as int].node_type is Placeholder)
        },
        _ => true,
    }
}

/// Whether every item comes after everything that it refers to, as in a
/// display list whose nodes are defined parent before child.
pub open spec fn in_order(
    items: Seq<DisplayItem>,
    nodes: Seq<ClipScrollNode>,
    size: int,
    given: Set<int>,
) -> bool {
    forall|k: int| 0 <= k < items.len() ==> #[trigger] item_in_order(items, nodes, size, given, k)
}

/// Whether a whole display list is in order: its stacking contexts pair up,
/// and every item comes after everything that it refers to, where only the
/// two roots are there from the start.
pub open spec fn well_ordered(items: Seq<DisplayItem>, nodes: Seq<ClipScrollNode>) -> bool {
    balanced(items) && in_order(items, nodes, nodes.len() as int, set![0int, 1int])
}

/// An item in order has no fault in a registry that holds what is there for
/// the item.
proof fn in_order_means_no_fault(
    items: Seq<DisplayItem>,
    nodes: Seq<ClipScrollNode>,
    given: Set<int>,
    k: int,
    state: ClipScrollState,
)
    requires
        0 <= k < items.len(),
        state.wf(),
        item_in_order(items, nodes, state.size(), given, k),
        forall|index: int| #[trigger]
            available(items, k, given, index) ==> state.clip_defined(index) && state.scroll_defined(
                index,
            ),
    ensures
        item_fault(items[k], nodes, state) is None,
{
    let indices = items[k].base_of().clipping_and_scrolling;
    assert(available(items, k, given, indices.scrolling.0 as int));
    assert(available(items, k, given, indices.clip_index()));
    match items[k] {
        DisplayItem::DefineClipScrollNode { node_index, .. } => {
            assert(available(items, k, given, nodes[node_index.0 as int].parent_index.0 as int));
        },
        _ => {},
    }
}

/// What an item defines is defined in the registry once the item is lowered.
proof fn lowered_defines(
    item: DisplayItem,
    nodes: Seq<ClipScrollNode>,
    s0: ClipScrollState,
    b0: Seq<SceneItem>,
    s1: ClipScrollState,
    b1: Seq<SceneItem>,
)
    requires
        s0.wf(),
        item_fault(item, nodes, s0) is None,
        lowered(item, nodes, s0, b0, s1, b1),
    ensures
        match defines(item) {
            Some(index) => s1.clip_defined(index) && s1.scroll_defined(index),
            None => true,
        },
{
    match item {
        DisplayItem::DefineClipScrollNode { node_index, .. } => {
            let index = node_index.0 as int;
            let node = nodes[index];
            let parent = node.parent_index.0 as int;
            assert(s0.scroll_defined(parent));
            match node.node_type {
                ClipScrollNodeType::Clip(_) => {
                    assert(s1.clip_ids@[index] is Some);
                    assert(s1.scroll_node_ids@[index] == s0.scroll_node_ids@[parent]);
                },
                ClipScrollNodeType::ScrollFrame(_, _) => {
                    assert(s1.clip_ids@[index] is Some);
                    assert(s1.scroll_node_ids@[index] is Some);
                },
                ClipScrollNodeType::StickyFrame(_) => {
                    assert(s1.clip_ids@[index] is Some);
                    assert(s1.scroll_node_ids@[index] is Some);
                },
                ClipScrollNodeType::Placeholder => {},
            }
        },
        DisplayItem::PushStackingContext { stacking_context, .. } => {
            match stacking_context.established_reference_frame {
                Some(frame) => {
                    assert(s1.clip_ids@[frame.0 as int] is Some);
                    assert(s1.scroll_node_ids@[frame.0 as int] is Some);
                },
                None => {},
            }
        },
        _ => {},
    }
}

/// Lowering an item defines nothing but what the item defines, and keeps
/// clips and scroll nodes on record for the same node indices.
proof fn lowered_defines_no_more(
    item: DisplayItem,
    nodes: Seq<ClipScrollNode>,
    s0: ClipScrollState,
    b0: Seq<SceneItem>,
    s1: ClipScrollState,
    b1: Seq<SceneItem>,
)
    requires
        s0.wf(),
        s0.paired(),
        item_fault(item, nodes, s0) is None,
        lowered(item, nodes, s0, b0, s1, b1),
    ensures
        s1.paired(),
        forall|index: int| #[trigger]
            s1.clip_defined(index) ==> s0.clip_defined(index) || defines(item) == Some(index),
{
    lowered_defines(item, nodes, s0, b0, s1, b1);
    assert(s1.clip_ids@.len() == s0.clip_ids@.len());
    assert(s1.scroll_node_ids@.len() == s0.scroll_node_ids@.len());
    assert forall|index: int|
        #![trigger s1.clip_defined(index)]
        #![trigger s1.scroll_defined(index)]
        (s1.clip_defined(index) <==> s1.scroll_defined(index)) && (s1.clip_defined(index)
            ==> s0.clip_defined(index) || defines(item) == Some(index)) by {
        if defines(item) != Some(index) {
            if 0 <= index < s0.clip_ids@.len() {
                assert(s1.clip_ids@[index] == s0.clip_ids@[index]);
                assert(s1.scroll_node_ids@[index] == s0.scroll_node_ids@[index]);
            }
            assert(s0.clip_defined(index) <==> s0.scroll_defined(index));
        }
    }
}

/// What is there for an item is there for every later item.
proof fn available_later(items: Seq<DisplayItem>, k: int, given: Set<int>, index: int)
    requires
        available(items, k, given, index),
    ensures
        available(items, k + 1, given, index),
{
    if !given.contains(index) {
        let j = choose|j: int| 0 <= j < k && #[trigger] defines(items[j]) == Some(index);
        assert(0 <= j < k + 1 && defines(items[j]) == Some(index));
    }
}

/// An item without a fault, in a registry that holds nothing but what is
/// there for the item, comes after everything that it refers to.
proof fn no_fault_means_in_order(
    items: Seq<DisplayItem>,
    nodes: Seq<ClipScrollNode>,
    given: Set<int>,
    k: int,
    state: ClipScrollState,
)
    requires
        0 <= k < items.len(),
        state.wf(),
        state.paired(),
        item_fault(items[k], nodes, state) is None,
        forall|index: int| #[trigger] state.clip_defined(index) ==> available(items, k, given, index),
    ensures
        item_in_order(items, nodes, state.size(), given, k),
{
    let indices = items[k].base_of().clipping_and_scrolling;
    assert(state.scroll_defined(indices.scrolling.0 as int));
    assert(state.clip_defined(indices.scrolling.0 as int));
    assert(state.clip_defined(indices.clip_index()));
    match items[k] {
        DisplayItem::DefineClipScrollNode { node_index, .. } => {
            let parent = nodes[node_index.0 as int].parent_index.0 as int;
            assert(state.scroll_defined(parent));
            assert(state.clip_defined(parent));
        },
        _ => {},
    }
}

/// Lowers the items in order and stops at the first item with a fault.
///
/// On success the scene has grown by what each item stands for, and the
/// result is contentful exactly if one of the items is. On a fault the items
/// before the faulty one have been lowered and nothing of the faulty one.
pub fn lower_items(
    items: &Vec<DisplayItem>,
    clip_scroll_nodes: &Vec<ClipScrollNode>,
    state: &mut ClipScrollState,
    builder: &mut DisplayListBuilder,
) -> (r: Result<IsContentful, LoweringFault>)
    requires
        old(state).wf(),
    ensures
        final(state).wf(),
        old(state).defined_stays_in(final(state)),
        in_order(items@, clip_scroll_nodes@, old(state).size(), old(state).defined()) ==> r is Ok,
        old(state).paired() ==> final(state).paired(),
        old(state).paired() && r is Ok ==> in_order(
            items@,
            clip_scroll_nodes@,
            old(state).size(),
            old(state).defined(),
        ),
        match r {
            Ok(contentful) => {
                &&& contentful.0 == any_contentful(items@)
                &&& lowered_all(
                    items@,
                    clip_scroll_nodes@,
                    *old(state),
                    builder_items(*old(builder)),
                    *final(state),
                    builder_items(*final(builder)),
                )
            },
            Err(fault) => exists|k: int|
                {
                    &&& 0 <= k < items@.len()
                    &&& #[trigger] lowered_all(
                        items@.take(k),
                        clip_scroll_nodes@,
                        *old(state),
                        builder_items(*old(builder)),
                        *final(state),
                        builder_items(*final(builder)),
                    )
                    &&& item_fault(items@[k], clip_scroll_nodes@, *final(state)) == Some(fault)
                },
        },
{
    let mut is_contentful = false;
    let mut i: usize = 0;
    while i < items.len()
        invariant
            i <= items@.len(),
            state.wf(),
            old(state).defined_stays_in(state),
            in_order(items@, clip_scroll_nodes@, old(state).size(), old(state).defined())
                ==> forall|index: int| #[trigger]
                available(items@, i as int, old(state).defined(), index) ==> state.clip_defined(
                    index,
                ) && state.scroll_defined(index),
            old(state).paired() ==> state.paired(),
            old(state).paired() ==> forall|index: int| #[trigger]
                state.clip_defined(index) ==> available(
                    items@,
                    i as int,
                    old(state).defined(),
                    index,
                ),
            old(state).paired() ==> forall|k: int|
                0 <= k < i ==> #[trigger] item_in_order(
                    items@,
                    clip_scroll_nodes@,
                    old(state).size(),
                    old(state).defined(),
                    k,
                ),
            is_contentful == any_contentful(items@.take(i as int)),
            lowered_all(
                items@.take(i as int),
                clip_scroll_nodes@,
                *old(state),
                builder_items(*old(builder)),
                *state,
                builder_items(*builder),
            ),
        decreases items@.len() - i,
    {
        let ghost sm = *state;
        let ghost bm = builder_items(*builder);
        let ghost given = old(state).defined();
        let ghost ordered = in_order(items@, clip_scroll_nodes@, old(state).size(), given);
        proof {
            if ordered {
                assert(item_in_order(items@, clip_scroll_nodes@, sm.size(), given, i as int));
                in_order_means_no_fault(items@, clip_scroll_nodes@, given, i as int, sm);
            }
        }
        match items[i].fault_in(clip_scroll_nodes, state) {
            Some(fault) => {
                return Err(fault);
            },
            None => {
                let contentful = items[i].convert_to_webrender(clip_scroll_nodes, state, builder);
                proof {
                    if old(state).paired() {
                        no_fault_means_in_order(items@, clip_scroll_nodes@, given, i as int, sm);
                        lowered_defines_no_more(
                            items@[i as int],
                            clip_scroll_nodes@,
                            sm,
                            bm,
                            *state,
                            builder_items(*builder),
                        );
                        assert forall|index: int| #[trigger]
                            state.clip_defined(index) implies available(
                            items@,
                            i + 1,
                            given,
                            index,
                        ) by {
                            if sm.clip_defined(index) {
                                available_later(items@, i as int, given, index);
                            } else {
                                assert(defines(items@[i as int]) == Some(index));
                            }
                        }
                    }
                    if ordered {
                        lowered_defines(
                            items@[i as int],
                            clip_scroll_nodes@,
                            sm,
                            bm,
                            *state,
                            builder_items(*builder),
                        );
                        assert forall|index: int| #[trigger]
                            available(items@, i + 1, given, index) implies state.clip_defined(index)
                            && state.scroll_defined(index) by {
                            if available(items@, i as int, given, index) {
                                assert(sm.clip_defined(index) && sm.scroll_defined(index));
                            } else {
                                let j = choose|j: int|
                                    0 <= j < i + 1 && #[trigger] defines(items@[j]) == Some(index);
                                assert(j == i);
                            }
                        }
                    }
                    let next = items@.take(i + 1);
                    assert(next.drop_last() =~= items@.take(i as int));
                    assert(next.last() == items@[i as int]);
                    lowered_all_step(
                        next,
                        clip_scroll_nodes@,
                        *old(state),
                        builder_items(*old(builder)),
                        sm,
                        bm,
                        *state,
                        builder_items(*builder),
                    );
                    if contentful.0 {
                        assert(next[i as int].contentful());
                    }
                    if any_contentful(items@.take(i as int)) {
                        let w = choose|w: int|
                            0 <= w < i && (#[trigger] items@.take(i as int)[w]).contentful();
                        assert(next[w].contentful());
                    }
                    if any_contentful(next) {
                        let w = choose|w: int| 0 <= w < i + 1 && (#[trigger] next[w]).contentful();
                        if w < i {
                            assert(items@.take(i as int)[w].contentful());
                        }
                    }
                }
                is_contentful = is_contentful || contentful.0;
            },
        }
        i += 1;
    }
    proof {
        assert(items@.take(i as int) =~= items@);
    }
    Ok(IsContentful(is_contentful))
}

/// The stacking contexts that are open after the items, innermost last, each
/// with whether it established a reference frame; `None` if an item closes
/// a stacking context that is not open, or closes one with a reference frame
/// where it has none, or the other way round.
pub open spec fn open_contexts(items: Seq<DisplayItem>) -> Option<Seq<bool>>
    decreases items.len(),
{
    if items.len() == 0 {
        Some(Seq::empty())
    } else {
        match open_contexts(items.drop_last()) {
            None => None,
            Some(open) => match items.last() {
                DisplayItem::PushStackingContext { stacking_context, .. } => Some(
                    open.push(stacking_context.established_reference_frame is Some),
                ),
                DisplayItem::PopStackingContext { established_reference_frame, .. } => {
                    if open.len() > 0 && open.last() == established_reference_frame {
                        Some(open.drop_last())
                    } else {
                        None
                    }
                },
                _ => Some(open),
            },
        }
    }
}

/// Whether the items that open and close stacking contexts pair up, and
/// none is left open.
pub open spec fn balanced(items: Seq<DisplayItem>) -> bool {
    open_contexts(items) == Some(Seq::<bool>::empty())
}

/// Once a stacking context is closed wrongly, no later item mends it.
proof fn unbalanced_prefix(items: Seq<DisplayItem>, k: int)
    requires
        0 <= k <= items.len(),
        open_contexts(items.take(k)) is None,
    ensures
        open_contexts(items) is None,
    decreases items.len() - k,
{
    if k < items.len() {
        assert(items.take(k + 1).drop_last() =~= items.take(k));
        unbalanced_prefix(items, k + 1);
    } else {
        assert(items.take(k) =~= items);
    }
}

/// Checks that the items that open and close stacking contexts pair up.
pub fn check_balance(items: &Vec<DisplayItem>) -> (ok: bool)
    ensures
        ok == balanced(items@),
{
    let mut open: Vec<bool> = Vec::new();
    let mut i: usize = 0;
    while i < items.len()
        invariant
            i <= items@.len(),
            open_contexts(items@.take(i as int)) == Some(open@),
        decreases items@.len() - i,
    {
        proof {
            assert(items@.take(i + 1).drop_last() =~= items@.take(i as int));
            assert(items@.take(i + 1).last() == items@[i as int]);
        }
        match &items[i] {
            DisplayItem::PushStackingContext { stacking_context, .. } => {
                open.push(stacking_context.established_reference_frame.is_some());
            },
            DisplayItem::PopStackingContext { established_reference_frame, .. } => {
                let matching = match open.pop() {
                    Some(with_frame) => with_frame == *established_reference_frame,
                    None => false,
                };
                if !matching {
                    proof {
                        unbalanced_prefix(items@, i + 1);
                    }
                    return false;
                }
            },
            _ => {},
        }
        i += 1;
    }
    proof {
        assert(items@.take(i as int) =~= items@);
        if open@.len() == 0 {
            assert(open@ =~= Seq::<bool>::empty());
        }
    }
    open.len() == 0
}


impl DisplayList {
    /// What lowering the whole list into a fresh scene gives: the registry
    /// starts with the two roots only and the builder empty; the items are
    /// lowered one after the other; `scene` is what the builder holds in the
    /// end, `info` the compositor's record in the end, and the scene is
    /// contentful exactly if the list holds a text or image item.
    pub open spec fn lowered_from_scratch(
        &self,
        pipeline_id: PipelineId,
        viewport_size: AuSize,
        epoch: Epoch,
        scene: Seq<SceneItem>,
        info: CompositorDisplayListInfo,
        contentful: bool,
    ) -> bool {
        &&& balanced(self.list@)
        &&& contentful == any_contentful(self.list@)
        &&& exists|first: ClipScrollState, last: ClipScrollState|
            {
                &&& first.compositor_info.empty_for(
                    viewport_size,
                    self.bounds.size,
                    pipeline_id,
                    epoch,
                )
                &&& first.initial_for(self.clip_scroll_nodes@.len() as int, first.compositor_info)
                &&& #[trigger] lowered_all(
                    self.list@,
                    self.clip_scroll_nodes@,
                    first,
                    Seq::empty(),
                    last,
                    scene,
                )
                &&& last.compositor_info == info
                &&& first.defined_stays_in(&last)
            }
    }

    /// Lowers the whole display list into a fresh scene of the pipeline, if
    /// the list has no fault.
    ///
    /// A list whose stacking contexts do not pair up is refused as a whole.
    /// Else the items are lowered in order up to the first item with a
    /// fault, which is returned. The lists without a fault are exactly the
    /// well-ordered ones, as layout produces them when it defines every node
    /// before the items that refer to it. Returned for such a list are the builder, the
    /// compositor's record with its scroll tree and hit-test list, and
    /// whether the scene is contentful.
    pub fn try_convert_to_webrender(
        &self,
        pipeline_id: PipelineId,
        viewport_size: AuSize,
        epoch: Epoch,
    ) -> (r: Result<(DisplayListBuilder, CompositorDisplayListInfo, IsContentful), LoweringFault>)
        requires
            self.clip_scroll_nodes@.len() >= 2,
        ensures
            r is Ok <==> well_ordered(self.list@, self.clip_scroll_nodes@),
            !balanced(self.list@) ==> r is Err && r->Err_0
                == LoweringFault::UnbalancedStackingContexts,
            match r {
                Ok((builder, info, contentful)) => self.lowered_from_scratch(
                    pipeline_id,
                    viewport_size,
                    epoch,
                    builder_items(builder),
                    info,
                    contentful.0,
                ),
                Err(fault) => !balanced(self.list@) || exists|
                    k: int,
                    first: ClipScrollState,
                    reached: ClipScrollState,
                    scene: Seq<SceneItem>,
                |
                    {
                        &&& 0 <= k < self.list@.len()
                        &&& first.initial_for(
                            self.clip_scroll_nodes@.len() as int,
                            first.compositor_info,
                        )
                        &&& #[trigger] lowered_all(
                            self.list@.take(k),
                            self.clip_scroll_nodes@,
                            first,
                            Seq::empty(),
                            reached,
                            scene,
                        )
                        &&& item_fault(self.list@[k], self.clip_scroll_nodes@, reached) == Some(
                            fault,
                        )
                    },
            },
    {
        if !check_balance(&self.list) {
            return Err(LoweringFault::UnbalancedStackingContexts);
        }
        let info = CompositorDisplayListInfo::new(
            viewport_size,
            self.bounds.size,
            pipeline_id,
            epoch,
        );
        let mut state = ClipScrollState::new(self.clip_scroll_nodes.len(), info);
        let mut builder = new_builder(pipeline_id, layout_size(self.bounds.size), 1024 * 1024);
        let ghost first = state;
        proof {
            assert(first.clip_ids@[0] is Some && first.clip_ids@[1] is Some);
            assert forall|index: int| first.defined().contains(index) <==> (index == 0 || index
                == 1) by {
                if 2 <= index < first.size() {
                    assert(first.scroll_node_ids@[index] is None);
                }
            }
            assert(first.defined() =~= set![0int, 1int]);
            assert(first.paired()) by {
                assert forall|index: int|
                    #![trigger first.clip_defined(index)]
                    #![trigger first.scroll_defined(index)]
                    first.clip_defined(index) <==> first.scroll_defined(index) by {
                    if 2 <= index < first.size() {
                        assert(first.clip_ids@[index] is None);
                        assert(first.scroll_node_ids@[index] is None);
                    }
                }
            }
        }
        match lower_items(&self.list, &self.clip_scroll_nodes, &mut state, &mut builder) {
            Ok(is_contentful) => {
                let ghost last = state;
                let ghost scene = builder_items(builder);
                let record = state.compositor_info;
                assert(lowered_all(
                    self.list@,
                    self.clip_scroll_nodes@,
                    first,
                    Seq::empty(),
                    last,
                    scene,
                ));
                assert(first.defined_stays_in(&last));
                assert(first.compositor_info.empty_for(
                    viewport_size,
                    self.bounds.size,
                    pipeline_id,
                    epoch,
                ));
                assert(first.initial_for(
                    self.clip_scroll_nodes@.len() as int,
                    first.compositor_info,
                ));
                assert(is_contentful.0 == any_contentful(self.list@));
                let out = (builder, record, is_contentful);
                assert(builder_items(out.0) == scene && last.compositor_info == out.1);
                assert(self.lowered_from_scratch(
                    pipeline_id,
                    viewport_size,
                    epoch,
                    scene,
                    out.1,
                    out.2.0,
                ));
                Ok(out)
            },
            Err(fault) => {
                proof {
                    let k = choose|k: int|
                        {
                            &&& 0 <= k < self.list@.len()
                            &&& #[trigger] lowered_all(
                                self.list@.take(k),
                                self.clip_scroll_nodes@,
                                first,
                                Seq::empty(),
                                state,
                                builder_items(builder),
                            )
                            &&& item_fault(self.list@[k], self.clip_scroll_nodes@, state) == Some(
                                fault,
                            )
                        };
                    assert(lowered_all(
                        self.list@.take(k),
                        self.clip_scroll_nodes@,
                        first,
                        Seq::empty(),
                        state,
                        builder_items(builder),
                    ));
                }
                Err(fault)
            },
        }
    }

    /// Lowers the whole display list into a fresh scene of the pipeline.
    ///
    /// The list must be well ordered: its stacking contexts pair up, and
    /// every item comes after the items that define what it refers to.
    /// Returned are the builder, the compositor's record with its scroll tree
    /// and hit-test list, and whether the scene is contentful: whether the
    /// list holds a text or image item.
    pub fn convert_to_webrender(
        &self,
        pipeline_id: PipelineId,
        viewport_size: AuSize,
        epoch: Epoch,
    ) -> (out: (DisplayListBuilder, CompositorDisplayListInfo, IsContentful))
        requires
            self.clip_scroll_nodes@.len() >= 2,
            well_ordered(self.list@, self.clip_scroll_nodes@),
        ensures
            self.lowered_from_scratch(
                pipeline_id,
                viewport_size,
                epoch,
                builder_items(out.0),
                out.1,
                out.2.0,
            ),
    {
        match self.try_convert_to_webrender(pipeline_id, viewport_size, epoch) {
            Ok(out) => out,
            Err(_) => unreached(),
        }
    }
}

} // verus!
