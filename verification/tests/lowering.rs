use display_list::cursor::Cursor;
use display_list::geometry::{AuPoint, AuRect, AuSize, AuVector};
use display_list::items::{
    BaseDisplayItem, ClipScrollNode, ClipScrollNodeIndex, ClipScrollNodeType, ClipType,
    ClippingAndScrolling, DisplayItem, DisplayItemMetadata, DisplayList, StackingContext,
};
use display_list::lowering::{lower_items, LoweringFault};
use display_list::registry::ClipScrollState;
use display_list::scene::StickyMargins;
use display_list::scroll_tree::{CompositorDisplayListInfo, ScrollSensitivity};
use webrender_api::units::{LayoutPoint, LayoutRect, LayoutSize, LayoutTransform, LayoutVector3D};
use display_list::items::StickyFrameData;
use webrender_api::units::{LayoutSideOffsets, LayoutVector2D};
use webrender_api::{
    AlphaType, BorderDetails, BorderRadius, BorderSide, BorderStyle, BoxShadowClipMode,
    BuiltDisplayList, ClipId, ClipMode, ColorF, ComplexClipRegion, DisplayItem as WrItem,
    DisplayListBuilder, Epoch, ExtendMode, ExternalScrollId, FilterOp, FontInstanceKey,
    GlyphInstance, Gradient, GradientStop, IdNamespace, ImageKey, ImageRendering, LineOrientation,
    LineStyle, MixBlendMode, NormalBorder, PipelineId, RadialGradient, ReferenceFrameKind, Shadow,
    SpatialId, StickyOffsetBounds, TransformStyle,
};

fn pipeline() -> PipelineId {
    PipelineId(3, 7)
}

fn rect(x: f32, y: f32, w: f32, h: f32) -> LayoutRect {
    LayoutRect::new(LayoutPoint::new(x, y), LayoutSize::new(w, h))
}

fn au_rect(x: i32, y: i32, w: i32, h: i32) -> AuRect {
    AuRect { origin: AuPoint { x, y }, size: AuSize { width: w, height: h } }
}

fn base_at(scrolling: usize, clipping: Option<usize>, cursor: Option<Cursor>) -> BaseDisplayItem {
    BaseDisplayItem {
        clip_rect: rect(0.0, 0.0, 100.0, 50.0),
        metadata: DisplayItemMetadata { node: 42, cursor },
        clipping_and_scrolling: ClippingAndScrolling {
            scrolling: ClipScrollNodeIndex(scrolling),
            clipping: clipping.map(ClipScrollNodeIndex),
        },
    }
}

fn root_base() -> BaseDisplayItem {
    base_at(1, None, None)
}

fn rectangle() -> DisplayItem {
    DisplayItem::Rectangle { base: root_base(), color: ColorF::new(1.0, 0.0, 0.0, 1.0) }
}

fn text(glyph_count: usize) -> DisplayItem {
    let glyphs = (0..glyph_count)
        .map(|i| GlyphInstance { index: i as u32, point: LayoutPoint::new(i as f32, 10.0) })
        .collect();
    DisplayItem::Text {
        base: root_base(),
        bounds: rect(0.0, 0.0, 100.0, 20.0),
        font_key: FontInstanceKey::new(IdNamespace(1), 5),
        color: ColorF::BLACK,
        glyph_options: None,
        glyphs,
    }
}

fn placeholder_node() -> ClipScrollNode {
    ClipScrollNode {
        parent_index: ClipScrollNodeIndex(0),
        clip: au_rect(0, 0, 0, 0),
        content_rect: au_rect(0, 0, 0, 0),
        node_type: ClipScrollNodeType::Placeholder,
    }
}

fn list_of(items: Vec<DisplayItem>, nodes: Vec<ClipScrollNode>) -> DisplayList {
    DisplayList { list: items, clip_scroll_nodes: nodes, bounds: au_rect(0, 0, 60000, 120000) }
}

fn viewport() -> AuSize {
    AuSize { width: 60000, height: 36000 }
}

fn built_items(list: &BuiltDisplayList) -> Vec<WrItem> {
    let mut out = Vec::new();
    let mut iter = list.iter();
    while let Some(item) = iter.next() {
        out.push(*item.item());
    }
    out
}

fn lower(list: &DisplayList) -> (Vec<WrItem>, CompositorDisplayListInfo, bool) {
    let (builder, info, contentful) = match list.try_convert_to_webrender(pipeline(), viewport(), Epoch(1)) {
        Ok(out) => out,
        Err(fault) => panic!("lowering failed: {:?}", fault),
    };
    let (_, _, built) = builder.finalize();
    (built_items(&built), info, contentful.0)
}

#[test]
fn empty_document_has_both_roots() {
    let info = CompositorDisplayListInfo::new(
        viewport(),
        AuSize { width: 60000, height: 120000 },
        pipeline(),
        Epoch(1),
    );
    let state = ClipScrollState::new(2, info);
    assert_eq!(state.clip_ids, vec![Some(ClipId::root(pipeline())), Some(ClipId::root(pipeline()))]);
    let frame = state.scroll_node_ids[0].unwrap();
    let scroll = state.scroll_node_ids[1].unwrap();
    assert_eq!(frame.index, 0);
    assert_eq!(frame.spatial_id, SpatialId::root_reference_frame(pipeline()));
    assert_eq!(scroll.index, 1);
    assert_eq!(scroll.spatial_id, SpatialId::root_scroll_node(pipeline()));
    assert_eq!(state.webrender_clip_id_for_index(1), ClipId::root(pipeline()));
    assert_eq!(state.webrender_spatial_id_for_index(0), SpatialId::root_reference_frame(pipeline()));
    assert_eq!(state.scroll_node_id_from_index(1).index, 1);
}

#[test]
fn fresh_registry_holds_only_the_roots() {
    let info = CompositorDisplayListInfo::new(viewport(), viewport(), pipeline(), Epoch(1));
    let state = ClipScrollState::new(5, info);
    assert_eq!(state.clip_ids.len(), 5);
    assert_eq!(state.scroll_node_ids.len(), 5);
    for i in 2..5 {
        assert!(state.clip_id_at(i).is_none());
        assert!(state.scroll_node_id_at(i).is_none());
    }
    assert!(state.clip_id_at(5).is_none());
    assert!(state.scroll_node_id_at(9).is_none());
}

#[test]
fn root_scroll_node_scrolls_by_content_beyond_viewport() {
    let info = CompositorDisplayListInfo::new(
        viewport(),
        AuSize { width: 60000, height: 120000 },
        pipeline(),
        Epoch(1),
    );
    assert_eq!(info.scroll_tree.nodes.len(), 2);
    assert!(info.scroll_tree.nodes[0].parent.is_none());
    assert!(info.scroll_tree.nodes[0].scroll_info.is_none());
    assert_eq!(info.scroll_tree.nodes[1].parent.unwrap().index, 0);
    let scroll = info.scroll_tree.nodes[1].scroll_info.unwrap();
    assert_eq!(scroll.scrollable_size, AuSize { width: 0, height: 84000 });
    assert_eq!(scroll.external_id, ExternalScrollId(0, pipeline()));
    assert_eq!(scroll.scroll_sensitivity, ScrollSensitivity::ScriptAndInputEvents);
    assert_eq!(scroll.offset, AuVector { x: 0, y: 0 });
}

#[test]
fn item_before_its_node_is_defined_is_refused() {
    let nodes = vec![placeholder_node(), placeholder_node(), placeholder_node()];
    let item = DisplayItem::Rectangle {
        base: base_at(2, None, None),
        color: ColorF::BLACK,
    };
    let list = list_of(vec![rectangle(), item, rectangle()], nodes);
    match list.try_convert_to_webrender(pipeline(), viewport(), Epoch(1)) {
        Err(fault) => assert_eq!(fault, LoweringFault::ScrollNodeUsedBeforeDefined(2)),
        Ok(_) => panic!("an undefined scroll node was accepted"),
    }
}

#[test]
fn item_with_undefined_clip_is_refused() {
    let nodes = vec![placeholder_node(), placeholder_node(), placeholder_node()];
    let item = DisplayItem::Rectangle {
        base: base_at(1, Some(2), None),
        color: ColorF::BLACK,
    };
    let list = list_of(vec![item], nodes);
    match list.try_convert_to_webrender(pipeline(), viewport(), Epoch(1)) {
        Err(fault) => assert_eq!(fault, LoweringFault::ClipUsedBeforeDefined(2)),
        Ok(_) => panic!("an undefined clip was accepted"),
    }
}

#[test]
fn fault_leaves_state_and_scene_as_they_were() {
    let info = CompositorDisplayListInfo::new(viewport(), viewport(), pipeline(), Epoch(1));
    let mut state = ClipScrollState::new(3, info);
    let mut builder = DisplayListBuilder::new(pipeline(), LayoutSize::new(10.0, 10.0));
    let nodes = vec![placeholder_node(), placeholder_node(), placeholder_node()];
    let items = vec![
        rectangle(),
        DisplayItem::DefineClipScrollNode { base: root_base(), node_index: ClipScrollNodeIndex(2) },
        rectangle(),
    ];
    let r = lower_items(&items, &nodes, &mut state, &mut builder);
    assert_eq!(r.err(), Some(LoweringFault::PlaceholderNode(2)));
    assert!(state.clip_id_at(2).is_none());
    assert!(state.scroll_node_id_at(2).is_none());
    let (_, _, built) = builder.finalize();
    assert_eq!(built_items(&built).len(), 1);
}

#[test]
fn scene_of_borders_and_backgrounds_is_not_contentful() {
    let list = list_of(
        vec![rectangle(), rectangle()],
        vec![placeholder_node(), placeholder_node()],
    );
    let (items, _, contentful) = lower(&list);
    assert!(!contentful);
    assert_eq!(items.len(), 2);
}

#[test]
fn one_text_run_makes_the_scene_contentful() {
    let list = list_of(
        vec![rectangle(), text(3), rectangle()],
        vec![placeholder_node(), placeholder_node()],
    );
    let (items, _, contentful) = lower(&list);
    assert!(contentful);
    assert_eq!(items.len(), 3);
    assert!(matches!(items[0], WrItem::Rectangle(_)));
    assert!(matches!(items[1], WrItem::Text(_)));
    assert!(matches!(items[2], WrItem::Rectangle(_)));
}

#[test]
fn rectangle_carries_root_handles_and_no_tag() {
    let list = list_of(vec![rectangle()], vec![placeholder_node(), placeholder_node()]);
    let (items, info, _) = lower(&list);
    match items[0] {
        WrItem::Rectangle(r) => {
            assert_eq!(r.common.clip_rect, rect(0.0, 0.0, 100.0, 50.0));
            assert_eq!(r.common.spatial_id, SpatialId::root_scroll_node(pipeline()));
            assert_eq!(r.common.clip_id, ClipId::root(pipeline()));
            assert_eq!(r.common.hit_info, None);
            assert_eq!(r.common.flags, webrender_api::PrimitiveFlags::default());
            assert_eq!(r.color, ColorF::new(1.0, 0.0, 0.0, 1.0));
        },
        other => panic!("unexpected item {:?}", other),
    }
    assert!(info.hit_test_info.is_empty());
}

#[test]
fn cursor_gives_the_item_a_hit_test_tag() {
    let first = DisplayItem::Rectangle {
        base: base_at(1, None, Some(Cursor::Pointer)),
        color: ColorF::BLACK,
    };
    let mut other_node = base_at(1, None, Some(Cursor::Text));
    other_node.metadata.node = 43;
    let second = DisplayItem::Rectangle { base: other_node, color: ColorF::BLACK };
    let list = list_of(vec![first, second], vec![placeholder_node(), placeholder_node()]);
    let (items, info, _) = lower(&list);
    match (items[0], items[1]) {
        (WrItem::Rectangle(a), WrItem::Rectangle(b)) => {
            assert_eq!(a.common.hit_info, Some((0, 0)));
            assert_eq!(b.common.hit_info, Some((1, 0)));
        },
        other => panic!("unexpected items {:?}", other),
    }
    assert_eq!(info.hit_test_info.len(), 2);
    assert_eq!(info.hit_test_info[0].node, 42);
    assert_eq!(info.hit_test_info[0].cursor, Some(Cursor::Pointer));
    assert_eq!(info.hit_test_info[0].scroll_tree_node.index, 1);
    assert_eq!(info.hit_test_info[1].node, 43);
}

fn stacking_context(
    transform: Option<LayoutTransform>,
    perspective: Option<LayoutTransform>,
    frame: Option<usize>,
) -> DisplayItem {
    DisplayItem::PushStackingContext {
        base: root_base(),
        stacking_context: StackingContext {
            bounds: au_rect(600, 1200, 6000, 6000),
            transform,
            perspective,
            transform_style: TransformStyle::Flat,
            mix_blend_mode: MixBlendMode::Normal,
            filters: vec![],
            established_reference_frame: frame.map(ClipScrollNodeIndex),
        },
    }
}

fn closing(with_frame: bool) -> DisplayItem {
    DisplayItem::PopStackingContext { base: root_base(), established_reference_frame: with_frame }
}

fn refused(items: Vec<DisplayItem>) -> LoweringFault {
    let nodes = vec![placeholder_node(), placeholder_node(), placeholder_node()];
    match list_of(items, nodes).try_convert_to_webrender(pipeline(), viewport(), Epoch(1)) {
        Err(fault) => fault,
        Ok(_) => panic!("a broken display list was accepted"),
    }
}

#[test]
fn stacking_contexts_must_pair_up() {
    let t = LayoutTransform::create_translation(1.0, 2.0, 3.0);
    let unbalanced = LoweringFault::UnbalancedStackingContexts;
    assert_eq!(refused(vec![stacking_context(None, None, None)]), unbalanced);
    assert_eq!(refused(vec![closing(false)]), unbalanced);
    assert_eq!(refused(vec![rectangle(), closing(false), stacking_context(None, None, None)]), unbalanced);
    assert_eq!(refused(vec![stacking_context(None, None, None), closing(true)]), unbalanced);
    assert_eq!(refused(vec![stacking_context(Some(t), None, Some(2)), closing(false)]), unbalanced);
    assert_eq!(
        refused(vec![
            stacking_context(None, None, None),
            stacking_context(Some(t), None, Some(2)),
            closing(false),
            closing(true),
        ]),
        unbalanced
    );
    let nested = list_of(
        vec![
            stacking_context(None, None, None),
            stacking_context(Some(t), None, Some(2)),
            rectangle(),
            closing(true),
            closing(false),
        ],
        vec![placeholder_node(), placeholder_node(), placeholder_node()],
    );
    let (items, _, _) = lower(&nested);
    assert_eq!(items.len(), 7);
}

#[test]
fn perspective_applies_before_transform() {
    let t = LayoutTransform::create_translation(10.0, 20.0, 30.0);
    let p = LayoutTransform::create_perspective(100.0);
    assert_ne!(p.post_transform(&t), t.post_transform(&p));
    let list = list_of(
        vec![
            stacking_context(Some(t), Some(p), Some(2)),
            DisplayItem::PopStackingContext { base: root_base(), established_reference_frame: true },
        ],
        vec![placeholder_node(), placeholder_node(), placeholder_node()],
    );
    let (items, info, contentful) = lower(&list);
    assert!(!contentful);
    assert_eq!(items.len(), 4);
    let frame_id = match items[0] {
        WrItem::PushReferenceFrame(f) => {
            assert_eq!(f.origin, LayoutPoint::new(10.0, 20.0));
            assert_eq!(f.parent_spatial_id, SpatialId::root_scroll_node(pipeline()));
            assert_eq!(
                f.reference_frame.transform,
                webrender_api::PropertyBinding::Value(p.post_transform(&t))
            );
            assert_eq!(
                f.reference_frame.kind,
                ReferenceFrameKind::Perspective { scrolling_relative_to: None }
            );
            f.reference_frame.id
        },
        other => panic!("unexpected item {:?}", other),
    };
    match items[1] {
        WrItem::PushStackingContext(s) => {
            assert_eq!(s.origin, LayoutPoint::zero());
            assert_eq!(s.spatial_id, frame_id);
            assert_eq!(s.stacking_context.clip_id, None);
        },
        other => panic!("unexpected item {:?}", other),
    }
    assert!(matches!(items[2], WrItem::PopStackingContext));
    assert!(matches!(items[3], WrItem::PopReferenceFrame));
    assert_eq!(info.scroll_tree.nodes.len(), 3);
    assert_eq!(info.scroll_tree.nodes[2].parent.unwrap().index, 1);
    assert!(info.scroll_tree.nodes[2].scroll_info.is_none());
}

#[test]
fn transform_alone_makes_a_transform_frame() {
    let t = LayoutTransform::create_translation(10.0, 20.0, 30.0);
    let list = list_of(
        vec![stacking_context(Some(t), None, Some(2)), closing(true)],
        vec![placeholder_node(), placeholder_node(), placeholder_node()],
    );
    let (items, _, _) = lower(&list);
    match items[0] {
        WrItem::PushReferenceFrame(f) => {
            assert_eq!(f.reference_frame.transform, webrender_api::PropertyBinding::Value(t));
            assert_eq!(f.reference_frame.kind, ReferenceFrameKind::Transform);
        },
        other => panic!("unexpected item {:?}", other),
    }
}

#[test]
fn stacking_context_without_frame_keeps_its_origin() {
    let list = list_of(
        vec![
            stacking_context(None, None, None),
            DisplayItem::PopStackingContext { base: root_base(), established_reference_frame: false },
        ],
        vec![placeholder_node(), placeholder_node()],
    );
    let (items, info, _) = lower(&list);
    assert_eq!(items.len(), 2);
    match items[0] {
        WrItem::PushStackingContext(s) => {
            assert_eq!(s.origin, LayoutPoint::new(10.0, 20.0));
            assert_eq!(s.spatial_id, SpatialId::root_scroll_node(pipeline()));
        },
        other => panic!("unexpected item {:?}", other),
    }
    assert!(matches!(items[1], WrItem::PopStackingContext));
    assert_eq!(info.scroll_tree.nodes.len(), 2);
}

#[test]
fn reference_frame_without_matrix_is_refused() {
    let list = list_of(
        vec![stacking_context(None, None, Some(2)), closing(true)],
        vec![placeholder_node(), placeholder_node(), placeholder_node()],
    );
    match list.try_convert_to_webrender(pipeline(), viewport(), Epoch(1)) {
        Err(fault) => assert_eq!(fault, LoweringFault::ReferenceFrameWithoutTransform),
        Ok(_) => panic!("a reference frame without a matrix was accepted"),
    }
}

#[test]
fn node_beyond_the_list_is_refused() {
    let list = list_of(
        vec![DisplayItem::DefineClipScrollNode {
            base: root_base(),
            node_index: ClipScrollNodeIndex(7),
        }],
        vec![placeholder_node(), placeholder_node()],
    );
    match list.try_convert_to_webrender(pipeline(), viewport(), Epoch(1)) {
        Err(fault) => assert_eq!(fault, LoweringFault::NodeIndexOutOfRange(7)),
        Ok(_) => panic!("a node beyond the list was accepted"),
    }
}

fn scroll_frame_node(parent: usize) -> ClipScrollNode {
    ClipScrollNode {
        parent_index: ClipScrollNodeIndex(parent),
        clip: au_rect(0, 0, 6000, 3000),
        content_rect: au_rect(0, 0, 6000, 12000),
        node_type: ClipScrollNodeType::ScrollFrame(
            ScrollSensitivity::Script,
            ExternalScrollId(9, pipeline()),
        ),
    }
}

fn clip_node(parent: usize) -> ClipScrollNode {
    ClipScrollNode {
        parent_index: ClipScrollNodeIndex(parent),
        clip: au_rect(60, 120, 600, 300),
        content_rect: au_rect(0, 0, 0, 0),
        node_type: ClipScrollNodeType::Clip(ClipType::Rect),
    }
}

#[test]
fn scroll_frame_enters_tree_with_scrollable_size() {
    let nodes = vec![placeholder_node(), placeholder_node(), scroll_frame_node(1)];
    let define = DisplayItem::DefineClipScrollNode {
        base: root_base(),
        node_index: ClipScrollNodeIndex(2),
    };
    let inside = DisplayItem::Rectangle { base: base_at(2, None, None), color: ColorF::BLACK };
    let list = list_of(vec![define, inside], nodes);
    let (items, info, _) = lower(&list);
    assert_eq!(items.len(), 2);
    let (clip_id, space) = match items[0] {
        WrItem::ScrollFrame(f) => {
            assert_eq!(f.parent_space_and_clip.spatial_id, SpatialId::root_scroll_node(pipeline()));
            assert_eq!(f.parent_space_and_clip.clip_id, ClipId::root(pipeline()));
            assert_eq!(f.external_id, Some(ExternalScrollId(9, pipeline())));
            assert_eq!(f.content_rect, rect(0.0, 0.0, 100.0, 200.0));
            assert_eq!(f.clip_rect, rect(0.0, 0.0, 100.0, 50.0));
            assert_eq!(f.scroll_sensitivity, webrender_api::ScrollSensitivity::Script);
            assert_eq!(f.external_scroll_offset, webrender_api::units::LayoutVector2D::zero());
            assert_ne!(f.clip_id, ClipId::root(pipeline()));
            (f.clip_id, f.scroll_frame_id)
        },
        other => panic!("unexpected item {:?}", other),
    };
    match items[1] {
        WrItem::Rectangle(r) => {
            assert_eq!(r.common.clip_id, clip_id);
            assert_eq!(r.common.spatial_id, space);
        },
        other => panic!("unexpected item {:?}", other),
    }
    assert_eq!(info.scroll_tree.nodes.len(), 3);
    let node = info.scroll_tree.nodes[2];
    assert_eq!(node.parent.unwrap().index, 1);
    let scroll = node.scroll_info.unwrap();
    assert_eq!(scroll.scrollable_size, AuSize { width: 0, height: 9000 });
    assert_eq!(scroll.scroll_sensitivity, ScrollSensitivity::Script);
    assert_eq!(scroll.offset, AuVector { x: 0, y: 0 });
}

#[test]
fn clip_node_inherits_parent_scroll_node() {
    let nodes = vec![placeholder_node(), placeholder_node(), clip_node(1)];
    let info = CompositorDisplayListInfo::new(viewport(), viewport(), pipeline(), Epoch(1));
    let mut state = ClipScrollState::new(3, info);
    let mut builder = DisplayListBuilder::new(pipeline(), LayoutSize::new(10.0, 10.0));
    let items = vec![DisplayItem::DefineClipScrollNode {
        base: root_base(),
        node_index: ClipScrollNodeIndex(2),
    }];
    let r = lower_items(&items, &nodes, &mut state, &mut builder);
    assert!(!r.unwrap().0);
    assert_eq!(state.scroll_node_id_at(2).unwrap().index, 1);
    assert_eq!(state.compositor_info.scroll_tree.nodes.len(), 2);
    let (_, _, built) = builder.finalize();
    let out = built_items(&built);
    match out[0] {
        WrItem::Clip(c) => {
            assert_eq!(Some(c.id), state.clip_id_at(2));
            assert_eq!(c.clip_rect, rect(1.0, 2.0, 10.0, 5.0));
            assert_eq!(c.parent_space_and_clip.clip_id, ClipId::root(pipeline()));
        },
        other => panic!("unexpected item {:?}", other),
    }
}

#[test]
fn long_text_run_is_split() {
    let list = list_of(vec![text(2041)], vec![placeholder_node(), placeholder_node()]);
    let (items, _, contentful) = lower(&list);
    assert!(contentful);
    assert_eq!(items.len(), 2);
    let list = list_of(vec![text(0)], vec![placeholder_node(), placeholder_node()]);
    let (items, _, contentful) = lower(&list);
    assert!(contentful);
    assert_eq!(items.len(), 0);
}

struct Seen {
    item: WrItem,
    glyphs: usize,
    stops: Vec<GradientStop>,
    filters: Vec<FilterOp>,
    complex: Vec<ComplexClipRegion>,
}

fn seen_items(list: &DisplayList) -> Vec<Seen> {
    let (builder, _, _) = list.try_convert_to_webrender(pipeline(), viewport(), Epoch(1)).ok().unwrap();
    let (_, _, built) = builder.finalize();
    let mut out = Vec::new();
    let mut iter = built.iter();
    while let Some(item) = iter.next() {
        out.push(Seen {
            item: *item.item(),
            glyphs: item.glyphs().iter().count(),
            stops: item.gradient_stops().iter().collect(),
            filters: item.filters().iter().collect(),
            complex: item.complex_clip().iter().collect(),
        });
    }
    out
}

fn two_roots() -> Vec<ClipScrollNode> {
    vec![placeholder_node(), placeholder_node()]
}

fn stops() -> Vec<GradientStop> {
    vec![
        GradientStop { offset: 0.0, color: ColorF::BLACK },
        GradientStop { offset: 1.0, color: ColorF::WHITE },
    ]
}

#[test]
fn text_run_carries_its_glyphs() {
    let out = seen_items(&list_of(vec![text(3)], two_roots()));
    assert_eq!(out.len(), 1);
    assert_eq!(out[0].glyphs, 3);
    match out[0].item {
        WrItem::Text(t) => {
            assert_eq!(t.bounds, rect(0.0, 0.0, 100.0, 20.0));
            assert_eq!(t.font_key, FontInstanceKey::new(IdNamespace(1), 5));
            assert_eq!(t.color, ColorF::BLACK);
            assert_eq!(t.glyph_options, None);
        },
        other => panic!("unexpected item {:?}", other),
    }
}

#[test]
fn images_are_lowered_with_their_payload() {
    let image = DisplayItem::Image {
        base: root_base(),
        bounds: rect(1.0, 2.0, 3.0, 4.0),
        image_rendering: ImageRendering::CrispEdges,
        alpha_type: AlphaType::Alpha,
        image_key: ImageKey::new(IdNamespace(2), 9),
        color: ColorF::WHITE,
    };
    let tiled = DisplayItem::RepeatingImage {
        base: root_base(),
        bounds: rect(1.0, 2.0, 30.0, 40.0),
        stretch_size: LayoutSize::new(3.0, 4.0),
        tile_spacing: LayoutSize::new(1.0, 0.0),
        image_rendering: ImageRendering::Pixelated,
        alpha_type: AlphaType::PremultipliedAlpha,
        image_key: ImageKey::new(IdNamespace(2), 10),
        color: ColorF::BLACK,
    };
    let list = list_of(vec![image, tiled], two_roots());
    let (items, _, contentful) = lower(&list);
    assert!(contentful);
    match (items[0], items[1]) {
        (WrItem::Image(a), WrItem::RepeatingImage(b)) => {
            assert_eq!(a.bounds, rect(1.0, 2.0, 3.0, 4.0));
            assert_eq!(a.image_rendering, ImageRendering::CrispEdges);
            assert_eq!(a.alpha_type, AlphaType::Alpha);
            assert_eq!(a.image_key, ImageKey::new(IdNamespace(2), 9));
            assert_eq!(a.color, ColorF::WHITE);
            assert_eq!(a.common.clip_rect, rect(0.0, 0.0, 100.0, 50.0));
            assert_eq!(b.bounds, rect(1.0, 2.0, 30.0, 40.0));
            assert_eq!(b.stretch_size, LayoutSize::new(3.0, 4.0));
            assert_eq!(b.tile_spacing, LayoutSize::new(1.0, 0.0));
            assert_eq!(b.image_rendering, ImageRendering::Pixelated);
            assert_eq!(b.alpha_type, AlphaType::PremultipliedAlpha);
            assert_eq!(b.image_key, ImageKey::new(IdNamespace(2), 10));
            assert_eq!(b.color, ColorF::BLACK);
        },
        other => panic!("unexpected items {:?}", other),
    }
}

fn solid_border() -> BorderDetails {
    let side = BorderSide { color: ColorF::BLACK, style: BorderStyle::Solid };
    BorderDetails::Normal(NormalBorder {
        left: side,
        right: side,
        top: side,
        bottom: side,
        radius: BorderRadius::uniform(2.0),
        do_aa: true,
    })
}

#[test]
fn border_and_gradients_carry_their_stops() {
    let border = DisplayItem::Border {
        base: root_base(),
        bounds: rect(0.0, 0.0, 10.0, 10.0),
        widths: LayoutSideOffsets::new_all_same(1.0),
        details: solid_border(),
        stops: vec![],
    };
    let border_with_stops = DisplayItem::Border {
        base: root_base(),
        bounds: rect(0.0, 0.0, 10.0, 10.0),
        widths: LayoutSideOffsets::new_all_same(1.0),
        details: solid_border(),
        stops: stops(),
    };
    let gradient = Gradient {
        start_point: LayoutPoint::new(0.0, 0.0),
        end_point: LayoutPoint::new(0.0, 10.0),
        extend_mode: ExtendMode::Clamp,
    };
    let linear = DisplayItem::Gradient {
        base: root_base(),
        bounds: rect(0.0, 0.0, 10.0, 10.0),
        gradient,
        tile_size: LayoutSize::new(10.0, 10.0),
        tile_spacing: LayoutSize::new(0.0, 0.0),
        stops: stops(),
    };
    let radial_gradient = RadialGradient {
        center: LayoutPoint::new(5.0, 5.0),
        radius: LayoutSize::new(5.0, 5.0),
        start_offset: 0.0,
        end_offset: 1.0,
        extend_mode: ExtendMode::Repeat,
    };
    let radial = DisplayItem::RadialGradient {
        base: root_base(),
        bounds: rect(0.0, 0.0, 10.0, 10.0),
        gradient: radial_gradient,
        tile_size: LayoutSize::new(10.0, 10.0),
        tile_spacing: LayoutSize::new(2.0, 2.0),
        stops: stops(),
    };
    let out = seen_items(&list_of(vec![border, border_with_stops, linear, radial], two_roots()));
    assert_eq!(out.len(), 4);
    assert!(out[0].stops.is_empty());
    assert_eq!(out[1].stops, stops());
    assert_eq!(out[2].stops, stops());
    assert_eq!(out[3].stops, stops());
    match out[0].item {
        WrItem::Border(b) => {
            assert_eq!(b.bounds, rect(0.0, 0.0, 10.0, 10.0));
            assert_eq!(b.widths, LayoutSideOffsets::new_all_same(1.0));
            assert_eq!(b.details, solid_border());
        },
        other => panic!("unexpected item {:?}", other),
    }
    match out[2].item {
        WrItem::Gradient(g) => {
            assert_eq!(g.gradient, gradient);
            assert_eq!(g.tile_size, LayoutSize::new(10.0, 10.0));
            assert_eq!(g.tile_spacing, LayoutSize::new(0.0, 0.0));
        },
        other => panic!("unexpected item {:?}", other),
    }
    match out[3].item {
        WrItem::RadialGradient(g) => {
            assert_eq!(g.gradient, radial_gradient);
            assert_eq!(g.tile_spacing, LayoutSize::new(2.0, 2.0));
        },
        other => panic!("unexpected item {:?}", other),
    }
}

#[test]
fn lines_and_shadows_are_lowered_with_their_payload() {
    let line = DisplayItem::Line {
        base: root_base(),
        area: rect(0.0, 9.0, 50.0, 1.0),
        wavy_line_thickness: 90,
        orientation: LineOrientation::Horizontal,
        color: ColorF::BLACK,
        style: LineStyle::Wavy,
    };
    let shadow = DisplayItem::BoxShadow {
        base: root_base(),
        box_bounds: rect(0.0, 0.0, 10.0, 10.0),
        offset: LayoutVector2D::new(1.0, 2.0),
        color: ColorF::BLACK,
        blur_radius: 120,
        spread_radius: 30,
        border_radius: BorderRadius::uniform(3.0),
        clip_mode: BoxShadowClipMode::Inset,
    };
    let text_shadow = Shadow {
        offset: LayoutVector2D::new(1.0, 1.0),
        color: ColorF::BLACK,
        blur_radius: 2.0,
    };
    let push = DisplayItem::PushTextShadow { base: root_base(), shadow: text_shadow };
    let pop = DisplayItem::PopAllTextShadows { base: root_base() };
    let list = list_of(vec![line, shadow, push, text(1), pop], two_roots());
    let (items, _, contentful) = lower(&list);
    assert!(contentful);
    assert_eq!(items.len(), 5);
    match items[0] {
        WrItem::Line(l) => {
            assert_eq!(l.area, rect(0.0, 9.0, 50.0, 1.0));
            assert_eq!(l.wavy_line_thickness, 1.5);
            assert_eq!(l.orientation, LineOrientation::Horizontal);
            assert_eq!(l.style, LineStyle::Wavy);
        },
        other => panic!("unexpected item {:?}", other),
    }
    match items[1] {
        WrItem::BoxShadow(s) => {
            assert_eq!(s.box_bounds, rect(0.0, 0.0, 10.0, 10.0));
            assert_eq!(s.offset, LayoutVector2D::new(1.0, 2.0));
            assert_eq!(s.blur_radius, 2.0);
            assert_eq!(s.spread_radius, 0.5);
            assert_eq!(s.border_radius, BorderRadius::uniform(3.0));
            assert_eq!(s.clip_mode, BoxShadowClipMode::Inset);
        },
        other => panic!("unexpected item {:?}", other),
    }
    match items[2] {
        WrItem::PushShadow(s) => {
            assert_eq!(s.shadow, text_shadow);
            assert!(s.should_inflate);
            assert_eq!(s.space_and_clip.spatial_id, SpatialId::root_scroll_node(pipeline()));
            assert_eq!(s.space_and_clip.clip_id, ClipId::root(pipeline()));
        },
        other => panic!("unexpected item {:?}", other),
    }
    assert!(matches!(items[3], WrItem::Text(_)));
    assert!(matches!(items[4], WrItem::PopAllShadows));
}

#[test]
fn iframe_is_lowered_with_its_pipeline() {
    let frame = DisplayItem::Iframe {
        base: root_base(),
        bounds: rect(5.0, 5.0, 20.0, 10.0),
        iframe: PipelineId(4, 4),
    };
    let (items, _, contentful) = lower(&list_of(vec![frame], two_roots()));
    assert!(!contentful);
    match items[0] {
        WrItem::Iframe(f) => {
            assert_eq!(f.bounds, rect(5.0, 5.0, 20.0, 10.0));
            assert_eq!(f.clip_rect, rect(0.0, 0.0, 100.0, 50.0));
            assert_eq!(f.pipeline_id, PipelineId(4, 4));
            assert!(f.ignore_missing_pipeline);
        },
        other => panic!("unexpected item {:?}", other),
    }
}

#[test]
fn filters_go_before_their_stacking_context() {
    let filters = vec![FilterOp::Blur(2.0), FilterOp::Sepia(0.5)];
    let context = DisplayItem::PushStackingContext {
        base: root_base(),
        stacking_context: StackingContext {
            bounds: au_rect(0, 0, 600, 600),
            transform: None,
            perspective: Some(LayoutTransform::create_perspective(50.0)),
            transform_style: TransformStyle::Preserve3D,
            mix_blend_mode: MixBlendMode::Multiply,
            filters: filters.clone(),
            established_reference_frame: Some(ClipScrollNodeIndex(2)),
        },
    };
    let nodes = vec![placeholder_node(), placeholder_node(), placeholder_node()];
    let out = seen_items(&list_of(vec![context, closing(true)], nodes));
    assert_eq!(out.len(), 4);
    match out[0].item {
        WrItem::PushReferenceFrame(f) => {
            assert_eq!(
                f.reference_frame.kind,
                ReferenceFrameKind::Perspective { scrolling_relative_to: None }
            );
            assert_eq!(f.reference_frame.transform_style, TransformStyle::Preserve3D);
        },
        other => panic!("unexpected item {:?}", other),
    }
    assert!(out[0].filters.is_empty());
    assert_eq!(out[1].filters, filters);
    match out[1].item {
        WrItem::PushStackingContext(s) => {
            assert_eq!(s.stacking_context.transform_style, TransformStyle::Preserve3D);
            assert_eq!(s.stacking_context.mix_blend_mode, MixBlendMode::Multiply);
            assert_eq!(s.stacking_context.raster_space, webrender_api::RasterSpace::Screen);
            assert!(!s.stacking_context.cache_tiles);
            assert!(!s.stacking_context.is_backdrop_root);
            assert_eq!(s.prim_flags, webrender_api::PrimitiveFlags::default());
        },
        other => panic!("unexpected item {:?}", other),
    }
}

#[test]
fn rounded_clip_carries_its_region() {
    let region = ComplexClipRegion::new(
        rect(1.0, 2.0, 10.0, 5.0),
        BorderRadius::uniform(2.0),
        ClipMode::Clip,
    );
    let mut node = clip_node(1);
    node.node_type = ClipScrollNodeType::Clip(ClipType::Rounded(region));
    let nodes = vec![placeholder_node(), placeholder_node(), node];
    let define = DisplayItem::DefineClipScrollNode {
        base: root_base(),
        node_index: ClipScrollNodeIndex(2),
    };
    let clipped = DisplayItem::Rectangle { base: base_at(1, Some(2), None), color: ColorF::BLACK };
    let out = seen_items(&list_of(vec![define, clipped], nodes));
    assert_eq!(out.len(), 2);
    assert_eq!(out[0].complex, vec![region]);
    let id = match out[0].item {
        WrItem::Clip(c) => c.id,
        other => panic!("unexpected item {:?}", other),
    };
    match out[1].item {
        WrItem::Rectangle(r) => {
            assert_eq!(r.common.clip_id, id);
            assert_eq!(r.common.spatial_id, SpatialId::root_scroll_node(pipeline()));
        },
        other => panic!("unexpected item {:?}", other),
    }
}

#[test]
fn sticky_frame_hangs_under_the_current_scroll_node() {
    let sticky = ClipScrollNode {
        parent_index: ClipScrollNodeIndex(1),
        clip: au_rect(0, 0, 600, 300),
        content_rect: au_rect(0, 0, 600, 300),
        node_type: ClipScrollNodeType::StickyFrame(StickyFrameData {
            margins: StickyMargins { top: Some(600), right: None, bottom: None, left: Some(-30) },
            vertical_offset_bounds: StickyOffsetBounds::new(0.0, 100.0),
            horizontal_offset_bounds: StickyOffsetBounds::new(-5.0, 5.0),
        }),
    };
    let nodes = vec![placeholder_node(), placeholder_node(), scroll_frame_node(1), sticky];
    let info = CompositorDisplayListInfo::new(viewport(), viewport(), pipeline(), Epoch(1));
    let mut state = ClipScrollState::new(4, info);
    let mut builder = DisplayListBuilder::new(pipeline(), LayoutSize::new(10.0, 10.0));
    let items = vec![
        DisplayItem::DefineClipScrollNode { base: root_base(), node_index: ClipScrollNodeIndex(2) },
        // Defined while items scroll with node 2, though its parent is node 1.
        DisplayItem::DefineClipScrollNode {
            base: base_at(2, None, None),
            node_index: ClipScrollNodeIndex(3),
        },
    ];
    let r = lower_items(&items, &nodes, &mut state, &mut builder);
    assert!(r.is_ok());
    let tree = &state.compositor_info.scroll_tree.nodes;
    assert_eq!(tree.len(), 4);
    assert_eq!(tree[3].parent.unwrap().index, 2);
    assert!(tree[3].scroll_info.is_none());
    assert_eq!(state.clip_id_at(3), Some(ClipId::root(pipeline())));
    let (_, _, built) = builder.finalize();
    let out = built_items(&built);
    match out[1] {
        WrItem::StickyFrame(f) => {
            assert_eq!(f.parent_spatial_id, SpatialId::root_scroll_node(pipeline()));
            assert_eq!(f.bounds, rect(0.0, 0.0, 10.0, 5.0));
            assert_eq!(f.margins.top, Some(10.0));
            assert_eq!(f.margins.right, None);
            assert_eq!(f.margins.bottom, None);
            assert_eq!(f.margins.left, Some(-0.5));
            assert_eq!(f.vertical_offset_bounds, StickyOffsetBounds::new(0.0, 100.0));
            assert_eq!(f.horizontal_offset_bounds, StickyOffsetBounds::new(-5.0, 5.0));
            assert_eq!(f.previously_applied_offset, LayoutVector2D::zero());
            assert_eq!(Some(f.id), state.scroll_node_id_at(3).map(|n| n.spatial_id));
        },
        other => panic!("unexpected item {:?}", other),
    }
}

#[test]
fn defined_entries_stay_defined() {
    let nodes = vec![placeholder_node(), placeholder_node(), clip_node(1), scroll_frame_node(2)];
    let info = CompositorDisplayListInfo::new(viewport(), viewport(), pipeline(), Epoch(1));
    let mut state = ClipScrollState::new(4, info);
    let mut builder = DisplayListBuilder::new(pipeline(), LayoutSize::new(10.0, 10.0));
    let items = vec![
        DisplayItem::DefineClipScrollNode { base: root_base(), node_index: ClipScrollNodeIndex(2) },
        DisplayItem::DefineClipScrollNode { base: root_base(), node_index: ClipScrollNodeIndex(3) },
        rectangle(),
    ];
    assert!(lower_items(&items, &nodes, &mut state, &mut builder).is_ok());
    for i in 0..4 {
        assert!(state.clip_id_at(i).is_some());
        assert!(state.scroll_node_id_at(i).is_some());
    }
    assert_eq!(state.clip_id_at(0), Some(ClipId::root(pipeline())));
    assert_eq!(state.scroll_node_id_at(1).unwrap().index, 1);
}

#[test]
fn well_ordered_list_is_lowered_without_a_test() {
    let nodes = vec![placeholder_node(), placeholder_node(), scroll_frame_node(1), clip_node(2)];
    let list = list_of(
        vec![
            DisplayItem::DefineClipScrollNode {
                base: root_base(),
                node_index: ClipScrollNodeIndex(2),
            },
            DisplayItem::DefineClipScrollNode {
                base: base_at(2, None, None),
                node_index: ClipScrollNodeIndex(3),
            },
            stacking_context(None, None, None),
            DisplayItem::Rectangle { base: base_at(2, Some(3), None), color: ColorF::BLACK },
            text(2),
            closing(false),
        ],
        nodes,
    );
    let (builder, info, contentful) = list.convert_to_webrender(pipeline(), viewport(), Epoch(1));
    assert!(contentful.0);
    assert_eq!(info.scroll_tree.nodes.len(), 3);
    let (_, _, built) = builder.finalize();
    let items = built_items(&built);
    assert_eq!(items.len(), 6);
    assert!(matches!(items[0], WrItem::ScrollFrame(_)));
    assert!(matches!(items[1], WrItem::Clip(_)));
    assert!(matches!(items[2], WrItem::PushStackingContext(_)));
    assert!(matches!(items[3], WrItem::Rectangle(_)));
    assert!(matches!(items[4], WrItem::Text(_)));
    assert!(matches!(items[5], WrItem::PopStackingContext));
}

#[test]
fn fault_of_an_item_is_told_before_it_is_lowered() {
    let info = CompositorDisplayListInfo::new(viewport(), viewport(), pipeline(), Epoch(1));
    let mut state = ClipScrollState::new(3, info);
    let mut builder = DisplayListBuilder::new(pipeline(), LayoutSize::new(10.0, 10.0));
    let nodes = vec![placeholder_node(), placeholder_node(), clip_node(2)];
    assert_eq!(rectangle().fault_in(&nodes, &state), None);
    let early = DisplayItem::Rectangle { base: base_at(2, None, None), color: ColorF::BLACK };
    assert_eq!(early.fault_in(&nodes, &state), Some(LoweringFault::ScrollNodeUsedBeforeDefined(2)));
    let define = DisplayItem::DefineClipScrollNode {
        base: root_base(),
        node_index: ClipScrollNodeIndex(2),
    };
    // The node's parent is the node itself, which is not defined yet.
    assert_eq!(define.fault_in(&nodes, &state), Some(LoweringFault::ScrollNodeUsedBeforeDefined(2)));
    let beyond = DisplayItem::DefineClipScrollNode {
        base: root_base(),
        node_index: ClipScrollNodeIndex(3),
    };
    assert_eq!(beyond.fault_in(&nodes, &state), Some(LoweringFault::NodeIndexOutOfRange(3)));
    let frame = stacking_context(Some(LayoutTransform::identity()), None, Some(5));
    assert_eq!(frame.fault_in(&nodes, &state), Some(LoweringFault::NodeIndexOutOfRange(5)));
    let contentful = rectangle().convert_to_webrender(&nodes, &mut state, &mut builder);
    assert!(!contentful.0);
    let contentful = text(1).convert_to_webrender(&nodes, &mut state, &mut builder);
    assert!(contentful.0);
    let (_, _, built) = builder.finalize();
    assert_eq!(built_items(&built).len(), 2);
}
