use display_list::box_builder::BuilderForBoxFragment;
use display_list::cursor::{cursor, Cursor, CursorKind};
use display_list::fragment_tree::StackingContextFragment;
use display_list::fragments::{
    BackgroundLayer, BorderSides, BoxFragment, BoxStyle, FontMetrics, Fragment, Glyph, GlyphRun,
    IFrameFragment, ImageFragment, LayerImage, LayerPlacement, Outline, ReplacedStyle,
    StackingContextSection, Tag, TextFragment, TextStyle, WebRenderImageInfo,
};
use display_list::geometry::{AuPoint, AuRect, AuSideOffsets, AuSize};
use display_list::painting::{
    glyphs, round_to_nearest_device_pixel, wavy_line_thickness, DevicePixelRatio, DisplayList,
};
use display_list::radii::{inner_radii, offset_radii, CornerRadii};
use display_list::style::{
    BackgroundClip, Color, ComputedBorderStyle, ComputedImageRendering, OutlineStyle,
    PointerEvents, Rgba, TextDecorationLine, TextDecorationStyle, Visibility,
};
use webrender_api::units::{LayoutPoint, LayoutRect, LayoutSideOffsets, LayoutSize};
use display_list::fragments::GradientKind;
use webrender_api::{
    BorderDetails, BorderStyle, ClipId, ColorF, DisplayItem as WrItem, Epoch, ExtendMode,
    FontInstanceKey, Gradient, GradientStop, IdNamespace, ImageKey, LineStyle, PipelineId,
    RadialGradient, SpatialId,
};

fn pipeline() -> PipelineId {
    PipelineId(1, 2)
}

fn size(width: i32, height: i32) -> AuSize {
    AuSize { width, height }
}

fn au_rect(x: i32, y: i32, w: i32, h: i32) -> AuRect {
    AuRect { origin: AuPoint { x, y }, size: size(w, h) }
}

fn rect(x: f32, y: f32, w: f32, h: f32) -> LayoutRect {
    LayoutRect::new(LayoutPoint::new(x, y), LayoutSize::new(w, h))
}

fn uniform(radius: i32) -> CornerRadii {
    CornerRadii {
        top_left: size(radius, radius),
        top_right: size(radius, radius),
        bottom_right: size(radius, radius),
        bottom_left: size(radius, radius),
    }
}

fn no_radii() -> CornerRadii {
    uniform(0)
}

fn ratio(numerator: u16, denominator: u16) -> DevicePixelRatio {
    DevicePixelRatio { numerator, denominator }
}

fn black() -> Rgba {
    Rgba { red: 0, green: 0, blue: 0, alpha: 255 }
}

fn transparent() -> Rgba {
    Rgba { red: 0, green: 0, blue: 0, alpha: 0 }
}

fn no_layer() -> BackgroundLayer {
    BackgroundLayer { image: LayerImage::NoImage, clip: BackgroundClip::BorderBox, placement: None }
}

fn plain_style() -> BoxStyle {
    BoxStyle {
        visibility: Visibility::Visible,
        pointer_events: PointerEvents::Auto,
        cursor: CursorKind::Auto,
        backface_visible: true,
        color: black(),
        background_color: Color::Numeric(transparent()),
        background_layers: vec![no_layer()],
        border_widths: AuSideOffsets { top: 0, right: 0, bottom: 0, left: 0 },
        border_sides: BorderSides {
            top_style: ComputedBorderStyle::Solid,
            top_color: Color::CurrentColor,
            right_style: ComputedBorderStyle::Dashed,
            right_color: Color::Numeric(Rgba { red: 255, green: 0, blue: 0, alpha: 255 }),
            bottom_style: ComputedBorderStyle::NoStyle,
            bottom_color: Color::CurrentColor,
            left_style: ComputedBorderStyle::Double,
            left_color: Color::CurrentColor,
        },
        border_radius: no_radii(),
        outline: Outline {
            width: 0,
            offset: 0,
            style: OutlineStyle::Auto,
            color: Color::CurrentColor,
        },
        image_rendering: ComputedImageRendering::Auto,
    }
}

fn plain_box(style: BoxStyle) -> BoxFragment {
    BoxFragment {
        tag: None,
        border_rect: au_rect(0, 0, 6000, 3000),
        padding_rect: au_rect(120, 120, 5760, 2760),
        content_rect: au_rect(240, 240, 5520, 2520),
        border: AuSideOffsets { top: 120, right: 120, bottom: 120, left: 120 },
        padding: AuSideOffsets { top: 120, right: 120, bottom: 120, left: 120 },
        style,
    }
}

fn new_list() -> DisplayList {
    DisplayList::new(size(60000, 36000), size(60000, 120000), pipeline(), Epoch(0))
}

fn at_root(fragment: Fragment, section: StackingContextSection) -> StackingContextFragment {
    let list = new_list();
    StackingContextFragment {
        scroll_node_id: list.compositor_info.root_scroll_node_id,
        clip_id: ClipId::root(pipeline()),
        section,
        containing_block: au_rect(600, 1200, 60000, 36000),
        fragment,
    }
}

fn content(fragment: Fragment) -> StackingContextFragment {
    at_root(fragment, StackingContextSection::Content)
}

struct Painted {
    items: Vec<WrItem>,
    list_info_hits: usize,
    contentful: bool,
    iframe_sizes: Vec<(u64, AuSize)>,
}

fn paint_with(fragments: Vec<StackingContextFragment>, dpr: DevicePixelRatio, canvas: u64) -> Painted {
    let mut list = new_list();
    let (sizes, contentful) = list.build(dpr, canvas, &fragments);
    let hits = list.compositor_info.hit_test_info.len();
    let (_, _, built) = list.wr.finalize();
    let mut items = Vec::new();
    let mut iter = built.iter();
    while let Some(item) = iter.next() {
        items.push(*item.item());
    }
    let mut iframe_sizes: Vec<(u64, AuSize)> = sizes.into_iter().collect();
    iframe_sizes.sort_by_key(|entry| entry.0);
    Painted { items, list_info_hits: hits, contentful, iframe_sizes }
}

fn paint(fragments: Vec<StackingContextFragment>) -> Painted {
    paint_with(fragments, ratio(1, 1), 9999)
}

#[test]
fn radii_that_fit_are_kept() {
    let radii = uniform(600);
    assert_eq!(radii.normalize(size(6000, 3000)), radii);
}

#[test]
fn overlapping_radii_are_scaled_by_the_least_ratio() {
    // Both vertical edges hold 2400 + 2400 in a height of 3000: f = 3000 / 4800.
    let radii = uniform(2400);
    assert_eq!(radii.normalize(size(6000, 3000)), uniform(1500));
    // The top edge holds 4000 + 4000 in a width of 6000: f = 6000 / 8000.
    let radii = CornerRadii {
        top_left: size(4000, 100),
        top_right: size(4000, 200),
        bottom_right: size(0, 0),
        bottom_left: size(10, 7),
    };
    assert_eq!(
        radii.normalize(size(6000, 3000)),
        CornerRadii {
            top_left: size(3000, 75),
            top_right: size(3000, 150),
            bottom_right: size(0, 0),
            bottom_left: size(7, 5),
        }
    );
}

#[test]
fn normalizing_twice_changes_nothing_more() {
    let cases = [
        (uniform(2400), size(6000, 3000)),
        (uniform(7), size(3, 5)),
        (
            CornerRadii {
                top_left: size(1001, 13),
                top_right: size(999, 17),
                bottom_right: size(5, 2999),
                bottom_left: size(1, 1),
            },
            size(1000, 1000),
        ),
        (uniform(10), size(0, 0)),
    ];
    for (radii, box_size) in cases {
        let once = radii.normalize(box_size);
        assert_eq!(once.normalize(box_size), once);
        assert!(once.top_left.width + once.top_right.width <= box_size.width);
        assert!(once.bottom_left.width + once.bottom_right.width <= box_size.width);
        assert!(once.top_left.height + once.bottom_left.height <= box_size.height);
        assert!(once.top_right.height + once.bottom_right.height <= box_size.height);
    }
}

#[test]
fn box_without_extent_has_no_radii() {
    assert_eq!(uniform(10).normalize(size(0, 0)), no_radii());
}

#[test]
fn inner_radii_never_go_negative() {
    let radii = uniform(100);
    let insets = AuSideOffsets { top: 30, right: 100, bottom: 250, left: 0 };
    assert_eq!(
        inner_radii(radii, insets),
        CornerRadii {
            top_left: size(100, 70),
            top_right: size(0, 70),
            bottom_right: size(0, 0),
            bottom_left: size(100, 0),
        }
    );
}

#[test]
fn negative_inset_counts_as_none() {
    let radii = uniform(100);
    let insets = AuSideOffsets { top: -30, right: -1, bottom: 0, left: -500 };
    assert_eq!(inner_radii(radii, insets), radii);
}

#[test]
fn outline_radii_keep_sharp_corners_sharp() {
    let radii = CornerRadii {
        top_left: size(100, 0),
        top_right: size(0, 0),
        bottom_right: size(40, 60),
        bottom_left: size(1, 1),
    };
    assert_eq!(
        offset_radii(radii, 25),
        CornerRadii {
            top_left: size(125, 0),
            top_right: size(0, 0),
            bottom_right: size(65, 85),
            bottom_left: size(26, 26),
        }
    );
    assert_eq!(offset_radii(radii, 0), radii);
    assert_eq!(
        offset_radii(radii, -50),
        CornerRadii {
            top_left: size(50, 0),
            top_right: size(0, 0),
            bottom_right: size(0, 10),
            bottom_left: size(0, 0),
        }
    );
}

#[test]
fn thin_line_is_rounded_up_to_one_device_pixel() {
    // 0.2 CSS px at two device pixels per CSS px: one device pixel, 0.5 CSS px.
    assert_eq!(round_to_nearest_device_pixel(12, ratio(2, 1)), 30);
    assert_eq!(round_to_nearest_device_pixel(0, ratio(2, 1)), 30);
    assert_eq!(round_to_nearest_device_pixel(-600, ratio(1, 1)), 60);
}

#[test]
fn line_thickness_is_rounded_to_the_nearest_device_pixel() {
    // 1.2 CSS px at ratio 1: 1 device pixel; 1.5 CSS px: 2 device pixels.
    assert_eq!(round_to_nearest_device_pixel(72, ratio(1, 1)), 60);
    assert_eq!(round_to_nearest_device_pixel(90, ratio(1, 1)), 120);
    // 1 CSS px at ratio 3 / 2: 1.5 device pixels round to 2, which are 80 app units.
    assert_eq!(round_to_nearest_device_pixel(60, ratio(3, 2)), 80);
    // 0.7 CSS px at ratio 2: 1.4 device pixels round to 1.
    assert_eq!(round_to_nearest_device_pixel(42, ratio(2, 1)), 30);
}

#[test]
fn wave_is_a_third_of_the_line_rounded_up_to_pixels() {
    assert_eq!(wavy_line_thickness(0), 0);
    assert_eq!(wavy_line_thickness(60), 60);
    assert_eq!(wavy_line_thickness(600), 240);
    assert_eq!(wavy_line_thickness(6000), 1980);
    assert_eq!(wavy_line_thickness(-600), -180);
}

fn glyph(id: u32, advance: i32) -> Glyph {
    Glyph { id, advance, offset: None }
}

#[test]
fn whitespace_advances_the_pen_without_glyphs() {
    let runs = vec![
        GlyphRun { glyphs: vec![glyph(1, 600), glyph(2, 300)], is_whitespace: false },
        GlyphRun { glyphs: vec![glyph(3, 240)], is_whitespace: true },
        GlyphRun {
            glyphs: vec![Glyph { id: 4, advance: 60, offset: Some(AuPoint { x: 30, y: -60 }) }],
            is_whitespace: false,
        },
    ];
    let placed = glyphs(&runs, AuPoint { x: 60, y: 1200 });
    assert_eq!(placed.len(), 3);
    assert_eq!(placed[0].index, 1);
    assert_eq!(placed[0].point, LayoutPoint::new(1.0, 20.0));
    assert_eq!(placed[1].index, 2);
    assert_eq!(placed[1].point, LayoutPoint::new(11.0, 20.0));
    assert_eq!(placed[2].index, 4);
    assert_eq!(placed[2].point, LayoutPoint::new(20.5, 19.0));
}

#[test]
fn cursor_keyword_names_its_cursor() {
    assert_eq!(cursor(CursorKind::Auto, Cursor::Text), Cursor::Text);
    assert_eq!(cursor(CursorKind::Auto, Cursor::Default), Cursor::Default);
    assert_eq!(cursor(CursorKind::Pointer, Cursor::Text), Cursor::Pointer);
    assert_eq!(cursor(CursorKind::NoCursor, Cursor::Text), Cursor::NoCursor);
    assert_eq!(cursor(CursorKind::ZoomOut, Cursor::Default), Cursor::ZoomOut);
    assert_eq!(cursor(CursorKind::NwseResize, Cursor::Default), Cursor::NwseResize);
}

fn text_fragment(lines: TextDecorationLine, style: TextDecorationStyle) -> TextFragment {
    TextFragment {
        tag: Some(Tag { node: 5 }),
        rect: au_rect(0, 0, 1200, 600),
        parent_style: TextStyle {
            visibility: Visibility::Visible,
            pointer_events: PointerEvents::Auto,
            cursor: CursorKind::Auto,
            backface_visible: true,
            color: Rgba { red: 0, green: 0, blue: 255, alpha: 255 },
            text_decoration_color: Color::CurrentColor,
            text_decoration_style: style,
        },
        font_metrics: FontMetrics {
            ascent: 480,
            underline_offset: -60,
            underline_size: 66,
            strikeout_offset: 180,
            strikeout_size: 12,
        },
        font_key: FontInstanceKey::new(IdNamespace(1), 1),
        glyphs: vec![GlyphRun { glyphs: vec![glyph(7, 600), glyph(8, 600)], is_whitespace: false }],
        text_decoration_line: lines,
    }
}

fn all_lines() -> TextDecorationLine {
    TextDecorationLine { underline: true, overline: true, line_through: true }
}

#[test]
fn text_is_painted_between_its_decorations() {
    let text = text_fragment(all_lines(), TextDecorationStyle::Wavy);
    let painted = paint_with(vec![content(Fragment::Text(text))], ratio(2, 1), 9999);
    assert!(painted.contentful);
    assert_eq!(painted.items.len(), 4);
    match painted.items[0] {
        WrItem::Line(underline) => {
            // Origin (10, 20); baseline 8 px lower, underline one more pixel lower;
            // 1.1 px at two device pixels per pixel: 2 device pixels, 1 px.
            assert_eq!(underline.area, rect(10.0, 29.0, 20.0, 1.0));
            assert_eq!(underline.common.clip_rect, underline.area);
            assert_eq!(underline.style, LineStyle::Wavy);
            assert_eq!(underline.wavy_line_thickness, 1.0);
            assert_eq!(underline.color, ColorF::new(0.0, 0.0, 1.0, 1.0));
            assert_eq!(underline.common.hit_info, None);
        },
        other => panic!("unexpected item {:?}", other),
    }
    match painted.items[1] {
        WrItem::Line(overline) => assert_eq!(overline.area, rect(10.0, 20.0, 20.0, 1.0)),
        other => panic!("unexpected item {:?}", other),
    }
    match painted.items[2] {
        WrItem::Text(run) => {
            assert_eq!(run.bounds, rect(10.0, 20.0, 20.0, 10.0));
            assert_eq!(run.color, ColorF::new(0.0, 0.0, 1.0, 1.0));
            assert_eq!(run.common.hit_info, Some((0, 0)));
            assert_eq!(run.common.spatial_id, SpatialId::root_scroll_node(pipeline()));
            assert_eq!(run.common.clip_id, ClipId::root(pipeline()));
        },
        other => panic!("unexpected item {:?}", other),
    }
    match painted.items[3] {
        WrItem::Line(through) => {
            // 0.2 px is rounded up to one device pixel, half a pixel.
            assert_eq!(through.area, rect(10.0, 25.0, 20.0, 0.5));
        },
        other => panic!("unexpected item {:?}", other),
    }
    assert_eq!(painted.list_info_hits, 1);
}

#[test]
fn suppressed_decoration_style_paints_no_line() {
    let text = text_fragment(all_lines(), TextDecorationStyle::MozNone);
    let painted = paint(vec![content(Fragment::Text(text))]);
    assert_eq!(painted.items.len(), 1);
    assert!(matches!(painted.items[0], WrItem::Text(_)));
}

#[test]
fn double_decoration_is_drawn_solid() {
    let lines = TextDecorationLine { underline: true, overline: false, line_through: false };
    let text = text_fragment(lines, TextDecorationStyle::Double);
    let painted = paint(vec![content(Fragment::Text(text))]);
    assert_eq!(painted.items.len(), 2);
    match painted.items[0] {
        WrItem::Line(line) => assert_eq!(line.style, LineStyle::Solid),
        other => panic!("unexpected item {:?}", other),
    }
}

#[test]
fn text_of_whitespace_paints_nothing_but_counts() {
    let mut text = text_fragment(all_lines(), TextDecorationStyle::Solid);
    text.glyphs = vec![GlyphRun { glyphs: vec![glyph(1, 100)], is_whitespace: true }];
    let painted = paint(vec![content(Fragment::Text(text))]);
    assert!(painted.items.is_empty());
    assert!(painted.contentful);
    assert_eq!(painted.list_info_hits, 0);
}

#[test]
fn hidden_fragments_paint_nothing() {
    let mut text = text_fragment(all_lines(), TextDecorationStyle::Solid);
    text.parent_style.visibility = Visibility::Hidden;
    let mut style = plain_style();
    style.visibility = Visibility::Collapse;
    style.background_color = Color::Numeric(black());
    let painted = paint(vec![
        content(Fragment::Text(text)),
        content(Fragment::Box(plain_box(style))),
        content(Fragment::Anonymous),
        content(Fragment::AbsoluteOrFixedPositioned),
    ]);
    assert!(painted.items.is_empty());
    assert!(!painted.contentful);
}

#[test]
fn background_is_painted_under_the_border() {
    let mut style = plain_style();
    style.background_color = Color::Numeric(Rgba { red: 0, green: 255, blue: 0, alpha: 128 });
    style.border_widths = AuSideOffsets { top: 60, right: 120, bottom: 0, left: 30 };
    let painted = paint(vec![content(Fragment::Box(plain_box(style)))]);
    assert!(!painted.contentful);
    assert_eq!(painted.items.len(), 2);
    match painted.items[0] {
        WrItem::Rectangle(fill) => {
            assert_eq!(fill.common.clip_rect, rect(10.0, 20.0, 100.0, 50.0));
            assert_eq!(fill.common.clip_id, ClipId::root(pipeline()));
            assert_eq!(fill.color, ColorF::new(0.0, 1.0, 0.0, 128.0 / 255.0));
        },
        other => panic!("unexpected item {:?}", other),
    }
    match painted.items[1] {
        WrItem::Border(border) => {
            assert_eq!(border.bounds, rect(10.0, 20.0, 100.0, 50.0));
            assert_eq!(border.widths, LayoutSideOffsets::new(1.0, 2.0, 0.0, 0.5));
            match border.details {
                BorderDetails::Normal(normal) => {
                    assert_eq!(normal.top.style, BorderStyle::Solid);
                    assert_eq!(normal.top.color, ColorF::new(0.0, 0.0, 0.0, 1.0));
                    assert_eq!(normal.right.style, BorderStyle::Dashed);
                    assert_eq!(normal.right.color, ColorF::new(1.0, 0.0, 0.0, 1.0));
                    assert_eq!(normal.bottom.style, BorderStyle::None);
                    assert_eq!(normal.left.style, BorderStyle::Double);
                    assert!(normal.radius.is_zero());
                    assert!(normal.do_aa);
                },
                other => panic!("unexpected border {:?}", other),
            }
        },
        other => panic!("unexpected item {:?}", other),
    }
}

#[test]
fn transparent_background_and_widthless_border_paint_nothing() {
    let painted = paint(vec![content(Fragment::Box(plain_box(plain_style())))]);
    assert!(painted.items.is_empty());
}

#[test]
fn rounded_box_defines_its_clip_once() {
    let mut style = plain_style();
    style.background_color = Color::Numeric(black());
    style.border_radius = uniform(2400);
    style.border_widths = AuSideOffsets { top: 60, right: 60, bottom: 60, left: 60 };
    let mut fragment = plain_box(style);
    fragment.tag = Some(Tag { node: 11 });
    let painted = paint(vec![content(Fragment::Box(fragment))]);
    assert_eq!(painted.items.len(), 4);
    let clip = match painted.items[0] {
        WrItem::Clip(clip) => {
            assert_eq!(clip.clip_rect, rect(10.0, 20.0, 100.0, 50.0));
            assert_eq!(clip.parent_space_and_clip.clip_id, ClipId::root(pipeline()));
            clip.id
        },
        other => panic!("unexpected item {:?}", other),
    };
    match painted.items[1] {
        WrItem::HitTest(hit) => {
            assert_eq!(hit.common.clip_id, clip);
            assert_eq!(hit.common.clip_rect, rect(10.0, 20.0, 100.0, 50.0));
            assert_eq!(hit.common.hit_info, Some((0, 0)));
        },
        other => panic!("unexpected item {:?}", other),
    }
    match painted.items[2] {
        WrItem::Rectangle(fill) => assert_eq!(fill.common.clip_id, clip),
        other => panic!("unexpected item {:?}", other),
    }
    match painted.items[3] {
        WrItem::Border(border) => match border.details {
            BorderDetails::Normal(normal) => {
                // 40 px radii in a box 50 px high are scaled by 50 / 80.
                assert_eq!(normal.radius.top_left, LayoutSize::new(25.0, 25.0));
                assert_eq!(normal.radius.bottom_right, LayoutSize::new(25.0, 25.0));
                assert_eq!(border.common.clip_id, ClipId::root(pipeline()));
            },
            other => panic!("unexpected border {:?}", other),
        },
        other => panic!("unexpected item {:?}", other),
    }
    assert_eq!(painted.list_info_hits, 1);
}

#[test]
fn box_without_pointer_events_gets_no_hit_test() {
    let mut style = plain_style();
    style.pointer_events = PointerEvents::NoEvents;
    let mut fragment = plain_box(style);
    fragment.tag = Some(Tag { node: 11 });
    let painted = paint(vec![content(Fragment::Box(fragment))]);
    assert!(painted.items.is_empty());
    assert_eq!(painted.list_info_hits, 0);
}

#[test]
fn canvas_background_element_paints_only_its_border() {
    let mut style = plain_style();
    style.background_color = Color::Numeric(black());
    style.border_widths = AuSideOffsets { top: 60, right: 60, bottom: 60, left: 60 };
    let mut fragment = plain_box(style);
    fragment.tag = Some(Tag { node: 11 });
    let painted = paint_with(vec![content(Fragment::Box(fragment))], ratio(1, 1), 11);
    assert_eq!(painted.items.len(), 1);
    assert!(matches!(painted.items[0], WrItem::Border(_)));
    assert_eq!(painted.list_info_hits, 0);
}

fn image_layer(key: u32, clip: BackgroundClip, repeat: bool) -> BackgroundLayer {
    BackgroundLayer {
        image: LayerImage::Url {
            image: Some(WebRenderImageInfo {
                width: 10,
                height: 10,
                key: Some(ImageKey::new(IdNamespace(1), key)),
            }),
        },
        clip,
        placement: Some(LayerPlacement {
            bounds: au_rect(600, 1200, 600, 600),
            tile_size: size(600, 600),
            tile_spacing: size(0, 60),
            repeat,
        }),
    }
}

fn image_key_of(item: &WrItem) -> u32 {
    match item {
        WrItem::Image(image) => image.image_key.1,
        WrItem::RepeatingImage(image) => image.image_key.1,
        other => panic!("unexpected item {:?}", other),
    }
}

#[test]
fn background_layers_are_painted_bottom_first() {
    let mut style = plain_style();
    // Authored top layer first: layer 2 on top, layer 0 at the bottom.
    style.background_layers = vec![
        image_layer(2, BackgroundClip::BorderBox, false),
        image_layer(1, BackgroundClip::BorderBox, true),
        image_layer(0, BackgroundClip::BorderBox, false),
    ];
    let mut fragment = plain_box(style);
    fragment.tag = Some(Tag { node: 11 });
    fragment.style.pointer_events = PointerEvents::NoEvents;
    let painted = paint(vec![content(Fragment::Box(fragment))]);
    assert!(!painted.contentful);
    assert_eq!(painted.items.len(), 3);
    assert_eq!(image_key_of(&painted.items[0]), 0);
    assert_eq!(image_key_of(&painted.items[1]), 1);
    assert_eq!(image_key_of(&painted.items[2]), 2);
    assert!(matches!(painted.items[0], WrItem::Image(_)));
    match painted.items[1] {
        WrItem::RepeatingImage(tiled) => {
            assert_eq!(tiled.bounds, rect(10.0, 20.0, 10.0, 10.0));
            assert_eq!(tiled.stretch_size, LayoutSize::new(10.0, 10.0));
            assert_eq!(tiled.tile_spacing, LayoutSize::new(0.0, 1.0));
            assert_eq!(tiled.color, ColorF::WHITE);
            assert_eq!(tiled.alpha_type, webrender_api::AlphaType::PremultipliedAlpha);
            assert_eq!(tiled.common.clip_rect, rect(10.0, 20.0, 100.0, 50.0));
        },
        other => panic!("unexpected item {:?}", other),
    }
}

#[test]
fn layers_that_cannot_paint_are_skipped() {
    let mut style = plain_style();
    let mut unloaded = image_layer(1, BackgroundClip::BorderBox, false);
    unloaded.image = LayerImage::Url {
        image: Some(WebRenderImageInfo { width: 1, height: 1, key: None }),
    };
    let mut unknown = image_layer(2, BackgroundClip::BorderBox, false);
    unknown.image = LayerImage::Url { image: None };
    let mut nowhere = image_layer(3, BackgroundClip::BorderBox, false);
    nowhere.placement = None;
    style.background_layers = vec![unloaded, unknown, nowhere, no_layer()];
    let mut fragment = plain_box(style);
    fragment.tag = Some(Tag { node: 11 });
    fragment.style.pointer_events = PointerEvents::NoEvents;
    let painted = paint(vec![content(Fragment::Box(fragment))]);
    assert!(painted.items.is_empty());

    let mut style = plain_style();
    style.background_layers = vec![image_layer(4, BackgroundClip::BorderBox, false)];
    let painted = paint(vec![content(Fragment::Box(plain_box(style)))]);
    assert!(painted.items.is_empty());
}

#[test]
fn background_colour_is_clipped_to_the_bottom_layer_box() {
    let mut style = plain_style();
    style.background_color = Color::Numeric(black());
    style.border_radius = uniform(300);
    style.background_layers = vec![
        BackgroundLayer {
            image: LayerImage::NoImage,
            clip: BackgroundClip::BorderBox,
            placement: None,
        },
        BackgroundLayer {
            image: LayerImage::NoImage,
            clip: BackgroundClip::ContentBox,
            placement: None,
        },
    ];
    let painted = paint(vec![content(Fragment::Box(plain_box(style)))]);
    assert_eq!(painted.items.len(), 2);
    let clip = match painted.items[0] {
        WrItem::Clip(clip) => {
            assert_eq!(clip.clip_rect, rect(14.0, 24.0, 92.0, 42.0));
            clip.id
        },
        other => panic!("unexpected item {:?}", other),
    };
    match painted.items[1] {
        WrItem::Rectangle(fill) => {
            assert_eq!(fill.common.clip_rect, rect(14.0, 24.0, 92.0, 42.0));
            assert_eq!(fill.common.clip_id, clip);
        },
        other => panic!("unexpected item {:?}", other),
    }
}

#[test]
fn outline_lies_around_the_border_edge() {
    let mut style = plain_style();
    style.background_color = Color::Numeric(black());
    style.border_radius = CornerRadii {
        top_left: size(300, 300),
        top_right: size(0, 0),
        bottom_right: size(0, 0),
        bottom_left: size(0, 0),
    };
    style.outline = Outline {
        width: 120,
        offset: 60,
        style: OutlineStyle::Auto,
        color: Color::Numeric(Rgba { red: 255, green: 255, blue: 0, alpha: 255 }),
    };
    let painted = paint(vec![at_root(
        Fragment::Box(plain_box(style)),
        StackingContextSection::Outline,
    )]);
    assert_eq!(painted.items.len(), 1);
    match painted.items[0] {
        WrItem::Border(outline) => {
            assert_eq!(outline.bounds, rect(7.0, 17.0, 106.0, 56.0));
            assert_eq!(outline.widths, LayoutSideOffsets::new_all_same(2.0));
            match outline.details {
                BorderDetails::Normal(normal) => {
                    assert_eq!(normal.top.style, BorderStyle::Solid);
                    assert_eq!(normal.left.color, ColorF::new(1.0, 1.0, 0.0, 1.0));
                    assert_eq!(normal.radius.top_left, LayoutSize::new(8.0, 8.0));
                    assert_eq!(normal.radius.top_right, LayoutSize::new(0.0, 0.0));
                },
                other => panic!("unexpected border {:?}", other),
            }
        },
        other => panic!("unexpected item {:?}", other),
    }
}

#[test]
fn outline_offset_cannot_invert_the_box() {
    let mut style = plain_style();
    style.outline = Outline {
        width: 60,
        offset: -60000,
        style: OutlineStyle::BorderStyle(ComputedBorderStyle::Dotted),
        color: Color::CurrentColor,
    };
    let painted = paint(vec![at_root(
        Fragment::Box(plain_box(style)),
        StackingContextSection::Outline,
    )]);
    match painted.items[0] {
        WrItem::Border(outline) => {
            // The offset is held at minus half the height, 25 px; the width adds 1 px.
            assert_eq!(outline.bounds, rect(34.0, 44.0, 52.0, 2.0));
            match outline.details {
                BorderDetails::Normal(normal) => assert_eq!(normal.top.style, BorderStyle::Dotted),
                other => panic!("unexpected border {:?}", other),
            }
        },
        other => panic!("unexpected item {:?}", other),
    }
}

#[test]
fn outline_without_width_paints_nothing() {
    let painted = paint(vec![at_root(
        Fragment::Box(plain_box(plain_style())),
        StackingContextSection::Outline,
    )]);
    assert!(painted.items.is_empty());
}

fn replaced_style() -> ReplacedStyle {
    ReplacedStyle {
        visibility: Visibility::Visible,
        backface_visible: true,
        image_rendering: ComputedImageRendering::Pixelated,
    }
}

#[test]
fn one_image_makes_the_scene_contentful() {
    let mut style = plain_style();
    style.background_color = Color::Numeric(black());
    let image = ImageFragment {
        rect: au_rect(60, 60, 600, 300),
        style: replaced_style(),
        image_key: ImageKey::new(IdNamespace(1), 77),
    };
    let painted = paint(vec![
        content(Fragment::Box(plain_box(style))),
        content(Fragment::Image(image)),
    ]);
    assert!(painted.contentful);
    assert_eq!(painted.items.len(), 2);
    match painted.items[1] {
        WrItem::Image(image) => {
            assert_eq!(image.bounds, rect(11.0, 21.0, 10.0, 5.0));
            assert_eq!(image.common.clip_rect, rect(11.0, 21.0, 10.0, 5.0));
            assert_eq!(image.image_rendering, webrender_api::ImageRendering::Pixelated);
            assert_eq!(image.alpha_type, webrender_api::AlphaType::PremultipliedAlpha);
            assert_eq!(image.image_key, ImageKey::new(IdNamespace(1), 77));
            assert_eq!(image.color, ColorF::WHITE);
        },
        other => panic!("unexpected item {:?}", other),
    }
}

#[test]
fn iframe_size_is_recorded() {
    let frame = IFrameFragment {
        rect: au_rect(0, 0, 1200, 600),
        style: replaced_style(),
        browsing_context_id: 31,
        pipeline_id: PipelineId(8, 9),
    };
    let painted = paint(vec![content(Fragment::IFrame(frame))]);
    assert!(!painted.contentful);
    assert_eq!(painted.iframe_sizes, vec![(31, size(1200, 600))]);
    match painted.items[0] {
        WrItem::Iframe(frame) => {
            assert_eq!(frame.bounds, rect(10.0, 20.0, 20.0, 10.0));
            assert_eq!(frame.clip_rect, rect(10.0, 20.0, 20.0, 10.0));
            assert_eq!(frame.pipeline_id, PipelineId(8, 9));
            assert!(frame.ignore_missing_pipeline);
        },
        other => panic!("unexpected item {:?}", other),
    }
}

#[test]
fn edge_rectangles_are_remembered() {
    let fragment = plain_box(plain_style());
    let containing_block = au_rect(600, 1200, 60000, 36000);
    let mut builder = BuilderForBoxFragment::new(&fragment, &containing_block);
    assert_eq!(builder.border_rect, au_rect(600, 1200, 6000, 3000));
    assert!(builder.padding_rect.as_ref().is_none());
    assert!(builder.border_edge_clip_id.as_ref().is_none());
    assert_eq!(builder.padding_rect(), au_rect(720, 1320, 5760, 2760));
    assert_eq!(builder.padding_rect.as_ref(), Some(&au_rect(720, 1320, 5760, 2760)));
    assert!(builder.content_rect.as_ref().is_none());
    assert_eq!(builder.content_rect(), au_rect(840, 1440, 5520, 2520));
    assert_eq!(builder.content_rect(), au_rect(840, 1440, 5520, 2520));
}

fn placement() -> LayerPlacement {
    LayerPlacement {
        bounds: au_rect(600, 1200, 1200, 600),
        tile_size: size(1200, 600),
        tile_spacing: size(0, 0),
        repeat: false,
    }
}

#[test]
fn gradient_layers_bring_their_stops() {
    let stops = vec![
        GradientStop { offset: 0.0, color: ColorF::BLACK },
        GradientStop { offset: 1.0, color: ColorF::WHITE },
    ];
    let linear = Gradient {
        start_point: LayoutPoint::new(0.0, 0.0),
        end_point: LayoutPoint::new(20.0, 0.0),
        extend_mode: ExtendMode::Clamp,
    };
    let radial = RadialGradient {
        center: LayoutPoint::new(10.0, 5.0),
        radius: LayoutSize::new(10.0, 5.0),
        start_offset: 0.0,
        end_offset: 1.0,
        extend_mode: ExtendMode::Clamp,
    };
    let mut style = plain_style();
    style.background_layers = vec![
        BackgroundLayer {
            image: LayerImage::Gradient { kind: GradientKind::Radial(radial), stops: vec![] },
            clip: BackgroundClip::PaddingBox,
            placement: Some(placement()),
        },
        BackgroundLayer {
            image: LayerImage::Gradient { kind: GradientKind::Linear(linear), stops: stops.clone() },
            clip: BackgroundClip::BorderBox,
            placement: Some(placement()),
        },
    ];
    let mut list = new_list();
    let fragments = vec![content(Fragment::Box(plain_box(style)))];
    let (_, contentful) = list.build(ratio(1, 1), 9999, &fragments);
    assert!(!contentful);
    let (_, _, built) = list.wr.finalize();
    let mut iter = built.iter();
    let first = iter.next().unwrap();
    let first_stops: Vec<GradientStop> = first.gradient_stops().iter().collect();
    assert_eq!(first_stops, stops);
    match *first.item() {
        WrItem::Gradient(g) => {
            assert_eq!(g.gradient, linear);
            assert_eq!(g.bounds, rect(10.0, 20.0, 20.0, 10.0));
            assert_eq!(g.tile_size, LayoutSize::new(20.0, 10.0));
            assert_eq!(g.tile_spacing, LayoutSize::new(0.0, 0.0));
            assert_eq!(g.common.clip_rect, rect(10.0, 20.0, 100.0, 50.0));
        },
        other => panic!("unexpected item {:?}", other),
    }
    let second = iter.next().unwrap();
    assert_eq!(second.gradient_stops().iter().count(), 0);
    match *second.item() {
        WrItem::RadialGradient(g) => {
            assert_eq!(g.gradient, radial);
            assert_eq!(g.common.clip_rect, rect(12.0, 22.0, 96.0, 46.0));
        },
        other => panic!("unexpected item {:?}", other),
    }
    assert!(iter.next().is_none());
}

#[test]
fn each_edge_gets_its_own_rounded_clip() {
    let mut style = plain_style();
    style.border_radius = uniform(600);
    style.background_layers = vec![
        image_layer(3, BackgroundClip::PaddingBox, false),
        image_layer(2, BackgroundClip::ContentBox, false),
        image_layer(1, BackgroundClip::PaddingBox, false),
    ];
    let mut fragment = plain_box(style);
    fragment.tag = Some(Tag { node: 11 });
    fragment.style.pointer_events = PointerEvents::NoEvents;
    let painted = paint(vec![content(Fragment::Box(fragment))]);
    // Padding clip, image 1, content clip, image 2, image 3 under the padding clip again.
    assert_eq!(painted.items.len(), 5);
    let padding = match painted.items[0] {
        WrItem::Clip(clip) => {
            assert_eq!(clip.clip_rect, rect(12.0, 22.0, 96.0, 46.0));
            clip.id
        },
        other => panic!("unexpected item {:?}", other),
    };
    let content_clip = match painted.items[2] {
        WrItem::Clip(clip) => {
            assert_eq!(clip.clip_rect, rect(14.0, 24.0, 92.0, 42.0));
            clip.id
        },
        other => panic!("unexpected item {:?}", other),
    };
    assert_ne!(padding, content_clip);
    match (painted.items[1], painted.items[3], painted.items[4]) {
        (WrItem::Image(a), WrItem::Image(b), WrItem::Image(c)) => {
            assert_eq!(a.image_key.1, 1);
            assert_eq!(a.common.clip_id, padding);
            assert_eq!(b.image_key.1, 2);
            assert_eq!(b.common.clip_id, content_clip);
            assert_eq!(c.image_key.1, 3);
            assert_eq!(c.common.clip_id, padding);
        },
        other => panic!("unexpected items {:?}", other),
    }
}

#[test]
fn rounded_clip_of_an_inner_edge_has_inset_radii() {
    let mut style = plain_style();
    style.border_radius = uniform(600);
    style.background_layers = vec![image_layer(1, BackgroundClip::ContentBox, false)];
    let mut fragment = plain_box(style);
    fragment.tag = Some(Tag { node: 11 });
    fragment.style.pointer_events = PointerEvents::NoEvents;
    let mut list = new_list();
    let fragments = vec![content(Fragment::Box(fragment))];
    list.build(ratio(1, 1), 9999, &fragments);
    let (_, _, built) = list.wr.finalize();
    let mut iter = built.iter();
    let clip = iter.next().unwrap();
    let regions: Vec<webrender_api::ComplexClipRegion> = clip.complex_clip().iter().collect();
    assert_eq!(regions.len(), 1);
    assert_eq!(regions[0].rect, rect(14.0, 24.0, 92.0, 42.0));
    // 10 px radii inset by 2 px of border and 2 px of padding.
    assert_eq!(regions[0].radii.top_left, LayoutSize::new(6.0, 6.0));
    assert_eq!(regions[0].radii.bottom_right, LayoutSize::new(6.0, 6.0));
    assert_eq!(regions[0].mode, webrender_api::ClipMode::Clip);
}

#[test]
fn fragments_are_painted_under_their_own_scroll_node_and_clip() {
    let mut list = new_list();
    let other_space = list.compositor_info.root_reference_frame_id;
    let mut style = plain_style();
    style.background_color = Color::Numeric(black());
    let mut first = content(Fragment::Box(plain_box(style)));
    first.scroll_node_id = other_space;
    first.clip_id = ClipId::Clip(77, pipeline());
    let mut style = plain_style();
    style.background_color = Color::Numeric(black());
    let second = content(Fragment::Box(plain_box(style)));
    let fragments = vec![first, second];
    list.build(ratio(1, 1), 9999, &fragments);
    let (_, _, built) = list.wr.finalize();
    let mut iter = built.iter();
    match *iter.next().unwrap().item() {
        WrItem::Rectangle(fill) => {
            assert_eq!(fill.common.spatial_id, SpatialId::root_reference_frame(pipeline()));
            assert_eq!(fill.common.clip_id, ClipId::Clip(77, pipeline()));
        },
        other => panic!("unexpected item {:?}", other),
    }
    match *iter.next().unwrap().item() {
        WrItem::Rectangle(fill) => {
            assert_eq!(fill.common.spatial_id, SpatialId::root_scroll_node(pipeline()));
            assert_eq!(fill.common.clip_id, ClipId::root(pipeline()));
        },
        other => panic!("unexpected item {:?}", other),
    }
}

#[test]
fn clip_of_an_edge_is_asked_for_once() {
    let mut style = plain_style();
    style.border_radius = uniform(600);
    let fragment = plain_box(style);
    let containing_block = au_rect(0, 0, 60000, 36000);
    let mut list = new_list();
    let state = display_list::painting::PaintState {
        current_scroll_node_id: list.compositor_info.root_scroll_node_id,
        current_clip_id: ClipId::root(pipeline()),
        element_for_canvas_background: 9999,
        device_pixel_ratio: ratio(1, 1),
        iframe_sizes: Default::default(),
        is_contentful: false,
    };
    let mut builder = BuilderForBoxFragment::new(&fragment, &containing_block);
    let first = builder.padding_edge_clip(&state, &mut list);
    assert!(first.is_some());
    assert_eq!(builder.padding_edge_clip_id.as_ref(), Some(&first));
    assert_eq!(builder.padding_edge_clip(&state, &mut list), first);
    let border = builder.border_edge_clip(&state, &mut list);
    assert!(border.is_some());
    assert_ne!(border, first);
    assert_eq!(builder.border_edge_clip(&state, &mut list), border);
    let (_, _, built) = list.wr.finalize();
    let mut count = 0;
    let mut iter = built.iter();
    while let Some(item) = iter.next() {
        assert!(matches!(*item.item(), WrItem::Clip(_)));
        count += 1;
    }
    assert_eq!(count, 2);

    // Sharp corners need no clip, and that answer is remembered too.
    let sharp = plain_box(plain_style());
    let mut list = new_list();
    let mut builder = BuilderForBoxFragment::new(&sharp, &containing_block);
    assert_eq!(builder.content_edge_clip(&state, &mut list), None);
    assert_eq!(builder.content_edge_clip_id.as_ref(), Some(&None));
    assert_eq!(builder.content_edge_clip(&state, &mut list), None);
}
