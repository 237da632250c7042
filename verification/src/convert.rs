//! Conversions of resolved style values into the rasterizer's values. The
//! rasterizer's value is opaque; each conversion names it by a spec function
//! of what went in.

use crate::geometry::AuPoint;
use crate::radii::CornerRadii;
use crate::style::{ComputedBorderStyle, ComputedImageRendering, DecorationLineStyle, Rgba};
use app_units::Au;
use vstd::prelude::*;
use webrender_api::units::{LayoutPoint, LayoutRect, LayoutSize};
use webrender_api::{
    AlphaType, BorderDetails, BorderRadius, BorderSide, ColorF, ComplexClipRegion, GlyphInstance,
    LineOrientation,
};

verus! {

/// The rasterizer's colour for a colour of four bytes.
pub uninterp spec fn color_of(c: Rgba) -> ColorF;

/// The rasterizer's border style for a border style.
pub uninterp spec fn border_style_of(s: ComputedBorderStyle) -> webrender_api::BorderStyle;

/// The rasterizer's border side of a colour and a style.
pub uninterp spec fn border_side_of(color: ColorF, style: webrender_api::BorderStyle) -> BorderSide;

/// The rasterizer's corner radii for corner radii in app units.
pub uninterp spec fn border_radius_of(r: CornerRadii) -> BorderRadius;

/// The rasterizer's description of a border of four sides, with its corner
/// radii and whether its corners are anti-aliased.
pub uninterp spec fn normal_border_of(
    top: BorderSide,
    right: BorderSide,
    bottom: BorderSide,
    left: BorderSide,
    radius: BorderRadius,
    do_aa: bool,
) -> BorderDetails;

/// Which side of a region a clip keeps.
#[derive(Clone, Copy, Debug, PartialEq, Eq, Structural)]
pub enum ClipSide {
    /// What lies inside the region is visible.
    Inside,
    /// What lies outside the region is visible.
    Outside,
}

/// The rasterizer's rounded rectangle that keeps one side of it.
pub uninterp spec fn rounded_clip_of(rect: LayoutRect, radii: BorderRadius, side: ClipSide) -> ComplexClipRegion;

/// The rasterizer's value for an `image-rendering`.
pub uninterp spec fn image_rendering_of(ir: ComputedImageRendering) -> webrender_api::ImageRendering;

/// The rasterizer's value for a line style.
pub uninterp spec fn line_style_of(l: DecorationLineStyle) -> webrender_api::LineStyle;

/// The rasterizer's glyph: a glyph index at a point.
pub uninterp spec fn glyph_of(index: u32, point: AuPoint) -> GlyphInstance;

/// The rasterizer's alpha type, premultiplied or not.
pub uninterp spec fn alpha_type_of(premultiplied: bool) -> AlphaType;

/// The rasterizer's line orientation, horizontal or vertical.
pub uninterp spec fn line_orientation_of(horizontal: bool) -> LineOrientation;

/// `ColorF::new` on the four channels, each turned into a fraction of one by
/// `cssparser::RGBA::red_f32` and its siblings. The result depends on the
/// four bytes alone.
#[verifier::external_body]
pub(crate) fn rgba(c: Rgba) -> (out: ColorF)
    ensures
        out == color_of(c),
{
    let rgba = cssparser::RGBA::new(c.red, c.green, c.blue, c.alpha);
    ColorF::new(rgba.red_f32(), rgba.green_f32(), rgba.blue_f32(), rgba.alpha_f32())
}

/// The variant of `webrender_api::BorderStyle` of the same name. The result
/// depends on the style alone.
#[verifier::external_body]
pub(crate) fn border_style(s: ComputedBorderStyle) -> (out: webrender_api::BorderStyle)
    ensures
        out == border_style_of(s),
{
    match s {
        ComputedBorderStyle::NoStyle => webrender_api::BorderStyle::None,
        ComputedBorderStyle::Solid => webrender_api::BorderStyle::Solid,
        ComputedBorderStyle::Double => webrender_api::BorderStyle::Double,
        ComputedBorderStyle::Dotted => webrender_api::BorderStyle::Dotted,
        ComputedBorderStyle::Dashed => webrender_api::BorderStyle::Dashed,
        ComputedBorderStyle::Hidden => webrender_api::BorderStyle::Hidden,
        ComputedBorderStyle::Groove => webrender_api::BorderStyle::Groove,
        ComputedBorderStyle::Ridge => webrender_api::BorderStyle::Ridge,
        ComputedBorderStyle::Inset => webrender_api::BorderStyle::Inset,
        ComputedBorderStyle::Outset => webrender_api::BorderStyle::Outset,
    }
}

/// The constructor of `webrender_api::BorderSide`, a pair of a colour and a
/// style.
#[verifier::external_body]
pub(crate) fn border_side(color: ColorF, style: webrender_api::BorderStyle) -> (out: BorderSide)
    ensures
        out == border_side_of(color, style),
{
    BorderSide { color, style }
}

/// The constructor of `webrender_api::BorderRadius`, with each of the eight
/// radii turned into CSS pixels by `app_units::Au::to_f32_px`. The result
/// depends on the eight lengths alone.
#[verifier::external_body]
pub(crate) fn border_radius(r: CornerRadii) -> (out: BorderRadius)
    ensures
        out == border_radius_of(r),
{
    let px = |v: i32| Au(v).to_f32_px();
    BorderRadius {
        top_left: LayoutSize::new(px(r.top_left.width), px(r.top_left.height)),
        top_right: LayoutSize::new(px(r.top_right.width), px(r.top_right.height)),
        bottom_left: LayoutSize::new(px(r.bottom_left.width), px(r.bottom_left.height)),
        bottom_right: LayoutSize::new(px(r.bottom_right.width), px(r.bottom_right.height)),
    }
}

/// The constructor of `webrender_api::BorderDetails::Normal` over a
/// `NormalBorder` of the four sides, the radii and the anti-aliasing flag.
#[verifier::external_body]
pub(crate) fn normal_border(
    top: BorderSide,
    right: BorderSide,
    bottom: BorderSide,
    left: BorderSide,
    radius: BorderRadius,
    do_aa: bool,
) -> (out: BorderDetails)
    ensures
        out == normal_border_of(top, right, bottom, left, radius, do_aa),
{
    BorderDetails::Normal(webrender_api::NormalBorder { top, right, bottom, left, radius, do_aa })
}

/// `ComplexClipRegion::new`, a triple of a rectangle, corner radii and the
/// side that is kept.
#[verifier::external_body]
pub(crate) fn rounded_clip(rect: LayoutRect, radii: BorderRadius, side: ClipSide) -> (out:
    ComplexClipRegion)
    ensures
        out == rounded_clip_of(rect, radii, side),
{
    let mode = match side {
        ClipSide::Inside => webrender_api::ClipMode::Clip,
        ClipSide::Outside => webrender_api::ClipMode::ClipOut,
    };
    ComplexClipRegion::new(rect, radii, mode)
}

/// The variant of `webrender_api::ImageRendering` of the same name. The
/// result depends on the value alone.
#[verifier::external_body]
pub(crate) fn image_rendering(ir: ComputedImageRendering) -> (out: webrender_api::ImageRendering)
    ensures
        out == image_rendering_of(ir),
{
    match ir {
        ComputedImageRendering::Auto => webrender_api::ImageRendering::Auto,
        ComputedImageRendering::CrispEdges => webrender_api::ImageRendering::CrispEdges,
        ComputedImageRendering::Pixelated => webrender_api::ImageRendering::Pixelated,
    }
}

/// The variant of `webrender_api::LineStyle` of the same name. The result
/// depends on the style alone.
#[verifier::external_body]
pub(crate) fn line_style(l: DecorationLineStyle) -> (out: webrender_api::LineStyle)
    ensures
        out == line_style_of(l),
{
    match l {
        DecorationLineStyle::Solid => webrender_api::LineStyle::Solid,
        DecorationLineStyle::Dotted => webrender_api::LineStyle::Dotted,
        DecorationLineStyle::Dashed => webrender_api::LineStyle::Dashed,
        DecorationLineStyle::Wavy => webrender_api::LineStyle::Wavy,
    }
}

/// The constructor of `webrender_api::GlyphInstance`, with the point turned
/// into CSS pixels by `app_units::Au::to_f32_px`. The result depends on the
/// index and the two coordinates alone.
#[verifier::external_body]
pub(crate) fn glyph_instance(index: u32, point: AuPoint) -> (out: GlyphInstance)
    ensures
        out == glyph_of(index, point),
{
    GlyphInstance {
        index,
        point: LayoutPoint::new(Au(point.x).to_f32_px(), Au(point.y).to_f32_px()),
    }
}

/// One of the two variants of `webrender_api::AlphaType`.
#[verifier::external_body]
pub(crate) fn alpha_type(premultiplied: bool) -> (out: AlphaType)
    ensures
        out == alpha_type_of(premultiplied),
{
    if premultiplied {
        AlphaType::PremultipliedAlpha
    } else {
        AlphaType::Alpha
    }
}

/// One of the two variants of `webrender_api::LineOrientation`.
#[verifier::external_body]
pub(crate) fn line_orientation(horizontal: bool) -> (out: LineOrientation)
    ensures
        out == line_orientation_of(horizontal),
{
    if horizontal {
        LineOrientation::Horizontal
    } else {
        LineOrientation::Vertical
    }
}

} // verus!
