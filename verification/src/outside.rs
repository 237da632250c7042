//! Declarations of the rasterizer's and the geometry crate's types that the
//! library carries through. Verus sees none of their fields: a value of one
//! of them is an opaque handle, equal only to itself.

use vstd::prelude::*;

verus! {

/// The unit tag of layout-space geometry.
#[verifier::external_type_specification]
#[verifier::external_body]
pub struct ExLayoutPixel(webrender_api::units::LayoutPixel);

/// A rectangle; in layout space, `webrender_api::units::LayoutRect`.
#[verifier::external_type_specification]
#[verifier::external_body]
#[verifier::reject_recursive_types(T)]
#[verifier::reject_recursive_types(U)]
pub struct ExRect<T, U>(euclid::Rect<T, U>);

/// A point; in layout space, `webrender_api::units::LayoutPoint`.
#[verifier::external_type_specification]
#[verifier::external_body]
#[verifier::reject_recursive_types(T)]
#[verifier::reject_recursive_types(U)]
pub struct ExPoint2D<T, U>(euclid::Point2D<T, U>);

/// A size; in layout space, `webrender_api::units::LayoutSize`.
#[verifier::external_type_specification]
#[verifier::external_body]
#[verifier::reject_recursive_types(T)]
#[verifier::reject_recursive_types(U)]
pub struct ExSize2D<T, U>(euclid::Size2D<T, U>);

/// A vector; in layout space, `webrender_api::units::LayoutVector2D`.
#[verifier::external_type_specification]
#[verifier::external_body]
#[verifier::reject_recursive_types(T)]
#[verifier::reject_recursive_types(U)]
pub struct ExVector2D<T, U>(euclid::Vector2D<T, U>);

/// Four side offsets; in layout space, `webrender_api::units::LayoutSideOffsets`.
#[verifier::external_type_specification]
#[verifier::external_body]
#[verifier::reject_recursive_types(T)]
#[verifier::reject_recursive_types(U)]
pub struct ExSideOffsets2D<T, U>(euclid::SideOffsets2D<T, U>);

/// A 4x4 matrix; in layout space, `webrender_api::units::LayoutTransform`.
#[verifier::external_type_specification]
#[verifier::external_body]
#[verifier::reject_recursive_types(T)]
#[verifier::reject_recursive_types(Src)]
#[verifier::reject_recursive_types(Dst)]
pub struct ExTransform3D<T, Src, Dst>(euclid::Transform3D<T, Src, Dst>);

/// The rasterizer's scene builder.
#[verifier::external_type_specification]
#[verifier::external_body]
pub struct ExDisplayListBuilder(webrender_api::DisplayListBuilder);

/// The rasterizer's handle for a clip.
#[verifier::external_type_specification]
#[verifier::external_body]
pub struct ExClipId(webrender_api::ClipId);

/// The rasterizer's handle for a coordinate space.
#[verifier::external_type_specification]
#[verifier::external_body]
pub struct ExSpatialId(webrender_api::SpatialId);

/// The rasterizer's name for one document's scene.
#[verifier::external_type_specification]
#[verifier::external_body]
pub struct ExPipelineId(webrender_api::PipelineId);

/// The rasterizer's frame counter.
#[verifier::external_type_specification]
#[verifier::external_body]
pub struct ExEpoch(webrender_api::Epoch);

/// The stable identity of a scroll frame across scenes.
#[verifier::external_type_specification]
#[verifier::external_body]
pub struct ExExternalScrollId(webrender_api::ExternalScrollId);

/// A colour with four components.
#[verifier::external_type_specification]
#[verifier::external_body]
pub struct ExColorF(webrender_api::ColorF);

/// A font at a size, known to the rasterizer.
#[verifier::external_type_specification]
#[verifier::external_body]
pub struct ExFontInstanceKey(webrender_api::FontInstanceKey);

/// Rendering options of a text run.
#[verifier::external_type_specification]
#[verifier::external_body]
pub struct ExGlyphOptions(webrender_api::GlyphOptions);

/// A glyph and the point where it is drawn.
#[verifier::external_type_specification]
#[verifier::external_body]
pub struct ExGlyphInstance(webrender_api::GlyphInstance);

/// An image known to the rasterizer.
#[verifier::external_type_specification]
#[verifier::external_body]
pub struct ExImageKey(webrender_api::ImageKey);

/// How an image is resampled.
#[verifier::external_type_specification]
#[verifier::external_body]
pub struct ExImageRendering(webrender_api::ImageRendering);

/// How an image's alpha channel is read.
#[verifier::external_type_specification]
#[verifier::external_body]
pub struct ExAlphaType(webrender_api::AlphaType);

/// A colour at an offset along a gradient.
#[verifier::external_type_specification]
#[verifier::external_body]
pub struct ExGradientStop(webrender_api::GradientStop);

/// A linear gradient.
#[verifier::external_type_specification]
#[verifier::external_body]
pub struct ExGradient(webrender_api::Gradient);

/// A radial gradient.
#[verifier::external_type_specification]
#[verifier::external_body]
pub struct ExRadialGradient(webrender_api::RadialGradient);

/// The sides and corners of a border.
#[verifier::external_type_specification]
#[verifier::external_body]
pub struct ExBorderDetails(webrender_api::BorderDetails);

/// The colour and style of one side of a border.
#[verifier::external_type_specification]
#[verifier::external_body]
pub struct ExBorderSide(webrender_api::BorderSide);

/// The style of one side of a border.
#[verifier::external_type_specification]
#[verifier::external_body]
pub struct ExBorderStyle(webrender_api::BorderStyle);

/// The radii of the four corners of a box.
#[verifier::external_type_specification]
#[verifier::external_body]
pub struct ExBorderRadius(webrender_api::BorderRadius);

/// Whether a box shadow falls inside or outside its box.
#[verifier::external_type_specification]
#[verifier::external_body]
pub struct ExBoxShadowClipMode(webrender_api::BoxShadowClipMode);

/// Whether a line runs across or down.
#[verifier::external_type_specification]
#[verifier::external_body]
pub struct ExLineOrientation(webrender_api::LineOrientation);

/// How a decoration line is drawn.
#[verifier::external_type_specification]
#[verifier::external_body]
pub struct ExLineStyle(webrender_api::LineStyle);

/// A shadow cast by the text that follows.
#[verifier::external_type_specification]
#[verifier::external_body]
pub struct ExShadow(webrender_api::Shadow);

/// One filter of a stacking context.
#[verifier::external_type_specification]
#[verifier::external_body]
pub struct ExFilterOp(webrender_api::FilterOp);

/// A rounded rectangle to clip to.
#[verifier::external_type_specification]
#[verifier::external_body]
pub struct ExComplexClipRegion(webrender_api::ComplexClipRegion);

/// The range by which a sticky frame may move along one axis.
#[verifier::external_type_specification]
#[verifier::external_body]
pub struct ExStickyOffsetBounds(webrender_api::StickyOffsetBounds);

/// Whether a stacking context flattens its children.
#[verifier::external_type_specification]
#[verifier::external_body]
pub struct ExTransformStyle(webrender_api::TransformStyle);

/// How a stacking context blends with what lies under it.
#[verifier::external_type_specification]
#[verifier::external_body]
pub struct ExMixBlendMode(webrender_api::MixBlendMode);

/// The hasher of `fnv`.
#[verifier::external_type_specification]
#[verifier::external_body]
pub struct ExFnvHasher(fnv::FnvHasher);

/// The hasher factory that `fnv::FnvHashMap` is built on.
#[verifier::external_type_specification]
#[verifier::external_body]
#[verifier::reject_recursive_types(H)]
pub struct ExBuildHasherDefault<H>(std::hash::BuildHasherDefault<H>);

/// A parsed media type.
#[verifier::external_type_specification]
#[verifier::external_body]
pub struct ExMime(mime::Mime);

/// Why a text is no media type.
#[verifier::external_type_specification]
#[verifier::external_body]
pub struct ExFromStrError(mime::FromStrError);

/// A cell that is filled at most once.
#[verifier::external_type_specification]
#[verifier::external_body]
#[verifier::reject_recursive_types(T)]
pub struct ExOnceCell<T>(mitochondria::OnceCell<T>);

} // verus!
