//! Layout geometry in app units, sixty to a CSS pixel, and its conversion to
//! the rasterizer's layout-space values.
//!
//! The library computes on whole app units, so that every result is exact.
//! A value crosses to the rasterizer through one of the conversions below;
//! the rasterizer's value is opaque and is named by the conversion's spec
//! function.

use app_units::Au;
use vstd::prelude::*;
use webrender_api::units::{LayoutPoint, LayoutRect, LayoutSideOffsets, LayoutSize, LayoutVector2D};

verus! {

/// App units in a CSS pixel.
pub const AU_PER_PX: i32 = 60;

/// The largest length, in app units.
pub const MAX_AU: i32 = 0x3fff_ffff;

/// The smallest length, in app units.
pub const MIN_AU: i32 = -0x3fff_ffff;

/// `v` brought into the range of lengths.
pub open spec fn clamp_au(v: int) -> int {
    if v < MIN_AU {
        MIN_AU as int
    } else if v > MAX_AU {
        MAX_AU as int
    } else {
        v
    }
}

/// Brings a wide intermediate result into the range of lengths.
pub fn clamp_to_au(v: i64) -> (r: i32)
    ensures
        r == clamp_au(v as int),
{
    if v < -0x3fff_ffff {
        MIN_AU
    } else if v > 0x3fff_ffff {
        MAX_AU
    } else {
        v as i32
    }
}

/// The sum of two lengths, kept in range.
pub fn au_add(a: i32, b: i32) -> (r: i32)
    ensures
        r == clamp_au(a + b),
{
    let wide: i64 = a as i64 + b as i64;
    clamp_to_au(wide)
}

/// The difference of two lengths, kept in range.
pub fn au_sub(a: i32, b: i32) -> (r: i32)
    ensures
        r == clamp_au(a - b),
{
    let wide: i64 = a as i64 - b as i64;
    clamp_to_au(wide)
}

/// A point, in app units.
#[derive(Clone, Copy, Debug, PartialEq, Eq, Structural)]
pub struct AuPoint {
    pub x: i32,
    pub y: i32,
}

/// A displacement, in app units.
#[derive(Clone, Copy, Debug, PartialEq, Eq, Structural)]
pub struct AuVector {
    pub x: i32,
    pub y: i32,
}

/// A size, in app units.
#[derive(Clone, Copy, Debug, PartialEq, Eq, Structural)]
pub struct AuSize {
    pub width: i32,
    pub height: i32,
}

/// A rectangle, in app units.
#[derive(Clone, Copy, Debug, PartialEq, Eq, Structural)]
pub struct AuRect {
    pub origin: AuPoint,
    pub size: AuSize,
}

/// Distances from the four sides of a box, in app units.
#[derive(Clone, Copy, Debug, PartialEq, Eq, Structural)]
pub struct AuSideOffsets {
    pub top: i32,
    pub right: i32,
    pub bottom: i32,
    pub left: i32,
}

impl AuPoint {
    /// The origin.
    pub fn zero() -> (p: AuPoint)
        ensures
            p == (AuPoint { x: 0, y: 0 }),
    {
        AuPoint { x: 0, y: 0 }
    }
}

impl AuVector {
    /// No displacement.
    pub fn zero() -> (v: AuVector)
        ensures
            v == (AuVector { x: 0, y: 0 }),
    {
        AuVector { x: 0, y: 0 }
    }
}

impl AuSize {
    /// What `self` exceeds `other` by, per axis.
    pub open spec fn minus(self, other: AuSize) -> AuSize {
        AuSize {
            width: clamp_au(self.width - other.width) as i32,
            height: clamp_au(self.height - other.height) as i32,
        }
    }

    /// What `self` exceeds `other` by, per axis, kept in range.
    pub fn sub(self, other: AuSize) -> (d: AuSize)
        ensures
            d == self.minus(other),
    {
        AuSize { width: au_sub(self.width, other.width), height: au_sub(self.height, other.height) }
    }
}

impl AuRect {
    /// The rectangle moved by the vector from the origin to `by`.
    pub open spec fn translated(self, by: AuPoint) -> AuRect {
        AuRect {
            origin: AuPoint {
                x: clamp_au(self.origin.x + by.x) as i32,
                y: clamp_au(self.origin.y + by.y) as i32,
            },
            size: self.size,
        }
    }

    /// Moves the rectangle by the vector from the origin to `by`.
    pub fn translate(self, by: AuPoint) -> (r: AuRect)
        ensures
            r == self.translated(by),
    {
        AuRect {
            origin: AuPoint { x: au_add(self.origin.x, by.x), y: au_add(self.origin.y, by.y) },
            size: self.size,
        }
    }

    /// The rectangle grown by `dx` on its left and right and by `dy` on its
    /// top and bottom.
    pub open spec fn inflated(self, dx: int, dy: int) -> AuRect {
        AuRect {
            origin: AuPoint {
                x: clamp_au(self.origin.x - dx) as i32,
                y: clamp_au(self.origin.y - dy) as i32,
            },
            size: AuSize {
                width: clamp_au(clamp_au(self.size.width + dx) + dx) as i32,
                height: clamp_au(clamp_au(self.size.height + dy) + dy) as i32,
            },
        }
    }

    /// Grows the rectangle by `dx` on its left and right and by `dy` on its
    /// top and bottom; negative amounts shrink it.
    pub fn inflate(self, dx: i32, dy: i32) -> (r: AuRect)
        ensures
            r == self.inflated(dx as int, dy as int),
    {
        AuRect {
            origin: AuPoint { x: au_sub(self.origin.x, dx), y: au_sub(self.origin.y, dy) },
            size: AuSize {
                width: au_add(au_add(self.size.width, dx), dx),
                height: au_add(au_add(self.size.height, dy), dy),
            },
        }
    }
}

impl AuSideOffsets {
    /// The same distance on all four sides.
    pub fn new_all_same(all: i32) -> (s: AuSideOffsets)
        ensures
            s == (AuSideOffsets { top: all, right: all, bottom: all, left: all }),
    {
        AuSideOffsets { top: all, right: all, bottom: all, left: all }
    }

    /// Whether all four distances are zero.
    pub fn is_zero(&self) -> (z: bool)
        ensures
            z == (*self == (AuSideOffsets { top: 0, right: 0, bottom: 0, left: 0 })),
    {
        self.top == 0 && self.right == 0 && self.bottom == 0 && self.left == 0
    }
}

/// The rasterizer's point for a point in app units.
pub uninterp spec fn layout_point_of(p: AuPoint) -> LayoutPoint;

/// The rasterizer's vector for a displacement in app units.
pub uninterp spec fn layout_vector_of(v: AuVector) -> LayoutVector2D;

/// The rasterizer's size for a size in app units.
pub uninterp spec fn layout_size_of(s: AuSize) -> LayoutSize;

/// The rasterizer's rectangle for a rectangle in app units.
pub uninterp spec fn layout_rect_of(r: AuRect) -> LayoutRect;

/// The rasterizer's side offsets for side offsets in app units.
pub uninterp spec fn layout_side_offsets_of(s: AuSideOffsets) -> LayoutSideOffsets;

/// `euclid::Point2D::new` on the two coordinates, each turned into CSS
/// pixels by `app_units::Au::to_f32_px`. The result depends on the
/// coordinates alone.
#[verifier::external_body]
pub(crate) fn layout_point(p: AuPoint) -> (out: LayoutPoint)
    ensures
        out == layout_point_of(p),
{
    LayoutPoint::new(Au(p.x).to_f32_px(), Au(p.y).to_f32_px())
}

/// `euclid::Vector2D::new` on the two components, each turned into CSS
/// pixels by `app_units::Au::to_f32_px`. The result depends on the
/// components alone.
#[verifier::external_body]
pub(crate) fn layout_vector(v: AuVector) -> (out: LayoutVector2D)
    ensures
        out == layout_vector_of(v),
{
    LayoutVector2D::new(Au(v.x).to_f32_px(), Au(v.y).to_f32_px())
}

/// `euclid::Size2D::new` on width and height, each turned into CSS pixels by
/// `app_units::Au::to_f32_px`. The result depends on the two lengths alone.
#[verifier::external_body]
pub(crate) fn layout_size(s: AuSize) -> (out: LayoutSize)
    ensures
        out == layout_size_of(s),
{
    LayoutSize::new(Au(s.width).to_f32_px(), Au(s.height).to_f32_px())
}

/// `euclid::Rect::new` on origin and size, each coordinate turned into CSS
/// pixels by `app_units::Au::to_f32_px`. The result depends on the four
/// lengths alone.
#[verifier::external_body]
pub(crate) fn layout_rect(r: AuRect) -> (out: LayoutRect)
    ensures
        out == layout_rect_of(r),
{
    LayoutRect::new(
        LayoutPoint::new(Au(r.origin.x).to_f32_px(), Au(r.origin.y).to_f32_px()),
        LayoutSize::new(Au(r.size.width).to_f32_px(), Au(r.size.height).to_f32_px()),
    )
}

/// `euclid::SideOffsets2D::new` on the four distances, each turned into CSS
/// pixels by `app_units::Au::to_f32_px`. The result depends on the four
/// lengths alone.
#[verifier::external_body]
pub(crate) fn layout_side_offsets(s: AuSideOffsets) -> (out: LayoutSideOffsets)
    ensures
        out == layout_side_offsets_of(s),
{
    LayoutSideOffsets::new(
        Au(s.top).to_f32_px(),
        Au(s.right).to_f32_px(),
        Au(s.bottom).to_f32_px(),
        Au(s.left).to_f32_px(),
    )
}

} // verus!
