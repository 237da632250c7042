//! Corner radii of a box, in app units: the corner-overlap rule that scales
//! them to fit the box, and the radii of edges inside or outside the border
//! edge.

use crate::geometry::{au_add, au_sub, clamp_au, AuSideOffsets, AuSize, MAX_AU};
use vstd::prelude::*;

verus! {

/// The radii of the four corners of a box; each corner has a horizontal and
/// a vertical radius.
#[derive(Clone, Copy, Debug, PartialEq, Eq, Structural)]
pub struct CornerRadii {
    pub top_left: AuSize,
    pub top_right: AuSize,
    pub bottom_right: AuSize,
    pub bottom_left: AuSize,
}

/// A length that is neither negative nor beyond the largest length.
pub open spec fn is_extent(v: int) -> bool {
    0 <= v <= MAX_AU
}

/// A size of two extents.
pub open spec fn is_extent_size(s: AuSize) -> bool {
    is_extent(s.width as int) && is_extent(s.height as int)
}

/// The smaller of two ratios `l1 / s1` and `l2 / s2`, as a pair of numerator
/// and denominator. A ratio with denominator 0 is infinite, so the other one
/// is the smaller.
pub open spec fn min_ratio(r1: (int, int), r2: (int, int)) -> (int, int) {
    if r2.1 == 0 {
        r1
    } else if r1.1 == 0 {
        r2
    } else if r2.0 * r1.1 < r1.0 * r2.1 {
        r2
    } else {
        r1
    }
}

impl CornerRadii {
    /// All eight radii are extents.
    pub open spec fn wf(self) -> bool {
        &&& is_extent_size(self.top_left)
        &&& is_extent_size(self.top_right)
        &&& is_extent_size(self.bottom_right)
        &&& is_extent_size(self.bottom_left)
    }

    /// Whether all eight radii are zero.
    pub open spec fn all_zero(self) -> bool {
        self == (CornerRadii {
            top_left: AuSize { width: 0, height: 0 },
            top_right: AuSize { width: 0, height: 0 },
            bottom_right: AuSize { width: 0, height: 0 },
            bottom_left: AuSize { width: 0, height: 0 },
        })
    }

    /// The sum of the two radii along the top edge.
    pub open spec fn top_sum(self) -> int {
        self.top_left.width + self.top_right.width
    }

    /// The sum of the two radii along the bottom edge.
    pub open spec fn bottom_sum(self) -> int {
        self.bottom_left.width + self.bottom_right.width
    }

    /// The sum of the two radii along the left edge.
    pub open spec fn left_sum(self) -> int {
        self.top_left.height + self.bottom_left.height
    }

    /// The sum of the two radii along the right edge.
    pub open spec fn right_sum(self) -> int {
        self.top_right.height + self.bottom_right.height
    }

    /// Whether the radii along every edge fit into the edge.
    pub open spec fn fits(self, size: AuSize) -> bool {
        &&& self.top_sum() <= size.width
        &&& self.bottom_sum() <= size.width
        &&& self.left_sum() <= size.height
        &&& self.right_sum() <= size.height
    }

    /// The larger of the two sums of radii along the horizontal edges.
    pub open spec fn widest_sum(self) -> int {
        if self.top_sum() >= self.bottom_sum() {
            self.top_sum()
        } else {
            self.bottom_sum()
        }
    }

    /// The larger of the two sums of radii along the vertical edges.
    pub open spec fn tallest_sum(self) -> int {
        if self.left_sum() >= self.right_sum() {
            self.left_sum()
        } else {
            self.right_sum()
        }
    }

    /// The factor `f` of the corner-overlap rule, as numerator and
    /// denominator: the least, over the four edges, of the edge's length by
    /// the sum of its two radii. Of two edges of one length the one with the
    /// larger sum gives the smaller ratio. An edge without radii does not
    /// count; where no edge counts the denominator is 0.
    pub open spec fn overlap_factor(self, size: AuSize) -> (int, int) {
        min_ratio((size.width as int, self.widest_sum()), (size.height as int, self.tallest_sum()))
    }

    /// The radii scaled by `num / den`, each rounded down.
    pub open spec fn scaled(self, num: int, den: int) -> CornerRadii {
        CornerRadii {
            top_left: AuSize {
                width: (self.top_left.width * num / den) as i32,
                height: (self.top_left.height * num / den) as i32,
            },
            top_right: AuSize {
                width: (self.top_right.width * num / den) as i32,
                height: (self.top_right.height * num / den) as i32,
            },
            bottom_right: AuSize {
                width: (self.bottom_right.width * num / den) as i32,
                height: (self.bottom_right.height * num / den) as i32,
            },
            bottom_left: AuSize {
                width: (self.bottom_left.width * num / den) as i32,
                height: (self.bottom_left.height * num / den) as i32,
            },
        }
    }

    /// The radii after the corner-overlap rule: where the factor is below 1,
    /// all eight radii are multiplied by it; else they stay.
    pub open spec fn normalized(self, size: AuSize) -> CornerRadii {
        let f = self.overlap_factor(size);
        if f.1 != 0 && f.0 < f.1 {
            self.scaled(f.0, f.1)
        } else {
            self
        }
    }

    /// The radii of an edge that lies inside by `insets`: each radius less
    /// the inset on its side, and zero where the inset exceeds it. A negative
    /// inset counts as none.
    pub open spec fn inset_by(self, insets: AuSideOffsets) -> CornerRadii {
        CornerRadii {
            top_left: AuSize {
                width: less(self.top_left.width, insets.left),
                height: less(self.top_left.height, insets.top),
            },
            top_right: AuSize {
                width: less(self.top_right.width, insets.right),
                height: less(self.top_right.height, insets.top),
            },
            bottom_right: AuSize {
                width: less(self.bottom_right.width, insets.right),
                height: less(self.bottom_right.height, insets.bottom),
            },
            bottom_left: AuSize {
                width: less(self.bottom_left.width, insets.left),
                height: less(self.bottom_left.height, insets.bottom),
            },
        }
    }

    /// The radii of an edge that lies outside by `offset`, or inside where
    /// `offset` is negative. Outside, a corner that is sharp stays sharp.
    pub open spec fn offset_by(self, offset: int) -> CornerRadii {
        if offset == 0 {
            self
        } else if offset < 0 {
            self.inset_by(
                AuSideOffsets {
                    top: clamp_au(-offset) as i32,
                    right: clamp_au(-offset) as i32,
                    bottom: clamp_au(-offset) as i32,
                    left: clamp_au(-offset) as i32,
                },
            )
        } else {
            CornerRadii {
                top_left: AuSize {
                    width: more(self.top_left.width, offset),
                    height: more(self.top_left.height, offset),
                },
                top_right: AuSize {
                    width: more(self.top_right.width, offset),
                    height: more(self.top_right.height, offset),
                },
                bottom_right: AuSize {
                    width: more(self.bottom_right.width, offset),
                    height: more(self.bottom_right.height, offset),
                },
                bottom_left: AuSize {
                    width: more(self.bottom_left.width, offset),
                    height: more(self.bottom_left.height, offset),
                },
            }
        }
    }

    /// Whether all eight radii are zero.
    pub fn is_zero(&self) -> (z: bool)
        ensures
            z == self.all_zero(),
    {
        self.top_left.width == 0 && self.top_left.height == 0 && self.top_right.width == 0
            && self.top_right.height == 0 && self.bottom_right.width == 0
            && self.bottom_right.height == 0 && self.bottom_left.width == 0
            && self.bottom_left.height == 0
    }
}

/// A radius less an inset: never below zero, and untouched by a negative
/// inset.
pub open spec fn less(radius: i32, inset: i32) -> i32 {
    if inset <= 0 {
        if radius < 0 {
            0
        } else {
            radius
        }
    } else if radius - inset < 0 {
        0
    } else {
        (radius - inset) as i32
    }
}

/// A radius grown by a positive offset: a zero radius stays zero.
pub open spec fn more(radius: i32, offset: int) -> i32 {
    if radius > 0 {
        clamp_au(radius + offset) as i32
    } else {
        radius
    }
}


proof fn lemma_scale_bounds(r: int, num: int, den: int)
    requires
        0 <= r,
        0 <= num < den,
    ensures
        0 <= r * num / den <= r,
{
    assert(0 <= r * num) by (nonlinear_arith)
        requires
            0 <= r,
            0 <= num,
    ;
    assert(r * num <= r * den) by (nonlinear_arith)
        requires
            0 <= r,
            num < den,
    ;
    assert(0 <= r * num / den <= r) by (nonlinear_arith)
        requires
            0 <= r * num <= r * den,
            0 < den,
    ;
}

proof fn lemma_pair_fits(a: int, b: int, num: int, den: int, l: int)
    requires
        0 <= a,
        0 <= b,
        0 <= num,
        0 < den,
        (a + b) * num <= l * den,
    ensures
        a * num / den + b * num / den <= l,
{
    let x = a * num / den;
    let y = b * num / den;
    assert(x * den <= a * num) by (nonlinear_arith)
        requires
            x == a * num / den,
            0 < den,
    ;
    assert(y * den <= b * num) by (nonlinear_arith)
        requires
            y == b * num / den,
            0 < den,
    ;
    assert((x + y) * den <= l * den) by (nonlinear_arith)
        requires
            x * den <= a * num,
            y * den <= b * num,
            (a + b) * num <= l * den,
    ;
    assert(x + y <= l) by (nonlinear_arith)
        requires
            (x + y) * den <= l * den,
            0 < den,
    ;
}

proof fn lemma_edge_within(s: int, top: int, num: int, den: int, l: int, mid: int)
    requires
        0 <= s <= top,
        0 <= num,
        0 <= l,
        0 <= den,
        num * top <= mid,
        mid <= l * den,
    ensures
        s * num <= l * den,
{
    assert(s * num <= top * num) by (nonlinear_arith)
        requires
            0 <= s <= top,
            0 <= num,
    ;
    assert(top * num == num * top) by (nonlinear_arith);
}

/// The corner-overlap rule leaves radii that fit the box: along every edge
/// the two radii together are no longer than the edge.
pub proof fn normalized_fits(radii: CornerRadii, size: AuSize)
    requires
        radii.wf(),
        is_extent_size(size),
    ensures
        radii.normalized(size).wf(),
        radii.normalized(size).fits(size),
{
    let f = radii.overlap_factor(size);
    let w = size.width as int;
    let h = size.height as int;
    let sw = radii.widest_sum();
    let sh = radii.tallest_sum();
    if f.1 != 0 && f.0 < f.1 {
        let n = f.0;
        let d = f.1;
        let out = radii.scaled(n, d);
        lemma_scale_bounds(radii.top_left.width as int, n, d);
        lemma_scale_bounds(radii.top_left.height as int, n, d);
        lemma_scale_bounds(radii.top_right.width as int, n, d);
        lemma_scale_bounds(radii.top_right.height as int, n, d);
        lemma_scale_bounds(radii.bottom_right.width as int, n, d);
        lemma_scale_bounds(radii.bottom_right.height as int, n, d);
        lemma_scale_bounds(radii.bottom_left.width as int, n, d);
        lemma_scale_bounds(radii.bottom_left.height as int, n, d);
        // Each horizontal sum times the factor is within the width, each
        // vertical sum times the factor within the height.
        if f == (w, sw) {
            assert(n * sw == w * d) by (nonlinear_arith)
                requires
                    n == w,
                    d == sw,
            ;
            lemma_edge_within(radii.top_sum(), sw, n, d, w, n * sw);
            lemma_edge_within(radii.bottom_sum(), sw, n, d, w, n * sw);
            if sh != 0 {
                assert(n * sh <= h * d) by (nonlinear_arith)
                    requires
                        !(h * sw < w * sh),
                        n == w,
                        d == sw,
                ;
            } else {
                assert(n * sh <= h * d) by (nonlinear_arith)
                    requires
                        sh == 0,
                        0 <= h,
                        0 <= d,
                ;
            }
            lemma_edge_within(radii.left_sum(), sh, n, d, h, n * sh);
            lemma_edge_within(radii.right_sum(), sh, n, d, h, n * sh);
        } else {
            assert(f == (h, sh));
            assert(n * sh == h * d) by (nonlinear_arith)
                requires
                    n == h,
                    d == sh,
            ;
            lemma_edge_within(radii.left_sum(), sh, n, d, h, n * sh);
            lemma_edge_within(radii.right_sum(), sh, n, d, h, n * sh);
            if sw != 0 {
                assert(n * sw <= w * d) by (nonlinear_arith)
                    requires
                        h * sw < w * sh,
                        n == h,
                        d == sh,
                ;
            } else {
                assert(n * sw <= w * d) by (nonlinear_arith)
                    requires
                        sw == 0,
                        0 <= w,
                        0 <= d,
                ;
            }
            lemma_edge_within(radii.top_sum(), sw, n, d, w, n * sw);
            lemma_edge_within(radii.bottom_sum(), sw, n, d, w, n * sw);
        }
        lemma_pair_fits(radii.top_left.width as int, radii.top_right.width as int, n, d, w);
        lemma_pair_fits(radii.bottom_left.width as int, radii.bottom_right.width as int, n, d, w);
        lemma_pair_fits(radii.top_left.height as int, radii.bottom_left.height as int, n, d, h);
        lemma_pair_fits(radii.top_right.height as int, radii.bottom_right.height as int, n, d, h);
    } else {
        if sw != 0 && sh != 0 {
            if h * sw < w * sh {
                assert(w >= sw) by (nonlinear_arith)
                    requires
                        h * sw < w * sh,
                        h >= sh,
                        sh > 0,
                        sw > 0,
                        0 <= w,
                ;
            } else {
                assert(h >= sh) by (nonlinear_arith)
                    requires
                        h * sw >= w * sh,
                        w >= sw,
                        sh > 0,
                        sw > 0,
                        0 <= h,
                ;
            }
        }
    }
}

/// The factor of the corner-overlap rule is the least of the four edges'
/// ratios: no edge that has radii has a smaller ratio of length to sum, and
/// where any edge has radii the factor is the ratio of one of them.
pub proof fn overlap_factor_is_least(radii: CornerRadii, size: AuSize)
    requires
        radii.wf(),
        is_extent_size(size),
    ensures
        ({
            let f = radii.overlap_factor(size);
            let w = size.width as int;
            let h = size.height as int;
            &&& radii.top_sum() > 0 ==> f.1 > 0 && f.0 * radii.top_sum() <= w * f.1
            &&& radii.bottom_sum() > 0 ==> f.1 > 0 && f.0 * radii.bottom_sum() <= w * f.1
            &&& radii.left_sum() > 0 ==> f.1 > 0 && f.0 * radii.left_sum() <= h * f.1
            &&& radii.right_sum() > 0 ==> f.1 > 0 && f.0 * radii.right_sum() <= h * f.1
            &&& f.1 > 0 ==> {
                ||| f == (w, radii.top_sum())
                ||| f == (w, radii.bottom_sum())
                ||| f == (h, radii.left_sum())
                ||| f == (h, radii.right_sum())
            }
        }),
{
    let f = radii.overlap_factor(size);
    let w = size.width as int;
    let h = size.height as int;
    let sw = radii.widest_sum();
    let sh = radii.tallest_sum();
    if f.1 > 0 {
        if f == (w, sw) {
            lemma_edge_within(radii.top_sum(), sw, w, sw, w, w * sw);
            lemma_edge_within(radii.bottom_sum(), sw, w, sw, w, w * sw);
            if sh > 0 {
                assert(w * sh <= h * sw) by (nonlinear_arith)
                    requires
                        !(h * sw < w * sh),
                ;
                lemma_edge_within(radii.left_sum(), sh, w, sw, h, w * sh);
                lemma_edge_within(radii.right_sum(), sh, w, sw, h, w * sh);
            }
        } else {
            lemma_edge_within(radii.left_sum(), sh, h, sh, h, h * sh);
            lemma_edge_within(radii.right_sum(), sh, h, sh, h, h * sh);
            if sw > 0 {
                assert(h * sw <= w * sh) by (nonlinear_arith)
                    requires
                        h * sw < w * sh,
                ;
                lemma_edge_within(radii.top_sum(), sw, h, sh, w, h * sw);
                lemma_edge_within(radii.bottom_sum(), sw, h, sh, w, h * sw);
            }
        }
    }
}

/// The corner-overlap rule is idempotent: radii that it has scaled fit the
/// box, and radii that fit the box it leaves as they are.
pub proof fn normalize_is_idempotent(radii: CornerRadii, size: AuSize)
    requires
        radii.wf(),
        is_extent_size(size),
    ensures
        radii.normalized(size).normalized(size) == radii.normalized(size),
{
    normalized_fits(radii, size);
    fitting_radii_stay(radii.normalized(size), size);
}

/// Radii that fit the box are left as they are by the corner-overlap rule.
pub proof fn fitting_radii_stay(radii: CornerRadii, size: AuSize)
    requires
        radii.wf(),
        radii.fits(size),
    ensures
        radii.normalized(size) == radii,
{
}

impl CornerRadii {
    /// Applies the corner-overlap rule for a box of the given size.
    pub fn normalize(self, size: AuSize) -> (out: CornerRadii)
        requires
            self.wf(),
            is_extent_size(size),
        ensures
            out == self.normalized(size),
            out.wf(),
            out.fits(size),
    {
        proof {
            normalized_fits(self, size);
        }
        let top: i64 = self.top_left.width as i64 + self.top_right.width as i64;
        let bottom: i64 = self.bottom_left.width as i64 + self.bottom_right.width as i64;
        let left: i64 = self.top_left.height as i64 + self.bottom_left.height as i64;
        let right: i64 = self.top_right.height as i64 + self.bottom_right.height as i64;
        let sw: i64 = if top >= bottom {
            top
        } else {
            bottom
        };
        let sh: i64 = if left >= right {
            left
        } else {
            right
        };
        let w: i64 = size.width as i64;
        let h: i64 = size.height as i64;
        let mut num: i64 = w;
        let mut den: i64 = sw;
        if sh != 0 {
            if sw == 0 {
                num = h;
                den = sh;
            } else {
                assert(h * sw <= 0x3fff_ffff * 0x7fff_fffe && w * sh <= 0x3fff_ffff * 0x7fff_fffe
                    && 0 <= h * sw && 0 <= w * sh) by (nonlinear_arith)
                    requires
                        0 <= h <= 0x3fff_ffff,
                        0 <= w <= 0x3fff_ffff,
                        0 <= sw <= 0x7fff_fffe,
                        0 <= sh <= 0x7fff_fffe,
                ;
                if h * sw < w * sh {
                    num = h;
                    den = sh;
                }
            }
        }
        assert((num as int, den as int) == self.overlap_factor(size));
        if den != 0 && num < den {
            CornerRadii {
                top_left: AuSize {
                    width: scale(self.top_left.width, num, den),
                    height: scale(self.top_left.height, num, den),
                },
                top_right: AuSize {
                    width: scale(self.top_right.width, num, den),
                    height: scale(self.top_right.height, num, den),
                },
                bottom_right: AuSize {
                    width: scale(self.bottom_right.width, num, den),
                    height: scale(self.bottom_right.height, num, den),
                },
                bottom_left: AuSize {
                    width: scale(self.bottom_left.width, num, den),
                    height: scale(self.bottom_left.height, num, den),
                },
            }
        } else {
            self
        }
    }
}

/// A radius scaled by `num / den`, rounded down.
fn scale(radius: i32, num: i64, den: i64) -> (out: i32)
    requires
        is_extent(radius as int),
        0 <= num < den,
        num <= MAX_AU,
    ensures
        out == radius * num / (den as int),
{
    proof {
        lemma_scale_bounds(radius as int, num as int, den as int);
        assert(0 <= radius * num <= 0x3fff_ffff * 0x3fff_ffff) by (nonlinear_arith)
            requires
                0 <= radius <= 0x3fff_ffff,
                0 <= num <= 0x3fff_ffff,
        ;
    }
    let wide: i64 = radius as i64 * num / den;
    wide as i32
}

fn less_by(radius: i32, inset: i32) -> (out: i32)
    ensures
        out == less(radius, inset),
{
    if inset <= 0 {
        if radius < 0 {
            0
        } else {
            radius
        }
    } else {
        let wide: i64 = radius as i64 - inset as i64;
        if wide < 0 {
            0
        } else {
            wide as i32
        }
    }
}

fn more_by(radius: i32, offset: i32) -> (out: i32)
    requires
        offset > 0,
    ensures
        out == more(radius, offset as int),
{
    if radius > 0 {
        au_add(radius, offset)
    } else {
        radius
    }
}

/// The radii of the padding edge or the content edge: the radii of the
/// border edge, each less the inset on its side and never below zero.
pub fn inner_radii(radii: CornerRadii, insets: AuSideOffsets) -> (out: CornerRadii)
    ensures
        out == radii.inset_by(insets),
{
    CornerRadii {
        top_left: AuSize {
            width: less_by(radii.top_left.width, insets.left),
            height: less_by(radii.top_left.height, insets.top),
        },
        top_right: AuSize {
            width: less_by(radii.top_right.width, insets.right),
            height: less_by(radii.top_right.height, insets.top),
        },
        bottom_right: AuSize {
            width: less_by(radii.bottom_right.width, insets.right),
            height: less_by(radii.bottom_right.height, insets.bottom),
        },
        bottom_left: AuSize {
            width: less_by(radii.bottom_left.width, insets.left),
            height: less_by(radii.bottom_left.height, insets.bottom),
        },
    }
}

/// The radii of an edge at a distance from the border edge: outside for a
/// positive offset, where sharp corners stay sharp, inside for a negative one.
pub fn offset_radii(radii: CornerRadii, offset: i32) -> (out: CornerRadii)
    ensures
        out == radii.offset_by(offset as int),
{
    if offset == 0 {
        return radii;
    }
    if offset < 0 {
        let inset = au_sub(0, offset);
        return inner_radii(radii, AuSideOffsets::new_all_same(inset));
    }
    CornerRadii {
        top_left: AuSize {
            width: more_by(radii.top_left.width, offset),
            height: more_by(radii.top_left.height, offset),
        },
        top_right: AuSize {
            width: more_by(radii.top_right.width, offset),
            height: more_by(radii.top_right.height, offset),
        },
        bottom_right: AuSize {
            width: more_by(radii.bottom_right.width, offset),
            height: more_by(radii.bottom_right.height, offset),
        },
        bottom_left: AuSize {
            width: more_by(radii.bottom_left.width, offset),
            height: more_by(radii.bottom_left.height, offset),
        },
    }
}

} // verus!
