//! Integer geometry for resolution-relative layout.
//!
//! The backend works in pixels with fractional positions; this crate keeps all
//! layout arithmetic exact by working in fixed-point units:
//!
//! * an [`Anchor`] coordinate is a fraction of the surface, in thousandths
//!   (`500` means half the surface width or height);
//! * a [`Position`] or [`Extent`] coordinate is in milli-pixels
//!   (one thousandth of a pixel);
//! * an [`Origin`] coordinate is in *half* milli-pixels, so that the exact
//!   center of an extent of odd width is still representable.
//!
//! The units compose: an anchor fraction in thousandths times a surface
//! dimension in pixels lands directly in milli-pixels, with no division and
//! no rounding anywhere in the layout path.

use vstd::prelude::*;

verus! {

/// The intended position of an element, as a fraction of the surface size in
/// thousandths: `x = 500` anchors the element's center at half the surface
/// width. The intended range of each coordinate is `0 ..= 1000`, but this is
/// deliberately not enforced: an anchor slightly outside the surface simply
/// places the element partly or wholly off screen.
#[derive(Clone, Copy, PartialEq, Eq, Structural, Debug)]
pub struct Anchor {
    pub x: u32,
    pub y: u32,
}

/// An absolute position on the surface, in milli-pixels.
#[derive(Clone, Copy, PartialEq, Eq, Structural, Debug)]
pub struct Position {
    pub x: u64,
    pub y: u64,
}

/// The size of an element's axis-aligned bounding box, in milli-pixels.
#[derive(Clone, Copy, PartialEq, Eq, Structural, Debug)]
pub struct Extent {
    pub width: u64,
    pub height: u64,
}

/// A drawable's local origin offset from its top-left corner, in half
/// milli-pixels: `x2` is twice the offset in milli-pixels. Keeping the doubled
/// value means the exact center `width / 2` of any extent is representable.
#[derive(Clone, Copy, PartialEq, Eq, Structural, Debug)]
pub struct Origin {
    pub x2: u64,
    pub y2: u64,
}

/// The absolute x coordinate, in milli-pixels, of an anchor fraction `ax`
/// (in thousandths) on a surface `w` pixels wide.
pub open spec fn abs_coord(a: int, s: int) -> int {
    a * s
}

/// The position a resolution-relative anchor denotes on a surface of the
/// given pixel size.
pub open spec fn layout_position(a: Anchor, surface: (u32, u32)) -> (int, int) {
    (abs_coord(a.x as int, surface.0 as int), abs_coord(a.y as int, surface.1 as int))
}

impl Anchor {
    /// Builds an anchor from fractions of the surface in thousandths.
    pub fn new(x: u32, y: u32) -> (r: Anchor)
        ensures
            r == (Anchor { x, y }),
    {
        Anchor { x, y }
    }

    /// Computes the absolute position this anchor denotes on a surface of
    /// `surface.0` by `surface.1` pixels, in milli-pixels: exactly the anchor
    /// fraction times the surface dimension.
    pub fn resolve(&self, surface: (u32, u32)) -> (r: Position)
        ensures
            (r.x as int, r.y as int) == layout_position(*self, surface),
    {
        proof {
            lemma_u32_product_fits(self.x, surface.0);
            lemma_u32_product_fits(self.y, surface.1);
        }
        Position { x: (self.x as u64) * (surface.0 as u64), y: (self.y as u64) * (surface.1 as u64) }
    }
}

/// The product of two `u32` values always fits in a `u64`.
proof fn lemma_u32_product_fits(a: u32, b: u32)
    ensures
        a as int * b as int <= u64::MAX,
{
    assert(a as int * b as int <= 0xffff_ffff * 0xffff_ffff) by (nonlinear_arith)
        requires
            a <= 0xffff_ffff,
            b <= 0xffff_ffff,
    ;
}

/// An absolute coordinate computed from `u32` inputs is nonnegative and fits
/// in a `u64`.
pub proof fn lemma_abs_coord_bounds(a: u32, s: u32)
    ensures
        0 <= abs_coord(a as int, s as int) <= u64::MAX,
{
    assert(0 <= a as int * s as int <= 0xffff_ffff * 0xffff_ffff) by (nonlinear_arith)
        requires
            0 <= a <= 0xffff_ffff,
            0 <= s <= 0xffff_ffff,
    ;
}

/// Relative layout is resolution invariant: doubling both surface dimensions
/// exactly doubles both absolute coordinates of any anchor.
pub proof fn lemma_layout_scales_with_resolution(a: Anchor, surface: (u32, u32), doubled: (u32, u32))
    requires
        doubled.0 == 2 * surface.0,
        doubled.1 == 2 * surface.1,
    ensures
        layout_position(a, doubled).0 == 2 * layout_position(a, surface).0,
        layout_position(a, doubled).1 == 2 * layout_position(a, surface).1,
{
    assert(a.x as int * (2 * surface.0 as int) == 2 * (a.x as int * surface.0 as int))
        by (nonlinear_arith);
    assert(a.y as int * (2 * surface.1 as int) == 2 * (a.y as int * surface.1 as int))
        by (nonlinear_arith);
}

} // verus!
