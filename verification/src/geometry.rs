//! Pixel positions, the injection space, and the scaling between them.
//!
//! Absolute pointer injection takes positions as fractions of the screen,
//! in steps of 1/65536 along each axis, whatever the resolution is. A pixel
//! coordinate `c` on an axis of `extent` pixels becomes
//! `c * 65536 / extent`, the quotient cut off towards zero.

use crate::error::MouseError;
use vstd::prelude::*;

verus! {

/// A pixel position as reported to callers: unsigned on both axes.
#[derive(Clone, Copy, Debug, PartialEq, Eq, Structural)]
pub struct Point {
    pub x: u32,
    pub y: u32,
}

impl Point {
    /// The position `(x, y)`.
    pub fn new(x: u32, y: u32) -> (p: Point)
        ensures
            p == (Point { x, y }),
    {
        Point { x, y }
    }
}

/// A pixel position on the primary display, origin at the top left.
#[derive(Clone, Copy, Debug, PartialEq, Eq, Structural)]
pub struct ScreenPoint {
    pub x: i32,
    pub y: i32,
}

/// The extent of the primary display in pixels, as the system reports it.
#[derive(Clone, Copy, Debug, PartialEq, Eq, Structural)]
pub struct ScreenSize {
    pub width: i32,
    pub height: i32,
}

impl ScreenSize {
    /// A display has at least one pixel on each axis.
    pub open spec fn is_valid(self) -> bool {
        self.width > 0 && self.height > 0
    }

    /// Whether `p` names a pixel of this display.
    pub open spec fn contains(self, p: ScreenPoint) -> bool {
        0 <= p.x < self.width && 0 <= p.y < self.height
    }
}

/// A position in the injection space: each axis is the fraction of the
/// screen extent, in steps of 1/65536.
#[derive(Clone, Copy, Debug, PartialEq, Eq, Structural)]
pub struct NormalizedPoint {
    pub nx: i32,
    pub ny: i32,
}

/// `coord * 65536 / extent`, the quotient cut off towards zero.
pub open spec fn scaled(coord: int, extent: int) -> int {
    if coord >= 0 {
        (coord * 65536) / extent
    } else {
        -(((-coord) * 65536) / extent)
    }
}

/// Whether `v` can be held in the 32-bit coordinate of an input event.
pub open spec fn fits_event(v: int) -> bool {
    i32::MIN <= v <= i32::MAX
}

/// What scaling one axis gives: the scaled coordinate, or the reason why
/// there is none.
pub open spec fn normalized(coord: i32, extent: i32) -> Result<i32, MouseError> {
    if extent <= 0 {
        Err(MouseError::InvalidScreen)
    } else if fits_event(scaled(coord as int, extent as int)) {
        Ok(scaled(coord as int, extent as int) as i32)
    } else {
        Err(MouseError::CoordinateOverflow)
    }
}

/// What scaling a pixel position gives. An unusable display is reported
/// before any overflow.
pub open spec fn normalized_point(p: ScreenPoint, screen: ScreenSize) -> Result<
    NormalizedPoint,
    MouseError,
> {
    if !screen.is_valid() {
        Err(MouseError::InvalidScreen)
    } else {
        match (normalized(p.x, screen.width), normalized(p.y, screen.height)) {
            (Ok(nx), Ok(ny)) => Ok(NormalizedPoint { nx, ny }),
            _ => Err(MouseError::CoordinateOverflow),
        }
    }
}

/// A coordinate inside the extent scales into `[0, 65536)`, and the scaled
/// value is the plain quotient `coord * 65536 / extent`.
pub proof fn lemma_scaled_on_screen(coord: int, extent: int)
    requires
        0 <= coord < extent,
    ensures
        scaled(coord, extent) == (coord * 65536) / extent,
        0 <= scaled(coord, extent) < 65536,
{
    assert(0 <= (coord * 65536) / extent < 65536) by (nonlinear_arith)
        requires
            0 <= coord < extent,
    ;
}

/// Scaling is monotone along an axis: a pixel further from the origin never
/// lands before a nearer one.
pub proof fn lemma_scaled_monotone(a: int, b: int, extent: int)
    requires
        extent > 0,
        a <= b,
    ensures
        scaled(a, extent) <= scaled(b, extent),
{
    if a >= 0 {
        lemma_quotient_monotone(a, b, extent);
    } else if b < 0 {
        lemma_quotient_monotone(-b, -a, extent);
    } else {
        lemma_quotient_monotone(0, -a, extent);
        lemma_quotient_monotone(0, b, extent);
    }
}

/// Scaling depends on the fraction of the screen alone: a screen `factor`
/// times as large, with the pixel `factor` times as far out, gives the same
/// point of the injection space.
pub proof fn lemma_scaled_resolution_independent(coord: int, extent: int, factor: int)
    requires
        extent > 0,
        factor > 0,
    ensures
        scaled(factor * coord, factor * extent) == scaled(coord, extent),
{
    if coord >= 0 {
        lemma_quotient_cancels(coord, extent, factor);
        assert(factor * coord >= 0) by (nonlinear_arith)
            requires
                factor > 0,
                coord >= 0,
        ;
    } else {
        lemma_quotient_cancels(-coord, extent, factor);
        assert(factor * coord < 0 && -(factor * coord) == factor * (-coord)) by (nonlinear_arith)
            requires
                factor > 0,
                coord < 0,
        ;
    }
}

proof fn lemma_quotient_cancels(p: int, extent: int, factor: int)
    requires
        extent > 0,
        factor > 0,
        p >= 0,
    ensures
        ((factor * p) * 65536) / (factor * extent) == (p * 65536) / extent,
{
    assert((factor * p) * 65536 == factor * (p * 65536)) by (nonlinear_arith);
    vstd::arithmetic::div_mod::lemma_div_multiples_vanish_quotient(factor, p * 65536, extent);
}

proof fn lemma_quotient_monotone(p: int, q: int, extent: int)
    by (nonlinear_arith)
    requires
        extent > 0,
        0 <= p <= q,
    ensures
        0 <= (p * 65536) / extent <= (q * 65536) / extent,
{
}

/// The two opposite corners of any display scale into `[0, 65536)`: the
/// origin to the origin, the last pixel to a point short of the upper end.
pub proof fn lemma_corners_in_range(screen: ScreenSize)
    requires
        screen.is_valid(),
    ensures
        normalized_point(ScreenPoint { x: 0, y: 0 }, screen) == Ok::<NormalizedPoint, MouseError>(
            NormalizedPoint { nx: 0, ny: 0 },
        ),
        normalized_point(
            ScreenPoint { x: (screen.width - 1) as i32, y: (screen.height - 1) as i32 },
            screen,
        ) matches Ok(n) && 0 <= n.nx < 65536 && 0 <= n.ny < 65536,
{
    lemma_scaled_on_screen(0, screen.width as int);
    lemma_scaled_on_screen(0, screen.height as int);
    lemma_scaled_on_screen(screen.width - 1, screen.width as int);
    lemma_scaled_on_screen(screen.height - 1, screen.height as int);
    assert((0int * 65536) / (screen.width as int) == 0) by (nonlinear_arith)
        requires
            screen.width > 0,
    ;
    assert((0int * 65536) / (screen.height as int) == 0) by (nonlinear_arith)
        requires
            screen.height > 0,
    ;
}

/// Every pixel of the display scales to a point of the injection space.
pub proof fn lemma_on_screen_in_range(p: ScreenPoint, screen: ScreenSize)
    requires
        screen.contains(p),
    ensures
        normalized_point(p, screen) matches Ok(n) && n.nx == (p.x * 65536) / (screen.width as int)
            && n.ny == (p.y * 65536) / (screen.height as int) && 0 <= n.nx < 65536 && 0 <= n.ny
            < 65536,
{
    lemma_scaled_on_screen(p.x as int, screen.width as int);
    lemma_scaled_on_screen(p.y as int, screen.height as int);
}

/// Scales one coordinate to the injection space.
///
/// The result is `coord * 65536 / extent` with the quotient cut off towards
/// zero. It is refused where `extent` is not positive, and where the
/// quotient does not fit an `i32`.
pub fn normalize(coord: i32, extent: i32) -> (r: Result<i32, MouseError>)
    ensures
        r == normalized(coord, extent),
        0 <= coord < extent ==> (r matches Ok(n) && n == (coord * 65536) / (extent as int) && 0
            <= n < 65536),
{
    if extent <= 0 {
        return Err(MouseError::InvalidScreen);
    }
    proof {
        if 0 <= coord < extent {
            lemma_scaled_on_screen(coord as int, extent as int);
        }
    }
    let divisor: u64 = extent as u64;
    if coord >= 0 {
        let quotient: u64 = (coord as u64 * 65536) / divisor;
        if quotient <= 0x7fff_ffff {
            Ok(quotient as i32)
        } else {
            Err(MouseError::CoordinateOverflow)
        }
    } else {
        let magnitude: u64 = (-(coord as i64)) as u64;
        let quotient: u64 = (magnitude * 65536) / divisor;
        if quotient <= 0x8000_0000 {
            Ok((-(quotient as i64)) as i32)
        } else {
            Err(MouseError::CoordinateOverflow)
        }
    }
}

/// Scales a pixel position to the injection space, each axis by its own
/// extent.
pub fn normalize_point(p: ScreenPoint, screen: ScreenSize) -> (r: Result<
    NormalizedPoint,
    MouseError,
>)
    ensures
        r == normalized_point(p, screen),
        screen.contains(p) ==> (r matches Ok(n) && 0 <= n.nx < 65536 && 0 <= n.ny < 65536),
{
    if screen.width <= 0 || screen.height <= 0 {
        return Err(MouseError::InvalidScreen);
    }
    let nx: i32 = match normalize(p.x, screen.width) {
        Ok(v) => v,
        Err(_) => { return Err(MouseError::CoordinateOverflow); },
    };
    let ny: i32 = match normalize(p.y, screen.height) {
        Ok(v) => v,
        Err(_) => { return Err(MouseError::CoordinateOverflow); },
    };
    Ok(NormalizedPoint { nx, ny })
}

} // verus!
