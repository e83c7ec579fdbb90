//! Mouse position conversion: window-relative pixel coordinates become
//! normalized device coordinates with `x, y` in `[-1, 1]`, origin at the
//! window center and y pointing up. The conversion is kept exact as a
//! rational number: each axis is a numerator over the window extent, so
//! `x = x_num / width` and `y = y_num / height`.

use vstd::prelude::*;

verus! {

/// Pixel coordinates may not exceed this magnitude, so that doubling them
/// stays within `i64`.
pub const MAX_PIXEL_COORD: i64 = 0x1000_0000_0000_0000;

/// A normalized device coordinate pair held exactly: the value of the x axis
/// is `x_num / width`, the value of the y axis is `y_num / height`.
#[derive(Copy, Clone, Debug, PartialEq, Eq, Structural)]
pub struct NdcPos {
    pub x_num: i64,
    pub y_num: i64,
    pub width: u32,
    pub height: u32,
}

/// Numerator of the normalized x coordinate over denominator `w`:
/// `2 * px / w - 1` as the single fraction `(2 * px - w) / w`.
pub open spec fn ndc_x_num(px: int, w: int) -> int {
    2 * px - w
}

/// Numerator of the normalized y coordinate over denominator `h`: the screen
/// y axis points down, so the value is inverted, `(h - 2 * py) / h`.
pub open spec fn ndc_y_num(py: int, h: int) -> int {
    h - 2 * py
}

impl NdcPos {
    /// The origin of normalized device coordinates, used before any pointer
    /// event has arrived.
    pub fn center() -> (r: NdcPos)
        ensures
            r.x_num == 0,
            r.y_num == 0,
            r.width == 1,
            r.height == 1,
    {
        NdcPos { x_num: 0, y_num: 0, width: 1, height: 1 }
    }

    /// Converts a pointer position in physical pixels, relative to the
    /// window's top-left corner, into exact normalized device coordinates
    /// for a window of `width * height` physical pixels.
    pub fn from_pixels(px: i64, py: i64, width: u32, height: u32) -> (r: NdcPos)
        requires
            width > 0,
            height > 0,
            -MAX_PIXEL_COORD < px < MAX_PIXEL_COORD,
            -MAX_PIXEL_COORD < py < MAX_PIXEL_COORD,
        ensures
            r.x_num == ndc_x_num(px as int, width as int),
            r.y_num == ndc_y_num(py as int, height as int),
            r.width == width,
            r.height == height,
    {
        NdcPos {
            x_num: 2 * px - width as i64,
            y_num: height as i64 - 2 * py,
            width,
            height,
        }
    }
}

/// Reference points of the conversion for a window of even extent: the
/// window center maps to `(0, 0)`, the top-left corner to `(-1, 1)`, and
/// the bottom-right corner to `(1, -1)` — each stated as the numerator
/// equalling `0`, the negated denominator, or the denominator.
pub proof fn lemma_ndc_reference_points(w: u32, h: u32)
    requires
        w > 0,
        h > 0,
        w % 2 == 0,
        h % 2 == 0,
    ensures
        ndc_x_num(w as int / 2, w as int) == 0,
        ndc_y_num(h as int / 2, h as int) == 0,
        ndc_x_num(0, w as int) == -(w as int),
        ndc_y_num(0, h as int) == h as int,
        ndc_x_num(w as int, w as int) == w as int,
        ndc_y_num(h as int, h as int) == -(h as int),
{
    vstd::arithmetic::div_mod::lemma_fundamental_div_mod(w as int, 2);
    vstd::arithmetic::div_mod::lemma_fundamental_div_mod(h as int, 2);
}

} // verus!
