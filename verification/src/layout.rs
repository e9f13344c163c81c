//! The overlay geometry: a rectangle centered inside another by symmetric
//! margin splitting, used to place the popup over the panel content.

use vstd::prelude::*;
use vstd::arithmetic::div_mod::{lemma_fundamental_div_mod, lemma_mod_bound};
use vstd::arithmetic::mul::{lemma_mul_inequality, lemma_mul_nonnegative};

verus! {

/// A screen rectangle, in terminal cells.
#[derive(Clone, Copy, Debug, PartialEq, Eq, Structural)]
pub struct Rect {
    pub x: u16,
    pub y: u16,
    pub width: u16,
    pub height: u16,
}

impl Rect {
    /// A rectangle lies on the screen when neither edge coordinate
    /// overflows the cell grid.
    pub open spec fn wf(self) -> bool {
        &&& self.x + self.width <= u16::MAX
        &&& self.y + self.height <= u16::MAX
    }
}

/// The cells left on each side when the middle `percent` of `extent` cells
/// is kept: half of the remaining percentage, rounded down twice.
pub open spec fn side_margin_spec(extent: int, percent: int) -> int {
    (extent * ((100 - percent) / 2)) / 100
}

/// The rectangle covering the middle `percent_x` of `r`'s width and the
/// middle `percent_y` of its height, with equal margins on opposite sides.
pub open spec fn centered_rect_spec(percent_x: int, percent_y: int, r: Rect) -> Rect {
    let mx = side_margin_spec(r.width as int, percent_x);
    let my = side_margin_spec(r.height as int, percent_y);
    Rect {
        x: (r.x + mx) as u16,
        y: (r.y + my) as u16,
        width: (r.width - 2 * mx) as u16,
        height: (r.height - 2 * my) as u16,
    }
}

/// Twice a side margin never exceeds the extent it is cut from, so the
/// middle piece is never negative.
proof fn lemma_side_margin_bound(extent: int, percent: int)
    requires
        0 <= extent,
        0 <= percent <= 100,
    ensures
        0 <= side_margin_spec(extent, percent),
        2 * side_margin_spec(extent, percent) <= extent,
{
    let half = (100 - percent) / 2;
    assert(0 <= half <= 50);
    lemma_mul_nonnegative(extent, half);
    lemma_mul_inequality(half, 50, extent);
    lemma_fundamental_div_mod(extent * half, 100);
    lemma_mod_bound(extent * half, 100);
}

/// One side margin of the centered cut: the number of cells left over on
/// each side of the kept middle `percent` of `extent` cells.
fn side_margin(extent: u16, percent: u16) -> (m: u16)
    requires
        percent <= 100,
    ensures
        m == side_margin_spec(extent as int, percent as int),
        2 * m <= extent,
{
    proof {
        lemma_side_margin_bound(extent as int, percent as int);
        lemma_mul_inequality((((100 - percent) as u16) / 2) as int, 50, extent as int);
    }
    let half: u32 = (((100 - percent) / 2) as u32);
    let wide: u32 = (extent as u32) * half;
    (wide / 100) as u16
}

/// The centered rectangle the popup is drawn in: the middle `percent_x` of
/// `r`'s width and the middle `percent_y` of its height, cut by symmetric
/// margin splitting.
pub fn centered_rect(percent_x: u16, percent_y: u16, r: Rect) -> (res: Rect)
    requires
        percent_x <= 100,
        percent_y <= 100,
        r.wf(),
    ensures
        res == centered_rect_spec(percent_x as int, percent_y as int, r),
        r.x <= res.x,
        r.y <= res.y,
        res.x + res.width <= r.x + r.width,
        res.y + res.height <= r.y + r.height,
        res.x - r.x == (r.x + r.width) - (res.x + res.width),
        res.y - r.y == (r.y + r.height) - (res.y + res.height),
        res.wf(),
{
    let mx = side_margin(r.width, percent_x);
    let my = side_margin(r.height, percent_y);
    Rect { x: r.x + mx, y: r.y + my, width: r.width - 2 * mx, height: r.height - 2 * my }
}

} // verus!
