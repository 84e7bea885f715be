//! Distances on the cell grid, in thousandths of a cell's width. A cell is
//! 2.1 times as tall as it is wide, so offsets along the column are widened by
//! that ratio before a distance is taken.

use vstd::prelude::*;

verus! {

/// The region of the display that the dial is drawn in, in cells.
#[derive(Clone, Copy, Debug, PartialEq, Eq)]
pub struct Region {
    pub left: u16,
    pub top: u16,
    pub width: u16,
    pub height: u16,
}

impl Region {
    /// The last column and the last row have numbers.
    pub open spec fn wf(&self) -> bool {
        &&& self.left + self.width <= u16::MAX
        &&& self.top + self.height <= u16::MAX
    }

    /// The number of cells.
    pub open spec fn cells(&self) -> int {
        self.width * self.height
    }
}

/// True when `root` is the whole part of the square root of `n`.
pub open spec fn is_root_of(root: int, n: int) -> bool {
    0 <= root && root * root <= n < (root + 1) * (root + 1)
}

/// The whole part of the square root of `n`.
pub open spec fn root_of(n: int) -> int {
    choose|root: int| is_root_of(root, n)
}

/// How far column `x` lies to the right of the region's centre.
pub open spec fn offset_along_row(x: int, region: Region) -> int {
    x * 1000 - (region.left * 1000 + region.width * 500)
}

/// How far row `y` lies below the region's centre, widened by the cell's
/// aspect.
pub open spec fn offset_along_column(y: int, region: Region) -> int {
    (y * 1000 - (region.top * 1000 + region.height * 500)) * 21 / 10
}

/// How far row `y` lies below the tip, doubled as the glow is measured.
pub open spec fn tip_offset_along_column(y: int, tip_y_milli: int) -> int {
    (y * 1000 - tip_y_milli) * 2
}

/// The distance of the cell at column `x`, row `y` from the centre of the
/// region.
pub open spec fn centre_distance_spec(x: int, y: int, region: Region) -> int {
    root_of(
        offset_along_row(x, region) * offset_along_row(x, region) + offset_along_column(y, region)
            * offset_along_column(y, region),
    )
}

/// The distance of the cell at column `x`, row `y` from a tip at the given
/// place.
pub open spec fn tip_distance_spec(x: int, y: int, tip_x_milli: int, tip_y_milli: int) -> int {
    root_of(
        (x * 1000 - tip_x_milli) * (x * 1000 - tip_x_milli) + tip_offset_along_column(y, tip_y_milli)
            * tip_offset_along_column(y, tip_y_milli),
    )
}

/// A number has one whole root.
pub proof fn lemma_root_unique(first: int, second: int, n: int)
    requires
        is_root_of(first, n),
        is_root_of(second, n),
    ensures
        first == second,
{
    assert(first == second) by (nonlinear_arith)
        requires
            0 <= first,
            0 <= second,
            first * first <= n < (first + 1) * (first + 1),
            second * second <= n < (second + 1) * (second + 1),
    ;
}

/// A whole root of `n` is the whole root of `n`.
pub proof fn lemma_root_found(root: int, n: int)
    requires
        is_root_of(root, n),
    ensures
        root == root_of(n),
{
    lemma_root_unique(root, root_of(n), n);
}

/// The whole part of the square root of `n`.
pub fn whole_root(n: u64) -> (root: u32)
    ensures
        is_root_of(root as int, n as int),
        root == root_of(n as int),
{
    let mut low: u64 = 0;
    let mut high: u64 = 0x1_0000_0000;
    while high - low > 1
        invariant
            low < high <= 0x1_0000_0000,
            low * low <= n,
            n < high * high,
        decreases high - low,
    {
        let mid: u64 = low + (high - low) / 2;
        assert(mid * mid < 0x1_0000_0000 * 0x1_0000_0000) by (nonlinear_arith)
            requires
                mid < 0x1_0000_0000,
        ;
        if mid * mid <= n {
            low = mid;
        } else {
            high = mid;
        }
    }
    proof {
        lemma_root_found(low as int, n as int);
    }
    low as u32
}

fn magnitude(v: i64) -> (m: u64)
    ensures
        m == if v >= 0 {
            v as int
        } else {
            -(v as int)
        },
{
    if v >= 0 {
        v as u64
    } else {
        (-(v as i128)) as u64
    }
}

/// The length of the offset `(across, down)`, rounded down.
pub fn span(across: i64, down: i64) -> (length: u32)
    requires
        -0x4000_0000 <= across <= 0x4000_0000,
        -0x4000_0000 <= down <= 0x4000_0000,
    ensures
        is_root_of(length as int, across * across + down * down),
        length == root_of(across * across + down * down),
{
    let a: u64 = magnitude(across);
    let d: u64 = magnitude(down);
    assert(a * a <= 0x4000_0000 * 0x4000_0000 && d * d <= 0x4000_0000 * 0x4000_0000)
        by (nonlinear_arith)
        requires
            a <= 0x4000_0000,
            d <= 0x4000_0000,
    ;
    assert(a * a == across * across && d * d == down * down) by (nonlinear_arith)
        requires
            a == across || a == -across,
            d == down || d == -down,
    ;
    whole_root(a * a + d * d)
}

/// The distance of the cell at column `x`, row `y` from the centre of the
/// region.
pub fn centre_distance(x: u16, y: u16, region: Region) -> (dist: u32)
    ensures
        dist == centre_distance_spec(x as int, y as int, region),
{
    let across: i64 = x as i64 * 1000 - (region.left as i64 * 1000 + region.width as i64 * 500);
    let down: i64 = (y as i64 * 1000 - (region.top as i64 * 1000 + region.height as i64 * 500))
        * 21 / 10;
    span(across, down)
}

/// The distance of the cell at column `x`, row `y` from the tip of the minute
/// hand, which stands at the given place on the grid.
pub fn tip_distance(x: u16, y: u16, tip_x_milli: i32, tip_y_milli: i32) -> (dist: u32)
    requires
        -0x1000_0000 <= tip_x_milli <= 0x1000_0000,
        -0x1000_0000 <= tip_y_milli <= 0x1000_0000,
    ensures
        dist == tip_distance_spec(x as int, y as int, tip_x_milli as int, tip_y_milli as int),
{
    let across: i64 = x as i64 * 1000 - tip_x_milli as i64;
    let down: i64 = (y as i64 * 1000 - tip_y_milli as i64) * 2;
    span(across, down)
}

/// The share of a region left on either side of a centred panel that takes
/// `percent` of it, in percent.
pub fn side_share(percent: u16) -> (share: u16)
    requires
        percent <= 100,
    ensures
        share == (100 - percent) / 2,
        share + percent + share <= 100,
{
    (100 - percent) / 2
}

} // verus!
