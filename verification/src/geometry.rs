//! Pixel geometry of the board: where each cell's button lies on the screen.

use vstd::prelude::*;

verus! {

/// An axis-aligned rectangle in pixel space: the screen area of one cell.
#[derive(Clone, Copy, PartialEq, Eq, Debug, Structural)]
pub struct HitBox {
    pub x: i32,
    pub y: i32,
    pub width: u32,
    pub height: u32,
}

/// The pixel offset of the button with index `k` along one axis: `k` buttons
/// and `k + 1` separators lie before it.
pub open spec fn offset(k: int, sep: int, cell: int) -> int {
    cell * k + sep * (k + 1)
}

/// The pixel length of `n` buttons in a line, with a separator before each
/// and one after the last.
pub open spec fn extent(n: int, sep: int, cell: int) -> int {
    n * (cell + sep) + sep
}

/// Whether a board of `size.0` rows and `size.1` columns can be laid out:
/// the top left corner of every button lies at coordinates that an `i32`
/// holds. It is enough to ask this of the last row and the last column; a
/// board without cells has no button and always fits.
pub open spec fn geometry_fits(size: (u32, u32), sep: u32, cell: u32) -> bool {
    size.0 >= 1 && size.1 >= 1 ==> {
        &&& offset(size.0 - 1, sep as int, cell as int) <= i32::MAX
        &&& offset(size.1 - 1, sep as int, cell as int) <= i32::MAX
    }
}

/// The button of the cell in row `i` and column `j`.
pub open spec fn button_at(i: int, j: int, sep: int, cell: int) -> HitBox {
    HitBox {
        x: offset(j, sep, cell) as i32,
        y: offset(i, sep, cell) as i32,
        width: cell as u32,
        height: cell as u32,
    }
}

impl HitBox {
    /// Whether the point `(px, py)` lies in the rectangle, its four edges
    /// included.
    pub open spec fn covers(self, px: int, py: int) -> bool {
        &&& self.x <= px <= self.x + self.width
        &&& self.y <= py <= self.y + self.height
    }

    /// Whether the two rectangles share a region of positive area. Boxes
    /// that only touch along an edge do not overlap.
    pub open spec fn overlaps(self, other: HitBox) -> bool {
        &&& self.x < other.x + other.width
        &&& other.x < self.x + self.width
        &&& self.y < other.y + other.height
        &&& other.y < self.y + self.height
    }

    /// The pixel in the middle of the rectangle.
    pub open spec fn center(self) -> (int, int) {
        (self.x + self.width / 2, self.y + self.height / 2)
    }

    /// Tests whether the point `(px, py)` lies in the rectangle; a point on
    /// an edge counts as inside.
    pub fn contains(&self, px: i32, py: i32) -> (inside: bool)
        ensures
            inside == self.covers(px as int, py as int),
    {
        let right: i64 = self.x as i64 + self.width as i64;
        let bottom: i64 = self.y as i64 + self.height as i64;
        px >= self.x && py >= self.y && px as i64 <= right && py as i64 <= bottom
    }

    /// Returns the pixel in the middle of the rectangle, or `None` when it
    /// lies beyond the `i32` range.
    pub fn middle(&self) -> (m: Option<(i32, i32)>)
        ensures
            match m {
                Some(p) => (p.0 as int, p.1 as int) == self.center(),
                None => self.center().0 > i32::MAX || self.center().1 > i32::MAX,
            },
    {
        let cx: i64 = self.x as i64 + (self.width / 2) as i64;
        let cy: i64 = self.y as i64 + (self.height / 2) as i64;
        if cx > i32::MAX as i64 || cy > i32::MAX as i64 {
            None
        } else {
            Some((cx as i32, cy as i32))
        }
    }
}

/// Offsets grow with the index, by at least one cell and one separator per
/// step.
pub proof fn lemma_offset_step(k: int, l: int, sep: int, cell: int)
    requires
        0 <= k < l,
        0 <= sep,
        0 <= cell,
    ensures
        offset(k, sep, cell) + cell + sep <= offset(l, sep, cell),
        0 <= offset(k, sep, cell),
{
    assert(cell * k + cell <= cell * l) by (nonlinear_arith)
        requires k < l, 0 <= cell;
    assert(sep * (k + 1) + sep <= sep * (l + 1)) by (nonlinear_arith)
        requires k < l, 0 <= sep;
    assert(0 <= cell * k) by (nonlinear_arith)
        requires 0 <= k, 0 <= cell;
    assert(0 <= sep * (k + 1)) by (nonlinear_arith)
        requires 0 <= k, 0 <= sep;
}

/// No button of a line of `n` lies further out than the last one, and the
/// two products that an offset is made of are no larger than the offset.
pub proof fn lemma_offset_bound(k: int, n: int, sep: int, cell: int)
    requires
        0 <= k < n,
        0 <= sep,
        0 <= cell,
    ensures
        0 <= cell * k <= offset(k, sep, cell),
        0 <= sep * (k + 1) <= offset(k, sep, cell),
        offset(k, sep, cell) <= offset(n - 1, sep, cell),
{
    if k < n - 1 {
        lemma_offset_step(k, n - 1, sep, cell);
    }
    assert(0 <= cell * k) by (nonlinear_arith)
        requires
            0 <= k,
            0 <= cell,
    ;
    assert(0 <= sep * (k + 1)) by (nonlinear_arith)
        requires
            0 <= k,
            0 <= sep,
    ;
}

/// A board whose whole extent along both axes is a coordinate that an
/// `i32` holds can be laid out: no button starts beyond the extent of its
/// line.
pub proof fn lemma_extent_bounds_layout(size: (u32, u32), sep: u32, cell: u32)
    requires
        extent(size.0 as int, sep as int, cell as int) <= i32::MAX,
        extent(size.1 as int, sep as int, cell as int) <= i32::MAX,
    ensures
        geometry_fits(size, sep, cell),
{
    if size.0 >= 1 && size.1 >= 1 {
        lemma_offset_before_extent(size.0 as int, sep as int, cell as int);
        lemma_offset_before_extent(size.1 as int, sep as int, cell as int);
    }
}

/// The last button of a line of `n` ends, with the separator after it,
/// where the line ends.
pub proof fn lemma_offset_before_extent(n: int, sep: int, cell: int)
    requires
        1 <= n,
        0 <= sep,
        0 <= cell,
    ensures
        offset(n - 1, sep, cell) + cell + sep == extent(n, sep, cell),
{
    assert(cell * (n - 1) + sep * (n - 1 + 1) + cell + sep == n * (cell + sep) + sep)
        by (nonlinear_arith);
}

} // verus!
