use vstd::prelude::*;

verus! {

/// The rectangular surface the robot moves on. Dimensions are fixed at
/// construction; a coordinate pair is valid iff it lies in
/// `[0, width) x [0, height)`.
///
/// Construction is permissive: a table with a non-positive dimension is
/// accepted and simply contains no valid position at all.
pub struct Table {
    pub width: i64,
    pub height: i64,
}

impl Table {
    /// True iff `(x, y)` lies on the table.
    pub open spec fn spec_contains(&self, x: int, y: int) -> bool {
        0 <= x < self.width as int && 0 <= y < self.height as int
    }

    pub fn new(width: i64, height: i64) -> (t: Table)
        ensures
            t.width == width,
            t.height == height,
    {
        Table { width, height }
    }

    /// Boundary-containment query: is `(x, y)` a valid position on this table?
    pub fn check_position(&self, x: i64, y: i64) -> (r: bool)
        ensures
            r == self.spec_contains(x as int, y as int),
    {
        x >= 0 && y >= 0 && x < self.width && y < self.height
    }
}

} // verus!
