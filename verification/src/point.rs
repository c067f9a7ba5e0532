//! Grid cells as pairs of signed coordinates.

use vstd::prelude::*;

verus! {

/// A cell of the grid: column `0` and row `1`, both counted from the top left.
#[derive(Clone, Copy, Debug, PartialEq, Eq, Structural, Hash)]
pub struct Point(pub i32, pub i32);

impl Point {
    /// The component-wise sum of two points over the unbounded integers, as a
    /// pair `(x, y)`.
    pub open spec fn sum(self, rhs: Point) -> (int, int) {
        (self.0 + rhs.0, self.1 + rhs.1)
    }

    /// Whether the component-wise sum with `rhs` is itself a point, that is,
    /// both coordinates of the sum fit in an `i32`.
    pub open spec fn can_add(self, rhs: Point) -> bool {
        &&& i32::MIN <= self.0 + rhs.0 <= i32::MAX
        &&& i32::MIN <= self.1 + rhs.1 <= i32::MAX
    }

    /// Column-major order of cells: `self` stands in an earlier column than
    /// `other`, or in the same column and an earlier row.
    pub open spec fn precedes(self, other: Point) -> bool {
        self.0 < other.0 || (self.0 == other.0 && self.1 < other.1)
    }

    /// The component-wise sum of `self` and `rhs`: the cell reached from
    /// `self` by the displacement `rhs`.
    pub fn add(self, rhs: Point) -> (r: Point)
        requires
            self.can_add(rhs),
        ensures
            r.0 == self.0 + rhs.0,
            r.1 == self.1 + rhs.1,
    {
        Point(self.0 + rhs.0, self.1 + rhs.1)
    }

    /// Whether two points are the same cell.
    pub fn equals(&self, other: &Point) -> (r: bool)
        ensures
            r == (*self == *other),
            r == (self.0 == other.0 && self.1 == other.1),
    {
        self.0 == other.0 && self.1 == other.1
    }
}

} // verus!
