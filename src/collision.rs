//! Axis-aligned bounding boxes and their overlap test.
use vstd::prelude::*;

verus! {

/// An axis-aligned box given by its center and its half-extents, in
/// position steps.
#[derive(Clone, Copy, Debug, PartialEq, Eq)]
pub struct Aabb {
    pub center_x: i64,
    pub center_y: i64,
    pub half_x: i64,
    pub half_y: i64,
}

impl Aabb {
    pub open spec fn min_x(self) -> int {
        self.center_x - self.half_x
    }

    pub open spec fn max_x(self) -> int {
        self.center_x + self.half_x
    }

    pub open spec fn min_y(self) -> int {
        self.center_y - self.half_y
    }

    pub open spec fn max_y(self) -> int {
        self.center_y + self.half_y
    }

    /// Half-extents are never negative.
    pub open spec fn wf(self) -> bool {
        self.half_x >= 0 && self.half_y >= 0
    }

    /// Both axis intervals overlap; touching edges count as overlap.
    pub open spec fn overlaps(self, other: Aabb) -> bool {
        &&& self.min_x() <= other.max_x()
        &&& other.min_x() <= self.max_x()
        &&& self.min_y() <= other.max_y()
        &&& other.min_y() <= self.max_y()
    }

    pub fn new(center_x: i64, center_y: i64, half_x: i64, half_y: i64) -> (r: Aabb)
        ensures
            r.center_x == center_x,
            r.center_y == center_y,
            r.half_x == half_x,
            r.half_y == half_y,
    {
        Aabb { center_x, center_y, half_x, half_y }
    }

    /// The same box moved so that its center lies at the given point.
    pub fn offset_aabb(&self, x: i64, y: i64) -> (r: Aabb)
        ensures
            r.center_x == x,
            r.center_y == y,
            r.half_x == self.half_x,
            r.half_y == self.half_y,
    {
        Aabb { center_x: x, center_y: y, half_x: self.half_x, half_y: self.half_y }
    }

    /// Whether the two boxes overlap, edges included.
    pub fn intersects(&self, other: &Aabb) -> (r: bool)
        ensures
            r == self.overlaps(*other),
    {
        let a_min_x = self.center_x as i128 - self.half_x as i128;
        let a_max_x = self.center_x as i128 + self.half_x as i128;
        let a_min_y = self.center_y as i128 - self.half_y as i128;
        let a_max_y = self.center_y as i128 + self.half_y as i128;
        let b_min_x = other.center_x as i128 - other.half_x as i128;
        let b_max_x = other.center_x as i128 + other.half_x as i128;
        let b_min_y = other.center_y as i128 - other.half_y as i128;
        let b_max_y = other.center_y as i128 + other.half_y as i128;
        a_min_x <= b_max_x && b_min_x <= a_max_x && a_min_y <= b_max_y && b_min_y <= a_max_y
    }
}

/// Boxes whose horizontal intervals are apart never overlap, whatever
/// their vertical intervals are.
pub proof fn lemma_x_separated_boxes_never_overlap(a: Aabb, b: Aabb)
    requires
        a.max_x() < b.min_x() || b.max_x() < a.min_x(),
    ensures
        !a.overlaps(b),
        !b.overlaps(a),
{
}

} // verus!
