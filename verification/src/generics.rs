//! A small worked example of a generic point type moved by an offset, with
//! overflow ruled out by contract.

use vstd::prelude::*;

verus! {

/// A point with two coordinates of the same type.
#[derive(Debug)]
pub struct PointT<T> {
    pub x: T,
    pub y: T,
}

impl PointT<i64> {
    /// Moves the point by the given offsets; both sums must stay in range.
    pub fn move_offset_2(&mut self, x: i64, y: i64)
        requires
            i64::MIN <= old(self).x + x <= i64::MAX,
            i64::MIN <= old(self).y + y <= i64::MAX,
        ensures
            final(self).x == old(self).x + x,
            final(self).y == old(self).y + y,
    {
        self.x = self.x + x;
        self.y = self.y + y;
    }
}

} // verus!
