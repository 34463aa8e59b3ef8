//! Two-dimensional vectors in fixed-point units, and small extensions of
//! standard types.

use std::ops::Range;
use vstd::prelude::*;

verus! {

/// Number of length units in one tile of the grid.
pub const UNITS_PER_TILE: i64 = 1000;

/// A point or a displacement in the plane, in whole length units.
///
/// A direction is a vector of length [`UNITS_PER_TILE`].
#[derive(Debug, Clone, Copy, PartialEq, Eq, Structural)]
pub struct Vec2 {
    pub x: i64,
    pub y: i64,
}

impl Default for Vec2 {
    fn default() -> (r: Self)
        ensures
            r == (Vec2 { x: 0, y: 0 }),
    {
        Vec2 { x: 0, y: 0 }
    }
}

impl Vec2 {
    /// The direction of the first axis.
    pub fn unit_x() -> (r: Self)
        ensures
            r == (Vec2 { x: UNITS_PER_TILE, y: 0 }),
    {
        Vec2 { x: UNITS_PER_TILE, y: 0 }
    }

    /// The vector with the given coordinates.
    pub fn new(x: i64, y: i64) -> (r: Self)
        ensures
            r == (Vec2 { x, y }),
    {
        Vec2 { x, y }
    }

    /// The sum of two vectors, unless a coordinate of it is out of range.
    pub fn plus(self, other: Vec2) -> (r: Option<Vec2>)
        ensures
            r == (if i64::MIN <= self.x + other.x <= i64::MAX && i64::MIN <= self.y + other.y
                <= i64::MAX {
                Some(Vec2 { x: (self.x + other.x) as i64, y: (self.y + other.y) as i64 })
            } else {
                None
            }),
    {
        let x: i128 = self.x as i128 + other.x as i128;
        let y: i128 = self.y as i128 + other.y as i128;
        let low: i128 = i64::MIN as i128;
        let high: i128 = i64::MAX as i128;
        if low <= x && x <= high && low <= y && y <= high {
            Some(Vec2 { x: x as i64, y: y as i64 })
        } else {
            None
        }
    }

    /// The mirror image across the second axis. The first coordinate must
    /// have a negative in range.
    pub fn flip_x(self) -> (r: Self)
        requires
            self.x > i64::MIN,
        ensures
            r.x == -self.x,
            r.y == self.y,
    {
        Vec2 { x: -self.x, y: self.y }
    }

    /// The mirror image across the first axis. The second coordinate must
    /// have a negative in range.
    pub fn flip_y(self) -> (r: Self)
        requires
            self.y > i64::MIN,
        ensures
            r.x == self.x,
            r.y == -self.y,
    {
        Vec2 { x: self.x, y: -self.y }
    }
}

/// Adding to a value in place, where the value decides what that means.
pub trait MyAdd<RHS>: Sized {
    /// Whether `r` can be added without leaving the range of the type.
    spec fn can_add(&self, r: RHS) -> bool;

    /// The value with `r` added.
    spec fn added(&self, r: RHS) -> Self;

    /// Adds `r` in place.
    fn my_add(&mut self, r: RHS)
        requires
            old(self).can_add(r),
        ensures
            *final(self) == old(self).added(r),
    ;
}

/// A range is moved as a whole: both ends shift by the same amount.
impl MyAdd<i64> for Range<i64> {
    open spec fn can_add(&self, r: i64) -> bool {
        &&& i64::MIN <= self.start + r <= i64::MAX
        &&& i64::MIN <= self.end + r <= i64::MAX
    }

    open spec fn added(&self, r: i64) -> Self {
        Range { start: (self.start + r) as i64, end: (self.end + r) as i64 }
    }

    fn my_add(&mut self, r: i64) {
        self.start = self.start + r;
        self.end = self.end + r;
    }
}

} // verus!
