//! The objects of the game world, and what they have in common: a position
//! and rectangular regions around it.

pub mod cannon;
pub mod collider_type;
pub mod enemy;
pub mod grid;
pub mod missile;

use crate::util::vec_extension::Vec2;
use std::marker::PhantomData;
use vstd::prelude::*;

verus! {

/// A value that has a position in the world.
pub trait HasPosition: Sized {
    /// The position, as a mathematical value.
    spec fn position(&self) -> Vec2;

    /// The value moved to `position`, with nothing else changed.
    spec fn moved_to(self, position: Vec2) -> Self;

    /// Consumes the value and returns it at `position`.
    fn position_set(self, position: Vec2) -> (r: Self)
        ensures
            r == self.moved_to(position),
            r.position() == position,
    ;

    /// The position.
    fn position_get(&self) -> (r: Vec2)
        ensures
            r == self.position(),
    ;
}

/// The purpose of a region, which keeps regions of different purposes apart
/// in the types.
pub trait ColliderType {

}

/// An axis-aligned rectangle, corners included, in coordinates relative to
/// the position of the object it belongs to.
#[derive(Debug)]
pub struct Region<T: ColliderType> {
    /// The corner with the smaller coordinates.
    pub p0: Vec2,
    /// The corner with the larger coordinates.
    pub p1: Vec2,
    /// Carries the purpose; holds nothing.
    pub t: PhantomData<T>,
}

impl<T: ColliderType> Clone for Region<T> {
    fn clone(&self) -> (r: Self)
        ensures
            r == *self,
    {
        Region { p0: self.p0, p1: self.p1, t: PhantomData }
    }
}

impl<T: ColliderType> Region<T> {
    /// Whether the point `(x, y)` lies in the rectangle or on its border.
    pub open spec fn covers(&self, x: int, y: int) -> bool {
        &&& self.p0.x <= x <= self.p1.x
        &&& self.p0.y <= y <= self.p1.y
    }

    /// The rectangle between `p0` and `p1`. Neither coordinate of `p0` may
    /// exceed that of `p1`.
    pub fn new(p0: Vec2, p1: Vec2) -> (r: Self)
        requires
            p0.x <= p1.x,
            p0.y <= p1.y,
        ensures
            r.p0 == p0,
            r.p1 == p1,
    {
        Region { p0, p1, t: PhantomData }
    }

    /// Whether `local_pos`, given relative to the owner's position, lies in
    /// the rectangle or on its border.
    pub fn intersects(&self, local_pos: Vec2) -> (r: bool)
        ensures
            r == self.covers(local_pos.x as int, local_pos.y as int),
    {
        self.p0.x <= local_pos.x && self.p0.y <= local_pos.y && local_pos.x <= self.p1.x
            && local_pos.y <= self.p1.y
    }

    /// Whether a point lies in the rectangle when the rectangle's owner
    /// stands at `owner` and the point at `world_pos`.
    pub fn intersects_from(&self, owner: Vec2, world_pos: Vec2) -> (r: bool)
        ensures
            r == self.covers(world_pos.x - owner.x, world_pos.y - owner.y),
    {
        let dx: i128 = world_pos.x as i128 - owner.x as i128;
        let dy: i128 = world_pos.y as i128 - owner.y as i128;
        self.p0.x as i128 <= dx && self.p0.y as i128 <= dy && dx <= self.p1.x as i128 && dy
            <= self.p1.y as i128
    }
}

/// A value that has a position and, around it, a region of purpose `T`.
pub trait HasRegion<T: ColliderType>: HasPosition {
    /// The region, as a mathematical value.
    spec fn region(&self) -> Region<T>;

    /// The value with its region replaced, and nothing else changed.
    spec fn with_region(self, region: Region<T>) -> Self;

    /// The region.
    fn region_get(&self) -> (r: &Region<T>)
        ensures
            *r == self.region(),
    ;

    /// Consumes the value and returns it with `collision_box` as its region.
    fn region_set(self, collision_box: Region<T>) -> (r: Self)
        ensures
            r == self.with_region(collision_box),
            r.region() == collision_box,
    ;

    /// Whether `world_pos` lies in the region, which sits at the value's
    /// position.
    fn intersects_region(&self, world_pos: Vec2) -> (r: bool)
        ensures
            r == self.region().covers(
                world_pos.x - self.position().x,
                world_pos.y - self.position().y,
            ),
    {
        let owner = self.position_get();
        self.region_get().intersects_from(owner, world_pos)
    }
}

} // verus!
