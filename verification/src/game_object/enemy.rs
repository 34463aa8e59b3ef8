//! Enemies: targets with a region to hit and a region to pick.

use crate::game_object::collider_type::{Collider, Selection};
use crate::game_object::{HasPosition, HasRegion, Region};
use crate::util::vec_extension::Vec2;
use std::marker::PhantomData;
use vstd::prelude::*;

verus! {

/// An enemy.
#[derive(Debug)]
pub struct Enemy {
    health: i32,
    collision_region: Region<Collider>,
    selection_region: Region<Selection>,
    position: Vec2,
}

impl Clone for Enemy {
    fn clone(&self) -> (r: Self)
        ensures
            r == *self,
    {
        Enemy {
            health: self.health,
            collision_region: self.collision_region.clone(),
            selection_region: self.selection_region.clone(),
            position: self.position,
        }
    }
}

impl Enemy {
    /// The health, as a mathematical value.
    pub closed spec fn health_points(&self) -> i32 {
        self.health
    }

    /// The health.
    pub fn health(&self) -> (r: i32)
        ensures
            r == self.health_points(),
    {
        self.health
    }
}

impl Default for Enemy {
    /// An enemy at the origin, without health, whose regions are the single
    /// point it stands on.
    fn default() -> (r: Self)
        ensures
            r.health_points() == 0,
            r.position() == (Vec2 { x: 0, y: 0 }),
            HasRegion::<Collider>::region(&r) == (Region::<Collider> {
                p0: Vec2 { x: 0, y: 0 },
                p1: Vec2 { x: 0, y: 0 },
                t: PhantomData,
            }),
            HasRegion::<Selection>::region(&r) == (Region::<Selection> {
                p0: Vec2 { x: 0, y: 0 },
                p1: Vec2 { x: 0, y: 0 },
                t: PhantomData,
            }),
    {
        let origin = Vec2 { x: 0, y: 0 };
        Enemy {
            health: 0,
            collision_region: Region::new(origin, origin),
            selection_region: Region::new(origin, origin),
            position: origin,
        }
    }
}

impl HasPosition for Enemy {
    closed spec fn position(&self) -> Vec2 {
        self.position
    }

    closed spec fn moved_to(self, position: Vec2) -> Self {
        Enemy { position, ..self }
    }

    fn position_set(self, position: Vec2) -> (r: Self) {
        let mut moved = self;
        moved.position = position;
        moved
    }

    fn position_get(&self) -> (r: Vec2) {
        self.position
    }
}

impl HasRegion<Collider> for Enemy {
    closed spec fn region(&self) -> Region<Collider> {
        self.collision_region
    }

    closed spec fn with_region(self, region: Region<Collider>) -> Self {
        Enemy { collision_region: region, ..self }
    }

    fn region_get(&self) -> (r: &Region<Collider>) {
        &self.collision_region
    }

    fn region_set(self, collision_box: Region<Collider>) -> (r: Self) {
        let mut changed = self;
        changed.collision_region = collision_box;
        changed
    }
}

impl HasRegion<Selection> for Enemy {
    closed spec fn region(&self) -> Region<Selection> {
        self.selection_region
    }

    closed spec fn with_region(self, region: Region<Selection>) -> Self {
        Enemy { selection_region: region, ..self }
    }

    fn region_get(&self) -> (r: &Region<Selection>) {
        &self.selection_region
    }

    fn region_set(self, collision_box: Region<Selection>) -> (r: Self) {
        let mut changed = self;
        changed.selection_region = collision_box;
        changed
    }
}

/// What the parts of an enemy are after each of the operations that return a
/// changed enemy: each operation changes the one part it names.
pub proof fn lemma_enemy_parts(
    e: Enemy,
    position: Vec2,
    collision: Region<Collider>,
    selection: Region<Selection>,
)
    ensures
        e.moved_to(position).position() == position,
        e.moved_to(position).health_points() == e.health_points(),
        HasRegion::<Collider>::region(&e.moved_to(position)) == HasRegion::<Collider>::region(&e),
        HasRegion::<Selection>::region(&e.moved_to(position)) == HasRegion::<Selection>::region(
            &e,
        ),
        HasRegion::<Collider>::region(&e.with_region(collision)) == collision,
        HasRegion::<Selection>::region(&e.with_region(collision)) == HasRegion::<
            Selection,
        >::region(&e),
        e.with_region(collision).position() == e.position(),
        e.with_region(collision).health_points() == e.health_points(),
        HasRegion::<Selection>::region(&e.with_region(selection)) == selection,
        HasRegion::<Collider>::region(&e.with_region(selection)) == HasRegion::<Collider>::region(
            &e,
        ),
        e.with_region(selection).position() == e.position(),
        e.with_region(selection).health_points() == e.health_points(),
{
}

} // verus!
