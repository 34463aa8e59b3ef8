//! Missiles: what the cannon fires, and how they fly and leave play.

use crate::game_object::collider_type::Collider;
use crate::game_object::{HasPosition, HasRegion, Region};
use crate::util::hash_map_tracker::{carries, ForTracker, HashMapTracker, WithIndex};
use crate::util::vec_extension::Vec2;
use std::marker::PhantomData;
use std::ops::Range;
use vstd::prelude::*;

verus! {

/// The part of the world in which missiles are kept: a rectangle whose lower
/// edges belong to it and whose upper edges do not.
#[derive(Debug)]
pub struct PlayArea {
    pub x_range: Range<i64>,
    pub y_range: Range<i64>,
}

impl PlayArea {
    /// Whether the point `(x, y)` lies in the area.
    pub open spec fn contains(&self, x: int, y: int) -> bool {
        &&& self.x_range.start <= x < self.x_range.end
        &&& self.y_range.start <= y < self.y_range.end
    }
}

/// A missile in flight.
///
/// The velocity is the displacement per unit of time.
#[derive(Debug)]
pub struct Missile {
    position: Vec2,
    vel: Vec2,
    collision_region: Region<Collider>,
    index: Option<u32>,
}

/// Half the side of a missile's collision square, in length units.
pub const MISSILE_HALF_EXTENT: i64 = 400;

/// The collision region of every missile: a square around its position.
pub open spec fn missile_region() -> Region<Collider> {
    Region {
        p0: Vec2 { x: (-MISSILE_HALF_EXTENT) as i64, y: (-MISSILE_HALF_EXTENT) as i64 },
        p1: Vec2 { x: MISSILE_HALF_EXTENT, y: MISSILE_HALF_EXTENT },
        t: PhantomData,
    }
}

impl Clone for Missile {
    fn clone(&self) -> (r: Self)
        ensures
            r == *self,
    {
        Missile {
            position: self.position,
            vel: self.vel,
            collision_region: self.collision_region.clone(),
            index: self.index,
        }
    }
}

impl Missile {
    /// The velocity, as a mathematical value.
    pub closed spec fn velocity(&self) -> Vec2 {
        self.vel
    }

    /// The identity under which a tracker holds the missile, once it does.
    pub closed spec fn index(&self) -> Option<u32> {
        self.index
    }

    /// Where the missile is after `dt` units of time: its position plus `dt`
    /// times its velocity, as unbounded integers.
    pub open spec fn advanced_position(&self, dt: u32) -> (int, int) {
        (
            self.position().x + self.velocity().x * dt,
            self.position().y + self.velocity().y * dt,
        )
    }

    /// The missile after `dt` units of time in `area`: moved to its advanced
    /// position if that lies in the area, and gone if it does not.
    pub open spec fn advanced(&self, area: &PlayArea, dt: u32) -> Option<Missile> {
        let (x, y) = self.advanced_position(dt);
        if area.contains(x, y) {
            Some(self.moved_to(Vec2 { x: x as i64, y: y as i64 }))
        } else {
            None
        }
    }

    /// The missile at `pos` that flies with velocity `vel` and has no
    /// identity yet.
    pub closed spec fn launched(pos: Vec2, vel: Vec2) -> Missile {
        Missile { position: pos, vel, collision_region: missile_region(), index: None }
    }

    /// A missile at `pos` that flies with velocity `vel` and has no identity
    /// yet.
    pub fn new(pos: Vec2, vel: Vec2) -> (r: Self)
        ensures
            r == Missile::launched(pos, vel),
            r.position() == pos,
            r.velocity() == vel,
            r.index() is None,
            r.region() == missile_region(),
    {
        Missile {
            position: pos,
            vel,
            index: None,
            collision_region: Region::new(
                Vec2 { x: -MISSILE_HALF_EXTENT, y: -MISSILE_HALF_EXTENT },
                Vec2 { x: MISSILE_HALF_EXTENT, y: MISSILE_HALF_EXTENT },
            ),
        }
    }

    /// The velocity.
    pub fn vel(&self) -> (r: Vec2)
        ensures
            r == self.velocity(),
    {
        self.vel
    }

    /// The identity under which a tracker holds the missile, if one does.
    pub fn id(&self) -> (r: Option<u32>)
        ensures
            r == self.index(),
    {
        self.index
    }

    /// Lets `dt` units of time pass for a missile that is kept only inside
    /// `area`.
    pub fn advance(&self, area: &PlayArea, dt: u32) -> (r: Option<Missile>)
        ensures
            r == self.advanced(area, dt),
    {
        proof {
            lemma_displacement_bounds(self.vel.x, dt);
            lemma_displacement_bounds(self.vel.y, dt);
        }
        let x: i128 = self.position.x as i128 + self.vel.x as i128 * dt as i128;
        let y: i128 = self.position.y as i128 + self.vel.y as i128 * dt as i128;
        if area.x_range.start as i128 <= x && x < area.x_range.end as i128 && area.y_range.start as i128
            <= y && y < area.y_range.end as i128 {
            Some(
                Missile {
                    position: Vec2 { x: x as i64, y: y as i64 },
                    vel: self.vel,
                    collision_region: self.collision_region.clone(),
                    index: self.index,
                },
            )
        } else {
            None
        }
    }
}

/// A velocity times a span of time has fewer than 96 bits.
proof fn lemma_displacement_bounds(v: i64, dt: u32)
    ensures
        -0x8000_0000_0000_0000_0000_0000 <= v * dt <= 0x8000_0000_0000_0000_0000_0000,
{
    assert(-0x8000_0000_0000_0000_0000_0000 <= v * dt <= 0x8000_0000_0000_0000_0000_0000)
        by (nonlinear_arith)
        requires
            -0x8000_0000_0000_0000 <= v < 0x8000_0000_0000_0000,
            0 <= dt < 0x1_0000_0000,
    ;
}

/// The parts of a missile that was just launched.
pub proof fn lemma_launched_parts(pos: Vec2, vel: Vec2)
    ensures
        Missile::launched(pos, vel).position() == pos,
        Missile::launched(pos, vel).velocity() == vel,
        Missile::launched(pos, vel).index() is None,
        Missile::launched(pos, vel).region() == missile_region(),
{
}

/// What the parts of a missile are after each of the operations that return
/// a changed missile: each operation changes the one part it names.
pub proof fn lemma_missile_parts(m: Missile, index: u32, position: Vec2, region: Region<Collider>)
    ensures
        m.with_index_spec(index).index() == Some(index),
        m.with_index_spec(index).position() == m.position(),
        m.with_index_spec(index).velocity() == m.velocity(),
        m.with_index_spec(index).region() == m.region(),
        m.moved_to(position).position() == position,
        m.moved_to(position).index() == m.index(),
        m.moved_to(position).velocity() == m.velocity(),
        m.moved_to(position).region() == m.region(),
        m.with_region(region).region() == region,
        m.with_region(region).index() == m.index(),
        m.with_region(region).velocity() == m.velocity(),
        m.with_region(region).position() == m.position(),
{
}

/// A missile that carries an identity has that identity as its index: so has
/// every missile that a tracker holds, under the identity it is held by.
pub proof fn lemma_carried_identity(m: Missile, id: u32)
    requires
        carries(m, id),
    ensures
        m.index() == Some(id),
{
}

impl HasPosition for Missile {
    closed spec fn position(&self) -> Vec2 {
        self.position
    }

    closed spec fn moved_to(self, position: Vec2) -> Self {
        Missile { position, ..self }
    }

    fn position_set(self, position: Vec2) -> (r: Self) {
        let mut moved = self;
        moved.position = position;
        moved
    }

    fn position_get(&self) -> (r: Vec2) {
        self.position
    }
}

impl HasRegion<Collider> for Missile {
    closed spec fn region(&self) -> Region<Collider> {
        self.collision_region
    }

    closed spec fn with_region(self, region: Region<Collider>) -> Self {
        Missile { collision_region: region, ..self }
    }

    fn region_get(&self) -> (r: &Region<Collider>) {
        &self.collision_region
    }

    fn region_set(self, collision_box: Region<Collider>) -> (r: Self) {
        let mut changed = self;
        changed.collision_region = collision_box;
        changed
    }
}

impl WithIndex for Missile {
    closed spec fn with_index_spec(self, index: u32) -> Self {
        Missile { index: Some(index), ..self }
    }

    fn with_index(self, index: u32) -> (r: Self) {
        let mut named = self;
        named.index = Some(index);
        named
    }
}

impl ForTracker for Missile {

}

/// One fixed tick for all missiles: each flies for `dt` units of time, and
/// those that leave `area` are removed.
///
/// Exactly the missiles whose advanced position lies in `area` stay, each
/// under the identity it had and at its advanced position. The cursor does
/// not move.
pub fn fixed_update<const MAX: u32>(
    missiles: &mut HashMapTracker<Missile, MAX>,
    area: &PlayArea,
    dt: u32,
)
    requires
        old(missiles).wf(),
    ensures
        final(missiles).wf(),
        final(missiles).cursor() == old(missiles).cursor(),
        forall|id: u32|
            final(missiles)@.contains_key(id) <==> old(missiles)@.contains_key(id) && old(
                missiles,
            )@[id].advanced(area, dt) is Some,
        forall|id: u32|
            final(missiles)@.contains_key(id) ==> Some(final(missiles)@[id]) == (match old(
                missiles,
            )@[id].advanced(area, dt) {
                Some(m) => Some(m.with_index_spec(id)),
                None => None,
            }),
{
    let ids = missiles.ids();
    let n = ids.len();
    let mut i: usize = 0;
    while i < n
        invariant
            i <= n,
            n == ids@.len(),
            ids@.no_duplicates(),
            ids@.to_set() == old(missiles)@.dom(),
            missiles.wf(),
            missiles.cursor() == old(missiles).cursor(),
            forall|id: u32| missiles@.contains_key(id) ==> old(missiles)@.contains_key(id),
            forall|j: int|
                i <= j < n ==> missiles@.contains_key(#[trigger] ids@[j]) && missiles@[ids@[j]]
                    == old(missiles)@[ids@[j]],
            forall|j: int|
                0 <= j < i ==> (missiles@.contains_key(#[trigger] ids@[j]) <==> old(
                    missiles,
                )@[ids@[j]].advanced(area, dt) is Some),
            forall|j: int|
                0 <= j < i && missiles@.contains_key(#[trigger] ids@[j]) ==> Some(
                    missiles@[ids@[j]],
                ) == (match old(missiles)@[ids@[j]].advanced(area, dt) {
                    Some(m) => Some(m.with_index_spec(ids@[j])),
                    None => None,
                }),
        decreases n - i,
    {
        let id = ids[i];
        let moved = match missiles.get(id) {
            Some(missile) => missile.advance(area, dt),
            None => None,
        };
        match moved {
            Some(missile) => {
                missiles.replace(id, missile);
            },
            None => {
                missiles.delete(id);
            },
        }
        i = i + 1;
    }
    proof {
        assert forall|id: u32| old(missiles)@.contains_key(id) implies exists|j: int|
            0 <= j < n && ids@[j] == id by {
            assert(ids@.to_set().contains(id));
        }
    }
}

} // verus!
