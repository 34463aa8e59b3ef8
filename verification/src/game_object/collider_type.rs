//! The purposes that a region can serve.

use crate::game_object::ColliderType;
use vstd::prelude::*;

verus! {

/// Marks a region that takes part in collisions.
#[derive(Clone, Copy, Debug)]
pub struct Collider;

impl ColliderType for Collider {

}

impl Default for Collider {
    fn default() -> Self {
        Collider
    }
}

/// Marks a region that can be picked with the pointer.
#[derive(Clone, Copy, Debug)]
pub struct Selection;

impl ColliderType for Selection {

}

impl Default for Selection {
    fn default() -> Self {
        Selection
    }
}

} // verus!
