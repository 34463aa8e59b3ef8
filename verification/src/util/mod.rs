//! Building blocks shared by the game objects.

pub mod hash_map_tracker;
pub mod message;
pub mod tracker_laws;
pub mod vec_extension;
