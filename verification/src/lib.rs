//! Core of a small arcade game: a capacity-bounded entity tracker with stable
//! identities, a cooldown, and the fixed-tick rotation model of a cannon.
//!
//! All quantities are integers in caller-chosen fixed-point units, so every
//! rule is exact and every arithmetic step is proved free of overflow.

pub mod game_object;
pub mod gui;
pub mod input;
pub mod message;
pub mod util;
