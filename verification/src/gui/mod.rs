//! The state of the overlay window.

use vstd::prelude::*;

verus! {

/// Whether the overlay window is shown.
#[derive(Debug, Clone, Copy, PartialEq, Eq, Structural)]
pub struct GUIState {
    pub shown: bool,
}

impl Default for GUIState {
    fn default() -> (r: Self)
        ensures
            !r.shown,
    {
        GUIState { shown: false }
    }
}

} // verus!
