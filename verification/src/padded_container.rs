//! The container that keeps its content off the edges of the window.
use vstd::prelude::*;
use crate::theme::Theme;

verus! {

impl Theme {
    /// The padding of a padded container on all four sides, in logical
    /// pixels: the window margin, applied vertically too for symmetry.
    pub fn padded_container(self) -> (padding: u32)
        ensures
            padding == self.horizontal_window_margin,
    {
        self.horizontal_window_margin
    }
}

} // verus!
