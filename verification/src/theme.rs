//! The settings that every widget of one interface shares.
use vstd::prelude::*;
use crate::accents::AccentColor;

verus! {

/// The margin that a theme has unless it is given another.
pub const DEFAULT_WINDOW_MARGIN: u32 = 20;

/// The settings shared by the widgets of one interface. Every widget is
/// made, and styled again whenever a flag or the accent changes, by a method
/// of the theme.
#[derive(Clone, Copy, Debug, PartialEq, Eq, Structural)]
pub struct Theme {
    /// The accent that tints the widgets.
    pub accent_color: AccentColor,
    /// The distance, in logical pixels, that content keeps from the left and
    /// right edges of the window. Nothing applies it by itself: containers
    /// and decorations such as the header read it to stay aligned.
    pub horizontal_window_margin: u32,
}

impl Theme {
    /// The theme that `default` gives: magenta, with a margin of twenty.
    pub open spec fn spec_default() -> Theme {
        Theme { accent_color: AccentColor::Magenta, horizontal_window_margin: DEFAULT_WINDOW_MARGIN }
    }

    /// The same theme under another accent.
    pub fn with_accent(self, accent_color: AccentColor) -> (theme: Theme)
        ensures
            theme == (Theme { accent_color, ..self }),
    {
        Theme { accent_color, horizontal_window_margin: self.horizontal_window_margin }
    }
}

impl Default for Theme {
    fn default() -> (theme: Theme)
        ensures
            theme == Theme::spec_default(),
    {
        Theme { accent_color: AccentColor::Magenta, horizontal_window_margin: DEFAULT_WINDOW_MARGIN }
    }
}

} // verus!
