//! The container at the root of a window.
use vstd::prelude::*;
use crate::color::Color;
use crate::theme::Theme;

verus! {

/// How the root of a window is drawn.
#[derive(Debug, Clone, Copy, PartialEq, Eq, Structural)]
pub struct RootStyle {
    /// The background of the window.
    pub background: Color,
    /// The colour that text has unless a widget gives it another.
    pub text: Color,
}

impl Theme {
    /// The background and the text colour of the window: the accent's
    /// window background under white text.
    pub fn root_view(self) -> (style: RootStyle)
        ensures
            style == (RootStyle {
                background: self.accent_color.spec_root_view_background(),
                text: Color::spec_white(),
            }),
            style.background.well_formed(),
            style.text.well_formed(),
    {
        RootStyle { background: self.accent_color.root_view_background(), text: Color::white() }
    }
}

} // verus!
