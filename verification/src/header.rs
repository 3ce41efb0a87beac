//! The header: a coloured band with a title.
use vstd::prelude::*;
use crate::accents::PrimaryFillColorVariant;
use crate::color::Color;
use crate::theme::Theme;

verus! {

/// How the band of a header is drawn.
#[derive(Debug, Clone, Copy, PartialEq, Eq, Structural)]
pub struct HeaderStyle {
    /// The fill of the band.
    pub fill: Color,
    /// The colour of the line under the band.
    pub border: Color,
    /// The space left and right of the title, in logical pixels.
    pub horizontal_padding: u32,
}

impl Theme {
    /// The band of a header: the accent's coloured fill over a line in its
    /// secondary fill, with the title kept in line with the window margin.
    pub fn simple_header(self) -> (style: HeaderStyle)
        ensures
            style == (HeaderStyle {
                fill: self.accent_color.spec_primary_fill_color(
                    PrimaryFillColorVariant::DefaultColored,
                ),
                border: self.accent_color.spec_secondary_fill_color(),
                horizontal_padding: self.horizontal_window_margin,
            }),
            style.fill.well_formed(),
            style.border.well_formed(),
    {
        HeaderStyle {
            fill: self.accent_color.primary_fill_color(PrimaryFillColorVariant::DefaultColored),
            border: self.accent_color.secondary_fill_color(),
            horizontal_padding: self.horizontal_window_margin,
        }
    }
}

} // verus!
