//! The plain text label.
use vstd::prelude::*;
use crate::color::Color;
use crate::theme::Theme;

verus! {

/// How strongly a label shows.
#[derive(Debug, Clone, Copy, PartialEq, Eq, Structural)]
pub enum LabelVariant {
    /// White text.
    Regular,
    /// Grey text, for captions beside the content.
    Dimmed,
}

impl LabelVariant {
    /// The colour of the text.
    pub open spec fn spec_color(self) -> Color {
        match self {
            LabelVariant::Regular => Color::spec_white(),
            LabelVariant::Dimmed => Color::spec_rgb(55, 55, 55),
        }
    }
}

impl Theme {
    /// The colour of a label's text. It is the same under every accent.
    pub fn label(self, variant: LabelVariant) -> (c: Color)
        ensures
            c == variant.spec_color(),
            c.well_formed(),
    {
        match variant {
            LabelVariant::Regular => Color::white(),
            LabelVariant::Dimmed => Color::rgb(55, 55, 55),
        }
    }
}

} // verus!
