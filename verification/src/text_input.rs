//! The single-line text field.
use vstd::prelude::*;
use crate::color::Color;
use crate::style::{compose_style, composed_style, WidgetKind, WidgetStyle, WidgetVisualState};
use crate::theme::Theme;

verus! {

/// The colour of the caret in a field: white at half opacity.
pub open spec fn spec_caret_color() -> Color {
    Color::spec_rgba(100, 100, 100, 50)
}

/// The colour of the caret in a field, which is also that of the outline
/// drawn around a widget reached by keyboard.
pub fn caret_color() -> (c: Color)
    ensures
        c == spec_caret_color(),
        c.well_formed(),
{
    Color::rgba(100, 100, 100, 50)
}

impl Theme {
    /// The colours of a text field in the given state. A field is neutral
    /// at rest and under the pointer, and takes the accent in focus.
    pub fn text_input(self, state: WidgetVisualState) -> (style: WidgetStyle)
        ensures
            style == composed_style(self.accent_color, WidgetKind::TextInput, false, state),
            style.fill.well_formed(),
            style.border.well_formed(),
            style.text.well_formed(),
    {
        compose_style(self.accent_color, WidgetKind::TextInput, false, state)
    }
}

} // verus!
