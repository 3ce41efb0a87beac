//! The checkbox with a label beside it.
use vstd::prelude::*;
use crate::color::Color;
use crate::style::{
    compose_style, composed_style, pressed_fill, pressed_fill_of, WidgetKind, WidgetStyle,
    WidgetVisualState,
};
use crate::theme::Theme;

verus! {

/// The flags of a checkbox: it is drawn as selected exactly when it is
/// checked.
pub open spec fn checkbox_state(
    checked: bool,
    hovering: bool,
    focused: bool,
    disabled: bool,
) -> WidgetVisualState {
    WidgetVisualState { hovering, focused, disabled, selected: Some(checked) }
}

impl Theme {
    /// The colours of the box of a checkbox. A checked box uses the coloured
    /// tables, an unchecked one the neutral tables.
    pub fn labeled_checkbox(self, checked: bool, hovering: bool, focused: bool, disabled: bool) -> (style:
        WidgetStyle)
        ensures
            style == composed_style(
                self.accent_color,
                WidgetKind::Checkbox,
                false,
                checkbox_state(checked, hovering, focused, disabled),
            ),
            style.fill.well_formed(),
            style.border.well_formed(),
            style.text.well_formed(),
    {
        let state = WidgetVisualState { hovering, focused, disabled, selected: Some(checked) };
        compose_style(self.accent_color, WidgetKind::Checkbox, false, state)
    }

    /// The fill of the box while it is held down, checked or not.
    pub fn checkbox_pressed_fill(self) -> (fill: Color)
        ensures
            Some(fill) == pressed_fill_of(self.accent_color, WidgetKind::Checkbox, false),
            fill.well_formed(),
    {
        match pressed_fill(self.accent_color, WidgetKind::Checkbox, false) {
            Some(fill) => fill,
            None => {
                proof {
                    assert(false);
                }
                Color::black()
            },
        }
    }
}

} // verus!
