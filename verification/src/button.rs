//! The button.
use vstd::prelude::*;
use crate::color::Color;
use crate::style::{
    compose_style, composed_style, pressed_fill, pressed_fill_of, WidgetKind, WidgetStyle,
    WidgetVisualState,
};
use crate::theme::Theme;

verus! {

/// How much a button stands out.
#[derive(Debug, Clone, Copy, PartialEq, Eq, Structural)]
pub enum ButtonVariant {
    /// A neutral button.
    Regular,
    /// A button in the accent's colours.
    Emphasized,
}

impl ButtonVariant {
    /// The variant uses the coloured tables.
    pub open spec fn is_colored(self) -> bool {
        self == ButtonVariant::Emphasized
    }
}

impl Theme {
    /// The colours of a button of the given variant in the given state. A
    /// button has no selection of its own, so its variant decides between
    /// the coloured and the neutral tables.
    pub fn button(self, state: WidgetVisualState, variant: ButtonVariant) -> (style: WidgetStyle)
        ensures
            style == composed_style(
                self.accent_color,
                WidgetKind::Button,
                variant.is_colored(),
                state,
            ),
            style.fill.well_formed(),
            style.border.well_formed(),
            style.text.well_formed(),
    {
        let colored = match variant {
            ButtonVariant::Emphasized => true,
            ButtonVariant::Regular => false,
        };
        compose_style(self.accent_color, WidgetKind::Button, colored, state)
    }

    /// The fill of a button while it is held down.
    pub fn button_pressed_fill(self, variant: ButtonVariant) -> (fill: Color)
        ensures
            Some(fill) == pressed_fill_of(
                self.accent_color,
                WidgetKind::Button,
                variant.is_colored(),
            ),
            fill.well_formed(),
    {
        let colored = match variant {
            ButtonVariant::Emphasized => true,
            ButtonVariant::Regular => false,
        };
        match pressed_fill(self.accent_color, WidgetKind::Button, colored) {
            Some(fill) => fill,
            None => {
                proof {
                    assert(false);
                }
                Color::black()
            },
        }
    }
}

} // verus!
