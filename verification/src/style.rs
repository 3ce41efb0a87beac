//! How a widget looks in each interaction state.
//!
//! A widget has a fill, a border and a text colour. Which ones it shows is
//! decided from its flags in a fixed order:
//!
//! 1. a disabled widget shows the disabled colours, whatever else holds;
//! 2. a focused widget shows its focused border;
//! 3. a hovered widget shows its hovered fill and, unless it is focused, its
//!    hovered border;
//! 4. otherwise it shows its baseline.
//!
//! Fill and border are decided apart: a focused widget under the pointer has
//! the hovered fill inside the focused border. Whether the coloured or the
//! neutral tables are used follows the selection where the widget has one,
//! and the widget's declared tone where it has none.
use vstd::prelude::*;
use crate::accents::{AccentColor, BorderColorVariant, PrimaryFillColorVariant};
use crate::color::Color;

verus! {

/// The flags of one widget instance, as the host's events set them.
#[derive(Debug, Clone, Copy, PartialEq, Eq, Structural)]
pub struct WidgetVisualState {
    /// The pointer is over the widget.
    pub hovering: bool,
    /// The widget has the keyboard focus.
    pub focused: bool,
    /// The widget does not react to input.
    pub disabled: bool,
    /// Whether the widget is selected or checked; `None` for a widget
    /// without such a notion.
    pub selected: Option<bool>,
}

/// The colours that a widget shows.
#[derive(Debug, Clone, Copy, PartialEq, Eq, Structural)]
pub struct WidgetStyle {
    pub fill: Color,
    pub border: Color,
    pub text: Color,
}

/// The widgets that share the composition, each with colour tables of its
/// own.
#[derive(Debug, Clone, Copy, PartialEq, Eq, Structural)]
pub enum WidgetKind {
    Button,
    Checkbox,
    RadioButton,
    TextInput,
    IntegerInput,
}

/// What the host tells a widget about the pointer and the keyboard focus.
#[derive(Debug, Clone, Copy, PartialEq, Eq, Structural)]
pub enum WidgetEvent {
    /// The pointer came over the widget.
    PointerEnter,
    /// The pointer left the widget.
    PointerLeave,
    /// The widget got the keyboard focus.
    FocusGained,
    /// The widget lost the keyboard focus.
    FocusLost,
}

impl WidgetKind {
    /// The widget is a field that holds text: its tables have no coloured
    /// side.
    pub open spec fn is_field(self) -> bool {
        self == WidgetKind::TextInput || self == WidgetKind::IntegerInput
    }
}

impl WidgetVisualState {
    /// A widget at rest: no flag set, and the given selection.
    pub open spec fn spec_idle(selected: Option<bool>) -> WidgetVisualState {
        WidgetVisualState { hovering: false, focused: false, disabled: false, selected }
    }

    /// A widget at rest: no flag set, and the given selection.
    pub fn idle(selected: Option<bool>) -> (state: WidgetVisualState)
        ensures
            state == WidgetVisualState::spec_idle(selected),
    {
        WidgetVisualState { hovering: false, focused: false, disabled: false, selected }
    }

    /// The flags after an event: a pointer event sets or clears `hovering`,
    /// a focus event sets or clears `focused`, and every other flag stays.
    pub open spec fn spec_after(self, event: WidgetEvent) -> WidgetVisualState {
        match event {
            WidgetEvent::PointerEnter => WidgetVisualState { hovering: true, ..self },
            WidgetEvent::PointerLeave => WidgetVisualState { hovering: false, ..self },
            WidgetEvent::FocusGained => WidgetVisualState { focused: true, ..self },
            WidgetEvent::FocusLost => WidgetVisualState { focused: false, ..self },
        }
    }

    /// The flags after an event: a pointer event sets or clears `hovering`,
    /// a focus event sets or clears `focused`, and every other flag stays.
    pub fn after(self, event: WidgetEvent) -> (next: WidgetVisualState)
        ensures
            next == self.spec_after(event),
    {
        match event {
            WidgetEvent::PointerEnter => WidgetVisualState {
                hovering: true,
                focused: self.focused,
                disabled: self.disabled,
                selected: self.selected,
            },
            WidgetEvent::PointerLeave => WidgetVisualState {
                hovering: false,
                focused: self.focused,
                disabled: self.disabled,
                selected: self.selected,
            },
            WidgetEvent::FocusGained => WidgetVisualState {
                hovering: self.hovering,
                focused: true,
                disabled: self.disabled,
                selected: self.selected,
            },
            WidgetEvent::FocusLost => WidgetVisualState {
                hovering: self.hovering,
                focused: false,
                disabled: self.disabled,
                selected: self.selected,
            },
        }
    }

    /// Whether the coloured tables are used: the selection decides where
    /// there is one, the declared tone where there is none.
    pub open spec fn spec_is_colored(self, declared_colored: bool) -> bool {
        match self.selected {
            Some(selected) => selected,
            None => declared_colored,
        }
    }

    /// Whether the coloured tables are used: the selection decides where
    /// there is one, the declared tone where there is none.
    pub fn is_colored(&self, declared_colored: bool) -> (colored: bool)
        ensures
            colored == self.spec_is_colored(declared_colored),
    {
        match self.selected {
            Some(selected) => selected,
            None => declared_colored,
        }
    }
}

/// The fill of a widget that is neither hovered nor disabled.
pub open spec fn base_fill(accent: AccentColor, kind: WidgetKind, colored: bool) -> Color {
    if colored && !kind.is_field() {
        accent.spec_primary_fill_color(PrimaryFillColorVariant::DefaultColored)
    } else {
        accent.spec_primary_fill_color(PrimaryFillColorVariant::DefaultGrayscale)
    }
}

/// The border of a widget that is neither focused, hovered nor disabled.
pub open spec fn base_border(accent: AccentColor, kind: WidgetKind, colored: bool) -> Color {
    if colored && !kind.is_field() {
        accent.spec_border_color(BorderColorVariant::DefaultColored)
    } else {
        accent.spec_border_color(BorderColorVariant::DefaultGrayscale)
    }
}

/// The fill of a hovered widget. A field keeps its fill under the pointer;
/// a neutral button or option darkens, each by its own amount.
pub open spec fn hovered_fill(accent: AccentColor, kind: WidgetKind, colored: bool) -> Color {
    match kind {
        WidgetKind::TextInput | WidgetKind::IntegerInput => base_fill(accent, kind, colored),
        WidgetKind::Button => if colored {
            accent.spec_primary_fill_color(PrimaryFillColorVariant::Hovered)
        } else {
            Color::spec_rgba(0, 0, 0, 20)
        },
        WidgetKind::Checkbox | WidgetKind::RadioButton => if colored {
            accent.spec_primary_fill_color(PrimaryFillColorVariant::Hovered)
        } else {
            Color::spec_rgba(0, 0, 0, 10)
        },
    }
}

/// The border of a hovered widget without focus.
pub open spec fn hovered_border(accent: AccentColor, kind: WidgetKind, colored: bool) -> Color {
    match kind {
        WidgetKind::TextInput | WidgetKind::IntegerInput => accent.spec_border_color(
            BorderColorVariant::HoveredGrayscale,
        ),
        WidgetKind::Button => if colored {
            accent.spec_border_color(BorderColorVariant::HoveredColored)
        } else {
            Color::spec_rgba(100, 100, 100, 20)
        },
        WidgetKind::Checkbox | WidgetKind::RadioButton => if colored {
            accent.spec_border_color(BorderColorVariant::HoveredColored)
        } else {
            accent.spec_border_color(BorderColorVariant::HoveredGrayscale)
        },
    }
}

/// The border of a focused widget. A field in focus always takes the
/// accent.
pub open spec fn focused_border(accent: AccentColor, kind: WidgetKind, colored: bool) -> Color {
    if colored || kind.is_field() {
        accent.spec_border_color(BorderColorVariant::FocusedColored)
    } else {
        accent.spec_border_color(BorderColorVariant::FocusedGrayscale)
    }
}

/// The colours of a disabled widget.
pub open spec fn disabled_style(accent: AccentColor) -> WidgetStyle {
    WidgetStyle {
        fill: accent.spec_primary_fill_color(PrimaryFillColorVariant::Disabled),
        border: accent.spec_border_color(BorderColorVariant::Disabled),
        text: accent.spec_disabled_text_color(),
    }
}

/// The fill that the flags call for.
pub open spec fn styled_fill(
    accent: AccentColor,
    kind: WidgetKind,
    declared_colored: bool,
    state: WidgetVisualState,
) -> Color {
    let colored = state.spec_is_colored(declared_colored);
    if state.disabled {
        disabled_style(accent).fill
    } else if state.hovering {
        hovered_fill(accent, kind, colored)
    } else {
        base_fill(accent, kind, colored)
    }
}

/// The border that the flags call for.
pub open spec fn styled_border(
    accent: AccentColor,
    kind: WidgetKind,
    declared_colored: bool,
    state: WidgetVisualState,
) -> Color {
    let colored = state.spec_is_colored(declared_colored);
    if state.disabled {
        disabled_style(accent).border
    } else if state.focused {
        focused_border(accent, kind, colored)
    } else if state.hovering {
        hovered_border(accent, kind, colored)
    } else {
        base_border(accent, kind, colored)
    }
}

/// The text colour that the flags call for.
pub open spec fn styled_text(accent: AccentColor, state: WidgetVisualState) -> Color {
    if state.disabled {
        disabled_style(accent).text
    } else {
        Color::spec_white()
    }
}

/// The colours of a widget of the given kind and declared tone in the given
/// state.
pub open spec fn composed_style(
    accent: AccentColor,
    kind: WidgetKind,
    declared_colored: bool,
    state: WidgetVisualState,
) -> WidgetStyle {
    WidgetStyle {
        fill: styled_fill(accent, kind, declared_colored, state),
        border: styled_border(accent, kind, declared_colored, state),
        text: styled_text(accent, state),
    }
}

/// The fill that a widget shows while it is pressed, where it has one of
/// its own.
pub open spec fn pressed_fill_of(accent: AccentColor, kind: WidgetKind, colored: bool) -> Option<
    Color,
> {
    match kind {
        WidgetKind::Button => if colored {
            Some(accent.spec_primary_fill_color(PrimaryFillColorVariant::Pressed))
        } else {
            Some(Color::spec_rgba(0, 0, 0, 60))
        },
        WidgetKind::Checkbox => Some(
            accent.spec_primary_fill_color(PrimaryFillColorVariant::Pressed),
        ),
        WidgetKind::RadioButton | WidgetKind::TextInput | WidgetKind::IntegerInput => None,
    }
}

/// The widget is one of the two fields.
fn kind_is_field(kind: WidgetKind) -> (field: bool)
    ensures
        field == kind.is_field(),
{
    match kind {
        WidgetKind::TextInput | WidgetKind::IntegerInput => true,
        _ => false,
    }
}

/// The fill of a widget that is neither hovered nor disabled.
fn fill_at_rest(accent: AccentColor, kind: WidgetKind, colored: bool) -> (c: Color)
    ensures
        c == base_fill(accent, kind, colored),
        c.well_formed(),
{
    if colored && !kind_is_field(kind) {
        accent.primary_fill_color(PrimaryFillColorVariant::DefaultColored)
    } else {
        accent.primary_fill_color(PrimaryFillColorVariant::DefaultGrayscale)
    }
}

/// The border of a widget that is neither focused, hovered nor disabled.
fn border_at_rest(accent: AccentColor, kind: WidgetKind, colored: bool) -> (c: Color)
    ensures
        c == base_border(accent, kind, colored),
        c.well_formed(),
{
    if colored && !kind_is_field(kind) {
        accent.border_color(BorderColorVariant::DefaultColored)
    } else {
        accent.border_color(BorderColorVariant::DefaultGrayscale)
    }
}

/// The fill of a hovered widget.
fn fill_under_pointer(accent: AccentColor, kind: WidgetKind, colored: bool) -> (c: Color)
    ensures
        c == hovered_fill(accent, kind, colored),
        c.well_formed(),
{
    match kind {
        WidgetKind::TextInput | WidgetKind::IntegerInput => fill_at_rest(accent, kind, colored),
        WidgetKind::Button => if colored {
            accent.primary_fill_color(PrimaryFillColorVariant::Hovered)
        } else {
            Color::rgba(0, 0, 0, 20)
        },
        WidgetKind::Checkbox | WidgetKind::RadioButton => if colored {
            accent.primary_fill_color(PrimaryFillColorVariant::Hovered)
        } else {
            Color::rgba(0, 0, 0, 10)
        },
    }
}

/// The border of a hovered widget without focus.
fn border_under_pointer(accent: AccentColor, kind: WidgetKind, colored: bool) -> (c: Color)
    ensures
        c == hovered_border(accent, kind, colored),
        c.well_formed(),
{
    match kind {
        WidgetKind::TextInput | WidgetKind::IntegerInput => accent.border_color(
            BorderColorVariant::HoveredGrayscale,
        ),
        WidgetKind::Button => if colored {
            accent.border_color(BorderColorVariant::HoveredColored)
        } else {
            Color::rgba(100, 100, 100, 20)
        },
        WidgetKind::Checkbox | WidgetKind::RadioButton => if colored {
            accent.border_color(BorderColorVariant::HoveredColored)
        } else {
            accent.border_color(BorderColorVariant::HoveredGrayscale)
        },
    }
}

/// The border of a focused widget.
fn border_in_focus(accent: AccentColor, kind: WidgetKind, colored: bool) -> (c: Color)
    ensures
        c == focused_border(accent, kind, colored),
        c.well_formed(),
{
    if colored || kind_is_field(kind) {
        accent.border_color(BorderColorVariant::FocusedColored)
    } else {
        accent.border_color(BorderColorVariant::FocusedGrayscale)
    }
}

/// The colours of a widget of the given kind and declared tone in the given
/// state. `declared_colored` is the tone of a widget without a selection:
/// whether it was built to stand out.
pub fn compose_style(
    accent: AccentColor,
    kind: WidgetKind,
    declared_colored: bool,
    state: WidgetVisualState,
) -> (style: WidgetStyle)
    ensures
        style == composed_style(accent, kind, declared_colored, state),
        state.disabled ==> style == disabled_style(accent),
        style.fill.well_formed(),
        style.border.well_formed(),
        style.text.well_formed(),
{
    if state.disabled {
        return WidgetStyle {
            fill: accent.primary_fill_color(PrimaryFillColorVariant::Disabled),
            border: accent.border_color(BorderColorVariant::Disabled),
            text: accent.disabled_text_color(),
        };
    }
    let colored = state.is_colored(declared_colored);
    let fill = if state.hovering {
        fill_under_pointer(accent, kind, colored)
    } else {
        fill_at_rest(accent, kind, colored)
    };
    let border = if state.focused {
        border_in_focus(accent, kind, colored)
    } else if state.hovering {
        border_under_pointer(accent, kind, colored)
    } else {
        border_at_rest(accent, kind, colored)
    };
    WidgetStyle { fill, border, text: Color::white() }
}

/// The fill that a widget shows while it is pressed, or `None` where the
/// widget has no fill of its own for that.
pub fn pressed_fill(accent: AccentColor, kind: WidgetKind, colored: bool) -> (fill: Option<Color>)
    ensures
        fill == pressed_fill_of(accent, kind, colored),
        fill matches Some(c) ==> c.well_formed(),
{
    match kind {
        WidgetKind::Button => if colored {
            Some(accent.primary_fill_color(PrimaryFillColorVariant::Pressed))
        } else {
            Some(Color::rgba(0, 0, 0, 60))
        },
        WidgetKind::Checkbox => Some(accent.primary_fill_color(PrimaryFillColorVariant::Pressed)),
        _ => None,
    }
}

/// A disabled widget shows the disabled colours of the accent: its kind,
/// its tone and its other flags change nothing.
pub proof fn lemma_disabled_wins(
    accent: AccentColor,
    kind: WidgetKind,
    declared_colored: bool,
    state: WidgetVisualState,
)
    requires
        state.disabled,
    ensures
        composed_style(accent, kind, declared_colored, state) == disabled_style(accent),
{
}

/// Two disabled widgets under one accent look the same, whatever their
/// kinds, tones and other flags.
pub proof fn lemma_disabled_styles_agree(
    accent: AccentColor,
    kind_a: WidgetKind,
    declared_a: bool,
    a: WidgetVisualState,
    kind_b: WidgetKind,
    declared_b: bool,
    b: WidgetVisualState,
)
    requires
        a.disabled,
        b.disabled,
    ensures
        composed_style(accent, kind_a, declared_a, a) == composed_style(
            accent,
            kind_b,
            declared_b,
            b,
        ),
{
}

/// The fill does not depend on the focus, and the text colour depends on
/// the disabled flag alone.
pub proof fn lemma_fill_ignores_focus(
    accent: AccentColor,
    kind: WidgetKind,
    declared_colored: bool,
    a: WidgetVisualState,
    b: WidgetVisualState,
)
    requires
        a.hovering == b.hovering,
        a.disabled == b.disabled,
        a.selected == b.selected,
    ensures
        composed_style(accent, kind, declared_colored, a).fill == composed_style(
            accent,
            kind,
            declared_colored,
            b,
        ).fill,
        composed_style(accent, kind, declared_colored, a).text == composed_style(
            accent,
            kind,
            declared_colored,
            b,
        ).text,
{
}

/// The border of a focused widget does not depend on the pointer: focus
/// goes before hover.
pub proof fn lemma_focus_before_hover(
    accent: AccentColor,
    kind: WidgetKind,
    declared_colored: bool,
    a: WidgetVisualState,
    b: WidgetVisualState,
)
    requires
        a.focused,
        b.focused,
        a.disabled == b.disabled,
        a.selected == b.selected,
    ensures
        composed_style(accent, kind, declared_colored, a).border == composed_style(
            accent,
            kind,
            declared_colored,
            b,
        ).border,
{
}

/// A focused widget under the pointer has the fill of the hovered widget
/// and the border of the focused one.
pub proof fn lemma_focus_and_hover_combine(
    accent: AccentColor,
    kind: WidgetKind,
    declared_colored: bool,
    state: WidgetVisualState,
)
    requires
        state.focused,
        state.hovering,
        !state.disabled,
    ensures
        composed_style(accent, kind, declared_colored, state).fill == hovered_fill(
            accent,
            kind,
            state.spec_is_colored(declared_colored),
        ),
        composed_style(accent, kind, declared_colored, state).border == focused_border(
            accent,
            kind,
            state.spec_is_colored(declared_colored),
        ),
{
}

/// No event changes how a disabled widget looks.
pub proof fn lemma_events_leave_disabled_style(
    accent: AccentColor,
    kind: WidgetKind,
    declared_colored: bool,
    state: WidgetVisualState,
    event: WidgetEvent,
)
    requires
        state.disabled,
    ensures
        composed_style(accent, kind, declared_colored, state.spec_after(event)) == composed_style(
            accent,
            kind,
            declared_colored,
            state,
        ),
{
}

/// Where the widget has a selection, its declared tone changes nothing.
pub proof fn lemma_selection_overrides_tone(
    accent: AccentColor,
    kind: WidgetKind,
    state: WidgetVisualState,
)
    requires
        state.selected.is_some(),
    ensures
        composed_style(accent, kind, true, state) == composed_style(accent, kind, false, state),
{
}

} // verus!
