//! The accent palettes: which colour each accent gives to each surface.
//!
//! Fills and borders are looked up by a variant of their own; the semantic
//! roles offer the same tables under one name for the three surfaces, and
//! say which role each surface knows.
use vstd::prelude::*;
use crate::color::Color;

verus! {

/// The accent that tints the whole kit.
#[derive(Debug, Clone, Copy, Eq, PartialEq, Hash, Structural)]
pub enum AccentColor {
    Magenta,
    Green,
    Cyan,
}

/// The fills of a widget's main surface.
#[derive(Debug, Clone, Copy, Eq, PartialEq, Structural)]
pub enum PrimaryFillColorVariant {
    DefaultGrayscale,
    DefaultColored,
    Hovered,
    Pressed,
    Disabled,
}

/// The colours of a widget's border.
#[derive(Debug, Clone, Copy, Eq, PartialEq, Structural)]
pub enum BorderColorVariant {
    DefaultGrayscale,
    DefaultColored,
    HoveredGrayscale,
    HoveredColored,
    FocusedColored,
    FocusedGrayscale,
    Disabled,
}

/// An interaction state crossed with a tone, under which a surface asks the
/// palette for its colour.
#[derive(Debug, Clone, Copy, Eq, PartialEq, Structural)]
pub enum SemanticRole {
    DefaultColored,
    DefaultNeutral,
    HoveredColored,
    HoveredNeutral,
    Pressed,
    FocusedColored,
    FocusedNeutral,
    Disabled,
}

/// The fill that a role names, where fills know the role.
pub open spec fn fill_variant_of(role: SemanticRole) -> Option<PrimaryFillColorVariant> {
    match role {
        SemanticRole::DefaultColored => Some(PrimaryFillColorVariant::DefaultColored),
        SemanticRole::DefaultNeutral => Some(PrimaryFillColorVariant::DefaultGrayscale),
        SemanticRole::HoveredColored => Some(PrimaryFillColorVariant::Hovered),
        SemanticRole::Pressed => Some(PrimaryFillColorVariant::Pressed),
        SemanticRole::Disabled => Some(PrimaryFillColorVariant::Disabled),
        SemanticRole::HoveredNeutral => None,
        SemanticRole::FocusedColored => None,
        SemanticRole::FocusedNeutral => None,
    }
}

/// The border colour that a role names, where borders know the role.
pub open spec fn border_variant_of(role: SemanticRole) -> Option<BorderColorVariant> {
    match role {
        SemanticRole::DefaultColored => Some(BorderColorVariant::DefaultColored),
        SemanticRole::DefaultNeutral => Some(BorderColorVariant::DefaultGrayscale),
        SemanticRole::HoveredColored => Some(BorderColorVariant::HoveredColored),
        SemanticRole::HoveredNeutral => Some(BorderColorVariant::HoveredGrayscale),
        SemanticRole::FocusedColored => Some(BorderColorVariant::FocusedColored),
        SemanticRole::FocusedNeutral => Some(BorderColorVariant::FocusedGrayscale),
        SemanticRole::Disabled => Some(BorderColorVariant::Disabled),
        SemanticRole::Pressed => None,
    }
}

/// Text knows one role of the palette: the disabled one.
pub open spec fn text_knows(role: SemanticRole) -> bool {
    role == SemanticRole::Disabled
}

/// The fill that a role names, or `None` where fills do not know the role.
pub fn fill_variant(role: SemanticRole) -> (variant: Option<PrimaryFillColorVariant>)
    ensures
        variant == fill_variant_of(role),
{
    match role {
        SemanticRole::DefaultColored => Some(PrimaryFillColorVariant::DefaultColored),
        SemanticRole::DefaultNeutral => Some(PrimaryFillColorVariant::DefaultGrayscale),
        SemanticRole::HoveredColored => Some(PrimaryFillColorVariant::Hovered),
        SemanticRole::Pressed => Some(PrimaryFillColorVariant::Pressed),
        SemanticRole::Disabled => Some(PrimaryFillColorVariant::Disabled),
        _ => None,
    }
}

/// The border colour that a role names, or `None` where borders do not know
/// the role.
pub fn border_variant(role: SemanticRole) -> (variant: Option<BorderColorVariant>)
    ensures
        variant == border_variant_of(role),
{
    match role {
        SemanticRole::DefaultColored => Some(BorderColorVariant::DefaultColored),
        SemanticRole::DefaultNeutral => Some(BorderColorVariant::DefaultGrayscale),
        SemanticRole::HoveredColored => Some(BorderColorVariant::HoveredColored),
        SemanticRole::HoveredNeutral => Some(BorderColorVariant::HoveredGrayscale),
        SemanticRole::FocusedColored => Some(BorderColorVariant::FocusedColored),
        SemanticRole::FocusedNeutral => Some(BorderColorVariant::FocusedGrayscale),
        SemanticRole::Disabled => Some(BorderColorVariant::Disabled),
        SemanticRole::Pressed => None,
    }
}

impl AccentColor {
    /// The accents in the order in which a chooser lists them.
    pub open spec fn spec_variants() -> Seq<AccentColor> {
        seq![AccentColor::Magenta, AccentColor::Green, AccentColor::Cyan]
    }

    /// The background of the window.
    pub open spec fn spec_root_view_background(self) -> Color {
        match self {
            AccentColor::Magenta => Color::spec_rgb(12, 11, 13),
            AccentColor::Green => Color::spec_rgb(11, 11, 12),
            AccentColor::Cyan => Color::spec_rgb(11, 12, 12),
        }
    }

    /// The fill of a widget's main surface.
    pub open spec fn spec_primary_fill_color(self, variant: PrimaryFillColorVariant) -> Color {
        match variant {
            PrimaryFillColorVariant::DefaultColored => match self {
                AccentColor::Magenta => Color::spec_rgb(27, 2, 15),
                AccentColor::Green => Color::spec_rgb(7, 33, 15),
                AccentColor::Cyan => Color::spec_rgb(9, 24, 21),
            },
            PrimaryFillColorVariant::DefaultGrayscale => Color::spec_rgba(0, 0, 0, 30),
            PrimaryFillColorVariant::Hovered => match self {
                AccentColor::Magenta => Color::spec_rgb(29, 4, 17),
                AccentColor::Green => Color::spec_rgb(9, 35, 17),
                AccentColor::Cyan => Color::spec_rgb(11, 26, 23),
            },
            PrimaryFillColorVariant::Pressed => match self {
                AccentColor::Magenta => Color::spec_rgb(25, 0, 13),
                AccentColor::Green => Color::spec_rgb(5, 31, 13),
                AccentColor::Cyan => Color::spec_rgb(7, 22, 19),
            },
            PrimaryFillColorVariant::Disabled => Color::spec_rgb(40, 40, 40),
        }
    }

    /// The fill of decorations that sit on a primary fill.
    pub open spec fn spec_secondary_fill_color(self) -> Color {
        match self {
            AccentColor::Magenta => Color::spec_rgb(34, 9, 20),
            AccentColor::Green => Color::spec_rgb(16, 36, 22),
            AccentColor::Cyan => Color::spec_rgb(16, 31, 28),
        }
    }

    /// The colour of a widget's border.
    pub open spec fn spec_border_color(self, variant: BorderColorVariant) -> Color {
        match variant {
            BorderColorVariant::DefaultGrayscale => Color::spec_rgba(23, 23, 23, 80),
            BorderColorVariant::DefaultColored => Color::spec_rgba(23, 23, 23, 80),
            BorderColorVariant::HoveredGrayscale => Color::spec_rgba(27, 27, 27, 95),
            BorderColorVariant::HoveredColored => match self {
                AccentColor::Magenta => Color::spec_rgb(36, 11, 22),
                AccentColor::Green => Color::spec_rgb(16, 39, 21),
                AccentColor::Cyan => Color::spec_rgb(18, 33, 30),
            },
            BorderColorVariant::FocusedColored => match self {
                AccentColor::Magenta => Color::spec_rgb(40, 15, 26),
                AccentColor::Green => Color::spec_rgb(20, 43, 25),
                AccentColor::Cyan => Color::spec_rgb(22, 37, 34),
            },
            BorderColorVariant::FocusedGrayscale => Color::spec_rgb(29, 29, 29),
            BorderColorVariant::Disabled => Color::spec_rgb(30, 30, 30),
        }
    }

    /// The colour of text on a disabled widget.
    pub open spec fn spec_disabled_text_color(self) -> Color {
        Color::spec_rgb(50, 50, 50)
    }

    /// The accents in the order in which a chooser lists them.
    pub fn variants() -> (all: Vec<AccentColor>)
        ensures
            all@ == AccentColor::spec_variants(),
    {
        let mut all: Vec<AccentColor> = Vec::new();
        all.push(AccentColor::Magenta);
        all.push(AccentColor::Green);
        all.push(AccentColor::Cyan);
        assert(all@ =~= AccentColor::spec_variants());
        all
    }

    /// The name under which the accent is shown.
    pub fn name(&self) -> (label: &'static str)
        ensures
            label@ == match *self {
                AccentColor::Magenta => "Magenta"@,
                AccentColor::Green => "Green"@,
                AccentColor::Cyan => "Cyan"@,
            },
    {
        match self {
            AccentColor::Magenta => "Magenta",
            AccentColor::Green => "Green",
            AccentColor::Cyan => "Cyan",
        }
    }

    /// The background of the window.
    pub fn root_view_background(&self) -> (c: Color)
        ensures
            c == self.spec_root_view_background(),
            c.well_formed(),
    {
        match self {
            AccentColor::Magenta => Color::rgb(12, 11, 13),
            AccentColor::Green => Color::rgb(11, 11, 12),
            AccentColor::Cyan => Color::rgb(11, 12, 12),
        }
    }

    /// The fill of a widget's main surface.
    pub fn primary_fill_color(&self, variant: PrimaryFillColorVariant) -> (c: Color)
        ensures
            c == self.spec_primary_fill_color(variant),
            c.well_formed(),
    {
        match variant {
            PrimaryFillColorVariant::DefaultColored => match self {
                AccentColor::Magenta => Color::rgb(27, 2, 15),
                AccentColor::Green => Color::rgb(7, 33, 15),
                AccentColor::Cyan => Color::rgb(9, 24, 21),
            },
            PrimaryFillColorVariant::DefaultGrayscale => Color::rgba(0, 0, 0, 30),
            PrimaryFillColorVariant::Hovered => match self {
                AccentColor::Magenta => Color::rgb(29, 4, 17),
                AccentColor::Green => Color::rgb(9, 35, 17),
                AccentColor::Cyan => Color::rgb(11, 26, 23),
            },
            PrimaryFillColorVariant::Pressed => match self {
                AccentColor::Magenta => Color::rgb(25, 0, 13),
                AccentColor::Green => Color::rgb(5, 31, 13),
                AccentColor::Cyan => Color::rgb(7, 22, 19),
            },
            PrimaryFillColorVariant::Disabled => Color::rgb(40, 40, 40),
        }
    }

    /// The fill of decorations that sit on a primary fill.
    pub fn secondary_fill_color(&self) -> (c: Color)
        ensures
            c == self.spec_secondary_fill_color(),
            c.well_formed(),
    {
        match self {
            AccentColor::Magenta => Color::rgb(34, 9, 20),
            AccentColor::Green => Color::rgb(16, 36, 22),
            AccentColor::Cyan => Color::rgb(16, 31, 28),
        }
    }

    /// The colour of a widget's border.
    pub fn border_color(&self, variant: BorderColorVariant) -> (c: Color)
        ensures
            c == self.spec_border_color(variant),
            c.well_formed(),
    {
        match variant {
            BorderColorVariant::DefaultGrayscale => Color::rgba(23, 23, 23, 80),
            BorderColorVariant::DefaultColored => Color::rgba(23, 23, 23, 80),
            BorderColorVariant::HoveredGrayscale => Color::rgba(27, 27, 27, 95),
            BorderColorVariant::HoveredColored => match self {
                AccentColor::Magenta => Color::rgb(36, 11, 22),
                AccentColor::Green => Color::rgb(16, 39, 21),
                AccentColor::Cyan => Color::rgb(18, 33, 30),
            },
            BorderColorVariant::FocusedColored => match self {
                AccentColor::Magenta => Color::rgb(40, 15, 26),
                AccentColor::Green => Color::rgb(20, 43, 25),
                AccentColor::Cyan => Color::rgb(22, 37, 34),
            },
            BorderColorVariant::FocusedGrayscale => Color::rgb(29, 29, 29),
            BorderColorVariant::Disabled => Color::rgb(30, 30, 30),
        }
    }

    /// The colour of text on a disabled widget.
    pub fn disabled_text_color(&self) -> (c: Color)
        ensures
            c == self.spec_disabled_text_color(),
            c.well_formed(),
    {
        Color::rgb(50, 50, 50)
    }

    /// The fill for a role that fills know.
    pub fn resolve_fill(&self, role: SemanticRole) -> (c: Color)
        requires
            fill_variant_of(role).is_some(),
        ensures
            c == self.spec_primary_fill_color(fill_variant_of(role).unwrap()),
            c.well_formed(),
    {
        match fill_variant(role) {
            Some(variant) => self.primary_fill_color(variant),
            None => {
                proof {
                    assert(false);
                }
                Color::black()
            },
        }
    }

    /// The border colour for a role that borders know.
    pub fn resolve_border(&self, role: SemanticRole) -> (c: Color)
        requires
            border_variant_of(role).is_some(),
        ensures
            c == self.spec_border_color(border_variant_of(role).unwrap()),
            c.well_formed(),
    {
        match border_variant(role) {
            Some(variant) => self.border_color(variant),
            None => {
                proof {
                    assert(false);
                }
                Color::black()
            },
        }
    }

    /// The text colour for the role that text knows.
    pub fn resolve_text(&self, role: SemanticRole) -> (c: Color)
        requires
            text_knows(role),
        ensures
            c == self.spec_disabled_text_color(),
            c.well_formed(),
    {
        self.disabled_text_color()
    }
}

/// The neutral fills and borders are the same under every accent.
pub proof fn lemma_neutral_colors_ignore_accent(a: AccentColor, b: AccentColor)
    ensures
        a.spec_primary_fill_color(PrimaryFillColorVariant::DefaultGrayscale)
            == b.spec_primary_fill_color(PrimaryFillColorVariant::DefaultGrayscale),
        a.spec_primary_fill_color(PrimaryFillColorVariant::Disabled) == b.spec_primary_fill_color(
            PrimaryFillColorVariant::Disabled,
        ),
        a.spec_border_color(BorderColorVariant::DefaultGrayscale) == b.spec_border_color(
            BorderColorVariant::DefaultGrayscale,
        ),
        a.spec_border_color(BorderColorVariant::HoveredGrayscale) == b.spec_border_color(
            BorderColorVariant::HoveredGrayscale,
        ),
        a.spec_border_color(BorderColorVariant::FocusedGrayscale) == b.spec_border_color(
            BorderColorVariant::FocusedGrayscale,
        ),
        a.spec_border_color(BorderColorVariant::Disabled) == b.spec_border_color(
            BorderColorVariant::Disabled,
        ),
        a.spec_disabled_text_color() == b.spec_disabled_text_color(),
{
}

} // verus!
