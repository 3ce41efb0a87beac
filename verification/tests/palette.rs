use floem_ui_kit::accents::{
    border_variant, fill_variant, AccentColor, BorderColorVariant, PrimaryFillColorVariant,
    SemanticRole,
};
use floem_ui_kit::color::Color;
use floem_ui_kit::theme::Theme;

const ACCENTS: [AccentColor; 3] = [AccentColor::Magenta, AccentColor::Green, AccentColor::Cyan];

const ROLES: [SemanticRole; 8] = [
    SemanticRole::DefaultColored,
    SemanticRole::DefaultNeutral,
    SemanticRole::HoveredColored,
    SemanticRole::HoveredNeutral,
    SemanticRole::Pressed,
    SemanticRole::FocusedColored,
    SemanticRole::FocusedNeutral,
    SemanticRole::Disabled,
];

#[test]
fn colors_keep_their_channels() {
    let c = Color::rgb(27, 2, 15);
    assert_eq!((c.red, c.green, c.blue, c.alpha), (27, 2, 15, 100));
    let c = Color::rgba(23, 23, 23, 80);
    assert_eq!((c.red, c.green, c.blue, c.alpha), (23, 23, 23, 80));
    assert_eq!(Color::white(), Color::rgb(100, 100, 100));
    assert_eq!(Color::black(), Color::rgb(0, 0, 0));
    assert_eq!(Color::transparent(), Color::rgba(0, 0, 0, 0));
}

#[test]
fn the_accents_are_listed_in_order() {
    assert_eq!(AccentColor::variants(), vec![AccentColor::Magenta, AccentColor::Green, AccentColor::Cyan]);
}

#[test]
fn the_accents_have_names() {
    assert_eq!(AccentColor::Magenta.name(), "Magenta");
    assert_eq!(AccentColor::Green.name(), "Green");
    assert_eq!(AccentColor::Cyan.name(), "Cyan");
}

#[test]
fn window_backgrounds() {
    assert_eq!(AccentColor::Magenta.root_view_background(), Color::rgb(12, 11, 13));
    assert_eq!(AccentColor::Green.root_view_background(), Color::rgb(11, 11, 12));
    assert_eq!(AccentColor::Cyan.root_view_background(), Color::rgb(11, 12, 12));
}

#[test]
fn primary_fills() {
    let m = AccentColor::Magenta;
    let g = AccentColor::Green;
    let c = AccentColor::Cyan;
    assert_eq!(m.primary_fill_color(PrimaryFillColorVariant::DefaultColored), Color::rgb(27, 2, 15));
    assert_eq!(g.primary_fill_color(PrimaryFillColorVariant::DefaultColored), Color::rgb(7, 33, 15));
    assert_eq!(c.primary_fill_color(PrimaryFillColorVariant::DefaultColored), Color::rgb(9, 24, 21));
    assert_eq!(m.primary_fill_color(PrimaryFillColorVariant::Hovered), Color::rgb(29, 4, 17));
    assert_eq!(g.primary_fill_color(PrimaryFillColorVariant::Hovered), Color::rgb(9, 35, 17));
    assert_eq!(c.primary_fill_color(PrimaryFillColorVariant::Hovered), Color::rgb(11, 26, 23));
    assert_eq!(m.primary_fill_color(PrimaryFillColorVariant::Pressed), Color::rgb(25, 0, 13));
    assert_eq!(g.primary_fill_color(PrimaryFillColorVariant::Pressed), Color::rgb(5, 31, 13));
    assert_eq!(c.primary_fill_color(PrimaryFillColorVariant::Pressed), Color::rgb(7, 22, 19));
    for accent in ACCENTS {
        assert_eq!(
            accent.primary_fill_color(PrimaryFillColorVariant::DefaultGrayscale),
            Color::rgba(0, 0, 0, 30)
        );
        assert_eq!(
            accent.primary_fill_color(PrimaryFillColorVariant::Disabled),
            Color::rgb(40, 40, 40)
        );
    }
}

#[test]
fn secondary_fills() {
    assert_eq!(AccentColor::Magenta.secondary_fill_color(), Color::rgb(34, 9, 20));
    assert_eq!(AccentColor::Green.secondary_fill_color(), Color::rgb(16, 36, 22));
    assert_eq!(AccentColor::Cyan.secondary_fill_color(), Color::rgb(16, 31, 28));
}

#[test]
fn border_colors() {
    let m = AccentColor::Magenta;
    let g = AccentColor::Green;
    let c = AccentColor::Cyan;
    assert_eq!(m.border_color(BorderColorVariant::HoveredColored), Color::rgb(36, 11, 22));
    assert_eq!(g.border_color(BorderColorVariant::HoveredColored), Color::rgb(16, 39, 21));
    assert_eq!(c.border_color(BorderColorVariant::HoveredColored), Color::rgb(18, 33, 30));
    assert_eq!(m.border_color(BorderColorVariant::FocusedColored), Color::rgb(40, 15, 26));
    assert_eq!(g.border_color(BorderColorVariant::FocusedColored), Color::rgb(20, 43, 25));
    assert_eq!(c.border_color(BorderColorVariant::FocusedColored), Color::rgb(22, 37, 34));
    for accent in ACCENTS {
        assert_eq!(
            accent.border_color(BorderColorVariant::DefaultGrayscale),
            Color::rgba(23, 23, 23, 80)
        );
        assert_eq!(
            accent.border_color(BorderColorVariant::DefaultColored),
            Color::rgba(23, 23, 23, 80)
        );
        assert_eq!(
            accent.border_color(BorderColorVariant::HoveredGrayscale),
            Color::rgba(27, 27, 27, 95)
        );
        assert_eq!(accent.border_color(BorderColorVariant::FocusedGrayscale), Color::rgb(29, 29, 29));
        assert_eq!(accent.border_color(BorderColorVariant::Disabled), Color::rgb(30, 30, 30));
        assert_eq!(accent.disabled_text_color(), Color::rgb(50, 50, 50));
    }
}

#[test]
fn fills_know_five_roles() {
    assert_eq!(fill_variant(SemanticRole::DefaultColored), Some(PrimaryFillColorVariant::DefaultColored));
    assert_eq!(fill_variant(SemanticRole::DefaultNeutral), Some(PrimaryFillColorVariant::DefaultGrayscale));
    assert_eq!(fill_variant(SemanticRole::HoveredColored), Some(PrimaryFillColorVariant::Hovered));
    assert_eq!(fill_variant(SemanticRole::Pressed), Some(PrimaryFillColorVariant::Pressed));
    assert_eq!(fill_variant(SemanticRole::Disabled), Some(PrimaryFillColorVariant::Disabled));
    assert_eq!(fill_variant(SemanticRole::HoveredNeutral), None);
    assert_eq!(fill_variant(SemanticRole::FocusedColored), None);
    assert_eq!(fill_variant(SemanticRole::FocusedNeutral), None);
}

#[test]
fn borders_know_all_roles_but_pressed() {
    assert_eq!(border_variant(SemanticRole::Pressed), None);
    assert_eq!(border_variant(SemanticRole::DefaultColored), Some(BorderColorVariant::DefaultColored));
    assert_eq!(border_variant(SemanticRole::DefaultNeutral), Some(BorderColorVariant::DefaultGrayscale));
    assert_eq!(border_variant(SemanticRole::HoveredColored), Some(BorderColorVariant::HoveredColored));
    assert_eq!(border_variant(SemanticRole::HoveredNeutral), Some(BorderColorVariant::HoveredGrayscale));
    assert_eq!(border_variant(SemanticRole::FocusedColored), Some(BorderColorVariant::FocusedColored));
    assert_eq!(border_variant(SemanticRole::FocusedNeutral), Some(BorderColorVariant::FocusedGrayscale));
    assert_eq!(border_variant(SemanticRole::Disabled), Some(BorderColorVariant::Disabled));
}

#[test]
fn resolving_a_role_gives_the_same_color_every_time() {
    for accent in ACCENTS {
        for role in ROLES {
            if let Some(variant) = fill_variant(role) {
                let first = accent.resolve_fill(role);
                assert_eq!(first, accent.resolve_fill(role));
                assert_eq!(first, accent.primary_fill_color(variant));
            }
            if let Some(variant) = border_variant(role) {
                let first = accent.resolve_border(role);
                assert_eq!(first, accent.resolve_border(role));
                assert_eq!(first, accent.border_color(variant));
            }
        }
        assert_eq!(accent.resolve_text(SemanticRole::Disabled), Color::rgb(50, 50, 50));
    }
    assert_eq!(AccentColor::Green.resolve_fill(SemanticRole::Pressed), Color::rgb(5, 31, 13));
    assert_eq!(AccentColor::Cyan.resolve_border(SemanticRole::FocusedColored), Color::rgb(22, 37, 34));
}

#[test]
fn the_default_theme_is_magenta_with_a_margin_of_twenty() {
    let theme = Theme::default();
    assert_eq!(theme.accent_color, AccentColor::Magenta);
    assert_eq!(theme.horizontal_window_margin, 20);
    let green = theme.with_accent(AccentColor::Green);
    assert_eq!(green.accent_color, AccentColor::Green);
    assert_eq!(green.horizontal_window_margin, 20);
}
