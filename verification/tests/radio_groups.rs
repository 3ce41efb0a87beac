use floem_ui_kit::accents::AccentColor;
use floem_ui_kit::color::Color;
use floem_ui_kit::radio::{check_options, LayoutSlot, RadioGroup, RadioGroupVariant, CHECKED_SVG};
use floem_ui_kit::theme::Theme;

const A: u64 = 10;
const B: u64 = 20;
const C: u64 = 30;

fn group_of(options: Vec<u64>, selection: u64, gap: u32, variant: RadioGroupVariant) -> RadioGroup {
    assert!(check_options(&options, selection));
    Theme::default().radio_group(&options, selection, gap, variant)
}

fn abc(selection: u64) -> RadioGroup {
    group_of(vec![A, B, C], selection, 10, RadioGroupVariant::Horizontal)
}

fn selected_flags(group: &RadioGroup) -> Vec<bool> {
    (0..group.len()).map(|i| group.is_selected(i)).collect()
}

#[test]
fn options_must_be_distinct_and_hold_the_selection() {
    assert!(check_options(&vec![A, B, C], A));
    assert!(check_options(&vec![A, B, C], C));
    assert!(check_options(&vec![B], B));
    assert!(!check_options(&vec![], A));
    assert!(!check_options(&vec![A, B, C], 40));
    assert!(!check_options(&vec![A, B, A], A));
    assert!(!check_options(&vec![A, B, B], A));
    assert!(!check_options(&vec![A, A], A));
    assert!(!check_options(&vec![A, B, C, B], C));
}

#[test]
fn a_group_keeps_its_options_in_order() {
    let group = group_of(vec![C, A, B], A, 4, RadioGroupVariant::Vertical);
    assert_eq!(group.len(), 3);
    assert_eq!(group.options(), vec![C, A, B]);
    assert_eq!(group.option_at(0), Some(C));
    assert_eq!(group.option_at(1), Some(A));
    assert_eq!(group.option_at(2), Some(B));
    assert_eq!(group.option_at(3), None);
    assert_eq!(group.selection(), A);
    assert_eq!(group.selected_index(), 1);
    assert_eq!(group.gap(), 4);
    assert_eq!(group.variant(), RadioGroupVariant::Vertical);
}

#[test]
fn a_group_of_many_options_keeps_them_all() {
    let options: Vec<u64> = (0..500u64).map(|i| i * 3 + 1).collect();
    let group = group_of(options.clone(), 1498, 1, RadioGroupVariant::Vertical);
    assert_eq!(group.len(), 500);
    assert_eq!(group.options(), options);
    assert_eq!(group.option_at(499), Some(1498));
    assert_eq!(group.selected_index(), 499);
    assert_eq!(group.layout().len(), 999);
}

#[test]
fn a_click_selects_the_clicked_option_and_no_other() {
    let mut group = abc(A);
    assert_eq!(selected_flags(&group), vec![true, false, false]);
    assert!(group.click(1));
    assert_eq!(group.selection(), B);
    assert_eq!(selected_flags(&group), vec![false, true, false]);
    assert_eq!(group.selected_index(), 1);
    assert_eq!(group.options(), vec![A, B, C]);
    assert!(group.click(2));
    assert_eq!(group.selection(), C);
    assert_eq!(selected_flags(&group), vec![false, false, true]);
    assert!(group.click(2));
    assert_eq!(group.selection(), C);
    assert_eq!(selected_flags(&group).iter().filter(|s| **s).count(), 1);
}

#[test]
fn a_click_beside_the_options_changes_nothing() {
    let mut group = abc(B);
    assert!(!group.click(3));
    assert_eq!(group.selection(), B);
    assert_eq!(selected_flags(&group), vec![false, true, false]);
    assert!(!group.is_selected(7));
}

#[test]
fn gaps_stand_between_neighbours_only() {
    let group = abc(A);
    assert_eq!(
        group.layout(),
        vec![
            LayoutSlot::Item(A),
            LayoutSlot::Gap(10),
            LayoutSlot::Item(B),
            LayoutSlot::Gap(10),
            LayoutSlot::Item(C),
        ]
    );
    let single = group_of(vec![B], B, 10, RadioGroupVariant::Horizontal);
    assert_eq!(single.layout(), vec![LayoutSlot::Item(B)]);
    let pair = group_of(vec![B, A], B, 0, RadioGroupVariant::Vertical);
    assert_eq!(pair.layout(), vec![LayoutSlot::Item(B), LayoutSlot::Gap(0), LayoutSlot::Item(A)]);
}

#[test]
fn a_row_of_n_options_has_n_minus_one_gaps() {
    for n in 1..40u64 {
        let options: Vec<u64> = (0..n).collect();
        let group = group_of(options, 0, 6, RadioGroupVariant::Horizontal);
        let slots = group.layout();
        let gaps = slots.iter().filter(|s| matches!(s, LayoutSlot::Gap(_))).count();
        let items = slots.iter().filter(|s| matches!(s, LayoutSlot::Item(_))).count();
        assert_eq!(gaps as u64, n - 1);
        assert_eq!(items as u64, n);
        assert!(slots.iter().all(|s| !matches!(s, LayoutSlot::Gap(g) if *g != 6)));
        assert!(matches!(slots[0], LayoutSlot::Item(0)));
        assert!(matches!(slots[slots.len() - 1], LayoutSlot::Item(_)));
    }
}

#[test]
fn the_gap_runs_along_the_direction() {
    assert_eq!(group_of(vec![A, B], A, 10, RadioGroupVariant::Horizontal).gaps(), (10, 0));
    assert_eq!(group_of(vec![A, B], A, 10, RadioGroupVariant::Vertical).gaps(), (0, 10));
}

#[test]
fn an_option_is_drawn_selected_when_it_is_the_selection() {
    let theme = Theme::default().with_accent(AccentColor::Green);
    let selected = theme.radio_button(A, A, false, false, false);
    assert_eq!(selected.fill, Color::rgb(7, 33, 15));
    assert_eq!(selected.border, Color::rgba(23, 23, 23, 80));
    let other = theme.radio_button(B, A, false, false, false);
    assert_eq!(other.fill, Color::rgba(0, 0, 0, 30));
    let selected_hovered = theme.radio_button(A, A, true, false, false);
    assert_eq!(selected_hovered.fill, Color::rgb(9, 35, 17));
    assert_eq!(selected_hovered.border, Color::rgb(16, 39, 21));
    let other_hovered = theme.radio_button(B, A, true, false, false);
    assert_eq!(other_hovered.fill, Color::rgba(0, 0, 0, 10));
    assert_eq!(other_hovered.border, Color::rgba(27, 27, 27, 95));
    let selected_focused = theme.radio_button(A, A, true, true, false);
    assert_eq!(selected_focused.fill, Color::rgb(9, 35, 17));
    assert_eq!(selected_focused.border, Color::rgb(20, 43, 25));
    let other_focused = theme.radio_button(B, A, false, true, false);
    assert_eq!(other_focused.border, Color::rgb(29, 29, 29));
    let disabled = theme.radio_button(A, A, true, true, true);
    assert_eq!(disabled.fill, Color::rgb(40, 40, 40));
    assert_eq!(disabled.border, Color::rgb(30, 30, 30));
    assert_eq!(disabled.text, Color::rgb(50, 50, 50));
}

#[test]
fn the_styles_of_a_group_follow_its_selection() {
    let theme = Theme::default();
    let mut group = abc(A);
    assert_eq!(group.option_style(theme, 0, false, false, false).fill, Color::rgb(27, 2, 15));
    assert_eq!(group.option_style(theme, 1, false, false, false).fill, Color::rgba(0, 0, 0, 30));
    group.click(1);
    assert_eq!(group.option_style(theme, 0, false, false, false).fill, Color::rgba(0, 0, 0, 30));
    assert_eq!(group.option_style(theme, 1, false, false, false).fill, Color::rgb(27, 2, 15));
    assert_eq!(
        group.option_style(theme, 1, true, false, false),
        theme.radio_button(B, B, true, false, false)
    );
}

#[test]
fn the_mark_shows_on_the_selected_option_only() {
    let theme = Theme::default();
    assert_eq!(theme.radio_button_symbol(A, A), CHECKED_SVG);
    assert_eq!(theme.radio_button_symbol(B, A), "");
    assert!(CHECKED_SVG.contains("<circle cx=\"5\" cy=\"5\" r=\"2\" fill=\"white\" />"));
}
