use floem_ui_kit::integer::BoundedInt;
use floem_ui_kit::numeric_input::{
    clamp, spinbox_button_fill, spinbox_button_text, NumericBinding, TextReaction,
};
use floem_ui_kit::color::Color;
use floem_ui_kit::style::WidgetVisualState;
use floem_ui_kit::theme::Theme;

fn showcase_field(value: i32) -> NumericBinding<i32> {
    Theme::default().integer_input(value, 1, Some(-2), Some(9000))
}

#[test]
fn setting_the_value_rewrites_the_text() {
    let mut field = showcase_field(0);
    field.set_value(5);
    assert_eq!(field.value(), 5);
    assert_eq!(field.text(), "5");
}

#[test]
fn typing_a_number_within_the_bounds_sets_the_value() {
    let mut field = showcase_field(0);
    field.type_text("12");
    assert_eq!(field.value(), 12);
    assert_eq!(field.text(), "12");
}

#[test]
fn typing_a_number_above_the_bound_is_corrected() {
    let mut field = showcase_field(0);
    field.type_text("99999");
    assert_eq!(field.value(), 9000);
    assert_eq!(field.text(), "9000");
}

#[test]
fn typing_a_number_below_the_bound_is_corrected() {
    let mut field = showcase_field(0);
    field.type_text("-17");
    assert_eq!(field.value(), -2);
    assert_eq!(field.text(), "-2");
}

#[test]
fn typing_what_is_no_number_reverts_the_text() {
    let mut field = showcase_field(7);
    field.type_text("abc");
    assert_eq!(field.value(), 7);
    assert_eq!(field.text(), "7");
    field.type_text("");
    assert_eq!(field.value(), 7);
    assert_eq!(field.text(), "7");
    field.type_text("99999999999999999999");
    assert_eq!(field.value(), 7);
    assert_eq!(field.text(), "7");
}

#[test]
fn typing_leading_zeros_is_corrected_when_the_value_changes() {
    let mut field = showcase_field(5);
    field.type_text("007");
    assert_eq!(field.value(), 7);
    assert_eq!(field.text(), "7");
}

#[test]
fn typing_leading_zeros_of_the_held_value_writes_nothing() {
    let mut field = showcase_field(7);
    field.type_text("007");
    assert_eq!(field.value(), 7);
    assert_eq!(field.text(), "007");
    field.increment();
    assert_eq!(field.value(), 8);
    assert_eq!(field.text(), "8");
}

#[test]
fn decrementing_at_the_lower_bound_does_not_last() {
    let mut field = showcase_field(-2);
    assert!(field.can_decrement());
    field.decrement();
    assert_eq!(field.value(), -2);
    assert_eq!(field.text(), "-2");
}

#[test]
fn incrementing_at_the_upper_bound_does_not_last() {
    let mut field = showcase_field(9000);
    field.increment();
    assert_eq!(field.value(), 9000);
    assert_eq!(field.text(), "9000");
}

#[test]
fn stepping_within_the_bounds_moves_the_value() {
    let mut field = Theme::default().integer_input(10i64, 5, Some(0), Some(100));
    field.increment();
    assert_eq!(field.value(), 15);
    assert_eq!(field.text(), "15");
    field.decrement();
    field.decrement();
    assert_eq!(field.value(), 5);
    assert_eq!(field.text(), "5");
    field.decrement();
    assert_eq!(field.value(), 0);
    field.decrement();
    assert_eq!(field.value(), 0);
    assert_eq!(field.text(), "0");
}

#[test]
fn stepping_without_bounds_is_free() {
    let mut field = Theme::default().integer_input(0i16, 100, None, None);
    field.decrement();
    assert_eq!(field.value(), -100);
    assert_eq!(field.text(), "-100");
}

#[test]
fn a_step_that_leaves_the_type_cannot_act() {
    let field = Theme::default().integer_input(u8::MAX, 1, None, None);
    assert!(!field.can_increment());
    assert!(field.can_decrement());
    let field = Theme::default().integer_input(0u8, 1, None, None);
    assert!(field.can_increment());
    assert!(!field.can_decrement());
    let field = Theme::default().integer_input(i64::MIN, 1, None, None);
    assert!(!field.can_decrement());
}

#[test]
fn a_start_value_outside_the_bounds_is_brought_in() {
    let field = Theme::default().integer_input(50u32, 1, Some(100), Some(200));
    assert_eq!(field.value(), 100);
    assert_eq!(field.text(), "100");
    assert_eq!(field.step(), 1);
    assert_eq!(field.min(), Some(100));
    assert_eq!(field.max(), Some(200));
}

#[test]
fn an_unsigned_field_refuses_a_minus_sign() {
    let mut field = Theme::default().integer_input(3u32, 1, None, None);
    field.type_text("-3");
    assert_eq!(field.value(), 3);
    assert_eq!(field.text(), "3");
    field.type_text("+4");
    assert_eq!(field.value(), 4);
    assert_eq!(field.text(), "4");
}

#[test]
fn the_reaction_to_the_value_writes_only_what_differs() {
    let mut field = NumericBinding::new(5i32, 1, None, None);
    assert!(!field.on_value_change());
    field.write_value(6);
    assert_eq!(field.text(), "5");
    assert!(field.on_value_change());
    assert_eq!(field.text(), "6");
    assert!(!field.on_value_change());
}

#[test]
fn the_reaction_to_the_text_reports_what_it_did() {
    let mut field = NumericBinding::new(5i32, 1, Some(0), Some(10));
    assert_eq!(field.on_text_change(), TextReaction::Unchanged);
    field.write_text("x");
    assert_eq!(field.on_text_change(), TextReaction::Reverted);
    assert_eq!(field.text(), "5");
    assert_eq!(field.value(), 5);
    field.write_text("8");
    assert_eq!(field.on_text_change(), TextReaction::ValueWritten);
    assert_eq!(field.value(), 8);
    assert_eq!(field.text(), "8");
    field.write_text("11");
    assert_eq!(field.on_text_change(), TextReaction::ValueWritten);
    assert_eq!(field.value(), 10);
    assert_eq!(field.text(), "11");
    assert!(field.on_value_change());
    assert_eq!(field.text(), "10");
    assert_eq!(field.on_text_change(), TextReaction::Unchanged);
}

#[test]
fn a_number_at_the_bound_typed_past_it_still_writes() {
    let mut field = NumericBinding::new(10i32, 1, Some(0), Some(10));
    field.write_text("12");
    assert_eq!(field.on_text_change(), TextReaction::ValueWritten);
    assert_eq!(field.value(), 10);
    field.settle_after_value_change();
    assert_eq!(field.text(), "10");
}

#[test]
fn clamping_raises_then_lowers() {
    assert_eq!(clamp(5i32, Some(0), Some(10)), 5);
    assert_eq!(clamp(-5i32, Some(0), Some(10)), 0);
    assert_eq!(clamp(15i32, Some(0), Some(10)), 10);
    assert_eq!(clamp(15i32, None, Some(10)), 10);
    assert_eq!(clamp(-15i32, None, Some(10)), -15);
    assert_eq!(clamp(-15i32, Some(0), None), 0);
    assert_eq!(clamp(15i32, None, None), 15);
    assert_eq!(clamp(5i32, Some(8), Some(3)), 3);
}

#[test]
fn clamping_twice_is_clamping_once() {
    let bounds = [(Some(-2i64), Some(9000i64)), (None, Some(3)), (Some(3), None), (Some(8), Some(3))];
    for (min, max) in bounds {
        let mut v: i64 = -20;
        while v <= 20 {
            let once = clamp(v, min, max);
            assert_eq!(clamp(once, min, max), once);
            v += 1;
        }
    }
    assert_eq!(clamp(4i64, Some(-2), Some(9000)), 4);
}

#[test]
fn every_integer_type_knows_its_range() {
    assert_eq!(<i8 as BoundedInt>::lowest_value(), -128);
    assert_eq!(<i8 as BoundedInt>::highest_value(), 127);
    assert_eq!(<u64 as BoundedInt>::lowest_value(), 0);
    assert_eq!(<u64 as BoundedInt>::highest_value(), u64::MAX as i128);
    assert_eq!(<i64 as BoundedInt>::lowest_value(), i64::MIN as i128);
    assert_eq!(<u16 as BoundedInt>::narrow(65535), Some(65535u16));
    assert_eq!(<u16 as BoundedInt>::narrow(65536), None);
    assert_eq!(<i16 as BoundedInt>::narrow(-32769), None);
    assert_eq!(<i32 as BoundedInt>::narrow(-1), Some(-1i32));
    assert_eq!(<u32 as BoundedInt>::narrow(-1), None);
    assert_eq!((-7i32).widen(), -7);
    assert_eq!(200u8.widen(), 200);
}

#[test]
fn the_frame_of_a_field_follows_focus_and_pointer() {
    let theme = Theme::default();
    let rest = theme.integer_input_style(WidgetVisualState::idle(None));
    assert_eq!(rest.fill, Color::rgba(0, 0, 0, 30));
    assert_eq!(rest.border, Color::rgba(23, 23, 23, 80));
    let hovered = theme.integer_input_style(WidgetVisualState {
        hovering: true,
        focused: false,
        disabled: false,
        selected: None,
    });
    assert_eq!(hovered.fill, Color::rgba(0, 0, 0, 30));
    assert_eq!(hovered.border, Color::rgba(27, 27, 27, 95));
    let focused = theme.integer_input_style(WidgetVisualState {
        hovering: true,
        focused: true,
        disabled: false,
        selected: None,
    });
    assert_eq!(focused.border, Color::rgb(40, 15, 26));
    let disabled = theme.integer_input_style(WidgetVisualState {
        hovering: true,
        focused: true,
        disabled: true,
        selected: None,
    });
    assert_eq!(disabled.fill, Color::rgb(40, 40, 40));
}

#[test]
fn the_step_buttons_darken_when_pressed() {
    assert_eq!(spinbox_button_fill(false, false), Color::rgb(15, 15, 15));
    assert_eq!(spinbox_button_fill(true, false), Color::rgb(10, 10, 10));
    assert_eq!(spinbox_button_fill(true, true), Color::transparent());
    assert_eq!(spinbox_button_fill(false, true), Color::transparent());
    assert_eq!(spinbox_button_text(), Color::rgb(80, 80, 80));
}
