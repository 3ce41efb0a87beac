//! The numeric field: a typed value and the text that a person edits, kept
//! in step.
//!
//! The field has two cells. Other widgets read the value; a person edits the
//! text. Two reactions tie them together, each run by the host whenever its
//! cell was written:
//!
//! * after the value was written, the text is rewritten to the value's
//!   canonical form, unless it already holds it;
//! * after the text was written, it is read as a number. Text that is no
//!   number is replaced by the canonical text of the value. A number is
//!   brought into the bounds and written to the value, unless the value
//!   already holds it and the bounds changed nothing.
//!
//! A reaction writes only where its result differs from what the cell holds,
//! so the two come to rest after a few rounds. [`NumericBinding`] offers the
//! single reactions and the runs to rest.
use vstd::prelude::*;
use vstd::string::*;
use crate::decimal::{
    format_decimal, format_int, lemma_format_injective, lemma_parse_format, parse_decimal,
    parse_int,
};
use crate::color::Color;
use crate::integer::{bound_int, BoundedInt};
use crate::style::{compose_style, composed_style, WidgetKind, WidgetStyle, WidgetVisualState};
use crate::theme::Theme;

verus! {

/// `v` brought into the bounds: raised to `min` first, then lowered to
/// `max`. A bound that is absent changes nothing.
pub open spec fn clamp_int(v: int, min: Option<int>, max: Option<int>) -> int {
    let raised = match min {
        Some(m) => if v < m { m } else { v },
        None => v,
    };
    match max {
        Some(m) => if raised > m { m } else { raised },
        None => raised,
    }
}

/// `v` lies within the bounds that are present.
pub open spec fn within_bounds(v: int, min: Option<int>, max: Option<int>) -> bool {
    &&& (min matches Some(m) ==> m <= v)
    &&& (max matches Some(m) ==> v <= m)
}

/// The bounds leave room for a value: where both are present, `min` is not
/// above `max`.
pub open spec fn bounds_ordered(min: Option<int>, max: Option<int>) -> bool {
    min matches Some(lo) ==> (max matches Some(hi) ==> lo <= hi)
}

/// What the reaction to a change of the text did.
#[derive(Clone, Copy, Debug, PartialEq, Eq, Structural)]
pub enum TextReaction {
    /// The text is a number that the value already holds: nothing was
    /// written.
    Unchanged,
    /// The text was no number: it was replaced by the text of the value.
    Reverted,
    /// The number, brought into the bounds, was written to the value.
    ValueWritten,
}

/// The two cells of a field and its settings, as mathematical values.
pub struct BindingView {
    pub value: int,
    pub text: Seq<char>,
    pub step: int,
    pub min: Option<int>,
    pub max: Option<int>,
}

impl BindingView {
    /// The same field with another value.
    pub open spec fn with_value(self, value: int) -> BindingView {
        BindingView { value, ..self }
    }

    /// The same field with another text.
    pub open spec fn with_text(self, text: Seq<char>) -> BindingView {
        BindingView { text, ..self }
    }

    /// The field holding `value` and its canonical text.
    pub open spec fn resynced(self, value: int) -> BindingView {
        BindingView { value, text: format_int(value), ..self }
    }

    /// The text is the canonical text of the value.
    pub open spec fn canonical(self) -> bool {
        self.text == format_int(self.value)
    }

    /// The value lies within the bounds.
    pub open spec fn in_bounds(self) -> bool {
        within_bounds(self.value, self.min, self.max)
    }

    /// The value and the bounds are numbers between `lowest` and `highest`.
    pub open spec fn fits(self, lowest: int, highest: int) -> bool {
        &&& lowest <= self.value <= highest
        &&& (self.min matches Some(m) ==> lowest <= m <= highest)
        &&& (self.max matches Some(m) ==> lowest <= m <= highest)
    }

    /// The field after the reaction to a change of the value.
    pub open spec fn after_value_change(self) -> BindingView {
        self.with_text(format_int(self.value))
    }

    /// What the reaction to a change of the text does, for a value type
    /// that holds the numbers from `lowest` to `highest`.
    pub open spec fn text_reaction(self, lowest: int, highest: int) -> TextReaction {
        match parse_int(self.text, lowest, highest) {
            None => TextReaction::Reverted,
            Some(parsed) => {
                let clamped = clamp_int(parsed, self.min, self.max);
                if self.value != clamped || clamped != parsed {
                    TextReaction::ValueWritten
                } else {
                    TextReaction::Unchanged
                }
            },
        }
    }

    /// The field after the reaction to a change of the text.
    pub open spec fn after_text_change(self, lowest: int, highest: int) -> BindingView {
        match parse_int(self.text, lowest, highest) {
            None => self.with_text(format_int(self.value)),
            Some(parsed) => self.with_value(clamp_int(parsed, self.min, self.max)),
        }
    }

    /// Where the field comes to rest once the text was written and every
    /// reaction that followed has run.
    pub open spec fn settled_after_text(self, lowest: int, highest: int) -> BindingView {
        match parse_int(self.text, lowest, highest) {
            None => self.resynced(clamp_int(self.value, self.min, self.max)),
            Some(parsed) => {
                let clamped = clamp_int(parsed, self.min, self.max);
                if self.value != clamped || clamped != parsed {
                    self.resynced(clamped)
                } else {
                    self
                }
            },
        }
    }

    /// Where the field comes to rest once the value was written and every
    /// reaction that followed has run.
    pub open spec fn settled_after_value(self) -> BindingView {
        if self.canonical() {
            self
        } else {
            self.resynced(clamp_int(self.value, self.min, self.max))
        }
    }
}

/// Bringing a value into the bounds a second time changes nothing, and a
/// value within the bounds is left as it is.
pub proof fn lemma_clamp_idempotent(v: int, min: Option<int>, max: Option<int>)
    ensures
        clamp_int(clamp_int(v, min, max), min, max) == clamp_int(v, min, max),
        within_bounds(v, min, max) ==> clamp_int(v, min, max) == v,
{
}

/// Where the bounds are ordered, a value brought into them lies within
/// them.
pub proof fn lemma_clamp_within(v: int, min: Option<int>, max: Option<int>)
    requires
        bounds_ordered(min, max),
    ensures
        within_bounds(clamp_int(v, min, max), min, max),
{
}

/// A value brought into the bounds is the value itself or one of the
/// bounds.
pub proof fn lemma_clamp_picks(v: int, min: Option<int>, max: Option<int>)
    ensures
        clamp_int(v, min, max) == v || min == Some(clamp_int(v, min, max)) || max == Some(
            clamp_int(v, min, max),
        ),
{
}

/// After a write of the value the field comes to rest with the canonical
/// text of its value. A written value within the bounds is kept. Where the
/// field was at rest within ordered bounds before, it is within them again:
/// a step below the lower bound or above the upper one does not last.
pub proof fn lemma_value_write_settles(field: BindingView, written: int)
    ensures
        field.with_value(written).settled_after_value().canonical(),
        within_bounds(written, field.min, field.max) ==> field.with_value(
            written,
        ).settled_after_value().value == written,
        field.canonical() && field.in_bounds() && bounds_ordered(field.min, field.max)
            ==> field.with_value(written).settled_after_value().in_bounds(),
{
    let start = field.with_value(written);
    if start.canonical() {
        if field.canonical() {
            lemma_format_injective(written, field.value);
        }
    }
}

/// After a write of the text the field comes to rest within its bounds,
/// where they are ordered. Text that is a number leaves that number, brought
/// into the bounds, as the value; the text is then the canonical one, or
/// what was typed where the value already held that number. Text that is no
/// number leaves the canonical text of the value, and the value as it was
/// where it lay within the bounds.
pub proof fn lemma_text_write_settles(
    field: BindingView,
    typed: Seq<char>,
    lowest: int,
    highest: int,
)
    ensures
        ({
            let rest = field.with_text(typed).settled_after_text(lowest, highest);
            &&& bounds_ordered(field.min, field.max) ==> rest.in_bounds()
            &&& match parse_int(typed, lowest, highest) {
                Some(number) => {
                    &&& rest.value == clamp_int(number, field.min, field.max)
                    &&& rest.canonical() || (rest.text == typed && field.value == number)
                },
                None => {
                    &&& rest.canonical()
                    &&& field.in_bounds() ==> rest.value == field.value
                },
            }
        }),
{
}

/// A field that came to rest after a write of the text stays as it is when
/// the reaction to the text runs again: nothing feeds back.
pub proof fn lemma_rest_is_stable(field: BindingView, lowest: int, highest: int)
    requires
        field.fits(lowest, highest),
    ensures
        ({
            let rest = field.settled_after_text(lowest, highest);
            &&& rest.text_reaction(lowest, highest) == TextReaction::Unchanged
            &&& rest.settled_after_text(lowest, highest) == rest
            &&& rest.fits(lowest, highest)
        }),
{
    let rest = field.settled_after_text(lowest, highest);
    match parse_int(field.text, lowest, highest) {
        Some(number) => {
            let clamped = clamp_int(number, field.min, field.max);
            lemma_clamp_picks(number, field.min, field.max);
            lemma_clamp_idempotent(number, field.min, field.max);
            if field.value != clamped || clamped != number {
                lemma_parse_format(clamped, lowest, highest);
            }
        },
        None => {
            let clamped = clamp_int(field.value, field.min, field.max);
            lemma_clamp_picks(field.value, field.min, field.max);
            lemma_clamp_idempotent(field.value, field.min, field.max);
            lemma_parse_format(clamped, lowest, highest);
        },
    }
}

/// A field at rest after a write of the value holds the canonical text, so
/// the reaction to the value has nothing left to write.
pub proof fn lemma_value_rest_is_stable(field: BindingView)
    ensures
        field.settled_after_value().canonical(),
        field.settled_after_value().settled_after_value() == field.settled_after_value(),
{
}

/// `value` brought into the bounds: raised to `min` first, then lowered to
/// `max`.
pub fn clamp<T: BoundedInt>(value: T, min: Option<T>, max: Option<T>) -> (r: T)
    ensures
        r.to_int() == clamp_int(value.to_int(), bound_int(min), bound_int(max)),
{
    let mut clamped = value;
    if let Some(low) = min {
        if clamped.widen() < low.widen() {
            clamped = low;
        }
    }
    if let Some(high) = max {
        if clamped.widen() > high.widen() {
            clamped = high;
        }
    }
    clamped
}

/// A numeric field: the value that other widgets read, the text that a
/// person edits, the step of its two buttons and its optional bounds.
pub struct NumericBinding<T: BoundedInt> {
    value: T,
    text: String,
    step: T,
    min: Option<T>,
    max: Option<T>,
}

impl<T: BoundedInt> View for NumericBinding<T> {
    type V = BindingView;

    closed spec fn view(&self) -> BindingView {
        BindingView {
            value: self.value.to_int(),
            text: self.text@,
            step: self.step.to_int(),
            min: bound_int(self.min),
            max: bound_int(self.max),
        }
    }
}

impl<T: BoundedInt> NumericBinding<T> {
    /// A field that holds `value` and its canonical text. The value is taken
    /// as it is: the bounds act once a reaction runs.
    pub fn new(value: T, step: T, min: Option<T>, max: Option<T>) -> (field: Self)
        ensures
            field@ == (BindingView {
                value: value.to_int(),
                text: format_int(value.to_int()),
                step: step.to_int(),
                min: bound_int(min),
                max: bound_int(max),
            }),
    {
        proof {
            T::lemma_limits();
            value.lemma_in_range();
        }
        NumericBinding { value, text: format_decimal(value.widen()), step, min, max }
    }

    /// The value of the field.
    pub fn value(&self) -> (v: T)
        ensures
            v.to_int() == self@.value,
    {
        self.value
    }

    /// The text of the field.
    pub fn text(&self) -> (t: &str)
        ensures
            t@ == self@.text,
    {
        self.text.as_str()
    }

    /// The step of the two buttons.
    pub fn step(&self) -> (s: T)
        ensures
            s.to_int() == self@.step,
    {
        self.step
    }

    /// The lower bound, if there is one.
    pub fn min(&self) -> (m: Option<T>)
        ensures
            bound_int(m) == self@.min,
    {
        self.min
    }

    /// The upper bound, if there is one.
    pub fn max(&self) -> (m: Option<T>)
        ensures
            bound_int(m) == self@.max,
    {
        self.max
    }

    /// Writes `value` to the value cell and runs no reaction.
    pub fn write_value(&mut self, value: T)
        ensures
            final(self)@ == old(self)@.with_value(value.to_int()),
    {
        self.value = value;
    }

    /// Writes `text` to the text cell and runs no reaction.
    pub fn write_text(&mut self, text: &str)
        ensures
            final(self)@ == old(self)@.with_text(text@),
    {
        self.text = String::from_str(text);
    }

    /// The reaction to a change of the value: the text is rewritten to the
    /// canonical text of the value, unless it holds it already. Returns
    /// whether the text was written.
    pub fn on_value_change(&mut self) -> (wrote: bool)
        ensures
            final(self)@ == old(self)@.after_value_change(),
            wrote == !old(self)@.canonical(),
    {
        proof {
            T::lemma_limits();
            self.value.lemma_in_range();
        }
        let canonical = format_decimal(self.value.widen());
        if self.text == canonical {
            false
        } else {
            self.text = canonical;
            true
        }
    }

    /// The reaction to a change of the text. Text that is no number of the
    /// value's type is replaced by the canonical text of the value, and the
    /// value stays. A number is brought into the bounds and written to the
    /// value, unless the value holds it already and the bounds changed
    /// nothing.
    pub fn on_text_change(&mut self) -> (reaction: TextReaction)
        ensures
            final(self)@ == old(self)@.after_text_change(T::lowest(), T::highest()),
            reaction == old(self)@.text_reaction(T::lowest(), T::highest()),
    {
        proof {
            T::lemma_limits();
            self.value.lemma_in_range();
        }
        match parse_decimal(self.text.as_str(), T::lowest_value(), T::highest_value()) {
            Some(number) => {
                match T::narrow(number) {
                    Some(parsed) => {
                        let clamped = clamp(parsed, self.min, self.max);
                        let current: i128 = self.value.widen();
                        let target: i128 = clamped.widen();
                        if current != target || target != number {
                            self.value = clamped;
                            TextReaction::ValueWritten
                        } else {
                            TextReaction::Unchanged
                        }
                    },
                    None => {
                        proof {
                            assert(false);
                        }
                        TextReaction::Unchanged
                    },
                }
            },
            None => {
                self.text = format_decimal(self.value.widen());
                TextReaction::Reverted
            },
        }
    }

    /// Runs the reactions that follow a change of the value until none is
    /// left to run.
    pub fn settle_after_value_change(&mut self)
        ensures
            final(self)@ == old(self)@.settled_after_value(),
    {
        proof {
            T::lemma_limits();
            self.value.lemma_in_range();
            lemma_parse_format(self@.value, T::lowest(), T::highest());
            lemma_clamp_idempotent(self@.value, self@.min, self@.max);
        }
        if self.on_value_change() {
            let ghost rewritten = self@;
            if self.on_text_change() == TextReaction::ValueWritten {
                proof {
                    self.value.lemma_in_range();
                    lemma_parse_format(self@.value, T::lowest(), T::highest());
                    if format_int(self@.value) == rewritten.text {
                        lemma_format_injective(self@.value, rewritten.value);
                    }
                }
                let wrote = self.on_value_change();
                assert(wrote);
                let last = self.on_text_change();
                assert(last == TextReaction::Unchanged);
            }
        }
    }

    /// Runs the reactions that follow a change of the text until none is
    /// left to run.
    pub fn settle_after_text_change(&mut self)
        ensures
            final(self)@ == old(self)@.settled_after_text(T::lowest(), T::highest()),
    {
        proof {
            T::lemma_limits();
            self.value.lemma_in_range();
            lemma_parse_format(self@.value, T::lowest(), T::highest());
        }
        let ghost before = self@;
        match self.on_text_change() {
            TextReaction::Unchanged => {},
            TextReaction::Reverted => {
                // The text was rewritten, so the same reaction runs once more, now on
                // the canonical text of the value.
                self.settle_from_canonical_text();
            },
            TextReaction::ValueWritten => {
                proof {
                    let parsed = parse_int(before.text, T::lowest(), T::highest()).unwrap();
                    lemma_clamp_idempotent(parsed, before.min, before.max);
                    self.value.lemma_in_range();
                    lemma_parse_format(self@.value, T::lowest(), T::highest());
                }
                if self.on_value_change() {
                    let last = self.on_text_change();
                    assert(last == TextReaction::Unchanged);
                }
            },
        }
    }

    /// Sets the value from outside, as another widget does, and lets the
    /// field come to rest.
    pub fn set_value(&mut self, value: T)
        ensures
            final(self)@ == old(self)@.with_value(value.to_int()).settled_after_value(),
    {
        self.write_value(value);
        self.settle_after_value_change();
    }

    /// Replaces the text, as a person typing does, and lets the field come
    /// to rest.
    pub fn type_text(&mut self, text: &str)
        ensures
            final(self)@ == old(self)@.with_text(text@).settled_after_text(
                T::lowest(),
                T::highest(),
            ),
    {
        self.write_text(text);
        self.settle_after_text_change();
    }

    /// The upper button: adds the step to the value and lets the field come
    /// to rest. The button itself applies no bound; the reactions do.
    pub fn increment(&mut self)
        requires
            T::lowest() <= old(self)@.value + old(self)@.step <= T::highest(),
        ensures
            final(self)@ == old(self)@.with_value(
                old(self)@.value + old(self)@.step,
            ).settled_after_value(),
    {
        proof {
            T::lemma_limits();
            self.value.lemma_in_range();
            self.step.lemma_in_range();
        }
        let stepped: i128 = self.value.widen() + self.step.widen();
        match T::narrow(stepped) {
            Some(value) => {
                self.set_value(value);
            },
            None => {
                proof {
                    assert(false);
                }
            },
        }
    }

    /// The lower button: takes the step off the value and lets the field
    /// come to rest. The button itself applies no bound; the reactions do.
    pub fn decrement(&mut self)
        requires
            T::lowest() <= old(self)@.value - old(self)@.step <= T::highest(),
        ensures
            final(self)@ == old(self)@.with_value(
                old(self)@.value - old(self)@.step,
            ).settled_after_value(),
    {
        proof {
            T::lemma_limits();
            self.value.lemma_in_range();
            self.step.lemma_in_range();
        }
        let stepped: i128 = self.value.widen() - self.step.widen();
        match T::narrow(stepped) {
            Some(value) => {
                self.set_value(value);
            },
            None => {
                proof {
                    assert(false);
                }
            },
        }
    }

    /// Whether the upper button can act: whether the value plus the step is
    /// a number of the value's type.
    pub fn can_increment(&self) -> (ok: bool)
        ensures
            ok == (T::lowest() <= self@.value + self@.step <= T::highest()),
    {
        proof {
            T::lemma_limits();
            self.value.lemma_in_range();
            self.step.lemma_in_range();
        }
        let stepped: i128 = self.value.widen() + self.step.widen();
        T::lowest_value() <= stepped && stepped <= T::highest_value()
    }

    /// Whether the lower button can act: whether the value minus the step is
    /// a number of the value's type.
    pub fn can_decrement(&self) -> (ok: bool)
        ensures
            ok == (T::lowest() <= self@.value - self@.step <= T::highest()),
    {
        proof {
            T::lemma_limits();
            self.value.lemma_in_range();
            self.step.lemma_in_range();
        }
        let stepped: i128 = self.value.widen() - self.step.widen();
        T::lowest_value() <= stepped && stepped <= T::highest_value()
    }

    /// The value and the bounds of a field are numbers of its value type.
    pub proof fn lemma_view_fits(&self)
        ensures
            self@.fits(T::lowest(), T::highest()),
    {
        self.value.lemma_in_range();
        if let Some(m) = self.min {
            m.lemma_in_range();
        }
        if let Some(m) = self.max {
            m.lemma_in_range();
        }
    }

    /// Runs the reactions that follow once the text was rewritten to the
    /// canonical text of the value.
    fn settle_from_canonical_text(&mut self)
        requires
            old(self)@.canonical(),
        ensures
            final(self)@ == old(self)@.resynced(
                clamp_int(old(self)@.value, old(self)@.min, old(self)@.max),
            ),
    {
        proof {
            T::lemma_limits();
            self.value.lemma_in_range();
            lemma_parse_format(self@.value, T::lowest(), T::highest());
            lemma_clamp_idempotent(self@.value, self@.min, self@.max);
        }
        let ghost before = self@;
        if self.on_text_change() == TextReaction::ValueWritten {
            proof {
                self.value.lemma_in_range();
                lemma_parse_format(self@.value, T::lowest(), T::highest());
                if format_int(self@.value) == before.text {
                    lemma_format_injective(self@.value, before.value);
                }
            }
            let wrote = self.on_value_change();
            assert(wrote);
            let last = self.on_text_change();
            assert(last == TextReaction::Unchanged);
        }
    }
}

/// The fill of one of the two step buttons of a field.
pub open spec fn spec_spinbox_button_fill(pressed: bool, disabled: bool) -> Color {
    if disabled {
        Color::spec_transparent()
    } else if pressed {
        Color::spec_rgb(10, 10, 10)
    } else {
        Color::spec_rgb(15, 15, 15)
    }
}

/// The fill of one of the two step buttons of a field: none on a disabled
/// field, a dark grey otherwise, darker while the button is held down.
pub fn spinbox_button_fill(pressed: bool, disabled: bool) -> (c: Color)
    ensures
        c == spec_spinbox_button_fill(pressed, disabled),
        c.well_formed(),
{
    if disabled {
        Color::transparent()
    } else if pressed {
        Color::rgb(10, 10, 10)
    } else {
        Color::rgb(15, 15, 15)
    }
}

/// The colour of the arrow on a step button.
pub fn spinbox_button_text() -> (c: Color)
    ensures
        c == Color::spec_rgb(80, 80, 80),
        c.well_formed(),
{
    Color::rgb(80, 80, 80)
}

impl Theme {
    /// A numeric field that starts from `value`. The field is returned at
    /// rest: the reactions have run once, so a start value outside the
    /// bounds has been brought into them, and the text is the canonical text
    /// of the value.
    pub fn integer_input<T: BoundedInt>(
        self,
        value: T,
        step: T,
        min_value: Option<T>,
        max_value: Option<T>,
    ) -> (field: NumericBinding<T>)
        ensures
            field@ == (BindingView {
                value: clamp_int(value.to_int(), bound_int(min_value), bound_int(max_value)),
                text: format_int(
                    clamp_int(value.to_int(), bound_int(min_value), bound_int(max_value)),
                ),
                step: step.to_int(),
                min: bound_int(min_value),
                max: bound_int(max_value),
            }),
    {
        let mut field = NumericBinding::new(value, step, min_value, max_value);
        proof {
            value.lemma_in_range();
            lemma_parse_format(value.to_int(), T::lowest(), T::highest());
        }
        field.settle_after_text_change();
        field
    }

    /// The colours of the frame around a numeric field in the given state.
    pub fn integer_input_style(self, state: WidgetVisualState) -> (style: WidgetStyle)
        ensures
            style == composed_style(self.accent_color, WidgetKind::IntegerInput, false, state),
            style.fill.well_formed(),
            style.border.well_formed(),
            style.text.well_formed(),
    {
        compose_style(self.accent_color, WidgetKind::IntegerInput, false, state)
    }
}

} // verus!
