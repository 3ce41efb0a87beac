//! The radio group: a fixed list of options, one of which is selected.
//!
//! The options are taken once, when the group is made, and never change. An
//! option is selected exactly when it equals the selection, so a click on an
//! option has one thing to do: write that option to the selection.
use vstd::prelude::*;
use crate::options::{vector_get, vector_items, vector_len, vector_new, vector_push_back};
use crate::style::{compose_style, composed_style, WidgetKind, WidgetStyle, WidgetVisualState};
use crate::theme::Theme;

verus! {

/// The direction in which the options of a group follow each other.
#[derive(Debug, Eq, PartialEq, Clone, Copy, Structural)]
pub enum RadioGroupVariant {
    Horizontal,
    Vertical,
}

/// One place in the row or column of a group.
#[derive(Debug, Eq, PartialEq, Clone, Copy, Structural)]
pub enum LayoutSlot {
    /// The option with the given code.
    Item(u64),
    /// Empty space of the given size.
    Gap(u32),
}

/// The mark inside the ring of a selected option: a white dot.
pub const CHECKED_SVG: &'static str =
    "\n\t\t\t<svg viewBox=\"0 0 10 10\" xmlns=\"http://www.w3.org/2000/svg\">\n\t\t\t\t<circle cx=\"5\" cy=\"5\" r=\"2\" fill=\"white\" />\n\t\t\t</svg>\n\t\t";

/// The options can make a group around `selection`: there is at least one,
/// none occurs twice, and the selection is one of them.
pub open spec fn options_valid(options: Seq<u64>, selection: u64) -> bool {
    &&& options.len() > 0
    &&& options.no_duplicates()
    &&& options.contains(selection)
}

/// The flags of an option: it is selected exactly when it is the selection.
pub open spec fn option_state(
    option: u64,
    selection: u64,
    hovering: bool,
    focused: bool,
    disabled: bool,
) -> WidgetVisualState {
    WidgetVisualState { hovering, focused, disabled, selected: Some(option == selection) }
}

/// The options with a gap between each two neighbours: an option at every
/// even place, a gap at every odd one, an option at both ends.
pub open spec fn interleaved(options: Seq<u64>, gap: u32) -> Seq<LayoutSlot> {
    if options.len() == 0 {
        Seq::empty()
    } else {
        Seq::new(
            (2 * options.len() - 1) as nat,
            |i: int|
                if i % 2 == 0 {
                    LayoutSlot::Item(options[i / 2])
                } else {
                    LayoutSlot::Gap(gap)
                },
        )
    }
}

/// The number of gaps among the slots.
pub open spec fn gap_count(slots: Seq<LayoutSlot>) -> nat
    decreases slots.len(),
{
    if slots.len() == 0 {
        0
    } else {
        gap_count(slots.drop_last()) + if slots.last() is Gap {
            1nat
        } else {
            0nat
        }
    }
}

/// The number of options among the slots.
pub open spec fn item_count(slots: Seq<LayoutSlot>) -> nat
    decreases slots.len(),
{
    if slots.len() == 0 {
        0
    } else {
        item_count(slots.drop_last()) + if slots.last() is Item {
            1nat
        } else {
            0nat
        }
    }
}

/// A group as mathematical values.
pub struct RadioGroupView {
    pub options: Seq<u64>,
    pub selection: u64,
    pub gap: u32,
    pub variant: RadioGroupVariant,
}

impl RadioGroupView {
    /// Whether the option at `index` is the selected one.
    pub open spec fn is_selected(self, index: int) -> bool {
        self.options[index] == self.selection
    }

    /// The place of the selection among the options.
    pub open spec fn selected_index(self) -> int {
        self.options.index_of(self.selection)
    }

    /// The group after a click on the option at `index`.
    pub open spec fn clicked(self, index: int) -> RadioGroupView {
        RadioGroupView { selection: self.options[index], ..self }
    }
}

/// A radio group: its options in order, the selection, and how the options
/// are laid out.
pub struct RadioGroup {
    options: im::Vector<u64>,
    selection: u64,
    gap: u32,
    variant: RadioGroupVariant,
}

impl View for RadioGroup {
    type V = RadioGroupView;

    closed spec fn view(&self) -> RadioGroupView {
        RadioGroupView {
            options: vector_items(self.options),
            selection: self.selection,
            gap: self.gap,
            variant: self.variant,
        }
    }
}

/// Whether `options` can make a group around `selection`: whether there is
/// at least one option, none occurs twice, and the selection is one of them.
pub fn check_options(options: &Vec<u64>, selection: u64) -> (valid: bool)
    ensures
        valid == options_valid(options@, selection),
{
    let n: usize = options.len();
    if n == 0 {
        return false;
    }
    let mut found: bool = false;
    let mut i: usize = 0;
    while i < n
        invariant
            i <= n,
            n == options@.len(),
            found == options@.take(i as int).contains(selection),
            options@.take(i as int).no_duplicates(),
        decreases n - i,
    {
        let current: u64 = options[i];
        let mut j: usize = 0;
        while j < i
            invariant
                j <= i < n,
                n == options@.len(),
                current == options@[i as int],
                forall|k: int| 0 <= k < j ==> options@[k] != current,
            decreases i - j,
        {
            if options[j] == current {
                proof {
                    assert(options@[j as int] == options@[i as int]);
                }
                return false;
            }
            j = j + 1;
        }
        proof {
            let before = options@.take(i as int);
            let after = options@.take(i + 1);
            assert(after =~= before.push(current));
            assert forall|a: int, b: int| 0 <= a < after.len() && 0 <= b < after.len() && a != b
                implies after[a] != after[b] by {
                if a < i && b < i {
                    assert(before[a] != before[b]);
                }
            }
            if before.contains(selection) {
                let w = choose|w: int| 0 <= w < before.len() && before[w] == selection;
                assert(after[w] == selection);
            }
            if current == selection {
                assert(after[i as int] == selection);
            }
        }
        if current == selection {
            found = true;
        }
        i = i + 1;
    }
    proof {
        assert(options@.take(n as int) =~= options@);
    }
    found
}

impl RadioGroup {
    /// The group holds at least one option, no option twice, and its
    /// selection is one of the options.
    #[verifier::type_invariant]
    spec fn well_formed(self) -> bool {
        &&& options_valid(vector_items(self.options), self.selection)
        &&& vector_items(self.options).len() <= usize::MAX
    }

    /// The number of options.
    pub fn len(&self) -> (n: usize)
        ensures
            n == self@.options.len(),
            n > 0,
    {
        proof {
            use_type_invariant(self);
        }
        vector_len(&self.options)
    }

    /// The option at `index`, or `None` where the group has no such place.
    pub fn option_at(&self, index: usize) -> (option: Option<u64>)
        ensures
            option == if index < self@.options.len() {
                Some(self@.options[index as int])
            } else {
                None
            },
    {
        vector_get(&self.options, index)
    }

    /// The options in order.
    pub fn options(&self) -> (all: Vec<u64>)
        ensures
            all@ == self@.options,
            options_valid(all@, self@.selection),
    {
        proof {
            use_type_invariant(self);
        }
        let n: usize = vector_len(&self.options);
        let mut all: Vec<u64> = Vec::new();
        let mut i: usize = 0;
        while i < n
            invariant
                i <= n,
                n == vector_items(self.options).len(),
                all@ == vector_items(self.options).take(i as int),
            decreases n - i,
        {
            match vector_get(&self.options, i) {
                Some(option) => {
                    all.push(option);
                },
                None => {
                    proof {
                        assert(false);
                    }
                },
            }
            proof {
                assert(all@ =~= vector_items(self.options).take(i + 1));
            }
            i = i + 1;
        }
        proof {
            assert(vector_items(self.options).take(n as int) =~= vector_items(self.options));
        }
        all
    }

    /// The selected option.
    pub fn selection(&self) -> (selection: u64)
        ensures
            selection == self@.selection,
    {
        self.selection
    }

    /// The space between two neighbouring options.
    pub fn gap(&self) -> (gap: u32)
        ensures
            gap == self@.gap,
    {
        self.gap
    }

    /// The direction of the group.
    pub fn variant(&self) -> (variant: RadioGroupVariant)
        ensures
            variant == self@.variant,
    {
        self.variant
    }

    /// Whether the option at `index` is the selected one. A place that the
    /// group does not have is not selected.
    pub fn is_selected(&self, index: usize) -> (selected: bool)
        ensures
            selected == (index < self@.options.len() && self@.is_selected(index as int)),
    {
        match vector_get(&self.options, index) {
            Some(option) => option == self.selection,
            None => false,
        }
    }

    /// The place of the selected option.
    pub fn selected_index(&self) -> (index: usize)
        ensures
            index == self@.selected_index(),
            index < self@.options.len(),
            self@.is_selected(index as int),
            forall|j: int| 0 <= j < self@.options.len() && j != index ==> !self@.is_selected(j),
    {
        proof {
            use_type_invariant(self);
            self@.options.index_of_first_ensures(self@.selection);
        }
        let n: usize = vector_len(&self.options);
        let ghost target = self@.selected_index();
        let mut i: usize = 0;
        while i < n
            invariant
                i <= target < n,
                n == vector_items(self.options).len(),
                self@.options == vector_items(self.options),
                self@.selection == self.selection,
                self@.options.no_duplicates(),
                self@.options[target] == self.selection,
            decreases n - i,
        {
            match vector_get(&self.options, i) {
                Some(option) => {
                    if option == self.selection {
                        return i;
                    }
                },
                None => {
                    proof {
                        assert(false);
                    }
                },
            }
            i = i + 1;
        }
        proof {
            assert(false);
        }
        i
    }

    /// A click on the option at `index`: that option becomes the selection.
    /// Nothing else of the group changes, and afterwards the clicked option
    /// is the only selected one. A click on a place that the group does not
    /// have changes nothing and returns `false`.
    pub fn click(&mut self, index: usize) -> (hit: bool)
        ensures
            hit == (index < old(self)@.options.len()),
            hit ==> final(self)@ == old(self)@.clicked(index as int),
            !hit ==> final(self)@ == old(self)@,
            hit ==> forall|j: int|
                0 <= j < final(self)@.options.len() ==> (final(self)@.is_selected(j) <==> j
                    == index),
    {
        proof {
            use_type_invariant(&*self);
        }
        match vector_get(&self.options, index) {
            Some(option) => {
                self.selection = option;
                proof {
                    assert(vector_items(self.options)[index as int] == option);
                }
                true
            },
            None => false,
        }
    }

    /// The row and column gaps of the group's container: the gap of the
    /// group along its direction, nothing across it.
    pub fn gaps(&self) -> (gaps: (u32, u32))
        ensures
            gaps == match self@.variant {
                RadioGroupVariant::Horizontal => (self@.gap, 0u32),
                RadioGroupVariant::Vertical => (0u32, self@.gap),
            },
    {
        match self.variant {
            RadioGroupVariant::Horizontal => (self.gap, 0),
            RadioGroupVariant::Vertical => (0, self.gap),
        }
    }

    /// The row or column of the group, place by place: the options in order
    /// with the gap between each two neighbours and none at either end.
    pub fn layout(&self) -> (slots: Vec<LayoutSlot>)
        ensures
            slots@ == interleaved(self@.options, self@.gap),
            gap_count(slots@) == self@.options.len() - 1,
            item_count(slots@) == self@.options.len(),
    {
        proof {
            use_type_invariant(self);
        }
        let n: usize = vector_len(&self.options);
        let ghost options = vector_items(self.options);
        let ghost whole = interleaved(options, self.gap);
        let mut slots: Vec<LayoutSlot> = Vec::new();
        let mut i: usize = 0;
        while i < n
            invariant
                i <= n,
                n == options.len(),
                n > 0,
                options == vector_items(self.options),
                whole == interleaved(options, self.gap),
                slots@.len() == if i == 0 { 0int } else { 2 * i - 1 },
                slots@ == whole.take(slots@.len() as int),
            decreases n - i,
        {
            if i > 0 {
                slots.push(LayoutSlot::Gap(self.gap));
            }
            match vector_get(&self.options, i) {
                Some(option) => {
                    slots.push(LayoutSlot::Item(option));
                },
                None => {
                    proof {
                        assert(false);
                    }
                },
            }
            proof {
                assert(slots@ =~= whole.take(slots@.len() as int));
            }
            i = i + 1;
        }
        proof {
            assert(whole.take(whole.len() as int) =~= whole);
            lemma_interleaved_counts(options, self.gap, whole.len() as int);
        }
        slots
    }

    /// The colours of the option at `index` given the flags of that option.
    /// The option is drawn as selected exactly when it is the selection.
    pub fn option_style(
        &self,
        theme: Theme,
        index: usize,
        hovering: bool,
        focused: bool,
        disabled: bool,
    ) -> (style: WidgetStyle)
        requires
            index < self@.options.len(),
        ensures
            style == composed_style(
                theme.accent_color,
                WidgetKind::RadioButton,
                false,
                option_state(
                    self@.options[index as int],
                    self@.selection,
                    hovering,
                    focused,
                    disabled,
                ),
            ),
    {
        match vector_get(&self.options, index) {
            Some(option) => theme.radio_button(option, self.selection, hovering, focused, disabled),
            None => {
                proof {
                    assert(false);
                }
                theme.radio_button(self.selection, self.selection, hovering, focused, disabled)
            },
        }
    }
}

/// Among the first `k` places of a row there are `k / 2` gaps, and the
/// other places hold options.
pub proof fn lemma_interleaved_counts(options: Seq<u64>, gap: u32, k: int)
    requires
        0 <= k <= interleaved(options, gap).len(),
    ensures
        gap_count(interleaved(options, gap).take(k)) == k / 2,
        item_count(interleaved(options, gap).take(k)) == k - k / 2,
    decreases k,
{
    let whole = interleaved(options, gap);
    let prefix = whole.take(k);
    if k > 0 {
        lemma_interleaved_counts(options, gap, k - 1);
        assert(prefix.drop_last() =~= whole.take(k - 1));
        assert(prefix.last() == whole[k - 1]);
    }
}

/// A row of N options holds exactly N - 1 gaps, each of the group's size,
/// with an option at both ends: no gap leads or trails.
pub proof fn lemma_gaps_between_only(options: Seq<u64>, gap: u32)
    requires
        options.len() > 0,
    ensures
        interleaved(options, gap).len() == 2 * options.len() - 1,
        gap_count(interleaved(options, gap)) == options.len() - 1,
        item_count(interleaved(options, gap)) == options.len(),
        interleaved(options, gap).first() == LayoutSlot::Item(options.first()),
        interleaved(options, gap).last() == LayoutSlot::Item(options.last()),
        forall|i: int|
            0 <= i < interleaved(options, gap).len() ==> (#[trigger] interleaved(options, gap)[i]
                is Gap ==> interleaved(options, gap)[i] == LayoutSlot::Gap(gap) && 0 < i
                < interleaved(options, gap).len() - 1),
{
    let whole = interleaved(options, gap);
    lemma_interleaved_counts(options, gap, whole.len() as int);
    assert(whole.take(whole.len() as int) =~= whole);
}

/// In a group without repeated options, exactly one option is selected
/// after a click, and it is the clicked one.
pub proof fn lemma_click_selects_one(group: RadioGroupView, index: int)
    requires
        group.options.no_duplicates(),
        0 <= index < group.options.len(),
    ensures
        group.clicked(index).selection == group.options[index],
        group.clicked(index).options == group.options,
        forall|j: int|
            0 <= j < group.options.len() ==> (group.clicked(index).is_selected(j) <==> j == index),
        options_valid(group.clicked(index).options, group.clicked(index).selection),
{
    assert(group.options[index] == group.clicked(index).selection);
}

impl Theme {
    /// The mark of an option: the white dot where the option is the
    /// selection, nothing where it is not.
    pub fn radio_button_symbol(self, variant_to_render: u64, selection: u64) -> (markup:
        &'static str)
        ensures
            markup@ == if variant_to_render == selection {
                CHECKED_SVG@
            } else {
                ""@
            },
    {
        if variant_to_render == selection {
            CHECKED_SVG
        } else {
            ""
        }
    }

    /// The colours of one option of a radio group. The option is drawn as
    /// selected exactly when it is the selection.
    pub fn radio_button(
        self,
        variant_to_render: u64,
        selection: u64,
        hovering: bool,
        focused: bool,
        disabled: bool,
    ) -> (style: WidgetStyle)
        ensures
            style == composed_style(
                self.accent_color,
                WidgetKind::RadioButton,
                false,
                option_state(variant_to_render, selection, hovering, focused, disabled),
            ),
    {
        let state = WidgetVisualState {
            hovering,
            focused,
            disabled,
            selected: Some(variant_to_render == selection),
        };
        compose_style(self.accent_color, WidgetKind::RadioButton, false, state)
    }

    /// A radio group over `options`, in their order, with `selection` as the
    /// selected option.
    pub fn radio_group(
        self,
        options: &Vec<u64>,
        selection: u64,
        gap_between_items: u32,
        variant: RadioGroupVariant,
    ) -> (group: RadioGroup)
        requires
            options_valid(options@, selection),
        ensures
            group@ == (RadioGroupView {
                options: options@,
                selection,
                gap: gap_between_items,
                variant,
            }),
    {
        let n: usize = options.len();
        let mut items = vector_new();
        let mut i: usize = 0;
        while i < n
            invariant
                i <= n,
                n == options@.len(),
                vector_items(items) == options@.take(i as int),
            decreases n - i,
        {
            vector_push_back(&mut items, options[i]);
            proof {
                assert(vector_items(items) =~= options@.take(i + 1));
            }
            i = i + 1;
        }
        proof {
            assert(options@.take(n as int) =~= options@);
        }
        RadioGroup { options: items, selection, gap: gap_between_items, variant }
    }
}

} // verus!
