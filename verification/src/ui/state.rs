//! Shared widget state -- remembered tab selections, input values and
//! dropdown open states -- and what presses do to it.
use vstd::prelude::*;

use crate::input::ButtonInteraction;
use crate::text::{chars_of, str_eq, string_from_chars};
use crate::ui::table::KeyedTable;

verus! {

/// Remembers the selected tab of each reusable tab group.
pub struct LastBeaconUiTabSelections {
    selected_tabs: KeyedTable<String>,
}

/// Stores the shared values reusable input widgets read and write.
pub struct LastBeaconUiInputValues {
    values: KeyedTable<String>,
}

/// Stores the open state of reusable dropdowns.
pub struct LastBeaconUiDropdownStates {
    open_dropdowns: KeyedTable<bool>,
}

impl View for LastBeaconUiTabSelections {
    type V = Map<Seq<char>, Seq<char>>;

    closed spec fn view(&self) -> Map<Seq<char>, Seq<char>> {
        self.selected_tabs@
    }
}

impl View for LastBeaconUiInputValues {
    type V = Map<Seq<char>, Seq<char>>;

    closed spec fn view(&self) -> Map<Seq<char>, Seq<char>> {
        self.values@
    }
}

impl View for LastBeaconUiDropdownStates {
    type V = Map<Seq<char>, bool>;

    closed spec fn view(&self) -> Map<Seq<char>, bool> {
        self.open_dropdowns@
    }
}

impl Default for LastBeaconUiTabSelections {
    fn default() -> (r: LastBeaconUiTabSelections)
        ensures
            r@ == Map::<Seq<char>, Seq<char>>::empty(),
    {
        LastBeaconUiTabSelections { selected_tabs: KeyedTable::new() }
    }
}

impl Default for LastBeaconUiInputValues {
    fn default() -> (r: LastBeaconUiInputValues)
        ensures
            r@ == Map::<Seq<char>, Seq<char>>::empty(),
    {
        LastBeaconUiInputValues { values: KeyedTable::new() }
    }
}

impl Default for LastBeaconUiDropdownStates {
    fn default() -> (r: LastBeaconUiDropdownStates)
        ensures
            r@ == Map::<Seq<char>, bool>::empty(),
    {
        LastBeaconUiDropdownStates { open_dropdowns: KeyedTable::new() }
    }
}

impl LastBeaconUiTabSelections {
    /// The selected tab of `group`, if one was ever selected.
    pub fn selected_tab(&self, group: &str) -> (r: Option<&String>)
        ensures
            match r {
                Some(tab) => self@.contains_key(group@) && self@[group@] == tab@,
                None => !self@.contains_key(group@),
            },
    {
        self.selected_tabs.get(group)
    }

    /// Remembers `tab` as the selected tab of `group`.
    pub fn select(&mut self, group: &str, tab: &str)
        ensures
            final(self)@ == old(self)@.insert(group@, tab@),
    {
        self.selected_tabs.insert(group, tab.to_owned());
    }
}

impl LastBeaconUiInputValues {
    /// The value stored under `target`, if any.
    pub fn value(&self, target: &str) -> (r: Option<&String>)
        ensures
            match r {
                Some(v) => self@.contains_key(target@) && self@[target@] == v@,
                None => !self@.contains_key(target@),
            },
    {
        self.values.get(target)
    }

    /// Whether a value is stored under `target`.
    pub fn contains(&self, target: &str) -> (r: bool)
        ensures
            r == self@.contains_key(target@),
    {
        self.values.contains_key(target)
    }

    /// Stores `value` under `target`.
    pub fn set(&mut self, target: &str, value: &str)
        ensures
            final(self)@ == old(self)@.insert(target@, value@),
    {
        self.values.insert(target, value.to_owned());
    }
}

impl LastBeaconUiDropdownStates {
    /// The stored open state of `target`, if any.
    pub fn state(&self, target: &str) -> (r: Option<bool>)
        ensures
            match r {
                Some(open) => self@.contains_key(target@) && self@[target@] == open,
                None => !self@.contains_key(target@),
            },
    {
        match self.open_dropdowns.get(target) {
            Some(open) => Some(*open),
            None => None,
        }
    }

    /// Stores `open` as the open state of `target`.
    pub fn set(&mut self, target: &str, open: bool)
        ensures
            final(self)@ == old(self)@.insert(target@, open),
    {
        self.open_dropdowns.insert(target, open);
    }
}

/// Whether a widget of `group`/`tab` counts as selected: the group's
/// remembered selection decides once there is one; before that, the widget's
/// own authored `selected` flag does.
pub open spec fn selection_matches(
    selections: Map<Seq<char>, Seq<char>>,
    group: Seq<char>,
    tab: Seq<char>,
    selected_by_default: bool,
) -> bool {
    if selections.contains_key(group) {
        selections[group] == tab
    } else {
        selected_by_default
    }
}

/// Whether a dropdown is open: its stored state, closed when none is stored.
pub open spec fn dropdown_open(states: Map<Seq<char>, bool>, target: Seq<char>) -> bool {
    if states.contains_key(target) {
        states[target]
    } else {
        false
    }
}

/// Whether the widget of `group`/`tab` counts as selected.
pub fn tab_is_selected(
    selections: &LastBeaconUiTabSelections,
    group: &str,
    tab: &str,
    selected_by_default: bool,
) -> (r: bool)
    ensures
        r == selection_matches(selections@, group@, tab@, selected_by_default),
{
    match selections.selected_tab(group) {
        Some(selected_tab) => str_eq(selected_tab.as_str(), tab),
        None => selected_by_default,
    }
}

/// Whether the dropdown `target` is open.
pub fn dropdown_is_open(states: &LastBeaconUiDropdownStates, target: &str) -> (r: bool)
    ensures
        r == dropdown_open(states@, target@),
{
    match states.state(target) {
        Some(open) => open,
        None => false,
    }
}

/// Reusable tab behavior: a tab in a selection group.
#[derive(Clone, Debug, PartialEq, Eq)]
pub struct LastBeaconUiTab {
    /// Selection group this tab belongs to.
    pub group: String,
    /// Stable tab identifier within the group.
    pub tab: String,
    /// Whether this tab should be selected before the user interacts with the group.
    pub selected: bool,
}

impl Default for LastBeaconUiTab {
    fn default() -> (r: LastBeaconUiTab)
        ensures
            r.group@ == "default"@,
            r.tab@ == "default"@,
            !r.selected,
    {
        LastBeaconUiTab { group: "default".to_owned(), tab: "default".to_owned(), selected: false }
    }
}

/// An authored content pane shown only while its matching tab is selected.
#[derive(Clone, Debug, PartialEq, Eq)]
pub struct LastBeaconUiTabPanel {
    /// Selection group this panel belongs to.
    pub group: String,
    /// Stable tab identifier this panel represents.
    pub tab: String,
    /// Whether this panel should be shown before the user interacts with the group.
    pub selected: bool,
}

impl Default for LastBeaconUiTabPanel {
    fn default() -> (r: LastBeaconUiTabPanel)
        ensures
            r.group@ == "default"@,
            r.tab@ == "default"@,
            !r.selected,
    {
        LastBeaconUiTabPanel {
            group: "default".to_owned(),
            tab: "default".to_owned(),
            selected: false,
        }
    }
}

/// A radio icon following a tab group's selection.
#[derive(Clone, Debug, PartialEq, Eq)]
pub struct LastBeaconUiRadioIcon {
    /// Selection group this icon follows.
    pub group: String,
    /// Tab identifier represented by this icon.
    pub tab: String,
    /// Whether this option is initially selected.
    pub selected: bool,
}

impl Default for LastBeaconUiRadioIcon {
    fn default() -> (r: LastBeaconUiRadioIcon)
        ensures
            r.group@ == "default"@,
            r.tab@ == "default"@,
            !r.selected,
    {
        LastBeaconUiRadioIcon {
            group: "default".to_owned(),
            tab: "default".to_owned(),
            selected: false,
        }
    }
}

/// A combo-box arrow icon following a dropdown's open state.
#[derive(Clone, Debug, Default, PartialEq, Eq)]
pub struct LastBeaconUiDropdownIcon {
    /// Dropdown key this icon follows.
    pub target: String,
}

/// A control that opens or closes a dropdown.
#[derive(Clone, Debug, Default, PartialEq, Eq)]
pub struct LastBeaconUiDropdownToggle {
    /// Shared dropdown key this control opens or closes.
    pub target: String,
}

/// A dropdown's option panel, shown while the dropdown is open.
#[derive(Clone, Debug, Default, PartialEq, Eq)]
pub struct LastBeaconUiDropdownPanel {
    /// Shared dropdown key this panel belongs to.
    pub target: String,
}

/// A clickable value control. A non-empty `set_value` is stored as is; an
/// empty one means a numeric step, which the caller computes from the
/// control's delta and bounds.
#[derive(Clone, Debug, Default, PartialEq, Eq)]
pub struct LastBeaconUiValueButton {
    /// Shared value key this control writes to.
    pub target: String,
    /// Absolute value to set when pressed. If empty, a numeric step applies instead.
    pub set_value: String,
}

/// A text showing a stored value between a prefix and a suffix.
#[derive(Clone, Debug, Default, PartialEq, Eq)]
pub struct LastBeaconUiValueText {
    /// Shared value key this text mirrors.
    pub target: String,
    /// Text prepended before the value.
    pub prefix: String,
    /// Text appended after the value.
    pub suffix: String,
}

/// Whether a panel takes part in layout.
#[derive(Clone, Copy, Debug, PartialEq, Eq, Structural)]
pub enum PanelDisplay {
    /// Laid out as a flex container.
    Flex,
    /// Removed from layout.
    Hidden,
}

/// Selects `tab` within its group.
pub fn apply_tab_selection_activation(tab: &LastBeaconUiTab, selections: &mut LastBeaconUiTabSelections)
    ensures
        final(selections)@ == old(selections)@.insert(tab.group@, tab.tab@),
{
    selections.select(tab.group.as_str(), tab.tab.as_str());
}

/// A tab whose interaction changed this frame.
pub struct TabInteraction {
    pub tab: LastBeaconUiTab,
    pub interaction: ButtonInteraction,
}

/// The selections after the changed tabs `changes`, in order: each pressed
/// tab becomes its group's selection.
pub open spec fn after_tab_presses(
    selections: Map<Seq<char>, Seq<char>>,
    changes: Seq<TabInteraction>,
) -> Map<Seq<char>, Seq<char>>
    decreases changes.len(),
{
    if changes.len() == 0 {
        selections
    } else {
        let before = after_tab_presses(selections, changes.drop_last());
        if changes.last().interaction == ButtonInteraction::Pressed {
            before.insert(changes.last().tab.group@, changes.last().tab.tab@)
        } else {
            before
        }
    }
}

/// Updates remembered tab selection from this frame's tab presses.
pub fn update_last_beacon_ui_tab_selection(
    selections: &mut LastBeaconUiTabSelections,
    changes: &Vec<TabInteraction>,
)
    ensures
        final(selections)@ == after_tab_presses(old(selections)@, changes@),
        (forall|i: int|
            0 <= i < changes@.len() ==> #[trigger] changes@[i].interaction
                != ButtonInteraction::Pressed) ==> final(selections)@ == old(selections)@,
        changes@.len() > 0 && changes@.last().interaction == ButtonInteraction::Pressed
            ==> final(selections)@.contains_key(changes@.last().tab.group@)
            && final(selections)@[changes@.last().tab.group@] == changes@.last().tab.tab@,
{
    let mut i: usize = 0;
    while i < changes.len()
        invariant
            i <= changes.len(),
            selections@ == after_tab_presses(old(selections)@, changes@.take(i as int)),
        decreases changes.len() - i,
    {
        assert(changes@.take(i + 1).drop_last() =~= changes@.take(i as int));
        if changes[i].interaction == ButtonInteraction::Pressed {
            apply_tab_selection_activation(&changes[i].tab, selections);
        }
        i = i + 1;
    }
    assert(changes@.take(changes.len() as int) =~= changes@);
    proof {
        if forall|i: int|
            0 <= i < changes@.len() ==> #[trigger] changes@[i].interaction
                != ButtonInteraction::Pressed {
            law_only_pressed_tabs_change_the_selection(old(selections)@, changes@);
        }
    }
}

/// Tab changes none of which is a press (hovering, leaving) leave the
/// remembered selections exactly as they were.
pub proof fn law_only_pressed_tabs_change_the_selection(
    selections: Map<Seq<char>, Seq<char>>,
    changes: Seq<TabInteraction>,
)
    requires
        forall|i: int|
            0 <= i < changes.len() ==> #[trigger] changes[i].interaction
                != ButtonInteraction::Pressed,
    ensures
        after_tab_presses(selections, changes) == selections,
    decreases changes.len(),
{
    if changes.len() > 0 {
        assert(changes.last().interaction == changes[changes.len() - 1].interaction);
        law_only_pressed_tabs_change_the_selection(selections, changes.drop_last());
    }
}

/// The dropdown states after toggling `target`: an empty target changes
/// nothing; otherwise the dropdown flips between open and closed.
pub open spec fn after_toggle(states: Map<Seq<char>, bool>, target: Seq<char>) -> Map<Seq<char>, bool> {
    if target.len() == 0 {
        states
    } else {
        states.insert(target, !dropdown_open(states, target))
    }
}

/// Opens a closed dropdown or closes an open one.
pub fn apply_dropdown_toggle_activation(
    toggle: &LastBeaconUiDropdownToggle,
    states: &mut LastBeaconUiDropdownStates,
)
    ensures
        final(states)@ == after_toggle(old(states)@, toggle.target@),
{
    if toggle.target.as_str().is_empty() {
        return;
    }
    let next_open_state = !dropdown_is_open(states, toggle.target.as_str());
    states.set(toggle.target.as_str(), next_open_state);
}

/// A dropdown toggle whose interaction changed this frame.
pub struct DropdownToggleInteraction {
    pub toggle: LastBeaconUiDropdownToggle,
    pub interaction: ButtonInteraction,
}

/// The dropdown states after this frame's toggle presses, in order.
pub open spec fn after_toggle_presses(
    states: Map<Seq<char>, bool>,
    changes: Seq<DropdownToggleInteraction>,
) -> Map<Seq<char>, bool>
    decreases changes.len(),
{
    if changes.len() == 0 {
        states
    } else {
        let before = after_toggle_presses(states, changes.drop_last());
        if changes.last().interaction == ButtonInteraction::Pressed {
            after_toggle(before, changes.last().toggle.target@)
        } else {
            before
        }
    }
}

/// Opens or closes dropdowns from this frame's toggle presses.
pub fn toggle_last_beacon_ui_dropdowns(
    states: &mut LastBeaconUiDropdownStates,
    changes: &Vec<DropdownToggleInteraction>,
)
    ensures
        final(states)@ == after_toggle_presses(old(states)@, changes@),
        (forall|i: int|
            0 <= i < changes@.len() ==> #[trigger] changes@[i].interaction
                != ButtonInteraction::Pressed) ==> final(states)@ == old(states)@,
        forall|target: Seq<char>|
            changes@.len() == 1 && changes@[0].interaction == ButtonInteraction::Pressed
                && changes@[0].toggle.target@.len() > 0 ==> #[trigger] dropdown_open(
                final(states)@,
                target,
            ) == if target == changes@[0].toggle.target@ {
                !dropdown_open(old(states)@, target)
            } else {
                dropdown_open(old(states)@, target)
            },
{
    let mut i: usize = 0;
    while i < changes.len()
        invariant
            i <= changes.len(),
            states@ == after_toggle_presses(old(states)@, changes@.take(i as int)),
        decreases changes.len() - i,
    {
        assert(changes@.take(i + 1).drop_last() =~= changes@.take(i as int));
        if changes[i].interaction == ButtonInteraction::Pressed {
            apply_dropdown_toggle_activation(&changes[i].toggle, states);
        }
        i = i + 1;
    }
    assert(changes@.take(changes.len() as int) =~= changes@);
    proof {
        if forall|i: int|
            0 <= i < changes@.len() ==> #[trigger] changes@[i].interaction
                != ButtonInteraction::Pressed {
            law_only_pressed_toggles_open_or_close_dropdowns(old(states)@, changes@);
        }
        if changes@.len() == 1 {
            assert(changes@.drop_last() =~= Seq::<DropdownToggleInteraction>::empty());
        }
    }
}

/// Toggle changes none of which is a press (hovering, leaving) leave every
/// dropdown's open state exactly as it was.
pub proof fn law_only_pressed_toggles_open_or_close_dropdowns(
    states: Map<Seq<char>, bool>,
    changes: Seq<DropdownToggleInteraction>,
)
    requires
        forall|i: int|
            0 <= i < changes.len() ==> #[trigger] changes[i].interaction
                != ButtonInteraction::Pressed,
    ensures
        after_toggle_presses(states, changes) == states,
    decreases changes.len(),
{
    if changes.len() > 0 {
        assert(changes.last().interaction == changes[changes.len() - 1].interaction);
        law_only_pressed_toggles_open_or_close_dropdowns(states, changes.drop_last());
    }
}

/// Toggling a dropdown twice leaves every dropdown exactly as open or closed
/// as it was.
pub proof fn law_toggling_twice_restores_every_dropdown(
    states: Map<Seq<char>, bool>,
    target: Seq<char>,
    other: Seq<char>,
)
    ensures
        dropdown_open(after_toggle(after_toggle(states, target), target), other) == dropdown_open(
            states,
            other,
        ),
{
}

/// Selecting a tab makes it the selected tab of its group and no sibling of
/// the same group counts as selected any more, whatever their authored
/// defaults; other groups are unaffected.
pub proof fn law_selecting_a_tab_deselects_its_siblings(
    selections: Map<Seq<char>, Seq<char>>,
    tab: LastBeaconUiTab,
    sibling: Seq<char>,
    sibling_default: bool,
    other_group: Seq<char>,
    other_tab: Seq<char>,
    other_default: bool,
)
    requires
        sibling != tab.tab@,
        other_group != tab.group@,
    ensures
        ({
            let after = selections.insert(tab.group@, tab.tab@);
            &&& selection_matches(after, tab.group@, tab.tab@, tab.selected)
            &&& !selection_matches(after, tab.group@, sibling, sibling_default)
            &&& selection_matches(after, other_group, other_tab, other_default)
                == selection_matches(selections, other_group, other_tab, other_default)
        }),
{
}

/// A value stored under a target reads back as stored, and every other
/// target keeps its value.
pub proof fn law_stored_values_read_back(
    values: Map<Seq<char>, Seq<char>>,
    target: Seq<char>,
    value: Seq<char>,
    other: Seq<char>,
)
    requires
        other != target,
    ensures
        values.insert(target, value).contains_key(target),
        values.insert(target, value)[target] == value,
        values.insert(target, value).contains_key(other) == values.contains_key(other),
        values.contains_key(other) ==> values.insert(target, value)[other] == values[other],
{
}

/// What a value-button press does, as far as it is not numeric: an empty
/// target does nothing; a non-empty `set_value` is stored under the target
/// and closes the dropdown of the same key. Returns whether the press asks
/// for a numeric step instead (a non-empty target with an empty `set_value`),
/// which leaves both stores unchanged here.
pub fn apply_value_button_activation(
    button: &LastBeaconUiValueButton,
    input_values: &mut LastBeaconUiInputValues,
    dropdown_states: &mut LastBeaconUiDropdownStates,
) -> (needs_numeric_step: bool)
    ensures
        needs_numeric_step == (button.target@.len() > 0 && button.set_value@.len() == 0),
        button.target@.len() > 0 && button.set_value@.len() > 0 ==> final(input_values)@ == old(
            input_values,
        )@.insert(button.target@, button.set_value@) && final(dropdown_states)@ == old(
            dropdown_states,
        )@.insert(button.target@, false),
        !(button.target@.len() > 0 && button.set_value@.len() > 0) ==> final(input_values)@
            == old(input_values)@ && final(dropdown_states)@ == old(dropdown_states)@,
{
    if button.target.as_str().is_empty() {
        return false;
    }
    if !button.set_value.as_str().is_empty() {
        input_values.set(button.target.as_str(), button.set_value.as_str());
        dropdown_states.set(button.target.as_str(), false);
        return false;
    }
    true
}

/// Stores `value` under `target` unless exactly that value is already
/// stored there; returns whether it wrote. Skipping the identical write keeps
/// the store from reporting a change that did not happen.
pub fn insert_input_value_if_changed(
    input_values: &mut LastBeaconUiInputValues,
    target: &str,
    value: &str,
) -> (wrote: bool)
    ensures
        final(input_values)@ == old(input_values)@.insert(target@, value@),
        wrote == !(old(input_values)@.contains_key(target@) && old(input_values)@[target@]
            == value@),
{
    let unchanged = match input_values.value(target) {
        Some(current_value) => str_eq(current_value.as_str(), value),
        None => false,
    };
    if unchanged {
        assert(input_values@.insert(target@, value@) =~= input_values@);
        return false;
    }
    input_values.set(target, value);
    true
}

/// The value a value text's authored label seeds: the label without the
/// text's prefix and suffix when it carries both, else the whole label.
pub open spec fn seeded_value(prefix: Seq<char>, suffix: Seq<char>, label: Seq<char>) -> Seq<char> {
    if label.len() >= prefix.len() + suffix.len() && label.take(prefix.len() as int) == prefix
        && label.skip(label.len() - suffix.len()) == suffix {
        label.subrange(prefix.len() as int, label.len() - suffix.len())
    } else {
        label
    }
}

/// The text a value text shows for `value`.
pub open spec fn rendered_value(prefix: Seq<char>, value: Seq<char>, suffix: Seq<char>) -> Seq<char> {
    prefix + value + suffix
}

/// Seeds the stored value of a value text from its authored label: nothing
/// happens for an empty target or one that already has a value; otherwise
/// the label, stripped of the prefix and suffix when it carries them, is stored.
pub fn initialize_last_beacon_ui_value_text(
    input_values: &mut LastBeaconUiInputValues,
    value_text: &LastBeaconUiValueText,
    label: &str,
)
    ensures
        value_text.target@.len() == 0 || old(input_values)@.contains_key(value_text.target@)
            ==> final(input_values)@ == old(input_values)@,
        !(value_text.target@.len() == 0 || old(input_values)@.contains_key(value_text.target@))
            ==> final(input_values)@ == old(input_values)@.insert(
            value_text.target@,
            seeded_value(value_text.prefix@, value_text.suffix@, label@),
        ),
{
    if value_text.target.as_str().is_empty() || input_values.contains(value_text.target.as_str()) {
        return;
    }
    let label_chars = chars_of(label);
    let prefix_chars = chars_of(value_text.prefix.as_str());
    let suffix_chars = chars_of(value_text.suffix.as_str());
    let n = label_chars.len();
    let p = prefix_chars.len();
    let s = suffix_chars.len();
    let mut stripped = false;
    if p <= n && s <= n - p {
        let head = vstd::slice::slice_subrange(label_chars.as_slice(), 0, p);
        let tail = vstd::slice::slice_subrange(label_chars.as_slice(), n - s, n);
        let head_text = string_from_chars(head);
        let tail_text = string_from_chars(tail);
        if str_eq(head_text.as_str(), value_text.prefix.as_str()) && str_eq(
            tail_text.as_str(),
            value_text.suffix.as_str(),
        ) {
            let middle = vstd::slice::slice_subrange(label_chars.as_slice(), p, n - s);
            let value = string_from_chars(middle);
            assert(label@.take(p as int) =~= head@);
            assert(label@.skip(n - s) =~= tail@);
            input_values.set(value_text.target.as_str(), value.as_str());
            stripped = true;
        } else {
            assert(!(label@.take(p as int) == value_text.prefix@ && label@.skip(n - s)
                == value_text.suffix@)) by {
                assert(label@.take(p as int) =~= head@);
                assert(label@.skip(n - s) =~= tail@);
            }
        }
    }
    if !stripped {
        input_values.set(value_text.target.as_str(), label);
    }
}

/// Seeding a value text from the text it renders for a value gives that value
/// back: a label rendered as prefix, value, suffix strips to the value.
pub proof fn law_seeding_a_rendered_value_recovers_it(
    prefix: Seq<char>,
    value: Seq<char>,
    suffix: Seq<char>,
)
    ensures
        seeded_value(prefix, suffix, rendered_value(prefix, value, suffix)) == value,
{
    let label = rendered_value(prefix, value, suffix);
    assert(label.take(prefix.len() as int) =~= prefix);
    assert(label.skip(label.len() - suffix.len()) =~= suffix);
    assert(label.subrange(prefix.len() as int, label.len() - suffix.len()) =~= value);
}

/// The text a value text shows for the stored value of its target, if one is stored.
pub fn rendered_value_text(
    input_values: &LastBeaconUiInputValues,
    value_text: &LastBeaconUiValueText,
) -> (r: Option<String>)
    ensures
        match r {
            Some(text) => input_values@.contains_key(value_text.target@) && text@ == rendered_value(
                value_text.prefix@,
                input_values@[value_text.target@],
                value_text.suffix@,
            ),
            None => !input_values@.contains_key(value_text.target@),
        },
{
    match input_values.value(value_text.target.as_str()) {
        Some(value) => {
            let head = crate::text::concatenated(value_text.prefix.as_str(), value.as_str());
            Some(crate::text::concatenated(head.as_str(), value_text.suffix.as_str()))
        },
        None => None,
    }
}

/// The radio icon symbol for a selected or unselected option.
pub fn radio_icon_symbol(selected: bool) -> (r: &'static str)
    ensures
        r@ == (if selected {
            "●"@
        } else {
            "○"@
        }),
{
    if selected {
        "●"
    } else {
        "○"
    }
}

/// The dropdown arrow symbol for an open or closed dropdown.
pub fn dropdown_icon_symbol(open: bool) -> (r: &'static str)
    ensures
        r@ == (if open {
            "▴"@
        } else {
            "▾"@
        }),
{
    if open {
        "▴"
    } else {
        "▾"
    }
}

/// The display of a panel that is shown or not.
pub open spec fn panel_display(shown: bool) -> PanelDisplay {
    if shown {
        PanelDisplay::Flex
    } else {
        PanelDisplay::Hidden
    }
}

/// The symbol each radio icon shows: filled for the selected option of its group.
pub fn refresh_last_beacon_ui_radio_icons(
    selections: &LastBeaconUiTabSelections,
    icons: &Vec<LastBeaconUiRadioIcon>,
) -> (r: Vec<&'static str>)
    ensures
        r@.len() == icons@.len(),
        forall|i: int|
            0 <= i < icons@.len() ==> #[trigger] r@[i]@ == (if selection_matches(
                selections@,
                icons@[i].group@,
                icons@[i].tab@,
                icons@[i].selected,
            ) {
                "●"@
            } else {
                "○"@
            }),
{
    let mut out: Vec<&'static str> = Vec::new();
    let mut i: usize = 0;
    while i < icons.len()
        invariant
            i <= icons.len(),
            out@.len() == i,
            forall|k: int|
                0 <= k < i ==> #[trigger] out@[k]@ == (if selection_matches(
                    selections@,
                    icons@[k].group@,
                    icons@[k].tab@,
                    icons@[k].selected,
                ) {
                    "●"@
                } else {
                    "○"@
                }),
        decreases icons.len() - i,
    {
        let icon = &icons[i];
        let selected = tab_is_selected(
            selections,
            icon.group.as_str(),
            icon.tab.as_str(),
            icon.selected,
        );
        out.push(radio_icon_symbol(selected));
        i = i + 1;
    }
    out
}

/// The arrow each dropdown icon shows: up while its dropdown is open.
pub fn refresh_last_beacon_ui_dropdown_icons(
    states: &LastBeaconUiDropdownStates,
    icons: &Vec<LastBeaconUiDropdownIcon>,
) -> (r: Vec<&'static str>)
    ensures
        r@.len() == icons@.len(),
        forall|i: int|
            0 <= i < icons@.len() ==> #[trigger] r@[i]@ == (if dropdown_open(
                states@,
                icons@[i].target@,
            ) {
                "▴"@
            } else {
                "▾"@
            }),
{
    let mut out: Vec<&'static str> = Vec::new();
    let mut i: usize = 0;
    while i < icons.len()
        invariant
            i <= icons.len(),
            out@.len() == i,
            forall|k: int|
                0 <= k < i ==> #[trigger] out@[k]@ == (if dropdown_open(
                    states@,
                    icons@[k].target@,
                ) {
                    "▴"@
                } else {
                    "▾"@
                }),
        decreases icons.len() - i,
    {
        let open = dropdown_is_open(states, icons[i].target.as_str());
        out.push(dropdown_icon_symbol(open));
        i = i + 1;
    }
    out
}

/// Each dropdown panel is laid out while its dropdown is open and hidden otherwise.
pub fn refresh_last_beacon_ui_dropdown_panels(
    states: &LastBeaconUiDropdownStates,
    panels: &Vec<LastBeaconUiDropdownPanel>,
) -> (r: Vec<PanelDisplay>)
    ensures
        r@.len() == panels@.len(),
        forall|i: int|
            0 <= i < panels@.len() ==> #[trigger] r@[i] == panel_display(
                dropdown_open(states@, panels@[i].target@),
            ),
{
    let mut out: Vec<PanelDisplay> = Vec::new();
    let mut i: usize = 0;
    while i < panels.len()
        invariant
            i <= panels.len(),
            out@.len() == i,
            forall|k: int|
                0 <= k < i ==> #[trigger] out@[k] == panel_display(
                    dropdown_open(states@, panels@[k].target@),
                ),
        decreases panels.len() - i,
    {
        let open = dropdown_is_open(states, panels[i].target.as_str());
        out.push(if open { PanelDisplay::Flex } else { PanelDisplay::Hidden });
        i = i + 1;
    }
    out
}

/// Each tab panel is laid out while its tab is selected and hidden otherwise.
pub fn refresh_last_beacon_ui_tab_panels(
    selections: &LastBeaconUiTabSelections,
    panels: &Vec<LastBeaconUiTabPanel>,
) -> (r: Vec<PanelDisplay>)
    ensures
        r@.len() == panels@.len(),
        forall|i: int|
            0 <= i < panels@.len() ==> #[trigger] r@[i] == panel_display(
                selection_matches(
                    selections@,
                    panels@[i].group@,
                    panels@[i].tab@,
                    panels@[i].selected,
                ),
            ),
{
    let mut out: Vec<PanelDisplay> = Vec::new();
    let mut i: usize = 0;
    while i < panels.len()
        invariant
            i <= panels.len(),
            out@.len() == i,
            forall|k: int|
                0 <= k < i ==> #[trigger] out@[k] == panel_display(
                    selection_matches(
                        selections@,
                        panels@[k].group@,
                        panels@[k].tab@,
                        panels@[k].selected,
                    ),
                ),
        decreases panels.len() - i,
    {
        let panel = &panels[i];
        let shown = tab_is_selected(
            selections,
            panel.group.as_str(),
            panel.tab.as_str(),
            panel.selected,
        );
        out.push(if shown { PanelDisplay::Flex } else { PanelDisplay::Hidden });
        i = i + 1;
    }
    out
}

/// The text each value text shows: its rendered stored value, or `None`
/// (leave the text alone) while its target has no stored value.
pub fn refresh_last_beacon_ui_value_text(
    input_values: &LastBeaconUiInputValues,
    value_texts: &Vec<LastBeaconUiValueText>,
) -> (r: Vec<Option<String>>)
    ensures
        r@.len() == value_texts@.len(),
        forall|i: int|
            0 <= i < value_texts@.len() ==> match #[trigger] r@[i] {
                Some(text) => input_values@.contains_key(value_texts@[i].target@) && text@
                    == rendered_value(
                    value_texts@[i].prefix@,
                    input_values@[value_texts@[i].target@],
                    value_texts@[i].suffix@,
                ),
                None => !input_values@.contains_key(value_texts@[i].target@),
            },
{
    let mut out: Vec<Option<String>> = Vec::new();
    let mut i: usize = 0;
    while i < value_texts.len()
        invariant
            i <= value_texts.len(),
            out@.len() == i,
            forall|k: int|
                0 <= k < i ==> match #[trigger] out@[k] {
                    Some(text) => input_values@.contains_key(value_texts@[k].target@) && text@
                        == rendered_value(
                        value_texts@[k].prefix@,
                        input_values@[value_texts@[k].target@],
                        value_texts@[k].suffix@,
                    ),
                    None => !input_values@.contains_key(value_texts@[k].target@),
                },
        decreases value_texts.len() - i,
    {
        out.push(rendered_value_text(input_values, &value_texts[i]));
        i = i + 1;
    }
    out
}

/// Whether a number field accepts a typed character: ASCII digits, `.` and `-`.
pub fn number_input_allows_character(character: char) -> (r: bool)
    ensures
        r == (('0' <= character && character <= '9') || character == '.' || character == '-'),
{
    ('0' <= character && character <= '9') || character == '.' || character == '-'
}

} // verus!
